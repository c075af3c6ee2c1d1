//! Ledger entries for log rows that were imported before there was a ledger.

use crate::protocol::{LedgerEntry, LedgerView, APP_TYPE, DATA_SOURCE};
use crate::text::text_of;
use crate::usage::lemma_filter_push;
use vstd::prelude::*;

verus! {

/// What log rows are compared with to tell those that were imported from
/// Cherry Studio.
#[derive(Debug)]
pub struct LoggedQuery {
    pub app_type: String,
    pub data_source: String,
}

/// What the backfill asks of the rows of a usage log.
pub fn backfill_query() -> (query: LoggedQuery)
    ensures
        query.app_type@ == APP_TYPE@,
        query.data_source@ == DATA_SOURCE@,
        query.app_type@ == "cherry-studio"@,
        query.data_source@ == "cherry_studio"@,
{
    LoggedQuery { app_type: APP_TYPE.to_string(), data_source: DATA_SOURCE.to_string() }
}

/// What the backfill reads of a row of the usage log. `is_app_type` and
/// `is_data_source` say whether the database finds the columns equal to those
/// of the [`LoggedQuery`], which goes by their collation; they are false where
/// a column is null. An id that is null is `None`.
pub struct LoggedRequest {
    pub request_id: Option<String>,
    pub is_app_type: bool,
    pub is_data_source: bool,
}

pub struct LoggedView {
    pub request_id: Option<Seq<char>>,
    pub is_app_type: bool,
    pub is_data_source: bool,
}

impl View for LoggedRequest {
    type V = LoggedView;

    open spec fn view(&self) -> LoggedView {
        LoggedView {
            request_id: text_of(self.request_id),
            is_app_type: self.is_app_type,
            is_data_source: self.is_data_source,
        }
    }
}

impl LoggedView {
    /// The row was imported from Cherry Studio, and has an id.
    pub open spec fn is_imported(self) -> bool {
        &&& self.request_id is Some
        &&& self.is_app_type
        &&& self.is_data_source
    }

    /// The ledger entry that the row would have been imported with.
    pub open spec fn ledger_entry(self) -> LedgerView {
        LedgerView {
            data_source: DATA_SOURCE@,
            request_id: self.request_id->0,
            semantic_id: self.request_id->0,
            has_entry_id: true,
        }
    }
}

/// The views of a sequence of logged requests.
pub open spec fn logged_views(rows: Seq<LoggedRequest>) -> Seq<LoggedView> {
    rows.map_values(|r: LoggedRequest| r@)
}

/// The views of a sequence of ledger entries.
pub open spec fn ledger_views(entries: Seq<LedgerEntry>) -> Seq<LedgerView> {
    entries.map_values(|e: LedgerEntry| e@)
}

/// The ledger entries of the imported rows, in order.
pub open spec fn backfill_entries(rows: Seq<LoggedView>) -> Seq<LedgerView> {
    rows.filter(|r: LoggedView| r.is_imported()).map_values(|r: LoggedView| r.ledger_entry())
}

/// The entries to be entered in the ledger, unless it has them, for the rows
/// of a usage log. Rows of other applications and other sources get none, nor
/// do rows without an id, which the ledger does not take.
pub fn backfill_dedup_ledger(rows: &Vec<LoggedRequest>) -> (entries: Vec<LedgerEntry>)
    ensures
        ledger_views(entries@) == backfill_entries(logged_views(rows@)),
{
    let ghost views = logged_views(rows@);
    let ghost wanted = |r: LoggedView| r.is_imported();
    let ghost entered = |r: LoggedView| r.ledger_entry();
    let mut entries: Vec<LedgerEntry> = Vec::new();
    let mut i: usize = 0;
    proof {
        reveal(Seq::filter);
        assert(ledger_views(entries@) =~= views.take(0).filter(wanted).map_values(entered));
    }
    while i < rows.len()
        invariant
            i <= rows.len(),
            views == logged_views(rows@),
            wanted == |r: LoggedView| r.is_imported(),
            entered == |r: LoggedView| r.ledger_entry(),
            ledger_views(entries@) == views.take(i as int).filter(wanted).map_values(entered),
        decreases rows.len() - i,
    {
        let row = &rows[i];
        let ghost before = views.take(i as int).filter(wanted);
        proof {
            assert(views.take(i + 1) =~= views.take(i as int).push(row@));
            lemma_filter_push(views.take(i as int), row@, wanted);
        }
        if row.is_app_type && row.is_data_source {
            if let Some(request_id) = &row.request_id {
                let entry = LedgerEntry {
                    data_source: DATA_SOURCE.to_string(),
                    request_id: request_id.clone(),
                    semantic_id: request_id.clone(),
                    has_entry_id: true,
                };
                let ghost old_entries = entries@;
                entries.push(entry);
                proof {
                    assert(ledger_views(entries@) =~= ledger_views(old_entries).push(entry@));
                    assert(before.push(row@).map_values(entered) =~= before.map_values(
                        entered,
                    ).push(entered(row@)));
                }
            }
        }
        i += 1;
    }
    assert(views.take(rows.len() as int) =~= views);
    entries
}

} // verus!
