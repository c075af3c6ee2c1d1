//! Usage records as Cherry Studio stores them, and as they are imported.

use crate::text::{text_is, text_of, text_or};
use vstd::prelude::*;

verus! {

/// One language-model invocation, in the terms of the usage log.
#[derive(Debug)]
pub struct CherryUsageRecord {
    pub request_id: String,
    pub provider_id: String,
    pub provider_name: String,
    pub model_id: String,
    pub input_tokens: u32,
    pub output_tokens: u32,
    pub cache_read_tokens: u32,
    pub cache_write_tokens: u32,
    pub first_token_ms: Option<i64>,
    pub duration_ms: i64,
    pub created_at: i64,
}

pub struct RecordView {
    pub request_id: Seq<char>,
    pub provider_id: Seq<char>,
    pub provider_name: Seq<char>,
    pub model_id: Seq<char>,
    pub input_tokens: u32,
    pub output_tokens: u32,
    pub cache_read_tokens: u32,
    pub cache_write_tokens: u32,
    pub first_token_ms: Option<i64>,
    pub duration_ms: i64,
    pub created_at: i64,
}

impl View for CherryUsageRecord {
    type V = RecordView;

    open spec fn view(&self) -> RecordView {
        RecordView {
            request_id: self.request_id@,
            provider_id: self.provider_id@,
            provider_name: self.provider_name@,
            model_id: self.model_id@,
            input_tokens: self.input_tokens,
            output_tokens: self.output_tokens,
            cache_read_tokens: self.cache_read_tokens,
            cache_write_tokens: self.cache_write_tokens,
            first_token_ms: self.first_token_ms,
            duration_ms: self.duration_ms,
            created_at: self.created_at,
        }
    }
}

/// The columns of a stored usage record that the import reads. A column that
/// is null is `None`.
pub struct UsageColumns {
    pub request_id: String,
    pub provider_id: Option<String>,
    pub provider_name: Option<String>,
    pub model_id: Option<String>,
    pub model_name: Option<String>,
    pub input_tokens: Option<i64>,
    pub output_tokens: Option<i64>,
    pub no_cache_tokens: Option<i64>,
    pub cache_read_tokens: Option<i64>,
    pub cache_write_tokens: Option<i64>,
    pub time_first_token_ms: Option<i64>,
    pub time_completion_ms: Option<i64>,
    /// In milliseconds.
    pub created_at: i64,
}

pub struct ColumnsView {
    pub request_id: Seq<char>,
    pub provider_id: Option<Seq<char>>,
    pub provider_name: Option<Seq<char>>,
    pub model_id: Option<Seq<char>>,
    pub model_name: Option<Seq<char>>,
    pub input_tokens: Option<i64>,
    pub output_tokens: Option<i64>,
    pub no_cache_tokens: Option<i64>,
    pub cache_read_tokens: Option<i64>,
    pub cache_write_tokens: Option<i64>,
    pub time_first_token_ms: Option<i64>,
    pub time_completion_ms: Option<i64>,
    pub created_at: i64,
}

impl View for UsageColumns {
    type V = ColumnsView;

    open spec fn view(&self) -> ColumnsView {
        ColumnsView {
            request_id: self.request_id@,
            provider_id: text_of(self.provider_id),
            provider_name: text_of(self.provider_name),
            model_id: text_of(self.model_id),
            model_name: text_of(self.model_name),
            input_tokens: self.input_tokens,
            output_tokens: self.output_tokens,
            no_cache_tokens: self.no_cache_tokens,
            cache_read_tokens: self.cache_read_tokens,
            cache_write_tokens: self.cache_write_tokens,
            time_first_token_ms: self.time_first_token_ms,
            time_completion_ms: self.time_completion_ms,
            created_at: self.created_at,
        }
    }
}

/// A row of the studio's usage table. `is_language` says whether the database
/// finds the row's modality equal to the one asked for, which goes by the
/// collation of the column; it is false where the modality is null.
/// `record_kind` is `None` where the column is null or missing, and `columns`
/// is the error of reading the other columns where they do not have the types
/// of [`UsageColumns`].
pub struct UsageRow {
    pub rowid: i64,
    pub is_language: bool,
    pub record_kind: Option<String>,
    pub columns: Result<UsageColumns, String>,
}

pub struct RowView {
    pub rowid: i64,
    pub is_language: bool,
    pub record_kind: Option<Seq<char>>,
    pub columns: Result<ColumnsView, Seq<char>>,
}

impl View for UsageRow {
    type V = RowView;

    open spec fn view(&self) -> RowView {
        RowView {
            rowid: self.rowid,
            is_language: self.is_language,
            record_kind: text_of(self.record_kind),
            columns: match self.columns {
                Ok(c) => Ok(c@),
                Err(e) => Err(e@),
            },
        }
    }
}

/// The views of a sequence of rows.
pub open spec fn row_views(rows: Seq<UsageRow>) -> Seq<RowView> {
    rows.map_values(|r: UsageRow| r@)
}

/// The views of a sequence of records.
pub open spec fn record_views(records: Seq<CherryUsageRecord>) -> Seq<RecordView> {
    records.map_values(|r: CherryUsageRecord| r@)
}

/// A stored counter as a count: a missing counter is zero, and one outside the
/// range of `u32` is brought to the nearer end of it.
pub open spec fn clamped(value: Option<i64>) -> u32 {
    match value {
        None => 0,
        Some(v) => if v < 0 {
            0
        } else if v > u32::MAX {
            u32::MAX
        } else {
            v as u32
        },
    }
}

/// The input tokens without cached ones: the studio's own count of them where
/// it has one, otherwise what all input tokens leave after the cached ones.
pub open spec fn fresh_input(columns: ColumnsView) -> u32 {
    let all = clamped(columns.input_tokens);
    let cached = clamped(columns.cache_read_tokens) + clamped(columns.cache_write_tokens);
    if columns.no_cache_tokens is Some {
        clamped(columns.no_cache_tokens)
    } else if all <= cached {
        0
    } else {
        (all - cached) as u32
    }
}

/// Milliseconds to seconds, toward zero.
pub open spec fn seconds(milliseconds: i64) -> i64 {
    if milliseconds >= 0 {
        (milliseconds as int / 1000) as i64
    } else {
        -(-(milliseconds as int) / 1000) as i64
    }
}

/// The imported form of a stored record.
pub open spec fn normalized(columns: ColumnsView) -> RecordView {
    RecordView {
        request_id: columns.request_id,
        provider_id: match columns.provider_id {
            Some(id) => id,
            None => "unknown"@,
        },
        provider_name: match columns.provider_name {
            Some(name) => name,
            None => "Cherry Studio"@,
        },
        model_id: match (columns.model_id, columns.model_name) {
            (Some(id), _) => id,
            (None, Some(name)) => name,
            (None, None) => "unknown"@,
        },
        input_tokens: fresh_input(columns),
        output_tokens: clamped(columns.output_tokens),
        cache_read_tokens: clamped(columns.cache_read_tokens),
        cache_write_tokens: clamped(columns.cache_write_tokens),
        first_token_ms: match columns.time_first_token_ms {
            Some(ms) => if ms >= 0 {
                Some(ms)
            } else {
                None
            },
            None => None,
        },
        duration_ms: match columns.time_completion_ms {
            Some(ms) => if ms >= 0 {
                ms
            } else {
                0
            },
            None => 0,
        },
        created_at: seconds(columns.created_at),
    }
}

impl RowView {
    /// The row is to be imported: it lies after `after_rowid` and up to
    /// `through_rowid`, belongs to a language model, and is no migrated
    /// aggregate, which would stand for several requests at once.
    pub open spec fn selected(self, after_rowid: i64, through_rowid: i64) -> bool {
        &&& after_rowid < self.rowid <= through_rowid
        &&& self.is_language
        &&& self.record_kind != Some("legacy-aggregate"@)
    }
}

/// Rowids ascend.
pub open spec fn ascending(rows: Seq<RowView>) -> bool {
    forall|i: int, j: int| 0 <= i < j < rows.len() ==> rows[i].rowid < rows[j].rowid
}

/// The rows to be imported, in order.
pub open spec fn selected_rows(rows: Seq<RowView>, after_rowid: i64, through_rowid: i64) -> Seq<
    RowView,
> {
    rows.filter(|r: RowView| r.selected(after_rowid, through_rowid))
}

/// The records of the rows to be imported, in order, or the error of the first
/// of them that could not be read.
pub open spec fn usage_records(rows: Seq<RowView>, after_rowid: i64, through_rowid: i64) -> Result<
    Seq<RecordView>,
    Seq<char>,
> {
    let chosen = selected_rows(rows, after_rowid, through_rowid);
    let unreadable = chosen.filter(|r: RowView| r.columns is Err);
    if unreadable.len() > 0 {
        Err(unreadable[0].columns->Err_0)
    } else {
        Ok(chosen.map_values(|r: RowView| normalized(r.columns->Ok_0)))
    }
}

pub fn nonnegative_u32(value: Option<i64>) -> (count: u32)
    ensures
        count == clamped(value),
{
    match value {
        None => 0,
        Some(v) => if v < 0 {
            0
        } else if v > u32::MAX as i64 {
            u32::MAX
        } else {
            v as u32
        },
    }
}

/// The imported form of a stored record.
pub fn normalize_columns(columns: &UsageColumns) -> (record: CherryUsageRecord)
    ensures
        record@ == normalized(columns@),
{
    let all_input = nonnegative_u32(columns.input_tokens);
    let cache_read = nonnegative_u32(columns.cache_read_tokens);
    let cache_write = nonnegative_u32(columns.cache_write_tokens);
    let input_tokens: u32 = match columns.no_cache_tokens {
        Some(value) => nonnegative_u32(Some(value)),
        None => all_input.saturating_sub(cache_read.saturating_add(cache_write)),
    };
    let first_token_ms: Option<i64> = match columns.time_first_token_ms {
        Some(ms) => if ms >= 0 {
            Some(ms)
        } else {
            None
        },
        None => None,
    };
    let duration_ms: i64 = match columns.time_completion_ms {
        Some(ms) => if ms >= 0 {
            ms
        } else {
            0
        },
        None => 0,
    };
    CherryUsageRecord {
        request_id: columns.request_id.clone(),
        provider_id: text_or(&columns.provider_id, "unknown"),
        provider_name: text_or(&columns.provider_name, "Cherry Studio"),
        model_id: match &columns.model_id {
            Some(id) => id.clone(),
            None => text_or(&columns.model_name, "unknown"),
        },
        input_tokens,
        output_tokens: nonnegative_u32(columns.output_tokens),
        cache_read_tokens: cache_read,
        cache_write_tokens: cache_write,
        first_token_ms,
        duration_ms,
        created_at: columns.created_at / 1000,
    }
}

fn is_selected(row: &UsageRow, after_rowid: i64, through_rowid: i64) -> (selected: bool)
    ensures
        selected == row@.selected(after_rowid, through_rowid),
{
    after_rowid < row.rowid && row.rowid <= through_rowid && row.is_language
        && !text_is(&row.record_kind, "legacy-aggregate")
}

/// Filtering a sequence that grew at its end.
pub(crate) proof fn lemma_filter_push<A>(s: Seq<A>, x: A, p: spec_fn(A) -> bool)
    ensures
        s.push(x).filter(p) == (if p(x) {
            s.filter(p).push(x)
        } else {
            s.filter(p)
        }),
{
    reveal(Seq::filter);
    assert(s.push(x).drop_last() =~= s);
}

/// Reads the records to be imported out of the rows of the usage table: those
/// with a rowid after `after_rowid` and up to `through_rowid` that stand for
/// one language-model invocation each. Fails with the error of the first such
/// row that could not be read.
pub fn query_usage_records(rows: &Vec<UsageRow>, after_rowid: i64, through_rowid: i64) -> (records:
    Result<Vec<CherryUsageRecord>, String>)
    ensures
        match records {
            Ok(r) => usage_records(row_views(rows@), after_rowid, through_rowid) == Ok::<
                Seq<RecordView>,
                Seq<char>,
            >(record_views(r@)),
            Err(e) => usage_records(row_views(rows@), after_rowid, through_rowid) == Err::<
                Seq<RecordView>,
                Seq<char>,
            >(e@),
        },
{
    let ghost views = row_views(rows@);
    let ghost wanted = |r: RowView| r.selected(after_rowid, through_rowid);
    let ghost failed = |r: RowView| r.columns is Err;
    let ghost normal = |r: RowView| normalized(r.columns->Ok_0);
    let mut records: Vec<CherryUsageRecord> = Vec::new();
    let mut i: usize = 0;
    proof {
        reveal(Seq::filter);
        assert(views.take(0).filter(wanted) =~= Seq::empty());
        assert(record_views(records@) =~= views.take(0).filter(wanted).map_values(normal));
    }
    while i < rows.len()
        invariant
            i <= rows.len(),
            views == row_views(rows@),
            wanted == |r: RowView| r.selected(after_rowid, through_rowid),
            failed == |r: RowView| r.columns is Err,
            normal == |r: RowView| normalized(r.columns->Ok_0),
            record_views(records@) == views.take(i as int).filter(wanted).map_values(normal),
            views.take(i as int).filter(wanted).filter(failed).len() == 0,
        decreases rows.len() - i,
    {
        let row = &rows[i];
        let ghost before = views.take(i as int).filter(wanted);
        proof {
            assert(views[i as int] == row@);
            assert(views.take(i + 1) =~= views.take(i as int).push(row@));
            lemma_filter_push(views.take(i as int), row@, wanted);
            lemma_filter_push(before, row@, failed);
        }
        if is_selected(row, after_rowid, through_rowid) {
            match &row.columns {
                Ok(columns) => {
                    let record = normalize_columns(columns);
                    let ghost old_records = records@;
                    records.push(record);
                    proof {
                        assert(record_views(records@) =~= record_views(old_records).push(record@));
                        assert(before.push(row@).map_values(normal) =~= before.map_values(
                            normal,
                        ).push(normal(row@)));
                    }
                },
                Err(error) => {
                    proof {
                        let rest = views.skip(i + 1);
                        assert(views =~= views.take(i + 1) + rest);
                        Seq::filter_distributes_over_add(views.take(i + 1), rest, wanted);
                        Seq::filter_distributes_over_add(
                            before.push(row@),
                            rest.filter(wanted),
                            failed,
                        );
                        assert(before.push(row@).filter(failed) =~= seq![row@]);
                    }
                    return Err(error.clone());
                },
            }
        }
        i += 1;
    }
    assert(views.take(rows.len() as int) =~= views);
    Ok(records)
}

} // verus!
