//! What holds of the entries and rows that records are kept as.

use crate::backfill::{backfill_entries, LoggedView};
use crate::import::{costed_view, ledger_view, log_view, logged_id};
use crate::pricing::{CostTextsView, PricingView};
use crate::protocol::{InputTokenSemantics, LedgerView, LogView};
use crate::usage::{lemma_filter_push, RecordView};
use crate::world::ledger_key;
use vstd::prelude::*;

verus! {

/// The identity of a record is the name of the source, a colon, and the whole
/// id of its request: nothing of the id is cut off and nothing is added.
pub proof fn law_identity_is_the_whole_request_id(record: RecordView)
    ensures
        logged_id(record).len() == 14 + record.request_id.len(),
        logged_id(record).take(14) == "cherry_studio:"@,
        logged_id(record).skip(14) == record.request_id,
{
    reveal_strlit("cherry_studio:");
    assert(logged_id(record).take(14) =~= "cherry_studio:"@);
    assert(logged_id(record).skip(14) =~= record.request_id);
}

/// Two records have the same ledger key if and only if their requests have the
/// same id, and the same holds of the ids that they are logged under.
pub proof fn law_requests_are_told_apart(
    one: RecordView,
    other: RecordView,
    cost: CostTextsView,
    other_cost: CostTextsView,
)
    ensures
        ledger_key(ledger_view(one)) == ledger_key(ledger_view(other)) <==> one.request_id
            == other.request_id,
        ledger_view(one).semantic_id == ledger_view(other).semantic_id <==> one.request_id
            == other.request_id,
        costed_view(one, cost).request_id == costed_view(other, other_cost).request_id
            <==> one.request_id == other.request_id,
{
    law_identity_is_the_whole_request_id(one);
    law_identity_is_the_whole_request_id(other);
}

/// A record is entered and logged under one identity, with the source that it
/// comes from.
pub proof fn law_ledger_and_log_agree(record: RecordView, cost: CostTextsView)
    ensures
        ledger_view(record).request_id == costed_view(record, cost).request_id,
        ledger_view(record).semantic_id == ledger_view(record).request_id,
        ledger_view(record).request_id == "cherry_studio:"@ + record.request_id,
        ledger_view(record).data_source == costed_view(record, cost).data_source,
        ledger_view(record).data_source == "cherry_studio"@,
        ledger_view(record).has_entry_id,
{
}

/// A log row holds every part of its record and the cost that it was given, so
/// that rows differ wherever records or costs do.
pub proof fn law_log_row_loses_nothing(
    one: RecordView,
    cost: CostTextsView,
    other: RecordView,
    other_cost: CostTextsView,
)
    ensures
        costed_view(one, cost) == costed_view(other, other_cost) <==> one == other && cost
            == other_cost,
{
    law_requests_are_told_apart(one, other, cost, other_cost);
}

/// A log row counts the tokens of its record, kind by kind, and names the model
/// in all three places. The provider is known by its name, and its id is its
/// type. The latency is the whole duration; the request succeeded, was
/// streamed, belongs to no session, and is billed without a multiplier.
pub proof fn law_log_row_says_what_the_record_says(
    record: RecordView,
    pricing: Option<PricingView>,
    row: LogView,
)
    requires
        log_view(record, pricing) == Some(row),
    ensures
        row.input_tokens == record.input_tokens,
        row.output_tokens == record.output_tokens,
        row.cache_read_tokens == record.cache_read_tokens,
        row.cache_creation_tokens == record.cache_write_tokens,
        row.input_token_semantics == InputTokenSemantics::Fresh,
        row.model == record.model_id,
        row.request_model == row.model,
        row.pricing_model == row.model,
        row.provider_id == record.provider_name,
        row.provider_type == record.provider_id,
        row.duration_ms == record.duration_ms,
        row.latency_ms == row.duration_ms,
        row.first_token_ms == record.first_token_ms,
        row.created_at == record.created_at,
        row.status_code == 200,
        row.error_message is None,
        row.session_id is None,
        row.is_streaming,
        row.cost_multiplier == "1.0"@,
        row.app_type == "cherry-studio"@,
        row.data_source == "cherry_studio"@,
        row.request_id == "cherry_studio:"@ + record.request_id,
{
}

/// A log without rows needs no entries.
pub proof fn law_empty_log_needs_no_entries()
    ensures
        backfill_entries(Seq::empty()) == Seq::<LedgerView>::empty(),
{
    reveal(Seq::filter);
}

/// A row that is added at the end of a log adds its entry at the end of the
/// entries, if it has an id, is of the application and comes from the source.
/// Otherwise it adds nothing.
pub proof fn law_each_imported_row_adds_its_entry(rows: Seq<LoggedView>, row: LoggedView)
    ensures
        ({
            let before = backfill_entries(rows);
            let after = backfill_entries(rows.push(row));
            if row.is_app_type && row.is_data_source && row.request_id is Some {
                after == before.push(
                    LedgerView {
                        data_source: "cherry_studio"@,
                        request_id: row.request_id->0,
                        semantic_id: row.request_id->0,
                        has_entry_id: true,
                    },
                )
            } else {
                after == before
            }
        }),
{
    let wanted = |r: LoggedView| r.is_imported();
    let entered = |r: LoggedView| r.ledger_entry();
    lemma_filter_push(rows, row, wanted);
    assert(rows.filter(wanted).push(row).map_values(entered) =~= rows.filter(wanted).map_values(
        entered,
    ).push(entered(row)));
}

/// The backfill enters a logged record under the key that its import would.
pub proof fn law_backfill_and_import_agree(record: RecordView, row: LoggedView)
    requires
        row.request_id == Some("cherry_studio:"@ + record.request_id),
    ensures
        row.ledger_entry() == ledger_view(record),
{
}

} // verus!
