//! What contracts say of views, they say of the values: every view holds each
//! part of its value in the place of that part.

use crate::backfill::{ledger_views, logged_views, LoggedRequest};
use crate::pricing::{pricing_view, CostBreakdown, CostTexts, ModelPricing};
use crate::protocol::{
    ActionView, ErrorView, EventView, LedgerEntry, LogRow, RowsFailure, RowsFailureView,
    SessionSyncResult, SyncAction, SyncError, SyncEvent,
};
use crate::text::{text_of, texts};
use crate::usage::{record_views, row_views, CherryUsageRecord, UsageColumns, UsageRow};
use vstd::prelude::*;

verus! {

/// A record is viewed field by field.
pub proof fn law_records_are_viewed_whole(record: CherryUsageRecord)
    ensures
        record@.request_id == record.request_id@,
        record@.provider_id == record.provider_id@,
        record@.provider_name == record.provider_name@,
        record@.model_id == record.model_id@,
        record@.input_tokens == record.input_tokens,
        record@.output_tokens == record.output_tokens,
        record@.cache_read_tokens == record.cache_read_tokens,
        record@.cache_write_tokens == record.cache_write_tokens,
        record@.first_token_ms == record.first_token_ms,
        record@.duration_ms == record.duration_ms,
        record@.created_at == record.created_at,
{
}

/// Stored columns are viewed field by field.
pub proof fn law_columns_are_viewed_whole(columns: UsageColumns)
    ensures
        columns@.request_id == columns.request_id@,
        columns@.provider_id == text_of(columns.provider_id),
        columns@.provider_name == text_of(columns.provider_name),
        columns@.model_id == text_of(columns.model_id),
        columns@.model_name == text_of(columns.model_name),
        columns@.input_tokens == columns.input_tokens,
        columns@.output_tokens == columns.output_tokens,
        columns@.no_cache_tokens == columns.no_cache_tokens,
        columns@.cache_read_tokens == columns.cache_read_tokens,
        columns@.cache_write_tokens == columns.cache_write_tokens,
        columns@.time_first_token_ms == columns.time_first_token_ms,
        columns@.time_completion_ms == columns.time_completion_ms,
        columns@.created_at == columns.created_at,
{
}

/// Rows of the usage table and of the log are viewed field by field.
pub proof fn law_rows_are_viewed_whole(row: UsageRow, logged: LoggedRequest)
    ensures
        row@.rowid == row.rowid,
        row@.is_language == row.is_language,
        row@.record_kind == text_of(row.record_kind),
        row.columns matches Ok(columns) ==> row@.columns == Ok::<_, Seq<char>>(columns@),
        row.columns matches Err(error) ==> row@.columns is Err && row@.columns->Err_0 == error@,
        logged@.request_id == text_of(logged.request_id),
        logged@.is_app_type == logged.is_app_type,
        logged@.is_data_source == logged.is_data_source,
{
}

/// A ledger entry is viewed field by field.
pub proof fn law_ledger_entries_are_viewed_whole(entry: LedgerEntry)
    ensures
        entry@.data_source == entry.data_source@,
        entry@.request_id == entry.request_id@,
        entry@.semantic_id == entry.semantic_id@,
        entry@.has_entry_id == entry.has_entry_id,
{
}

/// A log row is viewed field by field.
pub proof fn law_log_rows_are_viewed_whole(row: LogRow)
    ensures
        row@.request_id == row.request_id@,
        row@.provider_id == row.provider_id@,
        row@.app_type == row.app_type@,
        row@.model == row.model@,
        row@.request_model == row.request_model@,
        row@.pricing_model == row.pricing_model@,
        row@.input_tokens == row.input_tokens,
        row@.output_tokens == row.output_tokens,
        row@.cache_read_tokens == row.cache_read_tokens,
        row@.cache_creation_tokens == row.cache_creation_tokens,
        row@.input_token_semantics == row.input_token_semantics,
        row@.cost.input == row.input_cost_usd@,
        row@.cost.output == row.output_cost_usd@,
        row@.cost.cache_read == row.cache_read_cost_usd@,
        row@.cost.cache_creation == row.cache_creation_cost_usd@,
        row@.cost.total == row.total_cost_usd@,
        row@.latency_ms == row.latency_ms,
        row@.first_token_ms == row.first_token_ms,
        row@.duration_ms == row.duration_ms,
        row@.status_code == row.status_code,
        row@.error_message == text_of(row.error_message),
        row@.session_id == text_of(row.session_id),
        row@.provider_type == row.provider_type@,
        row@.is_streaming == row.is_streaming,
        row@.cost_multiplier == row.cost_multiplier@,
        row@.created_at == row.created_at,
        row@.data_source == row.data_source@,
        row@.tokens().input_tokens == row.input_tokens,
        row@.tokens().output_tokens == row.output_tokens,
        row@.tokens().cache_read_tokens == row.cache_read_tokens,
        row@.tokens().cache_creation_tokens == row.cache_creation_tokens,
{
}

/// Prices, costs and their texts are viewed field by field.
pub proof fn law_costs_are_viewed_whole(
    pricing: ModelPricing,
    cost: CostBreakdown,
    written: CostTexts,
)
    ensures
        pricing@.input == pricing.input_cost_per_million@,
        pricing@.output == pricing.output_cost_per_million@,
        pricing@.cache_read == pricing.cache_read_cost_per_million@,
        pricing@.cache_creation == pricing.cache_creation_cost_per_million@,
        cost@.input == cost.input_cost@,
        cost@.output == cost.output_cost@,
        cost@.cache_read == cost.cache_read_cost@,
        cost@.cache_creation == cost.cache_creation_cost@,
        cost@.total == cost.total_cost@,
        written@.input == written.input@,
        written@.output == written.output@,
        written@.cache_read == written.cache_read@,
        written@.cache_creation == written.cache_creation@,
        written@.total == written.total@,
        pricing_view(Some(pricing)) == Some(pricing@),
        pricing_view(None) is None,
{
}

/// Results and errors are viewed with all that they hold.
pub proof fn law_results_are_viewed_whole(result: SessionSyncResult, error: SyncError)
    ensures
        result@.imported == result.imported,
        result@.skipped == result.skipped,
        result@.files_scanned == result.files_scanned,
        result@.errors == texts(result.errors@),
        error matches SyncError::Io { path, error: e } ==> error@ == (ErrorView::Io {
            path: path@,
            error: e@,
        }),
        error matches SyncError::Database(message) ==> error@ == ErrorView::Database(message@),
        error matches SyncError::Store(message) ==> error@ == ErrorView::Store(message@),
        error is CostOverflow ==> error@ == ErrorView::CostOverflow,
{
}

/// Events are viewed with all that they hold.
pub proof fn law_events_are_viewed_whole(event: SyncEvent, failure: RowsFailure)
    ensures
        event is Missing ==> event@ == EventView::Missing,
        event matches SyncEvent::Found { file_path } ==> event@ == (EventView::Found {
            file_path: file_path@,
        }),
        event matches SyncEvent::Modified(time) ==> event@ == EventView::Modified(time),
        event matches SyncEvent::LogModified(time) ==> event@ == EventView::LogModified(time),
        event matches SyncEvent::Cursor(cursor) ==> event@ == EventView::Cursor(cursor),
        event matches SyncEvent::Answer(answer) ==> event@ == EventView::Answer(answer),
        event matches SyncEvent::MaxRowid(rowid) ==> event@ == EventView::MaxRowid(rowid),
        event matches SyncEvent::Rows(rows) ==> event@ == EventView::Rows(row_views(rows@)),
        event matches SyncEvent::RowsFailed(f) ==> event@ == EventView::RowsFailed(f@),
        event matches SyncEvent::Inserted(count) ==> event@ == EventView::Inserted(count),
        event matches SyncEvent::Pricing(pricing) ==> event@ == EventView::Pricing(
            pricing_view(pricing),
        ),
        event is Done ==> event@ == EventView::Done,
        event matches SyncEvent::Failed(error) ==> event@ == EventView::Failed(error@),
        failure matches RowsFailure::Prepare(error) ==> failure@ == RowsFailureView::Prepare(
            error@,
        ),
        failure matches RowsFailure::Query(error) ==> failure@ == RowsFailureView::Query(error@),
        failure matches RowsFailure::Row(error) ==> failure@ == RowsFailureView::Row(error@),
{
}

/// Actions are viewed with all that they hold.
pub proof fn law_actions_are_viewed_whole(action: SyncAction)
    ensures
        action is Locate <==> action@ is Locate,
        action is ReadModified <==> action@ is ReadModified,
        action is OpenStudio <==> action@ is OpenStudio,
        action is BeginImport <==> action@ is BeginImport,
        action is Commit <==> action@ is Commit,
        action matches SyncAction::ReadLogModified { path } ==> action@
            == (ActionView::ReadLogModified { path: path@ }),
        action matches SyncAction::LoadCursor { file_path } ==> action@
            == (ActionView::LoadCursor { file_path: file_path@ }),
        action matches SyncAction::FindTable { table } ==> action@ == (ActionView::FindTable {
            table: table@,
        }),
        action matches SyncAction::ReadMaxRowid { table } ==> action@
            == (ActionView::ReadMaxRowid { table: table@ }),
        action matches SyncAction::FindColumn { table, column } ==> action@
            == (ActionView::FindColumn { table: table@, column: column@ }),
        action matches SyncAction::ReadRows {
            table,
            after_rowid,
            through_rowid,
            modality,
            with_record_kind,
        } ==> action@ == (ActionView::ReadRows {
            table: table@,
            after_rowid,
            through_rowid,
            modality: modality@,
            with_record_kind,
        }),
        action matches SyncAction::InsertLedger(entry) ==> action@ == ActionView::InsertLedger(
            entry@,
        ),
        action matches SyncAction::FindPricing { model_id } ==> action@
            == (ActionView::FindPricing { model_id: model_id@ }),
        action matches SyncAction::InsertLog(row) ==> action@ == ActionView::InsertLog(row@),
        action matches SyncAction::SaveCursor { file_path, cursor } ==> action@
            == (ActionView::SaveCursor { file_path: file_path@, cursor }),
        action matches SyncAction::Finish(Ok(result)) ==> action@ == ActionView::Finish(
            Ok(result@),
        ),
        action matches SyncAction::Finish(Err(error)) ==> action@ == ActionView::Finish(
            Err(error@),
        ),
{
}

/// Sequences are viewed item by item.
pub proof fn law_sequences_are_viewed_whole(
    rows: Seq<UsageRow>,
    records: Seq<CherryUsageRecord>,
    logged: Seq<LoggedRequest>,
    entries: Seq<LedgerEntry>,
    strings: Seq<String>,
    i: int,
)
    ensures
        row_views(rows).len() == rows.len(),
        record_views(records).len() == records.len(),
        logged_views(logged).len() == logged.len(),
        ledger_views(entries).len() == entries.len(),
        texts(strings).len() == strings.len(),
        0 <= i < rows.len() ==> row_views(rows)[i] == rows[i]@,
        0 <= i < records.len() ==> record_views(records)[i] == records[i]@,
        0 <= i < logged.len() ==> logged_views(logged)[i] == logged[i]@,
        0 <= i < entries.len() ==> ledger_views(entries)[i] == entries[i]@,
        0 <= i < strings.len() ==> texts(strings)[i] == strings[i]@,
{
}

} // verus!
