//! What the import asks of its caller, and what it is told in return.
//!
//! The caller performs one [`SyncAction`] at a time and reports a
//! [`SyncEvent`]. Between [`SyncAction::BeginImport`] and
//! [`SyncAction::Commit`] all writes belong to one transaction of the usage
//! database, which is rolled back where the run finishes before the commit.

use crate::pricing::{pricing_view, CostTextsView, ModelPricing, PricingView, TokenUsage};
use crate::text::{text_of, texts};
use crate::usage::{row_views, RowView, UsageRow};
use vstd::prelude::*;

verus! {

/// The application that imported entries are logged for.
pub const APP_TYPE: &'static str = "cherry-studio";

/// Where imported entries come from.
pub const DATA_SOURCE: &'static str = "cherry_studio";

/// What a run did.
#[derive(Debug)]
pub struct SessionSyncResult {
    pub imported: u32,
    pub skipped: u32,
    pub files_scanned: u32,
    pub errors: Vec<String>,
}

pub struct ResultView {
    pub imported: u32,
    pub skipped: u32,
    pub files_scanned: u32,
    pub errors: Seq<Seq<char>>,
}

impl View for SessionSyncResult {
    type V = ResultView;

    open spec fn view(&self) -> ResultView {
        ResultView {
            imported: self.imported,
            skipped: self.skipped,
            files_scanned: self.files_scanned,
            errors: texts(self.errors@),
        }
    }
}

/// Why a run failed.
#[derive(Debug)]
pub enum SyncError {
    /// The studio's database file could not be inspected.
    Io { path: String, error: String },
    /// The studio's database could not be read; the message says at what.
    Database(String),
    /// The usage database failed, with its own message.
    Store(String),
    /// The cost of a request is beyond the range of amounts.
    CostOverflow,
}

pub enum ErrorView {
    Io { path: Seq<char>, error: Seq<char> },
    Database(Seq<char>),
    Store(Seq<char>),
    CostOverflow,
}

impl View for SyncError {
    type V = ErrorView;

    open spec fn view(&self) -> ErrorView {
        match self {
            SyncError::Io { path, error } => ErrorView::Io { path: path@, error: error@ },
            SyncError::Database(message) => ErrorView::Database(message@),
            SyncError::Store(message) => ErrorView::Store(message@),
            SyncError::CostOverflow => ErrorView::CostOverflow,
        }
    }
}

/// How far a file has been imported: its modification time in nanoseconds and
/// the highest position that was read.
#[derive(Clone, Copy, Debug, PartialEq, Eq, Structural)]
pub struct SyncCursor {
    pub last_modified: i64,
    pub last_line_offset: i64,
}

/// An entry of the deduplication ledger. It outlives the log entry that it was
/// made with, so that a request is never logged twice.
#[derive(Debug)]
pub struct LedgerEntry {
    pub data_source: String,
    pub request_id: String,
    pub semantic_id: String,
    pub has_entry_id: bool,
}

pub struct LedgerView {
    pub data_source: Seq<char>,
    pub request_id: Seq<char>,
    pub semantic_id: Seq<char>,
    pub has_entry_id: bool,
}

impl View for LedgerEntry {
    type V = LedgerView;

    open spec fn view(&self) -> LedgerView {
        LedgerView {
            data_source: self.data_source@,
            request_id: self.request_id@,
            semantic_id: self.semantic_id@,
            has_entry_id: self.has_entry_id,
        }
    }
}

/// What an input token count of the log counts.
#[derive(Clone, Copy, Debug, PartialEq, Eq, Structural)]
pub enum InputTokenSemantics {
    /// All input tokens, cached ones among them.
    Total,
    /// Only input tokens that did not pass through a cache.
    Fresh,
}

/// A row of the usage log.
#[derive(Debug)]
pub struct LogRow {
    pub request_id: String,
    pub provider_id: String,
    pub app_type: String,
    pub model: String,
    pub request_model: String,
    pub pricing_model: String,
    pub input_tokens: u32,
    pub output_tokens: u32,
    pub cache_read_tokens: u32,
    pub cache_creation_tokens: u32,
    pub input_token_semantics: InputTokenSemantics,
    pub input_cost_usd: String,
    pub output_cost_usd: String,
    pub cache_read_cost_usd: String,
    pub cache_creation_cost_usd: String,
    pub total_cost_usd: String,
    pub latency_ms: i64,
    pub first_token_ms: Option<i64>,
    pub duration_ms: i64,
    pub status_code: i64,
    pub error_message: Option<String>,
    pub session_id: Option<String>,
    pub provider_type: String,
    pub is_streaming: bool,
    pub cost_multiplier: String,
    pub created_at: i64,
    pub data_source: String,
}

pub struct LogView {
    pub request_id: Seq<char>,
    pub provider_id: Seq<char>,
    pub app_type: Seq<char>,
    pub model: Seq<char>,
    pub request_model: Seq<char>,
    pub pricing_model: Seq<char>,
    pub input_tokens: u32,
    pub output_tokens: u32,
    pub cache_read_tokens: u32,
    pub cache_creation_tokens: u32,
    pub input_token_semantics: InputTokenSemantics,
    pub cost: CostTextsView,
    pub latency_ms: i64,
    pub first_token_ms: Option<i64>,
    pub duration_ms: i64,
    pub status_code: i64,
    pub error_message: Option<Seq<char>>,
    pub session_id: Option<Seq<char>>,
    pub provider_type: Seq<char>,
    pub is_streaming: bool,
    pub cost_multiplier: Seq<char>,
    pub created_at: i64,
    pub data_source: Seq<char>,
}

impl LogView {
    /// The tokens that the row counts.
    pub open spec fn tokens(self) -> TokenUsage {
        TokenUsage {
            input_tokens: self.input_tokens,
            output_tokens: self.output_tokens,
            cache_read_tokens: self.cache_read_tokens,
            cache_creation_tokens: self.cache_creation_tokens,
        }
    }
}

impl View for LogRow {
    type V = LogView;

    open spec fn view(&self) -> LogView {
        LogView {
            request_id: self.request_id@,
            provider_id: self.provider_id@,
            app_type: self.app_type@,
            model: self.model@,
            request_model: self.request_model@,
            pricing_model: self.pricing_model@,
            input_tokens: self.input_tokens,
            output_tokens: self.output_tokens,
            cache_read_tokens: self.cache_read_tokens,
            cache_creation_tokens: self.cache_creation_tokens,
            input_token_semantics: self.input_token_semantics,
            cost: CostTextsView {
                input: self.input_cost_usd@,
                output: self.output_cost_usd@,
                cache_read: self.cache_read_cost_usd@,
                cache_creation: self.cache_creation_cost_usd@,
                total: self.total_cost_usd@,
            },
            latency_ms: self.latency_ms,
            first_token_ms: self.first_token_ms,
            duration_ms: self.duration_ms,
            status_code: self.status_code,
            error_message: text_of(self.error_message),
            session_id: text_of(self.session_id),
            provider_type: self.provider_type@,
            is_streaming: self.is_streaming,
            cost_multiplier: self.cost_multiplier@,
            created_at: self.created_at,
            data_source: self.data_source@,
        }
    }
}

/// What the caller is to do next.
#[derive(Debug)]
pub enum SyncAction {
    /// See whether the studio's database exists, and under what name:
    /// [`SyncEvent::Missing`] or [`SyncEvent::Found`].
    Locate,
    /// Read the modification time of the database: [`SyncEvent::Modified`].
    ReadModified,
    /// Read the modification time of the write-ahead log at this path, if it
    /// can be read: [`SyncEvent::LogModified`].
    ReadLogModified { path: String },
    /// Load the cursor that is saved for this file: [`SyncEvent::Cursor`].
    LoadCursor { file_path: String },
    /// Open the studio's database, for reading only: [`SyncEvent::Done`].
    OpenStudio,
    /// See whether there is a table of this name: [`SyncEvent::Answer`].
    FindTable { table: String },
    /// Read the highest rowid of the table: [`SyncEvent::MaxRowid`].
    ReadMaxRowid { table: String },
    /// See whether the table has a column of this name:
    /// [`SyncEvent::Answer`].
    FindColumn { table: String, column: String },
    /// Read the rows of the table after the one rowid and up to the other, by
    /// ascending rowid, and see of each whether its modality equals the given
    /// one: [`SyncEvent::Rows`]. Without `with_record_kind` the table has no
    /// such column.
    ReadRows {
        table: String,
        after_rowid: i64,
        through_rowid: i64,
        modality: String,
        with_record_kind: bool,
    },
    /// Begin a transaction of the usage database: [`SyncEvent::Done`].
    BeginImport,
    /// Insert the entry unless the ledger has one for the same request of the
    /// same source, and count the entries inserted:
    /// [`SyncEvent::Inserted`].
    InsertLedger(LedgerEntry),
    /// Look up the prices of a model: [`SyncEvent::Pricing`].
    FindPricing { model_id: String },
    /// Append a row to the usage log: [`SyncEvent::Done`].
    InsertLog(LogRow),
    /// Save the cursor of a file: [`SyncEvent::Done`].
    SaveCursor { file_path: String, cursor: SyncCursor },
    /// Commit the transaction: [`SyncEvent::Done`].
    Commit,
    /// Stop. A transaction that was not committed is rolled back.
    Finish(Result<SessionSyncResult, SyncError>),
}

pub enum ActionView {
    Locate,
    ReadModified,
    ReadLogModified { path: Seq<char> },
    LoadCursor { file_path: Seq<char> },
    OpenStudio,
    FindTable { table: Seq<char> },
    ReadMaxRowid { table: Seq<char> },
    FindColumn { table: Seq<char>, column: Seq<char> },
    ReadRows {
        table: Seq<char>,
        after_rowid: i64,
        through_rowid: i64,
        modality: Seq<char>,
        with_record_kind: bool,
    },
    BeginImport,
    InsertLedger(LedgerView),
    FindPricing { model_id: Seq<char> },
    InsertLog(LogView),
    SaveCursor { file_path: Seq<char>, cursor: SyncCursor },
    Commit,
    Finish(Result<ResultView, ErrorView>),
}

impl View for SyncAction {
    type V = ActionView;

    open spec fn view(&self) -> ActionView {
        match self {
            SyncAction::Locate => ActionView::Locate,
            SyncAction::ReadModified => ActionView::ReadModified,
            SyncAction::ReadLogModified { path } => ActionView::ReadLogModified { path: path@ },
            SyncAction::LoadCursor { file_path } => ActionView::LoadCursor {
                file_path: file_path@,
            },
            SyncAction::OpenStudio => ActionView::OpenStudio,
            SyncAction::FindTable { table } => ActionView::FindTable { table: table@ },
            SyncAction::ReadMaxRowid { table } => ActionView::ReadMaxRowid { table: table@ },
            SyncAction::FindColumn { table, column } => ActionView::FindColumn {
                table: table@,
                column: column@,
            },
            SyncAction::ReadRows {
                table,
                after_rowid,
                through_rowid,
                modality,
                with_record_kind,
            } => ActionView::ReadRows {
                table: table@,
                after_rowid: *after_rowid,
                through_rowid: *through_rowid,
                modality: modality@,
                with_record_kind: *with_record_kind,
            },
            SyncAction::BeginImport => ActionView::BeginImport,
            SyncAction::InsertLedger(entry) => ActionView::InsertLedger(entry@),
            SyncAction::FindPricing { model_id } => ActionView::FindPricing {
                model_id: model_id@,
            },
            SyncAction::InsertLog(row) => ActionView::InsertLog(row@),
            SyncAction::SaveCursor { file_path, cursor } => ActionView::SaveCursor {
                file_path: file_path@,
                cursor: *cursor,
            },
            SyncAction::Commit => ActionView::Commit,
            SyncAction::Finish(result) => ActionView::Finish(
                match result {
                    Ok(r) => Ok(r@),
                    Err(e) => Err(e@),
                },
            ),
        }
    }
}

/// At what reading the rows failed, with the message.
#[derive(Debug)]
pub enum RowsFailure {
    Prepare(String),
    Query(String),
    Row(String),
}

pub enum RowsFailureView {
    Prepare(Seq<char>),
    Query(Seq<char>),
    Row(Seq<char>),
}

impl View for RowsFailure {
    type V = RowsFailureView;

    open spec fn view(&self) -> RowsFailureView {
        match self {
            RowsFailure::Prepare(error) => RowsFailureView::Prepare(error@),
            RowsFailure::Query(error) => RowsFailureView::Query(error@),
            RowsFailure::Row(error) => RowsFailureView::Row(error@),
        }
    }
}

/// What came of an action.
pub enum SyncEvent {
    Missing,
    /// The database exists under this name.
    Found { file_path: String },
    /// In nanoseconds.
    Modified(i64),
    /// In nanoseconds; `None` where there is no log or it cannot be read.
    LogModified(Option<i64>),
    Cursor(Option<SyncCursor>),
    Answer(bool),
    /// `None` where the table is empty.
    MaxRowid(Option<i64>),
    Rows(Vec<UsageRow>),
    RowsFailed(RowsFailure),
    Inserted(usize),
    Pricing(Option<ModelPricing>),
    Done,
    /// The action failed, with this message.
    Failed(String),
}

pub enum EventView {
    Missing,
    Found { file_path: Seq<char> },
    Modified(i64),
    LogModified(Option<i64>),
    Cursor(Option<SyncCursor>),
    Answer(bool),
    MaxRowid(Option<i64>),
    Rows(Seq<RowView>),
    RowsFailed(RowsFailureView),
    Inserted(usize),
    Pricing(Option<PricingView>),
    Done,
    Failed(Seq<char>),
}

impl View for SyncEvent {
    type V = EventView;

    open spec fn view(&self) -> EventView {
        match self {
            SyncEvent::Missing => EventView::Missing,
            SyncEvent::Found { file_path } => EventView::Found { file_path: file_path@ },
            SyncEvent::Modified(modified) => EventView::Modified(*modified),
            SyncEvent::LogModified(modified) => EventView::LogModified(*modified),
            SyncEvent::Cursor(cursor) => EventView::Cursor(*cursor),
            SyncEvent::Answer(answer) => EventView::Answer(*answer),
            SyncEvent::MaxRowid(rowid) => EventView::MaxRowid(*rowid),
            SyncEvent::Rows(rows) => EventView::Rows(row_views(rows@)),
            SyncEvent::RowsFailed(failure) => EventView::RowsFailed(failure@),
            SyncEvent::Inserted(count) => EventView::Inserted(*count),
            SyncEvent::Pricing(pricing) => EventView::Pricing(pricing_view(*pricing)),
            SyncEvent::Done => EventView::Done,
            SyncEvent::Failed(error) => EventView::Failed(error@),
        }
    }
}

} // verus!
