//! The course of a synchronisation: from finding the studio's database to the
//! import of what was added to it.

use crate::import::{import_usage_records, ImportState, ImportView};
use crate::location::{get_cherry_studio_db_path, StudioEnvironment, StudioPath};
use crate::pricing::denote_cost;
use crate::protocol::{
    ActionView, ErrorView, EventView, ResultView, RowsFailure, RowsFailureView, SessionSyncResult,
    SyncAction, SyncCursor, SyncError, SyncEvent,
};
use crate::text::texts;
use crate::usage::{query_usage_records, usage_records};
use vstd::pervasive::unreached;
use vstd::prelude::*;
use vstd::string::StringExecFns;

verus! {

/// The studio's usage table.
pub const USAGE_TABLE: &'static str = "ai_usage_record";

/// The column that tells migrated aggregates from single requests. Older
/// schemas do not have it.
pub const KIND_COLUMN: &'static str = "record_kind";

/// The modality of language-model invocations.
pub const LANGUAGE: &'static str = "language";

/// A synchronisation that is under way, by what it waits for.
pub enum SyncState {
    Locating,
    ReadingModified { file_path: String },
    ReadingLogModified { file_path: String, modified: i64 },
    LoadingCursor { file_path: String, modified: i64 },
    Opening { file_path: String, modified: i64, saved_rowid: i64 },
    FindingTable { file_path: String, modified: i64, saved_rowid: i64 },
    ReadingMaxRowid { file_path: String, modified: i64, saved_rowid: i64 },
    FindingColumn { file_path: String, modified: i64, after_rowid: i64, through_rowid: i64 },
    ReadingRows { file_path: String, modified: i64, after_rowid: i64, through_rowid: i64 },
    Importing(ImportState),
    Finished,
}

pub enum SyncView {
    Locating,
    ReadingModified { file_path: Seq<char> },
    ReadingLogModified { file_path: Seq<char>, modified: i64 },
    LoadingCursor { file_path: Seq<char>, modified: i64 },
    Opening { file_path: Seq<char>, modified: i64, saved_rowid: i64 },
    FindingTable { file_path: Seq<char>, modified: i64, saved_rowid: i64 },
    ReadingMaxRowid { file_path: Seq<char>, modified: i64, saved_rowid: i64 },
    FindingColumn { file_path: Seq<char>, modified: i64, after_rowid: i64, through_rowid: i64 },
    ReadingRows { file_path: Seq<char>, modified: i64, after_rowid: i64, through_rowid: i64 },
    Importing(ImportView),
    Finished,
}

impl View for SyncState {
    type V = SyncView;

    open spec fn view(&self) -> SyncView {
        match self {
            SyncState::Locating => SyncView::Locating,
            SyncState::ReadingModified { file_path } => SyncView::ReadingModified {
                file_path: file_path@,
            },
            SyncState::ReadingLogModified { file_path, modified } => SyncView::ReadingLogModified {
                file_path: file_path@,
                modified: *modified,
            },
            SyncState::LoadingCursor { file_path, modified } => SyncView::LoadingCursor {
                file_path: file_path@,
                modified: *modified,
            },
            SyncState::Opening { file_path, modified, saved_rowid } => SyncView::Opening {
                file_path: file_path@,
                modified: *modified,
                saved_rowid: *saved_rowid,
            },
            SyncState::FindingTable { file_path, modified, saved_rowid } => SyncView::FindingTable {
                file_path: file_path@,
                modified: *modified,
                saved_rowid: *saved_rowid,
            },
            SyncState::ReadingMaxRowid { file_path, modified, saved_rowid } =>
                SyncView::ReadingMaxRowid {
                file_path: file_path@,
                modified: *modified,
                saved_rowid: *saved_rowid,
            },
            SyncState::FindingColumn { file_path, modified, after_rowid, through_rowid } =>
                SyncView::FindingColumn {
                file_path: file_path@,
                modified: *modified,
                after_rowid: *after_rowid,
                through_rowid: *through_rowid,
            },
            SyncState::ReadingRows { file_path, modified, after_rowid, through_rowid } =>
                SyncView::ReadingRows {
                file_path: file_path@,
                modified: *modified,
                after_rowid: *after_rowid,
                through_rowid: *through_rowid,
            },
            SyncState::Importing(import) => SyncView::Importing(import@),
            SyncState::Finished => SyncView::Finished,
        }
    }
}

/// The later of the modification times of the database and of its write-ahead
/// log.
pub open spec fn latest_modified(database: i64, log: Option<i64>) -> i64 {
    match log {
        Some(l) => if l > database {
            l
        } else {
            database
        },
        None => database,
    }
}

/// The modification time at which the file was last imported; zero where it
/// never was.
pub open spec fn last_modified(cursor: Option<SyncCursor>) -> i64 {
    match cursor {
        Some(c) => c.last_modified,
        None => 0,
    }
}

/// The rowid up to which the file was imported; zero where it never was.
pub open spec fn saved_rowid(cursor: Option<SyncCursor>) -> i64 {
    match cursor {
        Some(c) => if c.last_line_offset > 0 {
            c.last_line_offset
        } else {
            0
        },
        None => 0,
    }
}

/// The rowid of the last row of a table, zero for an empty one.
pub open spec fn source_rowid(max_rowid: Option<i64>) -> i64 {
    match max_rowid {
        Some(r) => r,
        None => 0,
    }
}

/// Where to resume reading. A table that ends before the saved position was
/// replaced or truncated: it is read from the start, and the ledger keeps what
/// was imported before from being imported again.
pub open spec fn resume_after(saved: i64, source: i64) -> i64 {
    if source < saved {
        0
    } else {
        saved
    }
}

/// The message of a failure to read the studio's database.
pub open spec fn database_failure(what: Seq<char>, error: Seq<char>) -> Result<
    ResultView,
    ErrorView,
> {
    Err(ErrorView::Database(what + error))
}

/// The message of a failure to read the rows.
pub open spec fn rows_failure(failure: RowsFailureView) -> Result<ResultView, ErrorView> {
    match failure {
        RowsFailureView::Prepare(error) => database_failure(
            "准备 Cherry Studio 用量查询失败: "@,
            error,
        ),
        RowsFailureView::Query(error) => database_failure(
            "查询 Cherry Studio 用量失败: "@,
            error,
        ),
        RowsFailureView::Row(error) => database_failure(
            "读取 Cherry Studio 用量行失败: "@,
            error,
        ),
    }
}

/// The result of a run that scanned the database and imported nothing.
pub open spec fn scanned(errors: Seq<Seq<char>>) -> ResultView {
    ResultView { imported: 0, skipped: 0, files_scanned: 1, errors }
}

/// The end of a run.
pub open spec fn finish(result: Result<ResultView, ErrorView>) -> (SyncView, ActionView) {
    (SyncView::Finished, ActionView::Finish(result))
}

impl SyncView {
    pub open spec fn well_formed(self) -> bool {
        self matches SyncView::Importing(import) ==> import.well_formed()
    }

    /// The event can come of the action that the synchronisation waits for.
    pub open spec fn accepts(self, event: EventView) -> bool {
        match self {
            SyncView::Locating => event is Missing || event is Found,
            SyncView::ReadingModified { .. } => event is Modified || event is Failed,
            SyncView::ReadingLogModified { .. } => event is LogModified,
            SyncView::LoadingCursor { .. } => event is Cursor || event is Failed,
            SyncView::Opening { .. } => event is Done || event is Failed,
            SyncView::FindingTable { .. } => event is Answer || event is Failed,
            SyncView::ReadingMaxRowid { .. } => event is MaxRowid || event is Failed,
            SyncView::FindingColumn { .. } => event is Answer || event is Failed,
            SyncView::ReadingRows { .. } => event is Rows || event is RowsFailed,
            SyncView::Importing(import) => import.accepts(event),
            SyncView::Finished => false,
        }
    }

    /// What follows an event: the synchronisation from there on, and the next
    /// action.
    pub open spec fn step(self, event: EventView) -> (SyncView, ActionView) {
        match (self, event) {
            (SyncView::Locating, EventView::Missing) => finish(
                Ok(ResultView { imported: 0, skipped: 0, files_scanned: 0, errors: Seq::empty() }),
            ),
            (SyncView::Locating, EventView::Found { file_path }) => (
                SyncView::ReadingModified { file_path },
                ActionView::ReadModified,
            ),
            (SyncView::ReadingModified { file_path }, EventView::Modified(modified)) => (
                SyncView::ReadingLogModified { file_path, modified },
                ActionView::ReadLogModified { path: file_path + "-wal"@ },
            ),
            (SyncView::ReadingModified { file_path }, EventView::Failed(error)) => finish(
                Err(ErrorView::Io { path: file_path, error }),
            ),
            (
                SyncView::ReadingLogModified { file_path, modified },
                EventView::LogModified(log),
            ) => (
                SyncView::LoadingCursor { file_path, modified: latest_modified(modified, log) },
                ActionView::LoadCursor { file_path },
            ),
            (
                SyncView::LoadingCursor { file_path, modified },
                EventView::Cursor(cursor),
            ) => if modified <= last_modified(cursor) {
                finish(Ok(scanned(Seq::empty())))
            } else {
                (
                    SyncView::Opening { file_path, modified, saved_rowid: saved_rowid(cursor) },
                    ActionView::OpenStudio,
                )
            },
            (SyncView::LoadingCursor { .. }, EventView::Failed(error)) => finish(
                Err(ErrorView::Store(error)),
            ),
            (SyncView::Opening { file_path, modified, saved_rowid }, EventView::Done) => (
                SyncView::FindingTable { file_path, modified, saved_rowid },
                ActionView::FindTable { table: USAGE_TABLE@ },
            ),
            (SyncView::Opening { .. }, EventView::Failed(error)) => finish(
                database_failure("无法只读打开 Cherry Studio 数据库: "@, error),
            ),
            (
                SyncView::FindingTable { file_path, modified, saved_rowid },
                EventView::Answer(found),
            ) => if found {
                (
                    SyncView::ReadingMaxRowid { file_path, modified, saved_rowid },
                    ActionView::ReadMaxRowid { table: USAGE_TABLE@ },
                )
            } else {
                finish(Ok(scanned(seq!["Cherry Studio 数据库中没有 ai_usage_record 表"@])))
            },
            (SyncView::FindingTable { .. }, EventView::Failed(error)) => finish(
                database_failure("检查 Cherry Studio 用量表失败: "@, error),
            ),
            (
                SyncView::ReadingMaxRowid { file_path, modified, saved_rowid },
                EventView::MaxRowid(max_rowid),
            ) => (
                SyncView::FindingColumn {
                    file_path,
                    modified,
                    after_rowid: resume_after(saved_rowid, source_rowid(max_rowid)),
                    through_rowid: source_rowid(max_rowid),
                },
                ActionView::FindColumn { table: USAGE_TABLE@, column: KIND_COLUMN@ },
            ),
            (SyncView::ReadingMaxRowid { .. }, EventView::Failed(error)) => finish(
                database_failure("读取 Cherry Studio 用量游标失败: "@, error),
            ),
            (
                SyncView::FindingColumn { file_path, modified, after_rowid, through_rowid },
                EventView::Answer(with_record_kind),
            ) => (
                SyncView::ReadingRows { file_path, modified, after_rowid, through_rowid },
                ActionView::ReadRows {
                    table: USAGE_TABLE@,
                    after_rowid,
                    through_rowid,
                    modality: LANGUAGE@,
                    with_record_kind,
                },
            ),
            (SyncView::FindingColumn { .. }, EventView::Failed(error)) => finish(
                database_failure("检查 Cherry Studio 用量字段失败: "@, error),
            ),
            (
                SyncView::ReadingRows { file_path, modified, after_rowid, through_rowid },
                EventView::Rows(rows),
            ) => match usage_records(rows, after_rowid, through_rowid) {
                Ok(records) => (
                    SyncView::Importing(
                        ImportView::start(file_path, modified, through_rowid, records),
                    ),
                    ActionView::BeginImport,
                ),
                Err(error) => finish(rows_failure(RowsFailureView::Row(error))),
            },
            (SyncView::ReadingRows { .. }, EventView::RowsFailed(failure)) => finish(
                rows_failure(failure),
            ),
            (SyncView::Importing(import), _) => {
                let (next, action) = import.step(event);
                match next {
                    Some(state) => (SyncView::Importing(state), action),
                    None => (SyncView::Finished, action),
                }
            },
            (_, _) => arbitrary(),
        }
    }
}

fn failure(what: &str, error: String) -> (next: (SyncState, SyncAction))
    ensures
        (next.0@, next.1@) == finish(database_failure(what@, error@)),
{
    let message = what.to_string().concat(error.as_str());
    (SyncState::Finished, SyncAction::Finish(Err(SyncError::Database(message))))
}

fn scanned_only(errors: Vec<String>) -> (next: (SyncState, SyncAction))
    ensures
        (next.0@, next.1@) == finish(Ok(scanned(texts(errors@)))),
{
    let result = SessionSyncResult { imported: 0, skipped: 0, files_scanned: 1, errors };
    (SyncState::Finished, SyncAction::Finish(Ok(result)))
}

/// A synchronisation with the database at a path, and its first action.
pub fn sync_cherry_studio_usage_from_path() -> (begun: (SyncState, SyncAction))
    ensures
        begun.0@ == SyncView::Locating,
        begun.0@.well_formed(),
        begun.1@ == ActionView::Locate,
{
    (SyncState::Locating, SyncAction::Locate)
}

/// Begins to import newly committed Cherry Studio usage records: the path of
/// the studio's database, the synchronisation, and its first action.
pub fn sync_cherry_studio_usage<P>(environment: StudioEnvironment<P>) -> (begun: (
    StudioPath<P>,
    SyncState,
    SyncAction,
))
    ensures
        begun.0.base == environment.database_path().0,
        texts(begun.0.components@) == environment.database_path().1,
        begun.1@ == SyncView::Locating,
        begun.1@.well_formed(),
        begun.2@ == ActionView::Locate,
{
    let path = get_cherry_studio_db_path(environment);
    let (state, action) = sync_cherry_studio_usage_from_path();
    (path, state, action)
}

impl SyncState {
    /// Whether the event can come of the action that the synchronisation waits
    /// for.
    pub fn accepts(&self, event: &SyncEvent) -> (accepts: bool)
        ensures
            accepts == self@.accepts(event@),
    {
        match self {
            SyncState::Locating => matches!(event, SyncEvent::Missing | SyncEvent::Found { .. }),
            SyncState::ReadingModified { .. } => matches!(
                event,
                SyncEvent::Modified(_) | SyncEvent::Failed(_)
            ),
            SyncState::ReadingLogModified { .. } => matches!(event, SyncEvent::LogModified(_)),
            SyncState::LoadingCursor { .. } => matches!(
                event,
                SyncEvent::Cursor(_) | SyncEvent::Failed(_)
            ),
            SyncState::Opening { .. } => matches!(event, SyncEvent::Done | SyncEvent::Failed(_)),
            SyncState::FindingTable { .. } => matches!(
                event,
                SyncEvent::Answer(_) | SyncEvent::Failed(_)
            ),
            SyncState::ReadingMaxRowid { .. } => matches!(
                event,
                SyncEvent::MaxRowid(_) | SyncEvent::Failed(_)
            ),
            SyncState::FindingColumn { .. } => matches!(
                event,
                SyncEvent::Answer(_) | SyncEvent::Failed(_)
            ),
            SyncState::ReadingRows { .. } => matches!(
                event,
                SyncEvent::Rows(_) | SyncEvent::RowsFailed(_)
            ),
            SyncState::Importing(import) => import.accepts(event),
            SyncState::Finished => false,
        }
    }

    /// Takes in what came of the last action, and says what to do next.
    pub fn step(self, event: SyncEvent) -> (next: (SyncState, SyncAction))
        requires
            self@.well_formed(),
            self@.accepts(event@),
        ensures
            (next.0@, next.1@) == self@.step(event@),
            next.0@.well_formed(),
            next.0@ is Finished <==> next.1@ is Finish,
            self@ matches SyncView::Importing(import) ==> (import.is_ready_to_log(event@)
                ==> (next.1@ matches ActionView::InsertLog(row) && denote_cost(
                row.cost,
                row.tokens(),
                import.pricing_after(event@),
            ))),
    {
        match (self, event) {
            (SyncState::Locating, SyncEvent::Missing) => {
                let result = SessionSyncResult {
                    imported: 0,
                    skipped: 0,
                    files_scanned: 0,
                    errors: Vec::new(),
                };
                assert(texts(result.errors@) =~= Seq::empty());
                (SyncState::Finished, SyncAction::Finish(Ok(result)))
            },
            (SyncState::Locating, SyncEvent::Found { file_path }) => (
                SyncState::ReadingModified { file_path },
                SyncAction::ReadModified,
            ),
            (SyncState::ReadingModified { file_path }, SyncEvent::Modified(modified)) => {
                let path = file_path.clone().concat("-wal");
                (
                    SyncState::ReadingLogModified { file_path, modified },
                    SyncAction::ReadLogModified { path },
                )
            },
            (SyncState::ReadingModified { file_path }, SyncEvent::Failed(error)) => (
                SyncState::Finished,
                SyncAction::Finish(Err(SyncError::Io { path: file_path, error })),
            ),
            (
                SyncState::ReadingLogModified { file_path, modified },
                SyncEvent::LogModified(log),
            ) => {
                let modified: i64 = match log {
                    Some(log) => if log > modified {
                        log
                    } else {
                        modified
                    },
                    None => modified,
                };
                let action = SyncAction::LoadCursor { file_path: file_path.clone() };
                (SyncState::LoadingCursor { file_path, modified }, action)
            },
            (SyncState::LoadingCursor { file_path, modified }, SyncEvent::Cursor(cursor)) => {
                let (last_modified, last_line_offset): (i64, i64) = match cursor {
                    Some(cursor) => (cursor.last_modified, cursor.last_line_offset),
                    None => (0, 0),
                };
                if modified <= last_modified {
                    let errors: Vec<String> = Vec::new();
                    assert(texts(errors@) =~= Seq::empty());
                    scanned_only(errors)
                } else {
                    let saved_rowid: i64 = if last_line_offset > 0 {
                        last_line_offset
                    } else {
                        0
                    };
                    (
                        SyncState::Opening { file_path, modified, saved_rowid },
                        SyncAction::OpenStudio,
                    )
                }
            },
            (SyncState::LoadingCursor { .. }, SyncEvent::Failed(error)) => (
                SyncState::Finished,
                SyncAction::Finish(Err(SyncError::Store(error))),
            ),
            (SyncState::Opening { file_path, modified, saved_rowid }, SyncEvent::Done) => (
                SyncState::FindingTable { file_path, modified, saved_rowid },
                SyncAction::FindTable { table: USAGE_TABLE.to_string() },
            ),
            (SyncState::Opening { .. }, SyncEvent::Failed(error)) => failure(
                "无法只读打开 Cherry Studio 数据库: ",
                error,
            ),
            (
                SyncState::FindingTable { file_path, modified, saved_rowid },
                SyncEvent::Answer(found),
            ) => {
                if found {
                    (
                        SyncState::ReadingMaxRowid { file_path, modified, saved_rowid },
                        SyncAction::ReadMaxRowid { table: USAGE_TABLE.to_string() },
                    )
                } else {
                    let mut errors: Vec<String> = Vec::new();
                    errors.push("Cherry Studio 数据库中没有 ai_usage_record 表".to_string());
                    assert(texts(errors@) =~= seq![
                        "Cherry Studio 数据库中没有 ai_usage_record 表"@,
                    ]);
                    scanned_only(errors)
                }
            },
            (SyncState::FindingTable { .. }, SyncEvent::Failed(error)) => failure(
                "检查 Cherry Studio 用量表失败: ",
                error,
            ),
            (
                SyncState::ReadingMaxRowid { file_path, modified, saved_rowid },
                SyncEvent::MaxRowid(max_rowid),
            ) => {
                let through_rowid: i64 = match max_rowid {
                    Some(rowid) => rowid,
                    None => 0,
                };
                let after_rowid: i64 = if through_rowid < saved_rowid {
                    0
                } else {
                    saved_rowid
                };
                (
                    SyncState::FindingColumn { file_path, modified, after_rowid, through_rowid },
                    SyncAction::FindColumn {
                        table: USAGE_TABLE.to_string(),
                        column: KIND_COLUMN.to_string(),
                    },
                )
            },
            (SyncState::ReadingMaxRowid { .. }, SyncEvent::Failed(error)) => failure(
                "读取 Cherry Studio 用量游标失败: ",
                error,
            ),
            (
                SyncState::FindingColumn { file_path, modified, after_rowid, through_rowid },
                SyncEvent::Answer(with_record_kind),
            ) => (
                SyncState::ReadingRows { file_path, modified, after_rowid, through_rowid },
                SyncAction::ReadRows {
                    table: USAGE_TABLE.to_string(),
                    after_rowid,
                    through_rowid,
                    modality: LANGUAGE.to_string(),
                    with_record_kind,
                },
            ),
            (SyncState::FindingColumn { .. }, SyncEvent::Failed(error)) => failure(
                "检查 Cherry Studio 用量字段失败: ",
                error,
            ),
            (
                SyncState::ReadingRows { file_path, modified, after_rowid, through_rowid },
                SyncEvent::Rows(rows),
            ) => {
                match query_usage_records(&rows, after_rowid, through_rowid) {
                    Ok(records) => {
                        let (import, action) = import_usage_records(
                            file_path,
                            modified,
                            through_rowid,
                            records,
                        );
                        (SyncState::Importing(import), action)
                    },
                    Err(error) => failure("读取 Cherry Studio 用量行失败: ", error),
                }
            },
            (SyncState::ReadingRows { .. }, SyncEvent::RowsFailed(reason)) => {
                match reason {
                    RowsFailure::Prepare(error) => failure(
                        "准备 Cherry Studio 用量查询失败: ",
                        error,
                    ),
                    RowsFailure::Query(error) => failure("查询 Cherry Studio 用量失败: ", error),
                    RowsFailure::Row(error) => failure("读取 Cherry Studio 用量行失败: ", error),
                }
            },
            (SyncState::Importing(import), event) => {
                let (next, action) = import.step(event);
                match next {
                    Some(state) => (SyncState::Importing(state), action),
                    None => (SyncState::Finished, action),
                }
            },
            (_, _) => unreached(),
        }
    }
}

} // verus!
