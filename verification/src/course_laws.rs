//! What holds of the course of a synchronisation, from event to event.

use crate::import::{log_view, ImportView};
use crate::location::{Platform, StudioEnvironment};
use crate::pricing::PricingView;
use crate::protocol::{
    ActionView, ErrorView, EventView, LedgerView, ResultView, RowsFailureView, SyncCursor,
};
use crate::sync::SyncView;
use crate::usage::{usage_records, RowView};
use vstd::prelude::*;

verus! {

/// The time is later than the one that the cursor holds, or than the epoch
/// where there is no cursor.
pub open spec fn is_later(time: i64, cursor: Option<SyncCursor>) -> bool {
    match cursor {
        Some(c) => time > c.last_modified,
        None => time > 0,
    }
}

/// A file that was found is opened if and only if it or its write-ahead log was
/// modified after the time that its cursor holds; the later of the two times is
/// then the one that goes on. Otherwise the run ends with one scanned file and
/// nothing else.
pub proof fn law_modified_files_are_opened(
    file_path: Seq<char>,
    own: i64,
    log: Option<i64>,
    cursor: Option<SyncCursor>,
)
    ensures
        ({
            let (timed, first) = SyncView::Locating.step(EventView::Found { file_path });
            let (asked, second) = timed.step(EventView::Modified(own));
            let (loading, third) = asked.step(EventView::LogModified(log));
            let (next, action) = loading.step(EventView::Cursor(cursor));
            &&& first == ActionView::ReadModified
            &&& second == (ActionView::ReadLogModified { path: file_path + "-wal"@ })
            &&& third == (ActionView::LoadCursor { file_path })
            &&& action is OpenStudio <==> is_later(own, cursor) || (log matches Some(l) && is_later(
                l,
                cursor,
            ))
            &&& action is OpenStudio ==> (next matches SyncView::Opening {
                file_path: path,
                modified,
                ..
            } && {
                &&& path == file_path
                &&& modified >= own && (log matches Some(l) ==> modified >= l)
                &&& modified == own || log == Some(modified)
            })
            &&& !(action is OpenStudio) ==> action == ActionView::Finish(
                Ok(
                    ResultView {
                        imported: 0,
                        skipped: 0,
                        files_scanned: 1,
                        errors: Seq::empty(),
                    },
                ),
            )
        }),
{
}

/// A file that is opened is read up to the last row of its usage table. Reading
/// resumes after the rowid of the cursor, unless that is not positive or lies
/// beyond the last row: then it starts over.
pub proof fn law_reading_resumes_at_the_cursor(
    file_path: Seq<char>,
    modified: i64,
    cursor: Option<SyncCursor>,
    max_rowid: Option<i64>,
    with_record_kind: bool,
)
    requires
        is_later(modified, cursor),
    ensures
        ({
            let loading = SyncView::LoadingCursor { file_path, modified };
            let (opening, _) = loading.step(EventView::Cursor(cursor));
            let (finding, find) = opening.step(EventView::Done);
            let (measuring, measure) = finding.step(EventView::Answer(true));
            let (asking, ask) = measuring.step(EventView::MaxRowid(max_rowid));
            let (reading, action) = asking.step(EventView::Answer(with_record_kind));
            &&& find == (ActionView::FindTable { table: "ai_usage_record"@ })
            &&& measure == (ActionView::ReadMaxRowid { table: "ai_usage_record"@ })
            &&& ask == (ActionView::FindColumn {
                table: "ai_usage_record"@,
                column: "record_kind"@,
            })
            &&& action matches ActionView::ReadRows {
                table,
                after_rowid,
                through_rowid,
                modality,
                with_record_kind: with_kind,
            } && {
                &&& table == "ai_usage_record"@ && modality == "language"@
                &&& with_kind == with_record_kind
                &&& reading == (SyncView::ReadingRows {
                    file_path,
                    modified,
                    after_rowid,
                    through_rowid,
                })
                &&& max_rowid matches Some(rowid) ==> through_rowid == rowid
                &&& max_rowid is None ==> through_rowid == 0
                &&& after_rowid == 0 || (cursor matches Some(c) && after_rowid
                    == c.last_line_offset && 0 < c.last_line_offset <= through_rowid)
                &&& cursor matches Some(c) ==> (0 < c.last_line_offset <= through_rowid
                    ==> after_rowid == c.last_line_offset)
            }
        }),
{
}

/// The rows of a file are imported under its name, with the modification time
/// and the last rowid that its cursor will hold, and with the records of the
/// window that was read. The import begins with nothing counted.
pub proof fn law_rows_begin_their_import(
    file_path: Seq<char>,
    modified: i64,
    after_rowid: i64,
    through_rowid: i64,
    rows: Seq<RowView>,
)
    ensures
        ({
            let reading = SyncView::ReadingRows { file_path, modified, after_rowid, through_rowid };
            let (next, action) = reading.step(EventView::Rows(rows));
            match usage_records(rows, after_rowid, through_rowid) {
                Ok(records) => {
                    &&& action == ActionView::BeginImport
                    &&& next matches SyncView::Importing(import) && {
                        &&& import.file_path == file_path && import.modified == modified
                        &&& import.source_rowid == through_rowid && import.records == records
                        &&& import.next == 0 && import.imported == 0 && import.skipped == 0
                        &&& import.priced == Map::<Seq<char>, Option<PricingView>>::empty()
                    }
                },
                Err(error) => action == ActionView::Finish(
                    Err(ErrorView::Database("读取 Cherry Studio 用量行失败: "@ + error)),
                ),
            }
        }),
{
}

/// A missing file is nothing to report. A file without the usage table is
/// scanned and reported.
pub proof fn law_what_is_missing_is_no_failure(
    file_path: Seq<char>,
    modified: i64,
    saved_rowid: i64,
)
    ensures
        SyncView::Locating.step(EventView::Missing).1 == ActionView::Finish(
            Ok(ResultView { imported: 0, skipped: 0, files_scanned: 0, errors: Seq::empty() }),
        ),
        (SyncView::FindingTable { file_path, modified, saved_rowid }).step(
            EventView::Answer(false),
        ).1 == ActionView::Finish(
            Ok(
                ResultView {
                    imported: 0,
                    skipped: 0,
                    files_scanned: 1,
                    errors: seq!["Cherry Studio 数据库中没有 ai_usage_record 表"@],
                },
            ),
        ),
{
}

/// What a run reports of a failure: at what it failed, and the message that it
/// was told, as it is.
pub open spec fn reported_failure(state: SyncView, error: Seq<char>) -> ErrorView {
    match state {
        SyncView::ReadingModified { file_path } => ErrorView::Io { path: file_path, error },
        SyncView::Opening { .. } => ErrorView::Database(
            "无法只读打开 Cherry Studio 数据库: "@ + error,
        ),
        SyncView::FindingTable { .. } => ErrorView::Database(
            "检查 Cherry Studio 用量表失败: "@ + error,
        ),
        SyncView::ReadingMaxRowid { .. } => ErrorView::Database(
            "读取 Cherry Studio 用量游标失败: "@ + error,
        ),
        SyncView::FindingColumn { .. } => ErrorView::Database(
            "检查 Cherry Studio 用量字段失败: "@ + error,
        ),
        _ => ErrorView::Store(error),
    }
}

/// A failure ends a run at once, in whatever state it is, with an error that
/// says at what and holds the message.
pub proof fn law_failures_end_the_run(state: SyncView, error: Seq<char>)
    requires
        state.accepts(EventView::Failed(error)),
    ensures
        state.step(EventView::Failed(error)) == (
            SyncView::Finished,
            ActionView::Finish(Err(reported_failure(state, error))),
        ),
{
}

/// A failure to read the rows ends a run at once, with an error that says at
/// what and holds the message.
pub proof fn law_failures_to_read_rows_end_the_run(state: SyncView, error: Seq<char>)
    requires
        state is ReadingRows,
    ensures
        state.step(EventView::RowsFailed(RowsFailureView::Prepare(error))).1
            == ActionView::Finish(
            Err(ErrorView::Database("准备 Cherry Studio 用量查询失败: "@ + error)),
        ),
        state.step(EventView::RowsFailed(RowsFailureView::Query(error))).1 == ActionView::Finish(
            Err(ErrorView::Database("查询 Cherry Studio 用量失败: "@ + error)),
        ),
        state.step(EventView::RowsFailed(RowsFailureView::Row(error))).1 == ActionView::Finish(
            Err(ErrorView::Database("读取 Cherry Studio 用量行失败: "@ + error)),
        ),
{
}

/// The import turns to the records one after the other, in their order, and to
/// the cursor after the last: what it asks for is the ledger entry of the
/// record at `next`, or the cursor with the time and the rowid of the source.
pub open spec fn asks_for_next(import: ImportView, action: ActionView) -> bool {
    if import.next < import.records.len() {
        let id = "cherry_studio:"@ + import.records[import.next].request_id;
        action == ActionView::InsertLedger(
            LedgerView {
                data_source: "cherry_studio"@,
                request_id: id,
                semantic_id: id,
                has_entry_id: true,
            },
        )
    } else {
        action == (ActionView::SaveCursor {
            file_path: import.file_path,
            cursor: SyncCursor {
                last_modified: import.modified,
                last_line_offset: import.source_rowid,
            },
        })
    }
}

/// The import goes on with the same records from the same source.
pub open spec fn same_source(import: ImportView, next: ImportView) -> bool {
    &&& next.file_path == import.file_path
    &&& next.modified == import.modified
    &&& next.source_rowid == import.source_rowid
    &&& next.records == import.records
}

/// A begun import turns to its first record.
pub proof fn law_begun_import_turns_to_its_records(import: ImportView)
    requires
        import.well_formed(),
        import.stage is Beginning,
    ensures
        ({
            let (next, action) = import.step(EventView::Done);
            &&& next is Some && same_source(import, next->0)
            &&& next->0.next == import.next && next->0.imported == import.imported
            &&& next->0.skipped == import.skipped && next->0.priced == import.priced
            &&& asks_for_next(next->0, action)
        }),
{
}

/// A record that the ledger had is skipped: it is counted so, until the count
/// is full, and the import turns to the next one.
pub proof fn law_known_record_is_skipped(import: ImportView)
    requires
        import.well_formed(),
        import.stage is EnteringLedger,
    ensures
        ({
            let (next, action) = import.step(EventView::Inserted(0));
            &&& next is Some && same_source(import, next->0)
            &&& next->0.next == import.next + 1
            &&& next->0.imported == import.imported && next->0.priced == import.priced
            &&& import.skipped < u32::MAX ==> next->0.skipped == import.skipped + 1
            &&& import.skipped == u32::MAX ==> next->0.skipped == u32::MAX
            &&& asks_for_next(next->0, action)
        }),
{
}

/// A record that is new to the ledger is logged at the prices of its own model,
/// which are looked up where they are not known yet.
pub proof fn law_new_record_is_priced_by_its_model(
    import: ImportView,
    count: usize,
    pricing: Option<PricingView>,
)
    requires
        import.well_formed(),
        import.stage is EnteringLedger,
        count > 0,
    ensures
        ({
            let record = import.records[import.next];
            let (next, action) = import.step(EventView::Inserted(count));
            if import.priced.contains_key(record.model_id) {
                logs_at(import, import.priced[record.model_id], next, action)
            } else {
                let (priced, log) = next->0.step(EventView::Pricing(pricing));
                &&& next is Some && same_source(import, next->0)
                &&& action == (ActionView::FindPricing { model_id: record.model_id })
                &&& logs_at(import, pricing, priced, log)
                &&& priced is Some ==> priced->0.priced == import.priced.insert(
                    record.model_id,
                    pricing,
                )
            }
        }),
{
}

/// The record at `next` is logged at the given prices, or its cost overflows
/// and the import ends.
pub open spec fn logs_at(
    import: ImportView,
    pricing: Option<PricingView>,
    next: Option<ImportView>,
    action: ActionView,
) -> bool {
    match log_view(import.records[import.next], pricing) {
        Some(row) => {
            &&& action == ActionView::InsertLog(row)
            &&& next is Some && same_source(import, next->0) && next->0.stage is Logging
            &&& next->0.next == import.next && next->0.imported == import.imported
            &&& next->0.skipped == import.skipped
        },
        None => next is None && action == ActionView::Finish(Err(ErrorView::CostOverflow)),
    }
}

/// A record that was logged is counted as imported, until the count is full,
/// and the import turns to the next one.
pub proof fn law_logged_record_is_counted(import: ImportView)
    requires
        import.well_formed(),
        import.stage is Logging,
    ensures
        ({
            let (next, action) = import.step(EventView::Done);
            &&& next is Some && same_source(import, next->0)
            &&& next->0.next == import.next + 1
            &&& next->0.skipped == import.skipped && next->0.priced == import.priced
            &&& import.imported < u32::MAX ==> next->0.imported == import.imported + 1
            &&& import.imported == u32::MAX ==> next->0.imported == u32::MAX
            &&& asks_for_next(next->0, action)
        }),
{
}

/// After the cursor the import is committed, and after the commit it reports
/// what it counted.
pub proof fn law_saved_import_is_committed(import: ImportView)
    requires
        import.well_formed(),
        import.stage is SavingCursor,
    ensures
        ({
            let (saved, commit) = import.step(EventView::Done);
            let (end, action) = saved->0.step(EventView::Done);
            &&& saved is Some && commit == ActionView::Commit
            &&& end is None && action == ActionView::Finish(
                Ok(
                    ResultView {
                        imported: import.imported,
                        skipped: import.skipped,
                        files_scanned: 1,
                        errors: Seq::empty(),
                    },
                ),
            )
        }),
{
}

/// A synchronisation that imports does what its import does.
pub proof fn law_importing_follows_the_import(import: ImportView, event: EventView)
    ensures
        SyncView::Importing(import).step(event).1 == import.step(event).1,
        import.step(event).0 matches Some(next) ==> SyncView::Importing(import).step(event).0
            == SyncView::Importing(next),
        import.step(event).0 is None ==> SyncView::Importing(import).step(event).0
            == SyncView::Finished,
{
}

/// A database that a variable names outright is the path, whatever else the
/// surroundings say, unless the variable is empty.
pub proof fn law_named_database_is_the_path<P>(environment: StudioEnvironment<P>)
    requires
        environment.cherry_studio_db is Some,
        !environment.cherry_studio_db->0.is_empty,
    ensures
        environment.database_path().0 == environment.cherry_studio_db->0.value,
        environment.database_path().1 == Seq::<Seq<char>>::empty(),
{
}

/// Otherwise the database is `CherryStudio/Data/cherrystudio.sqlite` below the
/// directory that the variable of the platform names, or below that of the
/// platform in the home directory.
pub proof fn law_database_lies_in_the_user_data<P>(environment: StudioEnvironment<P>)
    requires
        environment.cherry_studio_db is Some ==> environment.cherry_studio_db->0.is_empty,
    ensures
        ({
            let (base, components) = environment.database_path();
            let above = components.take(components.len() - 3);
            let below = components.skip(components.len() - 3);
            &&& components.len() >= 3
            &&& below == seq!["CherryStudio"@, "Data"@, "cherrystudio.sqlite"@]
            &&& environment.platform is MacOs ==> base == environment.home_dir && above
                == seq!["Library"@, "Application Support"@]
            &&& environment.platform is Windows ==> match environment.app_data {
                Some(variable) => base == variable.value && above.len() == 0,
                None => base == environment.home_dir && above == seq!["AppData"@, "Roaming"@],
            }
            &&& environment.platform is Linux ==> match environment.xdg_config_home {
                Some(variable) => if variable.is_empty {
                    base == environment.home_dir && above == seq![".config"@]
                } else {
                    base == variable.value && above.len() == 0
                },
                None => base == environment.home_dir && above == seq![".config"@],
            }
        }),
{
    let (base, components) = environment.database_path();
    let above = components.take(components.len() - 3);
    assert(components.skip(components.len() - 3) =~= seq![
        "CherryStudio"@,
        "Data"@,
        "cherrystudio.sqlite"@,
    ]);
    if environment.user_data_parent() is None {
        match environment.platform {
            Platform::MacOs => assert(above =~= seq!["Library"@, "Application Support"@]),
            Platform::Windows => assert(above =~= seq!["AppData"@, "Roaming"@]),
            Platform::Linux => assert(above =~= seq![".config"@]),
        }
    }
}

} // verus!
