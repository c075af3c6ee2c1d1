//! Whole synchronisations between SQLite databases.

use cherry_usage::amount::Amount;
use cherry_usage::backfill::{backfill_dedup_ledger, backfill_query, LoggedRequest};
use cherry_usage::pricing::ModelPricing;
use cherry_usage::protocol::{
    InputTokenSemantics, LedgerEntry, LogRow, RowsFailure, SessionSyncResult, SyncAction,
    SyncCursor, SyncError, SyncEvent, APP_TYPE, DATA_SOURCE,
};
use cherry_usage::sync::{sync_cherry_studio_usage_from_path as begin_sync, SyncState, LANGUAGE};
use cherry_usage::usage::{query_usage_records, CherryUsageRecord, UsageColumns, UsageRow};
use rusqlite::types::Value;
use rusqlite::{params_from_iter, Connection, OpenFlags, OptionalExtension, Row};
use rust_decimal::Decimal;
use std::path::Path;
use std::str::FromStr;
use std::time::{SystemTime, UNIX_EPOCH};

type TestResult = Result<(), rusqlite::Error>;

const INPUT_TOKEN_SEMANTICS_FRESH: i64 = 2;

struct Database {
    conn: Connection,
}

impl Database {
    fn memory() -> Result<Database, rusqlite::Error> {
        let conn = Connection::open_in_memory()?;
        conn.execute_batch(
            "CREATE TABLE proxy_request_logs (
                request_id TEXT PRIMARY KEY, provider_id TEXT NOT NULL, app_type TEXT NOT NULL,
                model TEXT NOT NULL, request_model TEXT, pricing_model TEXT,
                input_tokens INTEGER NOT NULL DEFAULT 0,
                output_tokens INTEGER NOT NULL DEFAULT 0,
                cache_read_tokens INTEGER NOT NULL DEFAULT 0,
                cache_creation_tokens INTEGER NOT NULL DEFAULT 0,
                input_token_semantics INTEGER NOT NULL DEFAULT 0,
                input_cost_usd TEXT NOT NULL DEFAULT '0',
                output_cost_usd TEXT NOT NULL DEFAULT '0',
                cache_read_cost_usd TEXT NOT NULL DEFAULT '0',
                cache_creation_cost_usd TEXT NOT NULL DEFAULT '0',
                total_cost_usd TEXT NOT NULL DEFAULT '0',
                latency_ms INTEGER NOT NULL, first_token_ms INTEGER, duration_ms INTEGER,
                status_code INTEGER NOT NULL, error_message TEXT, session_id TEXT,
                provider_type TEXT, is_streaming INTEGER NOT NULL DEFAULT 0,
                cost_multiplier TEXT NOT NULL DEFAULT '1.0', created_at INTEGER NOT NULL,
                data_source TEXT NOT NULL DEFAULT 'proxy'
             );
             CREATE TABLE session_usage_dedup (
                data_source TEXT NOT NULL, request_id TEXT NOT NULL, semantic_id TEXT NOT NULL,
                has_entry_id INTEGER NOT NULL, PRIMARY KEY (data_source, request_id)
             );
             CREATE TABLE session_log_sync (
                file_path TEXT PRIMARY KEY, last_modified INTEGER NOT NULL,
                last_line_offset INTEGER NOT NULL
             );
             CREATE TABLE model_pricing (
                model_id TEXT PRIMARY KEY, display_name TEXT NOT NULL,
                input_cost_per_million TEXT NOT NULL, output_cost_per_million TEXT NOT NULL,
                cache_read_cost_per_million TEXT NOT NULL,
                cache_creation_cost_per_million TEXT NOT NULL
             );
             CREATE TABLE usage_daily_rollups (
                app_type TEXT PRIMARY KEY, request_count INTEGER NOT NULL
             );",
        )?;
        Ok(Database { conn })
    }

    /// Backfills the ledger, then moves details older than `days` into the
    /// rollups, and returns how many there were.
    fn rollup_and_prune(&self, days: i64) -> Result<usize, rusqlite::Error> {
        backfill_dedup_ledger_on_conn(&self.conn)?;
        let cutoff = now() - days * 86_400;
        self.conn.execute(
            "INSERT INTO usage_daily_rollups (app_type, request_count)
             SELECT app_type, COUNT(*) FROM proxy_request_logs WHERE created_at < ?1
             GROUP BY app_type
             ON CONFLICT (app_type) DO UPDATE
             SET request_count = request_count + excluded.request_count",
            [cutoff],
        )?;
        self.conn.execute(
            "DELETE FROM proxy_request_logs WHERE created_at < ?1",
            [cutoff],
        )
    }
}

fn now() -> i64 {
    SystemTime::now()
        .duration_since(UNIX_EPOCH)
        .unwrap()
        .as_secs() as i64
}

fn insert_ledger(conn: &Connection, entry: &LedgerEntry) -> Result<usize, rusqlite::Error> {
    conn.execute(
        "INSERT OR IGNORE INTO session_usage_dedup
         (data_source, request_id, semantic_id, has_entry_id) VALUES (?1, ?2, ?3, ?4)",
        (
            &entry.data_source,
            &entry.request_id,
            &entry.semantic_id,
            entry.has_entry_id,
        ),
    )
}

fn backfill_dedup_ledger_on_conn(conn: &Connection) -> Result<(), rusqlite::Error> {
    let query = backfill_query();
    let mut statement = conn.prepare(
        "SELECT request_id, COALESCE(app_type = ?1, 0), COALESCE(data_source = ?2, 0)
         FROM proxy_request_logs",
    )?;
    let rows = statement
        .query_map([query.app_type, query.data_source], |row| {
            Ok(LoggedRequest {
                request_id: row.get(0)?,
                is_app_type: row.get(1)?,
                is_data_source: row.get(2)?,
            })
        })?
        .collect::<Result<Vec<_>, _>>()?;
    for entry in backfill_dedup_ledger(&rows) {
        insert_ledger(conn, &entry)?;
    }
    Ok(())
}

fn insert_log(conn: &Connection, row: LogRow) -> Result<usize, rusqlite::Error> {
    let semantics = match row.input_token_semantics {
        InputTokenSemantics::Total => 1,
        InputTokenSemantics::Fresh => INPUT_TOKEN_SEMANTICS_FRESH,
    };
    let values: Vec<Value> = vec![
        row.request_id.into(),
        row.provider_id.into(),
        row.app_type.into(),
        row.model.into(),
        row.request_model.into(),
        row.pricing_model.into(),
        row.input_tokens.into(),
        row.output_tokens.into(),
        row.cache_read_tokens.into(),
        row.cache_creation_tokens.into(),
        semantics.into(),
        row.input_cost_usd.into(),
        row.output_cost_usd.into(),
        row.cache_read_cost_usd.into(),
        row.cache_creation_cost_usd.into(),
        row.total_cost_usd.into(),
        row.latency_ms.into(),
        row.first_token_ms.into(),
        row.duration_ms.into(),
        row.status_code.into(),
        row.error_message.into(),
        row.session_id.into(),
        row.provider_type.into(),
        row.is_streaming.into(),
        row.cost_multiplier.into(),
        row.created_at.into(),
        row.data_source.into(),
    ];
    conn.execute(
        "INSERT INTO proxy_request_logs (
            request_id, provider_id, app_type, model, request_model, pricing_model,
            input_tokens, output_tokens, cache_read_tokens, cache_creation_tokens,
            input_token_semantics,
            input_cost_usd, output_cost_usd, cache_read_cost_usd,
            cache_creation_cost_usd, total_cost_usd, latency_ms, first_token_ms,
            duration_ms, status_code, error_message, session_id, provider_type,
            is_streaming, cost_multiplier, created_at, data_source
        ) VALUES (?1, ?2, ?3, ?4, ?5, ?6, ?7, ?8, ?9, ?10, ?11, ?12, ?13, ?14, ?15,
                  ?16, ?17, ?18, ?19, ?20, ?21, ?22, ?23, ?24, ?25, ?26, ?27)",
        params_from_iter(values),
    )
}

fn amount(text: String) -> Amount {
    let decimal = Decimal::from_str(&text).unwrap();
    Amount::new(decimal.mantissa(), decimal.scale()).unwrap()
}

fn find_model_pricing(conn: &Connection, model_id: &str) -> Option<ModelPricing> {
    conn.query_row(
        "SELECT input_cost_per_million, output_cost_per_million,
                cache_read_cost_per_million, cache_creation_cost_per_million
         FROM model_pricing WHERE model_id = ?1",
        [model_id],
        |row| {
            Ok(ModelPricing {
                input_cost_per_million: amount(row.get(0)?),
                output_cost_per_million: amount(row.get(1)?),
                cache_read_cost_per_million: amount(row.get(2)?),
                cache_creation_cost_per_million: amount(row.get(3)?),
            })
        },
    )
    .ok()
}

fn modified_nanos(path: &Path) -> Option<i64> {
    let modified = path.metadata().ok()?.modified().ok()?;
    Some(modified.duration_since(UNIX_EPOCH).ok()?.as_nanos() as i64)
}

fn columns(row: &Row<'_>) -> Result<UsageColumns, rusqlite::Error> {
    Ok(UsageColumns {
        request_id: row.get(0)?,
        provider_id: row.get(1)?,
        provider_name: row.get(2)?,
        model_id: row.get(3)?,
        model_name: row.get(4)?,
        input_tokens: row.get(5)?,
        output_tokens: row.get(6)?,
        no_cache_tokens: row.get(7)?,
        cache_read_tokens: row.get(8)?,
        cache_write_tokens: row.get(9)?,
        time_first_token_ms: row.get(10)?,
        time_completion_ms: row.get(11)?,
        created_at: row.get(12)?,
    })
}

fn read_rows(
    conn: &Connection,
    after_rowid: i64,
    through_rowid: i64,
    modality: &str,
    with_record_kind: bool,
) -> Result<Vec<UsageRow>, RowsFailure> {
    let record_kind = if with_record_kind { "record_kind" } else { "NULL" };
    let query = format!(
        "SELECT request_id, provider_id, provider_name, model_id, model_name,
                input_tokens, output_tokens, no_cache_tokens,
                cache_read_tokens, cache_write_tokens,
                time_first_token_ms, time_completion_ms, created_at,
                rowid, COALESCE(modality = ?3, 0), {record_kind}
         FROM ai_usage_record WHERE rowid > ?1 AND rowid <= ?2 ORDER BY rowid"
    );
    let mut statement = conn
        .prepare(&query)
        .map_err(|error| RowsFailure::Prepare(error.to_string()))?;
    let rows = statement
        .query_map((after_rowid, through_rowid, modality), |row| {
            Ok(UsageRow {
                rowid: row.get(13)?,
                is_language: row.get(14)?,
                record_kind: row.get(15)?,
                columns: columns(row).map_err(|error| error.to_string()),
            })
        })
        .map_err(|error| RowsFailure::Query(error.to_string()))?;
    rows.collect::<Result<Vec<_>, _>>()
        .map_err(|error| RowsFailure::Row(error.to_string()))
}

fn has_usage_column(conn: &Connection, column: &str) -> Result<bool, rusqlite::Error> {
    conn.query_row(
        "SELECT EXISTS(SELECT 1 FROM pragma_table_info('ai_usage_record') WHERE name = ?1)",
        [column],
        |row| row.get(0),
    )
}

fn max_usage_rowid(conn: &Connection) -> Result<Option<i64>, rusqlite::Error> {
    conn.query_row("SELECT MAX(rowid) FROM ai_usage_record", [], |row| {
        row.get(0)
    })
}

fn query_all(conn: &Connection, through_rowid: i64) -> Vec<CherryUsageRecord> {
    let kind = has_usage_column(conn, "record_kind").unwrap();
    let rows = read_rows(conn, 0, through_rowid, LANGUAGE, kind).unwrap();
    query_usage_records(&rows, 0, through_rowid).unwrap()
}

fn report<T>(result: Result<T, rusqlite::Error>, event: fn(T) -> SyncEvent) -> SyncEvent {
    match result {
        Ok(value) => event(value),
        Err(error) => SyncEvent::Failed(error.to_string()),
    }
}

fn done<T>(_: T) -> SyncEvent {
    SyncEvent::Done
}

/// Performs one action.
fn perform(
    db: &Connection,
    path: &Path,
    studio: &mut Option<Connection>,
    action: SyncAction,
) -> SyncEvent {
    match (action, &studio) {
        (SyncAction::Locate, _) => {
            if path.exists() {
                let file_path = path.to_string_lossy().to_string();
                SyncEvent::Found { file_path }
            } else {
                SyncEvent::Missing
            }
        }
        (SyncAction::ReadModified, _) => {
            SyncEvent::Modified(modified_nanos(path).unwrap())
        }
        (SyncAction::ReadLogModified { path }, _) => {
            SyncEvent::LogModified(modified_nanos(Path::new(&path)))
        }
        (SyncAction::LoadCursor { file_path }, _) => report(
            db.query_row(
                "SELECT last_modified, last_line_offset FROM session_log_sync
                 WHERE file_path = ?1",
                [file_path],
                |row| {
                    Ok(SyncCursor {
                        last_modified: row.get(0)?,
                        last_line_offset: row.get(1)?,
                    })
                },
            )
            .optional(),
            SyncEvent::Cursor,
        ),
        (SyncAction::OpenStudio, _) => {
            match Connection::open_with_flags(path, OpenFlags::SQLITE_OPEN_READ_ONLY) {
                Ok(conn) => {
                    *studio = Some(conn);
                    SyncEvent::Done
                }
                Err(error) => SyncEvent::Failed(error.to_string()),
            }
        }
        (SyncAction::FindTable { table }, Some(conn)) => report(
            conn.query_row(
                "SELECT EXISTS(SELECT 1 FROM sqlite_master WHERE type = 'table' AND name = ?1)",
                [table],
                |row| row.get(0),
            ),
            SyncEvent::Answer,
        ),
        (SyncAction::ReadMaxRowid { .. }, Some(conn)) => {
            report(max_usage_rowid(conn), SyncEvent::MaxRowid)
        }
        (SyncAction::FindColumn { column, .. }, Some(conn)) => {
            report(has_usage_column(conn, &column), SyncEvent::Answer)
        }
        (
            SyncAction::ReadRows {
                after_rowid,
                through_rowid,
                modality,
                with_record_kind,
                ..
            },
            Some(conn),
        ) => match read_rows(
            conn,
            after_rowid,
            through_rowid,
            &modality,
            with_record_kind,
        ) {
            Ok(rows) => SyncEvent::Rows(rows),
            Err(failure) => SyncEvent::RowsFailed(failure),
        },
        (SyncAction::BeginImport, _) => report(db.execute_batch("BEGIN"), done),
        (SyncAction::InsertLedger(entry), _) => {
            report(insert_ledger(db, &entry), SyncEvent::Inserted)
        }
        (SyncAction::FindPricing { model_id }, _) => {
            SyncEvent::Pricing(find_model_pricing(db, &model_id))
        }
        (SyncAction::InsertLog(row), _) => report(insert_log(db, row), done),
        (SyncAction::SaveCursor { file_path, cursor }, _) => report(
            db.execute(
                "INSERT OR REPLACE INTO session_log_sync
                 (file_path, last_modified, last_line_offset) VALUES (?1, ?2, ?3)",
                (file_path, cursor.last_modified, cursor.last_line_offset),
            ),
            done,
        ),
        (SyncAction::Commit, _) => report(db.execute_batch("COMMIT"), done),
        (action, _) => panic!("cannot perform {:?}", action),
    }
}

fn sync_cherry_studio_usage_from_path(
    db: &Database,
    path: &Path,
) -> Result<SessionSyncResult, SyncError> {
    let mut studio = None;
    let (mut state, mut action): (SyncState, SyncAction) = begin_sync();
    loop {
        if let SyncAction::Finish(result) = action {
            if !db.conn.is_autocommit() {
                db.conn.execute_batch("ROLLBACK").unwrap();
            }
            return result;
        }
        let event = perform(&db.conn, path, &mut studio, action);
        assert!(state.accepts(&event));
        (state, action) = state.step(event);
    }
}

const USAGE_TABLE: &str = "CREATE TABLE ai_usage_record (
    id TEXT, request_id TEXT, provider_id TEXT, provider_name TEXT,
    model_id TEXT, model_name TEXT, modality TEXT, input_tokens INTEGER,
    output_tokens INTEGER, no_cache_tokens INTEGER, cache_read_tokens INTEGER,
    cache_write_tokens INTEGER, cost REAL, cost_currency TEXT,
    time_first_token_ms INTEGER, time_completion_ms INTEGER, created_at INTEGER
 );";

#[test]
fn missing_cherry_database_is_a_noop() -> TestResult {
    let db = Database::memory()?;
    let temp = tempfile::tempdir().unwrap();

    let result =
        sync_cherry_studio_usage_from_path(&db, &temp.path().join("missing.sqlite")).unwrap();

    assert_eq!(result.imported, 0);
    assert_eq!(result.files_scanned, 0);
    assert!(result.errors.is_empty());
    let count: i64 = db
        .conn
        .query_row("SELECT COUNT(*) FROM proxy_request_logs", [], |row| {
            row.get(0)
        })?;
    assert_eq!(count, 0);
    Ok(())
}

#[test]
fn backfill_only_captures_legacy_cherry_details() -> TestResult {
    let db = Database::memory()?;
    let conn = &db.conn;
    conn.execute_batch(
        "INSERT INTO proxy_request_logs
            (request_id, provider_id, app_type, model, input_tokens, output_tokens,
             latency_ms, status_code, created_at, data_source)
         VALUES
            ('cherry_studio:old', 'OpenAI', 'cherry-studio', 'gpt-test',
             10, 2, 5, 200, 1, 'cherry_studio'),
            ('existing-gemini', 'anthropic', 'gemini', 'gemini-test',
             7, 3, 5, 200, 1, 'proxy');",
    )?;

    backfill_dedup_ledger_on_conn(conn)?;
    backfill_dedup_ledger_on_conn(conn)?;
    let rows: i64 = conn.query_row(
        "SELECT COUNT(*) FROM session_usage_dedup
         WHERE data_source = 'cherry_studio'
           AND request_id = 'cherry_studio:old'
           AND semantic_id = 'cherry_studio:old'",
        [],
        |row| row.get(0),
    )?;
    let unrelated_rows: i64 = conn.query_row(
        "SELECT COUNT(*) FROM session_usage_dedup WHERE request_id = 'existing-gemini'",
        [],
        |row| row.get(0),
    )?;
    assert_eq!(rows, 1);
    assert_eq!(unrelated_rows, 0);
    Ok(())
}

#[test]
fn regular_sync_does_not_repeat_legacy_backfill() -> TestResult {
    let db = Database::memory()?;
    db.conn.execute(
        "INSERT INTO proxy_request_logs
            (request_id, provider_id, app_type, model, input_tokens, output_tokens,
             latency_ms, status_code, created_at, data_source)
         VALUES ('cherry_studio:legacy', 'OpenAI', 'cherry-studio', 'gpt-test',
                 10, 2, 5, 200, 1, 'cherry_studio')",
        [],
    )?;

    let temp = tempfile::tempdir().unwrap();
    let cherry_path = temp.path().join("cherrystudio.sqlite");
    let cherry = Connection::open(&cherry_path)?;
    cherry.execute_batch(USAGE_TABLE)?;
    drop(cherry);

    let result = sync_cherry_studio_usage_from_path(&db, &cherry_path).unwrap();
    assert_eq!(result.imported, 0);

    let dedup_count: i64 = db.conn.query_row(
        "SELECT COUNT(*) FROM session_usage_dedup
         WHERE data_source = 'cherry_studio'",
        [],
        |row| row.get(0),
    )?;
    assert_eq!(dedup_count, 0);
    Ok(())
}

#[test]
fn import_is_scoped_to_cherry_usage_and_preserves_other_apps() -> TestResult {
    let db = Database::memory()?;
    let conn = &db.conn;
    conn.execute(
        "INSERT INTO proxy_request_logs (
            request_id, provider_id, app_type, model, request_model,
            input_tokens, output_tokens, cache_read_tokens, cache_creation_tokens,
            total_cost_usd, latency_ms, status_code, created_at, data_source
        ) VALUES ('existing-gemini', 'anthropic', 'gemini', 'gemini-test',
                  'gemini-test', 7, 3, 0, 0, '0.01', 10, 200, 1, 'proxy')",
        [],
    )?;

    let temp = tempfile::tempdir().unwrap();
    let cherry_path = temp.path().join("cherrystudio.sqlite");
    let cherry = Connection::open(&cherry_path)?;
    cherry.execute_batch(USAGE_TABLE)?;
    cherry.execute_batch(
        "INSERT INTO ai_usage_record VALUES
            ('1', 'language', 'openai', 'OpenAI', 'gpt-test', 'GPT Test',
             'language', 100, 20, 60, 30, 10, 0.5, 'USD', 12, 34, 2000),
            ('2', 'embedding', 'openai', 'OpenAI', 'embed-test', NULL,
             'embedding', 50, 0, 50, 0, 0, 0.1, 'USD', NULL, 10, 3000);",
    )?;
    drop(cherry);

    let first = sync_cherry_studio_usage_from_path(&db, &cherry_path).unwrap();
    assert_eq!(first.imported, 1);
    assert!(first.errors.is_empty());

    let second = sync_cherry_studio_usage_from_path(&db, &cherry_path).unwrap();
    assert_eq!(second.imported, 0);
    assert!(second.errors.is_empty());

    let gemini_count: i64 = conn.query_row(
        "SELECT COUNT(*) FROM proxy_request_logs
         WHERE request_id = 'existing-gemini' AND app_type = 'gemini'
           AND input_tokens = 7 AND output_tokens = 3",
        [],
        |row| row.get(0),
    )?;
    assert_eq!(gemini_count, 1);

    let cherry_row: (i64, String, String, String, i64, i64, i64, i64) = conn.query_row(
        "SELECT COUNT(*), data_source, provider_id, provider_type, input_tokens,
                output_tokens, cache_read_tokens, cache_creation_tokens
         FROM proxy_request_logs WHERE app_type = 'cherry-studio'",
        [],
        |row| {
            Ok((
                row.get(0)?,
                row.get(1)?,
                row.get(2)?,
                row.get(3)?,
                row.get(4)?,
                row.get(5)?,
                row.get(6)?,
                row.get(7)?,
            ))
        },
    )?;
    assert_eq!(
        cherry_row,
        (
            1,
            "cherry_studio".into(),
            "OpenAI".into(),
            "openai".into(),
            60,
            20,
            30,
            10
        )
    );
    let pricing: (String, String, String, String, i64) = conn.query_row(
        "SELECT model, request_model, pricing_model, total_cost_usd,
                input_token_semantics
         FROM proxy_request_logs WHERE app_type = 'cherry-studio'",
        [],
        |row| {
            Ok((
                row.get(0)?,
                row.get(1)?,
                row.get(2)?,
                row.get(3)?,
                row.get(4)?,
            ))
        },
    )?;
    assert_eq!(
        pricing,
        (
            "gpt-test".into(),
            "gpt-test".into(),
            "gpt-test".into(),
            "0".into(),
            INPUT_TOKEN_SEMANTICS_FRESH
        )
    );
    let cherry_dedup_count: i64 = conn.query_row(
        "SELECT COUNT(*) FROM session_usage_dedup WHERE data_source = 'cherry_studio'",
        [],
        |row| row.get(0),
    )?;
    assert_eq!(cherry_dedup_count, 1);
    Ok(())
}

#[test]
fn durable_dedup_prevents_reimport_after_detail_rollup() -> TestResult {
    let db = Database::memory()?;
    let conn = &db.conn;
    let temp = tempfile::tempdir().unwrap();
    let cherry_path = temp.path().join("cherrystudio.sqlite");
    let cherry = Connection::open(&cherry_path)?;
    cherry.execute_batch(USAGE_TABLE)?;
    cherry.execute_batch(
        "INSERT INTO ai_usage_record VALUES
            ('1', 'old', 'openai', 'OpenAI', 'gpt-test', 'GPT Test',
             'language', 100, 20, 60, 30, 10, 0.5, 'USD', 12, 34, 2000);",
    )?;
    drop(cherry);

    let first = sync_cherry_studio_usage_from_path(&db, &cherry_path).unwrap();
    assert_eq!(first.imported, 1);
    assert_eq!(db.rollup_and_prune(30)?, 1);

    let cherry = Connection::open(&cherry_path)?;
    cherry.execute(
        "INSERT INTO ai_usage_record VALUES
         ('2', 'new', 'openai', 'OpenAI', 'gpt-test', 'GPT Test',
          'language', 80, 10, 50, 20, 10, 0.25, 'USD', 8, 21, 3000)",
        [],
    )?;
    drop(cherry);
    conn.execute(
        "UPDATE session_log_sync SET last_modified = 0 WHERE file_path = ?1",
        [cherry_path.to_string_lossy().as_ref()],
    )?;

    let second = sync_cherry_studio_usage_from_path(&db, &cherry_path).unwrap();
    assert_eq!(second.imported, 1);
    assert_eq!(second.skipped, 0);

    let detail_count: i64 = conn.query_row(
        "SELECT COUNT(*) FROM proxy_request_logs
         WHERE app_type = 'cherry-studio' AND data_source = 'cherry_studio'",
        [],
        |row| row.get(0),
    )?;
    let rollup_count: i64 = conn.query_row(
        "SELECT COALESCE(SUM(request_count), 0) FROM usage_daily_rollups
         WHERE app_type = 'cherry-studio'",
        [],
        |row| row.get(0),
    )?;
    let dedup_count: i64 = conn.query_row(
        "SELECT COUNT(*) FROM session_usage_dedup WHERE data_source = 'cherry_studio'",
        [],
        |row| row.get(0),
    )?;
    let source_cursor: i64 = conn.query_row(
        "SELECT last_line_offset FROM session_log_sync WHERE file_path = ?1",
        [cherry_path.to_string_lossy().as_ref()],
        |row| row.get(0),
    )?;
    assert_eq!(detail_count, 1);
    assert_eq!(rollup_count, 1);
    assert_eq!(dedup_count, 2);
    assert_eq!(source_cursor, 2);
    Ok(())
}

#[test]
fn batch_import_rolls_back_rows_and_cursor_together() -> TestResult {
    let db = Database::memory()?;
    let conn = &db.conn;
    conn.execute_batch(
        "CREATE TRIGGER reject_bad_cherry_record
         BEFORE INSERT ON proxy_request_logs
         WHEN NEW.request_id = 'cherry_studio:bad'
         BEGIN
             SELECT RAISE(FAIL, 'rejected test row');
         END;",
    )?;

    let temp = tempfile::tempdir().unwrap();
    let cherry_path = temp.path().join("cherrystudio.sqlite");
    let cherry = Connection::open(&cherry_path)?;
    cherry.execute_batch(USAGE_TABLE)?;
    cherry.execute_batch(
        "INSERT INTO ai_usage_record VALUES
            ('1', 'good', 'openai', 'OpenAI', 'gpt-test', 'GPT Test',
             'language', 10, 2, 8, 0, 0, 0.1, 'USD', 1, 2, 2000),
            ('2', 'bad', 'openai', 'OpenAI', 'gpt-test', 'GPT Test',
             'language', 10, 2, 8, 0, 0, 0.1, 'USD', 1, 2, 3000);",
    )?;
    drop(cherry);

    assert!(sync_cherry_studio_usage_from_path(&db, &cherry_path).is_err());

    let counts: (i64, i64, i64) = conn.query_row(
        "SELECT
            (SELECT COUNT(*) FROM proxy_request_logs
             WHERE data_source = 'cherry_studio'),
            (SELECT COUNT(*) FROM session_usage_dedup
             WHERE data_source = 'cherry_studio'),
            (SELECT COUNT(*) FROM session_log_sync WHERE file_path = ?1)",
        [cherry_path.to_string_lossy().as_ref()],
        |row| Ok((row.get(0)?, row.get(1)?, row.get(2)?)),
    )?;
    assert_eq!(counts, (0, 0, 0));
    Ok(())
}

#[test]
fn startup_rollup_backfills_recent_legacy_dedup_without_pruning() -> TestResult {
    let db = Database::memory()?;
    let recent_ts = now();
    db.conn.execute(
        "INSERT INTO proxy_request_logs (
            request_id, provider_id, app_type, model, request_model,
            input_tokens, output_tokens, cache_read_tokens, cache_creation_tokens,
            total_cost_usd, latency_ms, status_code, created_at, data_source
         ) VALUES ('cherry_studio:recent-legacy', 'OpenAI', 'cherry-studio',
                   'gpt-test', 'gpt-test', 60, 20, 30, 10, '0.5', 34, 200,
                   ?1, 'cherry_studio')",
        [recent_ts],
    )?;

    // A source rowid reset must be able to deduplicate this retained row even
    // though no details are old enough for the rollup pass to prune.
    assert_eq!(db.rollup_and_prune(30)?, 0);

    let counts: (i64, i64) = db.conn.query_row(
        "SELECT
            (SELECT COUNT(*) FROM proxy_request_logs
             WHERE request_id = 'cherry_studio:recent-legacy'),
            (SELECT COUNT(*) FROM session_usage_dedup
             WHERE data_source = 'cherry_studio'
               AND request_id = 'cherry_studio:recent-legacy')",
        [],
        |row| Ok((row.get(0)?, row.get(1)?)),
    )?;
    assert_eq!(counts, (1, 1));
    Ok(())
}

#[test]
fn startup_rollup_backfills_legacy_dedup_before_cherry_sync() -> TestResult {
    let db = Database::memory()?;
    db.conn.execute(
        "INSERT INTO proxy_request_logs (
            request_id, provider_id, app_type, model, request_model,
            input_tokens, output_tokens, cache_read_tokens, cache_creation_tokens,
            total_cost_usd, latency_ms, status_code, created_at, data_source
         ) VALUES ('cherry_studio:legacy', 'OpenAI', 'cherry-studio', 'gpt-test',
                   'gpt-test', 60, 20, 30, 10, '0.5', 34, 200, 1,
                   'cherry_studio')",
        [],
    )?;

    let temp = tempfile::tempdir().unwrap();
    let cherry_path = temp.path().join("cherrystudio.sqlite");
    let cherry = Connection::open(&cherry_path)?;
    cherry.execute_batch(USAGE_TABLE)?;
    cherry.execute_batch(
        "INSERT INTO ai_usage_record VALUES
            ('1', 'legacy', 'openai', 'OpenAI', 'gpt-test', 'GPT Test',
             'language', 100, 20, 60, 30, 10, 0.5, 'USD', 12, 34, 2000);",
    )?;
    drop(cherry);

    assert_eq!(db.rollup_and_prune(30)?, 1);
    let sync = sync_cherry_studio_usage_from_path(&db, &cherry_path).unwrap();
    assert_eq!(sync.imported, 0);
    assert_eq!(sync.skipped, 1);

    let counts: (i64, i64, i64) = db.conn.query_row(
        "SELECT
            (SELECT COUNT(*) FROM proxy_request_logs
             WHERE request_id = 'cherry_studio:legacy'),
            (SELECT COALESCE(SUM(request_count), 0) FROM usage_daily_rollups
             WHERE app_type = 'cherry-studio'),
            (SELECT COUNT(*) FROM session_usage_dedup
             WHERE data_source = 'cherry_studio'
               AND request_id = 'cherry_studio:legacy')",
        [],
        |row| Ok((row.get(0)?, row.get(1)?, row.get(2)?)),
    )?;
    assert_eq!(counts, (0, 1, 1));
    Ok(())
}

#[test]
fn sync_prices_all_cherry_currencies_from_cc_switch_tokens() -> TestResult {
    let db = Database::memory()?;
    let conn = &db.conn;
    conn.execute(
        "INSERT OR REPLACE INTO model_pricing (
            model_id, display_name, input_cost_per_million,
            output_cost_per_million, cache_read_cost_per_million,
            cache_creation_cost_per_million
         ) VALUES ('m1', 'Model One', '1', '2', '0.5', '3')",
        [],
    )?;

    let temp = tempfile::tempdir().unwrap();
    let cherry_path = temp.path().join("cherrystudio.sqlite");
    let cherry = Connection::open(&cherry_path)?;
    cherry.execute_batch(USAGE_TABLE)?;
    cherry.execute_batch(
        "INSERT INTO ai_usage_record VALUES
            ('1', 'usd', 'p1', 'Provider', 'm1', 'Display Name', 'language',
             100, 20, 60, 30, 10, 999.0, 'USD', 12, 34, 2000),
            ('2', 'cny', 'p1', 'Provider', 'm1', 'Display Name', 'language',
             100, 20, 60, 30, 10, 888.0, 'CNY', 12, 34, 3000);",
    )?;
    drop(cherry);

    let result = sync_cherry_studio_usage_from_path(&db, &cherry_path).unwrap();
    assert_eq!(result.imported, 2);

    let mut stmt = conn.prepare(
        "SELECT request_id, CAST(total_cost_usd AS REAL), pricing_model
         FROM proxy_request_logs
         WHERE data_source = 'cherry_studio'
         ORDER BY request_id",
    )?;
    let rows = stmt
        .query_map([], |row| {
            Ok((
                row.get::<_, String>(0)?,
                row.get::<_, f64>(1)?,
                row.get::<_, String>(2)?,
            ))
        })?
        .collect::<Result<Vec<_>, _>>()?;

    assert_eq!(rows.len(), 2);
    for (_, total_cost, pricing_model) in rows {
        assert!((total_cost - 0.000145).abs() < 1e-12);
        assert_eq!(pricing_model, "m1");
    }
    Ok(())
}

#[test]
fn query_normalizes_cherry_input_and_preserves_raw_model_id() {
    let conn = Connection::open_in_memory().unwrap();
    conn.execute_batch(USAGE_TABLE).unwrap();
    conn.execute_batch(
        "INSERT INTO ai_usage_record VALUES
            ('1', 'usd', 'p1', 'Provider', 'm1', 'Model', 'language', 100, 20, NULL, 30, 10, 0.5, 'USD', 12, 34, 2000),
            ('2', 'cny', 'p1', 'Provider', 'm1', NULL, 'language', 100, 20, 55, 30, 10, 3.0, 'CNY', NULL, NULL, 3000);",
    )
    .unwrap();

    let max_rowid = max_usage_rowid(&conn).unwrap().unwrap();
    let records = query_all(&conn, max_rowid);
    assert_eq!(max_rowid, 2);
    assert_eq!(records.len(), 2);
    assert_eq!(records[0].input_tokens, 60);
    assert_eq!(records[0].model_id, "m1");
    assert_eq!(records[1].input_tokens, 55);
    assert_eq!(records[1].model_id, "m1");
}

#[test]
fn query_excludes_migrated_legacy_aggregates() {
    let conn = Connection::open_in_memory().unwrap();
    conn.execute_batch(
        "CREATE TABLE ai_usage_record (
            id TEXT, request_id TEXT, provider_id TEXT, provider_name TEXT,
            model_id TEXT, model_name TEXT, modality TEXT, input_tokens INTEGER,
            output_tokens INTEGER, no_cache_tokens INTEGER, cache_read_tokens INTEGER,
            cache_write_tokens INTEGER, cost REAL, cost_currency TEXT,
            time_first_token_ms INTEGER, time_completion_ms INTEGER, created_at INTEGER,
            record_kind TEXT, request_count INTEGER
         );
         INSERT INTO ai_usage_record VALUES
            ('1', 'aggregate', 'p1', 'Provider', 'm1', 'Model', 'language',
             1000, 200, 800, 100, 100, 5.0, 'USD', NULL, 300, 2000,
             'legacy-aggregate', 10),
            ('2', 'detail', 'p1', 'Provider', 'm1', 'Model', 'language',
             100, 20, 80, 10, 10, 0.5, 'USD', 12, 34, 3000,
             'detail', 1);",
    )
    .unwrap();

    let max_rowid = max_usage_rowid(&conn).unwrap().unwrap();
    let records = query_all(&conn, max_rowid);

    assert_eq!(max_rowid, 2);
    assert_eq!(records.len(), 1);
    assert_eq!(records[0].request_id, "detail");
}

#[test]
fn imported_record_carries_every_column() -> TestResult {
    let db = Database::memory()?;
    db.conn.execute(
        "INSERT INTO model_pricing VALUES ('m1', 'Model One', '1', '2', '0.5', '3')",
        [],
    )?;
    let temp = tempfile::tempdir().unwrap();
    let cherry_path = temp.path().join("cherrystudio.sqlite");
    let cherry = Connection::open(&cherry_path)?;
    cherry.execute_batch(USAGE_TABLE)?;
    cherry.execute_batch(
        "INSERT INTO ai_usage_record VALUES
            ('1', 'r', 'p1', 'Provider', 'm1', 'Model', 'language', 100, 20, 60, 30, 10,
             0.5, 'USD', 12, 34, 2999);",
    )?;
    drop(cherry);
    let result = sync_cherry_studio_usage_from_path(&db, &cherry_path).unwrap();
    assert_eq!((result.imported, result.skipped, result.files_scanned), (1, 0, 1));
    let entry: (String, String, String, bool) = db.conn.query_row(
        "SELECT data_source, request_id, semantic_id, has_entry_id FROM session_usage_dedup",
        [],
        |row| Ok((row.get(0)?, row.get(1)?, row.get(2)?, row.get(3)?)),
    )?;
    assert_eq!(
        entry,
        (
            DATA_SOURCE.into(),
            "cherry_studio:r".into(),
            "cherry_studio:r".into(),
            true
        )
    );

    let costs: (String, String, String, String, String) = db.conn.query_row(
        "SELECT input_cost_usd, output_cost_usd, cache_read_cost_usd,
                cache_creation_cost_usd, total_cost_usd FROM proxy_request_logs",
        [],
        |row| {
            Ok((
                row.get(0)?,
                row.get(1)?,
                row.get(2)?,
                row.get(3)?,
                row.get(4)?,
            ))
        },
    )?;
    assert_eq!(
        costs,
        (
            "0.00006".into(),
            "0.00004".into(),
            "0.000015".into(),
            "0.00003".into(),
            "0.000145".into()
        )
    );
    let rest: (String, i64, Option<i64>, i64, i64, Option<String>, Option<String>, i64) =
        db.conn.query_row(
            "SELECT request_id, latency_ms, first_token_ms, duration_ms, status_code,
                    error_message, session_id, is_streaming FROM proxy_request_logs",
            [],
            |row| {
                Ok((
                    row.get(0)?,
                    row.get(1)?,
                    row.get(2)?,
                    row.get(3)?,
                    row.get(4)?,
                    row.get(5)?,
                    row.get(6)?,
                    row.get(7)?,
                ))
            },
        )?;
    assert_eq!(
        rest,
        ("cherry_studio:r".into(), 34, Some(12), 34, 200, None, None, 1)
    );
    let last: (String, i64, String, String) = db.conn.query_row(
        "SELECT cost_multiplier, created_at, data_source, app_type FROM proxy_request_logs",
        [],
        |row| Ok((row.get(0)?, row.get(1)?, row.get(2)?, row.get(3)?)),
    )?;
    assert_eq!(
        last,
        ("1.0".into(), 2, DATA_SOURCE.into(), APP_TYPE.into())
    );
    Ok(())
}

#[test]
fn database_without_usage_table_is_reported() -> TestResult {
    let db = Database::memory()?;
    let temp = tempfile::tempdir().unwrap();
    let cherry_path = temp.path().join("cherrystudio.sqlite");
    let cherry = Connection::open(&cherry_path)?;
    cherry.execute_batch("CREATE TABLE other (id TEXT);")?;
    drop(cherry);

    let result = sync_cherry_studio_usage_from_path(&db, &cherry_path).unwrap();
    assert_eq!(result.files_scanned, 1);
    assert_eq!(result.imported, 0);
    assert_eq!(
        result.errors,
        vec!["Cherry Studio 数据库中没有 ai_usage_record 表".to_string()]
    );
    let again = sync_cherry_studio_usage_from_path(&db, &cherry_path).unwrap();
    assert_eq!(again.errors, result.errors);
    let cursors: i64 = db
        .conn
        .query_row("SELECT COUNT(*) FROM session_log_sync", [], |row| {
            row.get(0)
        })?;
    assert_eq!(cursors, 0);
    Ok(())
}

#[test]
fn replaced_database_is_read_again_and_deduplicated() -> TestResult {
    let db = Database::memory()?;
    let temp = tempfile::tempdir().unwrap();
    let cherry_path = temp.path().join("cherrystudio.sqlite");
    let cherry = Connection::open(&cherry_path)?;
    cherry.execute_batch(USAGE_TABLE)?;
    cherry.execute_batch(
        "INSERT INTO ai_usage_record VALUES
            ('1', 'a', 'p', 'P', 'm', 'M', 'language', 1, 1, 1, 0, 0, 0, 'USD', 1, 1, 1000),
            ('2', 'b', 'p', 'P', 'm', 'M', 'language', 1, 1, 1, 0, 0, 0, 'USD', 1, 1, 1000),
            ('3', 'c', 'p', 'P', 'm', 'M', 'language', 1, 1, 1, 0, 0, 0, 'USD', 1, 1, 1000);",
    )?;
    drop(cherry);
    let first = sync_cherry_studio_usage_from_path(&db, &cherry_path).unwrap();
    assert_eq!(first.imported, 3);

    let cherry = Connection::open(&cherry_path)?;
    cherry.execute_batch("DROP TABLE ai_usage_record;")?;
    cherry.execute_batch(USAGE_TABLE)?;
    cherry.execute_batch(
        "INSERT INTO ai_usage_record VALUES
            ('1', 'b', 'p', 'P', 'm', 'M', 'language', 1, 1, 1, 0, 0, 0, 'USD', 1, 1, 1000),
            ('2', 'd', 'p', 'P', 'm', 'M', 'language', 1, 1, 1, 0, 0, 0, 'USD', 1, 1, 1000);",
    )?;
    drop(cherry);
    db.conn
        .execute("UPDATE session_log_sync SET last_modified = 0", [])?;
    let second = sync_cherry_studio_usage_from_path(&db, &cherry_path).unwrap();
    assert_eq!((second.imported, second.skipped), (1, 1));
    let cursor: i64 =
        db.conn
            .query_row("SELECT last_line_offset FROM session_log_sync", [], |row| {
                row.get(0)
            })?;
    assert_eq!(cursor, 2);
    let logged: i64 =
        db.conn
            .query_row("SELECT COUNT(*) FROM proxy_request_logs", [], |row| {
                row.get(0)
            })?;
    assert_eq!(logged, 4);
    Ok(())
}

#[test]
fn unreadable_selected_row_fails_the_run() -> TestResult {
    let db = Database::memory()?;
    let temp = tempfile::tempdir().unwrap();
    let cherry_path = temp.path().join("cherrystudio.sqlite");
    let cherry = Connection::open(&cherry_path)?;
    cherry.execute_batch(USAGE_TABLE)?;
    cherry.execute_batch(
        "INSERT INTO ai_usage_record VALUES
            ('1', NULL, 'p', 'P', 'm', 'M', 'embedding', 1, 1, 1, 0, 0, 0, 'USD', 1, 1, 1000),
            ('2', 'b', 'p', 'P', 'm', 'M', 'language', 1, 1, 1, 0, 0, 0, 'USD', 1, 1, 1000);",
    )?;
    let first = sync_cherry_studio_usage_from_path(&db, &cherry_path).unwrap();
    assert_eq!(first.imported, 1);

    cherry.execute_batch(
        "INSERT INTO ai_usage_record VALUES
            ('3', NULL, 'p', 'P', 'm', 'M', 'language', 1, 1, 1, 0, 0, 0, 'USD', 1, 1, 1000);",
    )?;
    drop(cherry);
    db.conn
        .execute("UPDATE session_log_sync SET last_modified = 0", [])?;
    match sync_cherry_studio_usage_from_path(&db, &cherry_path) {
        Err(SyncError::Database(message)) => {
            assert!(message.starts_with("读取 Cherry Studio 用量行失败: "))
        }
        other => panic!("{:?}", other),
    }
    Ok(())
}

#[test]
fn selection_goes_by_the_collation_of_the_columns() {
    let conn = Connection::open_in_memory().unwrap();
    conn.execute_batch(
        "CREATE TABLE ai_usage_record (
            request_id TEXT, provider_id TEXT, provider_name TEXT, model_id TEXT,
            model_name TEXT, modality TEXT COLLATE NOCASE, input_tokens INTEGER,
            output_tokens INTEGER, no_cache_tokens INTEGER, cache_read_tokens INTEGER,
            cache_write_tokens INTEGER, time_first_token_ms INTEGER,
            time_completion_ms INTEGER, created_at INTEGER, record_kind TEXT COLLATE NOCASE
         );
         INSERT INTO ai_usage_record (request_id, modality, created_at, record_kind) VALUES
            ('lower', 'language', 0, NULL),
            ('upper', 'Language', 0, 'detail'),
            ('image', 'image', 0, NULL),
            ('none', NULL, 0, NULL),
            ('aggregate', 'LANGUAGE', 0, 'legacy-aggregate'),
            ('capital', 'LANGUAGE', 0, 'Legacy-Aggregate');",
    )
    .unwrap();
    let mut statement = conn
        .prepare(
            "SELECT request_id FROM ai_usage_record
             WHERE modality = 'language' AND COALESCE(record_kind, '') <> 'legacy-aggregate'
             ORDER BY rowid",
        )
        .unwrap();
    let expected = statement
        .query_map([], |row| row.get::<_, String>(0))
        .unwrap()
        .collect::<Result<Vec<_>, _>>()
        .unwrap();
    assert_eq!(expected, ["lower", "upper", "capital"]);
    let records: Vec<String> = query_all(&conn, 6)
        .into_iter()
        .map(|r| r.request_id)
        .collect();
    assert_eq!(records, expected);
}

#[test]
fn backfill_goes_by_the_collation_of_the_columns() -> TestResult {
    let conn = Connection::open_in_memory()?;
    conn.execute_batch(
        "CREATE TABLE proxy_request_logs (
            request_id TEXT, app_type TEXT COLLATE NOCASE, data_source TEXT
         );
         CREATE TABLE session_usage_dedup (
            data_source TEXT NOT NULL, request_id TEXT NOT NULL, semantic_id TEXT NOT NULL,
            has_entry_id INTEGER NOT NULL, PRIMARY KEY (data_source, request_id)
         );
         INSERT INTO proxy_request_logs VALUES
            ('a', 'Cherry-Studio', 'cherry_studio'),
            ('b', 'cherry-studio', 'Cherry_Studio'),
            (NULL, 'cherry-studio', 'cherry_studio'),
            ('c', NULL, 'cherry_studio');",
    )?;
    backfill_dedup_ledger_on_conn(&conn)?;
    let entries = conn
        .prepare("SELECT request_id, semantic_id FROM session_usage_dedup")?
        .query_map([], |row| Ok((row.get(0)?, row.get(1)?)))?
        .collect::<Result<Vec<(String, String)>, _>>()?;
    assert_eq!(entries, [("a".to_string(), "a".to_string())]);
    Ok(())
}
