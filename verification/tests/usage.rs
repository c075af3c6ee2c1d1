//! Rows of the usage table and the records made of them.

use cherry_usage::backfill::{backfill_dedup_ledger, backfill_query, LoggedRequest};
use cherry_usage::usage::{
    nonnegative_u32, normalize_columns, query_usage_records, UsageColumns, UsageRow,
};

fn columns(request_id: &str) -> UsageColumns {
    UsageColumns {
        request_id: request_id.to_string(),
        provider_id: None,
        provider_name: None,
        model_id: None,
        model_name: None,
        input_tokens: None,
        output_tokens: None,
        no_cache_tokens: None,
        cache_read_tokens: None,
        cache_write_tokens: None,
        time_first_token_ms: None,
        time_completion_ms: None,
        created_at: 0,
    }
}

fn row(rowid: i64, is_language: bool, kind: Option<&str>) -> UsageRow {
    UsageRow {
        rowid,
        is_language,
        record_kind: kind.map(|k| k.to_string()),
        columns: Ok(columns(&format!("r{rowid}"))),
    }
}

fn language(rowid: i64) -> UsageRow {
    row(rowid, true, None)
}

fn unreadable(rowid: i64, is_language: bool, error: &str) -> UsageRow {
    UsageRow {
        columns: Err(error.to_string()),
        ..row(rowid, is_language, None)
    }
}

fn ids(rows: &Vec<UsageRow>, after: i64, through: i64) -> Vec<String> {
    let records = query_usage_records(rows, after, through).unwrap();
    records.into_iter().map(|r| r.request_id).collect()
}

#[test]
fn counters_are_clamped() {
    assert_eq!(nonnegative_u32(None), 0);
    assert_eq!(nonnegative_u32(Some(i64::MIN)), 0);
    assert_eq!(nonnegative_u32(Some(-1)), 0);
    assert_eq!(nonnegative_u32(Some(0)), 0);
    assert_eq!(nonnegative_u32(Some(17)), 17);
    assert_eq!(nonnegative_u32(Some(4_294_967_295)), u32::MAX);
    assert_eq!(nonnegative_u32(Some(4_294_967_296)), u32::MAX);
    assert_eq!(nonnegative_u32(Some(i64::MAX)), u32::MAX);
}

#[test]
fn missing_columns_have_defaults() {
    let record = normalize_columns(&columns("r"));
    assert_eq!(record.request_id, "r");
    assert_eq!(record.provider_id, "unknown");
    assert_eq!(record.provider_name, "Cherry Studio");
    assert_eq!(record.model_id, "unknown");
    assert_eq!(
        (
            record.input_tokens,
            record.output_tokens,
            record.cache_read_tokens,
            record.cache_write_tokens
        ),
        (0, 0, 0, 0)
    );
    assert_eq!((record.first_token_ms, record.duration_ms), (None, 0));
}

#[test]
fn model_name_stands_in_for_a_missing_id() {
    let mut named = columns("r");
    named.model_name = Some("Name".to_string());
    assert_eq!(normalize_columns(&named).model_id, "Name");
    named.model_id = Some("id".to_string());
    assert_eq!(normalize_columns(&named).model_id, "id");
}

#[test]
fn fresh_input_leaves_out_cached_tokens() {
    let mut counted = columns("r");
    counted.input_tokens = Some(100);
    counted.cache_read_tokens = Some(30);
    counted.cache_write_tokens = Some(10);
    assert_eq!(normalize_columns(&counted).input_tokens, 60);
    counted.cache_read_tokens = Some(95);
    assert_eq!(normalize_columns(&counted).input_tokens, 0);
    counted.cache_read_tokens = Some(i64::MAX);
    counted.cache_write_tokens = Some(i64::MAX);
    assert_eq!(normalize_columns(&counted).input_tokens, 0);
    counted.no_cache_tokens = Some(55);
    assert_eq!(normalize_columns(&counted).input_tokens, 55);
    counted.no_cache_tokens = Some(-5);
    assert_eq!(normalize_columns(&counted).input_tokens, 0);
}

#[test]
fn times_are_kept_when_they_are_not_negative() {
    let mut timed = columns("r");
    timed.time_first_token_ms = Some(0);
    timed.time_completion_ms = Some(34);
    let record = normalize_columns(&timed);
    assert_eq!((record.first_token_ms, record.duration_ms), (Some(0), 34));
    timed.time_first_token_ms = Some(-1);
    timed.time_completion_ms = Some(-34);
    let record = normalize_columns(&timed);
    assert_eq!((record.first_token_ms, record.duration_ms), (None, 0));
}

#[test]
fn milliseconds_become_seconds_toward_zero() {
    for (milliseconds, seconds) in [
        (2999, 2),
        (999, 0),
        (0, 0),
        (-999, 0),
        (-1999, -1),
        (i64::MIN, i64::MIN / 1000),
    ] {
        let mut at = columns("r");
        at.created_at = milliseconds;
        assert_eq!(normalize_columns(&at).created_at, seconds);
    }
}

#[test]
fn window_is_open_below_and_closed_above() {
    let rows = vec![language(1), language(2), language(3), language(4)];
    assert_eq!(ids(&rows, 1, 3), ["r2", "r3"]);
    assert!(ids(&rows, 4, 4).is_empty());
    assert_eq!(ids(&rows, 0, 4), ["r1", "r2", "r3", "r4"]);
}

#[test]
fn only_single_language_requests_are_selected() {
    let rows = vec![
        row(1, true, Some("legacy-aggregate")),
        row(2, true, Some("detail")),
        row(3, true, None),
        row(4, false, None),
        row(5, false, Some("detail")),
        row(6, true, Some("Legacy-Aggregate")),
        row(7, true, Some("")),
    ];
    assert_eq!(ids(&rows, 0, 7), ["r2", "r3", "r6", "r7"]);
}

#[test]
fn first_unreadable_selected_row_is_the_error() {
    let rows = vec![
        unreadable(1, false, "first"),
        language(2),
        unreadable(3, true, "second"),
        unreadable(4, true, "third"),
    ];
    assert_eq!(query_usage_records(&rows, 0, 4).unwrap_err(), "second");
    assert_eq!(query_usage_records(&rows, 3, 4).unwrap_err(), "third");
    assert_eq!(ids(&rows, 0, 2), ["r2"]);
}

fn logged(request_id: &str, is_app_type: bool, is_data_source: bool) -> LoggedRequest {
    LoggedRequest {
        request_id: Some(request_id.to_string()),
        is_app_type,
        is_data_source,
    }
}

#[test]
fn backfill_asks_for_imported_rows() {
    let query = backfill_query();
    assert_eq!(query.app_type, "cherry-studio");
    assert_eq!(query.data_source, "cherry_studio");
}

#[test]
fn backfill_takes_imported_rows_alone() {
    let rows = vec![
        logged("a", true, true),
        logged("b", true, false),
        logged("c", false, true),
        logged("d", false, false),
        LoggedRequest {
            request_id: None,
            ..logged("", true, true)
        },
        logged("f", true, true),
    ];
    let entries = backfill_dedup_ledger(&rows);
    assert_eq!(entries.len(), 2);
    for (entry, request_id) in entries.iter().zip(["a", "f"]) {
        assert_eq!(entry.data_source, "cherry_studio");
        assert_eq!(entry.request_id, request_id);
        assert_eq!(entry.semantic_id, request_id);
        assert!(entry.has_entry_id);
    }
    assert!(backfill_dedup_ledger(&vec![]).is_empty());
}
