//! What holds of the rows that are selected and of the records made of them.

use crate::usage::{
    clamped, lemma_filter_push, normalized, selected_rows, usage_records, ColumnsView, RecordView,
    RowView,
};
use vstd::prelude::*;

verus! {

/// How far two numbers are apart.
pub open spec fn distance(a: int, b: int) -> int {
    if a < b {
        b - a
    } else {
        a - b
    }
}

/// No count is nearer to the stored counter than this one; a missing counter
/// counts nothing.
pub open spec fn is_nearest_count(value: Option<i64>, count: u32) -> bool {
    match value {
        None => count == 0,
        Some(v) => forall|other: u32|
            distance(count as int, v as int) <= #[trigger] distance(other as int, v as int),
    }
}

/// There is one nearest count, and it is the clamped one.
pub proof fn law_clamping_finds_the_nearest_count(value: Option<i64>, count: u32)
    ensures
        is_nearest_count(value, count) <==> count == clamped(value),
{
    if let Some(v) = value {
        let found = clamped(value);
        assert forall|other: u32|
            distance(found as int, v as int) <= #[trigger] distance(other as int, v as int) by {}
        if is_nearest_count(value, count) {
            assert(distance(count as int, v as int) <= distance(found as int, v as int));
        }
    }
}

/// The counters of a record are the nearest counts to the stored ones, each to
/// its own. So are the input tokens where the studio counted them without the
/// cached ones.
pub proof fn law_counters_are_nearest(columns: ColumnsView)
    ensures
        is_nearest_count(columns.output_tokens, normalized(columns).output_tokens),
        is_nearest_count(columns.cache_read_tokens, normalized(columns).cache_read_tokens),
        is_nearest_count(columns.cache_write_tokens, normalized(columns).cache_write_tokens),
        columns.no_cache_tokens is Some ==> is_nearest_count(
            columns.no_cache_tokens,
            normalized(columns).input_tokens,
        ),
{
    let record = normalized(columns);
    law_clamping_finds_the_nearest_count(columns.output_tokens, record.output_tokens);
    law_clamping_finds_the_nearest_count(columns.cache_read_tokens, record.cache_read_tokens);
    law_clamping_finds_the_nearest_count(columns.cache_write_tokens, record.cache_write_tokens);
    law_clamping_finds_the_nearest_count(columns.no_cache_tokens, record.input_tokens);
}

/// Where the studio did not count the input tokens without the cached ones, all
/// input tokens are split: the fresh ones, those read from the cache and those
/// written to it make up the whole, and no token is counted twice. Where more
/// were cached than there were, none is fresh.
pub proof fn law_input_tokens_are_split(columns: ColumnsView, all: u32)
    requires
        columns.no_cache_tokens is None,
        is_nearest_count(columns.input_tokens, all),
    ensures
        ({
            let record = normalized(columns);
            let cached = record.cache_read_tokens + record.cache_write_tokens;
            &&& cached <= all ==> record.input_tokens + cached == all
            &&& cached > all ==> record.input_tokens == 0
        }),
{
    law_clamping_finds_the_nearest_count(columns.input_tokens, all);
}

/// The input tokens do not depend on any count but the studio's own where it
/// has one.
pub proof fn law_own_count_of_fresh_tokens_decides(one: ColumnsView, other: ColumnsView)
    requires
        one.no_cache_tokens is Some,
        one.no_cache_tokens == other.no_cache_tokens,
    ensures
        normalized(one).input_tokens == normalized(other).input_tokens,
{
}

/// Times that are negative count as missing: the time to the first token is
/// kept exactly where it is not negative, and the duration is the nearest time
/// that is not.
pub proof fn law_negative_times_are_missing(columns: ColumnsView)
    ensures
        ({
            let record = normalized(columns);
            let first = columns.time_first_token_ms;
            let completion = columns.time_completion_ms;
            &&& record.first_token_ms matches Some(ms) ==> ms >= 0 && first == Some(ms)
            &&& record.first_token_ms is None ==> (first matches Some(ms) ==> ms < 0)
            &&& record.duration_ms >= 0
            &&& completion is None ==> record.duration_ms == 0
            &&& completion matches Some(ms) ==> ms <= record.duration_ms && (record.duration_ms
                == ms || record.duration_ms == 0)
        }),
{
}

/// A record is dated to the second that its milliseconds lie in, counted from
/// the epoch in either direction: what is cut off is less than a second, and
/// never leads away from the epoch.
pub proof fn law_dates_are_whole_seconds(columns: ColumnsView)
    ensures
        ({
            let seconds = normalized(columns).created_at;
            let rest = columns.created_at - seconds * 1000;
            &&& columns.created_at >= 0 ==> seconds >= 0 && 0 <= rest < 1000
            &&& columns.created_at <= 0 ==> seconds <= 0 && -1000 < rest <= 0
        }),
{
}

/// The texts of a record are the stored ones. A missing provider or model has a
/// stand-in, and the name of a model stands in for its id.
pub proof fn law_texts_are_kept(columns: ColumnsView)
    ensures
        ({
            let record = normalized(columns);
            &&& record.request_id == columns.request_id
            &&& columns.provider_id matches Some(id) ==> record.provider_id == id
            &&& columns.provider_id is None ==> record.provider_id == "unknown"@
            &&& columns.provider_name matches Some(name) ==> record.provider_name == name
            &&& columns.provider_name is None ==> record.provider_name == "Cherry Studio"@
            &&& columns.model_id matches Some(id) ==> record.model_id == id
            &&& columns.model_id is None ==> (columns.model_name matches Some(name)
                ==> record.model_id == name)
            &&& columns.model_id is None && columns.model_name is None ==> record.model_id
                == "unknown"@
        }),
{
}

/// A row is to be imported: it lies in the window of rowids, belongs to a
/// language model, and is no migrated aggregate.
pub open spec fn is_due(row: RowView, after_rowid: i64, through_rowid: i64) -> bool {
    after_rowid < row.rowid && row.rowid <= through_rowid && row.is_language && row.record_kind
        != Some("legacy-aggregate"@)
}

/// The selection is complete and sound: a row is among the selected ones if and
/// only if it is a row of the table, lies in the window of rowids, belongs to a
/// language model, and is no migrated aggregate.
pub proof fn law_selection_is_complete(
    rows: Seq<RowView>,
    after_rowid: i64,
    through_rowid: i64,
    row: RowView,
)
    ensures
        selected_rows(rows, after_rowid, through_rowid).contains(row) <==> rows.contains(row)
            && after_rowid < row.rowid && row.rowid <= through_rowid && row.is_language
            && row.record_kind != Some("legacy-aggregate"@),
    decreases rows.len(),
{
    let wanted = |r: RowView| r.selected(after_rowid, through_rowid);
    reveal(Seq::filter);
    if rows.len() > 0 {
        let rest = rows.drop_last();
        law_selection_is_complete(rest, after_rowid, through_rowid, row);
        assert(rows =~= rest.push(rows.last()));
        lemma_filter_push(rest, rows.last(), wanted);
        lemma_push_contains(rest, rows.last(), row);
        lemma_push_contains(rest.filter(wanted), rows.last(), row);
    }
}

proof fn lemma_push_contains<A>(s: Seq<A>, x: A, a: A)
    ensures
        s.push(x).contains(a) <==> s.contains(a) || a == x,
{
    if s.contains(a) {
        let i = choose|i: int| 0 <= i < s.len() && s[i] == a;
        assert(s.push(x)[i] == a);
    }
    assert(s.push(x)[s.len() as int] == x);
    if s.push(x).contains(a) {
        let i = choose|i: int| 0 <= i < s.push(x).len() && s.push(x)[i] == a;
        if i < s.len() {
            assert(s[i] == a);
        }
    }
}

/// An empty table has no records.
pub proof fn law_no_rows_no_records(after_rowid: i64, through_rowid: i64)
    ensures
        usage_records(Seq::empty(), after_rowid, through_rowid) == Ok::<
            Seq<RecordView>,
            Seq<char>,
        >(Seq::empty()),
{
    reveal(Seq::filter);
    let chosen = selected_rows(Seq::empty(), after_rowid, through_rowid);
    assert(chosen =~= Seq::empty());
    assert(chosen.map_values(|r: RowView| normalized(r.columns->Ok_0)) =~= Seq::empty());
}

/// A row that is added at the end of a table adds its record at the end of the
/// records, if it is due, and changes nothing otherwise. The first due row that
/// cannot be read is the error from then on.
pub proof fn law_each_due_row_adds_its_record(
    rows: Seq<RowView>,
    row: RowView,
    after_rowid: i64,
    through_rowid: i64,
)
    ensures
        ({
            let before = usage_records(rows, after_rowid, through_rowid);
            let after = usage_records(rows.push(row), after_rowid, through_rowid);
            let due = is_due(row, after_rowid, through_rowid);
            &&& !due ==> after == before
            &&& before is Err ==> after == before
            &&& due && before is Ok ==> match row.columns {
                Ok(columns) => after == Ok::<Seq<RecordView>, Seq<char>>(
                    before->Ok_0.push(normalized(columns)),
                ),
                Err(error) => after == Err::<Seq<RecordView>, Seq<char>>(error),
            }
        }),
{
    let wanted = |r: RowView| r.selected(after_rowid, through_rowid);
    let failed = |r: RowView| r.columns is Err;
    let normal = |r: RowView| normalized(r.columns->Ok_0);
    let chosen = rows.filter(wanted);
    lemma_filter_push(rows, row, wanted);
    lemma_filter_push(chosen, row, failed);
    assert(chosen.push(row).map_values(normal) =~= chosen.map_values(normal).push(normal(row)));
    assert(wanted(row) == is_due(row, after_rowid, through_rowid));
}

/// A table whose due rows can all be read has a record of each of them.
pub proof fn law_every_due_row_has_its_record(
    rows: Seq<RowView>,
    after_rowid: i64,
    through_rowid: i64,
    at: int,
)
    requires
        0 <= at < rows.len(),
        is_due(rows[at], after_rowid, through_rowid),
        usage_records(rows, after_rowid, through_rowid) is Ok,
    ensures
        rows[at].columns is Ok,
        usage_records(rows, after_rowid, through_rowid)->Ok_0.contains(
            normalized(rows[at].columns->Ok_0),
        ),
    decreases rows.len(),
{
    let rest = rows.drop_last();
    assert(rows =~= rest.push(rows.last()));
    law_each_due_row_adds_its_record(rest, rows.last(), after_rowid, through_rowid);
    let record = normalized(rows[at].columns->Ok_0);
    let records = usage_records(rest, after_rowid, through_rowid)->Ok_0;
    if at < rest.len() {
        law_every_due_row_has_its_record(rest, after_rowid, through_rowid, at);
        lemma_push_contains(
            records,
            normalized(rows.last().columns->Ok_0),
            record,
        );
    } else {
        lemma_push_contains(records, record, record);
    }
}

} // verus!
