//! What a run does with the rows and requests it is given, stated on the rows,
//! requests and cursors themselves.

use crate::course_laws::is_later;
use crate::entry_laws::law_requests_are_told_apart;
use crate::import::{ledger_view, log_view};
use crate::laws::{
    law_each_request_is_logged_once, law_import_is_all_or_nothing,
    law_synchronisation_is_all_or_nothing, log_gains, row_key,
};
use crate::pricing::CostTextsView;
use crate::protocol::{ResultView, SyncCursor};
use crate::usage::{normalized, RecordView, RowView};
use crate::usage_laws::{is_due, law_every_due_row_has_its_record};
use crate::world::{ledger_key, lemma_import_grows, no_trouble, Store, Trouble, World};
use vstd::prelude::*;

verus! {

/// The ledger key of a request of the studio.
pub open spec fn request_key(request_id: Seq<char>) -> (Seq<char>, Seq<char>) {
    ("cherry_studio"@, "cherry_studio:"@ + request_id)
}

/// No two records are of the same request.
pub open spec fn are_distinct(records: Seq<RecordView>) -> bool {
    forall|i: int, j: int|
        0 <= i < j < records.len() ==> (#[trigger] records[i]).request_id != (
        #[trigger] records[j]).request_id
}

/// The ledger has none of the requests from position `from` on.
pub open spec fn are_new(store: Store, records: Seq<RecordView>, from: int) -> bool {
    forall|i: int|
        from <= i < records.len() ==> !store.ledger.contains_key(
            request_key((#[trigger] records[i]).request_id),
        )
}

proof fn lemma_new_from(world: World, store: Store, records: Seq<RecordView>, from: int)
    requires
        0 <= from <= records.len(),
        are_distinct(records),
        are_new(store, records, from),
        world.import_from(store, records, from) is Some,
    ensures
        ({
            let after = world.import_from(store, records, from)->0;
            &&& after.log.len() == store.log.len() + records.len() - from
            &&& forall|j: int| 0 <= j < store.log.len() ==> #[trigger] after.log[j] == store.log[j]
            &&& forall|i: int|
                from <= i < records.len() ==> log_view(
                    #[trigger] records[i],
                    world.price(records[i].model_id),
                ) == Some(after.log[store.log.len() + i - from])
        }),
    decreases records.len() - from,
{
    if from < records.len() {
        let record = records[from];
        let next = world.import_one(store, record)->0;
        let after = world.import_from(store, records, from)->0;
        let row = log_view(record, world.price(record.model_id))->0;
        assert(ledger_key(ledger_view(record)) == request_key(record.request_id));
        assert(!store.has_entry(ledger_view(record)));
        assert(next.log =~= store.log.push(row));
        assert forall|i: int| from + 1 <= i < records.len() implies !next.ledger.contains_key(
            request_key((#[trigger] records[i]).request_id),
        ) by {
            let none = CostTextsView {
                input: Seq::empty(),
                output: Seq::empty(),
                cache_read: Seq::empty(),
                cache_creation: Seq::empty(),
                total: Seq::empty(),
            };
            law_requests_are_told_apart(record, records[i], none, none);
            assert(ledger_key(ledger_view(records[i])) == request_key(records[i].request_id));
        }
        lemma_new_from(world, next, records, from + 1);
        assert(after.log[store.log.len() as int] == next.log[store.log.len() as int]);
        assert forall|j: int| 0 <= j < store.log.len() implies #[trigger] after.log[j]
            == store.log[j] by {
            assert(after.log[j] == next.log[j]);
        }
        assert forall|i: int| from <= i < records.len() implies log_view(
            #[trigger] records[i],
            world.price(records[i].model_id),
        ) == Some(after.log[store.log.len() + i - from]) by {
            if i > from {
                assert(next.log.len() + i - (from + 1) == store.log.len() + i - from);
            }
        }
    }
}

/// Requests that differ and are new to the ledger are all logged: the log gains
/// exactly as many rows as there are records, the row of each record in the
/// place of the record.
pub proof fn law_new_requests_are_all_logged(world: World, store: Store, records: Seq<RecordView>)
    requires
        are_distinct(records),
        are_new(store, records, 0),
        world.import_from(store, records, 0) is Some,
    ensures
        ({
            let after = world.import_from(store, records, 0)->0;
            &&& after.log.len() == store.log.len() + records.len()
            &&& forall|j: int| 0 <= j < store.log.len() ==> #[trigger] after.log[j] == store.log[j]
            &&& forall|i: int|
                0 <= i < records.len() ==> {
                    let row = after.log[store.log.len() + i];
                    &&& log_view(#[trigger] records[i], world.price(records[i].model_id)) == Some(
                        row,
                    )
                    &&& row.request_id == "cherry_studio:"@ + records[i].request_id
                }
        }),
{
    lemma_new_from(world, store, records, 0);
    let after = world.import_from(store, records, 0)->0;
    assert forall|i: int| 0 <= i < records.len() implies {
        let row = after.log[store.log.len() + i];
        &&& log_view(#[trigger] records[i], world.price(records[i].model_id)) == Some(row)
        &&& row.request_id == "cherry_studio:"@ + records[i].request_id
    } by {
        assert(log_view(records[i], world.price(records[i].model_id)) == Some(
            after.log[store.log.len() + i - 0],
        ));
    }
}

/// A successful import of requests that differ and are new to the ledger logs
/// and counts every one of them, as far as the count goes, and skips none.
pub proof fn law_new_requests_are_all_counted(
    world: World,
    file_path: Seq<char>,
    modified: i64,
    source_rowid: i64,
    records: Seq<RecordView>,
    trouble: spec_fn(nat) -> Option<Trouble>,
)
    requires
        are_distinct(records),
        are_new(world.committed, records, 0),
        world.import_records(file_path, modified, source_rowid, records, trouble)->0.result is Ok,
    ensures
        ({
            let outcome = world.import_records(
                file_path,
                modified,
                source_rowid,
                records,
                trouble,
            )->0;
            let report = outcome.result->Ok_0;
            &&& outcome.after.committed.log.len() == world.committed.log.len() + records.len()
            &&& records.len() <= u32::MAX ==> report.imported == records.len()
            &&& records.len() > u32::MAX ==> report.imported == u32::MAX
            &&& report.skipped == 0
        }),
{
    law_import_is_all_or_nothing(world, file_path, modified, source_rowid, records, trouble);
    law_new_requests_are_all_logged(world, world.committed, records);
}

/// A successful import accounts for every record: each was logged or skipped,
/// and as many log rows were gained as are reported imported, as far as the
/// counts go.
pub proof fn law_every_record_is_accounted_for(
    world: World,
    file_path: Seq<char>,
    modified: i64,
    source_rowid: i64,
    records: Seq<RecordView>,
    trouble: spec_fn(nat) -> Option<Trouble>,
)
    requires
        records.len() <= u32::MAX,
        world.import_records(file_path, modified, source_rowid, records, trouble)->0.result is Ok,
    ensures
        ({
            let outcome = world.import_records(
                file_path,
                modified,
                source_rowid,
                records,
                trouble,
            )->0;
            let report = outcome.result->Ok_0;
            &&& report.imported + report.skipped == records.len()
            &&& outcome.after.committed.log.len() == world.committed.log.len() + report.imported
        }),
{
    law_import_is_all_or_nothing(world, file_path, modified, source_rowid, records, trouble);
    lemma_import_grows(world, world.committed, records, 0);
}

/// The cursor of the studio's file.
pub open spec fn file_cursor(world: World) -> Option<SyncCursor> {
    let path = world.studio.file_path->0;
    if world.committed.cursors.contains_key(path) {
        Some(world.committed.cursors[path])
    } else {
        None
    }
}

/// The studio's file exists, and it or its write-ahead log was modified after
/// the time that the file's cursor holds.
pub open spec fn was_modified(world: World) -> bool {
    &&& world.studio.file_path is Some
    &&& is_later(world.studio.modified, file_cursor(world)) || (
    world.studio.log_modified matches Some(l) && is_later(l, file_cursor(world)))
}

/// The row has not been read before: it lies beyond the rowid that the file's
/// cursor holds, or that rowid lies beyond the table.
pub open spec fn is_unread(world: World, row: RowView) -> bool {
    &&& row.rowid > 0
    &&& file_cursor(world) matches Some(c) ==> row.rowid > c.last_line_offset
        || world.studio.rows.last().rowid < c.last_line_offset
}

/// A successful run over a modified file with a usage table moves the file's
/// cursor to the later of the two modification times and to the last row.
pub proof fn law_modified_files_are_caught_up_with(
    world: World,
    trouble: spec_fn(nat) -> Option<Trouble>,
)
    requires
        was_modified(world),
        world.studio.has_table,
        world.synchronise(trouble)->0.result is Ok,
    ensures
        ({
            let after = world.synchronise(trouble)->0.after.committed;
            let path = world.studio.file_path->0;
            let cursor = after.cursors[path];
            &&& after.cursors.contains_key(path)
            &&& cursor.last_modified >= world.studio.modified
            &&& world.studio.log_modified matches Some(l) ==> cursor.last_modified >= l
            &&& cursor.last_modified == world.studio.modified || world.studio.log_modified == Some(
                cursor.last_modified,
            )
            &&& world.studio.rows.len() > 0 ==> cursor.last_line_offset
                == world.studio.rows.last().rowid
            &&& world.studio.rows.len() == 0 ==> cursor.last_line_offset == 0
        }),
{
    law_synchronisation_is_all_or_nothing(world, trouble);
}

/// A run over a file that was not modified since changes nothing and reports
/// one scanned file, whatever rows the file has.
pub proof fn law_unmodified_files_are_left_alone(
    world: World,
    trouble: spec_fn(nat) -> Option<Trouble>,
)
    requires
        world.studio.file_path is Some,
        !was_modified(world),
    ensures
        world.synchronise(trouble)->0.after.committed == world.committed,
        world.synchronise(trouble)->0.result matches Ok(report) ==> report == (ResultView {
            imported: 0,
            skipped: 0,
            files_scanned: 1,
            errors: Seq::empty(),
        }),
        trouble == no_trouble() ==> world.synchronise(trouble)->0.result is Ok,
{
    law_synchronisation_is_all_or_nothing(world, trouble);
}

/// Every row of a modified file that has not been read before, belongs to a
/// language model and is no migrated aggregate is in the ledger after a
/// successful run, under the id of its request. If it was not there before, it
/// is in the log too.
pub proof fn law_every_unread_row_is_imported(
    world: World,
    trouble: spec_fn(nat) -> Option<Trouble>,
    at: int,
)
    requires
        world.studio.valid(),
        was_modified(world),
        world.studio.has_table,
        world.synchronise(trouble)->0.result is Ok,
        0 <= at < world.studio.rows.len(),
        is_unread(world, world.studio.rows[at]),
        world.studio.rows[at].is_language,
        world.studio.rows[at].record_kind != Some("legacy-aggregate"@),
    ensures
        ({
            let before = world.committed;
            let after = world.synchronise(trouble)->0.after.committed;
            let columns = world.studio.rows[at].columns;
            let key = request_key(columns->Ok_0.request_id);
            &&& columns is Ok
            &&& after.ledger.contains_key(key)
            &&& !before.ledger.contains_key(key) ==> exists|j: int|
                before.log.len() <= j < after.log.len() && (#[trigger] after.log[j]).data_source
                    == key.0 && after.log[j].request_id == key.1
        }),
{
    law_synchronisation_is_all_or_nothing(world, trouble);
    let rows = world.studio.rows;
    let row = rows[at];
    let (after_rowid, through_rowid) = world.window();
    assert(row.rowid <= through_rowid) by {
        if at < rows.len() - 1 {
            assert(rows[at].rowid < rows[rows.len() - 1].rowid);
        }
    }
    assert(is_due(row, after_rowid, through_rowid));
    law_every_due_row_has_its_record(rows, after_rowid, through_rowid, at);
    let record = normalized(row.columns->Ok_0);
    let records = world.found_records()->Ok_0;
    let i = choose|i: int| 0 <= i < records.len() && records[i] == record;
    let imported = world.import_from(world.committed, records, 0)->0;
    let after = world.synchronise(trouble)->0.after.committed;
    law_each_request_is_logged_once(world, world.committed, records);
    let key = request_key(row.columns->Ok_0.request_id);
    assert(ledger_key(ledger_view(records[i])) == key);
    assert(imported.has_entry(ledger_view(records[i])));
    if !world.committed.ledger.contains_key(key) {
        assert(!world.committed.has_entry(ledger_view(records[i])));
        assert(log_gains(world.committed, imported, key));
        let j = choose|j: int|
            world.committed.log.len() <= j < imported.log.len() && row_key(
                #[trigger] imported.log[j],
            ) == key;
        assert(after.log[j].data_source == key.0 && after.log[j].request_id == key.1);
    }
}

/// After a successful run over a modified file, any later modification of the
/// file is noticed: the next run reads it, and where it succeeds the cursor
/// holds the later time.
pub proof fn law_later_modifications_are_noticed(
    world: World,
    trouble: spec_fn(nat) -> Option<Trouble>,
    later: World,
    later_trouble: spec_fn(nat) -> Option<Trouble>,
)
    requires
        was_modified(world),
        world.studio.has_table,
        world.synchronise(trouble)->0.result is Ok,
        later.committed == world.synchronise(trouble)->0.after.committed,
        later.studio.file_path == world.studio.file_path,
        later.studio.has_table,
        later.studio.modified > world.studio.modified,
        world.studio.log_modified matches Some(l) ==> later.studio.modified > l,
    ensures
        was_modified(later),
        later.synchronise(later_trouble)->0.result is Ok ==> later.synchronise(
            later_trouble,
        )->0.after.committed.cursors[later.studio.file_path->0].last_modified
            >= later.studio.modified,
{
    law_modified_files_are_caught_up_with(world, trouble);
    if later.synchronise(later_trouble)->0.result is Ok {
        law_modified_files_are_caught_up_with(later, later_trouble);
    }
}

} // verus!
