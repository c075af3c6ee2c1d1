//! What holds of the import as a whole.

use crate::backfill::{backfill_entries, LoggedView};
use crate::import::{ledger_view, log_view, logged_id, ImportStage, ImportView};
use crate::protocol::{
    ActionView, ErrorView, EventView, LedgerView, LogView, ResultView, SyncCursor, APP_TYPE,
    DATA_SOURCE,
};
use crate::sync::{
    last_modified, rows_failure, saved_rowid, scanned, source_rowid, SyncView, KIND_COLUMN, LANGUAGE,
    USAGE_TABLE,
};
use crate::usage::{ascending, normalized, selected_rows, usage_records, RecordView, RowView};
use crate::world::{
    count_on, imports, ledger_key, lemma_begun_import, lemma_open_run, lemma_run_step,
    lemma_same_prices, no_trouble, Outcome, Store, Trouble, World,
};
use vstd::prelude::*;

verus! {

/// A synchronisation comes to an end, whatever goes wrong on the way. Where it
/// fails, nothing in the usage database has changed: neither rows nor the
/// cursor. Where it succeeds, all records that it found are in the ledger, each
/// that was not there before is in the log, and the cursor is saved along with
/// them; its report says so. Without trouble it fails only where a row cannot
/// be read or a cost overflows, and says which.
pub proof fn law_synchronisation_is_all_or_nothing(
    world: World,
    trouble: spec_fn(nat) -> Option<Trouble>,
)
    ensures
        ({
            let outcome = world.synchronise(trouble);
            let Outcome { after, result } = outcome->0;
            &&& outcome is Some
            &&& after.studio == world.studio
            &&& after.prices == world.prices
            &&& after.pending == after.committed
            &&& result is Err ==> after.committed == world.committed
            &&& result is Ok ==> world.synchronised() == Some(after.committed) && result->Ok_0
                == world.report()
            &&& world.synchronised() is Some && trouble == no_trouble() ==> result is Ok
            &&& world.synchronised() is None && trouble == no_trouble() ==> result == Err::<
                ResultView,
                ErrorView,
            >(world.failure())
        }),
{
    let fuel = (3 * world.studio.rows.len() + 16) as nat;
    lemma_run_step(world, SyncView::Locating, ActionView::Locate, trouble, 0, fuel);
    if world.studio.file_path is Some {
        let file_path = world.studio.file_path->0;
        let own = world.studio.modified;
        let modified = world.seen_modified();
        lemma_run_step(
            world,
            SyncView::ReadingModified { file_path },
            ActionView::ReadModified,
            trouble,
            1,
            (fuel - 1) as nat,
        );
        if trouble(1) is None {
            lemma_run_step(
                world,
                SyncView::ReadingLogModified { file_path, modified: own },
                ActionView::ReadLogModified { path: file_path + "-wal"@ },
                trouble,
                2,
                (fuel - 2) as nat,
            );
            lemma_run_step(
                world,
                SyncView::LoadingCursor { file_path, modified },
                ActionView::LoadCursor { file_path },
                trouble,
                3,
                (fuel - 3) as nat,
            );
            if trouble(3) is None && modified > last_modified(world.found_cursor()) {
                lemma_open_run(world, trouble, 4, (fuel - 4) as nat);
            }
        }
    }
}

/// An import comes to an end, whatever goes wrong on the way. Where it fails,
/// nothing in the usage database has changed. Where it succeeds, the records
/// were imported in their order and the cursor of the source was saved along
/// with them; the report counts the records that were logged as imported and
/// the others as skipped. Without trouble it fails only where a cost overflows.
pub proof fn law_import_is_all_or_nothing(
    world: World,
    file_path: Seq<char>,
    modified: i64,
    source_rowid: i64,
    records: Seq<RecordView>,
    trouble: spec_fn(nat) -> Option<Trouble>,
)
    ensures
        ({
            let outcome = world.import_records(file_path, modified, source_rowid, records, trouble);
            let Outcome { after, result } = outcome->0;
            let imported = world.import_from(world.committed, records, 0);
            let logged = imported->0.log.len() - world.committed.log.len();
            &&& outcome is Some
            &&& after.studio == world.studio
            &&& after.prices == world.prices
            &&& after.pending == after.committed
            &&& result is Err ==> after.committed == world.committed
            &&& result is Ok ==> {
                &&& imported is Some
                &&& after.committed == imported->0.save_cursor(
                    file_path,
                    SyncCursor { last_modified: modified, last_line_offset: source_rowid },
                )
                &&& result->Ok_0 == (ResultView {
                    imported: count_on(0, logged),
                    skipped: count_on(0, records.len() - logged),
                    files_scanned: 1,
                    errors: Seq::empty(),
                })
            }
            &&& imported is Some && trouble == no_trouble() ==> result is Ok
            &&& imported is None && trouble == no_trouble() ==> result == Err::<
                ResultView,
                ErrorView,
            >(ErrorView::CostOverflow)
        }),
{
    let import = ImportView::start(file_path, modified, source_rowid, records);
    let begun = World { pending: world.committed, ..world };
    lemma_begun_import(world, import, trouble, 0, (3 * records.len() + 4) as nat);
    lemma_same_prices(world, begun, world.committed, records, 0);
    reveal(imports);
}

/// A synchronisation whose reading of the rows fails, whether at preparing the
/// query, at running it or at fetching a row, ends there with an error that
/// says so, and has changed nothing.
pub proof fn law_failed_reading_ends_the_run(
    world: World,
    state: SyncView,
    action: ActionView,
    trouble: spec_fn(nat) -> Option<Trouble>,
    turn: nat,
    fuel: nat,
)
    requires
        state is ReadingRows,
        action is ReadRows,
        trouble(turn) is Some,
        fuel > 0,
    ensures
        rows_failure(trouble(turn)->0.at_rows) matches Err(ErrorView::Database(_)),
        world.run(state, action, trouble, turn, fuel) == Some(
            Outcome {
                after: World { pending: world.committed, ..world },
                result: rows_failure(trouble(turn)->0.at_rows),
            },
        ),
{
    lemma_run_step(world, state, action, trouble, turn, fuel);
}

/// The turn of a synchronisation at which the rows are read.
pub open spec fn rows_turn() -> nat {
    8
}

/// The synchronisation gets to the rows: no action before them fails. Looking
/// for the file and for its log cannot.
pub open spec fn reaches_rows(world: World, trouble: spec_fn(nat) -> Option<Trouble>) -> bool {
    &&& world.reads_rows()
    &&& forall|turn: nat|
        turn < rows_turn() && turn != 0 && turn != 2 ==> #[trigger] trouble(turn) is None
}

/// A synchronisation that gets to the rows and fails to read them, whether at
/// preparing the query, at running it or at fetching a row, ends with an error
/// that says so, and has changed nothing.
pub proof fn law_unread_rows_change_nothing(
    world: World,
    trouble: spec_fn(nat) -> Option<Trouble>,
)
    requires
        reaches_rows(world, trouble),
        trouble(rows_turn()) is Some,
    ensures
        world.synchronise(trouble) == Some(
            Outcome {
                after: World { pending: world.committed, ..world },
                result: rows_failure(trouble(rows_turn())->0.at_rows),
            },
        ),
{
    let fuel = (3 * world.studio.rows.len() + 16) as nat;
    let file_path = world.studio.file_path->0;
    let own = world.studio.modified;
    let modified = world.seen_modified();
    let saved = saved_rowid(world.found_cursor());
    let (after_rowid, through_rowid) = world.window();
    let table = USAGE_TABLE@;
    lemma_run_step(
        world,
        SyncView::Locating,
        ActionView::Locate,
        trouble,
        0,
        fuel,
    );
    assert(trouble(1) is None);
    lemma_run_step(
        world,
        SyncView::ReadingModified { file_path },
        ActionView::ReadModified,
        trouble,
        1,
        (fuel - 1) as nat,
    );
    lemma_run_step(
        world,
        SyncView::ReadingLogModified { file_path, modified: own },
        ActionView::ReadLogModified { path: file_path + "-wal"@ },
        trouble,
        2,
        (fuel - 2) as nat,
    );
    assert(trouble(3) is None);
    lemma_run_step(
        world,
        SyncView::LoadingCursor { file_path, modified },
        ActionView::LoadCursor { file_path },
        trouble,
        3,
        (fuel - 3) as nat,
    );
    assert(trouble(4) is None);
    lemma_run_step(
        world,
        SyncView::Opening { file_path, modified, saved_rowid: saved },
        ActionView::OpenStudio,
        trouble,
        4,
        (fuel - 4) as nat,
    );
    assert(trouble(5) is None);
    lemma_run_step(
        world,
        SyncView::FindingTable { file_path, modified, saved_rowid: saved },
        ActionView::FindTable { table },
        trouble,
        5,
        (fuel - 5) as nat,
    );
    assert(trouble(6) is None);
    lemma_run_step(
        world,
        SyncView::ReadingMaxRowid { file_path, modified, saved_rowid: saved },
        ActionView::ReadMaxRowid { table },
        trouble,
        6,
        (fuel - 6) as nat,
    );
    assert(trouble(7) is None);
    lemma_run_step(
        world,
        SyncView::FindingColumn { file_path, modified, after_rowid, through_rowid },
        ActionView::FindColumn { table, column: KIND_COLUMN@ },
        trouble,
        7,
        (fuel - 7) as nat,
    );
    law_failed_reading_ends_the_run(
        world,
        SyncView::ReadingRows { file_path, modified, after_rowid, through_rowid },
        ActionView::ReadRows {
            table,
            after_rowid,
            through_rowid,
            modality: LANGUAGE@,
            with_record_kind: world.studio.has_record_kind,
        },
        trouble,
        8,
        (fuel - 8) as nat,
    );
}

/// Where there is no database, a synchronisation reports nothing, not even a
/// scanned file, and changes nothing.
pub proof fn law_missing_database_changes_nothing(
    world: World,
    trouble: spec_fn(nat) -> Option<Trouble>,
)
    requires
        world.studio.file_path is None,
    ensures
        world.synchronise(trouble) == Some(
            Outcome {
                after: World { pending: world.committed, ..world },
                result: Ok(
                    ResultView {
                        imported: 0,
                        skipped: 0,
                        files_scanned: 0,
                        errors: Seq::empty(),
                    },
                ),
            },
        ),
{
    law_synchronisation_is_all_or_nothing(world, trouble);
    let fuel = (3 * world.studio.rows.len() + 16) as nat;
    lemma_run_step(world, SyncView::Locating, ActionView::Locate, trouble, 0, fuel);
}

/// A database that was not modified since it was last imported is scanned and
/// not read: a successful run reports one scanned file and nothing else, and
/// no run changes anything.
pub proof fn law_unmodified_database_is_not_read(
    world: World,
    trouble: spec_fn(nat) -> Option<Trouble>,
)
    requires
        world.studio.file_path is Some,
        world.seen_modified() <= last_modified(world.found_cursor()),
    ensures
        world.synchronise(trouble) is Some,
        world.synchronise(trouble)->0.after.committed == world.committed,
        world.synchronise(trouble)->0.result matches Ok(report) ==> report == scanned(Seq::empty()),
        trouble == no_trouble() ==> world.synchronise(trouble)->0.result is Ok,
{
    law_synchronisation_is_all_or_nothing(world, trouble);
}

/// A synchronisation that follows a successful one, with nothing written to
/// the studio's database in between, imports nothing and changes nothing. It
/// reports the errors that the first one reported, and no others.
pub proof fn law_second_synchronisation_changes_nothing(
    world: World,
    trouble: spec_fn(nat) -> Option<Trouble>,
    trouble_again: spec_fn(nat) -> Option<Trouble>,
)
    requires
        world.synchronise(trouble)->0.result is Ok,
    ensures
        ({
            let first = world.synchronise(trouble)->0.after;
            let Outcome { after: second, result } = first.synchronise(trouble_again)->0;
            &&& first.synchronise(trouble_again) is Some
            &&& second.committed == first.committed
            &&& result matches Ok(report) ==> {
                &&& report.imported == 0
                &&& report.skipped == 0
                &&& report.errors == world.synchronise(trouble)->0.result->Ok_0.errors
            }
        }),
{
    law_synchronisation_is_all_or_nothing(world, trouble);
    let first = world.synchronise(trouble)->0.after;
    law_synchronisation_is_all_or_nothing(first, trouble_again);
}

/// The ledger key of a logged row.
pub open spec fn row_key(row: LogView) -> (Seq<char>, Seq<char>) {
    (row.data_source, row.request_id)
}

/// Every ledger entry, log row and cursor of `store` is in `after`.
pub open spec fn keeps(store: Store, after: Store) -> bool {
    &&& store.ledger.submap_of(after.ledger)
    &&& store.log.len() <= after.log.len()
    &&& forall|j: int| 0 <= j < store.log.len() ==> #[trigger] after.log[j] == store.log[j]
    &&& after.cursors == store.cursors
}

/// The ledger has the records from position `from` on.
pub open spec fn ledger_has(records: Seq<RecordView>, from: int, after: Store) -> bool {
    forall|i: int|
        from <= i < records.len() ==> after.has_entry(ledger_view(#[trigger] records[i]))
}

/// The key is that of a record from position `from` on.
pub open spec fn is_key_of_record(
    records: Seq<RecordView>,
    from: int,
    key: (Seq<char>, Seq<char>),
) -> bool {
    exists|i: int|
        from <= i < records.len() && key == ledger_key(ledger_view(#[trigger] records[i]))
}

/// The entry that is made for a key: it names the request twice, and has an
/// entry id.
pub open spec fn entry_for(key: (Seq<char>, Seq<char>)) -> LedgerView {
    LedgerView {
        data_source: key.0,
        request_id: key.1,
        semantic_id: key.1,
        has_entry_id: true,
    }
}

/// What the ledger has gained are the entries made for records.
pub open spec fn ledger_gains_only(
    store: Store,
    records: Seq<RecordView>,
    from: int,
    after: Store,
) -> bool {
    forall|key: (Seq<char>, Seq<char>)| #[trigger]
        after.ledger.contains_key(key) && !store.ledger.contains_key(key) ==> is_key_of_record(
            records,
            from,
            key,
        ) && after.ledger[key] == entry_for(key)
}

/// The row is the log row of a record from position `from` on.
pub open spec fn is_row_of_record(
    world: World,
    records: Seq<RecordView>,
    from: int,
    row: LogView,
) -> bool {
    exists|i: int|
        from <= i < records.len() && log_view(
            #[trigger] records[i],
            world.price(records[i].model_id),
        ) == Some(row)
}

/// What the log has gained are rows of the records that were not in the ledger
/// before and are in it afterwards.
pub open spec fn log_gains_only(
    world: World,
    store: Store,
    records: Seq<RecordView>,
    from: int,
    after: Store,
) -> bool {
    forall|j: int|
        store.log.len() <= j < after.log.len() ==> {
            &&& !store.ledger.contains_key(row_key(#[trigger] after.log[j]))
            &&& after.ledger.contains_key(row_key(after.log[j]))
            &&& is_row_of_record(world, records, from, after.log[j])
        }
}

/// No two rows that the log has gained are of the same request.
pub open spec fn log_gains_once(store: Store, after: Store) -> bool {
    forall|j: int, k: int|
        store.log.len() <= j < k < after.log.len() ==> row_key(#[trigger] after.log[j]) != row_key(
            #[trigger] after.log[k],
        )
}

/// The log has gained a row with this key.
pub open spec fn log_gains(store: Store, after: Store, key: (Seq<char>, Seq<char>)) -> bool {
    exists|j: int|
        store.log.len() <= j < after.log.len() && row_key(#[trigger] after.log[j]) == key
}

/// The log has gained a row for every record that the ledger did not have.
pub open spec fn log_gains_all(
    store: Store,
    records: Seq<RecordView>,
    from: int,
    after: Store,
) -> bool {
    forall|i: int|
        from <= i < records.len() && !store.has_entry(ledger_view(#[trigger] records[i]))
            ==> log_gains(store, after, ledger_key(ledger_view(records[i])))
}

/// What importing the records from position `from` on makes of a store.
pub open spec fn logs_once(
    world: World,
    store: Store,
    records: Seq<RecordView>,
    from: int,
    after: Store,
) -> bool {
    &&& keeps(store, after)
    &&& ledger_has(records, from, after)
    &&& ledger_gains_only(store, records, from, after)
    &&& log_gains_only(world, store, records, from, after)
    &&& log_gains_once(store, after)
    &&& log_gains_all(store, records, from, after)
}

proof fn lemma_skipped_logs_once(
    world: World,
    store: Store,
    records: Seq<RecordView>,
    from: int,
    after: Store,
)
    requires
        0 <= from < records.len(),
        store.has_entry(ledger_view(records[from])),
        logs_once(world, store, records, from + 1, after),
    ensures
        logs_once(world, store, records, from, after),
{
    assert forall|key: (Seq<char>, Seq<char>)| #[trigger]
        after.ledger.contains_key(key) && !store.ledger.contains_key(
            key,
        ) implies is_key_of_record(records, from, key) && after.ledger[key] == entry_for(key) by {
        assert(is_key_of_record(records, from + 1, key));
        let i = choose|i: int|
            from + 1 <= i < records.len() && key == ledger_key(ledger_view(#[trigger] records[i]));
        assert(from <= i < records.len() && key == ledger_key(ledger_view(records[i])));
    }
    assert forall|j: int| store.log.len() <= j < after.log.len() implies is_row_of_record(
        world,
        records,
        from,
        #[trigger] after.log[j],
    ) by {
        lemma_earlier_row(world, records, from, after.log[j]);
    }
}

proof fn lemma_earlier_row(world: World, records: Seq<RecordView>, from: int, row: LogView)
    requires
        is_row_of_record(world, records, from + 1, row),
    ensures
        is_row_of_record(world, records, from, row),
{
    let i = choose|i: int|
        from + 1 <= i < records.len() && log_view(
            #[trigger] records[i],
            world.price(records[i].model_id),
        ) == Some(row);
    assert(from <= i < records.len() && log_view(records[i], world.price(records[i].model_id))
        == Some(row));
}

proof fn lemma_logged_logs_once(
    world: World,
    store: Store,
    next: Store,
    records: Seq<RecordView>,
    from: int,
    after: Store,
)
    requires
        0 <= from < records.len(),
        !store.has_entry(ledger_view(records[from])),
        world.import_one(store, records[from]) == Some(next),
        logs_once(world, next, records, from + 1, after),
    ensures
        logs_once(world, store, records, from, after),
{
    let record = records[from];
    let key = ledger_key(ledger_view(record));
    let row = log_view(record, world.price(record.model_id))->0;
    let at = store.log.len() as int;
    assert(next.log =~= store.log.push(row));
    assert(next.ledger =~= store.ledger.insert(key, ledger_view(record)));
    assert(row_key(row) == key);
    assert(after.log[at] == next.log[at]);
    assert(keeps(store, after)) by {
        assert forall|j: int| 0 <= j < store.log.len() implies #[trigger] after.log[j]
            == store.log[j] by {
            assert(next.log[j] == store.log[j]);
        }
        assert forall|k: (Seq<char>, Seq<char>)| #[trigger]
            store.ledger.contains_key(k) implies after.ledger.contains_key(k)
            && after.ledger[k] == store.ledger[k] by {
            assert(next.ledger.contains_key(k));
        }
    }
    assert(after.ledger.contains_key(key)) by {
        assert(next.ledger.contains_key(key));
    }
    assert(ledger_has(records, from, after));
    assert forall|k: (Seq<char>, Seq<char>)| #[trigger]
        after.ledger.contains_key(k) && !store.ledger.contains_key(k) implies is_key_of_record(
        records,
        from,
        k,
    ) && after.ledger[k] == entry_for(k) by {
        if next.ledger.contains_key(k) {
            assert(k == ledger_key(ledger_view(records[from])));
            assert(after.ledger[k] == next.ledger[k]);
        } else {
            assert(is_key_of_record(records, from + 1, k));
            let i = choose|i: int|
                from + 1 <= i < records.len() && k == ledger_key(
                    ledger_view(#[trigger] records[i]),
                );
            assert(from <= i < records.len() && k == ledger_key(ledger_view(records[i])));
        }
    }
    assert forall|j: int| at <= j < after.log.len() implies {
        &&& !store.ledger.contains_key(row_key(#[trigger] after.log[j]))
        &&& after.ledger.contains_key(row_key(after.log[j]))
        &&& is_row_of_record(world, records, from, after.log[j])
    } by {
        if j == at {
            assert(log_view(records[from], world.price(records[from].model_id)) == Some(
                after.log[j],
            ));
        } else {
            assert(!next.ledger.contains_key(row_key(after.log[j])));
            lemma_earlier_row(world, records, from, after.log[j]);
        }
    }
    assert forall|j: int, k: int| at <= j < k < after.log.len() implies row_key(
        #[trigger] after.log[j],
    ) != row_key(#[trigger] after.log[k]) by {
        assert(!next.ledger.contains_key(row_key(after.log[k])));
    }
    assert forall|i: int|
        from <= i < records.len() && !store.has_entry(
            ledger_view(#[trigger] records[i]),
        ) implies log_gains(store, after, ledger_key(ledger_view(records[i]))) by {
        let k = ledger_key(ledger_view(records[i]));
        if k == key {
            assert(row_key(after.log[at]) == k);
        } else {
            assert(!next.has_entry(ledger_view(records[i])));
            assert(log_gains(next, after, k));
            let j = choose|j: int|
                next.log.len() <= j < after.log.len() && row_key(#[trigger] after.log[j]) == k;
            assert(store.log.len() <= j < after.log.len() && row_key(after.log[j]) == k);
        }
    }
}

proof fn lemma_logs_once(world: World, store: Store, records: Seq<RecordView>, from: int)
    requires
        0 <= from <= records.len(),
        world.import_from(store, records, from) is Some,
    ensures
        logs_once(world, store, records, from, world.import_from(store, records, from)->0),
    decreases records.len() - from,
{
    if from < records.len() {
        let next = world.import_one(store, records[from])->0;
        let after = world.import_from(store, records, from)->0;
        lemma_logs_once(world, next, records, from + 1);
        if store.has_entry(ledger_view(records[from])) {
            lemma_skipped_logs_once(world, store, records, from, after);
        } else {
            lemma_logged_logs_once(world, store, next, records, from, after);
        }
    }
}

/// Importing keeps every earlier ledger entry, log row and cursor. Afterwards
/// the ledger has all the records and no other new entries; every record that
/// it did not have before is in the log, exactly once, and nothing else was
/// logged.
pub proof fn law_each_request_is_logged_once(
    world: World,
    store: Store,
    records: Seq<RecordView>,
)
    requires
        world.import_from(store, records, 0) is Some,
    ensures
        logs_once(world, store, records, 0, world.import_from(store, records, 0)->0),
{
    lemma_logs_once(world, store, records, 0);
}

/// Records that the ledger has are skipped, whatever has become of their log
/// rows and prices.
pub proof fn law_known_requests_are_skipped(
    world: World,
    store: Store,
    records: Seq<RecordView>,
)
    requires
        ledger_has(records, 0, store),
    ensures
        world.import_from(store, records, 0) == Some(store),
{
    lemma_known_from(world, store, records, 0);
}

proof fn lemma_known_from(world: World, store: Store, records: Seq<RecordView>, from: int)
    requires
        0 <= from <= records.len(),
        ledger_has(records, 0, store),
    ensures
        world.import_from(store, records, from) == Some(store),
    decreases records.len() - from,
{
    if from < records.len() {
        assert(store.has_entry(ledger_view(records[from])));
        lemma_known_from(world, store, records, from + 1);
    }
}

/// What was imported once is never logged again, as long as the ledger keeps
/// its entries: not after log rows were pruned, and not at other prices.
pub proof fn law_imported_records_are_not_logged_again(
    world: World,
    store: Store,
    records: Seq<RecordView>,
    later: World,
    pruned: Store,
)
    requires
        world.import_from(store, records, 0) is Some,
        world.import_from(store, records, 0)->0.ledger.submap_of(pruned.ledger),
    ensures
        later.import_from(pruned, records, 0) == Some(pruned),
{
    law_each_request_is_logged_once(world, store, records);
    let after = world.import_from(store, records, 0)->0;
    assert forall|i: int| 0 <= i < records.len() implies pruned.has_entry(
        ledger_view(#[trigger] records[i]),
    ) by {
        assert(after.has_entry(ledger_view(records[i])));
    }
    law_known_requests_are_skipped(later, pruned, records);
}

/// A successful synchronisation keeps all that was in the usage database but
/// the cursor of its file. What it adds to the log are rows of Cherry Studio,
/// and what it adds to the ledger are entries of the records that it found.
pub proof fn law_synchronisation_keeps_everything_else(
    world: World,
    trouble: spec_fn(nat) -> Option<Trouble>,
)
    requires
        world.synchronise(trouble)->0.result is Ok,
        world.reads_rows(),
    ensures
        ({
            let before = world.committed;
            let after = world.synchronise(trouble)->0.after.committed;
            let records = world.found_records()->Ok_0;
            &&& world.found_records() is Ok
            &&& before.ledger.submap_of(after.ledger)
            &&& ledger_gains_only(before, records, 0, after)
            &&& before.log.len() <= after.log.len()
            &&& forall|j: int|
                0 <= j < before.log.len() ==> #[trigger] after.log[j] == before.log[j]
            &&& forall|j: int|
                before.log.len() <= j < after.log.len() ==> (#[trigger] after.log[j]).app_type
                    == APP_TYPE@ && after.log[j].data_source == DATA_SOURCE@ && is_row_of_record(
                    world,
                    records,
                    0,
                    after.log[j],
                )
            &&& forall|file_path: Seq<char>|
                file_path != world.studio.file_path->0 ==> #[trigger] after.cursor(file_path)
                    == before.cursor(file_path)
        }),
{
    law_synchronisation_is_all_or_nothing(world, trouble);
    let records = world.found_records()->Ok_0;
    law_each_request_is_logged_once(world, world.committed, records);
    let after = world.synchronise(trouble)->0.after.committed;
    let imported = world.import_from(world.committed, records, 0)->0;
    assert(after.ledger == imported.ledger && after.log == imported.log);
    assert forall|j: int| world.committed.log.len() <= j < after.log.len() implies (
    #[trigger] after.log[j]).app_type == APP_TYPE@ && after.log[j].data_source == DATA_SOURCE@
        && is_row_of_record(world, records, 0, after.log[j]) by {
        assert(is_row_of_record(world, records, 0, imported.log[j]));
    }
    assert forall|file_path: Seq<char>|
        file_path != world.studio.file_path->0 implies #[trigger] after.cursor(file_path)
        == world.committed.cursor(file_path) by {
        assert(imported.cursors == world.committed.cursors);
    }
}

/// A synchronisation that finds no records enters nothing in the ledger and
/// logs nothing: rows that are in the log without a ledger entry stay without
/// one.
pub proof fn law_nothing_found_enters_nothing(
    world: World,
    trouble: spec_fn(nat) -> Option<Trouble>,
)
    requires
        world.reads_rows(),
        world.found_records() == Ok::<Seq<RecordView>, Seq<char>>(Seq::empty()),
    ensures
        world.synchronise(trouble) is Some,
        world.synchronise(trouble)->0.after.committed.ledger == world.committed.ledger,
        world.synchronise(trouble)->0.after.committed.log == world.committed.log,
{
    law_synchronisation_is_all_or_nothing(world, trouble);
}

/// Reading a table again from the start, after it was replaced or its cursor
/// was lost, logs nothing for records that the ledger has: they are counted as
/// skipped.
pub proof fn law_known_table_is_only_skipped(
    world: World,
    trouble: spec_fn(nat) -> Option<Trouble>,
)
    requires
        world.reads_rows(),
        world.found_records() is Ok,
        ledger_has(world.found_records()->Ok_0, 0, world.committed),
    ensures
        ({
            let Outcome { after, result } = world.synchronise(trouble)->0;
            &&& world.synchronise(trouble) is Some
            &&& after.committed.ledger == world.committed.ledger
            &&& after.committed.log == world.committed.log
            &&& trouble == no_trouble() ==> result is Ok
            &&& result matches Ok(report) ==> report.imported == 0 && report.skipped == count_on(
                0,
                world.found_records()->Ok_0.len() as int,
            )
        }),
{
    law_synchronisation_is_all_or_nothing(world, trouble);
    law_known_requests_are_skipped(world, world.committed, world.found_records()->Ok_0);
}

/// The records are those of the rows that were selected, one for one and in
/// their order. So each stands for a row within the window of rowids that
/// belongs to a language model and is no migrated aggregate, and none of these
/// rows is left out.
pub proof fn law_exactly_selected_rows_are_imported(
    rows: Seq<RowView>,
    after_rowid: i64,
    through_rowid: i64,
)
    ensures
        usage_records(rows, after_rowid, through_rowid) matches Ok(records) ==> {
            let chosen = selected_rows(rows, after_rowid, through_rowid);
            &&& records.len() == chosen.len()
            &&& forall|i: int|
                0 <= i < records.len() ==> {
                    &&& rows.contains(#[trigger] chosen[i])
                    &&& after_rowid < chosen[i].rowid <= through_rowid
                    &&& chosen[i].is_language
                    &&& chosen[i].record_kind != Some("legacy-aggregate"@)
                    &&& chosen[i].columns is Ok
                    &&& records[i] == normalized(chosen[i].columns->Ok_0)
                }
            &&& forall|k: int|
                0 <= k < rows.len() && after_rowid < (#[trigger] rows[k]).rowid <= through_rowid
                    && rows[k].is_language && rows[k].record_kind != Some("legacy-aggregate"@)
                    ==> chosen.contains(rows[k])
        },
        ascending(rows) ==> ascending(selected_rows(rows, after_rowid, through_rowid)),
{
    let wanted = |r: RowView| r.selected(after_rowid, through_rowid);
    let failed = |r: RowView| r.columns is Err;
    let chosen = selected_rows(rows, after_rowid, through_rowid);
    broadcast use Seq::lemma_filter_pred, Seq::lemma_filter_contains;

    if usage_records(rows, after_rowid, through_rowid) is Ok {
        assert forall|i: int| 0 <= i < chosen.len() implies rows.contains(#[trigger] chosen[i])
            && chosen[i].columns is Ok && chosen[i].selected(after_rowid, through_rowid) by {
            assert(wanted(rows.filter(wanted)[i]));
            lemma_filtered_is_contained(rows, wanted, i);
            if failed(chosen[i]) {
                assert(chosen.filter(failed).contains(chosen[i]));
            }
        }
        assert forall|k: int|
            0 <= k < rows.len() && after_rowid < (#[trigger] rows[k]).rowid <= through_rowid
                && rows[k].is_language && rows[k].record_kind != Some(
                "legacy-aggregate"@,
            ) implies chosen.contains(rows[k]) by {
            assert(wanted(rows[k]));
        }
    }
    if ascending(rows) {
        lemma_filter_ascends(rows, wanted);
    }
}

proof fn lemma_filtered_is_contained<A>(s: Seq<A>, p: spec_fn(A) -> bool, i: int)
    requires
        0 <= i < s.filter(p).len(),
    ensures
        s.contains(s.filter(p)[i]),
    decreases s.len(),
{
    reveal(Seq::filter);
    if s.len() > 0 {
        let rest = s.drop_last();
        if i < rest.filter(p).len() {
            lemma_filtered_is_contained(rest, p, i);
            let k = choose|k: int| 0 <= k < rest.len() && rest[k] == rest.filter(p)[i];
            assert(s[k] == s.filter(p)[i]);
        } else {
            assert(s[s.len() - 1] == s.filter(p)[i]);
        }
    }
}

proof fn lemma_filter_ascends(rows: Seq<RowView>, p: spec_fn(RowView) -> bool)
    requires
        ascending(rows),
    ensures
        ascending(rows.filter(p)),
    decreases rows.len(),
{
    reveal(Seq::filter);
    if rows.len() > 0 {
        let rest = rows.drop_last();
        lemma_filter_ascends(rest, p);
        let out = rows.filter(p);
        assert forall|i: int, j: int| 0 <= i < j < out.len() implies out[i].rowid
            < out[j].rowid by {
            if j == rest.filter(p).len() {
                lemma_filtered_is_contained(rest, p, i);
                let k = choose|k: int| 0 <= k < rest.len() && rest[k] == rest.filter(p)[i];
                assert(rows[k].rowid < rows[rows.len() - 1].rowid);
            }
        }
    }
}

/// A successful import saves the modification time that it saw and the rowid
/// of the last row of the table, which no row lies beyond.
pub proof fn law_cursor_follows_the_table(world: World, trouble: spec_fn(nat) -> Option<Trouble>)
    requires
        world.studio.valid(),
        world.reads_rows(),
        world.synchronise(trouble)->0.result is Ok,
    ensures
        world.synchronise(trouble)->0.after.found_cursor() == Some(
            SyncCursor {
                last_modified: world.seen_modified(),
                last_line_offset: source_rowid(world.studio.max_rowid()),
            },
        ),
        forall|i: int|
            0 <= i < world.studio.rows.len() ==> (#[trigger] world.studio.rows[i]).rowid
                <= source_rowid(world.studio.max_rowid()),
{
    law_synchronisation_is_all_or_nothing(world, trouble);
}

/// A synchronisation reads only rows that were added since the last one, as
/// long as the table has not become shorter.
pub proof fn law_next_synchronisation_reads_only_new_rows(
    world: World,
    trouble: spec_fn(nat) -> Option<Trouble>,
    later: World,
)
    requires
        world.studio.valid(),
        world.reads_rows(),
        world.synchronise(trouble)->0.result is Ok,
        later.committed == world.synchronise(trouble)->0.after.committed,
        later.studio.file_path == world.studio.file_path,
        0 <= source_rowid(world.studio.max_rowid()) <= source_rowid(later.studio.max_rowid()),
    ensures
        later.window().0 == source_rowid(world.studio.max_rowid()),
        forall|i: int, r: RowView|
            0 <= i < world.studio.rows.len() && #[trigger] r.selected(
                later.window().0,
                later.window().1,
            ) ==> (#[trigger] world.studio.rows[i]).rowid < r.rowid,
{
    law_synchronisation_is_all_or_nothing(world, trouble);
    law_cursor_follows_the_table(world, trouble);
}

/// A table that ends before the saved position is read from the start.
pub proof fn law_replaced_table_is_read_from_the_start(world: World)
    requires
        source_rowid(world.studio.max_rowid()) < saved_rowid(world.found_cursor()),
    ensures
        world.window().0 == 0,
        world.window().1 == source_rowid(world.studio.max_rowid()),
{
}

proof fn lemma_enter_all(store: Store, entries: Seq<LedgerView>)
    ensures
        ({
            let after = store.enter_all(entries);
            &&& after.log == store.log
            &&& after.cursors == store.cursors
            &&& store.ledger.submap_of(after.ledger)
            &&& forall|i: int|
                0 <= i < entries.len() ==> after.has_entry(#[trigger] entries[i])
            &&& forall|key: (Seq<char>, Seq<char>)| #[trigger]
                after.ledger.contains_key(key) && !store.ledger.contains_key(key)
                    ==> exists|i: int|
                    0 <= i < entries.len() && key == ledger_key(#[trigger] entries[i])
                        && after.ledger[key] == entries[i]
        }),
    decreases entries.len(),
{
    if entries.len() > 0 {
        let rest = entries.drop_last();
        let before = store.enter_all(rest);
        let after = store.enter_all(entries);
        lemma_enter_all(store, rest);
        assert forall|i: int| 0 <= i < entries.len() implies after.has_entry(
            #[trigger] entries[i],
        ) by {
            if i < rest.len() {
                assert(before.has_entry(rest[i]));
            }
        }
        assert forall|key: (Seq<char>, Seq<char>)| #[trigger]
            after.ledger.contains_key(key) && !store.ledger.contains_key(key) implies exists|
            i: int,
        |
            0 <= i < entries.len() && key == ledger_key(#[trigger] entries[i])
                && after.ledger[key] == entries[i] by {
            if before.ledger.contains_key(key) {
                let i = choose|i: int|
                    0 <= i < rest.len() && key == ledger_key(#[trigger] rest[i])
                        && before.ledger[key] == rest[i];
                assert(key == ledger_key(entries[i]) && after.ledger[key] == entries[i]);
            } else {
                assert(key == ledger_key(entries[entries.len() - 1]));
            }
        }
    }
}

proof fn lemma_enter_all_again(store: Store, entries: Seq<LedgerView>)
    requires
        forall|i: int| 0 <= i < entries.len() ==> store.has_entry(#[trigger] entries[i]),
    ensures
        store.enter_all(entries) == store,
    decreases entries.len(),
{
    if entries.len() > 0 {
        let rest = entries.drop_last();
        assert forall|i: int| 0 <= i < rest.len() implies store.has_entry(#[trigger] rest[i]) by {
            assert(store.has_entry(entries[i]));
        }
        lemma_enter_all_again(store, rest);
        assert(store.has_entry(entries[entries.len() - 1]));
    }
}

/// Backfilling the ledger a second time changes nothing.
pub proof fn law_backfill_is_idempotent(store: Store, rows: Seq<LoggedView>)
    ensures
        store.enter_all(backfill_entries(rows)).enter_all(backfill_entries(rows))
            == store.enter_all(backfill_entries(rows)),
{
    lemma_enter_all(store, backfill_entries(rows));
    lemma_enter_all_again(store.enter_all(backfill_entries(rows)), backfill_entries(rows));
}

/// The key is that of a log row that was imported from Cherry Studio.
pub open spec fn is_key_of_logged(rows: Seq<LoggedView>, key: (Seq<char>, Seq<char>)) -> bool {
    exists|i: int|
        0 <= i < rows.len() && (#[trigger] rows[i]).is_imported() && key == (
            DATA_SOURCE@,
            rows[i].request_id->0,
        )
}

/// After a backfill the ledger has every log row that was imported from Cherry
/// Studio. It has kept its entries and gained none but those made for such
/// rows; the log and the cursors are unchanged.
pub proof fn law_backfill_enters_exactly_imported_rows(store: Store, rows: Seq<LoggedView>)
    ensures
        ({
            let after = store.enter_all(backfill_entries(rows));
            &&& after.log == store.log
            &&& after.cursors == store.cursors
            &&& store.ledger.submap_of(after.ledger)
            &&& forall|i: int|
                0 <= i < rows.len() && (#[trigger] rows[i]).is_imported()
                    ==> after.ledger.contains_key((DATA_SOURCE@, rows[i].request_id->0))
            &&& forall|key: (Seq<char>, Seq<char>)| #[trigger]
                after.ledger.contains_key(key) && !store.ledger.contains_key(key)
                    ==> is_key_of_logged(rows, key) && after.ledger[key] == entry_for(key)
        }),
{
    let entries = backfill_entries(rows);
    let wanted = |r: LoggedView| r.is_imported();
    let kept = rows.filter(wanted);
    let after = store.enter_all(entries);
    lemma_enter_all(store, entries);
    broadcast use Seq::lemma_filter_pred, Seq::lemma_filter_contains;

    assert forall|i: int|
        0 <= i < rows.len() && (#[trigger] rows[i]).is_imported() implies after.ledger.contains_key(
        (DATA_SOURCE@, rows[i].request_id->0),
    ) by {
        assert(wanted(rows[i]));
        assert(kept.contains(rows[i]));
        let k = choose|k: int| 0 <= k < kept.len() && kept[k] == rows[i];
        assert(entries[k] == rows[i].ledger_entry());
        assert(after.has_entry(entries[k]));
    }
    assert forall|key: (Seq<char>, Seq<char>)| #[trigger]
        after.ledger.contains_key(key) && !store.ledger.contains_key(key) implies is_key_of_logged(
        rows,
        key,
    ) && after.ledger[key] == entry_for(key) by {
        let k = choose|k: int|
            0 <= k < entries.len() && key == ledger_key(#[trigger] entries[k])
                && after.ledger[key] == entries[k];
        assert(wanted(kept[k]));
        lemma_filtered_is_contained(rows, wanted, k);
        let i = choose|i: int| 0 <= i < rows.len() && rows[i] == kept[k];
        assert(rows[i].is_imported() && key == (DATA_SOURCE@, rows[i].request_id->0));
    }
}

/// A request that is in the log from an earlier import is not logged again
/// once the ledger was backfilled.
pub proof fn law_backfilled_requests_are_not_imported(
    world: World,
    store: Store,
    rows: Seq<LoggedView>,
    at: int,
    record: RecordView,
)
    requires
        0 <= at < rows.len(),
        rows[at].is_imported(),
        rows[at].request_id == Some(logged_id(record)),
    ensures
        world.import_one(store.enter_all(backfill_entries(rows)), record) == Some(
            store.enter_all(backfill_entries(rows)),
        ),
{
    law_backfill_enters_exactly_imported_rows(store, rows);
}

/// The action is the one that the import waits for.
pub open spec fn import_awaits(import: ImportView, action: ActionView) -> bool {
    match import.stage {
        ImportStage::Beginning => action is BeginImport,
        ImportStage::EnteringLedger => action is InsertLedger,
        ImportStage::FindingPricing => {
            let model_id = import.records[import.next].model_id;
            action == (ActionView::FindPricing { model_id }) && !import.priced.contains_key(
                model_id,
            )
        },
        ImportStage::Logging => action is InsertLog,
        ImportStage::SavingCursor => action is SaveCursor,
        ImportStage::Committing => action is Commit,
    }
}

/// The action is the one that the synchronisation waits for.
pub open spec fn awaits(state: SyncView, action: ActionView) -> bool {
    match state {
        SyncView::Locating => action is Locate,
        SyncView::ReadingModified { .. } => action is ReadModified,
        SyncView::ReadingLogModified { .. } => action is ReadLogModified,
        SyncView::LoadingCursor { .. } => action is LoadCursor,
        SyncView::Opening { .. } => action is OpenStudio,
        SyncView::FindingTable { .. } => action is FindTable,
        SyncView::ReadingMaxRowid { .. } => action is ReadMaxRowid,
        SyncView::FindingColumn { .. } => action is FindColumn,
        SyncView::ReadingRows { .. } => action is ReadRows,
        SyncView::Importing(import) => import_awaits(import, action),
        SyncView::Finished => action is Finish,
    }
}

/// The event is one that can come of the action.
pub open spec fn answers(action: ActionView, event: EventView) -> bool {
    match action {
        ActionView::Locate => event is Missing || event is Found,
        ActionView::ReadModified => event is Modified || event is Failed,
        ActionView::ReadLogModified { .. } => event is LogModified,
        ActionView::LoadCursor { .. } => event is Cursor || event is Failed,
        ActionView::FindTable { .. } | ActionView::FindColumn { .. } => event is Answer
            || event is Failed,
        ActionView::ReadMaxRowid { .. } => event is MaxRowid || event is Failed,
        ActionView::ReadRows { .. } => event is Rows || event is RowsFailed,
        ActionView::InsertLedger(_) => event is Inserted || event is Failed,
        ActionView::FindPricing { .. } => event is Pricing,
        ActionView::OpenStudio
        | ActionView::BeginImport
        | ActionView::InsertLog(_)
        | ActionView::SaveCursor { .. }
        | ActionView::Commit => event is Done || event is Failed,
        ActionView::Finish(_) => false,
    }
}

/// A synchronisation takes the events that can come of the action that it waits
/// for, and no others.
pub proof fn law_only_answers_are_accepted(state: SyncView, action: ActionView, event: EventView)
    requires
        awaits(state, action),
    ensures
        state.accepts(event) <==> answers(action, event),
{
}

/// Every answer to the action that a synchronisation waits for is one that it
/// takes, and what follows again waits for its action.
pub proof fn law_every_answer_is_accepted(
    world: World,
    state: SyncView,
    action: ActionView,
    trouble: Option<Trouble>,
)
    requires
        state.well_formed(),
        awaits(state, action),
        !(state is Finished),
    ensures
        ({
            let event = world.respond(action, trouble).1;
            let (next, following) = state.step(event);
            &&& state.accepts(event)
            &&& next.well_formed()
            &&& awaits(next, following)
        }),
{
}

proof fn lemma_lookups(
    world: World,
    state: SyncView,
    action: ActionView,
    trouble: spec_fn(nat) -> Option<Trouble>,
    turn: nat,
    fuel: nat,
    model_id: Seq<char>,
)
    requires
        state.well_formed(),
        awaits(state, action),
    ensures
        world.lookups(state, action, trouble, turn, fuel, model_id) <= 1,
        state matches SyncView::Importing(import) ==> (import.priced.contains_key(model_id)
            ==> world.lookups(state, action, trouble, turn, fuel, model_id) == 0),
        state is Finished ==> world.lookups(state, action, trouble, turn, fuel, model_id) == 0,
    decreases fuel,
{
    if !(action is Finish) && fuel > 0 {
        let (after, event) = world.respond(action, trouble(turn));
        let (next, following) = state.step(event);
        law_every_answer_is_accepted(world, state, action, trouble(turn));
        lemma_lookups(after, next, following, trouble, turn + 1, (fuel - 1) as nat, model_id);
    }
}

/// A synchronisation looks up the prices of a model once at most, however many
/// records the model has.
pub proof fn law_prices_are_found_once(
    world: World,
    trouble: spec_fn(nat) -> Option<Trouble>,
    fuel: nat,
    model_id: Seq<char>,
)
    ensures
        world.lookups(SyncView::Locating, ActionView::Locate, trouble, 0, fuel, model_id) <= 1,
{
    lemma_lookups(
        world,
        SyncView::Locating,
        ActionView::Locate,
        trouble,
        0,
        fuel,
        model_id,
    );
}

} // verus!
