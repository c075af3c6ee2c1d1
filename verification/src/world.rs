//! A model of what surrounds a synchronisation: the studio's database, the
//! prices, and a usage database with transactions, which answer the actions
//! one by one and may fail at any of them.
//!
//! The model exists for statements about whole runs; nothing of it is
//! executed.

use crate::import::{counted, ledger_view, log_view, ImportStage, ImportView};
use crate::pricing::PricingView;
use crate::protocol::{
    ActionView, ErrorView, EventView, LedgerView, LogView, ResultView, RowsFailureView, SyncCursor,
};
use crate::sync::{
    last_modified, latest_modified, resume_after, saved_rowid, scanned, source_rowid, SyncView,
    KIND_COLUMN, LANGUAGE, USAGE_TABLE,
};
use crate::usage::{ascending, lemma_filter_push, usage_records, RecordView, RowView};
use vstd::prelude::*;

verus! {

/// The studio's database.
#[verifier::ext_equal]
pub struct Studio {
    /// The name of the file, if it exists.
    pub file_path: Option<Seq<char>>,
    pub modified: i64,
    pub log_modified: Option<i64>,
    pub has_table: bool,
    pub has_record_kind: bool,
    /// The rows of the usage table by ascending rowid.
    pub rows: Seq<RowView>,
}

impl Studio {
    /// Rowids ascend, and without the column no row has a record kind.
    pub open spec fn valid(self) -> bool {
        &&& ascending(self.rows)
        &&& !self.has_record_kind ==> forall|i: int|
            0 <= i < self.rows.len() ==> (#[trigger] self.rows[i]).record_kind is None
    }

    pub open spec fn max_rowid(self) -> Option<i64> {
        if self.rows.len() == 0 {
            None
        } else {
            Some(self.rows.last().rowid)
        }
    }
}

/// The identity of an entry in the ledger.
pub open spec fn ledger_key(entry: LedgerView) -> (Seq<char>, Seq<char>) {
    (entry.data_source, entry.request_id)
}

/// The usage database. The ledger holds one entry at most for each request of
/// a source.
#[verifier::ext_equal]
pub struct Store {
    pub ledger: Map<(Seq<char>, Seq<char>), LedgerView>,
    pub log: Seq<LogView>,
    pub cursors: Map<Seq<char>, SyncCursor>,
}

impl Store {
    pub open spec fn has_entry(self, entry: LedgerView) -> bool {
        self.ledger.contains_key(ledger_key(entry))
    }

    /// The entry is inserted unless there is one for its request.
    pub open spec fn enter(self, entry: LedgerView) -> Store {
        if self.has_entry(entry) {
            self
        } else {
            Store { ledger: self.ledger.insert(ledger_key(entry), entry), ..self }
        }
    }

    /// The entries are inserted in order.
    pub open spec fn enter_all(self, entries: Seq<LedgerView>) -> Store
        decreases entries.len(),
    {
        if entries.len() == 0 {
            self
        } else {
            self.enter_all(entries.drop_last()).enter(entries.last())
        }
    }

    pub open spec fn append(self, row: LogView) -> Store {
        Store { log: self.log.push(row), ..self }
    }

    pub open spec fn save_cursor(self, file_path: Seq<char>, cursor: SyncCursor) -> Store {
        Store { cursors: self.cursors.insert(file_path, cursor), ..self }
    }

    pub open spec fn cursor(self, file_path: Seq<char>) -> Option<SyncCursor> {
        if self.cursors.contains_key(file_path) {
            Some(self.cursors[file_path])
        } else {
            None
        }
    }
}

/// Everything around a run: `pending` is the usage database as the open
/// transaction has left it, `committed` what a reader outside of it sees.
#[verifier::ext_equal]
pub struct World {
    pub studio: Studio,
    pub prices: Map<Seq<char>, PricingView>,
    pub committed: Store,
    pub pending: Store,
}

/// What goes wrong with an action: its message, and where the rows are being
/// read, at what and with which message.
pub struct Trouble {
    pub message: Seq<char>,
    pub at_rows: RowsFailureView,
}

/// How a run ended: the world that it leaves, and its result.
pub struct Outcome {
    pub after: World,
    pub result: Result<ResultView, ErrorView>,
}

impl World {
    pub open spec fn price(self, model_id: Seq<char>) -> Option<PricingView> {
        if self.prices.contains_key(model_id) {
            Some(self.prices[model_id])
        } else {
            None
        }
    }

    /// What comes of an action that succeeds.
    pub open spec fn answer(self, action: ActionView) -> (World, EventView) {
        match action {
            ActionView::Locate => (
                self,
                match self.studio.file_path {
                    Some(file_path) => EventView::Found { file_path },
                    None => EventView::Missing,
                },
            ),
            ActionView::ReadModified => (self, EventView::Modified(self.studio.modified)),
            ActionView::ReadLogModified { .. } => (
                self,
                EventView::LogModified(self.studio.log_modified),
            ),
            ActionView::LoadCursor { file_path } => (
                self,
                EventView::Cursor(self.committed.cursor(file_path)),
            ),
            ActionView::OpenStudio => (self, EventView::Done),
            ActionView::FindTable { .. } => (self, EventView::Answer(self.studio.has_table)),
            ActionView::ReadMaxRowid { .. } => (
                self,
                EventView::MaxRowid(self.studio.max_rowid()),
            ),
            ActionView::FindColumn { .. } => (
                self,
                EventView::Answer(self.studio.has_record_kind),
            ),
            ActionView::ReadRows { after_rowid, through_rowid, .. } => (
                self,
                EventView::Rows(
                    self.studio.rows.filter(
                        |r: RowView| after_rowid < r.rowid <= through_rowid,
                    ),
                ),
            ),
            ActionView::BeginImport => (
                World { pending: self.committed, ..self },
                EventView::Done,
            ),
            ActionView::InsertLedger(entry) => (
                World { pending: self.pending.enter(entry), ..self },
                EventView::Inserted(
                    if self.pending.has_entry(entry) {
                        0
                    } else {
                        1
                    },
                ),
            ),
            ActionView::FindPricing { model_id } => (
                self,
                EventView::Pricing(self.price(model_id)),
            ),
            ActionView::InsertLog(row) => (
                World { pending: self.pending.append(row), ..self },
                EventView::Done,
            ),
            ActionView::SaveCursor { file_path, cursor } => (
                World { pending: self.pending.save_cursor(file_path, cursor), ..self },
                EventView::Done,
            ),
            ActionView::Commit => (
                World { committed: self.pending, ..self },
                EventView::Done,
            ),
            ActionView::Finish(_) => (self, EventView::Done),
        }
    }

    /// What comes of an action that runs into trouble, if there is any. Only
    /// reading or writing a database and inspecting its file can.
    pub open spec fn respond(self, action: ActionView, trouble: Option<Trouble>) -> (
        World,
        EventView,
    ) {
        match (trouble, action) {
            (None, _)
            | (_, ActionView::Locate)
            | (_, ActionView::ReadLogModified { .. })
            | (_, ActionView::FindPricing { .. })
            | (_, ActionView::Finish(_)) => self.answer(action),
            (Some(t), ActionView::ReadRows { .. }) => (self, EventView::RowsFailed(t.at_rows)),
            (Some(t), _) => (self, EventView::Failed(t.message)),
        }
    }

    /// A run from a state and its action on, where the actions run into the
    /// given trouble. What was not committed by the end is rolled back. There is
    /// no outcome where the run takes more than `fuel` actions.
    pub open spec fn run(
        self,
        state: SyncView,
        action: ActionView,
        trouble: spec_fn(nat) -> Option<Trouble>,
        turn: nat,
        fuel: nat,
    ) -> Option<Outcome>
        decreases fuel,
    {
        if action is Finish {
            Some(
                Outcome {
                    after: World { pending: self.committed, ..self },
                    result: action->Finish_0,
                },
            )
        } else if fuel == 0 {
            None
        } else {
            let (world, event) = self.respond(action, trouble(turn));
            let (next, following) = state.step(event);
            world.run(next, following, trouble, turn + 1, (fuel - 1) as nat)
        }
    }

    /// How often a run looks up the prices of a model.
    pub open spec fn lookups(
        self,
        state: SyncView,
        action: ActionView,
        trouble: spec_fn(nat) -> Option<Trouble>,
        turn: nat,
        fuel: nat,
        model_id: Seq<char>,
    ) -> nat
        decreases fuel,
    {
        if action is Finish || fuel == 0 {
            0
        } else {
            let (world, event) = self.respond(action, trouble(turn));
            let (next, following) = state.step(event);
            let now: nat = if action == (ActionView::FindPricing { model_id }) {
                1
            } else {
                0
            };
            now + world.lookups(next, following, trouble, turn + 1, (fuel - 1) as nat, model_id)
        }
    }

    /// A whole synchronisation.
    pub open spec fn synchronise(self, trouble: spec_fn(nat) -> Option<Trouble>) -> Option<
        Outcome,
    > {
        self.run(
            SyncView::Locating,
            ActionView::Locate,
            trouble,
            0,
            (3 * self.studio.rows.len() + 16) as nat,
        )
    }

    /// An import of the records of one source, from its beginning.
    pub open spec fn import_records(
        self,
        file_path: Seq<char>,
        modified: i64,
        source_rowid: i64,
        records: Seq<RecordView>,
        trouble: spec_fn(nat) -> Option<Trouble>,
    ) -> Option<Outcome> {
        self.run(
            SyncView::Importing(ImportView::start(file_path, modified, source_rowid, records)),
            ActionView::BeginImport,
            trouble,
            0,
            (3 * records.len() + 4) as nat,
        )
    }

    /// The store after one record: unchanged where the ledger has the record,
    /// otherwise with the record in the ledger and in the log. `None` where the
    /// cost of the record overflows.
    pub open spec fn import_one(self, store: Store, record: RecordView) -> Option<Store> {
        let entry = ledger_view(record);
        if store.has_entry(entry) {
            Some(store)
        } else {
            match log_view(record, self.price(record.model_id)) {
                None => None,
                Some(row) => Some(store.enter(entry).append(row)),
            }
        }
    }

    /// The store after the records from position `from` on.
    pub open spec fn import_from(self, store: Store, records: Seq<RecordView>, from: int) -> Option<
        Store,
    >
        decreases records.len() - from,
    {
        if from < 0 || from >= records.len() {
            Some(store)
        } else {
            match self.import_one(store, records[from]) {
                None => None,
                Some(next) => self.import_from(next, records, from + 1),
            }
        }
    }

    /// The modification time that a run sees.
    pub open spec fn seen_modified(self) -> i64 {
        latest_modified(self.studio.modified, self.studio.log_modified)
    }

    /// The cursor that a run finds.
    pub open spec fn found_cursor(self) -> Option<SyncCursor> {
        self.committed.cursor(self.studio.file_path->0)
    }

    /// The run gets to see the rows: the file exists, was modified since it was
    /// last imported, and has the usage table.
    pub open spec fn reads_rows(self) -> bool {
        &&& self.studio.file_path is Some
        &&& self.seen_modified() > last_modified(self.found_cursor())
        &&& self.studio.has_table
    }

    /// The window of rowids that a run imports: after the first, up to the
    /// second.
    pub open spec fn window(self) -> (i64, i64) {
        let through = source_rowid(self.studio.max_rowid());
        (resume_after(saved_rowid(self.found_cursor()), through), through)
    }

    /// The records that a run imports, or the error of one of them.
    pub open spec fn found_records(self) -> Result<Seq<RecordView>, Seq<char>> {
        usage_records(self.studio.rows, self.window().0, self.window().1)
    }

    /// The usage database after a run that succeeds.
    pub open spec fn synchronised(self) -> Option<Store> {
        if !self.reads_rows() {
            Some(self.committed)
        } else {
            match self.found_records() {
                Err(_) => None,
                Ok(records) => match self.import_from(self.committed, records, 0) {
                    None => None,
                    Some(store) => Some(
                        store.save_cursor(
                            self.studio.file_path->0,
                            SyncCursor {
                                last_modified: self.seen_modified(),
                                last_line_offset: self.window().1,
                            },
                        ),
                    ),
                },
            }
        }
    }

    /// Why a run fails that does not succeed even without trouble: a row could
    /// not be read, or else a cost overflows.
    pub open spec fn failure(self) -> ErrorView {
        match self.found_records() {
            Err(error) => ErrorView::Database("读取 Cherry Studio 用量行失败: "@ + error),
            Ok(_) => ErrorView::CostOverflow,
        }
    }

    /// What a run that succeeds reports: in `imported` and `skipped` as many
    /// records as were logged and as were not.
    pub open spec fn report(self) -> ResultView {
        if self.studio.file_path is None {
            ResultView { imported: 0, skipped: 0, files_scanned: 0, errors: Seq::empty() }
        } else if self.seen_modified() <= last_modified(self.found_cursor()) {
            scanned(Seq::empty())
        } else if !self.studio.has_table {
            scanned(seq!["Cherry Studio 数据库中没有 ai_usage_record 表"@])
        } else {
            let logged = self.synchronised()->0.log.len() - self.committed.log.len();
            ResultView {
                imported: count_on(0, logged),
                skipped: count_on(0, self.found_records()->Ok_0.len() - logged),
                files_scanned: 1,
                errors: Seq::empty(),
            }
        }
    }
}

/// The count `n` after `more` further items; it stays at the largest count.
pub open spec fn count_on(n: u32, more: int) -> u32 {
    if n + more >= u32::MAX {
        u32::MAX
    } else {
        (n + more) as u32
    }
}

/// Nothing goes wrong.
pub open spec fn no_trouble() -> spec_fn(nat) -> Option<Trouble> {
    |turn: nat| None
}

/// Importing further records only adds to the log.
pub(crate) proof fn lemma_import_grows(world: World, store: Store, records: Seq<RecordView>, from: int)
    requires
        world.import_from(store, records, from) is Some,
        0 <= from <= records.len(),
    ensures
        store.log.len() <= world.import_from(store, records, from)->0.log.len() <= store.log.len()
            + (records.len() - from),
    decreases records.len() - from,
{
    if from < records.len() {
        let next = world.import_one(store, records[from])->0;
        lemma_import_grows(world, next, records, from + 1);
    }
}

/// What an import makes of a store depends on nothing around it but the prices.
pub(crate) proof fn lemma_same_prices(
    world: World,
    other: World,
    store: Store,
    records: Seq<RecordView>,
    from: int,
)
    requires
        world.prices == other.prices,
    ensures
        world.import_from(store, records, from) == other.import_from(store, records, from),
    decreases records.len() - from,
{
    if 0 <= from < records.len() {
        assert(world.import_one(store, records[from]) == other.import_one(store, records[from]));
        if world.import_one(store, records[from]) is Some {
            lemma_same_prices(
                world,
                other,
                world.import_one(store, records[from])->0,
                records,
                from + 1,
            );
        }
    }
}

/// One action of a run.
pub(crate) proof fn lemma_run_step(
    world: World,
    state: SyncView,
    action: ActionView,
    trouble: spec_fn(nat) -> Option<Trouble>,
    turn: nat,
    fuel: nat,
)
    requires
        !(action is Finish),
        fuel > 0,
    ensures
        ({
            let (after, event) = world.respond(action, trouble(turn));
            let (next, following) = state.step(event);
            world.run(state, action, trouble, turn, fuel) == after.run(
                next,
                following,
                trouble,
                turn + 1,
                (fuel - 1) as nat,
            )
        }),
{
}

/// What comes of importing the records from `next` on.
#[verifier::opaque]
pub open spec fn imports(
    world: World,
    import: ImportView,
    trouble: spec_fn(nat) -> Option<Trouble>,
    outcome: Option<Outcome>,
) -> bool {
    let store = world.import_from(world.pending, import.records, import.next);
    let Outcome { after, result } = outcome->0;
    let cursor = SyncCursor {
        last_modified: import.modified,
        last_line_offset: import.source_rowid,
    };
    &&& outcome is Some
    &&& after.studio == world.studio
    &&& after.prices == world.prices
    &&& after.pending == after.committed
    &&& result is Err ==> after.committed == world.committed
    &&& result is Ok ==> {
        let logged = store->0.log.len() - world.pending.log.len();
        &&& store is Some
        &&& after.committed == store->0.save_cursor(import.file_path, cursor)
        &&& result->Ok_0 == (ResultView {
            imported: count_on(import.imported, logged),
            skipped: count_on(import.skipped, import.records.len() - import.next - logged),
            files_scanned: 1,
            errors: Seq::empty(),
        })
    }
    &&& store is Some && trouble == no_trouble() ==> result is Ok
    &&& store is None && trouble == no_trouble() ==> result == Err::<ResultView, ErrorView>(
        ErrorView::CostOverflow,
    )
}

/// The prices that an import has found are those of the world.
pub open spec fn prices_agree(world: World, import: ImportView) -> bool {
    forall|m: Seq<char>| #[trigger]
        import.priced.contains_key(m) ==> import.priced[m] == world.price(m)
}

/// A run that has failed.
proof fn lemma_failed_import(
    world: World,
    import: ImportView,
    trouble: spec_fn(nat) -> Option<Trouble>,
    state: SyncView,
    error: ErrorView,
    at: World,
    turn: nat,
    fuel: nat,
)
    requires
        at.studio == world.studio,
        at.prices == world.prices,
        at.committed == world.committed,
        trouble != no_trouble() || error is CostOverflow && world.import_from(
            world.pending,
            import.records,
            import.next,
        ) is None,
    ensures
        imports(
            world,
            import,
            trouble,
            at.run(state, ActionView::Finish(Err(error)), trouble, turn, fuel),
        ),
{
    reveal(imports);
}

/// The last actions of an import.
proof fn lemma_commit_run(
    world: World,
    import: ImportView,
    trouble: spec_fn(nat) -> Option<Trouble>,
    turn: nat,
    fuel: nat,
)
    requires
        import.next == import.records.len(),
        fuel >= 3,
    ensures
        imports(
            world,
            import,
            trouble,
            world.run(
                SyncView::Importing(import.turn().0->0),
                import.turn().1,
                trouble,
                turn,
                fuel,
            ),
        ),
{
    let (saving, save) = import.turn();
    lemma_run_step(world, SyncView::Importing(saving->0), save, trouble, turn, fuel);
    if trouble(turn) is Some {
        lemma_failed_import(
            world,
            import,
            trouble,
            SyncView::Finished,
            ErrorView::Store(trouble(turn)->0.message),
            world,
            turn + 1,
            (fuel - 1) as nat,
        );
    } else {
        let saved = world.respond(save, None).0;
        let committing = ImportView { stage: ImportStage::Committing, ..saving->0 };
        lemma_run_step(
            saved,
            SyncView::Importing(committing),
            ActionView::Commit,
            trouble,
            turn + 1,
            (fuel - 1) as nat,
        );
        if trouble(turn + 1) is Some {
            lemma_failed_import(
                world,
                import,
                trouble,
                SyncView::Finished,
                ErrorView::Store(trouble(turn + 1)->0.message),
                saved,
                turn + 2,
                (fuel - 2) as nat,
            );
        } else {
            reveal(imports);
        }
    }
}

/// Importing goes on after a record that the ledger has.
proof fn lemma_skipped(
    world: World,
    import: ImportView,
    skipped: ImportView,
    trouble: spec_fn(nat) -> Option<Trouble>,
    outcome: Option<Outcome>,
)
    requires
        0 <= import.next < import.records.len(),
        world.pending.has_entry(ledger_view(import.records[import.next])),
        skipped.file_path == import.file_path,
        skipped.modified == import.modified,
        skipped.source_rowid == import.source_rowid,
        skipped.records == import.records,
        skipped.next == import.next + 1,
        skipped.imported == import.imported,
        skipped.skipped == counted(import.skipped),
        imports(world, skipped, trouble, outcome),
    ensures
        imports(world, import, trouble, outcome),
{
    reveal(imports);
    if world.import_from(world.pending, import.records, import.next) is Some {
        lemma_import_grows(world, world.pending, import.records, import.next + 1);
    }
}

/// Importing goes on after a record that was logged.
proof fn lemma_logged(
    world: World,
    logged: World,
    import: ImportView,
    imported: ImportView,
    trouble: spec_fn(nat) -> Option<Trouble>,
    outcome: Option<Outcome>,
)
    requires
        0 <= import.next < import.records.len(),
        !world.pending.has_entry(ledger_view(import.records[import.next])),
        world.import_one(world.pending, import.records[import.next]) == Some(logged.pending),
        logged.studio == world.studio,
        logged.prices == world.prices,
        logged.committed == world.committed,
        imported.file_path == import.file_path,
        imported.modified == import.modified,
        imported.source_rowid == import.source_rowid,
        imported.records == import.records,
        imported.next == import.next + 1,
        imported.imported == counted(import.imported),
        imported.skipped == import.skipped,
        imports(logged, imported, trouble, outcome),
    ensures
        imports(world, import, trouble, outcome),
{
    reveal(imports);
    lemma_same_prices(world, logged, logged.pending, import.records, import.next + 1);
    if world.import_from(world.pending, import.records, import.next) is Some {
        lemma_import_grows(world, logged.pending, import.records, import.next + 1);
    }
}

/// The run of an import that turns to the record at `next`.
proof fn lemma_import_run(
    world: World,
    import: ImportView,
    trouble: spec_fn(nat) -> Option<Trouble>,
    turn: nat,
    fuel: nat,
)
    requires
        0 <= import.next <= import.records.len(),
        prices_agree(world, import),
        fuel >= 3 * (import.records.len() - import.next) + 3,
    ensures
        imports(
            world,
            import,
            trouble,
            world.run(
                SyncView::Importing(import.turn().0->0),
                import.turn().1,
                trouble,
                turn,
                fuel,
            ),
        ),
    decreases import.records.len() - import.next, 1int,
{
    if import.next == import.records.len() {
        lemma_commit_run(world, import, trouble, turn, fuel);
    } else {
        let record = import.records[import.next];
        let entry = ledger_view(record);
        let entering = import.turn().0->0;
        lemma_run_step(
            world,
            SyncView::Importing(entering),
            ActionView::InsertLedger(entry),
            trouble,
            turn,
            fuel,
        );
        if trouble(turn) is Some {
            lemma_failed_import(
                world,
                import,
                trouble,
                SyncView::Finished,
                ErrorView::Store(trouble(turn)->0.message),
                world,
                turn + 1,
                (fuel - 1) as nat,
            );
        } else if world.pending.has_entry(entry) {
            let skipped = ImportView {
                skipped: counted(entering.skipped),
                next: entering.next + 1,
                ..entering
            };
            lemma_import_run(world, skipped, trouble, turn + 1, (fuel - 1) as nat);
            let outcome = world.run(
                SyncView::Importing(skipped.turn().0->0),
                skipped.turn().1,
                trouble,
                turn + 1,
                (fuel - 1) as nat,
            );
            lemma_skipped(world, import, skipped, trouble, outcome);
            assert(World { pending: world.pending.enter(entry), ..world } == world);
        } else {
            let entered = World { pending: world.pending.enter(entry), ..world };
            let pricing = world.price(record.model_id);
            if entering.priced.contains_key(record.model_id) {
                lemma_log_run(
                    world,
                    entered,
                    import,
                    entering,
                    trouble,
                    turn + 1,
                    (fuel - 1) as nat,
                );
            } else {
                let finding = ImportView { stage: ImportStage::FindingPricing, ..entering };
                lemma_run_step(
                    entered,
                    SyncView::Importing(finding),
                    ActionView::FindPricing { model_id: record.model_id },
                    trouble,
                    turn + 1,
                    (fuel - 1) as nat,
                );
                let priced = ImportView {
                    priced: finding.priced.insert(record.model_id, pricing),
                    ..finding
                };
                lemma_log_run(
                    world,
                    entered,
                    import,
                    priced,
                    trouble,
                    turn + 2,
                    (fuel - 2) as nat,
                );
            }
        }
    }
}

/// The run of an import that logs the record at `next`, which has just been
/// entered in the ledger.
proof fn lemma_log_run(
    world: World,
    entered: World,
    import: ImportView,
    priced: ImportView,
    trouble: spec_fn(nat) -> Option<Trouble>,
    turn: nat,
    fuel: nat,
)
    requires
        0 <= import.next < import.records.len(),
        !world.pending.has_entry(ledger_view(import.records[import.next])),
        entered == (World {
            pending: world.pending.enter(ledger_view(import.records[import.next])),
            ..world
        }),
        priced == (ImportView { priced: priced.priced, stage: priced.stage, ..import }),
        prices_agree(world, priced),
        fuel >= 3 * (import.records.len() - import.next) + 1,
    ensures
        ({
            let (next, action) = priced.log(
                world.price(import.records[import.next].model_id),
            );
            imports(
                world,
                import,
                trouble,
                entered.run(
                    match next {
                        Some(state) => SyncView::Importing(state),
                        None => SyncView::Finished,
                    },
                    action,
                    trouble,
                    turn,
                    fuel,
                ),
            )
        }),
    decreases import.records.len() - import.next, 0int,
{
    let record = import.records[import.next];
    let pricing = world.price(record.model_id);
    let row = log_view(record, pricing);
    if row is None {
        lemma_failed_import(
            world,
            import,
            trouble,
            SyncView::Finished,
            ErrorView::CostOverflow,
            entered,
            turn,
            fuel,
        );
    } else {
        let logging = ImportView { stage: ImportStage::Logging, ..priced };
        lemma_run_step(
            entered,
            SyncView::Importing(logging),
            ActionView::InsertLog(row->0),
            trouble,
            turn,
            fuel,
        );
        if trouble(turn) is Some {
            lemma_failed_import(
                world,
                import,
                trouble,
                SyncView::Finished,
                ErrorView::Store(trouble(turn)->0.message),
                entered,
                turn + 1,
                (fuel - 1) as nat,
            );
        } else {
            let logged = World { pending: entered.pending.append(row->0), ..entered };
            let imported = ImportView {
                imported: counted(logging.imported),
                next: logging.next + 1,
                ..logging
            };
            assert(prices_agree(logged, imported)) by {
                assert forall|m: Seq<char>| #[trigger]
                    imported.priced.contains_key(m) implies imported.priced[m] == logged.price(
                    m,
                ) by {
                    assert(priced.priced.contains_key(m));
                    assert(logged.price(m) == world.price(m));
                }
            }
            lemma_import_run(logged, imported, trouble, turn + 1, (fuel - 1) as nat);
            let outcome = logged.run(
                SyncView::Importing(imported.turn().0->0),
                imported.turn().1,
                trouble,
                turn + 1,
                (fuel - 1) as nat,
            );
            lemma_logged(world, logged, import, imported, trouble, outcome);
        }
    }
}

/// Rows that were filtered by a weaker condition first.
proof fn lemma_filter_within<A>(s: Seq<A>, weaker: spec_fn(A) -> bool, p: spec_fn(A) -> bool)
    requires
        forall|a: A| #[trigger] p(a) ==> weaker(a),
    ensures
        s.filter(weaker).filter(p) == s.filter(p),
    decreases s.len(),
{
    reveal(Seq::filter);
    if s.len() > 0 {
        lemma_filter_within(s.drop_last(), weaker, p);
        lemma_filter_push(s.drop_last().filter(weaker), s.last(), p);
    }
}

/// Reading only the rows of the window loses no record.
proof fn lemma_window_suffices(rows: Seq<RowView>, after_rowid: i64, through_rowid: i64)
    ensures
        usage_records(
            rows.filter(|r: RowView| after_rowid < r.rowid <= through_rowid),
            after_rowid,
            through_rowid,
        ) == usage_records(rows, after_rowid, through_rowid),
{
    lemma_filter_within(
        rows,
        |r: RowView| after_rowid < r.rowid <= through_rowid,
        |r: RowView| r.selected(after_rowid, through_rowid),
    );
}

/// No more records are imported than there are rows.
proof fn lemma_records_bounded(rows: Seq<RowView>, after_rowid: i64, through_rowid: i64)
    ensures
        usage_records(rows, after_rowid, through_rowid) matches Ok(records) ==> records.len()
            <= rows.len(),
{
    rows.lemma_filter_len(|r: RowView| r.selected(after_rowid, through_rowid));
}

/// An import from its beginning, at any turn of a run.
pub(crate) proof fn lemma_begun_import(
    world: World,
    import: ImportView,
    trouble: spec_fn(nat) -> Option<Trouble>,
    turn: nat,
    fuel: nat,
)
    requires
        import == ImportView::start(
            import.file_path,
            import.modified,
            import.source_rowid,
            import.records,
        ),
        fuel >= 3 * import.records.len() + 4,
    ensures
        imports(
            World { pending: world.committed, ..world },
            import,
            trouble,
            world.run(SyncView::Importing(import), ActionView::BeginImport, trouble, turn, fuel),
        ),
{
    let begun = World { pending: world.committed, ..world };
    lemma_run_step(
        world,
        SyncView::Importing(import),
        ActionView::BeginImport,
        trouble,
        turn,
        fuel,
    );
    if trouble(turn) is Some {
        lemma_failed_import(
            begun,
            import,
            trouble,
            SyncView::Finished,
            ErrorView::Store(trouble(turn)->0.message),
            world,
            turn + 1,
            (fuel - 1) as nat,
        );
    } else {
        lemma_import_run(begun, import, trouble, turn + 1, (fuel - 1) as nat);
    }
}

/// The run from the opening of the studio's database on.
pub(crate) proof fn lemma_open_run(
    world: World,
    trouble: spec_fn(nat) -> Option<Trouble>,
    turn: nat,
    fuel: nat,
)
    requires
        world.studio.file_path is Some,
        world.seen_modified() > last_modified(world.found_cursor()),
        fuel >= 3 * world.studio.rows.len() + 9,
    ensures
        ({
            let outcome = world.run(
                SyncView::Opening {
                    file_path: world.studio.file_path->0,
                    modified: world.seen_modified(),
                    saved_rowid: saved_rowid(world.found_cursor()),
                },
                ActionView::OpenStudio,
                trouble,
                turn,
                fuel,
            );
            let Outcome { after, result } = outcome->0;
            &&& outcome is Some
            &&& after.studio == world.studio
            &&& after.prices == world.prices
            &&& after.pending == after.committed
            &&& result is Err ==> after.committed == world.committed
            &&& result is Ok ==> world.synchronised() == Some(after.committed) && result->Ok_0
                == world.report()
            &&& world.synchronised() is Some && trouble == no_trouble() ==> result is Ok
            &&& world.synchronised() is None && trouble == no_trouble() ==> result == Err::<
                ResultView,
                ErrorView,
            >(world.failure())
        }),
{
    let file_path = world.studio.file_path->0;
    let modified = world.seen_modified();
    let saved = saved_rowid(world.found_cursor());
    let (after_rowid, through_rowid) = world.window();
    let opening = SyncView::Opening { file_path, modified, saved_rowid: saved };
    let finding = SyncView::FindingTable { file_path, modified, saved_rowid: saved };
    let measuring = SyncView::ReadingMaxRowid { file_path, modified, saved_rowid: saved };
    let asking = SyncView::FindingColumn { file_path, modified, after_rowid, through_rowid };
    let reading = SyncView::ReadingRows { file_path, modified, after_rowid, through_rowid };
    let find_table = ActionView::FindTable { table: USAGE_TABLE@ };
    let read_max = ActionView::ReadMaxRowid { table: USAGE_TABLE@ };
    let find_column = ActionView::FindColumn { table: USAGE_TABLE@, column: KIND_COLUMN@ };
    let read_rows = ActionView::ReadRows {
        table: USAGE_TABLE@,
        after_rowid,
        through_rowid,
        modality: LANGUAGE@,
        with_record_kind: world.studio.has_record_kind,
    };
    lemma_run_step(world, opening, ActionView::OpenStudio, trouble, turn, fuel);
    if trouble(turn) is None {
        lemma_run_step(world, finding, find_table, trouble, turn + 1, (fuel - 1) as nat);
        if trouble(turn + 1) is None && world.studio.has_table {
            lemma_run_step(world, measuring, read_max, trouble, turn + 2, (fuel - 2) as nat);
            if trouble(turn + 2) is None {
                lemma_run_step(world, asking, find_column, trouble, turn + 3, (fuel - 3) as nat);
                if trouble(turn + 3) is None {
                    lemma_run_step(
                        world,
                        reading,
                        read_rows,
                        trouble,
                        turn + 4,
                        (fuel - 4) as nat,
                    );
                    lemma_window_suffices(world.studio.rows, after_rowid, through_rowid);
                    lemma_records_bounded(world.studio.rows, after_rowid, through_rowid);
                    if trouble(turn + 4) is None && world.found_records() is Ok {
                        let records = world.found_records()->Ok_0;
                        let import = ImportView::start(file_path, modified, through_rowid, records);
                        let begun = World { pending: world.committed, ..world };
                        lemma_begun_import(world, import, trouble, turn + 5, (fuel - 5) as nat);
                        lemma_same_prices(world, begun, world.committed, records, 0);
                        reveal(imports);
                    }
                }
            }
        }
    }
}

} // verus!
