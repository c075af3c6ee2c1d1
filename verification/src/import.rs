//! The import of usage records into the usage log, as one transaction.
//!
//! Every record is first entered in the deduplication ledger. Where the ledger
//! already has it, it is skipped; otherwise it is priced and logged. After the
//! last record the cursor of the source is saved, and all is committed at
//! once. Prices are looked up once for each model.

use crate::pricing::{
    cost_texts, denote_cost, has_ordinary_cost, pricing_view, stored_cost, CostTexts, CostTextsView,
    ModelPricing, PricingView, TokenUsage,
};
use crate::protocol::{
    ActionView, ErrorView, EventView, InputTokenSemantics, LedgerEntry, LedgerView, LogRow, LogView,
    ResultView, SessionSyncResult, SyncAction, SyncCursor, SyncError, SyncEvent, APP_TYPE,
    DATA_SOURCE,
};
use crate::text::texts;
use crate::usage::{record_views, CherryUsageRecord, RecordView};
use vstd::pervasive::unreached;
use vstd::prelude::*;
use vstd::string::StringExecFns;

verus! {

/// The identity of a record in the ledger and in the log.
pub open spec fn logged_id(record: RecordView) -> Seq<char> {
    "cherry_studio:"@ + record.request_id
}

/// The ledger entry of a record.
pub open spec fn ledger_view(record: RecordView) -> LedgerView {
    LedgerView {
        data_source: DATA_SOURCE@,
        request_id: logged_id(record),
        semantic_id: logged_id(record),
        has_entry_id: true,
    }
}

/// The tokens of a record, as they are priced.
pub open spec fn token_usage(record: RecordView) -> TokenUsage {
    TokenUsage {
        input_tokens: record.input_tokens,
        output_tokens: record.output_tokens,
        cache_read_tokens: record.cache_read_tokens,
        cache_creation_tokens: record.cache_write_tokens,
    }
}

/// The log row of a record with the given cost.
pub open spec fn costed_view(record: RecordView, cost: CostTextsView) -> LogView {
    LogView {
        request_id: logged_id(record),
        provider_id: record.provider_name,
        app_type: APP_TYPE@,
        model: record.model_id,
        request_model: record.model_id,
        pricing_model: record.model_id,
        input_tokens: record.input_tokens,
        output_tokens: record.output_tokens,
        cache_read_tokens: record.cache_read_tokens,
        cache_creation_tokens: record.cache_write_tokens,
        input_token_semantics: InputTokenSemantics::Fresh,
        cost,
        latency_ms: record.duration_ms,
        first_token_ms: record.first_token_ms,
        duration_ms: record.duration_ms,
        status_code: 200,
        error_message: None,
        session_id: None,
        provider_type: record.provider_id,
        is_streaming: true,
        cost_multiplier: "1.0"@,
        created_at: record.created_at,
        data_source: DATA_SOURCE@,
    }
}

/// The log row of a record whose model has the given prices; `None` where its
/// cost overflows.
pub open spec fn log_view(record: RecordView, pricing: Option<PricingView>) -> Option<LogView> {
    match stored_cost(token_usage(record), pricing) {
        None => None,
        Some(cost) => Some(costed_view(record, cost)),
    }
}

/// Where an import is, by the action that it waits for.
#[derive(Clone, Copy, Debug, PartialEq, Eq, Structural)]
pub enum ImportStage {
    Beginning,
    EnteringLedger,
    FindingPricing,
    Logging,
    SavingCursor,
    Committing,
}

struct PricedModel {
    model_id: String,
    pricing: Option<ModelPricing>,
}

/// An import that is under way.
pub struct ImportState {
    file_path: String,
    modified: i64,
    source_rowid: i64,
    records: Vec<CherryUsageRecord>,
    next: usize,
    priced: Vec<PricedModel>,
    imported: u32,
    skipped: u32,
    stage: ImportStage,
}

pub struct ImportView {
    /// The source, its modification time and the rowid to be saved with it.
    pub file_path: Seq<char>,
    pub modified: i64,
    pub source_rowid: i64,
    pub records: Seq<RecordView>,
    /// The record that is being imported.
    pub next: int,
    /// The prices looked up so far.
    pub priced: Map<Seq<char>, Option<PricingView>>,
    pub imported: u32,
    pub skipped: u32,
    pub stage: ImportStage,
}

spec fn priced_map(priced: Seq<PricedModel>) -> Map<Seq<char>, Option<PricingView>>
    decreases priced.len(),
{
    if priced.len() == 0 {
        Map::empty()
    } else {
        priced_map(priced.drop_last()).insert(
            priced.last().model_id@,
            pricing_view(priced.last().pricing),
        )
    }
}

impl View for ImportState {
    type V = ImportView;

    closed spec fn view(&self) -> ImportView {
        ImportView {
            file_path: self.file_path@,
            modified: self.modified,
            source_rowid: self.source_rowid,
            records: record_views(self.records@),
            next: self.next as int,
            priced: priced_map(self.priced@),
            imported: self.imported,
            skipped: self.skipped,
            stage: self.stage,
        }
    }
}

/// The next count, which stays at the largest one.
pub open spec fn counted(n: u32) -> u32 {
    if n == u32::MAX {
        n
    } else {
        (n + 1) as u32
    }
}

impl ImportView {
    pub open spec fn well_formed(self) -> bool {
        &&& 0 <= self.next <= self.records.len()
        &&& self.stage is EnteringLedger || self.stage is FindingPricing || self.stage is Logging
            ==> self.next < self.records.len()
    }

    /// The import has yet to turn to a record.
    pub open spec fn start(
        file_path: Seq<char>,
        modified: i64,
        source_rowid: i64,
        records: Seq<RecordView>,
    ) -> ImportView {
        ImportView {
            file_path,
            modified,
            source_rowid,
            records,
            next: 0,
            priced: Map::empty(),
            imported: 0,
            skipped: 0,
            stage: ImportStage::Beginning,
        }
    }

    /// The event can come of the action that the import waits for.
    pub open spec fn accepts(self, event: EventView) -> bool {
        match self.stage {
            ImportStage::Beginning
            | ImportStage::Logging
            | ImportStage::SavingCursor
            | ImportStage::Committing => event is Done || event is Failed,
            ImportStage::EnteringLedger => event is Inserted || event is Failed,
            ImportStage::FindingPricing => event is Pricing,
        }
    }

    /// After the event, the record at `next` is new to the ledger, its prices
    /// are known, and its cost is ordinary.
    pub open spec fn is_ready_to_log(self, event: EventView) -> bool {
        let record = self.records[self.next];
        match (self.stage, event) {
            (ImportStage::EnteringLedger, EventView::Inserted(count)) => {
                &&& count != 0
                &&& self.priced.contains_key(record.model_id)
                &&& has_ordinary_cost(token_usage(record), self.priced[record.model_id])
            },
            (ImportStage::FindingPricing, EventView::Pricing(pricing)) => has_ordinary_cost(
                token_usage(record),
                pricing,
            ),
            (_, _) => false,
        }
    }

    /// The prices that are known for the record at `next` after the event.
    pub open spec fn pricing_after(self, event: EventView) -> Option<PricingView> {
        match event {
            EventView::Pricing(pricing) => pricing,
            _ => self.priced[self.records[self.next].model_id],
        }
    }

    /// What a run that imports everything reports.
    pub open spec fn result(self) -> ResultView {
        ResultView {
            imported: self.imported,
            skipped: self.skipped,
            files_scanned: 1,
            errors: Seq::empty(),
        }
    }

    /// Turns to the record at `next`, or to the cursor where none is left.
    pub open spec fn turn(self) -> (Option<ImportView>, ActionView) {
        if self.next < self.records.len() {
            (
                Some(ImportView { stage: ImportStage::EnteringLedger, ..self }),
                ActionView::InsertLedger(ledger_view(self.records[self.next])),
            )
        } else {
            (
                Some(ImportView { stage: ImportStage::SavingCursor, ..self }),
                ActionView::SaveCursor {
                    file_path: self.file_path,
                    cursor: SyncCursor {
                        last_modified: self.modified,
                        last_line_offset: self.source_rowid,
                    },
                },
            )
        }
    }

    /// Logs the record at `next` with the given prices.
    pub open spec fn log(self, pricing: Option<PricingView>) -> (Option<ImportView>, ActionView) {
        match log_view(self.records[self.next], pricing) {
            None => (None, ActionView::Finish(Err(ErrorView::CostOverflow))),
            Some(row) => (
                Some(ImportView { stage: ImportStage::Logging, ..self }),
                ActionView::InsertLog(row),
            ),
        }
    }

    /// What follows an event: the import from there on, if it goes on, and the
    /// next action.
    pub open spec fn step(self, event: EventView) -> (Option<ImportView>, ActionView) {
        match (self.stage, event) {
            (_, EventView::Failed(message)) => (
                None,
                ActionView::Finish(Err(ErrorView::Store(message))),
            ),
            (ImportStage::Beginning, _) => self.turn(),
            (ImportStage::EnteringLedger, EventView::Inserted(count)) => if count == 0 {
                (ImportView { skipped: counted(self.skipped), next: self.next + 1, ..self }).turn()
            } else {
                let model_id = self.records[self.next].model_id;
                if self.priced.contains_key(model_id) {
                    self.log(self.priced[model_id])
                } else {
                    (
                        Some(ImportView { stage: ImportStage::FindingPricing, ..self }),
                        ActionView::FindPricing { model_id },
                    )
                }
            },
            (ImportStage::FindingPricing, EventView::Pricing(pricing)) => (ImportView {
                priced: self.priced.insert(self.records[self.next].model_id, pricing),
                ..self
            }).log(pricing),
            (ImportStage::Logging, _) => (ImportView {
                imported: counted(self.imported),
                next: self.next + 1,
                ..self
            }).turn(),
            (ImportStage::SavingCursor, _) => (
                Some(ImportView { stage: ImportStage::Committing, ..self }),
                ActionView::Commit,
            ),
            (ImportStage::Committing, _) => (None, ActionView::Finish(Ok(self.result()))),
            (_, _) => arbitrary(),
        }
    }
}

/// An import under way that may have ended, by its view.
pub open spec fn import_view(state: Option<ImportState>) -> Option<ImportView> {
    match state {
        None => None,
        Some(s) => Some(s@),
    }
}

/// The ledger entry of a record.
pub fn ledger_entry(record: &CherryUsageRecord) -> (entry: LedgerEntry)
    ensures
        entry@ == ledger_view(record@),
        entry@.data_source == "cherry_studio"@,
        entry@.request_id == "cherry_studio:"@ + record@.request_id,
        entry@.semantic_id == "cherry_studio:"@ + record@.request_id,
{
    let request_id = "cherry_studio:".to_string().concat(record.request_id.as_str());
    LedgerEntry {
        data_source: DATA_SOURCE.to_string(),
        semantic_id: request_id.clone(),
        request_id,
        has_entry_id: true,
    }
}

/// The log row of a record with the given cost.
pub fn costed_row(record: &CherryUsageRecord, cost: CostTexts) -> (row: LogRow)
    ensures
        row@ == costed_view(record@, cost@),
        row@.request_id == "cherry_studio:"@ + record@.request_id,
        row@.cost == cost@,
{
    LogRow {
        request_id: "cherry_studio:".to_string().concat(record.request_id.as_str()),
        provider_id: record.provider_name.clone(),
        app_type: APP_TYPE.to_string(),
        model: record.model_id.clone(),
        request_model: record.model_id.clone(),
        pricing_model: record.model_id.clone(),
        input_tokens: record.input_tokens,
        output_tokens: record.output_tokens,
        cache_read_tokens: record.cache_read_tokens,
        cache_creation_tokens: record.cache_write_tokens,
        input_token_semantics: InputTokenSemantics::Fresh,
        input_cost_usd: cost.input,
        output_cost_usd: cost.output,
        cache_read_cost_usd: cost.cache_read,
        cache_creation_cost_usd: cost.cache_creation,
        total_cost_usd: cost.total,
        latency_ms: record.duration_ms,
        first_token_ms: record.first_token_ms,
        duration_ms: record.duration_ms,
        status_code: 200,
        error_message: None,
        session_id: None,
        provider_type: record.provider_id.clone(),
        is_streaming: true,
        cost_multiplier: "1.0".to_string(),
        created_at: record.created_at,
        data_source: DATA_SOURCE.to_string(),
    }
}

/// The log row of a record whose model has the given prices. There is none
/// where its cost overflows.
pub fn log_row(record: &CherryUsageRecord, pricing: &Option<ModelPricing>) -> (row: Option<LogRow>)
    ensures
        row is Some <==> log_view(record@, pricing_view(*pricing)) is Some,
        row matches Some(r) ==> log_view(record@, pricing_view(*pricing)) == Some(r@),
        has_ordinary_cost(token_usage(record@), pricing_view(*pricing)) ==> row is Some
            && denote_cost(row->0@.cost, row->0@.tokens(), pricing_view(*pricing)),
{
    let usage = TokenUsage {
        input_tokens: record.input_tokens,
        output_tokens: record.output_tokens,
        cache_read_tokens: record.cache_read_tokens,
        cache_creation_tokens: record.cache_write_tokens,
    };
    match cost_texts(&usage, pricing) {
        None => None,
        Some(cost) => Some(costed_row(record, cost)),
    }
}

/// The prices found earlier for a model, if it was looked up.
fn find_priced(priced: &Vec<PricedModel>, model_id: &String) -> (found: Option<
    Option<ModelPricing>,
>)
    ensures
        found is Some <==> priced_map(priced@).contains_key(model_id@),
        found matches Some(pricing) ==> pricing_view(pricing) == priced_map(priced@)[model_id@],
{
    let mut i: usize = priced.len();
    assert(priced@.take(i as int) =~= priced@);
    while i > 0
        invariant
            i <= priced.len(),
            priced_map(priced@).contains_key(model_id@) <==> priced_map(
                priced@.take(i as int),
            ).contains_key(model_id@),
            priced_map(priced@).contains_key(model_id@) ==> priced_map(priced@)[model_id@]
                == priced_map(priced@.take(i as int))[model_id@],
        decreases i,
    {
        i -= 1;
        proof {
            assert(priced@.take(i + 1).drop_last() =~= priced@.take(i as int));
            assert(priced@.take(i + 1).last() == priced@[i as int]);
        }
        if priced[i].model_id == *model_id {
            return Some(priced[i].pricing);
        }
    }
    None
}

/// Begins to import the records of one source into the usage log.
pub fn import_usage_records(
    file_path: String,
    modified: i64,
    source_rowid: i64,
    records: Vec<CherryUsageRecord>,
) -> (begun: (ImportState, SyncAction))
    ensures
        begun.0@ == ImportView::start(
            file_path@,
            modified,
            source_rowid,
            record_views(records@),
        ),
        begun.0@.well_formed(),
        begun.1@ == ActionView::BeginImport,
{
    let state = ImportState {
        file_path,
        modified,
        source_rowid,
        records,
        next: 0,
        priced: Vec::new(),
        imported: 0,
        skipped: 0,
        stage: ImportStage::Beginning,
    };
    (state, SyncAction::BeginImport)
}

impl ImportState {
    /// Whether the event can come of the action that the import waits for.
    pub fn accepts(&self, event: &SyncEvent) -> (accepts: bool)
        ensures
            accepts == self@.accepts(event@),
    {
        match self.stage {
            ImportStage::Beginning
            | ImportStage::Logging
            | ImportStage::SavingCursor
            | ImportStage::Committing => matches!(event, SyncEvent::Done | SyncEvent::Failed(_)),
            ImportStage::EnteringLedger => matches!(
                event,
                SyncEvent::Inserted(_) | SyncEvent::Failed(_)
            ),
            ImportStage::FindingPricing => matches!(event, SyncEvent::Pricing(_)),
        }
    }

    fn turn(self) -> (next: (Option<ImportState>, SyncAction))
        requires
            0 <= self@.next <= self@.records.len(),
        ensures
            (import_view(next.0), next.1@) == self@.turn(),
    {
        if self.next < self.records.len() {
            let entry = ledger_entry(&self.records[self.next]);
            assert(self@.records[self@.next] == self.records@[self.next as int]@);
            let state = ImportState { stage: ImportStage::EnteringLedger, ..self };
            (Some(state), SyncAction::InsertLedger(entry))
        } else {
            let action = SyncAction::SaveCursor {
                file_path: self.file_path.clone(),
                cursor: SyncCursor {
                    last_modified: self.modified,
                    last_line_offset: self.source_rowid,
                },
            };
            let state = ImportState { stage: ImportStage::SavingCursor, ..self };
            (Some(state), action)
        }
    }

    fn log(self, pricing: Option<ModelPricing>) -> (next: (Option<ImportState>, SyncAction))
        requires
            0 <= self@.next < self@.records.len(),
        ensures
            (import_view(next.0), next.1@) == self@.log(pricing_view(pricing)),
            has_ordinary_cost(
                token_usage(self@.records[self@.next]),
                pricing_view(pricing),
            ) ==> (next.1@ matches ActionView::InsertLog(row) && denote_cost(
                row.cost,
                row.tokens(),
                pricing_view(pricing),
            )),
    {
        assert(self@.records[self@.next] == self.records@[self.next as int]@);
        match log_row(&self.records[self.next], &pricing) {
            None => (None, SyncAction::Finish(Err(SyncError::CostOverflow))),
            Some(row) => {
                let state = ImportState { stage: ImportStage::Logging, ..self };
                (Some(state), SyncAction::InsertLog(row))
            },
        }
    }

    /// Takes in what came of the last action, and says what to do next.
    pub fn step(self, event: SyncEvent) -> (next: (Option<ImportState>, SyncAction))
        requires
            self@.well_formed(),
            self@.accepts(event@),
        ensures
            (import_view(next.0), next.1@) == self@.step(event@),
            next.0 matches Some(state) ==> state@.well_formed(),
            next.0 is None <==> next.1@ is Finish,
            self@.is_ready_to_log(event@) ==> (next.1@ matches ActionView::InsertLog(row)
                && denote_cost(row.cost, row.tokens(), self@.pricing_after(event@))),
    {
        assert(self@.records.len() == self.records.len());
        match (self.stage, event) {
            (_, SyncEvent::Failed(message)) => (
                None,
                SyncAction::Finish(Err(SyncError::Store(message))),
            ),
            (ImportStage::Beginning, _) => self.turn(),
            (ImportStage::EnteringLedger, SyncEvent::Inserted(count)) => {
                if count == 0 {
                    let state = ImportState {
                        skipped: self.skipped.saturating_add(1),
                        next: self.next + 1,
                        ..self
                    };
                    state.turn()
                } else {
                    assert(self@.records[self@.next] == self.records@[self.next as int]@);
                    let model_id = self.records[self.next].model_id.clone();
                    match find_priced(&self.priced, &model_id) {
                        Some(pricing) => self.log(pricing),
                        None => {
                            let state = ImportState { stage: ImportStage::FindingPricing, ..self };
                            (Some(state), SyncAction::FindPricing { model_id })
                        },
                    }
                }
            },
            (ImportStage::FindingPricing, SyncEvent::Pricing(pricing)) => {
                let mut state = self;
                let ghost before = state.priced@;
                assert(state@.records[state@.next] == state.records@[state.next as int]@);
                let model_id = state.records[state.next].model_id.clone();
                state.priced.push(PricedModel { model_id, pricing });
                assert(state.priced@.drop_last() =~= before);
                state.log(pricing)
            },
            (ImportStage::Logging, _) => {
                let state = ImportState {
                    imported: self.imported.saturating_add(1),
                    next: self.next + 1,
                    ..self
                };
                state.turn()
            },
            (ImportStage::SavingCursor, _) => {
                let state = ImportState { stage: ImportStage::Committing, ..self };
                (Some(state), SyncAction::Commit)
            },
            (ImportStage::Committing, _) => {
                let result = SessionSyncResult {
                    imported: self.imported,
                    skipped: self.skipped,
                    files_scanned: 1,
                    errors: Vec::new(),
                };
                assert(texts(result.errors@) =~= Seq::empty());
                (None, SyncAction::Finish(Ok(result)))
            },
            (_, _) => unreached(),
        }
    }
}

} // verus!
