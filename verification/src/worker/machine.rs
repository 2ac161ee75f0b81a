//! The cycle of the worker as a state machine.
//!
//! The worker itself performs no input or output. It is told what happened
//! (`Event`) and answers what is to be done next (`Action`); the thread that
//! runs it connects, fetches, feeds the writer, commits, stores the
//! checkpoint and sleeps. One cycle goes from `Idle` or `Sleep` through
//! `Connect`, `FetchBatch` and `IngestBatch` (once for each page of rows) to
//! `Commit`, `Checkpoint` and back to `Sleep`; any failure ends the cycle by
//! way of `Rollback` where the writer may hold documents.

use super::postgres::advance_spec;
use super::postgres::max_key;
use super::postgres::row_views;
use super::postgres::rows_spec;
use super::postgres::state_of;
use super::postgres::BatchView;
use super::postgres::Ingest;
use super::postgres::SourceRow;
use super::postgres::SourceValueView;
use super::postgres::State;
use crate::config::ConfigRef;
use crate::config::ConfigView;
use crate::document::document_views;
use crate::document::Document;
use crate::document::FieldValueView;
use crate::index::FieldEntryView;
use crate::index::FieldTable;
use vstd::prelude::*;

verus! {

/// The most rows that are fetched and ingested at once.
pub const PAGE_ROWS: usize = 1000;

/// Where the worker is in its cycle: what it waits for.
#[derive(Clone, Copy, Debug, PartialEq, Eq, Structural)]
pub enum Phase {
    /// No cycle has begun.
    Idle,
    /// The source is being connected to and the cursor opened.
    Connect,
    /// A page of rows is being fetched.
    FetchBatch,
    /// The writer is being given the documents of a page.
    IngestBatch,
    /// The engine is committing the batch.
    Commit,
    /// The engine is rolling the batch back.
    Rollback,
    /// The new checkpoint is being stored.
    Checkpoint,
    /// The worker sleeps until the next cycle.
    Sleep,
}

/// What happened.
#[derive(Clone, Debug, PartialEq, Eq)]
pub enum Event {
    /// It is time for a cycle.
    Wake,
    /// What was asked for is done.
    Done,
    /// What was asked for failed.
    Failed,
    /// The rows that were fetched; none when the cursor is exhausted.
    Page(Vec<SourceRow>),
}

/// An event as a mathematical value.
pub enum EventView {
    Wake,
    Done,
    Failed,
    Page(Seq<Seq<Option<SourceValueView>>>),
}

impl View for Event {
    type V = EventView;

    open spec fn view(&self) -> EventView {
        match *self {
            Event::Wake => EventView::Wake,
            Event::Done => EventView::Done,
            Event::Failed => EventView::Failed,
            Event::Page(rows) => EventView::Page(row_views(rows@)),
        }
    }
}

/// What is to be done next.
#[derive(Clone, Debug, PartialEq, Eq)]
pub enum Action {
    /// Connect to the source and open a cursor over the rows whose key is
    /// greater than `after`.
    Connect { after: i64 },
    /// Fetch the next rows of the cursor, at most `rows` of them.
    Fetch { rows: usize },
    /// Give the writer these documents, in this order.
    Add { documents: Vec<Document> },
    /// Commit what the writer was given.
    Commit,
    /// Roll back what the writer was given.
    Rollback,
    /// Store this checkpoint.
    Store { state: State },
    /// Sleep for so many seconds, then wake the worker.
    Sleep { seconds: u64 },
}

/// An action as a mathematical value.
pub enum ActionView {
    Connect { after: i64 },
    Fetch { rows: usize },
    Add { documents: Seq<Seq<FieldValueView>> },
    Commit,
    Rollback,
    Store { state: State },
    Sleep { seconds: u64 },
}

impl View for Action {
    type V = ActionView;

    open spec fn view(&self) -> ActionView {
        match *self {
            Action::Connect { after } => ActionView::Connect { after },
            Action::Fetch { rows } => ActionView::Fetch { rows },
            Action::Add { documents } => ActionView::Add { documents: document_views(documents@) },
            Action::Commit => ActionView::Commit,
            Action::Rollback => ActionView::Rollback,
            Action::Store { state } => ActionView::Store { state },
            Action::Sleep { seconds } => ActionView::Sleep { seconds },
        }
    }
}

/// The worker: its phase, the checkpoint that is known to be stored, and
/// the keys of the rows of the batch at hand.
pub struct Worker {
    config: ConfigRef,
    phase: Phase,
    state: State,
    ingest: Ingest,
}

/// A worker as a mathematical value.
pub struct WorkerView {
    pub config: ConfigView,
    pub phase: Phase,
    pub state: State,
    /// The keys of the rows that the writer was given in this cycle.
    pub keys: Seq<i64>,
}

impl View for Worker {
    type V = WorkerView;

    closed spec fn view(&self) -> WorkerView {
        WorkerView {
            config: self.config@,
            phase: self.phase,
            state: self.state,
            keys: self.ingest.keys(),
        }
    }
}

/// The end of a cycle: the worker sleeps for the configured interval.
pub open spec fn rest(worker: WorkerView) -> (WorkerView, ActionView) {
    (
        WorkerView { phase: Phase::Sleep, ..worker },
        ActionView::Sleep { seconds: worker.config.interval },
    )
}

/// The end of a batch that failed: what the writer was given is rolled
/// back.
pub open spec fn abandon(worker: WorkerView) -> (WorkerView, ActionView) {
    (WorkerView { phase: Phase::Rollback, ..worker }, ActionView::Rollback)
}

/// What the worker makes of a page of rows. Without rows the cursor is
/// exhausted and the batch is committed. Rows in order give their documents
/// to the writer; one row in error fails the batch.
pub open spec fn page_spec(
    worker: WorkerView,
    table: Seq<FieldEntryView>,
    rows: Seq<Seq<Option<SourceValueView>>>,
) -> (WorkerView, ActionView) {
    if rows.len() == 0 {
        (WorkerView { phase: Phase::Commit, ..worker }, ActionView::Commit)
    } else {
        match rows_spec(
            table,
            worker.config.datasource.key,
            worker.config.schema,
            rows,
            rows.len() as int,
        ) {
            Ok(batch) => (
                WorkerView {
                    phase: Phase::IngestBatch,
                    keys: worker.keys + batch.keys,
                    ..worker
                },
                ActionView::Add { documents: batch.documents },
            ),
            Err(_) => abandon(worker),
        }
    }
}

/// The worker after an event, and what it asks for.
///
/// An event that the phase does not wait for ends the cycle like a failure.
pub open spec fn step_spec(worker: WorkerView, table: Seq<FieldEntryView>, event: EventView) -> (
    WorkerView,
    ActionView,
) {
    match (worker.phase, event) {
        (Phase::Idle, EventView::Wake) | (Phase::Sleep, EventView::Wake) => (
            WorkerView { phase: Phase::Connect, keys: Seq::empty(), ..worker },
            ActionView::Connect { after: worker.state.last_key },
        ),
        (Phase::Connect, EventView::Done) => (
            WorkerView { phase: Phase::FetchBatch, ..worker },
            ActionView::Fetch { rows: PAGE_ROWS },
        ),
        (Phase::FetchBatch, EventView::Page(rows)) => page_spec(worker, table, rows),
        (Phase::IngestBatch, EventView::Done) => (
            WorkerView { phase: Phase::FetchBatch, ..worker },
            ActionView::Fetch { rows: PAGE_ROWS },
        ),
        (Phase::Commit, EventView::Done) => match advance_spec(worker.state, max_key(worker.keys)) {
            Some(next) => (
                WorkerView { phase: Phase::Checkpoint, ..worker },
                ActionView::Store { state: next },
            ),
            None => rest(worker),
        },
        (Phase::Checkpoint, EventView::Done) => match advance_spec(
            worker.state,
            max_key(worker.keys),
        ) {
            Some(next) => rest(WorkerView { state: next, ..worker }),
            None => rest(worker),
        },
        (Phase::FetchBatch, _) | (Phase::IngestBatch, _) => abandon(worker),
        _ => rest(worker),
    }
}

/// The worker after a sequence of events.
pub open spec fn run_spec(worker: WorkerView, table: Seq<FieldEntryView>, events: Seq<EventView>)
    -> WorkerView
    decreases events.len(),
{
    if events.len() == 0 {
        worker
    } else {
        step_spec(run_spec(worker, table, events.drop_last()), table, events.last()).0
    }
}

/// A checkpoint is stored only when the engine has committed the batch, and
/// it is the larger of the checkpoint before and the largest key of the
/// batch.
pub proof fn law_store_follows_commit(
    worker: WorkerView,
    table: Seq<FieldEntryView>,
    event: EventView,
)
    ensures
        step_spec(worker, table, event).1 matches ActionView::Store { state } ==> worker.phase
            == Phase::Commit && event is Done && advance_spec(worker.state, max_key(worker.keys))
            == Some(state) && state.last_key >= worker.state.last_key,
{
}

/// The checkpoint of the worker moves only when the store has taken the new
/// one, and never back.
pub proof fn law_checkpoint_moves_when_stored(
    worker: WorkerView,
    table: Seq<FieldEntryView>,
    event: EventView,
)
    ensures
        step_spec(worker, table, event).0.state.last_key >= worker.state.last_key,
        step_spec(worker, table, event).0.state != worker.state ==> worker.phase
            == Phase::Checkpoint && event is Done,
{
}

/// Whatever the events, the checkpoint never moves back.
pub proof fn law_checkpoint_never_falls(
    worker: WorkerView,
    table: Seq<FieldEntryView>,
    events: Seq<EventView>,
)
    ensures
        run_spec(worker, table, events).state.last_key >= worker.state.last_key,
    decreases events.len(),
{
    if events.len() > 0 {
        law_checkpoint_never_falls(worker, table, events.drop_last());
        law_checkpoint_moves_when_stored(
            run_spec(worker, table, events.drop_last()),
            table,
            events.last(),
        );
    }
}

/// After a failure nothing is added, committed or stored: the batch is
/// rolled back or the cycle ends.
pub proof fn law_failure_ends_the_cycle(worker: WorkerView, table: Seq<FieldEntryView>)
    ensures
        step_spec(worker, table, EventView::Failed).1 is Rollback || step_spec(
            worker,
            table,
            EventView::Failed,
        ).1 is Sleep,
        step_spec(worker, table, EventView::Failed).0.state == worker.state,
{
}

/// A page with a row in error gives the writer nothing and rolls the batch
/// back.
pub proof fn law_bad_row_rolls_back(
    worker: WorkerView,
    table: Seq<FieldEntryView>,
    rows: Seq<Seq<Option<SourceValueView>>>,
)
    requires
        worker.phase == Phase::FetchBatch,
        rows_spec(
            table,
            worker.config.datasource.key,
            worker.config.schema,
            rows,
            rows.len() as int,
        ) is Err,
    ensures
        step_spec(worker, table, EventView::Page(rows)).1 is Rollback,
        step_spec(worker, table, EventView::Page(rows)).0.phase == Phase::Rollback,
{
}

/// A batch is committed only when the cursor is exhausted.
pub proof fn law_commit_follows_the_last_page(
    worker: WorkerView,
    table: Seq<FieldEntryView>,
    event: EventView,
)
    ensures
        step_spec(worker, table, event).1 is Commit ==> worker.phase == Phase::FetchBatch && (
        event matches EventView::Page(rows) && rows.len() == 0),
{
}

/// A cycle that finds no rows gives the writer nothing and stores nothing:
/// it connects, fetches, commits the empty batch and sleeps, and the
/// checkpoint stays.
pub proof fn law_cycle_without_rows(worker: WorkerView, table: Seq<FieldEntryView>)
    requires
        worker.phase == Phase::Sleep || worker.phase == Phase::Idle,
    ensures
        ({
            let connect = step_spec(worker, table, EventView::Wake);
            let fetch = step_spec(connect.0, table, EventView::Done);
            let commit = step_spec(fetch.0, table, EventView::Page(Seq::empty()));
            let sleep = step_spec(commit.0, table, EventView::Done);
            &&& connect.1 == ActionView::Connect { after: worker.state.last_key }
            &&& fetch.1 == ActionView::Fetch { rows: PAGE_ROWS }
            &&& commit.1 == ActionView::Commit
            &&& sleep.1 == ActionView::Sleep { seconds: worker.config.interval }
            &&& sleep.0.phase == Phase::Sleep
            &&& sleep.0.state == worker.state
        }),
{
}

impl Worker {
    /// A worker that has not begun, with the checkpoint that was found
    /// stored, if any.
    pub fn new(config: &ConfigRef, stored: Option<State>) -> (worker: Worker)
        ensures
            worker@ == (WorkerView {
                config: config@,
                phase: Phase::Idle,
                state: state_of(stored),
                keys: Seq::empty(),
            }),
    {
        Worker {
            config: config.clone(),
            phase: Phase::Idle,
            state: super::postgres::read_state(stored),
            ingest: Ingest::new(),
        }
    }

    /// The phase.
    pub fn phase(&self) -> (phase: Phase)
        ensures
            phase == self@.phase,
    {
        self.phase
    }

    /// The checkpoint that is known to be stored.
    pub fn state(&self) -> (state: State)
        ensures
            state == self@.state,
    {
        self.state
    }

    /// The end of a cycle.
    fn rest(&mut self) -> (action: Action)
        ensures
            (final(self)@, action@) == rest(old(self)@),
    {
        self.phase = Phase::Sleep;
        Action::Sleep { seconds: self.config.interval() }
    }

    /// The end of a batch that failed.
    fn abandon(&mut self) -> (action: Action)
        ensures
            (final(self)@, action@) == abandon(old(self)@),
    {
        self.phase = Phase::Rollback;
        Action::Rollback
    }

    /// Takes a page of rows.
    fn page(&mut self, table: &FieldTable, rows: &Vec<SourceRow>) -> (action: Action)
        ensures
            (final(self)@, action@) == page_spec(old(self)@, table@, row_views(rows@)),
    {
        if rows.len() == 0 {
            self.phase = Phase::Commit;
            return Action::Commit;
        }
        let key_name = self.config.datasource().key();
        let config_schema = self.config.schema();
        match self.ingest.page(table, key_name, config_schema, rows.as_slice()) {
            Ok(documents) => {
                self.phase = Phase::IngestBatch;
                Action::Add { documents }
            },
            Err(_) => self.abandon(),
        }
    }

    /// Takes an event and answers what is to be done next.
    pub fn step(&mut self, event: Event, table: &FieldTable) -> (action: Action)
        ensures
            (final(self)@, action@) == step_spec(old(self)@, table@, event@),
    {
        match (self.phase, event) {
            (Phase::Idle, Event::Wake) | (Phase::Sleep, Event::Wake) => {
                self.phase = Phase::Connect;
                self.ingest = Ingest::new();
                Action::Connect { after: self.state.last_key }
            },
            (Phase::Connect, Event::Done) => {
                self.phase = Phase::FetchBatch;
                Action::Fetch { rows: PAGE_ROWS }
            },
            (Phase::FetchBatch, Event::Page(rows)) => self.page(table, &rows),
            (Phase::IngestBatch, Event::Done) => {
                self.phase = Phase::FetchBatch;
                Action::Fetch { rows: PAGE_ROWS }
            },
            (Phase::Commit, Event::Done) => match self.state.advance(self.ingest.last_key()) {
                Some(next) => {
                    self.phase = Phase::Checkpoint;
                    Action::Store { state: next }
                },
                None => self.rest(),
            },
            (Phase::Checkpoint, Event::Done) => {
                match self.state.advance(self.ingest.last_key()) {
                    Some(next) => {
                        self.state = next;
                    },
                    None => {},
                }
                self.rest()
            },
            (Phase::FetchBatch, _) | (Phase::IngestBatch, _) => self.abandon(),
            _ => self.rest(),
        }
    }
}

} // verus!
