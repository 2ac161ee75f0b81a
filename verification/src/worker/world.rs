//! The worker in its world.
//!
//! The world of the worker is what persists outside it: the index and the
//! stored checkpoint. The laws below are stated over a model of that world,
//! in which the engine and the store do what they are told: the writer
//! holds the documents it was given, a commit publishes them, a rollback
//! forgets them, a checkpoint that was stored is the one that is found, and
//! an index that is created anew is empty. An action that fails is taken to
//! have done nothing.

use super::machine::step_spec;
use super::machine::ActionView;
use super::machine::EventView;
use super::machine::Phase;
use super::machine::WorkerView;
use super::postgres::advance_spec;
use super::postgres::lemma_max_key_concat;
use super::postgres::max_key;
use super::postgres::rows_spec;
use super::postgres::SourceValueView;
use super::postgres::state_of;
use super::postgres::State;
use crate::config::ConfigView;
use crate::index::mode_for;
use crate::index::FieldEntryView;
use crate::index::IndexView;
use crate::index::WriteAction;
use vstd::prelude::*;

verus! {

/// What persists outside the worker: the index, the keys of the rows whose
/// documents readers see, the keys of the rows whose documents the writer
/// holds, and the stored checkpoint (`None` where none is stored).
pub struct WorldView {
    pub index: IndexView,
    pub visible_keys: Seq<i64>,
    pub staged_keys: Seq<i64>,
    pub checkpoint: Option<State>,
}

/// The worker, its world, and the action that the worker has asked for and
/// that has not been answered yet.
pub struct SystemView {
    pub worker: WorkerView,
    pub world: WorldView,
    pub pending: Option<ActionView>,
}

/// Whether the stored checkpoint is removed at the start: exactly when a
/// rebuild is asked for and a checkpoint is stored.
pub open spec fn discards(new_index: bool, stored: bool) -> bool {
    new_index && stored
}

/// The world after the start of the program.
pub open spec fn after_start(world: WorldView, new_index: bool) -> WorldView {
    WorldView {
        index: world.index.open(mode_for(new_index)),
        visible_keys: if new_index {
            Seq::empty()
        } else {
            world.visible_keys
        },
        staged_keys: Seq::empty(),
        checkpoint: if discards(new_index, world.checkpoint is Some) {
            None
        } else {
            world.checkpoint
        },
    }
}

/// The world after the action `pending` was answered with `event`. Only an
/// action that is done changes the world.
pub open spec fn performed(
    world: WorldView,
    worker: WorkerView,
    pending: ActionView,
    event: EventView,
) -> WorldView {
    match (pending, event) {
        (ActionView::Add { documents }, EventView::Done) => WorldView {
            index: world.index.stage(documents),
            staged_keys: worker.keys,
            ..world
        },
        (ActionView::Commit, EventView::Done) => WorldView {
            index: world.index.apply(WriteAction::Commit),
            visible_keys: world.visible_keys + world.staged_keys,
            staged_keys: Seq::empty(),
            ..world
        },
        (ActionView::Rollback, EventView::Done) => WorldView {
            index: world.index.apply(WriteAction::Rollback),
            staged_keys: Seq::empty(),
            ..world
        },
        (ActionView::Store { state }, EventView::Done) => WorldView {
            checkpoint: Some(state),
            ..world
        },
        _ => world,
    }
}

/// The system after an event: the world after the pending action, and the
/// worker after the event, with what it asks for next.
pub open spec fn system_step(system: SystemView, table: Seq<FieldEntryView>, event: EventView)
    -> SystemView {
    SystemView {
        worker: step_spec(system.worker, table, event).0,
        world: match system.pending {
            Some(pending) => performed(system.world, system.worker, pending, event),
            None => system.world,
        },
        pending: Some(step_spec(system.worker, table, event).1),
    }
}

/// The system after a sequence of events.
pub open spec fn system_run(system: SystemView, table: Seq<FieldEntryView>, events: Seq<EventView>)
    -> SystemView
    decreases events.len(),
{
    if events.len() == 0 {
        system
    } else {
        system_step(system_run(system, table, events.drop_last()), table, events.last())
    }
}

/// Whether `event` can answer the pending action in a world where the
/// engine does not fail: the worker is woken when it sleeps or has not
/// begun, rows come from a fetch, and a commit or a rollback is done.
pub open spec fn answers(pending: Option<ActionView>, event: EventView) -> bool {
    match pending {
        None => event is Wake,
        Some(ActionView::Sleep { .. }) => event is Wake,
        Some(ActionView::Fetch { .. }) => event is Page || event is Failed,
        Some(ActionView::Commit) => event is Done,
        Some(ActionView::Rollback) => event is Done,
        Some(_) => event is Done || event is Failed,
    }
}

/// Whether every event answers the action that is pending when it comes.
pub open spec fn all_answer(system: SystemView, table: Seq<FieldEntryView>, events: Seq<EventView>)
    -> bool
    decreases events.len(),
{
    events.len() > 0 ==> all_answer(system, table, events.drop_last()) && answers(
        system_run(system, table, events.drop_last()).pending,
        events.last(),
    )
}

/// Whether no store of a checkpoint fails among the events.
pub open spec fn all_stored(system: SystemView, table: Seq<FieldEntryView>, events: Seq<EventView>)
    -> bool
    decreases events.len(),
{
    events.len() > 0 ==> all_stored(system, table, events.drop_last()) && (system_run(
        system,
        table,
        events.drop_last(),
    ).pending matches Some(ActionView::Store { .. }) ==> events.last() is Done)
}

/// The largest of the keys, or the least key there is where there is none.
pub open spec fn high_water(keys: Seq<i64>) -> i64 {
    match max_key(keys) {
        Some(key) => key,
        None => i64::MIN,
    }
}

/// The action that a phase waits for.
pub open spec fn awaited(worker: WorkerView, pending: Option<ActionView>) -> bool {
    match worker.phase {
        Phase::Idle => pending is None,
        Phase::Connect => pending == Some(ActionView::Connect { after: worker.state.last_key }),
        Phase::FetchBatch => pending is Some && pending->0 is Fetch,
        Phase::IngestBatch => pending is Some && pending->0 is Add,
        Phase::Commit => pending == Some(ActionView::Commit),
        Phase::Rollback => pending == Some(ActionView::Rollback),
        Phase::Checkpoint => advance_spec(worker.state, max_key(worker.keys)) is Some && pending
            == Some(
            ActionView::Store { state: advance_spec(worker.state, max_key(worker.keys))->0 },
        ),
        Phase::Sleep => pending is Some && pending->0 is Sleep,
    }
}

/// What the writer holds in a phase: the batch while it is fetched and
/// committed, nothing outside a batch. A batch begins without rows.
pub open spec fn writer_in_step(system: SystemView) -> bool {
    match system.worker.phase {
        Phase::FetchBatch | Phase::Commit => system.world.staged_keys =~= system.worker.keys,
        Phase::IngestBatch | Phase::Rollback => true,
        Phase::Connect => system.world.staged_keys.len() == 0 && system.world.index.staged.len()
            == 0 && system.worker.keys.len() == 0,
        _ => system.world.staged_keys.len() == 0 && system.world.index.staged.len() == 0,
    }
}

/// The checkpoint that is being stored has not passed the largest committed
/// key either.
pub open spec fn store_in_step(system: SystemView) -> bool {
    system.worker.phase == Phase::Checkpoint ==> advance_spec(
        system.worker.state,
        max_key(system.worker.keys),
    )->0.last_key <= high_water(system.world.visible_keys)
}

/// Whether the system is in order: the pending action is the one that the
/// phase waits for, the writer holds what the phase says, the worker knows
/// the stored checkpoint, and the checkpoint has not passed the largest
/// committed key.
pub open spec fn in_order(system: SystemView) -> bool {
    &&& awaited(system.worker, system.pending)
    &&& writer_in_step(system)
    &&& store_in_step(system)
    &&& system.worker.state == state_of(system.world.checkpoint)
    &&& system.worker.state.last_key <= high_water(system.world.visible_keys)
}

/// Whether the checkpoint is level with the commits: it is the largest
/// committed key, or, while a new checkpoint is being stored, the new one
/// is.
pub open spec fn level(system: SystemView) -> bool {
    if system.worker.phase == Phase::Checkpoint {
        advance_spec(system.worker.state, max_key(system.worker.keys))->0.last_key == high_water(
            system.world.visible_keys,
        )
    } else {
        system.worker.state.last_key == high_water(system.world.visible_keys)
    }
}

/// The system after the start of the program: the world after the start,
/// and a worker that has not begun and holds the checkpoint that is found
/// stored.
pub open spec fn started(config: ConfigView, world: WorldView, new_index: bool) -> SystemView {
    SystemView {
        worker: WorkerView {
            config,
            phase: Phase::Idle,
            state: state_of(after_start(world, new_index).checkpoint),
            keys: Seq::empty(),
        },
        world: after_start(world, new_index),
        pending: None,
    }
}

/// One event keeps the system in order.
pub proof fn lemma_step_in_order(system: SystemView, table: Seq<FieldEntryView>, event: EventView)
    requires
        in_order(system),
        answers(system.pending, event),
    ensures
        in_order(system_step(system, table, event)),
        level(system) && (system.pending matches Some(ActionView::Store { .. }) ==> event is Done)
            ==> level(system_step(system, table, event)),
{
    let next = system_step(system, table, event);
    if system.worker.phase == Phase::Commit {
        lemma_max_key_concat(system.world.visible_keys, system.world.staged_keys);
    }
}

/// Whatever the events, as long as each answers the pending action, the
/// system stays in order: the checkpoint that the worker holds is the
/// stored one, and it never passes the largest committed key.
pub proof fn law_checkpoint_never_passes_commits(
    system: SystemView,
    table: Seq<FieldEntryView>,
    events: Seq<EventView>,
)
    requires
        in_order(system),
        all_answer(system, table, events),
    ensures
        in_order(system_run(system, table, events)),
        system_run(system, table, events).worker.state == state_of(
            system_run(system, table, events).world.checkpoint,
        ),
        system_run(system, table, events).worker.state.last_key <= high_water(
            system_run(system, table, events).world.visible_keys,
        ),
    decreases events.len(),
{
    if events.len() > 0 {
        law_checkpoint_never_passes_commits(system, table, events.drop_last());
        lemma_step_in_order(system_run(system, table, events.drop_last()), table, events.last());
    }
}

/// Where no store of a checkpoint fails, the checkpoint is level with the
/// commits after every sequence of events: between two cycles the stored
/// checkpoint is the largest committed key.
pub proof fn law_checkpoint_is_largest_committed_key(
    system: SystemView,
    table: Seq<FieldEntryView>,
    events: Seq<EventView>,
)
    requires
        in_order(system),
        level(system),
        all_answer(system, table, events),
        all_stored(system, table, events),
    ensures
        in_order(system_run(system, table, events)),
        level(system_run(system, table, events)),
        system_run(system, table, events).worker.phase == Phase::Sleep ==> state_of(
            system_run(system, table, events).world.checkpoint,
        ).last_key == high_water(system_run(system, table, events).world.visible_keys),
    decreases events.len(),
{
    if events.len() > 0 {
        law_checkpoint_is_largest_committed_key(system, table, events.drop_last());
        lemma_step_in_order(system_run(system, table, events.drop_last()), table, events.last());
    }
}

/// Whatever the events, the stored checkpoint never moves back.
pub proof fn law_stored_checkpoint_never_moves_back(
    system: SystemView,
    table: Seq<FieldEntryView>,
    events: Seq<EventView>,
)
    requires
        in_order(system),
        all_answer(system, table, events),
    ensures
        state_of(system_run(system, table, events).world.checkpoint).last_key >= state_of(
            system.world.checkpoint,
        ).last_key,
    decreases events.len(),
{
    if events.len() > 0 {
        law_stored_checkpoint_never_moves_back(system, table, events.drop_last());
        law_checkpoint_never_passes_commits(system, table, events.drop_last());
        lemma_step_in_order(system_run(system, table, events.drop_last()), table, events.last());
        super::machine::law_checkpoint_moves_when_stored(
            system_run(system, table, events.drop_last()).worker,
            table,
            events.last(),
        );
    }
}

/// What readers see changes only when a commit is done.
pub proof fn law_only_a_commit_shows(
    system: SystemView,
    table: Seq<FieldEntryView>,
    event: EventView,
)
    ensures
        system_step(system, table, event).world.index.visible != system.world.index.visible
            ==> system.pending == Some(ActionView::Commit) && event is Done,
        system_step(system, table, event).world.visible_keys != system.world.visible_keys
            ==> system.pending == Some(ActionView::Commit) && event is Done,
{
}

/// A batch that is rolled back shows readers nothing: they see what they
/// saw, the writer holds nothing, and the checkpoint stays.
pub proof fn law_rolled_back_batch_shows_nothing(system: SystemView, table: Seq<FieldEntryView>)
    requires
        in_order(system),
        system.worker.phase == Phase::Rollback,
    ensures
        system_step(system, table, EventView::Done).world.index.visible
            == system.world.index.visible,
        system_step(system, table, EventView::Done).world.index.staged.len() == 0,
        system_step(system, table, EventView::Done).world.visible_keys == system.world.visible_keys,
        system_step(system, table, EventView::Done).world.checkpoint == system.world.checkpoint,
        system_step(system, table, EventView::Done).worker.phase == Phase::Sleep,
{
}

/// A batch with a row in error shows readers nothing, whatever the writer
/// was given before that row: the batch is rolled back, readers see what
/// they saw, the writer holds nothing, and the checkpoint stays.
pub proof fn law_failed_batch_shows_nothing(
    system: SystemView,
    table: Seq<FieldEntryView>,
    rows: Seq<Seq<Option<SourceValueView>>>,
)
    requires
        in_order(system),
        system.worker.phase == Phase::FetchBatch,
        rows_spec(
            table,
            system.worker.config.datasource.key,
            system.worker.config.schema,
            rows,
            rows.len() as int,
        ) is Err,
    ensures
        ({
            let failed = system_step(system, table, EventView::Page(rows));
            let after = system_step(failed, table, EventView::Done);
            &&& failed.pending == Some(ActionView::Rollback)
            &&& after.world.index.visible == system.world.index.visible
            &&& after.world.index.staged.len() == 0
            &&& after.world.visible_keys == system.world.visible_keys
            &&& after.world.checkpoint == system.world.checkpoint
            &&& after.worker.state == system.worker.state
            &&& after.worker.phase == Phase::Sleep
            &&& in_order(after)
        }),
{
}

/// A cycle that finds no new rows changes nothing, however often it runs:
/// readers see what they saw and the checkpoint stays.
pub proof fn law_cycle_without_rows_changes_nothing(
    system: SystemView,
    table: Seq<FieldEntryView>,
    times: nat,
)
    requires
        in_order(system),
        system.worker.phase == Phase::Sleep || system.worker.phase == Phase::Idle,
    ensures
        in_order(idle_cycles(system, table, times)),
        idle_cycles(system, table, times).world.index.visible == system.world.index.visible,
        idle_cycles(system, table, times).world.visible_keys == system.world.visible_keys,
        idle_cycles(system, table, times).world.checkpoint == system.world.checkpoint,
        idle_cycles(system, table, times).worker.state == system.worker.state,
        times > 0 ==> idle_cycles(system, table, times).worker.phase == Phase::Sleep,
    decreases times,
{
    if times > 0 {
        law_cycle_without_rows_changes_nothing(system, table, (times - 1) as nat);
        let before = idle_cycles(system, table, (times - 1) as nat);
        let connect = system_step(before, table, EventView::Wake);
        let fetch = system_step(connect, table, EventView::Done);
        let commit = system_step(fetch, table, EventView::Page(Seq::empty()));
        let sleep = system_step(commit, table, EventView::Done);
        assert(in_order(connect));
        assert(in_order(fetch));
        assert(in_order(commit));
        assert(commit.world.index.staged.len() == 0);
        assert(sleep.world.index.visible =~= before.world.index.visible);
        assert(sleep.world.visible_keys =~= before.world.visible_keys);
        assert(in_order(sleep));
    }
}

/// The system after so many cycles in which the source has no new rows:
/// the worker wakes, connects, fetches an empty page and commits.
pub open spec fn idle_cycles(system: SystemView, table: Seq<FieldEntryView>, times: nat)
    -> SystemView
    decreases times,
{
    if times == 0 {
        system
    } else {
        system_step(
            system_step(
                system_step(
                    system_step(
                        idle_cycles(system, table, (times - 1) as nat),
                        table,
                        EventView::Wake,
                    ),
                    table,
                    EventView::Done,
                ),
                table,
                EventView::Page(Seq::empty()),
            ),
            table,
            EventView::Done,
        )
    }
}

/// After a start with the rebuild flag the index is empty and no checkpoint
/// is stored, whatever was there before: the first cycle starts from the
/// initial checkpoint, and the system is in order and level.
pub proof fn law_rebuild_starts_from_nothing(config: ConfigView, world: WorldView)
    ensures
        started(config, world, true).world.index.visible.len() == 0,
        started(config, world, true).world.index.staged.len() == 0,
        started(config, world, true).world.visible_keys.len() == 0,
        started(config, world, true).world.checkpoint is None,
        started(config, world, true).worker.state == (State { last_key: i64::MIN }),
        in_order(started(config, world, true)),
        level(started(config, world, true)),
{
}

/// A start without the rebuild flag keeps what readers see and the stored
/// checkpoint, and the system is in order where the checkpoint had not
/// passed the commits.
pub proof fn law_restart_keeps_the_world(config: ConfigView, world: WorldView)
    requires
        state_of(world.checkpoint).last_key <= high_water(world.visible_keys),
    ensures
        started(config, world, false).world.index.visible == world.index.visible,
        started(config, world, false).world.visible_keys == world.visible_keys,
        started(config, world, false).world.checkpoint == world.checkpoint,
        in_order(started(config, world, false)),
{
}

/// Decides what the start does to the stored checkpoint: with the rebuild
/// flag a checkpoint that exists is removed, without it the checkpoint
/// stays.
pub fn start(new_index: bool, state_file_exists: bool) -> (remove: bool)
    ensures
        remove == discards(new_index, state_file_exists),
{
    new_index && state_file_exists
}

} // verus!
