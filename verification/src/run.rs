//! A run as a whole: the pipeline of the run reports to the supervisor that
//! admitted it, step by step.

use vstd::prelude::*;
use crate::errors::FetchError;
use crate::pipeline::birth_year_text;
use crate::pipeline::reading_of;
use crate::pipeline::unit_end;
use crate::pipeline::lemma_advance;
use crate::pipeline::lemma_unit_end;
use crate::pipeline::Action;
use crate::pipeline::ActionView;
use crate::pipeline::Event;
use crate::pipeline::EventView;
use crate::pipeline::Phase;
use crate::pipeline::Pipeline;
use crate::pipeline::PipelineView;
use crate::player::parsed_player;
use crate::player::UNKNOWN_BIRTH_YEAR;
use crate::supervisor::AlreadyRunning;
use crate::supervisor::JobHandle;
use crate::supervisor::Supervisor;
use crate::supervisor::SupervisorView;
use crate::work::same_unit;
use crate::work::WorkItem;

verus! {

/// The supervisor after the run `generation` has taken one step from `state`
/// on `event`: the lines of the step are in the log, and the counters are
/// the cursor and the number of items.
pub open spec fn driven(
    supervisor: SupervisorView,
    generation: u64,
    state: PipelineView,
    event: EventView,
) -> SupervisorView {
    let step = state.advance(event);
    supervisor.reported(
        generation,
        step.lines,
        step.state.cursor as usize,
        step.state.items.len() as usize,
    )
}

/// The pipeline after a run of events.
pub open spec fn state_after(state: PipelineView, events: Seq<EventView>) -> PipelineView
    decreases events.len(),
{
    if events.len() == 0 {
        state
    } else {
        state_after(state, events.drop_last()).advance(events.last()).state
    }
}

/// The supervisor after a run of events has been taken by the pipeline and
/// reported.
pub open spec fn supervisor_after(
    supervisor: SupervisorView,
    generation: u64,
    state: PipelineView,
    events: Seq<EventView>,
) -> SupervisorView
    decreases events.len(),
{
    if events.len() == 0 {
        supervisor
    } else {
        driven(
            supervisor_after(supervisor, generation, state, events.drop_last()),
            generation,
            state_after(state, events.drop_last()),
            events.last(),
        )
    }
}

/// The record of the run `generation` shows the progress of the pipeline.
pub open spec fn in_step(supervisor: SupervisorView, generation: u64, state: PipelineView) -> bool {
    &&& supervisor.owns(generation)
    &&& supervisor.current->0.progress == state.cursor
    &&& supervisor.current->0.max == state.items.len()
}

/// Asks the supervisor for a run of `pipeline` under `title`. The record of
/// an admitted run counts the items of the pipeline.
pub fn start_run(supervisor: &mut Supervisor, title: &str, pipeline: &Pipeline) -> (r: Result<
    JobHandle,
    AlreadyRunning,
>)
    ensures
        final(supervisor)@ == old(supervisor)@.started(title@, pipeline@.items.len() as usize),
        r is Ok <==> !old(supervisor)@.running(),
        r matches Ok(handle) ==> final(supervisor)@.owns(handle.generation()),
        r is Ok && pipeline@.cursor == 0 ==> in_step(
            final(supervisor)@,
            r->Ok_0.generation(),
            pipeline@,
        ),
{
    supervisor.try_start(title, pipeline.max())
}

/// Lets the pipeline take one step on `event` and reports the step to the
/// supervisor in the name of `handle`. Returns what is to be done next.
pub fn drive(
    supervisor: &mut Supervisor,
    handle: &JobHandle,
    pipeline: &mut Pipeline,
    event: Event,
) -> (r: Action)
    ensures
        old(pipeline)@.wf() ==> final(pipeline)@.wf(),
        final(pipeline)@ == old(pipeline)@.advance(event@).state,
        r@ == old(pipeline)@.advance(event@).action,
        final(supervisor)@ == driven(
            old(supervisor)@,
            handle.generation(),
            old(pipeline)@,
            event@,
        ),
{
    let step = pipeline.step(event);
    supervisor.report(handle, step.lines, pipeline.progress(), pipeline.max());
    step.action
}

/// The pipeline stays in a state that a run can be in, with the items it
/// began with.
pub proof fn lemma_state_after(state: PipelineView, events: Seq<EventView>)
    requires
        state.wf(),
    ensures
        state_after(state, events).wf(),
        state_after(state, events).items == state.items,
        state_after(state, events).force == state.force,
        state.cursor <= state_after(state, events).cursor,
    decreases events.len(),
{
    if events.len() > 0 {
        lemma_state_after(state, events.drop_last());
        lemma_advance(state_after(state, events.drop_last()), events.last());
    }
}

/// Progress. Whatever happens outside, after every step of a run the record
/// of the run shows a progress that is no smaller than before the step and
/// no larger than the number of items, which stays what it was; and the log
/// before the step is the beginning of the log after it.
pub proof fn lemma_progress(
    supervisor: SupervisorView,
    generation: u64,
    state: PipelineView,
    events: Seq<EventView>,
)
    requires
        state.wf(),
        in_step(supervisor, generation, state),
    ensures
        in_step(
            supervisor_after(supervisor, generation, state, events),
            generation,
            state_after(state, events),
        ),
        events.len() > 0 ==> ({
            let before = supervisor_after(
                supervisor,
                generation,
                state,
                events.drop_last(),
            ).current->0;
            let after = supervisor_after(supervisor, generation, state, events).current->0;
            &&& before.progress <= after.progress <= after.max
            &&& after.max == before.max
            &&& after.max == state.items.len()
            &&& before.log.is_prefix_of(after.log)
            &&& after.title == before.title
        }),
    decreases events.len(),
{
    if events.len() > 0 {
        let earlier = events.drop_last();
        lemma_progress(supervisor, generation, state, earlier);
        lemma_state_after(state, earlier);
        lemma_advance(state_after(state, earlier), events.last());
    }
}

/// A failed item is passed over. When the page of an item cannot be fetched
/// or read, the step logs the failure first, moves the cursor past the item,
/// leaves the items as they are, adds nothing to the batch, and ends the run
/// only if the item was the last.
pub proof fn lemma_failure_is_skipped(state: PipelineView, fetched: Result<Seq<char>, FetchError>)
    requires
        state.wf(),
        state.phase is Processing,
        !reading_of(state.items[state.cursor], fetched).ok,
    ensures
        ({
            let item = state.items[state.cursor];
            let step = state.advance(EventView::Fetched(fetched));
            &&& step.state.cursor == state.cursor + 1
            &&& step.state.items == state.items
            &&& step.lines.len() >= 1
            &&& step.lines[0] == reading_of(item, fetched).lines[0]
            &&& step.state.phase is Done ==> state.cursor + 1 == state.items.len()
            &&& state.cursor + 1 < state.items.len() && same_unit(
                item,
                state.items[state.cursor + 1],
            ) ==> step.state.players == state.players && step.state.placements
                == state.placements
            &&& step.action matches ActionView::PersistPlayers(batch) ==> batch == state.players
            &&& step.action matches ActionView::PersistRanking { placements, .. } ==> placements
                == state.placements
        }),
{
}

/// A birth year that is no number costs the profile nothing but the year.
/// When the page of a player can be read but for its birth year, the step
/// logs exactly one line, the warning, and the profile, with the year
/// unknown, is the last of the batch, whether the batch stays or is handed
/// out for storing.
pub proof fn lemma_birth_year_is_soft(state: PipelineView, page: Seq<char>)
    requires
        state.wf(),
        state.phase is Processing,
        state.items[state.cursor] matches WorkItem::Player { itsf_id } && (parsed_player(
            itsf_id,
            page,
        ) matches Ok(parsed) && parsed.unread_birth_year is Some),
    ensures
        ({
            let item = state.items[state.cursor];
            let parsed = parsed_player(item->itsf_id, page)->Ok_0;
            let step = state.advance(EventView::Fetched(Ok(page)));
            &&& parsed.profile.birth_year == UNKNOWN_BIRTH_YEAR
            &&& step.lines == seq![birth_year_text(item, parsed.unread_birth_year->0)]
            &&& step.state.cursor == state.cursor + 1
            &&& step.action is Fetch ==> step.state.players == state.players.push(parsed.profile)
            &&& !(step.action is Fetch) ==> step.action == ActionView::PersistPlayers(
                state.players.push(parsed.profile),
            )
        }),
{
    let item = state.items[state.cursor];
    let parsed = parsed_player(item->itsf_id, page)->Ok_0;
    assert(state.players + seq![parsed.profile] == state.players.push(parsed.profile));
}

/// What is stored is not fetched again. When the store has the unit at the
/// cursor, the step skips every item of the unit: the cursor moves to the end
/// of the unit, and if a fetch is asked for next, it is for another unit.
/// A pipeline that is forced never asks the store, and fetches.
pub proof fn lemma_stored_is_skipped(state: PipelineView)
    requires
        state.wf(),
    ensures
        state.phase is CheckingStore ==> ({
            let step = state.advance(EventView::Exists(true));
            &&& step.state.cursor == unit_end(state.items, state.cursor)
            &&& step.state.cursor > state.cursor
            &&& forall|k: int|
                state.cursor <= k < step.state.cursor ==> same_unit(
                    state.items[state.cursor],
                    #[trigger] state.items[k],
                )
            &&& step.action matches ActionView::Fetch(next) ==> !same_unit(
                state.items[state.cursor],
                next,
            )
        }),
        state.phase is CheckingStore ==> state.advance(EventView::Exists(false)).action
            == ActionView::Fetch(state.items[state.cursor]),
        !state.force ==> (state.enter().1 matches ActionView::Fetch(item) ==> item is Player),
        state.force && state.cursor < state.items.len() ==> state.enter().1 == ActionView::Fetch(
            state.items[state.cursor],
        ),
{
    if state.phase is CheckingStore {
        lemma_unit_end(state.items, state.cursor);
    }
}

/// A forced run never asks the store whether a list is there: whatever
/// happens, its next action is no such question, so that every list of the
/// run is fetched again and handed out for storing as it was read.
pub proof fn lemma_forced_run_never_asks(state: PipelineView, event: EventView)
    requires
        state.wf(),
        state.force,
    ensures
        !(state.advance(event).action is CheckStore),
        state.advance(event).state.force,
{
    if state.phase is CheckingStore {
        lemma_unit_end(state.items, state.cursor);
    }
}

/// Whether `event` is an answer that a pipeline in `state` waits for.
pub open spec fn awaited(state: PipelineView, event: EventView) -> bool {
    match (state.phase, event) {
        (Phase::Enumerating, EventView::Start) => true,
        (Phase::CheckingStore, EventView::Exists(_)) => true,
        (Phase::CheckingStore, EventView::StorageUnavailable) => true,
        (Phase::Processing, EventView::Fetched(_)) => true,
        (Phase::Persisting, EventView::Persisted(_)) => true,
        (Phase::Persisting, EventView::StorageUnavailable) => true,
        _ => false,
    }
}

/// A bound on the number of answers that a pipeline in `state` can still
/// take before its run is over.
pub open spec fn steps_left(state: PipelineView) -> int {
    4 * (state.items.len() - state.cursor) + match state.phase {
        Phase::Done => 0int,
        Phase::Processing => 1int,
        Phase::CheckingStore => 2int,
        Phase::Persisting => 3int,
        Phase::Enumerating => 3int,
    }
}

/// Every run ends. Each answer that the pipeline waits for, whatever it
/// says, brings the run nearer to its end; a run over `n` items is over after
/// at most `4 * n + 3` answers, and no answer fails it before.
pub proof fn lemma_run_ends(state: PipelineView, event: EventView)
    requires
        state.wf(),
        awaited(state, event),
    ensures
        0 <= steps_left(state.advance(event).state) < steps_left(state),
        steps_left(state) <= 4 * state.items.len() + 3,
{
    lemma_advance(state, event);
    if state.phase is CheckingStore {
        lemma_unit_end(state.items, state.cursor);
    }
}

} // verus!
