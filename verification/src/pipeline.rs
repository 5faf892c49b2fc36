//! The ingestion pipeline of one run, as a machine that is driven from
//! outside: it is handed what happened, and says what to do next.
//!
//! The items of a run are worked off in order. Consecutive items of one
//! logical unit (the pages of one ranking list, or all player pages) fill one
//! batch, which is handed out for storing when the unit is complete. A page
//! that cannot be fetched or read is logged and passed over; the run goes on
//! and always reaches its end.

use vstd::prelude::*;
use crate::background::lines;
use crate::errors::FetchError;
use crate::player::parse_player;
use crate::player::parsed_player;
use crate::player::PlayerProfile;
use crate::player::PlayerProfileView;
use crate::ranking::parse_ranking_page;
use crate::ranking::parsed_ranking;
use crate::ranking::Placement;
use crate::ranking::RankingQuery;
use crate::storage::PersistOutcome;
use crate::work::same_unit;
use crate::work::label_text;
use crate::work::unit_text;
use crate::work::WorkItem;

verus! {

/// Where a run stands.
#[derive(Clone, Copy, Debug, PartialEq, Eq, Structural)]
pub enum Phase {
    /// The items are laid out; nothing has been asked for yet.
    Enumerating,
    /// The store is being asked whether the next unit is already there.
    CheckingStore,
    /// The page of the next item is being fetched.
    Processing,
    /// The batch of the unit just completed is being stored.
    Persisting,
    /// The run is over.
    Done,
}

/// What happened outside.
#[derive(Debug, PartialEq, Eq)]
pub enum Event {
    /// The task of the run has begun.
    Start,
    /// The store has answered whether the unit asked about is already there.
    Exists(bool),
    /// The fetch asked for has ended, with the page or with an error.
    Fetched(Result<String, FetchError>),
    /// The storing asked for has ended.
    Persisted(PersistOutcome),
    /// The store could not be reached.
    StorageUnavailable,
}

/// An [`Event`] with its page as a character sequence.
pub enum EventView {
    Start,
    Exists(bool),
    Fetched(Result<Seq<char>, FetchError>),
    Persisted(PersistOutcome),
    StorageUnavailable,
}

impl View for Event {
    type V = EventView;

    open spec fn view(&self) -> EventView {
        match self {
            Event::Start => EventView::Start,
            Event::Exists(found) => EventView::Exists(*found),
            Event::Fetched(Ok(page)) => EventView::Fetched(Ok(page@)),
            Event::Fetched(Err(e)) => EventView::Fetched(Err(*e)),
            Event::Persisted(outcome) => EventView::Persisted(*outcome),
            Event::StorageUnavailable => EventView::StorageUnavailable,
        }
    }
}

/// What is to be done outside next.
#[derive(Clone, Debug, PartialEq, Eq)]
pub enum Action {
    /// Ask the store whether this ranking list is already there.
    CheckStore(RankingQuery),
    /// Fetch the page of this item.
    Fetch(WorkItem),
    /// Store these placements as this ranking list, all or nothing.
    PersistRanking { query: RankingQuery, placements: Vec<Placement> },
    /// Store these profiles, each replacing what is stored for its player.
    PersistPlayers(Vec<PlayerProfile>),
    /// End the task: the run is over.
    Finish,
    /// Nothing: the event was not the one waited for, and was ignored.
    Unexpected,
}

/// An [`Action`] with its batch as a sequence.
pub enum ActionView {
    CheckStore(RankingQuery),
    Fetch(WorkItem),
    PersistRanking { query: RankingQuery, placements: Seq<Placement> },
    PersistPlayers(Seq<PlayerProfileView>),
    Finish,
    Unexpected,
}

/// The views of a run of profiles.
pub open spec fn profiles(players: Seq<PlayerProfile>) -> Seq<PlayerProfileView> {
    players.map_values(|p: PlayerProfile| p@)
}

impl View for Action {
    type V = ActionView;

    open spec fn view(&self) -> ActionView {
        match self {
            Action::CheckStore(query) => ActionView::CheckStore(*query),
            Action::Fetch(item) => ActionView::Fetch(*item),
            Action::PersistRanking { query, placements } => ActionView::PersistRanking {
                query: *query,
                placements: placements@,
            },
            Action::PersistPlayers(players) => ActionView::PersistPlayers(profiles(players@)),
            Action::Finish => ActionView::Finish,
            Action::Unexpected => ActionView::Unexpected,
        }
    }
}

/// What one step of the pipeline gives: the next action, and the lines that
/// the step adds to the log of the run.
#[derive(Clone, Debug, PartialEq, Eq)]
pub struct Step {
    pub action: Action,
    pub lines: Vec<String>,
}

/// The state of a pipeline.
#[verifier::ext_equal]
pub struct PipelineView {
    /// The items of the run, in the order in which they are worked off.
    pub items: Seq<WorkItem>,
    /// Whether units that are already stored are fetched again.
    pub force: bool,
    /// How many items are done: fetched and read, passed over, or skipped.
    pub cursor: int,
    pub phase: Phase,
    /// The profiles read in the unit in progress.
    pub players: Seq<PlayerProfileView>,
    /// The placements read in the unit in progress.
    pub placements: Seq<Placement>,
    /// How many pages of the unit in progress could be read.
    pub parsed: int,
}

/// The outcome of one step.
#[verifier::ext_equal]
pub struct Outcome {
    pub state: PipelineView,
    pub action: ActionView,
    pub lines: Seq<Seq<char>>,
}

/// The position after the last item of the unit that the item at `from`
/// belongs to.
pub open spec fn unit_end(items: Seq<WorkItem>, from: int) -> int
    decreases items.len() - from,
{
    if 0 <= from && from + 1 < items.len() && same_unit(items[from], items[from + 1]) {
        unit_end(items, from + 1)
    } else {
        from + 1
    }
}

/// The line that reports a failure on `item`.
pub open spec fn failure_text(item: WorkItem, why: Seq<char>) -> Seq<char> {
    label_text(item) + ": "@ + why
}

/// The line that warns of a birth year that is no number.
pub open spec fn birth_year_text(item: WorkItem, found: Seq<char>) -> Seq<char> {
    label_text(item) + ": can't parse birth year '"@ + found + "'"@
}

/// The line that reports a unit as skipped.
pub open spec fn skipped_text(item: WorkItem) -> Seq<char> {
    unit_text(item) + ": already stored, skipped"@
}

/// The line that reports a unit without a single page that could be read.
pub open spec fn empty_text(item: WorkItem) -> Seq<char> {
    unit_text(item) + ": nothing to store"@
}

/// The line that reports a batch that was not stored.
pub open spec fn discarded_text(item: WorkItem, outcome: PersistOutcome) -> Seq<char> {
    unit_text(item) + ": "@ + outcome.message()
}

/// The last line of a run that lost its store.
pub open spec fn aborted_text() -> Seq<char> {
    "storage unavailable, run aborted"@
}

/// What the page fetched for `item` adds to the run.
pub struct Reading {
    /// The profile read, if the item is a player and the page could be read.
    pub players: Seq<PlayerProfileView>,
    /// The placements read, if the item is a ranking page that could be read.
    pub placements: Seq<Placement>,
    /// Whether the page was fetched and could be read.
    pub ok: bool,
    /// The lines for the log: one for a failure, one for a birth year passed
    /// over, none otherwise.
    pub lines: Seq<Seq<char>>,
}

/// A failed reading.
pub open spec fn failed(item: WorkItem, why: Seq<char>) -> Reading {
    Reading {
        players: Seq::empty(),
        placements: Seq::empty(),
        ok: false,
        lines: seq![failure_text(item, why)],
    }
}

/// What the outcome of the fetch for `item` adds to the run.
pub open spec fn reading_of(item: WorkItem, fetched: Result<Seq<char>, FetchError>) -> Reading {
    match fetched {
        Err(e) => failed(item, e.message()),
        Ok(page) => match item {
            WorkItem::Player { itsf_id } => match parsed_player(itsf_id, page) {
                Err(e) => failed(item, e.message()),
                Ok(parsed) => Reading {
                    players: seq![parsed.profile],
                    placements: Seq::empty(),
                    ok: true,
                    lines: match parsed.unread_birth_year {
                        Some(found) => seq![birth_year_text(item, found)],
                        None => Seq::empty(),
                    },
                },
            },
            WorkItem::RankingPage { .. } => match parsed_ranking(page) {
                Err(e) => failed(item, e.message()),
                Ok(placements) => Reading {
                    players: Seq::empty(),
                    placements,
                    ok: true,
                    lines: Seq::empty(),
                },
            },
        },
    }
}

impl PipelineView {
    /// The state of a run that has not begun.
    pub open spec fn fresh(items: Seq<WorkItem>, force: bool) -> PipelineView {
        PipelineView {
            items,
            force,
            cursor: 0,
            phase: Phase::Enumerating,
            players: Seq::empty(),
            placements: Seq::empty(),
            parsed: 0,
        }
    }

    /// The state is one that a run can be in.
    pub open spec fn wf(self) -> bool {
        &&& 0 <= self.parsed <= self.cursor <= self.items.len() <= usize::MAX
        &&& self.phase is CheckingStore || self.phase is Processing ==> self.cursor
            < self.items.len()
        &&& self.phase is Persisting ==> self.cursor > 0
    }

    /// The state with an empty batch.
    pub open spec fn cleared(self) -> PipelineView {
        PipelineView { players: Seq::empty(), placements: Seq::empty(), parsed: 0, ..self }
    }

    /// Turns to the item at the cursor, which begins a unit: the run is over
    /// if there is none; the store is asked first if the item is a ranking
    /// page and stored lists are not fetched again; else the item is fetched.
    pub open spec fn enter(self) -> (PipelineView, ActionView) {
        if self.cursor >= self.items.len() {
            (PipelineView { phase: Phase::Done, ..self }, ActionView::Finish)
        } else {
            match self.items[self.cursor] {
                WorkItem::RankingPage { query, .. } if !self.force => (
                    PipelineView { phase: Phase::CheckingStore, ..self },
                    ActionView::CheckStore(query),
                ),
                item => (PipelineView { phase: Phase::Processing, ..self }, ActionView::Fetch(item)),
            }
        }
    }

    /// The step on the answer of the store about the unit at the cursor.
    pub open spec fn on_exists(self, found: bool) -> Outcome {
        let item = self.items[self.cursor];
        if found {
            let skipped = PipelineView { cursor: unit_end(self.items, self.cursor), ..self };
            Outcome {
                state: skipped.enter().0,
                action: skipped.enter().1,
                lines: seq![skipped_text(item)],
            }
        } else {
            Outcome {
                state: PipelineView { phase: Phase::Processing, ..self },
                action: ActionView::Fetch(item),
                lines: Seq::empty(),
            }
        }
    }

    /// The step at the end of a unit whose last item is `item`: the batch is
    /// handed out for storing if a page of the unit could be read.
    pub open spec fn close(self, item: WorkItem, lines: Seq<Seq<char>>) -> Outcome {
        if self.parsed == 0 {
            Outcome {
                state: self.cleared().enter().0,
                action: self.cleared().enter().1,
                lines: lines.push(empty_text(item)),
            }
        } else {
            Outcome {
                state: PipelineView { phase: Phase::Persisting, ..self.cleared() },
                action: match item {
                    WorkItem::Player { .. } => ActionView::PersistPlayers(self.players),
                    WorkItem::RankingPage { query, .. } => ActionView::PersistRanking {
                        query,
                        placements: self.placements,
                    },
                },
                lines,
            }
        }
    }

    /// The step on the outcome of the fetch for the item at the cursor.
    pub open spec fn on_fetched(self, fetched: Result<Seq<char>, FetchError>) -> Outcome {
        let item = self.items[self.cursor];
        let reading = reading_of(item, fetched);
        let next = PipelineView {
            cursor: self.cursor + 1,
            players: self.players + reading.players,
            placements: self.placements + reading.placements,
            parsed: self.parsed + if reading.ok {
                1int
            } else {
                0int
            },
            ..self
        };
        if next.cursor < self.items.len() && same_unit(item, self.items[next.cursor]) {
            Outcome {
                state: next,
                action: ActionView::Fetch(self.items[next.cursor]),
                lines: reading.lines,
            }
        } else {
            next.close(item, reading.lines)
        }
    }

    /// The step on the outcome of storing the batch of the unit that ends
    /// before the cursor.
    pub open spec fn on_persisted(self, outcome: PersistOutcome) -> Outcome {
        Outcome {
            state: self.enter().0,
            action: self.enter().1,
            lines: if outcome is Committed {
                Seq::empty()
            } else {
                seq![discarded_text(self.items[self.cursor - 1], outcome)]
            },
        }
    }

    /// The step of a state that ignores the event.
    pub open spec fn ignoring(self, action: ActionView) -> Outcome {
        Outcome { state: self, action, lines: Seq::empty() }
    }

    /// One step: the state after `event`, the action that it leads to, and
    /// the lines that it adds to the log. An event that is not the one
    /// waited for changes nothing.
    pub open spec fn advance(self, event: EventView) -> Outcome {
        match (self.phase, event) {
            _ if !self.wf() => self.ignoring(ActionView::Unexpected),
            (Phase::Done, _) => self.ignoring(ActionView::Finish),
            (Phase::Enumerating, EventView::Start) => Outcome {
                state: self.enter().0,
                action: self.enter().1,
                lines: Seq::empty(),
            },
            (Phase::CheckingStore, EventView::Exists(found)) => self.on_exists(found),
            (Phase::Processing, EventView::Fetched(fetched)) => self.on_fetched(fetched),
            (Phase::Persisting, EventView::Persisted(outcome)) => self.on_persisted(outcome),
            (Phase::CheckingStore, EventView::StorageUnavailable) | (
                Phase::Persisting,
                EventView::StorageUnavailable,
            ) => Outcome {
                state: PipelineView { phase: Phase::Done, ..self },
                action: ActionView::Finish,
                lines: seq![aborted_text()],
            },
            _ => self.ignoring(ActionView::Unexpected),
        }
    }
}

/// A unit that begins inside the items ends after its beginning and inside
/// the items, and all the items between belong to it.
pub proof fn lemma_unit_end(items: Seq<WorkItem>, from: int)
    requires
        0 <= from < items.len(),
    ensures
        from < unit_end(items, from) <= items.len(),
        forall|k: int| from <= k < unit_end(items, from) ==> same_unit(items[from], #[trigger] items[k]),
        unit_end(items, from) < items.len() ==> !same_unit(
            items[unit_end(items, from) - 1],
            items[unit_end(items, from)],
        ),
    decreases items.len() - from,
{
    if from + 1 < items.len() && same_unit(items[from], items[from + 1]) {
        lemma_unit_end(items, from + 1);
        assert forall|k: int| from <= k < unit_end(items, from) implies same_unit(
            items[from],
            #[trigger] items[k],
        ) by {}
    }
}

/// A step leads from a state that a run can be in to another such state.
/// It never takes the cursor back nor past the last item, and it leaves the
/// items as they are.
pub proof fn lemma_advance(state: PipelineView, event: EventView)
    requires
        state.wf(),
    ensures
        state.advance(event).state.wf(),
        state.advance(event).state.items == state.items,
        state.advance(event).state.force == state.force,
        state.cursor <= state.advance(event).state.cursor <= state.items.len(),
{
    if state.phase is CheckingStore {
        lemma_unit_end(state.items, state.cursor);
    }
}

/// The pipeline of one run.
pub struct Pipeline {
    items: Vec<WorkItem>,
    force: bool,
    cursor: usize,
    phase: Phase,
    players: Vec<PlayerProfile>,
    placements: Vec<Placement>,
    parsed: usize,
}

impl View for Pipeline {
    type V = PipelineView;

    closed spec fn view(&self) -> PipelineView {
        PipelineView {
            items: self.items@,
            force: self.force,
            cursor: self.cursor as int,
            phase: self.phase,
            players: profiles(self.players@),
            placements: self.placements@,
            parsed: self.parsed as int,
        }
    }
}

/// The line that reports a failure on `item`.
fn failure_line(item: &WorkItem, why: &str) -> (r: String)
    ensures
        r@ == failure_text(*item, why@),
{
    let mut out = item.label();
    out.append(": ");
    out.append(why);
    out
}

/// The line that warns of a birth year that is no number.
fn birth_year_line(item: &WorkItem, found: &str) -> (r: String)
    ensures
        r@ == birth_year_text(*item, found@),
{
    let mut out = item.label();
    out.append(": can't parse birth year '");
    out.append(found);
    out.append("'");
    out
}

/// The unit label of `item`, followed by `rest`.
fn unit_line(item: &WorkItem, rest: &str) -> (r: String)
    ensures
        r@ == unit_text(*item) + rest@,
{
    let mut out = item.unit_label();
    out.append(rest);
    out
}

/// The line that reports a batch that was not stored.
fn discarded_line(item: &WorkItem, outcome: &PersistOutcome) -> (r: String)
    ensures
        r@ == discarded_text(*item, *outcome),
{
    let mut out = item.unit_label();
    out.append(": ");
    let why = outcome.describe();
    out.append(why.as_str());
    out
}

impl Pipeline {
    /// The pipeline of a run over `items`, not yet begun. With `force` unset,
    /// ranking lists that the store already has are skipped.
    pub fn new(items: Vec<WorkItem>, force: bool) -> (r: Pipeline)
        ensures
            r@ == PipelineView::fresh(items@, force),
            r@.wf(),
    {
        proof {
            assert(items@.len() == items.len());
        }
        Pipeline {
            items,
            force,
            cursor: 0,
            phase: Phase::Enumerating,
            players: Vec::new(),
            placements: Vec::new(),
            parsed: 0,
        }
    }

    /// Where the run stands.
    pub fn phase(&self) -> (r: Phase)
        ensures
            r == self@.phase,
    {
        self.phase
    }

    /// How many items are done.
    pub fn progress(&self) -> (r: usize)
        ensures
            r == self@.cursor,
    {
        self.cursor
    }

    /// How many items the run has.
    pub fn max(&self) -> (r: usize)
        ensures
            r == self@.items.len(),
    {
        self.items.len()
    }

    /// Whether the run is over.
    pub fn is_done(&self) -> (r: bool)
        ensures
            r == (self@.phase is Done),
    {
        match self.phase {
            Phase::Done => true,
            _ => false,
        }
    }

    /// Turns to the item at the cursor, which begins a unit.
    fn enter(&mut self) -> (r: Action)
        requires
            old(self).cursor <= old(self).items.len(),
        ensures
            final(self)@ =~= old(self)@.enter().0,
            r@ == old(self)@.enter().1,
    {
        if self.cursor >= self.items.len() {
            self.phase = Phase::Done;
            return Action::Finish;
        }
        let item = self.items[self.cursor];
        match item {
            WorkItem::RankingPage { query, .. } => {
                if !self.force {
                    self.phase = Phase::CheckingStore;
                    return Action::CheckStore(query);
                }
            },
            _ => {},
        }
        self.phase = Phase::Processing;
        Action::Fetch(item)
    }

    /// The position after the unit that begins at the cursor.
    fn end_of_unit(&self) -> (r: usize)
        requires
            self.cursor < self.items.len(),
        ensures
            r == unit_end(self.items@, self.cursor as int),
            self.cursor < r <= self.items.len(),
    {
        let mut at: usize = self.cursor;
        while at + 1 < self.items.len() && self.items[at].in_unit_of(&self.items[at + 1])
            invariant
                self.cursor <= at < self.items.len(),
                unit_end(self.items@, self.cursor as int) == unit_end(self.items@, at as int),
            decreases self.items.len() - at,
        {
            at += 1;
        }
        at + 1
    }

    /// Empties the batch.
    fn clear(&mut self)
        ensures
            final(self)@ =~= old(self)@.cleared(),
            final(self).cursor == old(self).cursor,
            final(self).items == old(self).items,
    {
        self.players = Vec::new();
        self.placements = Vec::new();
        self.parsed = 0;
    }

    /// Ends the unit whose last item is `item`.
    fn close(&mut self, item: WorkItem, lines: Vec<String>) -> (r: Step)
        requires
            old(self).cursor <= old(self).items.len(),
        ensures
            final(self)@ =~= old(self)@.close(item, crate::background::lines(lines@)).state,
            r.action@ == old(self)@.close(item, crate::background::lines(lines@)).action,
            crate::background::lines(r.lines@) =~= old(self)@.close(
                item,
                crate::background::lines(lines@),
            ).lines,
    {
        let mut lines = lines;
        if self.parsed == 0 {
            let line = unit_line(&item, ": nothing to store");
            lines.push(line);
            self.clear();
            let action = self.enter();
            Step { action, lines }
        } else {
            let mut players: Vec<PlayerProfile> = Vec::new();
            let mut placements: Vec<Placement> = Vec::new();
            core::mem::swap(&mut players, &mut self.players);
            core::mem::swap(&mut placements, &mut self.placements);
            self.parsed = 0;
            self.phase = Phase::Persisting;
            let action = match item {
                WorkItem::Player { .. } => Action::PersistPlayers(players),
                WorkItem::RankingPage { query, .. } => Action::PersistRanking {
                    query,
                    placements,
                },
            };
            Step { action, lines }
        }
    }

    /// The step on the answer of the store about the unit at the cursor.
    fn on_exists(&mut self, found: bool) -> (r: Step)
        requires
            old(self).cursor < old(self).items.len(),
        ensures
            final(self)@ =~= old(self)@.on_exists(found).state,
            r.action@ == old(self)@.on_exists(found).action,
            crate::background::lines(r.lines@) =~= old(self)@.on_exists(found).lines,
    {
        let item = self.items[self.cursor];
        let mut lines: Vec<String> = Vec::new();
        if found {
            lines.push(unit_line(&item, ": already stored, skipped"));
            self.cursor = self.end_of_unit();
            let action = self.enter();
            Step { action, lines }
        } else {
            self.phase = Phase::Processing;
            Step { action: Action::Fetch(item), lines }
        }
    }

    /// Reads what was fetched for `item` into the batch; returns whether a
    /// page came and could be read, and the lines for the log.
    fn read(&mut self, item: WorkItem, fetched: Result<String, FetchError>) -> (r: (
        bool,
        Vec<String>,
    ))
        ensures
            ({
                let reading = reading_of(item, (Event::Fetched(fetched))@->Fetched_0);
                &&& final(self)@ =~= (PipelineView {
                    players: old(self)@.players + reading.players,
                    placements: old(self)@.placements + reading.placements,
                    ..old(self)@
                })
                &&& r.0 == reading.ok
                &&& crate::background::lines(r.1@) =~= reading.lines
            }),
            final(self).cursor == old(self).cursor,
            final(self).parsed == old(self).parsed,
            final(self).items == old(self).items,
    {
        let mut lines: Vec<String> = Vec::new();
        let page = match fetched {
            Ok(page) => page,
            Err(e) => {
                let why = e.describe();
                lines.push(failure_line(&item, why.as_str()));
                return (false, lines);
            },
        };
        match item {
            WorkItem::Player { itsf_id } => match parse_player(itsf_id, page.as_str()) {
                Err(e) => {
                    let why = e.describe();
                    lines.push(failure_line(&item, why.as_str()));
                    (false, lines)
                },
                Ok(parsed) => {
                    match &parsed.unread_birth_year {
                        Some(found) => {
                            lines.push(birth_year_line(&item, found.as_str()));
                        },
                        None => {},
                    }
                    proof {
                        assert(profiles(self.players@.push(parsed.profile)) =~= profiles(
                            self.players@,
                        ) + seq![parsed.profile@]);
                    }
                    self.players.push(parsed.profile);
                    (true, lines)
                },
            },
            WorkItem::RankingPage { .. } => match parse_ranking_page(page.as_str()) {
                Err(e) => {
                    let why = e.describe();
                    lines.push(failure_line(&item, why.as_str()));
                    (false, lines)
                },
                Ok(fragment) => {
                    let mut fragment = fragment;
                    self.placements.append(&mut fragment);
                    (true, lines)
                },
            },
        }
    }

    /// The step on the outcome of the fetch for the item at the cursor.
    fn on_fetched(&mut self, fetched: Result<String, FetchError>) -> (r: Step)
        requires
            old(self).parsed <= old(self).cursor < old(self).items.len(),
        ensures
            final(self)@ =~= old(self)@.on_fetched((Event::Fetched(fetched))@->Fetched_0).state,
            r.action@ == old(self)@.on_fetched((Event::Fetched(fetched))@->Fetched_0).action,
            crate::background::lines(r.lines@) =~= old(self)@.on_fetched(
                (Event::Fetched(fetched))@->Fetched_0,
            ).lines,
    {
        let item = self.items[self.cursor];
        let (ok, lines) = self.read(item, fetched);
        self.cursor = self.cursor + 1;
        if ok {
            self.parsed = self.parsed + 1;
        }
        if self.cursor < self.items.len() && item.in_unit_of(&self.items[self.cursor]) {
            let next = self.items[self.cursor];
            Step { action: Action::Fetch(next), lines }
        } else {
            self.close(item, lines)
        }
    }

    /// The step on the outcome of storing a batch.
    fn on_persisted(&mut self, outcome: PersistOutcome) -> (r: Step)
        requires
            0 < old(self).cursor <= old(self).items.len(),
        ensures
            final(self)@ =~= old(self)@.on_persisted(outcome).state,
            r.action@ == old(self)@.on_persisted(outcome).action,
            crate::background::lines(r.lines@) =~= old(self)@.on_persisted(outcome).lines,
    {
        let mut lines: Vec<String> = Vec::new();
        match outcome {
            PersistOutcome::Committed => {},
            _ => {
                let item = self.items[self.cursor - 1];
                lines.push(discarded_line(&item, &outcome));
            },
        }
        let action = self.enter();
        Step { action, lines }
    }

    /// Whether the state is one that a run can be in. Every pipeline that
    /// this module hands out is, and stays so.
    pub fn well_formed(&self) -> (r: bool)
        ensures
            r == self@.wf(),
    {
        let waiting = match self.phase {
            Phase::CheckingStore => true,
            Phase::Processing => true,
            _ => false,
        };
        let storing = match self.phase {
            Phase::Persisting => true,
            _ => false,
        };
        self.parsed <= self.cursor && self.cursor <= self.items.len() && (!waiting || self.cursor
            < self.items.len()) && (!storing || self.cursor > 0)
    }

    /// Takes what happened outside and says what to do next. The lines of
    /// the step belong at the end of the log of the run, and its progress is
    /// [`Pipeline::progress`] of [`Pipeline::max`].
    pub fn step(&mut self, event: Event) -> (r: Step)
        ensures
            final(self)@ == old(self)@.advance(event@).state,
            r.action@ == old(self)@.advance(event@).action,
            lines(r.lines@) == old(self)@.advance(event@).lines,
            old(self)@.wf() ==> final(self)@.wf(),
    {
        if !self.well_formed() {
            return Step { action: Action::Unexpected, lines: Vec::new() };
        }
        proof {
            lemma_advance(self@, event@);
        }
        match self.phase {
            Phase::Done => Step { action: Action::Finish, lines: Vec::new() },
            Phase::Enumerating => match event {
                Event::Start => {
                    let action = self.enter();
                    Step { action, lines: Vec::new() }
                },
                _ => Step { action: Action::Unexpected, lines: Vec::new() },
            },
            Phase::CheckingStore => match event {
                Event::Exists(found) => self.on_exists(found),
                Event::StorageUnavailable => self.abort(),
                _ => Step { action: Action::Unexpected, lines: Vec::new() },
            },
            Phase::Processing => match event {
                Event::Fetched(fetched) => self.on_fetched(fetched),
                _ => Step { action: Action::Unexpected, lines: Vec::new() },
            },
            Phase::Persisting => match event {
                Event::Persisted(outcome) => self.on_persisted(outcome),
                Event::StorageUnavailable => self.abort(),
                _ => Step { action: Action::Unexpected, lines: Vec::new() },
            },
        }
    }

    /// Ends the run because the store is lost.
    fn abort(&mut self) -> (r: Step)
        ensures
            final(self)@ =~= (PipelineView { phase: Phase::Done, ..old(self)@ }),
            r.action@ == ActionView::Finish,
            crate::background::lines(r.lines@) =~= seq![aborted_text()],
    {
        let mut lines: Vec<String> = Vec::new();
        lines.push(String::from_str("storage unavailable, run aborted"));
        self.phase = Phase::Done;
        Step { action: Action::Finish, lines }
    }
}

} // verus!
