//! Storing one ranking list: what is stored of the list is removed, and the
//! header row and the entry rows are written, in one transaction, which is
//! committed only when every row count is as expected. A stored list is so
//! replaced as a whole, or stays as it was.
//!
//! The database is driven from outside. This module decides, answer by
//! answer, what is asked of it next.

use vstd::prelude::*;
use crate::decimal::decimal_text;
use crate::decimal::usize_to_string;
use crate::ranking::Placement;
use crate::ranking::RankingCategory;
use crate::ranking::RankingClass;
use crate::ranking::RankingQuery;

verus! {

/// The header row of a stored ranking list.
#[derive(Clone, Copy, Debug, PartialEq, Eq, Structural)]
pub struct RankingHeader {
    pub year: i32,
    /// When the list was fetched, in seconds since the epoch.
    pub queried_at: i64,
    /// How many entry rows belong to the header.
    pub count: i32,
    pub category: RankingCategory,
    pub class: RankingClass,
}

/// One entry row of a stored ranking list.
#[derive(Clone, Copy, Debug, PartialEq, Eq, Structural)]
pub struct RankingEntry {
    /// The row id of the header that the entry belongs to.
    pub ranking_id: i32,
    pub place: i32,
    pub player_id: i32,
}

/// How the storing of one batch ended.
#[derive(Clone, Copy, Debug, PartialEq, Eq, Structural)]
pub enum PersistOutcome {
    /// Header and entries are stored.
    Committed,
    /// The batch has more placements than a header can count.
    TooManyPlacements,
    /// Writing the header did not give exactly one row; the number it gave.
    HeaderRejected(usize),
    /// Writing the entries gave another number of rows than the batch has.
    RowCountMismatch { expected: usize, written: usize },
    /// An answer came that had not been asked for.
    OutOfOrder,
}

impl PersistOutcome {
    /// The description of the outcome.
    pub open spec fn message(self) -> Seq<char> {
        match self {
            PersistOutcome::Committed => "stored"@,
            PersistOutcome::TooManyPlacements => "too many placements for one ranking"@,
            PersistOutcome::HeaderRejected(rows) => "failed to insert ranking, rows written: "@
                + decimal_text(rows as int),
            PersistOutcome::RowCountMismatch { expected, written } =>
                "failed to insert ranking entries, count="@ + decimal_text(expected as int)
                    + ", inserted="@ + decimal_text(written as int),
            PersistOutcome::OutOfOrder => "storage answered out of order"@,
        }
    }

    /// The description of the outcome, for the run log.
    pub fn describe(&self) -> (r: String)
        ensures
            r@ == self.message(),
    {
        match self {
            PersistOutcome::Committed => String::from_str("stored"),
            PersistOutcome::TooManyPlacements => String::from_str(
                "too many placements for one ranking",
            ),
            PersistOutcome::HeaderRejected(rows) => {
                let mut out = String::from_str("failed to insert ranking, rows written: ");
                let number = usize_to_string(*rows);
                out.append(number.as_str());
                out
            },
            PersistOutcome::RowCountMismatch { expected, written } => {
                let mut out = String::from_str("failed to insert ranking entries, count=");
                let first = usize_to_string(*expected);
                let second = usize_to_string(*written);
                out.append(first.as_str());
                out.append(", inserted=");
                out.append(second.as_str());
                out
            },
            PersistOutcome::OutOfOrder => String::from_str("storage answered out of order"),
        }
    }
}

/// What the transaction waits for.
#[derive(Clone, Copy, Debug, PartialEq, Eq, Structural)]
pub enum TransactionPhase {
    /// What is stored of the list is being removed.
    Clearing,
    /// The header is being written.
    WritingHeader,
    /// The row id of the header is being read.
    ReadingRowId,
    /// The entries are being written.
    WritingEntries,
    /// Commit or rollback has been asked for.
    Closed,
}

/// An answer of the database.
#[derive(Clone, Copy, Debug, PartialEq, Eq, Structural)]
pub enum TransactionEvent {
    /// What was stored of the list is removed; the number of headers that
    /// this took away.
    Cleared(usize),
    /// The header was written; the number of rows that this gave.
    HeaderInserted(usize),
    /// The row id of the header.
    RowId(i32),
    /// The entries were written; the number of rows that this gave.
    EntriesInserted(usize),
}

/// What is asked of the database next.
#[derive(Clone, Debug, PartialEq, Eq)]
pub enum TransactionAction {
    /// Remove every header stored for this list, with its entries.
    RemoveStored(RankingQuery),
    InsertHeader(RankingHeader),
    ReadRowId,
    InsertEntries(Vec<RankingEntry>),
    /// Make everything written lasting.
    Commit,
    /// Undo everything written; the outcome says why.
    Rollback(PersistOutcome),
    /// Nothing: the transaction is closed.
    Nothing,
}

/// A [`TransactionAction`] with its rows as a sequence.
pub enum TransactionActionView {
    RemoveStored(RankingQuery),
    InsertHeader(RankingHeader),
    ReadRowId,
    InsertEntries(Seq<RankingEntry>),
    Commit,
    Rollback(PersistOutcome),
    Nothing,
}

impl View for TransactionAction {
    type V = TransactionActionView;

    open spec fn view(&self) -> TransactionActionView {
        match self {
            TransactionAction::RemoveStored(query) => TransactionActionView::RemoveStored(*query),
            TransactionAction::InsertHeader(header) => TransactionActionView::InsertHeader(
                *header,
            ),
            TransactionAction::ReadRowId => TransactionActionView::ReadRowId,
            TransactionAction::InsertEntries(rows) => TransactionActionView::InsertEntries(rows@),
            TransactionAction::Commit => TransactionActionView::Commit,
            TransactionAction::Rollback(why) => TransactionActionView::Rollback(*why),
            TransactionAction::Nothing => TransactionActionView::Nothing,
        }
    }
}

/// The entry rows of a batch under the header with row id `ranking_id`: one
/// row for each placement, in order.
pub open spec fn entries_of(ranking_id: i32, placements: Seq<Placement>) -> Seq<RankingEntry> {
    placements.map_values(
        |p: Placement| RankingEntry { ranking_id, place: p.rank, player_id: p.player_id },
    )
}

/// The header row of a batch of `count` placements.
pub open spec fn header_of(query: RankingQuery, queried_at: i64, count: int) -> RankingHeader {
    RankingHeader {
        year: query.year,
        queried_at,
        count: count as i32,
        category: query.category,
        class: query.class,
    }
}

/// The transaction that stores one ranking list.
pub struct RankingTransaction {
    query: RankingQuery,
    queried_at: i64,
    placements: Vec<Placement>,
    phase: TransactionPhase,
}

/// What a [`RankingTransaction`] holds.
pub struct TransactionView {
    pub query: RankingQuery,
    pub queried_at: i64,
    pub placements: Seq<Placement>,
    pub phase: TransactionPhase,
}

impl View for RankingTransaction {
    type V = TransactionView;

    closed spec fn view(&self) -> TransactionView {
        TransactionView {
            query: self.query,
            queried_at: self.queried_at,
            placements: self.placements@,
            phase: self.phase,
        }
    }
}

impl TransactionView {
    /// The transaction for a batch, and what it asks first: to remove what
    /// is stored of the list.
    pub open spec fn begun(query: RankingQuery, queried_at: i64, placements: Seq<Placement>) -> (
        TransactionView,
        TransactionActionView,
    ) {
        (
            TransactionView { query, queried_at, placements, phase: TransactionPhase::Clearing },
            TransactionActionView::RemoveStored(query),
        )
    }

    /// The action that an answer leads to.
    pub open spec fn action_on(self, event: TransactionEvent) -> TransactionActionView {
        match (self.phase, event) {
            (TransactionPhase::Closed, _) => TransactionActionView::Nothing,
            (TransactionPhase::Clearing, TransactionEvent::Cleared(_)) => if self.placements.len()
                > i32::MAX {
                TransactionActionView::Rollback(PersistOutcome::TooManyPlacements)
            } else {
                TransactionActionView::InsertHeader(
                    header_of(self.query, self.queried_at, self.placements.len() as int),
                )
            },
            (TransactionPhase::WritingHeader, TransactionEvent::HeaderInserted(rows)) => if rows
                == 1 {
                TransactionActionView::ReadRowId
            } else {
                TransactionActionView::Rollback(PersistOutcome::HeaderRejected(rows))
            },
            (TransactionPhase::ReadingRowId, TransactionEvent::RowId(id)) => {
                TransactionActionView::InsertEntries(entries_of(id, self.placements))
            },
            (TransactionPhase::WritingEntries, TransactionEvent::EntriesInserted(rows)) => if rows
                == self.placements.len() {
                TransactionActionView::Commit
            } else {
                TransactionActionView::Rollback(
                    PersistOutcome::RowCountMismatch {
                        expected: self.placements.len() as usize,
                        written: rows,
                    },
                )
            },
            _ => TransactionActionView::Rollback(PersistOutcome::OutOfOrder),
        }
    }

    /// The transaction after an answer.
    pub open spec fn after(self, event: TransactionEvent) -> TransactionView {
        let phase = match self.action_on(event) {
            TransactionActionView::InsertHeader(_) => TransactionPhase::WritingHeader,
            TransactionActionView::ReadRowId => TransactionPhase::ReadingRowId,
            TransactionActionView::InsertEntries(_) => TransactionPhase::WritingEntries,
            _ => TransactionPhase::Closed,
        };
        TransactionView { phase, ..self }
    }

    /// The transaction after a run of answers.
    pub open spec fn after_all(self, events: Seq<TransactionEvent>) -> TransactionView
        decreases events.len(),
    {
        if events.len() == 0 {
            self
        } else {
            self.after_all(events.drop_last()).after(events.last())
        }
    }

    /// Whether the last of a run of answers leads to a commit.
    pub open spec fn commits_on(self, events: Seq<TransactionEvent>) -> bool {
        events.len() > 0 && self.after_all(events.drop_last()).action_on(events.last())
            == TransactionActionView::Commit
    }
}

/// All or nothing. A transaction commits only on the fourth answer, and only
/// when, after the older rows were removed, the header gave exactly one row
/// and the entries gave as many rows as the batch has placements; after any
/// other run of answers it has asked for a rollback or is still open, so that
/// nothing of it is stored and nothing older is lost.
pub proof fn lemma_all_or_nothing(
    query: RankingQuery,
    queried_at: i64,
    placements: Seq<Placement>,
    events: Seq<TransactionEvent>,
)
    ensures
        TransactionView::begun(query, queried_at, placements).0.commits_on(events) <==> {
            &&& placements.len() <= i32::MAX
            &&& events.len() == 4
            &&& events[0] is Cleared
            &&& events[1] == TransactionEvent::HeaderInserted(1)
            &&& events[2] is RowId
            &&& events[3] == TransactionEvent::EntriesInserted(placements.len() as usize)
        },
{
    let start = TransactionView::begun(query, queried_at, placements).0;
    if events.len() > 0 {
        lemma_phases(start, events.drop_last());
    }
}

/// What is stored is replaced, and header and entries match the batch. A
/// transaction first asks to remove what is stored of its own list. The
/// header that it then asks to write counts the placements of the batch, and
/// the entries that it asks to write are as many, one for each placement in
/// order, each under the row id that was read for the header.
pub proof fn lemma_rows_match_batch(
    query: RankingQuery,
    queried_at: i64,
    placements: Seq<Placement>,
    id: i32,
    removed: usize,
)
    requires
        placements.len() <= i32::MAX,
    ensures
        ({
            let (start, first) = TransactionView::begun(query, queried_at, placements);
            let writing = start.after(TransactionEvent::Cleared(removed));
            let reading = writing.after(TransactionEvent::HeaderInserted(1));
            &&& first == TransactionActionView::RemoveStored(query)
            &&& start.action_on(TransactionEvent::Cleared(removed)) matches TransactionActionView::InsertHeader(
                header,
            ) && header.count == placements.len() && header.year == query.year
                && header.category == query.category && header.class == query.class
            &&& reading.action_on(TransactionEvent::RowId(id)) matches TransactionActionView::InsertEntries(
                rows,
            ) && rows.len() == placements.len() && (forall|i: int|
                0 <= i < rows.len() ==> #[trigger] rows[i] == (RankingEntry {
                    ranking_id: id,
                    place: placements[i].rank,
                    player_id: placements[i].player_id,
                }))
        }),
{
}

/// Where a transaction stands after a run of answers.
proof fn lemma_phases(start: TransactionView, events: Seq<TransactionEvent>)
    ensures
        ({
            let end = start.after_all(events);
            let fits = start.placements.len() <= i32::MAX;
            &&& end.placements == start.placements
            &&& events.len() == 0 ==> end == start
            &&& start.phase is Closed ==> end.phase is Closed
            &&& start.phase is Clearing && events.len() == 1 ==> end.phase == if fits && events[0]
                is Cleared {
                TransactionPhase::WritingHeader
            } else {
                TransactionPhase::Closed
            }
            &&& start.phase is Clearing && events.len() == 2 ==> end.phase == if fits && events[0]
                is Cleared && events[1] == TransactionEvent::HeaderInserted(1) {
                TransactionPhase::ReadingRowId
            } else {
                TransactionPhase::Closed
            }
            &&& start.phase is Clearing && events.len() == 3 ==> end.phase == if fits && events[0]
                is Cleared && events[1] == TransactionEvent::HeaderInserted(1) && events[2]
                is RowId {
                TransactionPhase::WritingEntries
            } else {
                TransactionPhase::Closed
            }
            &&& start.phase is Clearing && events.len() >= 4 ==> end.phase is Closed
        }),
    decreases events.len(),
{
    if events.len() > 0 {
        let earlier = events.drop_last();
        lemma_phases(start, earlier);
        assert forall|i: int| 0 <= i < earlier.len() implies earlier[i] == events[i] by {}
    }
}

impl RankingTransaction {
    /// Begins the transaction that stores `placements` as the list `query`,
    /// fetched at `queried_at`. The first action is to remove what is stored
    /// of the list. A batch with more placements than a header can count is
    /// given up before anything is written.
    pub fn begin(query: RankingQuery, queried_at: i64, placements: Vec<Placement>) -> (r: (
        RankingTransaction,
        TransactionAction,
    ))
        ensures
            (r.0@, r.1@) == TransactionView::begun(query, queried_at, placements@),
    {
        (
            RankingTransaction { query, queried_at, placements, phase: TransactionPhase::Clearing },
            TransactionAction::RemoveStored(query),
        )
    }

    /// Takes an answer of the database and says what to ask next.
    pub fn step(&mut self, event: TransactionEvent) -> (r: TransactionAction)
        ensures
            r@ == old(self)@.action_on(event),
            final(self)@ == old(self)@.after(event),
    {
        let action = match (self.phase, event) {
            (TransactionPhase::Closed, _) => TransactionAction::Nothing,
            (TransactionPhase::Clearing, TransactionEvent::Cleared(_)) => {
                if self.placements.len() > i32::MAX as usize {
                    TransactionAction::Rollback(PersistOutcome::TooManyPlacements)
                } else {
                    TransactionAction::InsertHeader(
                        RankingHeader {
                            year: self.query.year,
                            queried_at: self.queried_at,
                            count: self.placements.len() as i32,
                            category: self.query.category,
                            class: self.query.class,
                        },
                    )
                }
            },
            (TransactionPhase::WritingHeader, TransactionEvent::HeaderInserted(rows)) => {
                if rows == 1 {
                    TransactionAction::ReadRowId
                } else {
                    TransactionAction::Rollback(PersistOutcome::HeaderRejected(rows))
                }
            },
            (TransactionPhase::ReadingRowId, TransactionEvent::RowId(id)) => {
                TransactionAction::InsertEntries(entry_rows(id, &self.placements))
            },
            (TransactionPhase::WritingEntries, TransactionEvent::EntriesInserted(rows)) => {
                if rows == self.placements.len() {
                    TransactionAction::Commit
                } else {
                    TransactionAction::Rollback(
                        PersistOutcome::RowCountMismatch {
                            expected: self.placements.len(),
                            written: rows,
                        },
                    )
                }
            },
            _ => TransactionAction::Rollback(PersistOutcome::OutOfOrder),
        };
        self.phase = match &action {
            TransactionAction::InsertHeader(_) => TransactionPhase::WritingHeader,
            TransactionAction::ReadRowId => TransactionPhase::ReadingRowId,
            TransactionAction::InsertEntries(_) => TransactionPhase::WritingEntries,
            _ => TransactionPhase::Closed,
        };
        action
    }

    /// How the transaction ended, as far as its last action tells: the
    /// outcome of a commit or rollback, `None` for every other action.
    pub fn outcome(action: &TransactionAction) -> (r: Option<PersistOutcome>)
        ensures
            r == match action@ {
                TransactionActionView::Commit => Some(PersistOutcome::Committed),
                TransactionActionView::Rollback(why) => Some(why),
                _ => None,
            },
    {
        match action {
            TransactionAction::Commit => Some(PersistOutcome::Committed),
            TransactionAction::Rollback(why) => Some(*why),
            _ => None,
        }
    }
}

/// Whether an insert that leaves an existing row alone wrote a new row:
/// true for one row written, false for none. Such an insert writes no more
/// than one row.
pub fn newly_inserted(rows: usize) -> (r: bool)
    requires
        rows <= 1,
    ensures
        r == (rows == 1),
{
    rows == 1
}

/// The entry rows of a batch under the header with row id `ranking_id`.
pub fn entry_rows(ranking_id: i32, placements: &Vec<Placement>) -> (r: Vec<RankingEntry>)
    ensures
        r@ == entries_of(ranking_id, placements@),
{
    let mut rows: Vec<RankingEntry> = Vec::new();
    let mut i: usize = 0;
    while i < placements.len()
        invariant
            i <= placements.len(),
            rows@ == entries_of(ranking_id, placements@.take(i as int)),
        decreases placements.len() - i,
    {
        let p = placements[i];
        proof {
            assert(entries_of(ranking_id, placements@.take(i + 1)) == entries_of(
                ranking_id,
                placements@.take(i as int),
            ).push(RankingEntry { ranking_id, place: p.rank, player_id: p.player_id }));
        }
        rows.push(RankingEntry { ranking_id, place: p.rank, player_id: p.player_id });
        i += 1;
    }
    rows
}

} // verus!
