use tablesoccer::ranking::Placement;
use tablesoccer::ranking::RankingCategory;
use tablesoccer::ranking::RankingClass;
use tablesoccer::ranking::RankingQuery;
use tablesoccer::ranking::Source;
use tablesoccer::storage::entry_rows;
use tablesoccer::storage::PersistOutcome;
use tablesoccer::storage::RankingEntry;
use tablesoccer::storage::RankingHeader;
use tablesoccer::storage::RankingTransaction;
use tablesoccer::storage::TransactionAction;
use tablesoccer::storage::TransactionEvent;

fn query() -> RankingQuery {
    RankingQuery {
        source: Source::International,
        year: 2012,
        category: RankingCategory::Open,
        class: RankingClass::Doubles,
    }
}

fn batch() -> Vec<Placement> {
    vec![Placement { rank: 1, player_id: 2 }, Placement { rank: 3, player_id: 4 }]
}

fn header(count: i32) -> RankingHeader {
    RankingHeader {
        year: 2012,
        queried_at: 1433334896,
        count,
        category: RankingCategory::Open,
        class: RankingClass::Doubles,
    }
}

#[test]
fn a_batch_is_stored_in_four_steps() {
    let (mut tx, action) = RankingTransaction::begin(query(), 1433334896, batch());
    assert_eq!(action, TransactionAction::RemoveStored(query()));
    assert_eq!(RankingTransaction::outcome(&action), None);
    assert_eq!(
        tx.step(TransactionEvent::Cleared(0)),
        TransactionAction::InsertHeader(header(2))
    );
    assert_eq!(tx.step(TransactionEvent::HeaderInserted(1)), TransactionAction::ReadRowId);
    assert_eq!(
        tx.step(TransactionEvent::RowId(77)),
        TransactionAction::InsertEntries(vec![
            RankingEntry { ranking_id: 77, place: 1, player_id: 2 },
            RankingEntry { ranking_id: 77, place: 3, player_id: 4 },
        ])
    );
    let last = tx.step(TransactionEvent::EntriesInserted(2));
    assert_eq!(last, TransactionAction::Commit);
    assert_eq!(RankingTransaction::outcome(&last), Some(PersistOutcome::Committed));
    assert_eq!(tx.step(TransactionEvent::EntriesInserted(2)), TransactionAction::Nothing);
    assert_eq!(tx.step(TransactionEvent::HeaderInserted(1)), TransactionAction::Nothing);
}

#[test]
fn a_header_that_gives_no_single_row_is_rolled_back() {
    for rows in [0, 2, 17] {
        let (mut tx, _) = RankingTransaction::begin(query(), 0, batch());
        tx.step(TransactionEvent::Cleared(1));
        let action = tx.step(TransactionEvent::HeaderInserted(rows));
        assert_eq!(action, TransactionAction::Rollback(PersistOutcome::HeaderRejected(rows)));
        assert_eq!(
            RankingTransaction::outcome(&action),
            Some(PersistOutcome::HeaderRejected(rows))
        );
        assert_eq!(tx.step(TransactionEvent::RowId(1)), TransactionAction::Nothing);
    }
}

#[test]
fn a_wrong_number_of_entry_rows_is_rolled_back() {
    for rows in [0, 1, 3] {
        let (mut tx, _) = RankingTransaction::begin(query(), 0, batch());
        tx.step(TransactionEvent::Cleared(3));
        tx.step(TransactionEvent::HeaderInserted(1));
        tx.step(TransactionEvent::RowId(5));
        assert_eq!(
            tx.step(TransactionEvent::EntriesInserted(rows)),
            TransactionAction::Rollback(PersistOutcome::RowCountMismatch {
                expected: 2,
                written: rows
            })
        );
        assert_eq!(tx.step(TransactionEvent::EntriesInserted(2)), TransactionAction::Nothing);
    }
}

#[test]
fn answers_out_of_order_are_rolled_back() {
    let out_of_order = TransactionAction::Rollback(PersistOutcome::OutOfOrder);
    let (mut tx, _) = RankingTransaction::begin(query(), 0, batch());
    assert_eq!(tx.step(TransactionEvent::HeaderInserted(1)), out_of_order);
    assert_eq!(tx.step(TransactionEvent::Cleared(0)), TransactionAction::Nothing);
    let (mut tx, _) = RankingTransaction::begin(query(), 0, batch());
    tx.step(TransactionEvent::Cleared(0));
    assert_eq!(tx.step(TransactionEvent::EntriesInserted(2)), out_of_order);
    assert_eq!(tx.step(TransactionEvent::HeaderInserted(1)), TransactionAction::Nothing);
    let (mut tx, _) = RankingTransaction::begin(query(), 0, batch());
    tx.step(TransactionEvent::Cleared(0));
    assert_eq!(tx.step(TransactionEvent::RowId(1)), out_of_order);
    let (mut tx, _) = RankingTransaction::begin(query(), 0, batch());
    tx.step(TransactionEvent::Cleared(0));
    assert_eq!(tx.step(TransactionEvent::Cleared(0)), out_of_order);
    let (mut tx, _) = RankingTransaction::begin(query(), 0, batch());
    tx.step(TransactionEvent::Cleared(0));
    tx.step(TransactionEvent::HeaderInserted(1));
    assert_eq!(tx.step(TransactionEvent::HeaderInserted(1)), out_of_order);
    let (mut tx, _) = RankingTransaction::begin(query(), 0, batch());
    tx.step(TransactionEvent::Cleared(0));
    tx.step(TransactionEvent::HeaderInserted(1));
    tx.step(TransactionEvent::RowId(1));
    assert_eq!(tx.step(TransactionEvent::RowId(1)), out_of_order);
}

#[test]
fn what_is_stored_of_a_list_is_removed_first() {
    for removed in [0, 1, 5] {
        let (mut tx, action) = RankingTransaction::begin(query(), 7, batch());
        assert_eq!(action, TransactionAction::RemoveStored(query()));
        assert_eq!(
            tx.step(TransactionEvent::Cleared(removed)),
            TransactionAction::InsertHeader(RankingHeader { queried_at: 7, ..header(2) })
        );
    }
}

#[test]
fn an_empty_batch_has_a_header_and_no_rows() {
    let (mut tx, _) = RankingTransaction::begin(query(), 1433334896, Vec::new());
    assert_eq!(
        tx.step(TransactionEvent::Cleared(0)),
        TransactionAction::InsertHeader(header(0))
    );
    tx.step(TransactionEvent::HeaderInserted(1));
    assert_eq!(tx.step(TransactionEvent::RowId(9)), TransactionAction::InsertEntries(Vec::new()));
    assert_eq!(tx.step(TransactionEvent::EntriesInserted(0)), TransactionAction::Commit);
}

#[test]
fn entry_rows_follow_the_placements() {
    assert_eq!(entry_rows(3, &Vec::new()), Vec::<RankingEntry>::new());
    assert_eq!(
        entry_rows(-3, &batch()),
        vec![
            RankingEntry { ranking_id: -3, place: 1, player_id: 2 },
            RankingEntry { ranking_id: -3, place: 3, player_id: 4 },
        ]
    );
}

#[test]
fn outcomes_are_described() {
    assert_eq!(PersistOutcome::Committed.describe(), "stored");
    assert_eq!(
        PersistOutcome::HeaderRejected(0).describe(),
        "failed to insert ranking, rows written: 0"
    );
    assert_eq!(
        PersistOutcome::RowCountMismatch { expected: 12, written: 11 }.describe(),
        "failed to insert ranking entries, count=12, inserted=11"
    );
    assert_eq!(
        PersistOutcome::TooManyPlacements.describe(),
        "too many placements for one ranking"
    );
    assert_eq!(PersistOutcome::OutOfOrder.describe(), "storage answered out of order");
}

#[test]
fn an_insert_that_ignores_conflicts_writes_one_row_or_none() {
    assert!(tablesoccer::storage::newly_inserted(1));
    assert!(!tablesoccer::storage::newly_inserted(0));
}
