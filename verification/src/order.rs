//! The order in which the records of a player are shown: the latest year
//! first, records of one year in the order in which they were stored.

use vstd::prelude::*;
use crate::ranking::RankingClass;

verus! {

/// Where a record of `year` goes into `order`, searching from `from`: behind
/// every record that is not earlier.
pub open spec fn slot(years: Seq<i32>, order: Seq<usize>, year: i32, from: int) -> int
    decreases order.len() - from,
{
    if 0 <= from < order.len() && years[order[from] as int] >= year {
        slot(years, order, year, from + 1)
    } else {
        from
    }
}

/// The positions of `years`, ordered from the latest year to the earliest;
/// positions with the same year keep their order.
pub open spec fn latest_first(years: Seq<i32>) -> Seq<usize>
    decreases years.len(),
{
    if years.len() == 0 {
        Seq::empty()
    } else {
        let before = latest_first(years.drop_last());
        before.insert(slot(years, before, years.last(), 0), (years.len() - 1) as usize)
    }
}

/// The record at position `a` is shown before the one at position `b`: it is
/// of a later year, or of the same year and stored earlier.
pub open spec fn shown_before(years: Seq<i32>, a: usize, b: usize) -> bool {
    years[a as int] > years[b as int] || (years[a as int] == years[b as int] && a < b)
}

/// `order` holds positions of `years` only, each shown before all that
/// follow it.
pub open spec fn in_order(years: Seq<i32>, order: Seq<usize>) -> bool {
    &&& forall|i: int| 0 <= i < order.len() ==> (#[trigger] order[i]) < years.len()
    &&& forall|i: int, j: int|
        0 <= i < j < order.len() ==> shown_before(years, #[trigger] order[i], #[trigger] order[j])
}

/// The slot lies inside the order, everything before it is not earlier than
/// `year`, and what stands at it is earlier.
proof fn lemma_slot(years: Seq<i32>, order: Seq<usize>, year: i32, from: int)
    requires
        0 <= from <= order.len(),
    ensures
        from <= slot(years, order, year, from) <= order.len(),
        forall|i: int|
            from <= i < slot(years, order, year, from) ==> years[(#[trigger] order[i]) as int]
                >= year,
        slot(years, order, year, from) < order.len() ==> years[order[slot(
            years,
            order,
            year,
            from,
        )] as int] < year,
    decreases order.len() - from,
{
    if from < order.len() && years[order[from] as int] >= year {
        lemma_slot(years, order, year, from + 1);
    }
}

/// Inserting the last position at its slot keeps the order.
proof fn lemma_insert_keeps_order(years: Seq<i32>, before: Seq<usize>)
    requires
        years.len() > 0,
        years.len() <= usize::MAX,
        in_order(years.drop_last(), before),
    ensures
        in_order(
            years,
            before.insert(slot(years, before, years.last(), 0), (years.len() - 1) as usize),
        ),
{
    let year = years.last();
    let at = slot(years, before, year, 0);
    let last = (years.len() - 1) as usize;
    let after = before.insert(at, last);
    lemma_slot(years, before, year, 0);
    assert forall|i: int| 0 <= i < before.len() implies years[(#[trigger] before[i]) as int]
        == years.drop_last()[before[i] as int] && before[i] < last by {}
    assert forall|i: int, j: int| 0 <= i < j < after.len() implies shown_before(
        years,
        #[trigger] after[i],
        #[trigger] after[j],
    ) by {}
    assert forall|i: int| 0 <= i < after.len() implies (#[trigger] after[i]) < years.len() by {}
}

/// The order of display is an order: it holds every position once, later
/// years stand before earlier ones, and records of one year stand as they
/// were stored.
pub proof fn lemma_latest_first(years: Seq<i32>)
    requires
        years.len() <= usize::MAX,
    ensures
        latest_first(years).len() == years.len(),
        in_order(years, latest_first(years)),
        latest_first(years).no_duplicates(),
    decreases years.len(),
{
    if years.len() > 0 {
        lemma_latest_first(years.drop_last());
        let before = latest_first(years.drop_last());
        lemma_slot(years, before, years.last(), 0);
        lemma_insert_keeps_order(years, before);
    }
    let order = latest_first(years);
    assert forall|i: int, j: int| 0 <= i < order.len() && 0 <= j < order.len() && i != j implies order[i]
        != order[j] by {}
}

/// The positions of `years` in the order of display: the latest year first,
/// positions with the same year in their own order.
pub fn by_year_descending(years: &Vec<i32>) -> (r: Vec<usize>)
    ensures
        r@ == latest_first(years@),
{
    let mut order: Vec<usize> = Vec::new();
    let mut m: usize = 0;
    while m < years.len()
        invariant
            m <= years.len(),
            order@ == latest_first(years@.take(m as int)),
            order@.len() == m,
            in_order(years@.take(m as int), order@),
        decreases years.len() - m,
    {
        let year = years[m];
        let ghost known = years@.take(m + 1);
        proof {
            assert(known.drop_last() == years@.take(m as int));
        }
        let mut at: usize = 0;
        while at < order.len() && years[order[at]] >= year
            invariant
                at <= order.len(),
                order@.len() == m,
                m < years.len(),
                known == years@.take(m + 1),
                in_order(years@.take(m as int), order@),
                slot(known, order@, year, 0) == slot(known, order@, year, at as int),
            decreases order.len() - at,
        {
            at += 1;
        }
        proof {
            lemma_insert_keeps_order(known, order@);
        }
        order.insert(at, m);
        m += 1;
    }
    proof {
        assert(years@.take(years@.len() as int) == years@);
    }
    order
}

/// The positions of the classes that are shown: all but the combined ones,
/// in their order.
pub open spec fn shown_classes(classes: Seq<RankingClass>) -> Seq<usize>
    decreases classes.len(),
{
    if classes.len() == 0 {
        Seq::empty()
    } else if classes.last() is Combined {
        shown_classes(classes.drop_last())
    } else {
        shown_classes(classes.drop_last()).push((classes.len() - 1) as usize)
    }
}

/// The positions of the rankings that are shown: those of every class but
/// the combined one, in their order.
pub fn without_combined(classes: &Vec<RankingClass>) -> (r: Vec<usize>)
    ensures
        r@ == shown_classes(classes@),
{
    let mut kept: Vec<usize> = Vec::new();
    let mut i: usize = 0;
    while i < classes.len()
        invariant
            i <= classes.len(),
            kept@ == shown_classes(classes@.take(i as int)),
        decreases classes.len() - i,
    {
        proof {
            assert(classes@.take(i + 1).drop_last() == classes@.take(i as int));
        }
        match classes[i] {
            RankingClass::Combined => {},
            _ => {
                kept.push(i);
            },
        }
        i += 1;
    }
    proof {
        assert(classes@.take(classes@.len() as int) == classes@);
    }
    kept
}

} // verus!
