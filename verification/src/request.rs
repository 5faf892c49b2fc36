//! From a request to the pipeline of its run.

use vstd::prelude::*;
use crate::pipeline::Pipeline;
use crate::pipeline::PipelineView;
use crate::ranking::RankingCategory;
use crate::ranking::RankingClass;
use crate::ranking::Source;
use crate::work::enumerate_players;
use crate::work::enumerate_rankings;
use crate::work::pages_for;
use crate::work::pages_needed;
use crate::work::player_items_of;
use crate::work::ranking_items;

verus! {

/// Every ranking category, in the order in which a run takes them.
pub open spec fn every_category() -> Seq<RankingCategory> {
    seq![
        RankingCategory::Open,
        RankingCategory::Women,
        RankingCategory::Senior,
        RankingCategory::Junior,
    ]
}

/// Every ranking class, in the order in which a run takes them.
pub open spec fn every_class() -> Seq<RankingClass> {
    seq![RankingClass::Singles, RankingClass::Doubles, RankingClass::Combined]
}

/// Every ranking category, in the order in which a run takes them.
pub fn all_categories() -> (r: Vec<RankingCategory>)
    ensures
        r@ == every_category(),
{
    let mut out: Vec<RankingCategory> = Vec::new();
    out.push(RankingCategory::Open);
    out.push(RankingCategory::Women);
    out.push(RankingCategory::Senior);
    out.push(RankingCategory::Junior);
    out
}

/// Every ranking class, in the order in which a run takes them.
pub fn all_classes() -> (r: Vec<RankingClass>)
    ensures
        r@ == every_class(),
{
    let mut out: Vec<RankingClass> = Vec::new();
    out.push(RankingClass::Singles);
    out.push(RankingClass::Doubles);
    out.push(RankingClass::Combined);
    out
}

/// The pipeline of a run that downloads the rankings of `source` for the
/// given years, in every category and class, up to rank `max_rank`.
pub fn ranking_pipeline(source: Source, years: &Vec<i32>, max_rank: usize, force: bool) -> (r:
    Pipeline)
    ensures
        r@ == PipelineView::fresh(
            ranking_items(
                source,
                years@,
                every_category(),
                every_class(),
                pages_needed(max_rank),
            ),
            force,
        ),
        r@.wf(),
{
    let categories = all_categories();
    let classes = all_classes();
    let items = enumerate_rankings(source, years, &categories, &classes, pages_for(max_rank));
    Pipeline::new(items, force)
}

/// The pipeline of a run that downloads the profiles of the given players.
pub fn player_pipeline(ids: &Vec<i32>) -> (r: Pipeline)
    ensures
        r@ == PipelineView::fresh(player_items_of(ids@), true),
        r@.wf(),
{
    Pipeline::new(enumerate_players(ids), true)
}

} // verus!
