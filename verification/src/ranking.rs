//! Ranking lists: their coordinates, the request vocabulary, and the parser
//! of one page of a list.
//!
//! A ranking page holds one `div` of class `classement` for each placement.
//! The first text of the `div` is the rank, and the text of its `span` is the
//! licence number of the player.

use vstd::prelude::*;
use crate::decimal::decimal_i32;
use crate::decimal::parse_i32;
use crate::errors::ParseError;
use crate::errors::ParseErrorView;
use crate::markup::block_views;
use crate::markup::blocks_with_attr;
use crate::markup::read_blocks;
use crate::markup::selected_blocks;
use crate::markup::with_attr;
use crate::markup::Block;
use crate::markup::BlockView;
use crate::text::chars_lowercased;
use crate::text::chars_of;
use crate::text::lowercased;
use crate::text::string_of;
use crate::text::same_text;

verus! {

/// Whose ranking a list is.
#[derive(Clone, Copy, Debug, PartialEq, Eq, Structural)]
pub enum Source {
    /// The international federation.
    International,
    /// The national federation.
    National,
}

/// The field of players that a list ranks.
#[derive(Clone, Copy, Debug, PartialEq, Eq, Structural)]
pub enum RankingCategory {
    Open,
    Women,
    Senior,
    Junior,
}

/// The discipline that a list ranks.
#[derive(Clone, Copy, Debug, PartialEq, Eq, Structural)]
pub enum RankingClass {
    Singles,
    Doubles,
    Combined,
}

/// One ranking list: the unit that is stored as a whole.
#[derive(Clone, Copy, Debug, PartialEq, Eq, Structural)]
pub struct RankingQuery {
    pub source: Source,
    pub year: i32,
    pub category: RankingCategory,
    pub class: RankingClass,
}

/// One line of a ranking list.
#[derive(Clone, Copy, Debug, PartialEq, Eq, Structural)]
pub struct Placement {
    pub rank: i32,
    pub player_id: i32,
}

/// The category that a request names, whatever the case of its letters.
pub open spec fn category_named(text: Seq<char>) -> Option<RankingCategory> {
    let lower = lowercased(text);
    if lower == "open"@ {
        Some(RankingCategory::Open)
    } else if lower == "women"@ {
        Some(RankingCategory::Women)
    } else if lower == "senior"@ {
        Some(RankingCategory::Senior)
    } else if lower == "junior"@ {
        Some(RankingCategory::Junior)
    } else {
        None
    }
}

/// The class that a request names, whatever the case of its letters.
pub open spec fn class_named(text: Seq<char>) -> Option<RankingClass> {
    let lower = lowercased(text);
    if lower == "singles"@ {
        Some(RankingClass::Singles)
    } else if lower == "doubles"@ {
        Some(RankingClass::Doubles)
    } else if lower == "combined"@ {
        Some(RankingClass::Combined)
    } else {
        None
    }
}

impl RankingCategory {
    /// The category that `text` names: one of `open`, `women`, `senior` and
    /// `junior`, in any case. `None` for every other text.
    pub fn parse(text: &str) -> (r: Option<RankingCategory>)
        ensures
            r == category_named(text@),
    {
        let chars = chars_of(text);
        let lower = string_of(&chars_lowercased(&chars));
        if same_text(lower.as_str(), "open") {
            Some(RankingCategory::Open)
        } else if same_text(lower.as_str(), "women") {
            Some(RankingCategory::Women)
        } else if same_text(lower.as_str(), "senior") {
            Some(RankingCategory::Senior)
        } else if same_text(lower.as_str(), "junior") {
            Some(RankingCategory::Junior)
        } else {
            None
        }
    }

    /// The word for the category.
    pub open spec fn word(self) -> Seq<char> {
        match self {
            RankingCategory::Open => "open"@,
            RankingCategory::Women => "women"@,
            RankingCategory::Senior => "senior"@,
            RankingCategory::Junior => "junior"@,
        }
    }

    /// The word for the category.
    pub fn name(&self) -> (r: &'static str)
        ensures
            r@ == self.word(),
    {
        match self {
            RankingCategory::Open => "open",
            RankingCategory::Women => "women",
            RankingCategory::Senior => "senior",
            RankingCategory::Junior => "junior",
        }
    }
}

impl RankingClass {
    /// The class that `text` names: one of `singles`, `doubles` and
    /// `combined`, in any case, each a class of its own. `None` for every
    /// other text.
    pub fn parse(text: &str) -> (r: Option<RankingClass>)
        ensures
            r == class_named(text@),
    {
        let chars = chars_of(text);
        let lower = string_of(&chars_lowercased(&chars));
        if same_text(lower.as_str(), "singles") {
            Some(RankingClass::Singles)
        } else if same_text(lower.as_str(), "doubles") {
            Some(RankingClass::Doubles)
        } else if same_text(lower.as_str(), "combined") {
            Some(RankingClass::Combined)
        } else {
            None
        }
    }

    /// The word for the class.
    pub open spec fn word(self) -> Seq<char> {
        match self {
            RankingClass::Singles => "singles"@,
            RankingClass::Doubles => "doubles"@,
            RankingClass::Combined => "combined"@,
        }
    }

    /// The word for the class.
    pub fn name(&self) -> (r: &'static str)
        ensures
            r@ == self.word(),
    {
        match self {
            RankingClass::Singles => "singles",
            RankingClass::Doubles => "doubles",
            RankingClass::Combined => "combined",
        }
    }
}

impl Source {
    /// The word for the source.
    pub open spec fn word(self) -> Seq<char> {
        match self {
            Source::International => "international"@,
            Source::National => "national"@,
        }
    }

    /// The word for the source.
    pub fn name(&self) -> (r: &'static str)
        ensures
            r@ == self.word(),
    {
        match self {
            Source::International => "international",
            Source::National => "national",
        }
    }
}

/// The number that an optional text writes.
pub open spec fn number_in(text: Option<Seq<char>>) -> Option<i32> {
    match text {
        Some(t) => decimal_i32(t),
        None => None,
    }
}

/// The text of the nested element of a block, if it has one with a text.
pub open spec fn nested_text(block: BlockView) -> Option<Seq<char>> {
    match block.nested {
        Some(inner) => inner,
        None => None,
    }
}

/// The placement that the block at position `at` holds.
pub open spec fn placement_of(block: BlockView, at: usize) -> Result<Placement, ParseErrorView> {
    if number_in(block.text) is None {
        Err(ParseErrorView::InvalidRank(at))
    } else if number_in(nested_text(block)) is None {
        Err(ParseErrorView::InvalidPlayer(at))
    } else {
        Ok(
            Placement {
                rank: number_in(block.text)->0,
                player_id: number_in(nested_text(block))->0,
            },
        )
    }
}

/// The placements that the rows hold, in order, or the error of the first
/// row that holds none.
pub open spec fn placements_of(rows: Seq<BlockView>) -> Result<Seq<Placement>, ParseErrorView>
    decreases rows.len(),
{
    if rows.len() == 0 {
        Ok(Seq::empty())
    } else {
        match placements_of(rows.drop_last()) {
            Err(e) => Err(e),
            Ok(before) => match placement_of(rows.last(), (rows.len() - 1) as usize) {
                Ok(p) => Ok(before.push(p)),
                Err(e) => Err(e),
            },
        }
    }
}

/// What the blocks of a ranking page hold: the placements of its rows, and
/// an error where there is no row or a row cannot be read.
pub open spec fn ranking_of(blocks: Seq<BlockView>) -> Result<Seq<Placement>, ParseErrorView> {
    let rows = with_attr(blocks, "classement"@);
    if rows.len() == 0 {
        Err(ParseErrorView::NoPlacements)
    } else {
        placements_of(rows)
    }
}

/// The outcome of parsing a ranking page, by views.
pub open spec fn fragment_view(r: Result<Vec<Placement>, ParseError>) -> Result<
    Seq<Placement>,
    ParseErrorView,
> {
    match r {
        Ok(placements) => Ok(placements@),
        Err(e) => Err(e@),
    }
}

/// The number that an optional text writes.
fn read_number(text: &Option<String>) -> (r: Option<i32>)
    ensures
        r == number_in(crate::markup::opt_text(*text)),
{
    match text {
        Some(t) => parse_i32(t.as_str()),
        None => None,
    }
}

/// Reads the placements of a ranking page from its blocks.
pub fn ranking_from_blocks(blocks: &Vec<Block>) -> (r: Result<Vec<Placement>, ParseError>)
    ensures
        fragment_view(r) == ranking_of(block_views(blocks@)),
{
    let rows = blocks_with_attr(blocks, "classement");
    if rows.len() == 0 {
        return Err(ParseError::NoPlacements);
    }
    let ghost views = rows@.map_values(|b: &Block| b@);
    let mut out: Vec<Placement> = Vec::new();
    let mut i: usize = 0;
    while i < rows.len()
        invariant
            i <= rows.len(),
            views == rows@.map_values(|b: &Block| b@),
            views == with_attr(block_views(blocks@), "classement"@),
            views.len() > 0,
            placements_of(views.take(i as int)) == Ok::<Seq<Placement>, ParseErrorView>(out@),
        decreases rows.len() - i,
    {
        let row: &Block = rows[i];
        proof {
            assert(views.take(i + 1).drop_last() == views.take(i as int));
        }
        let rank = match read_number(&row.text) {
            Some(rank) => rank,
            None => {
                proof {
                    lemma_error_stays(views, i + 1);
                }
                return Err(ParseError::InvalidRank(i));
            },
        };
        let player_id = match &row.nested {
            Some(inner) => read_number(inner),
            None => None,
        };
        let player_id = match player_id {
            Some(id) => id,
            None => {
                proof {
                    lemma_error_stays(views, i + 1);
                }
                return Err(ParseError::InvalidPlayer(i));
            },
        };
        out.push(Placement { rank, player_id });
        i += 1;
    }
    proof {
        assert(views.take(rows@.len() as int) == views);
    }
    Ok(out)
}

/// An error among the first `k` rows is the error of all the rows.
proof fn lemma_error_stays(rows: Seq<BlockView>, k: int)
    requires
        0 <= k <= rows.len(),
        placements_of(rows.take(k)) is Err,
    ensures
        placements_of(rows) == placements_of(rows.take(k)),
    decreases rows.len(),
{
    if k == rows.len() {
        assert(rows.take(k) == rows);
    } else {
        assert(rows.drop_last().take(k) == rows.take(k));
        lemma_error_stays(rows.drop_last(), k);
    }
}

/// What a ranking page holds.
pub open spec fn parsed_ranking(page: Seq<char>) -> Result<Seq<Placement>, ParseErrorView> {
    match selected_blocks(page, "div"@, "class"@, "span"@) {
        Some(blocks) => ranking_of(blocks),
        None => Err(ParseErrorView::InvalidSelector),
    }
}

/// Reads the placements of one page of a ranking list from its markup.
pub fn parse_ranking_page(page: &str) -> (r: Result<Vec<Placement>, ParseError>)
    ensures
        fragment_view(r) == parsed_ranking(page@),
{
    match read_blocks(page, "div", "class", "span") {
        Ok(blocks) => ranking_from_blocks(&blocks),
        Err(e) => Err(e),
    }
}

} // verus!
