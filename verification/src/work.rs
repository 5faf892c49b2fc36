//! Work items: what one fetch and one parse are made for, and how the items
//! of a run are laid out.

use vstd::prelude::*;
use crate::decimal::decimal_text;
use crate::decimal::i32_to_string;
use crate::decimal::usize_to_string;
use crate::ranking::RankingCategory;
use crate::ranking::RankingClass;
use crate::ranking::RankingQuery;
use crate::ranking::Source;

verus! {

/// How many placements one page of a ranking list holds.
pub const RANKS_PER_PAGE: usize = 100;

/// One unit of fetching and parsing.
#[derive(Clone, Copy, Debug, PartialEq, Eq, Structural)]
pub enum WorkItem {
    /// The profile page of one player.
    Player { itsf_id: i32 },
    /// One page of a ranking list; pages are counted from 1.
    RankingPage { query: RankingQuery, page: usize },
}

/// Two items belong to one logical unit, which is stored as a whole: all
/// player items form one unit, and so do the pages of one ranking list.
pub open spec fn same_unit(a: WorkItem, b: WorkItem) -> bool {
    match (a, b) {
        (WorkItem::Player { .. }, WorkItem::Player { .. }) => true,
        (WorkItem::RankingPage { query: p, .. }, WorkItem::RankingPage { query: q, .. }) => p
            == q,
        _ => false,
    }
}

/// The address of the profile page of player `itsf_id`.
pub open spec fn player_address(itsf_id: i32) -> Seq<char> {
    "https://www.tablesoccer.org/page/player&numlic="@ + decimal_text(itsf_id as int)
}

/// The address of the site of `source` that serves ranking lists.
pub open spec fn ranking_site(source: Source) -> Seq<char> {
    match source {
        Source::International => "https://www.tablesoccer.org/page/rankings"@,
        Source::National => "https://dtfb.de/index.php/rangliste"@,
    }
}

/// The address of page `page` of the ranking list `query`.
pub open spec fn ranking_address(query: RankingQuery, page: usize) -> Seq<char> {
    ranking_site(query.source) + "?year="@ + decimal_text(query.year as int) + "&category="@
        + query.category.word() + "&class="@ + query.class.word() + "&page="@ + decimal_text(
        page as int,
    )
}

/// The address from which the page of `item` is fetched.
pub open spec fn address_of(item: WorkItem) -> Seq<char> {
    match item {
        WorkItem::Player { itsf_id } => player_address(itsf_id),
        WorkItem::RankingPage { query, page } => ranking_address(query, page),
    }
}

/// The words that name a ranking list in the log.
pub open spec fn query_text(query: RankingQuery) -> Seq<char> {
    query.source.word() + " "@ + decimal_text(query.year as int) + " "@ + query.category.word()
        + " "@ + query.class.word()
}

/// The words that name an item in the log.
pub open spec fn label_text(item: WorkItem) -> Seq<char> {
    match item {
        WorkItem::Player { itsf_id } => "Player["@ + player_address(itsf_id) + "]"@,
        WorkItem::RankingPage { query, page } => "Ranking["@ + query_text(query) + " page "@
            + decimal_text(page as int) + "]"@,
    }
}

/// The words that name the unit of an item in the log.
pub open spec fn unit_text(item: WorkItem) -> Seq<char> {
    match item {
        WorkItem::Player { .. } => "Players"@,
        WorkItem::RankingPage { query, .. } => "Ranking["@ + query_text(query) + "]"@,
    }
}

/// The address of the profile page of player `itsf_id`.
pub fn player_url(itsf_id: i32) -> (r: String)
    ensures
        r@ == player_address(itsf_id),
{
    let mut out = String::from_str("https://www.tablesoccer.org/page/player&numlic=");
    let number = i32_to_string(itsf_id);
    out.append(number.as_str());
    out
}

/// The address of page `page` of the ranking list `query`.
pub fn ranking_url(query: &RankingQuery, page: usize) -> (r: String)
    ensures
        r@ == ranking_address(*query, page),
{
    let mut out = match query.source {
        Source::International => String::from_str("https://www.tablesoccer.org/page/rankings"),
        Source::National => String::from_str("https://dtfb.de/index.php/rangliste"),
    };
    let year = i32_to_string(query.year);
    let number = usize_to_string(page);
    out.append("?year=");
    out.append(year.as_str());
    out.append("&category=");
    out.append(query.category.name());
    out.append("&class=");
    out.append(query.class.name());
    out.append("&page=");
    out.append(number.as_str());
    out
}

/// Appends the words that name `query` to `out`.
fn push_query(out: &mut String, query: &RankingQuery)
    ensures
        final(out)@ == old(out)@ + query_text(*query),
{
    let year = i32_to_string(query.year);
    out.append(query.source.name());
    out.append(" ");
    out.append(year.as_str());
    out.append(" ");
    out.append(query.category.name());
    out.append(" ");
    out.append(query.class.name());
}

/// Whether two ranking lists are the same.
pub fn same_query(a: &RankingQuery, b: &RankingQuery) -> (r: bool)
    ensures
        r == (*a == *b),
{
    a.source == b.source && a.year == b.year && a.category == b.category && a.class == b.class
}

impl WorkItem {
    /// The words that name the item in the log.
    pub fn label(&self) -> (r: String)
        ensures
            r@ == label_text(*self),
    {
        match self {
            WorkItem::Player { itsf_id } => {
                let mut out = String::from_str("Player[");
                let address = player_url(*itsf_id);
                out.append(address.as_str());
                out.append("]");
                out
            },
            WorkItem::RankingPage { query, page } => {
                let mut out = String::from_str("Ranking[");
                push_query(&mut out, query);
                out.append(" page ");
                let number = usize_to_string(*page);
                out.append(number.as_str());
                out.append("]");
                out
            },
        }
    }

    /// The address from which the page of the item is fetched.
    pub fn url(&self) -> (r: String)
        ensures
            r@ == address_of(*self),
    {
        match self {
            WorkItem::Player { itsf_id } => player_url(*itsf_id),
            WorkItem::RankingPage { query, page } => ranking_url(query, *page),
        }
    }

    /// The words that name the unit of the item in the log.
    pub fn unit_label(&self) -> (r: String)
        ensures
            r@ == unit_text(*self),
    {
        match self {
            WorkItem::Player { .. } => String::from_str("Players"),
            WorkItem::RankingPage { query, .. } => {
                let mut out = String::from_str("Ranking[");
                push_query(&mut out, query);
                out.append("]");
                out
            },
        }
    }

    /// Whether the two items belong to one logical unit.
    pub fn in_unit_of(&self, other: &WorkItem) -> (r: bool)
        ensures
            r == same_unit(*self, *other),
    {
        match (self, other) {
            (WorkItem::Player { .. }, WorkItem::Player { .. }) => true,
            (WorkItem::RankingPage { query: p, .. }, WorkItem::RankingPage { query: q, .. }) => {
                same_query(p, q)
            },
            _ => false,
        }
    }
}

/// How many pages hold the first `max_rank` placements of a list.
pub open spec fn pages_needed(max_rank: usize) -> int {
    max_rank as int / RANKS_PER_PAGE as int + if max_rank as int % RANKS_PER_PAGE as int > 0 {
        1int
    } else {
        0int
    }
}

/// How many pages of a ranking list are fetched for the cap `max_rank`: as
/// few as hold the first `max_rank` placements.
pub fn pages_for(max_rank: usize) -> (r: usize)
    ensures
        r == pages_needed(max_rank),
        (r - 1) * RANKS_PER_PAGE < max_rank <= r * RANKS_PER_PAGE,
{
    let full = max_rank / RANKS_PER_PAGE;
    if max_rank % RANKS_PER_PAGE > 0 {
        full + 1
    } else {
        full
    }
}

/// The items for the profile pages of `ids`, in their order.
pub open spec fn player_items_of(ids: Seq<i32>) -> Seq<WorkItem> {
    ids.map_values(|id: i32| WorkItem::Player { itsf_id: id })
}

/// The items for the first `pages` pages of one list.
pub open spec fn page_items(query: RankingQuery, pages: int) -> Seq<WorkItem> {
    Seq::new(
        if pages > 0 {
            pages as nat
        } else {
            0
        },
        |p: int| WorkItem::RankingPage { query, page: (p + 1) as usize },
    )
}

/// The items for one year and one category: class by class, page by page.
pub open spec fn class_items(
    source: Source,
    year: i32,
    category: RankingCategory,
    classes: Seq<RankingClass>,
    pages: int,
) -> Seq<WorkItem>
    decreases classes.len(),
{
    if classes.len() == 0 {
        Seq::empty()
    } else {
        class_items(source, year, category, classes.drop_last(), pages) + page_items(
            RankingQuery { source, year, category, class: classes.last() },
            pages,
        )
    }
}

/// The items for one year: category by category.
pub open spec fn category_items(
    source: Source,
    year: i32,
    categories: Seq<RankingCategory>,
    classes: Seq<RankingClass>,
    pages: int,
) -> Seq<WorkItem>
    decreases categories.len(),
{
    if categories.len() == 0 {
        Seq::empty()
    } else {
        category_items(source, year, categories.drop_last(), classes, pages) + class_items(
            source,
            year,
            categories.last(),
            classes,
            pages,
        )
    }
}

/// The items of a ranking run: every combination of year, category and
/// class, with the years outermost and the pages of one list together.
pub open spec fn ranking_items(
    source: Source,
    years: Seq<i32>,
    categories: Seq<RankingCategory>,
    classes: Seq<RankingClass>,
    pages: int,
) -> Seq<WorkItem>
    decreases years.len(),
{
    if years.len() == 0 {
        Seq::empty()
    } else {
        ranking_items(source, years.drop_last(), categories, classes, pages) + category_items(
            source,
            years.last(),
            categories,
            classes,
            pages,
        )
    }
}

/// A ranking run has one item for every combination of year, category,
/// class and page: their number is the product of the four dimensions.
pub proof fn lemma_ranking_items_len(
    source: Source,
    years: Seq<i32>,
    categories: Seq<RankingCategory>,
    classes: Seq<RankingClass>,
    pages: int,
)
    requires
        pages >= 0,
    ensures
        ranking_items(source, years, categories, classes, pages).len() == years.len() * (
        categories.len() * (classes.len() * pages)),
    decreases years.len(),
{
    let per_year = categories.len() * (classes.len() * pages);
    if years.len() > 0 {
        lemma_ranking_items_len(source, years.drop_last(), categories, classes, pages);
        lemma_category_items_len(source, years.last(), categories, classes, pages);
        assert((years.len() - 1) * per_year + per_year == years.len() * per_year)
            by (nonlinear_arith);
    }
}

/// One year of a ranking run has one item for every combination of category,
/// class and page.
pub proof fn lemma_category_items_len(
    source: Source,
    year: i32,
    categories: Seq<RankingCategory>,
    classes: Seq<RankingClass>,
    pages: int,
)
    requires
        pages >= 0,
    ensures
        category_items(source, year, categories, classes, pages).len() == categories.len() * (
        classes.len() * pages),
    decreases categories.len(),
{
    let per_category = classes.len() * pages;
    if categories.len() > 0 {
        lemma_category_items_len(source, year, categories.drop_last(), classes, pages);
        lemma_class_items_len(source, year, categories.last(), classes, pages);
        assert((categories.len() - 1) * per_category + per_category == categories.len()
            * per_category) by (nonlinear_arith);
    }
}

/// One category of one year has one item for every combination of class and
/// page.
pub proof fn lemma_class_items_len(
    source: Source,
    year: i32,
    category: RankingCategory,
    classes: Seq<RankingClass>,
    pages: int,
)
    requires
        pages >= 0,
    ensures
        class_items(source, year, category, classes, pages).len() == classes.len() * pages,
    decreases classes.len(),
{
    if classes.len() > 0 {
        lemma_class_items_len(source, year, category, classes.drop_last(), pages);
        assert((classes.len() - 1) * pages + pages == classes.len() * pages) by (nonlinear_arith);
    }
}

/// The items for the profile pages of `ids`, in their order.
pub fn enumerate_players(ids: &Vec<i32>) -> (r: Vec<WorkItem>)
    ensures
        r@ == player_items_of(ids@),
{
    let mut items: Vec<WorkItem> = Vec::new();
    let mut i: usize = 0;
    while i < ids.len()
        invariant
            i <= ids.len(),
            items@ == player_items_of(ids@.take(i as int)),
        decreases ids.len() - i,
    {
        proof {
            assert(player_items_of(ids@.take(i + 1)) == player_items_of(ids@.take(i as int)).push(
                WorkItem::Player { itsf_id: ids@[i as int] },
            ));
        }
        items.push(WorkItem::Player { itsf_id: ids[i] });
        i += 1;
    }
    items
}

/// The items of a ranking run over the given years, categories and classes,
/// `pages` pages of each list.
pub fn enumerate_rankings(
    source: Source,
    years: &Vec<i32>,
    categories: &Vec<RankingCategory>,
    classes: &Vec<RankingClass>,
    pages: usize,
) -> (r: Vec<WorkItem>)
    ensures
        r@ == ranking_items(source, years@, categories@, classes@, pages as int),
{
    let mut items: Vec<WorkItem> = Vec::new();
    let mut y: usize = 0;
    while y < years.len()
        invariant
            y <= years.len(),
            items@ == ranking_items(
                source,
                years@.take(y as int),
                categories@,
                classes@,
                pages as int,
            ),
        decreases years.len() - y,
    {
        let year = years[y];
        let ghost done_years = items@;
        let mut c: usize = 0;
        while c < categories.len()
            invariant
                c <= categories.len(),
                items@ == done_years + category_items(
                    source,
                    year,
                    categories@.take(c as int),
                    classes@,
                    pages as int,
                ),
            decreases categories.len() - c,
        {
            let category = categories[c];
            let ghost done_categories = items@;
            let mut k: usize = 0;
            while k < classes.len()
                invariant
                    k <= classes.len(),
                    items@ == done_categories + class_items(
                        source,
                        year,
                        category,
                        classes@.take(k as int),
                        pages as int,
                    ),
                decreases classes.len() - k,
            {
                let query = RankingQuery { source, year, category, class: classes[k] };
                let ghost done_classes = items@;
                let mut p: usize = 0;
                while p < pages
                    invariant
                        p <= pages,
                        items@ == done_classes + page_items(query, p as int),
                    decreases pages - p,
                {
                    items.push(WorkItem::RankingPage { query, page: p + 1 });
                    p += 1;
                }
                proof {
                    assert(classes@.take(k + 1).drop_last() == classes@.take(k as int));
                }
                k += 1;
            }
            proof {
                assert(classes@.take(classes@.len() as int) == classes@);
                assert(categories@.take(c + 1).drop_last() == categories@.take(c as int));
            }
            c += 1;
        }
        proof {
            assert(categories@.take(categories@.len() as int) == categories@);
            assert(years@.take(y + 1).drop_last() == years@.take(y as int));
        }
        y += 1;
    }
    proof {
        assert(years@.take(years@.len() as int) == years@);
    }
    items
}

} // verus!
