use tablesoccer::errors::FetchError;
use tablesoccer::params::all_years;
use tablesoccer::params::years_through;
use tablesoccer::params::DownloadParams;
use tablesoccer::params::DEFAULT_MAX_RANK;
use tablesoccer::params::MIN_YEAR;
use tablesoccer::ranking::RankingCategory;
use tablesoccer::ranking::RankingClass;
use tablesoccer::ranking::RankingQuery;
use tablesoccer::ranking::Source;
use tablesoccer::request::all_categories;
use tablesoccer::request::all_classes;
use tablesoccer::request::player_pipeline;
use tablesoccer::request::ranking_pipeline;
use tablesoccer::work::enumerate_players;
use tablesoccer::work::enumerate_rankings;
use tablesoccer::work::pages_for;
use tablesoccer::work::player_url;
use tablesoccer::work::ranking_url;
use tablesoccer::work::same_query;
use tablesoccer::work::WorkItem;
use tablesoccer::work::RANKS_PER_PAGE;

fn params(year: Option<&str>, max_rank: Option<usize>, force: Option<&str>) -> DownloadParams {
    DownloadParams { year: year.map(String::from), max_rank, force: force.map(String::from) }
}

#[test]
fn year_defaults_to_the_current_year() {
    assert_eq!(params(None, None, None).parse_year_in(2023), Some(2023));
    assert_eq!(params(None, None, None).parse_year_in(1999), Some(1999));
}

#[test]
fn year_must_lie_between_the_first_year_and_now() {
    assert_eq!(MIN_YEAR, 2010);
    assert_eq!(params(Some("2010"), None, None).parse_year_in(2023), Some(2010));
    assert_eq!(params(Some("2023"), None, None).parse_year_in(2023), Some(2023));
    assert_eq!(params(Some("2015"), None, None).parse_year_in(2023), Some(2015));
    assert_eq!(params(Some("2009"), None, None).parse_year_in(2023), None);
    assert_eq!(params(Some("2024"), None, None).parse_year_in(2023), None);
    assert_eq!(params(Some("-2015"), None, None).parse_year_in(2023), None);
    assert_eq!(params(Some("2010"), None, None).parse_year_in(2009), None);
}

#[test]
fn year_must_be_a_number() {
    assert_eq!(params(Some(""), None, None).parse_year_in(2023), None);
    assert_eq!(params(Some("twenty"), None, None).parse_year_in(2023), None);
    assert_eq!(params(Some("2015 "), None, None).parse_year_in(2023), None);
    assert_eq!(params(Some("99999999999"), None, None).parse_year_in(2023), None);
}

#[test]
fn year_by_the_clock() {
    let now = params(None, None, None).parse_year().unwrap();
    assert!(now >= 2024);
    assert_eq!(params(Some("2012"), None, None).parse_year(), Some(2012));
    assert_eq!(params(Some("1999"), None, None).parse_year(), None);
    assert_eq!(params(Some("x"), None, None).parse_year(), None);
    let years = all_years();
    assert_eq!(years, years_through(now));
}

#[test]
fn force_is_set_by_the_exact_word() {
    assert!(params(None, None, Some("true")).parse_force());
    assert!(!params(None, None, Some("True")).parse_force());
    assert!(!params(None, None, Some("1")).parse_force());
    assert!(!params(None, None, Some("")).parse_force());
    assert!(!params(None, None, Some("false")).parse_force());
    assert!(!params(None, None, None).parse_force());
}

#[test]
fn rank_cap_has_a_default() {
    assert_eq!(DEFAULT_MAX_RANK, 1000);
    assert_eq!(params(None, None, None).rank_cap(), 1000);
    assert_eq!(params(None, Some(50), None).rank_cap(), 50);
    assert_eq!(params(None, Some(0), None).rank_cap(), 0);
}

#[test]
fn years_run_from_the_first_year() {
    assert_eq!(years_through(2009), Vec::<i32>::new());
    assert_eq!(years_through(2010), vec![2010]);
    assert_eq!(years_through(2013), vec![2010, 2011, 2012, 2013]);
    assert_eq!(years_through(i32::MIN), Vec::<i32>::new());
}

#[test]
fn category_words() {
    assert_eq!(RankingCategory::parse("open"), Some(RankingCategory::Open));
    assert_eq!(RankingCategory::parse("Women"), Some(RankingCategory::Women));
    assert_eq!(RankingCategory::parse("SENIOR"), Some(RankingCategory::Senior));
    assert_eq!(RankingCategory::parse("jUnIoR"), Some(RankingCategory::Junior));
    assert_eq!(RankingCategory::parse("men"), None);
    assert_eq!(RankingCategory::parse(""), None);
    assert_eq!(RankingCategory::parse("open "), None);
    for c in all_categories() {
        assert_eq!(RankingCategory::parse(c.name()), Some(c));
    }
}

#[test]
fn class_words_name_three_classes() {
    assert_eq!(RankingClass::parse("singles"), Some(RankingClass::Singles));
    assert_eq!(RankingClass::parse("doubles"), Some(RankingClass::Doubles));
    assert_eq!(RankingClass::parse("combined"), Some(RankingClass::Combined));
    assert_eq!(RankingClass::parse("DOUBLES"), Some(RankingClass::Doubles));
    assert_eq!(RankingClass::parse("Combined"), Some(RankingClass::Combined));
    assert_eq!(RankingClass::parse("single"), None);
    assert_eq!(RankingClass::parse(""), None);
    for c in all_classes() {
        assert_eq!(RankingClass::parse(c.name()), Some(c));
    }
}

#[test]
fn the_lists_of_categories_and_classes() {
    assert_eq!(
        all_categories(),
        vec![
            RankingCategory::Open,
            RankingCategory::Women,
            RankingCategory::Senior,
            RankingCategory::Junior
        ]
    );
    assert_eq!(
        all_classes(),
        vec![RankingClass::Singles, RankingClass::Doubles, RankingClass::Combined]
    );
}

#[test]
fn pages_cover_the_rank_cap() {
    assert_eq!(RANKS_PER_PAGE, 100);
    assert_eq!(pages_for(0), 0);
    assert_eq!(pages_for(1), 1);
    assert_eq!(pages_for(100), 1);
    assert_eq!(pages_for(101), 2);
    assert_eq!(pages_for(1000), 10);
    assert_eq!(pages_for(usize::MAX), usize::MAX / 100 + 1);
}

#[test]
fn player_items_follow_the_ids() {
    assert_eq!(enumerate_players(&vec![]), Vec::<WorkItem>::new());
    assert_eq!(
        enumerate_players(&vec![5, 3, 5]),
        vec![
            WorkItem::Player { itsf_id: 5 },
            WorkItem::Player { itsf_id: 3 },
            WorkItem::Player { itsf_id: 5 }
        ]
    );
}

fn page(year: i32, category: RankingCategory, class: RankingClass, page: usize) -> WorkItem {
    WorkItem::RankingPage {
        query: RankingQuery { source: Source::International, year, category, class },
        page,
    }
}

#[test]
fn ranking_items_are_the_product_in_order() {
    let items = enumerate_rankings(
        Source::International,
        &vec![2019, 2020],
        &vec![RankingCategory::Open, RankingCategory::Women],
        &vec![RankingClass::Singles, RankingClass::Doubles],
        2,
    );
    let o = RankingCategory::Open;
    let w = RankingCategory::Women;
    let s = RankingClass::Singles;
    let d = RankingClass::Doubles;
    assert_eq!(
        items,
        vec![
            page(2019, o, s, 1),
            page(2019, o, s, 2),
            page(2019, o, d, 1),
            page(2019, o, d, 2),
            page(2019, w, s, 1),
            page(2019, w, s, 2),
            page(2019, w, d, 1),
            page(2019, w, d, 2),
            page(2020, o, s, 1),
            page(2020, o, s, 2),
            page(2020, o, d, 1),
            page(2020, o, d, 2),
            page(2020, w, s, 1),
            page(2020, w, s, 2),
            page(2020, w, d, 1),
            page(2020, w, d, 2),
        ]
    );
}

#[test]
fn ranking_items_of_an_empty_dimension() {
    let o = vec![RankingCategory::Open];
    let s = vec![RankingClass::Singles];
    assert!(enumerate_rankings(Source::National, &vec![], &o, &s, 3).is_empty());
    assert!(enumerate_rankings(Source::National, &vec![2020], &vec![], &s, 3).is_empty());
    assert!(enumerate_rankings(Source::National, &vec![2020], &o, &vec![], 3).is_empty());
    assert!(enumerate_rankings(Source::National, &vec![2020], &o, &s, 0).is_empty());
}

#[test]
fn pipelines_count_their_items() {
    let rankings = ranking_pipeline(Source::International, &vec![2019, 2020], 250, false);
    assert_eq!(rankings.max(), 2 * 4 * 3 * 3);
    assert_eq!(rankings.progress(), 0);
    assert!(!rankings.is_done());
    let players = player_pipeline(&vec![1, 2, 3]);
    assert_eq!(players.max(), 3);
    assert_eq!(players.progress(), 0);
}

#[test]
fn labels_name_the_item() {
    assert_eq!(player_url(4711), "https://www.tablesoccer.org/page/player&numlic=4711");
    assert_eq!(
        WorkItem::Player { itsf_id: 4711 }.label(),
        "Player[https://www.tablesoccer.org/page/player&numlic=4711]"
    );
    assert_eq!(WorkItem::Player { itsf_id: 4711 }.unit_label(), "Players");
    let item = page(2019, RankingCategory::Senior, RankingClass::Combined, 3);
    assert_eq!(item.label(), "Ranking[international 2019 senior combined page 3]");
    assert_eq!(item.unit_label(), "Ranking[international 2019 senior combined]");
}

#[test]
fn addresses_of_the_pages() {
    assert_eq!(
        WorkItem::Player { itsf_id: 4711 }.url(),
        "https://www.tablesoccer.org/page/player&numlic=4711"
    );
    let item = page(2019, RankingCategory::Senior, RankingClass::Combined, 3);
    assert_eq!(
        item.url(),
        "https://www.tablesoccer.org/page/rankings?year=2019&category=senior&class=combined&page=3"
    );
    let national = RankingQuery {
        source: Source::National,
        year: 2021,
        category: RankingCategory::Open,
        class: RankingClass::Doubles,
    };
    assert_eq!(
        ranking_url(&national, 12),
        "https://dtfb.de/index.php/rangliste?year=2021&category=open&class=doubles&page=12"
    );
}

#[test]
fn units_are_the_players_and_each_list() {
    let a = page(2019, RankingCategory::Open, RankingClass::Singles, 1);
    let b = page(2019, RankingCategory::Open, RankingClass::Singles, 2);
    let c = page(2019, RankingCategory::Open, RankingClass::Doubles, 1);
    let p = WorkItem::Player { itsf_id: 1 };
    let q = WorkItem::Player { itsf_id: 2 };
    assert!(a.in_unit_of(&b));
    assert!(!a.in_unit_of(&c));
    assert!(!a.in_unit_of(&p));
    assert!(!p.in_unit_of(&a));
    assert!(p.in_unit_of(&q));
    let x = RankingQuery {
        source: Source::National,
        year: 2019,
        category: RankingCategory::Open,
        class: RankingClass::Singles,
    };
    let y = RankingQuery { source: Source::International, ..x };
    assert!(same_query(&x, &x));
    assert!(!same_query(&x, &y));
}

#[test]
fn fetch_errors() {
    assert_eq!(FetchError::from_status(200), None);
    assert_eq!(FetchError::from_status(204), None);
    assert_eq!(FetchError::from_status(299), None);
    assert_eq!(FetchError::from_status(199), Some(FetchError::HttpStatus(199)));
    assert_eq!(FetchError::from_status(300), Some(FetchError::HttpStatus(300)));
    assert_eq!(FetchError::from_status(404), Some(FetchError::HttpStatus(404)));
    assert_eq!(FetchError::HttpStatus(404).describe(), "http status 404");
    assert_eq!(FetchError::Unreachable.describe(), "host unreachable");
    assert_eq!(FetchError::Timeout.describe(), "timed out");
}
