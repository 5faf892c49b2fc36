use tablesoccer::errors::FetchError;
use tablesoccer::pipeline::Action;
use tablesoccer::pipeline::Event;
use tablesoccer::pipeline::Phase;
use tablesoccer::pipeline::Pipeline;
use tablesoccer::pipeline::Step;
use tablesoccer::player::PlayerCategory;
use tablesoccer::player::PlayerProfile;
use tablesoccer::ranking::Placement;
use tablesoccer::ranking::RankingCategory;
use tablesoccer::ranking::RankingClass;
use tablesoccer::ranking::RankingQuery;
use tablesoccer::ranking::Source;
use tablesoccer::request::player_pipeline;
use tablesoccer::run::drive;
use tablesoccer::run::start_run;
use tablesoccer::storage::PersistOutcome;
use tablesoccer::supervisor::RunStatus;
use tablesoccer::supervisor::Supervisor;
use tablesoccer::work::enumerate_rankings;
use tablesoccer::work::WorkItem;

fn profile_page(name: &str, country: &str, category: &str, year: &str) -> String {
    format!(
        "<html><body><div class=\"nomdujoueur\">{}<span>{}</span></div>\
         <div class=\"contenu_typeinfojoueur\">12345</div>\
         <div class=\"contenu_typeinfojoueur even\">{}</div>\
         <div class=\"contenu_typeinfojoueur\">{}</div></body></html>",
        name, country, category, year
    )
}

fn ranking_page(rows: &[(i32, i32)]) -> String {
    let mut page = String::from("<html><body>");
    for (rank, player) in rows {
        page.push_str(&format!("<div class=\"classement\">{}<span>{}</span></div>", rank, player));
    }
    page.push_str("</body></html>");
    page
}

fn player(id: i32) -> WorkItem {
    WorkItem::Player { itsf_id: id }
}

fn query(year: i32, class: RankingClass) -> RankingQuery {
    RankingQuery { source: Source::International, year, category: RankingCategory::Open, class }
}

fn fetched(page: String) -> Event {
    Event::Fetched(Ok(page))
}

fn no_lines() -> Vec<String> {
    Vec::new()
}

fn max_profile() -> PlayerProfile {
    PlayerProfile {
        itsf_id: 1,
        first_name: String::from("Max"),
        last_name: String::from("Mustermann"),
        birth_year: 1985,
        country_code: String::from("GER"),
        category: PlayerCategory::Men,
    }
}

#[test]
fn an_empty_run_ends_at_once() {
    let mut pipeline = player_pipeline(&vec![]);
    assert_eq!(pipeline.phase(), Phase::Enumerating);
    assert_eq!(pipeline.step(Event::Start), Step { action: Action::Finish, lines: no_lines() });
    assert!(pipeline.is_done());
    assert_eq!(pipeline.progress(), 0);
    assert_eq!(pipeline.max(), 0);
    assert_eq!(pipeline.step(Event::Start), Step { action: Action::Finish, lines: no_lines() });
    assert_eq!(
        pipeline.step(Event::Exists(true)),
        Step { action: Action::Finish, lines: no_lines() }
    );
}

#[test]
fn players_are_fetched_in_order_and_stored_together() {
    let mut pipeline = player_pipeline(&vec![1, 2]);
    assert_eq!(
        pipeline.step(Event::Start),
        Step { action: Action::Fetch(player(1)), lines: no_lines() }
    );
    assert_eq!(pipeline.phase(), Phase::Processing);
    assert_eq!(
        pipeline.step(fetched(profile_page("MUSTERMANN Max", "(GER)", "MEN", "1985"))),
        Step { action: Action::Fetch(player(2)), lines: no_lines() }
    );
    assert_eq!(pipeline.progress(), 1);
    let step = pipeline.step(fetched(profile_page("DOE Jane", "(USA)", "WOMEN", "1990")));
    let jane = PlayerProfile {
        itsf_id: 2,
        first_name: String::from("Jane"),
        last_name: String::from("Doe"),
        birth_year: 1990,
        country_code: String::from("USA"),
        category: PlayerCategory::Women,
    };
    assert_eq!(
        step,
        Step { action: Action::PersistPlayers(vec![max_profile(), jane]), lines: no_lines() }
    );
    assert_eq!(pipeline.phase(), Phase::Persisting);
    assert_eq!(pipeline.progress(), 2);
    assert_eq!(
        pipeline.step(Event::Persisted(PersistOutcome::Committed)),
        Step { action: Action::Finish, lines: no_lines() }
    );
    assert_eq!(pipeline.phase(), Phase::Done);
    assert_eq!(pipeline.progress(), 2);
    assert_eq!(pipeline.max(), 2);
}

#[test]
fn a_birth_year_that_is_no_number_costs_one_warning() {
    let mut pipeline = player_pipeline(&vec![1, 2]);
    pipeline.step(Event::Start);
    let step = pipeline.step(fetched(profile_page("MUSTERMANN Max", "(GER)", "MEN", "n/a")));
    assert_eq!(
        step,
        Step {
            action: Action::Fetch(player(2)),
            lines: vec![String::from(
                "Player[https://www.tablesoccer.org/page/player&numlic=1]: \
                 can't parse birth year 'n/a'"
            )],
        }
    );
    assert_eq!(pipeline.progress(), 1);
    let step = pipeline.step(Event::Fetched(Err(FetchError::Timeout)));
    let unknown = PlayerProfile { birth_year: 0, ..max_profile() };
    assert_eq!(
        step,
        Step {
            action: Action::PersistPlayers(vec![unknown]),
            lines: vec![String::from(
                "Player[https://www.tablesoccer.org/page/player&numlic=2]: timed out"
            )],
        }
    );
}

#[test]
fn a_country_code_without_parentheses_skips_the_item() {
    let mut pipeline = player_pipeline(&vec![1, 2, 3]);
    pipeline.step(Event::Start);
    let step = pipeline.step(fetched(profile_page("DOE Jo", "GER", "MEN", "1985")));
    assert_eq!(
        step,
        Step {
            action: Action::Fetch(player(2)),
            lines: vec![String::from(
                "Player[https://www.tablesoccer.org/page/player&numlic=1]: \
                 invalid country code (\"GER\")"
            )],
        }
    );
    assert_eq!(pipeline.progress(), 1);
    assert_eq!(pipeline.max(), 3);
    assert_eq!(pipeline.phase(), Phase::Processing);
    let step = pipeline.step(fetched(profile_page("MUSTERMANN Max", "(GER)", "MEN", "1985")));
    assert_eq!(step, Step { action: Action::Fetch(player(3)), lines: no_lines() });
    assert_eq!(pipeline.progress(), 2);
    assert_eq!(pipeline.max(), 3);
    let step = pipeline.step(Event::Fetched(Err(FetchError::HttpStatus(503))));
    let first = PlayerProfile { itsf_id: 2, ..max_profile() };
    assert_eq!(
        step,
        Step {
            action: Action::PersistPlayers(vec![first]),
            lines: vec![String::from(
                "Player[https://www.tablesoccer.org/page/player&numlic=3]: http status 503"
            )],
        }
    );
    assert_eq!(pipeline.progress(), 3);
    assert_eq!(pipeline.max(), 3);
}

#[test]
fn a_unit_without_a_readable_page_is_not_stored() {
    let mut pipeline = player_pipeline(&vec![1, 2]);
    pipeline.step(Event::Start);
    pipeline.step(Event::Fetched(Err(FetchError::Unreachable)));
    let step = pipeline.step(fetched(String::from("<html></html>")));
    assert_eq!(
        step,
        Step {
            action: Action::Finish,
            lines: vec![
                String::from(
                    "Player[https://www.tablesoccer.org/page/player&numlic=2]: \
                     can't find div nomdujoueur"
                ),
                String::from("Players: nothing to store"),
            ],
        }
    );
    assert!(pipeline.is_done());
    assert_eq!(pipeline.progress(), 2);
}

fn two_lists(force: bool) -> Pipeline {
    let items = enumerate_rankings(
        Source::International,
        &vec![2020],
        &vec![RankingCategory::Open],
        &vec![RankingClass::Singles, RankingClass::Doubles],
        2,
    );
    Pipeline::new(items, force)
}

fn page_of(class: RankingClass, page: usize) -> WorkItem {
    WorkItem::RankingPage { query: query(2020, class), page }
}

#[test]
fn stored_lists_are_not_fetched_again() {
    let mut pipeline = two_lists(false);
    assert_eq!(pipeline.max(), 4);
    assert_eq!(
        pipeline.step(Event::Start),
        Step { action: Action::CheckStore(query(2020, RankingClass::Singles)), lines: no_lines() }
    );
    assert_eq!(pipeline.phase(), Phase::CheckingStore);
    assert_eq!(
        pipeline.step(Event::Exists(true)),
        Step {
            action: Action::CheckStore(query(2020, RankingClass::Doubles)),
            lines: vec![String::from(
                "Ranking[international 2020 open singles]: already stored, skipped"
            )],
        }
    );
    assert_eq!(pipeline.progress(), 2);
    assert_eq!(
        pipeline.step(Event::Exists(true)),
        Step {
            action: Action::Finish,
            lines: vec![String::from(
                "Ranking[international 2020 open doubles]: already stored, skipped"
            )],
        }
    );
    assert_eq!(pipeline.progress(), 4);
    assert_eq!(pipeline.max(), 4);
    assert!(pipeline.is_done());
}

#[test]
fn lists_that_are_not_stored_are_fetched_page_by_page() {
    let mut pipeline = two_lists(false);
    pipeline.step(Event::Start);
    assert_eq!(
        pipeline.step(Event::Exists(false)),
        Step { action: Action::Fetch(page_of(RankingClass::Singles, 1)), lines: no_lines() }
    );
    assert_eq!(pipeline.progress(), 0);
    assert_eq!(
        pipeline.step(fetched(ranking_page(&[(1, 10), (2, 20)]))),
        Step { action: Action::Fetch(page_of(RankingClass::Singles, 2)), lines: no_lines() }
    );
    assert_eq!(
        pipeline.step(fetched(ranking_page(&[(3, 30)]))),
        Step {
            action: Action::PersistRanking {
                query: query(2020, RankingClass::Singles),
                placements: vec![
                    Placement { rank: 1, player_id: 10 },
                    Placement { rank: 2, player_id: 20 },
                    Placement { rank: 3, player_id: 30 },
                ],
            },
            lines: no_lines(),
        }
    );
    assert_eq!(pipeline.progress(), 2);
    assert_eq!(
        pipeline.step(Event::Persisted(PersistOutcome::Committed)),
        Step { action: Action::CheckStore(query(2020, RankingClass::Doubles)), lines: no_lines() }
    );
}

#[test]
fn a_forced_run_fetches_without_asking() {
    let mut pipeline = two_lists(true);
    assert_eq!(
        pipeline.step(Event::Start),
        Step { action: Action::Fetch(page_of(RankingClass::Singles, 1)), lines: no_lines() }
    );
    pipeline.step(fetched(ranking_page(&[(1, 10)])));
    let step = pipeline.step(fetched(ranking_page(&[])));
    assert_eq!(
        step,
        Step {
            action: Action::PersistRanking {
                query: query(2020, RankingClass::Singles),
                placements: vec![Placement { rank: 1, player_id: 10 }],
            },
            lines: vec![String::from(
                "Ranking[international 2020 open singles page 2]: can't find any placement"
            )],
        }
    );
    assert_eq!(
        pipeline.step(Event::Persisted(PersistOutcome::Committed)),
        Step { action: Action::Fetch(page_of(RankingClass::Doubles, 1)), lines: no_lines() }
    );
}

#[test]
fn a_batch_that_is_not_stored_is_logged_and_the_run_goes_on() {
    let mut pipeline = two_lists(true);
    pipeline.step(Event::Start);
    pipeline.step(fetched(ranking_page(&[(1, 10)])));
    pipeline.step(fetched(ranking_page(&[(2, 20)])));
    let mismatch = PersistOutcome::RowCountMismatch { expected: 2, written: 1 };
    assert_eq!(
        pipeline.step(Event::Persisted(mismatch)),
        Step {
            action: Action::Fetch(page_of(RankingClass::Doubles, 1)),
            lines: vec![String::from(
                "Ranking[international 2020 open singles]: \
                 failed to insert ranking entries, count=2, inserted=1"
            )],
        }
    );
    assert_eq!(pipeline.phase(), Phase::Processing);
    assert_eq!(pipeline.progress(), 2);
}

#[test]
fn a_lost_store_ends_the_run() {
    let mut pipeline = two_lists(false);
    pipeline.step(Event::Start);
    assert_eq!(
        pipeline.step(Event::StorageUnavailable),
        Step {
            action: Action::Finish,
            lines: vec![String::from("storage unavailable, run aborted")],
        }
    );
    assert!(pipeline.is_done());
    assert_eq!(pipeline.progress(), 0);
    assert_eq!(pipeline.max(), 4);

    let mut pipeline = two_lists(true);
    pipeline.step(Event::Start);
    pipeline.step(fetched(ranking_page(&[(1, 10)])));
    pipeline.step(fetched(ranking_page(&[(2, 20)])));
    assert_eq!(pipeline.phase(), Phase::Persisting);
    assert_eq!(
        pipeline.step(Event::StorageUnavailable),
        Step {
            action: Action::Finish,
            lines: vec![String::from("storage unavailable, run aborted")],
        }
    );
    assert!(pipeline.is_done());
    assert_eq!(pipeline.progress(), 2);
}

#[test]
fn pipelines_are_well_formed_at_every_step() {
    let mut pipeline = two_lists(false);
    assert!(pipeline.well_formed());
    pipeline.step(Event::Start);
    assert!(pipeline.well_formed());
    pipeline.step(Event::Exists(false));
    assert!(pipeline.well_formed());
    pipeline.step(Event::Fetched(Err(FetchError::Timeout)));
    assert!(pipeline.well_formed());
    pipeline.step(fetched(ranking_page(&[(1, 10)])));
    assert!(pipeline.well_formed());
    assert_eq!(pipeline.phase(), Phase::Persisting);
    pipeline.step(Event::Persisted(PersistOutcome::HeaderRejected(0)));
    assert!(pipeline.well_formed());
    pipeline.step(Event::Exists(true));
    assert!(pipeline.well_formed());
    assert!(pipeline.is_done());
}

#[test]
fn events_out_of_turn_are_ignored() {
    let mut pipeline = two_lists(false);
    let ignored = Step { action: Action::Unexpected, lines: no_lines() };
    assert_eq!(pipeline.step(Event::Exists(true)), ignored);
    assert_eq!(pipeline.step(Event::StorageUnavailable), ignored);
    assert_eq!(pipeline.phase(), Phase::Enumerating);
    pipeline.step(Event::Start);
    assert_eq!(pipeline.step(Event::Start), ignored);
    assert_eq!(pipeline.step(fetched(ranking_page(&[(1, 1)]))), ignored);
    assert_eq!(pipeline.step(Event::Persisted(PersistOutcome::Committed)), ignored);
    assert_eq!(pipeline.phase(), Phase::CheckingStore);
    pipeline.step(Event::Exists(false));
    assert_eq!(pipeline.step(Event::Exists(false)), ignored);
    assert_eq!(pipeline.step(Event::StorageUnavailable), ignored);
    assert_eq!(pipeline.phase(), Phase::Processing);
    assert_eq!(pipeline.progress(), 0);
}

#[test]
fn the_supervisor_shows_the_progress_of_the_run() {
    let mut supervisor = Supervisor::new();
    let mut pipeline = player_pipeline(&vec![1, 2]);
    let handle = start_run(&mut supervisor, "Players", &pipeline).unwrap();
    assert!(start_run(&mut supervisor, "Players", &pipeline).is_err());
    assert_eq!(
        supervisor.status(),
        RunStatus { running: true, progress: 0, max: 2, log: no_lines() }
    );
    let action = drive(&mut supervisor, &handle, &mut pipeline, Event::Start);
    assert_eq!(action, Action::Fetch(player(1)));
    let action = drive(
        &mut supervisor,
        &handle,
        &mut pipeline,
        Event::Fetched(Err(FetchError::Unreachable)),
    );
    assert_eq!(action, Action::Fetch(player(2)));
    let first = String::from(
        "Player[https://www.tablesoccer.org/page/player&numlic=1]: host unreachable",
    );
    assert_eq!(
        supervisor.status(),
        RunStatus { running: true, progress: 1, max: 2, log: vec![first.clone()] }
    );
    let action = drive(
        &mut supervisor,
        &handle,
        &mut pipeline,
        fetched(profile_page("MUSTERMANN Max", "(GER)", "MEN", "?")),
    );
    let unknown = PlayerProfile { itsf_id: 2, birth_year: 0, ..max_profile() };
    assert_eq!(action, Action::PersistPlayers(vec![unknown]));
    let second = String::from(
        "Player[https://www.tablesoccer.org/page/player&numlic=2]: can't parse birth year '?'",
    );
    assert_eq!(
        supervisor.status(),
        RunStatus { running: true, progress: 2, max: 2, log: vec![first.clone(), second.clone()] }
    );
    let action = drive(
        &mut supervisor,
        &handle,
        &mut pipeline,
        Event::Persisted(PersistOutcome::Committed),
    );
    assert_eq!(action, Action::Finish);
    assert_eq!(
        supervisor.status(),
        RunStatus { running: true, progress: 2, max: 2, log: vec![first, second] }
    );
    assert!(supervisor.finish(handle));
    assert!(!supervisor.is_running());
    assert!(start_run(&mut supervisor, "Players", &player_pipeline(&vec![])).is_ok());
}

fn answer(action: &Action, turn: usize) -> Option<Event> {
    match action {
        Action::CheckStore(_) => Some(Event::Exists(turn % 3 == 0)),
        Action::Fetch(WorkItem::Player { .. }) => Some(if turn % 2 == 0 {
            fetched(profile_page("MUSTERMANN Max", "(GER)", "MEN", "1985"))
        } else {
            Event::Fetched(Err(FetchError::Timeout))
        }),
        Action::Fetch(WorkItem::RankingPage { .. }) => Some(if turn % 4 == 1 {
            Event::Fetched(Err(FetchError::Unreachable))
        } else {
            fetched(ranking_page(&[(1, 10)]))
        }),
        Action::PersistRanking { .. } | Action::PersistPlayers(_) => {
            Some(Event::Persisted(if turn % 2 == 0 {
                PersistOutcome::Committed
            } else {
                PersistOutcome::RowCountMismatch { expected: 1, written: 0 }
            }))
        }
        Action::Finish | Action::Unexpected => None,
    }
}

#[test]
fn every_run_ends_within_its_bound() {
    for force in [false, true] {
        let items = enumerate_rankings(
            Source::National,
            &vec![2019, 2020, 2021],
            &vec![RankingCategory::Open, RankingCategory::Junior],
            &vec![RankingClass::Singles, RankingClass::Doubles, RankingClass::Combined],
            3,
        );
        let mut pipeline = Pipeline::new(items, force);
        let bound = 4 * pipeline.max() + 3;
        let mut last = 0;
        let mut turn = 0;
        let mut action = pipeline.step(Event::Start).action;
        while let Some(event) = answer(&action, turn) {
            action = pipeline.step(event).action;
            assert!(pipeline.progress() >= last);
            assert!(pipeline.progress() <= pipeline.max());
            last = pipeline.progress();
            turn += 1;
            assert!(turn <= bound);
        }
        assert_eq!(action, Action::Finish);
        assert!(pipeline.is_done());
        assert_eq!(pipeline.progress(), 54);
        assert_eq!(pipeline.max(), 54);
    }
    let mut players = player_pipeline(&(1..=20).collect());
    let mut turn = 0;
    let mut action = players.step(Event::Start).action;
    while let Some(event) = answer(&action, turn) {
        action = players.step(event).action;
        turn += 1;
        assert!(turn <= 83);
    }
    assert!(players.is_done());
    assert_eq!(players.progress(), 20);
}

#[test]
fn the_log_line_of_a_page_without_parentheses() {
    let mut pipeline = player_pipeline(&vec![42]);
    pipeline.step(Event::Start);
    let page = "<div class='nomdujoueur'>MUSTERMANN Max<span>GER</span></div>\
                <div class='contenu_typeinfojoueur'>x</div>\
                <div class='contenu_typeinfojoueur even'>MEN</div>\
                <div class='contenu_typeinfojoueur'>1990</div>";
    let step = pipeline.step(fetched(String::from(page)));
    assert_eq!(
        step.lines[0],
        "Player[https://www.tablesoccer.org/page/player&numlic=42]: \
         invalid country code (\"GER\")"
    );
    assert_eq!(pipeline.progress(), 1);
    assert_eq!(pipeline.max(), 1);
}
