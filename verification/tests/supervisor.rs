use tablesoccer::background::BackgroundOperationProgress;
use tablesoccer::supervisor::AlreadyRunning;
use tablesoccer::supervisor::RunStatus;
use tablesoccer::supervisor::Supervisor;

fn not_running() -> RunStatus {
    RunStatus { running: false, progress: 0, max: 0, log: Vec::new() }
}

#[test]
fn record_starts_empty() {
    let job = BackgroundOperationProgress::new("ITSF rankings", 12);
    assert_eq!(job.title(), "ITSF rankings");
    assert_eq!(job.progress(), 0);
    assert_eq!(job.max(), 12);
    assert_eq!(job.get_log(), Vec::<String>::new());
}

#[test]
fn record_log_is_append_only() {
    let mut job = BackgroundOperationProgress::new("t", 3);
    job.log(String::from("first"));
    job.log(String::from("second"));
    assert_eq!(job.get_log(), vec![String::from("first"), String::from("second")]);
    job.log_all(vec![String::from("third"), String::from("fourth")]);
    assert_eq!(
        job.get_log(),
        vec![
            String::from("first"),
            String::from("second"),
            String::from("third"),
            String::from("fourth")
        ]
    );
    assert_eq!(job.progress(), 0);
    assert_eq!(job.max(), 3);
}

#[test]
fn record_counters_are_replaced() {
    let mut job = BackgroundOperationProgress::new("t", 3);
    job.log(String::from("line"));
    job.set_progress(2, 5);
    assert_eq!(job.progress(), 2);
    assert_eq!(job.max(), 5);
    assert_eq!(job.title(), "t");
    assert_eq!(job.get_log(), vec![String::from("line")]);
}

#[test]
fn fresh_supervisor_is_idle() {
    let supervisor = Supervisor::new();
    assert!(!supervisor.is_running());
    assert_eq!(supervisor.status(), not_running());
}

#[test]
fn only_one_run_is_admitted() {
    let mut supervisor = Supervisor::new();
    let handle = supervisor.try_start("first", 10).unwrap();
    assert!(supervisor.is_running());
    assert!(supervisor.owns(&handle));
    for _ in 0..5 {
        assert_eq!(supervisor.try_start("second", 99).err(), Some(AlreadyRunning));
    }
    assert_eq!(
        supervisor.status(),
        RunStatus { running: true, progress: 0, max: 10, log: Vec::new() }
    );
}

#[test]
fn exactly_one_run_is_admitted_after_the_exit() {
    let mut supervisor = Supervisor::new();
    let first = supervisor.try_start("first", 10).unwrap();
    assert!(supervisor.try_start("early", 1).is_err());
    assert!(supervisor.finish(first));
    assert!(!supervisor.is_running());
    assert_eq!(supervisor.status(), not_running());
    let second = supervisor.try_start("second", 4);
    assert!(second.is_ok());
    assert!(supervisor.try_start("third", 4).is_err());
    assert!(supervisor.try_start("fourth", 4).is_err());
    assert_eq!(
        supervisor.status(),
        RunStatus { running: true, progress: 0, max: 4, log: Vec::new() }
    );
}

#[test]
fn the_run_writes_through_its_handle() {
    let mut supervisor = Supervisor::new();
    let handle = supervisor.try_start("run", 3).unwrap();
    assert!(supervisor.append_log(&handle, String::from("a")));
    assert!(supervisor.set_progress(&handle, 1, 3));
    assert!(supervisor.report(&handle, vec![String::from("b"), String::from("c")], 2, 3));
    assert_eq!(
        supervisor.status(),
        RunStatus {
            running: true,
            progress: 2,
            max: 3,
            log: vec![String::from("a"), String::from("b"), String::from("c")]
        }
    );
}

#[test]
fn a_stale_handle_changes_nothing() {
    let mut supervisor = Supervisor::new();
    let old = supervisor.try_start("old", 3).unwrap();
    let stale = supervisor.try_start("x", 1);
    assert!(stale.is_err());
    assert!(supervisor.finish(old));
    let old_again = {
        let mut other = Supervisor::new();
        other.try_start("old", 3).unwrap()
    };
    let current = supervisor.try_start("new", 7).unwrap();
    assert!(!supervisor.owns(&old_again));
    assert!(!supervisor.append_log(&old_again, String::from("late")));
    assert!(!supervisor.set_progress(&old_again, 3, 3));
    assert!(!supervisor.report(&old_again, vec![String::from("late")], 3, 3));
    assert!(!supervisor.finish(old_again));
    assert!(supervisor.owns(&current));
    assert_eq!(
        supervisor.status(),
        RunStatus { running: true, progress: 0, max: 7, log: Vec::new() }
    );
}

#[test]
fn writes_after_the_exit_change_nothing() {
    let mut supervisor = Supervisor::new();
    let handle = supervisor.try_start("run", 3).unwrap();
    let twin = {
        let mut other = Supervisor::new();
        other.try_start("run", 3).unwrap()
    };
    assert!(supervisor.finish(handle));
    assert!(!supervisor.append_log(&twin, String::from("late")));
    assert!(!supervisor.finish(twin));
    assert_eq!(supervisor.status(), not_running());
}
