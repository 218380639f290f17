use shmemo::cache::{get_cache_paths, RenameOutcome};
use shmemo::digest::compute_digest;
use shmemo::env::EnvVars;
use shmemo::error::MemoError;
use shmemo::executor::ExecutionResult;
use shmemo::memo::Memo;
use shmemo::session::{Action, EntryState, Event, Session, Stage};
use shmemo::time::Timestamp;

fn command() -> Vec<String> {
    vec!["echo".to_string(), "hello".to_string()]
}

fn digest_of(cmd: &[String]) -> String {
    compute_digest(cmd, &EnvVars::new()).unwrap()
}

fn memo(exit_code: i32, expires_at: Option<&str>) -> Memo {
    Memo {
        cmd: command(),
        env: EnvVars::new(),
        exit_code,
        timestamp: "2025-12-22T01:51:52.369Z".to_string(),
        expires_at: expires_at.map(|s| s.to_string()),
        digest: digest_of(&command()),
    }
}

/// Drives a run up to the inspection of the cache entry.
fn up_to_lookup(ttl: Option<&str>) -> Session {
    let mut s = Session::new(command(), None, ttl.map(|t| t.to_string()), false, false);
    assert!(matches!(s.step(Event::Start), Action::LocateCache));
    match s.step(Event::Location { xdg: Some("/xdg".to_string()), home: None }) {
        Action::PrepareCache { cache_dir } => assert_eq!(cache_dir, "/xdg/memo"),
        _ => panic!("expected PrepareCache"),
    }
    match s.step(Event::Done) {
        Action::ReadEnv { names } => assert!(names.is_empty()),
        _ => panic!("expected ReadEnv"),
    }
    let (meta, out, err) = get_cache_paths("/xdg/memo", &digest_of(&command()));
    match s.step(Event::EnvValues(vec![])) {
        Action::InspectEntry { meta_path, stdout_path, stderr_path } => {
            assert_eq!(meta_path, meta);
            assert_eq!(stdout_path, out);
            assert_eq!(stderr_path, err);
        }
        _ => panic!("expected InspectEntry"),
    }
    assert_eq!(s.digest(), &digest_of(&command()));
    s
}

#[test]
fn session_disabled_runs_directly() {
    let mut s = Session::new(command(), None, None, false, true);
    match s.step(Event::Start) {
        Action::RunDirect { command: c } => assert_eq!(c, command()),
        _ => panic!("expected RunDirect"),
    }
    assert!(matches!(s.step(Event::Exited(42)), Action::Finish(42)));
    assert_eq!(s.stage(), Stage::Finished);
}

#[test]
fn session_purge_exits_zero() {
    let mut s = Session::new(vec![], None, None, true, false);
    assert!(matches!(s.step(Event::Start), Action::LocateCache));
    match s.step(Event::Location { xdg: None, home: Some("/home/u".to_string()) }) {
        Action::Purge { cache_dir } => assert_eq!(cache_dir, "/home/u/.cache/memo"),
        _ => panic!("expected Purge"),
    }
    assert!(matches!(s.step(Event::Done), Action::Finish(0)));
}

#[test]
fn session_without_home_fails() {
    let mut s = Session::new(command(), None, None, false, false);
    s.step(Event::Start);
    assert!(matches!(
        s.step(Event::Location { xdg: None, home: None }),
        Action::Fail(MemoError::HomeNotFound)
    ));
}

#[test]
fn session_invalid_ttl_fails_fast() {
    let mut s = Session::new(command(), None, Some("soon".to_string()), false, false);
    s.step(Event::Start);
    match s.step(Event::Location { xdg: Some("/xdg".to_string()), home: None }) {
        Action::Fail(MemoError::InvalidTtl(t)) => assert_eq!(t, "soon"),
        _ => panic!("expected InvalidTtl"),
    }
}

#[test]
fn session_hit_replays_exit_code() {
    let mut s = up_to_lookup(None);
    let now = Timestamp { secs: 2_000_000_000, nanos: 0 };
    let (_, out, err) = get_cache_paths("/xdg/memo", &digest_of(&command()));
    match s.step(Event::Entry(EntryState::Found { memo: memo(7, None), now })) {
        Action::Replay { stdout_path, stderr_path } => {
            assert_eq!(stdout_path, out);
            assert_eq!(stderr_path, err);
        }
        _ => panic!("expected Replay"),
    }
    assert!(matches!(s.step(Event::Done), Action::Finish(7)));
}

#[test]
fn session_expired_entry_is_rerun() {
    let mut s = up_to_lookup(Some("1h"));
    let now = Timestamp { secs: 2_000_000_000, nanos: 0 };
    let dir = format!("/xdg/memo/{}", digest_of(&command()));
    match s.step(Event::Entry(EntryState::Found { memo: memo(7, Some("2025-12-22T01:51:52Z")), now })) {
        Action::RemoveEntry { dir: d } => assert_eq!(d, dir),
        _ => panic!("expected RemoveEntry"),
    }
    assert!(matches!(s.step(Event::Done), Action::ReadClock));
    let clock = Timestamp { secs: 1_766_368_312, nanos: 0 };
    let temp = format!("{}.tmp.99.1766368312000000000", dir);
    match s.step(Event::Clock { now: clock, pid: 99, nanos: 1_766_368_312_000_000_000 }) {
        Action::Execute { temp_dir, stdout_path, stderr_path, command: c } => {
            assert_eq!(temp_dir, temp);
            assert_eq!(stdout_path, format!("{}/stdout", temp));
            assert_eq!(stderr_path, format!("{}/stderr", temp));
            assert_eq!(c, command());
        }
        _ => panic!("expected Execute"),
    }
    let result = ExecutionResult { exit_code: 3, stdout_error: None, stderr_error: None };
    match s.step(Event::Executed(result)) {
        Action::WriteMetadata { path, memo } => {
            assert_eq!(path, format!("{}/meta.json", temp));
            assert_eq!(memo.cmd, command());
            assert_eq!(memo.exit_code, 3);
            assert_eq!(memo.digest, digest_of(&command()));
            assert_eq!(memo.timestamp, "2025-12-22T01:51:52+00:00");
            assert_eq!(memo.expires_at, Some("2025-12-22T02:51:52+00:00".to_string()));
        }
        _ => panic!("expected WriteMetadata"),
    }
    match s.step(Event::Done) {
        Action::Commit { from, to } => {
            assert_eq!(from, temp);
            assert_eq!(to, dir);
        }
        _ => panic!("expected Commit"),
    }
    assert!(matches!(s.step(Event::Renamed(RenameOutcome::Renamed)), Action::Finish(3)));
    assert!(s.temp_committed());
}

#[test]
fn session_missing_entry_records_and_loses_race() {
    let mut s = up_to_lookup(None);
    assert!(matches!(s.step(Event::Entry(EntryState::Missing)), Action::ReadClock));
    let clock = Timestamp { secs: 1_766_368_312, nanos: 500_000_000 };
    assert!(matches!(s.step(Event::Clock { now: clock, pid: 1, nanos: 2 }), Action::Execute { .. }));
    let result = ExecutionResult { exit_code: 0, stdout_error: None, stderr_error: None };
    match s.step(Event::Executed(result)) {
        Action::WriteMetadata { memo, .. } => {
            assert_eq!(memo.expires_at, None);
            assert_eq!(memo.timestamp, "2025-12-22T01:51:52.500+00:00");
        }
        _ => panic!("expected WriteMetadata"),
    }
    assert!(matches!(s.step(Event::Done), Action::Commit { .. }));
    assert!(matches!(s.step(Event::Renamed(RenameOutcome::DirectoryNotEmpty)), Action::Finish(0)));
    assert!(!s.temp_committed());
    assert!(s.temp_dir().is_some());
}

#[test]
fn session_commit_failure_is_reported() {
    let mut s = up_to_lookup(None);
    s.step(Event::Entry(EntryState::Unreadable));
    s.step(Event::Clock { now: Timestamp { secs: 0, nanos: 0 }, pid: 1, nanos: 0 });
    s.step(Event::Executed(ExecutionResult { exit_code: 0, stdout_error: None, stderr_error: None }));
    s.step(Event::Done);
    assert!(matches!(s.step(Event::Renamed(RenameOutcome::Failed)), Action::ReportFailure));
}

#[test]
fn session_env_values_take_part_in_key() {
    let names = vec!["FOO".to_string(), "BAR".to_string()];
    let mut s = Session::new(command(), Some(names.clone()), None, false, false);
    s.step(Event::Start);
    s.step(Event::Location { xdg: Some("/x".to_string()), home: None });
    match s.step(Event::Done) {
        Action::ReadEnv { names: n } => assert_eq!(n, names),
        _ => panic!("expected ReadEnv"),
    }
    s.step(Event::EnvValues(vec![Some("1".to_string()), None]));
    let mut env = EnvVars::new();
    env.insert("FOO".to_string(), Some("1".to_string()));
    env.insert("BAR".to_string(), None);
    assert_eq!(s.digest(), &compute_digest(&command(), &env).unwrap());
    assert_ne!(s.digest(), &digest_of(&command()));
}

#[test]
fn session_refuses_out_of_order_events() {
    let mut s = Session::new(command(), None, None, false, false);
    assert!(matches!(s.step(Event::Done), Action::Panic(_)));
    assert_eq!(s.stage(), Stage::Finished);
}

#[test]
fn session_ttl_beyond_representable_time_stops() {
    let mut s = up_to_lookup(Some("100000000years"));
    s.step(Event::Entry(EntryState::Missing));
    match s.step(Event::Clock { now: Timestamp { secs: 1_766_368_312, nanos: 0 }, pid: 1, nanos: 0 }) {
        Action::Panic(m) => assert_eq!(m, "`DateTime + TimeDelta` overflowed"),
        _ => panic!("expected Panic"),
    }
}

#[test]
fn session_ttl_beyond_time_delta_stops() {
    let mut s = up_to_lookup(Some("300000000years"));
    s.step(Event::Entry(EntryState::Missing));
    match s.step(Event::Clock { now: Timestamp { secs: 1_766_368_312, nanos: 0 }, pid: 1, nanos: 0 }) {
        Action::Panic(m) => assert_eq!(m, "Duration is too large for chrono"),
        _ => panic!("expected Panic"),
    }
}

fn ttl_outcome(ttl: &str) -> Action {
    let mut s = Session::new(command(), None, Some(ttl.to_string()), false, false);
    s.step(Event::Start);
    s.step(Event::Location { xdg: Some("/xdg".to_string()), home: None })
}

#[test]
fn session_ttl_with_too_many_digits_is_refused() {
    for ttl in ["1000000000000s", "18446744073709551615s1000ms"] {
        match ttl_outcome(ttl) {
            Action::Fail(MemoError::InvalidTtl(t)) => assert_eq!(t, ttl),
            _ => panic!("expected InvalidTtl"),
        }
    }
}

#[test]
fn session_ttl_with_twelve_digits_is_read() {
    assert!(matches!(ttl_outcome("100000000000s"), Action::PrepareCache { .. }));
    assert!(matches!(ttl_outcome("9999999999y 1.5s"), Action::PrepareCache { .. }));
}

/// Drives a run of `cmd` with the selected variables up to the inspection
/// of its entry, and gives the metadata path looked at.
fn lookup(cmd: &[String], names: Option<Vec<String>>, values: Vec<Option<String>>) -> (Session, String) {
    let mut s = Session::new(cmd.to_vec(), names, None, false, false);
    assert!(matches!(s.step(Event::Start), Action::LocateCache));
    assert!(matches!(
        s.step(Event::Location { xdg: Some("/d".to_string()), home: None }),
        Action::PrepareCache { .. }
    ));
    assert!(matches!(s.step(Event::Done), Action::ReadEnv { .. }));
    match s.step(Event::EnvValues(values)) {
        Action::InspectEntry { meta_path, .. } => (s, meta_path),
        _ => panic!("expected InspectEntry"),
    }
}

#[test]
fn session_miss_then_hit_replays_stored_exit_code() {
    let cmd: Vec<String> = vec!["sh".to_string(), "-c".to_string(), "exit 42".to_string()];
    let (mut first, meta) = lookup(&cmd, None, vec![]);
    assert!(matches!(first.step(Event::Entry(EntryState::Missing)), Action::ReadClock));
    let clock = Timestamp { secs: 1_766_368_312, nanos: 0 };
    assert!(matches!(first.step(Event::Clock { now: clock, pid: 5, nanos: 6 }), Action::Execute { .. }));
    let result = ExecutionResult { exit_code: 42, stdout_error: None, stderr_error: None };
    let recorded = match first.step(Event::Executed(result)) {
        Action::WriteMetadata { memo, .. } => memo,
        _ => panic!("expected WriteMetadata"),
    };
    assert_eq!(recorded.exit_code, 42);
    assert!(matches!(first.step(Event::Done), Action::Commit { .. }));
    assert!(matches!(first.step(Event::Renamed(RenameOutcome::Renamed)), Action::Finish(42)));

    let (mut second, meta2) = lookup(&cmd, None, vec![]);
    assert_eq!(meta, meta2);
    let later = Timestamp { secs: 1_766_368_400, nanos: 0 };
    assert!(matches!(
        second.step(Event::Entry(EntryState::Found { memo: recorded, now: later })),
        Action::Replay { .. }
    ));
    assert!(matches!(second.step(Event::Done), Action::Finish(42)));
}

#[test]
fn session_argv_split_gives_distinct_entries() {
    let joined: Vec<String> = vec!["echo".to_string(), "a b".to_string()];
    let split: Vec<String> = vec!["echo".to_string(), "a".to_string(), "b".to_string()];
    let (_, m1) = lookup(&joined, None, vec![]);
    let (_, m2) = lookup(&split, None, vec![]);
    assert_ne!(m1, m2);
}

#[test]
fn session_unset_and_set_variable_give_distinct_entries() {
    let cmd: Vec<String> = vec!["echo".to_string(), "test".to_string()];
    let names = || Some(vec!["FOO".to_string()]);
    let (_, unset) = lookup(&cmd, names(), vec![None]);
    let (_, bar) = lookup(&cmd, names(), vec![Some("bar".to_string())]);
    let (_, bar_again) = lookup(&cmd, names(), vec![Some("bar".to_string())]);
    assert_ne!(unset, bar);
    assert_eq!(bar, bar_again);
}

#[test]
fn session_ttl_with_leading_zeros_is_read() {
    assert!(matches!(ttl_outcome("0000000000001s"), Action::PrepareCache { .. }));
    assert!(matches!(ttl_outcome("00000000000000000001s 0.5s"), Action::PrepareCache { .. }));
}
