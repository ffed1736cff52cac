use metrics_core::records::{ModuleRecord, Timestamp};
use metrics_core::scheduler::{can_collect, complete_run, due, load_failure, start_message, ModuleAction, Scheduler};

fn ts(secs: i64, nanos: u32) -> Timestamp {
    Timestamp { secs, nanos }
}

fn module(id: &str, enabled: bool, status: &str, last_run: Option<Timestamp>, interval: u64) -> ModuleRecord {
    ModuleRecord {
        id: id.to_string(),
        name: "Name".to_string(),
        version: "0.1.0".to_string(),
        author: "Author".to_string(),
        description: "Desc".to_string(),
        config: "{}".to_string(),
        default_config: "{}".to_string(),
        interval_secs: interval,
        cron: None,
        enabled,
        status: status.to_string(),
        last_run,
        last_error: None,
        lib_path: "/lib/x.so".to_string(),
    }
}

#[test]
fn disabled_running_module_is_paused() {
    let mut s = Scheduler::new();
    match s.decide(module("a", false, "running", None, 60), ts(0, 0)) {
        ModuleAction::Pause(m) => {
            assert_eq!(m.status, "paused");
            assert_eq!(m.id, "a");
            assert!(!m.enabled);
        }
        _ => panic!("expected pause"),
    }
    assert!(!s.is_running("a"));
}

#[test]
fn disabled_module_is_left_alone() {
    let mut s = Scheduler::new();
    assert!(matches!(s.decide(module("a", false, "paused", None, 60), ts(0, 0)), ModuleAction::Skip(_)));
    assert!(matches!(s.decide(module("a", false, "error", None, 60), ts(0, 0)), ModuleAction::Skip(_)));
    assert!(!s.is_running("a"));
}

#[test]
fn never_run_module_starts_once() {
    let mut s = Scheduler::new();
    let a = s.decide(module("a", true, "installed", None, 60), ts(10, 0));
    assert!(matches!(a, ModuleAction::Start(ref m) if m.id == "a"));
    assert!(s.is_running("a"));
    // While the run is in flight the module is not started again.
    let b = s.decide(module("a", true, "running", None, 60), ts(1000, 0));
    assert!(matches!(b, ModuleAction::Skip(_)));
    // After it finished, it may start again.
    s.finish_run("a");
    assert!(!s.is_running("a"));
    let c = s.decide(module("a", true, "running", None, 60), ts(1000, 0));
    assert!(matches!(c, ModuleAction::Start(_)));
}

#[test]
fn finishing_one_run_keeps_the_others() {
    let mut s = Scheduler::new();
    s.decide(module("a", true, "running", None, 60), ts(0, 0));
    s.decide(module("b", true, "running", None, 60), ts(0, 0));
    s.finish_run("a");
    assert!(!s.is_running("a"));
    assert!(s.is_running("b"));
    s.finish_run("zzz");
    assert!(s.is_running("b"));
}

#[test]
fn due_after_whole_interval() {
    // 59.001 s elapsed is 59 whole seconds: not yet due for a 60 s interval.
    assert!(!due(Some(ts(100, 999_000_000)), ts(160, 0), 60));
    assert!(due(Some(ts(100, 0)), ts(160, 0), 60));
    assert!(due(Some(ts(100, 500)), ts(160, 500), 60));
    assert!(due(None, ts(0, 0), 60));
    // A clock that went back is not due...
    assert!(!due(Some(ts(100, 0)), ts(90, 0), 0));
    // ...except within the first second, which rounds to zero.
    assert!(due(Some(ts(100, 500_000_000)), ts(100, 0), 0));
}

#[test]
fn huge_interval_reads_as_negative() {
    // `u64::MAX as i64` is -1: a clock half a second back counts as 0 >= -1.
    assert!(due(Some(ts(100, 0)), ts(99, 500_000_000), u64::MAX));
    assert!(!due(Some(ts(100, 0)), ts(95, 0), u64::MAX));
    assert!(!due(Some(ts(100, 0)), ts(99, 500_000_000), i64::MAX as u64));
}

#[test]
fn not_due_module_is_skipped() {
    let mut s = Scheduler::new();
    let a = s.decide(module("a", true, "running", Some(ts(100, 0)), 60), ts(130, 0));
    assert!(matches!(a, ModuleAction::Skip(_)));
    assert!(!s.is_running("a"));
}

#[test]
fn completed_run_success() {
    let started = module("a", true, "running", None, 60);
    let mut current = module("a", true, "running", None, 30);
    current.last_error = Some("old".to_string());
    let r = complete_run(Ok(Some(current)), started, ts(5, 6), Ok(()));
    let rec = r.record.expect("stored record is updated");
    assert_eq!(rec.interval_secs, 30);
    assert_eq!(rec.last_run, Some(ts(5, 6)));
    assert_eq!(rec.status, "running");
    assert_eq!(rec.last_error, None);
    assert_eq!(r.level, "info");
    assert_eq!(r.message, "Successfully collected metrics");
}

#[test]
fn completed_run_failure_when_store_unreadable() {
    let started = module("a", true, "running", None, 60);
    let r = complete_run(Err("db down".to_string()), started, ts(7, 0), Err("boom".to_string()));
    let rec = r.record.expect("the started record is stored");
    assert_eq!(rec.interval_secs, 60);
    assert_eq!(rec.last_run, Some(ts(7, 0)));
    assert_eq!(rec.status, "error");
    assert_eq!(rec.last_error, Some("boom".to_string()));
    assert_eq!(r.level, "error");
    assert_eq!(r.message, "Collection failed: boom");
}

#[test]
fn completed_run_of_removed_module_stores_nothing() {
    let started = module("a", true, "running", None, 60);
    let r = complete_run(Ok(None), started, ts(7, 0), Err("boom".to_string()));
    assert!(r.record.is_none());
    assert_eq!(r.level, "error");
    assert_eq!(r.message, "Collection failed: boom");
    let started = module("a", true, "running", None, 60);
    let r = complete_run(Ok(None), started, ts(8, 0), Ok(()));
    assert!(r.record.is_none());
    assert_eq!(r.level, "info");
}

#[test]
fn run_messages() {
    assert_eq!(start_message(), ("info".to_string(), "Starting metrics collection".to_string()));
    assert_eq!(load_failure("no file"), "Failed to load dynamic library: no file");
}

#[test]
fn due_module_stays_due() {
    let last = Some(ts(1_000, 250_000_000));
    assert!(due(last, ts(1_060, 250_000_000), 60));
    for later in [ts(1_060, 250_000_001), ts(1_061, 0), ts(5_000, 999_999_999)] {
        assert!(due(last, later, 60));
    }
}

#[test]
fn ticks_need_a_backend() {
    assert!(!can_collect(&None));
    let b = metrics_core::model::DbBackend::PrometheusPushgateway { url: "u".to_string(), job: "j".to_string(), token: None };
    assert!(can_collect(&Some(b)));
}
