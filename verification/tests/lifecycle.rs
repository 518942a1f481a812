use backend_supervisor::errors::{SpawnError, StartError, StopError};
use backend_supervisor::handle::ProcessHandle;
use backend_supervisor::health::HealthOutcome;
use backend_supervisor::supervisor::BackendManager;

fn all_unreachable(n: usize) -> Vec<HealthOutcome> {
    let mut v = Vec::new();
    for _ in 0..n {
        v.push(HealthOutcome::Unreachable);
    }
    v
}

fn ready_on_attempt(k: usize, n: usize, body: &str) -> Vec<HealthOutcome> {
    let mut v = Vec::new();
    for i in 0..n {
        if i + 1 == k {
            v.push(HealthOutcome::Ready { body: body.to_string() });
        } else {
            v.push(HealthOutcome::NotReady);
        }
    }
    v
}

#[test]
fn start_succeeds_and_is_idempotent() {
    let mut m = BackendManager::new(4000);
    let outcomes = ready_on_attempt(1, 30, "{\"status\":\"ok\"}");
    assert_eq!(m.start_backend(true, true, &outcomes), Ok(()));
    assert!(m.is_backend_running());
    // The second start is a no-op that succeeds: it does not even consult
    // the build or spawn outcomes, and exactly one process stays owned.
    let second = all_unreachable(30);
    assert_eq!(m.start_backend(false, false, &second), Ok(()));
    assert!(m.is_backend_running());
}

#[test]
fn stop_without_process_is_noop() {
    let mut m = BackendManager::new(4000);
    assert_eq!(m.stop_backend(true, true), Ok(()));
    assert!(!m.is_backend_running());
}

#[test]
fn shutdown_releases_running_process() {
    let mut m = BackendManager::new(4000);
    let outcomes = ready_on_attempt(1, 30, "{\"status\":\"ok\"}");
    assert_eq!(m.start_backend(true, true, &outcomes), Ok(()));
    assert!(m.is_backend_running());
    assert_eq!(m.shutdown(true, true), None);
    assert!(!m.is_backend_running());
}

#[test]
fn shutdown_swallows_stop_failure() {
    let mut m = BackendManager::new(4000);
    let outcomes = ready_on_attempt(1, 30, "{\"status\":\"ok\"}");
    assert_eq!(m.start_backend(true, true, &outcomes), Ok(()));
    assert_eq!(m.shutdown(false, true), Some(StopError::SignalFailed));
    assert!(!m.is_backend_running());
}

#[test]
fn build_failure_spawns_nothing() {
    let mut m = BackendManager::new(4000);
    let outcomes = all_unreachable(30);
    assert_eq!(
        m.start_backend(false, true, &outcomes),
        Err(StartError::BuildFailed)
    );
    assert!(!m.is_backend_running());
}

#[test]
fn spawn_refusal_leaves_nothing_owned() {
    let mut m = BackendManager::new(4000);
    let outcomes = all_unreachable(30);
    assert_eq!(
        m.start_backend(true, false, &outcomes),
        Err(StartError::LaunchFailed)
    );
    assert!(!m.is_backend_running());
}

#[test]
fn readiness_timeout_keeps_process_owned() {
    let mut m = BackendManager::new(4000);
    let outcomes = all_unreachable(30);
    assert_eq!(
        m.start_backend(true, true, &outcomes),
        Err(StartError::ReadinessTimeout)
    );
    assert!(m.is_backend_running());
}

#[test]
fn stop_failure_still_clears_handle() {
    let mut m = BackendManager::new(4000);
    let outcomes = ready_on_attempt(1, 30, "{\"status\":\"ok\"}");
    assert_eq!(m.start_backend(true, true, &outcomes), Ok(()));
    assert_eq!(m.stop_backend(false, true), Err(StopError::SignalFailed));
    // Best-effort cleanup: the handle is cleared regardless, so there is no
    // second kill to attempt.
    assert!(!m.is_backend_running());
    assert_eq!(m.stop_backend(true, true), Ok(()));
}

#[test]
fn stop_reap_failure_reported() {
    let mut m = BackendManager::new(4000);
    let outcomes = ready_on_attempt(1, 30, "{\"status\":\"ok\"}");
    assert_eq!(m.start_backend(true, true, &outcomes), Ok(()));
    assert_eq!(m.stop_backend(true, false), Err(StopError::ReapFailed));
    assert!(!m.is_backend_running());
}

#[test]
fn supervisor_is_restartable_after_stop() {
    let mut m = BackendManager::new(4000);
    let outcomes = ready_on_attempt(1, 30, "{\"status\":\"ok\"}");
    assert_eq!(m.start_backend(true, true, &outcomes), Ok(()));
    assert_eq!(m.stop_backend(true, true), Ok(()));
    assert!(!m.is_backend_running());
    let again = ready_on_attempt(2, 30, "{\"status\":\"ok\"}");
    assert_eq!(m.start_backend(true, true, &again), Ok(()));
    assert!(m.is_backend_running());
}

#[test]
fn handle_refuses_second_spawn_while_owned() {
    let mut h = ProcessHandle::new();
    assert!(!h.is_owned());
    assert_eq!(h.try_begin_spawn(), Ok(()));
    assert_eq!(h.note_spawned(true), Ok(()));
    assert!(h.is_owned());
    assert_eq!(h.try_begin_spawn(), Err(SpawnError::AlreadyOwned));
    assert_eq!(h.kill_and_wait(true, true), Ok(()));
    assert!(!h.is_owned());
}

#[test]
fn handle_records_refused_spawn() {
    let mut h = ProcessHandle::new();
    assert_eq!(h.note_spawned(false), Err(SpawnError::OsRefused));
    assert!(!h.is_owned());
}

#[test]
fn example_scenario() {
    let mut m = BackendManager::new(4000);
    assert_eq!(
        m.config.health_url().as_str(),
        "http://localhost:4000/api/health"
    );
    let outcomes = ready_on_attempt(3, 30, "{\"status\":\"ok\"}");
    assert_eq!(m.start_backend(true, true, &outcomes), Ok(()));
    assert!(m.is_backend_running());
    let probe = HealthOutcome::Ready {
        body: "{\"status\":\"ok\"}".to_string(),
    };
    let v = m.test_backend_connection(&probe).unwrap();
    let expected: serde_json::Value = serde_json::from_str("{\"status\":\"ok\"}").unwrap();
    assert_eq!(v, expected);
}
