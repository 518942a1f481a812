use backend_supervisor::health::HealthOutcome;
use backend_supervisor::probe::{await_ready, ProbeSession, ProbeStep};
use backend_supervisor::supervisor::BackendManager;

const HEALTH_URL: &str = "http://localhost:4000/api/health";

fn never_ready(n: usize) -> Vec<HealthOutcome> {
    let mut v = Vec::new();
    for _ in 0..n {
        v.push(HealthOutcome::Unreachable);
    }
    v
}

fn ready_after(k: usize, n: usize, body: &str) -> Vec<HealthOutcome> {
    let mut v = Vec::new();
    for i in 0..n {
        if i + 1 == k {
            v.push(HealthOutcome::Ready { body: body.to_string() });
        } else {
            v.push(HealthOutcome::NotReady);
        }
    }
    v
}

#[test]
fn await_ready_succeeds_within_budget() {
    let outcomes = ready_after(3, 30, "{\"status\":\"ok\"}");
    let rep = await_ready(&outcomes, 30, 1000, HEALTH_URL).unwrap();
    assert_eq!(rep.attempts_used, 3);
    assert_eq!(rep.body.as_str(), "{\"status\":\"ok\"}");
    // At most k attempts' worth of waiting: one interval per failed attempt.
    assert_eq!(rep.elapsed_millis, 2000);
    assert!(rep.elapsed_millis <= 3 * 1000);
}

#[test]
fn await_ready_stops_at_first_success() {
    let outcomes = ready_after(1, 30, "up");
    let rep = await_ready(&outcomes, 30, 1000, HEALTH_URL).unwrap();
    assert_eq!(rep.attempts_used, 1);
    assert_eq!(rep.elapsed_millis, 0);
    assert_eq!(rep.body.as_str(), "up");
}

#[test]
fn await_ready_times_out_after_exact_budget() {
    let outcomes = never_ready(30);
    let te = await_ready(&outcomes, 30, 1000, HEALTH_URL).unwrap_err();
    assert_eq!(te.elapsed_millis, 30_000);
    assert_eq!(te.url.as_str(), HEALTH_URL);
    assert_eq!(
        te.message().as_str(),
        "Backend at http://localhost:4000/api/health failed to become ready within 30000 ms"
    );
}

#[test]
fn await_ready_honours_configured_budget() {
    let outcomes = never_ready(5);
    let te = await_ready(&outcomes, 5, 200, HEALTH_URL).unwrap_err();
    assert_eq!(te.elapsed_millis, 1000);
}

#[test]
fn probe_session_walks_the_protocol() {
    let mut s = ProbeSession::new(3, 10);
    assert_eq!(
        s.step(&HealthOutcome::NotReady),
        ProbeStep::RetryAfter { millis: 10 }
    );
    assert_eq!(
        s.step(&HealthOutcome::Unreachable),
        ProbeStep::RetryAfter { millis: 10 }
    );
    assert_eq!(s.step(&HealthOutcome::NotReady), ProbeStep::TimedOut);
    assert_eq!(s.used, 3);
    assert_eq!(s.elapsed_millis, 30);
    // A spent session only ever answers TimedOut.
    assert_eq!(
        s.step(&HealthOutcome::Ready { body: "late".to_string() }),
        ProbeStep::TimedOut
    );
}

#[test]
fn probe_session_success_charges_no_wait() {
    let mut s = ProbeSession::new(3, 10);
    assert_eq!(
        s.step(&HealthOutcome::NotReady),
        ProbeStep::RetryAfter { millis: 10 }
    );
    assert_eq!(
        s.step(&HealthOutcome::Ready { body: "ok".to_string() }),
        ProbeStep::Done { body: "ok".to_string() }
    );
    assert_eq!(s.used, 2);
    assert_eq!(s.elapsed_millis, 10);
}

#[test]
fn wait_for_backend_ready_uses_supervisor_policy() {
    let m = BackendManager::new(4000);
    let outcomes = never_ready(30);
    let te = m.wait_for_backend_ready(&outcomes).unwrap_err();
    assert_eq!(te.elapsed_millis, 30_000);
    assert_eq!(te.url.as_str(), HEALTH_URL);
    let ok = ready_after(2, 30, "fine");
    let rep = m.wait_for_backend_ready(&ok).unwrap();
    assert_eq!(rep.attempts_used, 2);
    assert_eq!(rep.elapsed_millis, 1000);
}
