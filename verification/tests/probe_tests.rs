use sidecar_lifecycle::probe::{
    health_url, may_poll, next_elapsed, startup_probe_config, startup_timeout_message,
    update_probe_config, update_timeout_message, wait_ready_trace, ProbeConfig,
};

#[test]
fn timeout_messages_name_their_durations() {
    assert_eq!(startup_timeout_message(), "Backend did not start within 10 seconds");
    assert_eq!(update_timeout_message(), "Backend did not start within 15 seconds");
}

#[test]
fn timeout_bound_when_never_ready() {
    let cfg = ProbeConfig { timeout_ms: 1000, interval_ms: 300 };
    // Polls at 0, 300, 600, 900 all fail; at 1200 the deadline has passed.
    let (ready, elapsed) = wait_ready_trace(&cfg, &vec![]);
    assert!(!ready);
    assert!(elapsed >= 1000);
    assert!(elapsed < 1000 + 300);
    assert_eq!(elapsed, 1200);
}

#[test]
fn immediate_success_returns_at_once() {
    let cfg = ProbeConfig { timeout_ms: 1000, interval_ms: 300 };
    assert_eq!(wait_ready_trace(&cfg, &vec![true]), (true, 0));
}

#[test]
fn success_on_third_poll() {
    let cfg = ProbeConfig { timeout_ms: 1000, interval_ms: 300 };
    assert_eq!(wait_ready_trace(&cfg, &vec![false, false, true]), (true, 600));
}

#[test]
fn success_after_deadline_is_too_late() {
    let cfg = ProbeConfig { timeout_ms: 600, interval_ms: 300 };
    // The first success would be the poll at 600, but the deadline has
    // already passed by then.
    let (ready, elapsed) = wait_ready_trace(&cfg, &vec![false, false, true]);
    assert!(!ready);
    assert_eq!(elapsed, 600);
}

#[test]
fn configured_schedules_match_the_two_entry_points() {
    let s = startup_probe_config();
    assert_eq!((s.timeout_ms, s.interval_ms), (10000, 300));
    let u = update_probe_config();
    assert_eq!((u.timeout_ms, u.interval_ms), (15000, 300));
    assert!(u.timeout_ms > s.timeout_ms);
}

#[test]
fn poll_stepping_matches_schedule() {
    let cfg = ProbeConfig { timeout_ms: 1000, interval_ms: 300 };
    assert!(may_poll(&cfg, 0));
    assert!(may_poll(&cfg, 999));
    assert!(!may_poll(&cfg, 1000));
    assert_eq!(next_elapsed(&cfg, 0), 300);
    assert_eq!(next_elapsed(&cfg, 900), 1200);
}

#[test]
fn health_endpoint_is_fixed() {
    assert_eq!(health_url(), "http://127.0.0.1:8000/api/v1/health");
}
