//! The readiness prober.
//!
//! A freshly spawned backend needs time before its listener answers. The
//! prober polls the fixed local health endpoint at a constant short
//! interval until a request succeeds or a deadline passes. The polling
//! schedule is modelled exactly: `spec_wait` gives the result and finish
//! time for any sequence of probe outcomes, and the timeout bound is proved
//! for every such sequence.

use vstd::prelude::*;

verus! {

/// A polling schedule: total timeout and constant retry interval, both in
/// milliseconds.
#[derive(Clone, Copy, Debug, PartialEq, Eq, Structural)]
pub struct ProbeConfig {
    pub timeout_ms: u64,
    pub interval_ms: u64,
}

impl ProbeConfig {
    /// A usable schedule: a positive interval, and a deadline that leaves
    /// the final poll's time representable.
    pub open spec fn wf(self) -> bool {
        self.interval_ms >= 1 && self.timeout_ms as int + self.interval_ms as int
            <= u64::MAX as int
    }
}

/// The schedule used while the application starts.
pub fn startup_probe_config() -> (c: ProbeConfig)
    ensures
        c.timeout_ms == 10000,
        c.interval_ms == 300,
        c.wf(),
{
    ProbeConfig { timeout_ms: 10000, interval_ms: 300 }
}

/// The schedule used while a credential update restarts the backend; the
/// user is waiting on a foreground action, so it is the longer of the two.
pub fn update_probe_config() -> (c: ProbeConfig)
    ensures
        c.timeout_ms == 15000,
        c.interval_ms == 300,
        c.wf(),
{
    ProbeConfig { timeout_ms: 15000, interval_ms: 300 }
}

/// What polling returns, and when, for a given trace of probe outcomes:
/// `outcomes[i]` is whether the poll started at `elapsed + (i - first) *
/// interval` succeeds, an index past the trace's end standing for a poll
/// that fails. The result pairs readiness with the elapsed time at return.
pub open spec fn spec_wait(
    outcomes: Seq<bool>,
    i: int,
    elapsed: int,
    timeout: int,
    interval: int,
) -> (bool, int)
    decreases
            (if elapsed < timeout {
                timeout - elapsed
            } else {
                0
            }),
        when interval >= 1
{
    if elapsed >= timeout {
        (false, elapsed)
    } else if 0 <= i < outcomes.len() && outcomes[i] {
        (true, elapsed)
    } else {
        spec_wait(outcomes, i + 1, elapsed + interval, timeout, interval)
    }
}

/// The timeout bound: whatever the probe outcomes, a wait that does not
/// observe readiness reports failure no earlier than the deadline and no
/// later than the deadline plus one polling interval.
pub proof fn lemma_wait_timeout_bound(
    outcomes: Seq<bool>,
    i: int,
    elapsed: int,
    timeout: int,
    interval: int,
)
    requires
        interval >= 1,
        elapsed < timeout + interval,
    ensures
        ({
            let r = spec_wait(outcomes, i, elapsed, timeout, interval);
            !r.0 ==> timeout <= r.1 < timeout + interval
        }),
    decreases
            (if elapsed < timeout {
                timeout - elapsed
            } else {
                0
            }),
{
    if elapsed >= timeout {
    } else if 0 <= i < outcomes.len() && outcomes[i] {
    } else {
        lemma_wait_timeout_bound(outcomes, i + 1, elapsed + interval, timeout, interval);
    }
}

/// Readiness is reported as soon as the first successful probe occurs:
/// when every poll before `j` fails and the poll at `j` succeeds inside
/// the deadline, the wait returns success at exactly that poll's time,
/// with no further delay.
pub proof fn lemma_wait_first_success(
    outcomes: Seq<bool>,
    i: int,
    elapsed: int,
    timeout: int,
    interval: int,
    j: int,
)
    requires
        interval >= 1,
        0 <= i <= j < outcomes.len(),
        outcomes[j],
        forall|m: int| i <= m < j ==> !outcomes[m],
        elapsed + (j - i) * interval < timeout,
    ensures
        spec_wait(outcomes, i, elapsed, timeout, interval) == (
            true,
            elapsed + (j - i) * interval,
        ),
    decreases j - i,
{
    assert((j - i) * interval >= 0) by (nonlinear_arith)
        requires
            j - i >= 0,
            interval >= 1,
    ;
    if i == j {
        assert((j - i) * interval == 0) by (nonlinear_arith)
            requires
                i == j,
        ;
    } else {
        assert(!outcomes[i]);
        assert((j - i) * interval == interval + (j - (i + 1)) * interval) by (nonlinear_arith);
        lemma_wait_first_success(outcomes, i + 1, elapsed + interval, timeout, interval, j);
    }
}

/// Runs the polling schedule against a trace of probe outcomes and returns
/// readiness with the elapsed time at return.
pub fn wait_ready_trace(cfg: &ProbeConfig, outcomes: &Vec<bool>) -> (r: (bool, u64))
    requires
        cfg.wf(),
    ensures
        (r.0, r.1 as int) == spec_wait(
            outcomes@,
            0,
            0,
            cfg.timeout_ms as int,
            cfg.interval_ms as int,
        ),
{
    let t = cfg.timeout_ms;
    let iv = cfg.interval_ms;
    let ghost target = spec_wait(outcomes@, 0, 0, t as int, iv as int);
    let mut i: usize = 0;
    let ghost mut si: int = 0;
    let mut elapsed: u64 = 0;
    loop
        invariant
            cfg.wf(),
            t == cfg.timeout_ms,
            iv == cfg.interval_ms,
            0 <= si,
            i as int == (if si <= outcomes@.len() {
                si
            } else {
                outcomes@.len() as int
            }),
            elapsed as int <= t as int + iv as int,
            target == spec_wait(outcomes@, 0, 0, t as int, iv as int),
            target == spec_wait(outcomes@, si, elapsed as int, t as int, iv as int),
        decreases
                (if elapsed < t {
                    (t - elapsed) as int
                } else {
                    0
                }),
    {
        if elapsed >= t {
            proof {
                assert(spec_wait(outcomes@, si, elapsed as int, t as int, iv as int) == (
                    false,
                    elapsed as int,
                ));
            }
            return (false, elapsed);
        }
        let ok = if i < outcomes.len() {
            outcomes[i]
        } else {
            false
        };
        if ok {
            proof {
                assert(spec_wait(outcomes@, si, elapsed as int, t as int, iv as int) == (
                    true,
                    elapsed as int,
                ));
            }
            return (true, elapsed);
        }
        if i < outcomes.len() {
            i = i + 1;
        }
        proof {
            assert(spec_wait(outcomes@, si, elapsed as int, t as int, iv as int) == spec_wait(
                outcomes@,
                si + 1,
                elapsed as int + iv as int,
                t as int,
                iv as int,
            ));
            si = si + 1;
        }
        elapsed = elapsed + iv;
    }
}

/// The fixed message reported when startup's readiness gate runs out.
pub fn startup_timeout_message() -> (s: String)
    ensures
        s@ == "Backend did not start within 10 seconds"@,
{
    String::from_str("Backend did not start within 10 seconds")
}

/// The fixed message reported when an update's readiness gate runs out.
pub fn update_timeout_message() -> (s: String)
    ensures
        s@ == "Backend did not start within 15 seconds"@,
{
    String::from_str("Backend did not start within 15 seconds")
}

/// Relies on `ureq::get` and `RequestBuilder::call`: issues one HTTP GET
/// against the given address and reports whether it came back successful.
/// The answer depends on the network, so nothing is promised of it.
#[verifier::external_body]
fn http_get_succeeds(url: &str) -> (ok: bool) {
    ureq::get(url).call().is_ok()
}

/// The fixed local health endpoint the backend exposes once ready.
pub fn health_url() -> (s: &'static str)
    ensures
        s@ == "http://127.0.0.1:8000/api/v1/health"@,
{
    "http://127.0.0.1:8000/api/v1/health"
}

/// One readiness poll against the health endpoint; any successful response
/// counts as ready.
pub fn probe_health_once() -> bool {
    http_get_succeeds(health_url())
}

/// Whether another poll may start, or the deadline has passed.
pub fn may_poll(cfg: &ProbeConfig, elapsed_ms: u64) -> (b: bool)
    ensures
        b == (elapsed_ms < cfg.timeout_ms),
{
    elapsed_ms < cfg.timeout_ms
}

/// The elapsed time after one more polling interval.
pub fn next_elapsed(cfg: &ProbeConfig, elapsed_ms: u64) -> (e: u64)
    requires
        cfg.wf(),
        elapsed_ms < cfg.timeout_ms,
    ensures
        e == elapsed_ms + cfg.interval_ms,
{
    elapsed_ms + cfg.interval_ms
}

} // verus!
