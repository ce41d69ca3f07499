//! Bounded polling with a timeout.
//!
//! A predicate is probed repeatedly with a small fixed interval between
//! attempts until it produces a value or the timeout elapses.  The sleeping
//! sits with the embedding; the library decides, from the elapsed time and
//! the probe's outcome, whether to accept, retry, time out, or — in the
//! strict variant — propagate a failure immediately.

use vstd::prelude::*;

verus! {

/// The default pause between two probes, in milliseconds.
pub const DEFAULT_POLL_INTERVAL_MS: u64 = 100;

/// The default overall timeout, in milliseconds.
pub const DEFAULT_WAIT_TIMEOUT_MS: u64 = 10_000;

/// What one probe of the predicate reported.
pub enum ProbeOutcome {
    /// The predicate produced its value.
    Ready,
    /// The designated "not found yet" outcome: coalesced into a retry.
    AbsentYet,
    /// Any other failure: propagated immediately, bypassing the timeout
    /// classification.
    Failed,
}

/// What the polling loop must do next.
pub enum PollDecision {
    /// Hand the predicate's value out.
    Accept,
    /// Sleep one interval and probe again.
    RetrySleep,
    /// Fail with Timeout.
    TimedOut,
    /// Fail with the probe's own error, unwrapped.
    Propagate,
}

/// A bounded wait: the overall timeout and the pause between probes.
pub struct Wait {
    pub timeout_ms: u64,
    pub interval_ms: u64,
}

impl Wait {
    /// The default wait.
    pub fn new_default() -> (r: Wait)
        ensures
            r.timeout_ms == DEFAULT_WAIT_TIMEOUT_MS,
            r.interval_ms == DEFAULT_POLL_INTERVAL_MS,
            r.interval_ms > 0,
    {
        Wait { timeout_ms: DEFAULT_WAIT_TIMEOUT_MS, interval_ms: DEFAULT_POLL_INTERVAL_MS }
    }

    /// A wait with this timeout and the default probe interval.
    pub fn with_timeout(timeout_ms: u64) -> (r: Wait)
        ensures
            r.timeout_ms == timeout_ms,
            r.interval_ms == DEFAULT_POLL_INTERVAL_MS,
            r.interval_ms > 0,
    {
        Wait { timeout_ms, interval_ms: DEFAULT_POLL_INTERVAL_MS }
    }

    /// The decision after a plain probe: accept a value at once; keep
    /// retrying while time is left; time out once the deadline has passed.
    /// A plain wait never propagates.
    pub fn next_step(&self, elapsed_ms: u64, ready: bool) -> (r: PollDecision)
        ensures
            ready ==> r is Accept,
            !ready && elapsed_ms < self.timeout_ms ==> r is RetrySleep,
            !ready && elapsed_ms >= self.timeout_ms ==> r is TimedOut,
    {
        if ready {
            PollDecision::Accept
        } else if elapsed_ms < self.timeout_ms {
            PollDecision::RetrySleep
        } else {
            PollDecision::TimedOut
        }
    }

    /// The decision of the strict variant: only the designated "absent"
    /// outcome is coalesced into a retry; any other failure of the probe is
    /// propagated immediately, whatever the clock says.
    pub fn next_step_strict(&self, elapsed_ms: u64, outcome: ProbeOutcome) -> (r: PollDecision)
        ensures
            outcome is Ready ==> r is Accept,
            outcome is Failed ==> r is Propagate,
            outcome is AbsentYet && elapsed_ms < self.timeout_ms ==> r is RetrySleep,
            outcome is AbsentYet && elapsed_ms >= self.timeout_ms ==> r is TimedOut,
    {
        match outcome {
            ProbeOutcome::Ready => PollDecision::Accept,
            ProbeOutcome::Failed => PollDecision::Propagate,
            ProbeOutcome::AbsentYet => {
                if elapsed_ms < self.timeout_ms {
                    PollDecision::RetrySleep
                } else {
                    PollDecision::TimedOut
                }
            },
        }
    }
}

/// The moment of the k-th probe when probes run every `interval` starting
/// at zero.
pub open spec fn poll_time(k: nat, interval: nat) -> nat {
    k * interval
}

/// `k` is the first probe at or after the moment `delta` at which the
/// predicate starts succeeding.
pub open spec fn is_first_ready_poll(k: nat, delta: nat, interval: nat) -> bool {
    poll_time(k, interval) >= delta && (k > 0 ==> poll_time((k - 1) as nat, interval) < delta)
}

/// The wait returns within one probe interval of the moment the predicate
/// starts succeeding: if the predicate first succeeds at elapsed time
/// `delta`, the probe that sees it runs at or after `delta` but before
/// `delta + interval`.  With `delta` read as the timeout of a predicate
/// that never succeeds, the same bound places the Timeout failure within
/// one interval of the deadline.
pub proof fn lemma_wait_latency(k: nat, delta: nat, interval: nat)
    requires
        interval > 0,
        is_first_ready_poll(k, delta, interval),
    ensures
        delta <= poll_time(k, interval) < delta + interval,
{
    if k == 0 {
        assert(poll_time(0, interval) == 0) by (nonlinear_arith);
    } else {
        assert(k * interval == (k - 1) * interval + interval) by (nonlinear_arith);
    }
}

} // verus!
