//! Pacing for "try until it holds or the time is up" loops.

use vstd::prelude::*;

verus! {

/// Delays between attempts, with a deadline measured from the first attempt.
/// Attempt `k` (from 0) is followed, when it fails, by `delays_ms[k]`; past the
/// end of the list the last delay repeats if `repeat_last`, and otherwise no
/// further attempt is made.
pub struct RetryPolicy {
    pub delays_ms: Vec<u64>,
    pub repeat_last: bool,
    pub deadline_ms: u64,
}

impl RetryPolicy {
    pub open spec fn well_formed(&self) -> bool {
        self.delays_ms@.len() > 0
    }

    pub open spec fn spec_may_attempt(&self, attempt: nat, elapsed_ms: nat) -> bool {
        elapsed_ms < self.deadline_ms && (self.repeat_last || attempt < self.delays_ms@.len())
    }

    pub open spec fn spec_delay_after(&self, attempt: nat) -> u64 {
        if attempt < self.delays_ms@.len() {
            self.delays_ms@[attempt as int]
        } else {
            self.delays_ms@.last()
        }
    }

    /// A fixed interval between attempts, until the deadline.
    pub fn fixed(interval_ms: u64, deadline_ms: u64) -> (r: RetryPolicy)
        ensures
            r.well_formed(),
            r.delays_ms@ == seq![interval_ms],
            r.repeat_last,
            r.deadline_ms == deadline_ms,
    {
        RetryPolicy { delays_ms: vec![interval_ms], repeat_last: true, deadline_ms }
    }

    /// One attempt per delay of `delays_ms`, with no deadline of its own.
    pub fn schedule(delays_ms: Vec<u64>) -> (r: RetryPolicy)
        requires
            delays_ms@.len() > 0,
        ensures
            r.well_formed(),
            r.delays_ms@ == delays_ms@,
            !r.repeat_last,
            r.deadline_ms == u64::MAX,
    {
        RetryPolicy { delays_ms, repeat_last: false, deadline_ms: u64::MAX }
    }

    /// Whether attempt number `attempt` may still be made, `elapsed_ms` after
    /// the first one started.
    pub fn may_attempt(&self, attempt: u64, elapsed_ms: u64) -> (r: bool)
        ensures
            r == self.spec_may_attempt(attempt as nat, elapsed_ms as nat),
    {
        elapsed_ms < self.deadline_ms && (self.repeat_last || attempt < self.delays_ms.len() as u64)
    }

    /// How long to wait after attempt number `attempt` failed.
    pub fn delay_after(&self, attempt: u64) -> (r: u64)
        requires
            self.well_formed(),
        ensures
            r == self.spec_delay_after(attempt as nat),
    {
        let n = self.delays_ms.len();
        if attempt < n as u64 {
            self.delays_ms[attempt as usize]
        } else {
            self.delays_ms[n - 1]
        }
    }
}

/// How shutdown waits for the port and the executable to be released: every
/// 250 ms, for at most 10 s.
pub fn shutdown_polling() -> (r: RetryPolicy)
    ensures
        r.well_formed(),
        r.delays_ms@ == seq![250u64],
        r.repeat_last,
        r.deadline_ms == 10_000,
{
    RetryPolicy::fixed(250, 10_000)
}

/// How the health endpoint is polled after a start: four attempts, waiting
/// longer after each failure.
pub fn health_warmup() -> (r: RetryPolicy)
    ensures
        r.well_formed(),
        r.delays_ms@ == seq![500u64, 1000, 1500, 2500],
        !r.repeat_last,
{
    RetryPolicy::schedule(vec![500, 1000, 1500, 2500])
}

} // verus!
