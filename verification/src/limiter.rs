//! Admission control: a fixed-window rate limiter.
//!
//! Before the tweet fetcher is invoked, the caller asks the limiter for
//! admission.  Time is divided into fixed windows of `window` ticks; at
//! most `limit` requests are admitted per window, and a rejection is
//! immediate.  One limiter instance guards one route; the caller supplies
//! the current time as a plain tick count.

use vstd::prelude::*;

verus! {

/// Per-route admission state: at most `limit` admissions per window of
/// `window` ticks.
pub struct RateLimiter {
    /// Maximum number of admitted requests per window.
    pub limit: u64,
    /// Window length in ticks; always at least 1.
    pub window: u64,
    /// Index (`now / window`) of the window the counter belongs to.
    pub window_index: u64,
    /// Requests admitted so far in the current window.
    pub count: u64,
}

impl RateLimiter {
    /// Well-formedness: a positive window and a counter within the quota.
    pub open spec fn wf(self) -> bool {
        &&& self.window >= 1
        &&& self.count <= self.limit
    }

    /// The full effect of one admission check: the successor state and
    /// whether the request is admitted.
    pub open spec fn spec_check(self, now: u64) -> (RateLimiter, bool) {
        let w = now as int / self.window as int;
        let c0: int = if w == self.window_index as int {
            self.count as int
        } else {
            0
        };
        let admitted = c0 < self.limit as int;
        let c1: int = if admitted {
            c0 + 1
        } else {
            c0
        };
        (
            RateLimiter {
                limit: self.limit,
                window: self.window,
                window_index: w as u64,
                count: c1 as u64,
            },
            admitted,
        )
    }

    /// A fresh limiter whose first window has an empty counter.
    pub fn new(limit: u64, window: u64) -> (r: RateLimiter)
        requires
            window >= 1,
        ensures
            r.wf(),
            r == (RateLimiter { limit, window, window_index: 0, count: 0 }),
    {
        RateLimiter { limit, window, window_index: 0, count: 0 }
    }

    /// Check-and-increment: admit the request iff the quota of the window
    /// holding `now` is not yet exhausted.  Never blocks; a rejection
    /// leaves the counter unchanged.
    pub fn check(&mut self, now: u64) -> (admitted: bool)
        requires
            old(self).wf(),
        ensures
            final(self).wf(),
            (*final(self), admitted) == old(self).spec_check(now),
    {
        let w = now / self.window;
        if w != self.window_index {
            self.window_index = w;
            self.count = 0;
        }
        if self.count < self.limit {
            self.count = self.count + 1;
            true
        } else {
            false
        }
    }
}

/// How many of the checks at the given times a limiter in state `s`
/// admits, when they arrive in order.
pub open spec fn admitted_count(s: RateLimiter, times: Seq<u64>) -> nat
    decreases times.len(),
{
    if times.len() == 0 {
        0
    } else {
        let step = s.spec_check(times[0]);
        (if step.1 {
            1nat
        } else {
            0nat
        }) + admitted_count(step.0, times.drop_first())
    }
}

/// Admission bound: however many checks arrive within one window, the
/// limiter admits no more of them than the quota it has left; in
/// particular a fresh window admits at most `limit` requests.
pub proof fn lemma_window_admission_bound(s: RateLimiter, times: Seq<u64>)
    requires
        s.wf(),
        forall|i: int|
            0 <= i < times.len() ==> times[i] as int / s.window as int == s.window_index as int,
    ensures
        admitted_count(s, times) + s.count <= s.limit,
    decreases times.len(),
{
    if times.len() > 0 {
        let step = s.spec_check(times[0]);
        assert(times[0] as int / s.window as int == s.window_index as int);
        let s2 = step.0;
        assert(s2.wf());
        assert(forall|i: int|
            0 <= i < times.drop_first().len() ==> times.drop_first()[i] as int / s2.window as int
                == s2.window_index as int);
        lemma_window_admission_bound(s2, times.drop_first());
    }
}

} // verus!
