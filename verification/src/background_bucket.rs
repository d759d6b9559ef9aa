use crate::admission::admit_after_decrement;
use crate::admission::signed_quota;
use crate::rate_limiter::RateLimiter;
use crate::refill_worker::after_wait;
use crate::refill_worker::WaitOutcome;
use crate::refill_worker::WorkerStep;
use std::sync::atomic::AtomicI64;
use std::sync::atomic::Ordering;
use vstd::prelude::*;

verus! {

/// The bucket of a limiter whose refill is the business of a background
/// worker: callers only ever decrement the counter and never look at a
/// clock.
pub struct BackgroundBucket {
    quota: i64,
    tokens: AtomicI64,
}

impl BackgroundBucket {
    /// The tokens that a refill puts into the bucket.
    pub closed spec fn quota(&self) -> int {
        self.quota as int
    }

    /// A full bucket of `quota` tokens.
    pub fn new(quota: u64) -> (bucket: Self)
        requires
            quota <= i64::MAX,
        ensures
            bucket.quota() == quota,
    {
        let quota = signed_quota(quota);
        BackgroundBucket { quota, tokens: AtomicI64::new(quota) }
    }

    /// Resets the counter to the quota, whatever it held.
    pub fn refill(&self) {
        self.tokens.store(self.quota, Ordering::Relaxed);
    }

    /// The worker's move after a wait: a wait that ran out refills the
    /// bucket, a shutdown leaves it alone. The result tells the worker
    /// whether to go on.
    pub fn on_wake(&self, outcome: WaitOutcome) -> (step: WorkerStep)
        ensures
            step == crate::refill_worker::step_after(outcome),
    {
        let step = after_wait(outcome);
        match step {
            WorkerStep::Refill => self.refill(),
            WorkerStep::Exit => {},
        }
        step
    }
}

impl RateLimiter for BackgroundBucket {
    /// Takes one token, or puts it back and rejects where none was left.
    fn acquire(&self) -> Result<(), ()> {
        let previous = self.tokens.fetch_sub(1, Ordering::Relaxed);
        let outcome = admit_after_decrement(previous);
        if outcome.is_err() {
            self.tokens.fetch_add(1, Ordering::Relaxed);
        }
        outcome
    }
}

} // verus!
