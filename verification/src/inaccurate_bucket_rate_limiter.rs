use crate::admission::admit_after_decrement;
use crate::admission::refill_due;
use crate::admission::signed_quota;
use crate::admission::truncate_nanos;
use crate::rate_limiter::RateLimiter;
use crate::system_clock::nanos_since_unix_epoch;
use std::sync::atomic::AtomicI64;
use std::sync::atomic::AtomicU64;
use std::sync::atomic::Ordering;
use std::sync::Arc;
use std::time::Duration;
use vstd::prelude::*;

verus! {

/// A bucket rate limiter with lazy refill: whichever caller first notices
/// that the window has passed refills the bucket.
///
/// Every operation is lock-free. The limit is not exact: refills and
/// decrements may race, which lets fewer callers pass than the quota, never
/// more within one window.
#[derive(Clone)]
pub struct InaccurateBucketRateLimiter(Arc<InaccurateBucketRateLimiterSharedStatus>);

struct InaccurateBucketRateLimiterSharedStatus {
    duration_in_nanos: u64,
    quota: i64,
    last_updated_timestamp_in_nanos: AtomicU64,
    tokens: AtomicI64,
}

impl RateLimiter for InaccurateBucketRateLimiter {
    fn acquire(&self) -> Result<(), ()> {
        self.fill_tokens();
        self.do_acquire()
    }
}

impl InaccurateBucketRateLimiter {
    /// The tokens that a refill puts into the bucket.
    pub closed spec fn quota(&self) -> int {
        self.0.quota as int
    }

    /// The window between two refills, in nanoseconds.
    pub closed spec fn duration_in_nanos(&self) -> int {
        self.0.duration_in_nanos as int
    }

    /// A full bucket of `quota` tokens that is refilled once `duration` has
    /// passed. The window is the low 64 bits of the duration's nanoseconds.
    pub fn new(duration: impl Into<Duration>, quota: u64) -> (limiter: Self)
        requires
            quota <= i64::MAX,
        ensures
            limiter.quota() == quota,
    {
        let window: Duration = duration.into();
        Self::with_window_in_nanos(truncate_nanos(window.as_nanos()), quota)
    }

    /// A full bucket of `quota` tokens that is refilled once
    /// `duration_in_nanos` nanoseconds have passed.
    pub fn with_window_in_nanos(duration_in_nanos: u64, quota: u64) -> (limiter: Self)
        requires
            quota <= i64::MAX,
        ensures
            limiter.quota() == quota,
            limiter.duration_in_nanos() == duration_in_nanos,
    {
        let quota = signed_quota(quota);
        InaccurateBucketRateLimiter(
            Arc::new(
                InaccurateBucketRateLimiterSharedStatus {
                    duration_in_nanos,
                    quota,
                    last_updated_timestamp_in_nanos: AtomicU64::new(Self::now_timestamp_in_nanos()),
                    tokens: AtomicI64::new(quota),
                },
            ),
        )
    }

    /// Refills the bucket if a full window has passed since the last
    /// refill and this caller is the one to move the refill mark.
    pub fn fill_tokens(&self) {
        let now = Self::now_timestamp_in_nanos();
        let last_updated = self.0.last_updated_timestamp_in_nanos.load(Ordering::Relaxed);
        if !refill_due(now, last_updated, self.0.duration_in_nanos) {
            return ;
        }
        let moved = self.0.last_updated_timestamp_in_nanos.compare_exchange(
            last_updated,
            now,
            Ordering::Relaxed,
            Ordering::Relaxed,
        );
        if moved.is_ok() {
            self.0.tokens.store(self.0.quota, Ordering::Relaxed);
        }
    }

    /// Takes one token, or puts it back and rejects where none was left.
    pub fn do_acquire(&self) -> Result<(), ()> {
        let previous = self.0.tokens.fetch_sub(1, Ordering::Relaxed);
        let outcome = admit_after_decrement(previous);
        if outcome.is_err() {
            self.0.tokens.fetch_add(1, Ordering::Relaxed);
        }
        outcome
    }

    /// Nanoseconds on the wall clock since the Unix epoch, cut to 64 bits;
    /// zero where the clock stands before the epoch.
    pub fn now_timestamp_in_nanos() -> u64 {
        crate::admission::timestamp_from(nanos_since_unix_epoch())
    }
}

} // verus!
