use crate::rate_limiter::RateLimiter;
use std::sync::Mutex;
use std::sync::MutexGuard;
use vstd::prelude::*;

verus! {

/// The mathematical state of a token bucket with proportional refill.
pub struct BucketState {
    /// Tokens added per elapsed second.
    pub rate: int,
    /// Ceiling on the tokens held.
    pub capacity: int,
    /// Second at which a caller was last admitted.
    pub last_updated: int,
    /// Tokens held at `last_updated`.
    pub tokens: int,
}

/// Tokens the bucket holds at second `now`: what it held at the last
/// admission plus `rate` for each second since, capped at `capacity`.
pub open spec fn accrued(s: BucketState, now: int) -> int {
    let grown = s.tokens + (now - s.last_updated) * s.rate;
    if grown < s.capacity { grown } else { s.capacity }
}

/// Whether a caller arriving at second `now` is admitted.
pub open spec fn admits(s: BucketState, now: int) -> bool {
    accrued(s, now) > 0
}

/// The bucket after a caller arrived at second `now`: an admission takes one
/// token and moves the refill mark to `now`, a rejection changes nothing.
pub open spec fn after_acquire(s: BucketState, now: int) -> BucketState {
    if admits(s, now) {
        BucketState { last_updated: now, tokens: accrued(s, now) - 1, ..s }
    } else {
        s
    }
}

/// An empty bucket whose refill mark stands at second zero.
pub open spec fn fresh(rate: int, capacity: int) -> BucketState {
    BucketState { rate, capacity, last_updated: 0, tokens: 0 }
}

/// The bucket after `calls` callers arrived one after the other, all of
/// them at second `now`.
pub open spec fn after_calls(s: BucketState, now: int, calls: nat) -> BucketState
    decreases calls,
{
    if calls == 0 {
        s
    } else {
        after_acquire(after_calls(s, now, (calls - 1) as nat), now)
    }
}

/// A burst is worth what has accrued: of the callers that arrive one after
/// the other at second `now`, the one with index `calls` is admitted
/// exactly when `calls` is below the tokens accrued at `now`.
pub proof fn lemma_burst_matches_accrual(s: BucketState, now: int, calls: nat)
    ensures
        admits(after_calls(s, now, calls), now) <==> calls < accrued(s, now),
        accrued(after_calls(s, now, calls), now) == if accrued(s, now) <= 0 {
            accrued(s, now)
        } else if calls <= accrued(s, now) {
            accrued(s, now) - calls
        } else {
            0
        },
    decreases calls,
{
    if calls > 0 {
        lemma_burst_matches_accrual(s, now, (calls - 1) as nat);
        let before = after_calls(s, now, (calls - 1) as nat);
        assert((now - now) * before.rate == 0) by (nonlinear_arith);
    }
}

/// A fresh bucket holds nothing: at second zero it rejects every caller,
/// however many came before.
pub proof fn lemma_fresh_bucket_rejects(rate: int, capacity: int, calls: nat)
    ensures
        !admits(after_calls(fresh(rate, capacity), 0, calls), 0),
{
    assert((0 - 0) * rate == 0) by (nonlinear_arith);
    lemma_burst_matches_accrual(fresh(rate, capacity), 0, calls);
}

/// Once enough seconds have passed for a fresh bucket to accrue its whole
/// capacity, a burst admits exactly `capacity` callers.
pub proof fn lemma_full_bucket_admits_capacity(rate: int, capacity: int, now: int, calls: nat)
    requires
        now * rate >= capacity,
    ensures
        accrued(fresh(rate, capacity), now) == capacity,
        admits(after_calls(fresh(rate, capacity), now, calls), now) <==> calls < capacity,
{
    assert((now - 0) * rate == now * rate) by (nonlinear_arith);
    lemma_burst_matches_accrual(fresh(rate, capacity), now, calls);
}

/// The bucket never holds more than its capacity: a state within the
/// capacity stays within it, whenever the next caller arrives.
pub proof fn lemma_tokens_within_capacity(s: BucketState, now: int)
    requires
        s.tokens <= s.capacity,
    ensures
        after_acquire(s, now).tokens <= after_acquire(s, now).capacity,
        after_acquire(s, now).capacity == s.capacity,
        after_acquire(s, now).rate == s.rate,
{
}

/// The state that one exclusive section guards in a token bucket.
#[derive(Clone, Copy, Debug)]
pub struct TokenBucketRateLimiterStatus {
    rate_in_seconds: i64,
    capacity: i64,
    last_updated_timestamp_in_seconds: i64,
    tokens: i64,
}

impl View for TokenBucketRateLimiterStatus {
    type V = BucketState;

    closed spec fn view(&self) -> BucketState {
        BucketState {
            rate: self.rate_in_seconds as int,
            capacity: self.capacity as int,
            last_updated: self.last_updated_timestamp_in_seconds as int,
            tokens: self.tokens as int,
        }
    }
}

/// The product of a difference of two 64-bit seconds and a 64-bit rate
/// stays far enough inside 128 bits to add a 64-bit token count to it.
proof fn lemma_product_bounds(elapsed: int, rate: int)
    by (nonlinear_arith)
    requires
        -0xffff_ffff_ffff_ffff <= elapsed <= 0xffff_ffff_ffff_ffff,
        -0x8000_0000_0000_0000 <= rate <= 0x7fff_ffff_ffff_ffff,
    ensures
        -0xffff_ffff_ffff_ffff * 0x8000_0000_0000_0000 <= elapsed * rate,
        elapsed * rate <= 0xffff_ffff_ffff_ffff * 0x8000_0000_0000_0000,
{
}

impl TokenBucketRateLimiterStatus {
    /// An empty bucket whose refill mark stands at second zero.
    pub fn new(rate_in_seconds: i64, capacity: i64) -> (status: Self)
        ensures
            status@ == fresh(rate_in_seconds as int, capacity as int),
    {
        TokenBucketRateLimiterStatus {
            rate_in_seconds,
            capacity,
            last_updated_timestamp_in_seconds: 0,
            tokens: 0,
        }
    }

    /// Tokens added per elapsed second.
    pub fn rate_in_seconds(&self) -> (rate: i64)
        ensures
            rate == self@.rate,
    {
        self.rate_in_seconds
    }

    /// Ceiling on the tokens held.
    pub fn capacity(&self) -> (capacity: i64)
        ensures
            capacity == self@.capacity,
    {
        self.capacity
    }

    /// Second at which a caller was last admitted; zero before the first.
    pub fn last_updated_timestamp_in_seconds(&self) -> (second: i64)
        ensures
            second == self@.last_updated,
    {
        self.last_updated_timestamp_in_seconds
    }

    /// Tokens held at the last admission.
    pub fn tokens(&self) -> (tokens: i64)
        ensures
            tokens == self@.tokens,
    {
        self.tokens
    }

    /// Decides on a caller that arrives at second `now`, measured from the
    /// same origin as the refill mark. The accrual is computed exactly, in
    /// a width that holds every product of two 64-bit values.
    pub fn acquire_at(&mut self, now: i64) -> (outcome: Result<(), ()>)
        ensures
            outcome.is_ok() <==> admits(old(self)@, now as int),
            final(self)@ == after_acquire(old(self)@, now as int),
    {
        let elapsed: i128 = now as i128 - self.last_updated_timestamp_in_seconds as i128;
        proof {
            lemma_product_bounds(elapsed as int, self.rate_in_seconds as int);
        }
        let grown: i128 = self.tokens as i128 + elapsed * (self.rate_in_seconds as i128);
        let tokens: i128 = if grown < self.capacity as i128 {
            grown
        } else {
            self.capacity as i128
        };
        if tokens <= 0 {
            return Err(());
        }
        self.last_updated_timestamp_in_seconds = now;
        self.tokens = (tokens - 1) as i64;
        Ok(())
    }
}

/// `std::sync::Mutex`, carried as an opaque value: nothing is known of what
/// it guards, since any thread may change that between two sections.
#[verifier::external_type_specification]
#[verifier::external_body]
#[verifier::reject_recursive_types(T)]
pub struct ExMutex<T: ?Sized>(Mutex<T>);

/// `std::sync::MutexGuard`, the open exclusive section of a mutex.
#[verifier::external_type_specification]
#[verifier::external_body]
#[verifier::reject_recursive_types(T)]
pub struct ExMutexGuard<'a, T: ?Sized + 'a>(MutexGuard<'a, T>);

/// `quanta::Clock`, a monotonic clock.
#[verifier::external_type_specification]
#[verifier::external_body]
pub struct ExClock(quanta::Clock);

/// `quanta::Instant`, a reading of a `quanta::Clock`.
#[verifier::external_type_specification]
#[verifier::external_body]
pub struct ExInstant(quanta::Instant);

/// `Mutex::new` puts a value under a fresh lock. Nothing is claimed of it.
pub assume_specification<T>[ Mutex::<T>::new ](t: T) -> Mutex<T>;

/// `quanta::Clock::new` picks the best clock source of the machine. Nothing
/// is claimed of it.
pub assume_specification[ quanta::Clock::new ]() -> quanta::Clock;

/// `quanta::Clock::now` reads the clock. Nothing is claimed of the reading.
pub assume_specification[ quanta::Clock::now ](clock: &quanta::Clock) -> quanta::Instant;

/// The largest count of whole seconds between two readings of a clock that
/// counts nanoseconds in 64 bits.
pub const MAX_ELAPSED_SECONDS: i64 = 18_446_744_073;

/// Whole seconds from `earlier` to `later`, by `quanta::Instant::duration_since`
/// and `Duration::as_secs`. An instant is a 64-bit count of nanoseconds and
/// the difference saturates to zero, so the result lies between zero and
/// `MAX_ELAPSED_SECONDS`; which value it is depends on the clock.
#[verifier::external_body]
fn seconds_between(later: quanta::Instant, earlier: quanta::Instant) -> (seconds: i64)
    ensures
        0 <= seconds <= MAX_ELAPSED_SECONDS,
{
    later.duration_since(earlier).as_secs() as i64
}

/// Opens the exclusive section of `status` by `Mutex::lock`, blocking until
/// it is free. A lock that a panicking holder poisoned is entered all the
/// same. Nothing is claimed of the guard.
#[verifier::external_body]
fn enter<'a>(status: &'a Mutex<TokenBucketRateLimiterStatus>) -> MutexGuard<
    'a,
    TokenBucketRateLimiterStatus,
> {
    status.lock().unwrap_or_else(|poison| poison.into_inner())
}

/// Reads the guarded status through the guard's `Deref`. Nothing is claimed
/// of the value: it is whatever the last holder left.
#[verifier::external_body]
fn guarded(guard: &MutexGuard<'_, TokenBucketRateLimiterStatus>) -> TokenBucketRateLimiterStatus {
    **guard
}

/// Replaces the guarded status through the guard's `DerefMut`.
#[verifier::external_body]
fn replace_guarded(
    guard: &mut MutexGuard<'_, TokenBucketRateLimiterStatus>,
    status: TokenBucketRateLimiterStatus,
) {
    **guard = status;
}

/// A token bucket with proportional refill, safe to share between threads:
/// one mutex guards the status, and a monotonic clock measures seconds from
/// the moment of construction.
pub struct TokenBucketRateLimiter {
    status: Mutex<TokenBucketRateLimiterStatus>,
    clock: quanta::Clock,
    base_instant: quanta::Instant,
    initial: Ghost<BucketState>,
}

impl TokenBucketRateLimiter {
    /// The state in which the limiter was constructed. It fixes the rate
    /// and the capacity for the limiter's whole life.
    pub closed spec fn initial(&self) -> BucketState {
        self.initial@
    }

    /// A limiter that accrues `rate_in_seconds` tokens per second up to
    /// `capacity`, starting empty at second zero.
    pub fn new(rate_in_seconds: i64, capacity: i64) -> (limiter: Self)
        ensures
            limiter.initial() == fresh(rate_in_seconds as int, capacity as int),
    {
        let clock = quanta::Clock::new();
        let base_instant = clock.now();
        let status = TokenBucketRateLimiterStatus::new(rate_in_seconds, capacity);
        TokenBucketRateLimiter {
            status: Mutex::new(status),
            clock,
            base_instant,
            initial: Ghost(status@),
        }
    }

    /// Whole seconds on the limiter's clock since it was constructed.
    pub fn now_in_seconds(&self) -> (seconds: i64)
        ensures
            0 <= seconds <= MAX_ELAPSED_SECONDS,
    {
        seconds_between(self.clock.now(), self.base_instant)
    }
}

impl RateLimiter for TokenBucketRateLimiter {
    /// Reads the clock, then decides inside the exclusive section by
    /// `TokenBucketRateLimiterStatus::acquire_at`.
    fn acquire(&self) -> Result<(), ()> {
        let now = self.now_in_seconds();
        let mut guard = enter(&self.status);
        let mut status = guarded(&guard);
        let outcome = status.acquire_at(now);
        replace_guarded(&mut guard, status);
        outcome
    }
}

} // verus!
