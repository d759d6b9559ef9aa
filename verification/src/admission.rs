use vstd::prelude::*;

verus! {

/// Whether a decrement that found `previous` tokens in the counter took one
/// of them. A decrement that found none is undone and the caller rejected.
pub open spec fn takes_token(previous: int) -> bool {
    previous >= 1
}

/// Whether a full window lies between the last refill and `now`.
pub open spec fn window_elapsed(now: int, last_updated: int, window: int) -> bool {
    now - last_updated >= window
}

/// One atomic operation on the token counter.
pub enum CounterEvent {
    /// A caller subtracts one and looks at what was there before.
    Decrement,
    /// A rejected caller adds its one back.
    Restore,
}

/// The token counter within one window, with the bookkeeping needed to
/// speak of what its callers were told.
pub struct CounterState {
    /// The counter's value; racing decrements may drive it below zero.
    pub tokens: int,
    /// Callers admitted so far.
    pub admitted: int,
    /// Rejected callers that have not yet added their one back.
    pub owed: int,
}

/// The counter right after a refill to `quota`, with nobody in flight.
pub open spec fn fresh_window(quota: int) -> CounterState {
    CounterState { tokens: quota, admitted: 0, owed: 0 }
}

/// Whether `event` can happen in state `s`: only a caller that was rejected
/// and has not restored yet can restore.
pub open spec fn enabled(s: CounterState, event: CounterEvent) -> bool {
    event is Restore ==> s.owed >= 1
}

/// The counter after `event`.
pub open spec fn step(s: CounterState, event: CounterEvent) -> CounterState {
    match event {
        CounterEvent::Decrement => if takes_token(s.tokens) {
            CounterState { tokens: s.tokens - 1, admitted: s.admitted + 1, owed: s.owed }
        } else {
            CounterState { tokens: s.tokens - 1, admitted: s.admitted, owed: s.owed + 1 }
        },
        CounterEvent::Restore => CounterState {
            tokens: s.tokens + 1,
            admitted: s.admitted,
            owed: s.owed - 1,
        },
    }
}

/// The counter after the events of `trace`, in order.
pub open spec fn run(s: CounterState, trace: Seq<CounterEvent>) -> CounterState
    decreases trace.len(),
{
    if trace.len() == 0 {
        s
    } else {
        step(run(s, trace.drop_last()), trace.last())
    }
}

/// Whether `trace` is an interleaving that callers can produce from `s`.
pub open spec fn feasible(s: CounterState, trace: Seq<CounterEvent>) -> bool
    decreases trace.len(),
{
    trace.len() == 0 || (feasible(s, trace.drop_last()) && enabled(
        run(s, trace.drop_last()),
        trace.last(),
    ))
}

/// A caller that runs alone: the tokens left, and whether it was admitted.
pub open spec fn acquire_alone(tokens: int) -> (int, bool) {
    if takes_token(tokens) {
        (tokens - 1, true)
    } else {
        (tokens, false)
    }
}

/// The tokens left after `calls` callers ran one after the other.
pub open spec fn tokens_after(tokens: int, calls: nat) -> int
    decreases calls,
{
    if calls == 0 {
        tokens
    } else {
        acquire_alone(tokens_after(tokens, (calls - 1) as nat)).0
    }
}

/// A bucket that is refilled by whoever first notices that the window has
/// passed.
pub struct LazyBucket {
    pub tokens: int,
    pub last_updated: int,
}

/// The lazy bucket after the refill check of a caller that arrives at `now`.
pub open spec fn lazy_refill(b: LazyBucket, now: int, window: int, quota: int) -> LazyBucket {
    if window_elapsed(now, b.last_updated, window) {
        LazyBucket { tokens: quota, last_updated: now }
    } else {
        b
    }
}

/// A caller that arrives alone at `now`: the bucket it leaves, and whether
/// it was admitted.
pub open spec fn lazy_acquire(b: LazyBucket, now: int, window: int, quota: int) -> (
    LazyBucket,
    bool,
) {
    let filled = lazy_refill(b, now, window, quota);
    let (tokens, admitted) = acquire_alone(filled.tokens);
    (LazyBucket { tokens, last_updated: filled.last_updated }, admitted)
}

/// Within one window the counter never admits more callers than the quota,
/// however the decrements and restores of any number of callers interleave.
/// The counter never exceeds the quota either, and once nobody is in
/// flight it holds exactly the quota less the admissions.
pub proof fn lemma_never_over_admits(quota: int, trace: Seq<CounterEvent>)
    requires
        quota >= 0,
        feasible(fresh_window(quota), trace),
    ensures
        0 <= run(fresh_window(quota), trace).admitted <= quota,
        run(fresh_window(quota), trace).tokens <= quota,
        run(fresh_window(quota), trace).owed >= 0,
        run(fresh_window(quota), trace).tokens == quota - run(fresh_window(quota), trace).admitted
            - run(fresh_window(quota), trace).owed,
    decreases trace.len(),
{
    if trace.len() > 0 {
        lemma_never_over_admits(quota, trace.drop_last());
    }
}

/// Callers that run one after the other from a counter holding `tokens`
/// are admitted until the tokens are used up: the call with index `calls`
/// is admitted exactly when `calls < tokens`.
pub proof fn lemma_consecutive_admissions(tokens: int, calls: nat)
    ensures
        tokens_after(tokens, calls) == if tokens <= 0 {
            tokens
        } else if calls <= tokens {
            tokens - calls
        } else {
            0
        },
        acquire_alone(tokens_after(tokens, calls)).1 <==> calls < tokens,
    decreases calls,
{
    if calls > 0 {
        lemma_consecutive_admissions(tokens, (calls - 1) as nat);
    }
}

/// A caller that arrives alone a full window or more after the last refill
/// of a lazy bucket with a quota of at least one is admitted, whatever the
/// bucket held, and leaves it one short of the quota.
pub proof fn lemma_retry_after_window(b: LazyBucket, now: int, window: int, quota: int)
    requires
        quota >= 1,
        now - b.last_updated >= window,
    ensures
        lazy_acquire(b, now, window, quota).1,
        lazy_acquire(b, now, window, quota).0 == (LazyBucket {
            tokens: quota - 1,
            last_updated: now,
        }),
{
}

/// A lazy bucket that was just refilled at `now` admits the next `quota`
/// callers that arrive alone before the window has passed, and not the one
/// after them.
pub proof fn lemma_lazy_bucket_admits_quota(now: int, window: int, quota: int, calls: nat)
    requires
        quota >= 0,
        window >= 1,
    ensures
        lazy_acquire(
            LazyBucket { tokens: tokens_after(quota, calls), last_updated: now },
            now,
            window,
            quota,
        ).1 <==> calls < quota,
{
    lemma_consecutive_admissions(quota, calls);
}

/// Decides on a caller from what its decrement found in the counter.
pub fn admit_after_decrement(previous: i64) -> (outcome: Result<(), ()>)
    ensures
        outcome.is_ok() <==> takes_token(previous as int),
{
    if previous >= 1 {
        Ok(())
    } else {
        Err(())
    }
}

/// Decides whether a caller arriving at `now` owes the bucket a refill.
/// The sum is taken in a width that cannot overflow.
pub fn refill_due(now: u64, last_updated: u64, duration_in_nanos: u64) -> (due: bool)
    ensures
        due == window_elapsed(now as int, last_updated as int, duration_in_nanos as int),
{
    now as u128 >= last_updated as u128 + duration_in_nanos as u128
}

/// The quota as the signed value that the counter holds.
pub fn signed_quota(quota: u64) -> (signed: i64)
    requires
        quota <= i64::MAX,
    ensures
        signed == quota,
{
    quota as i64
}

/// The low 64 bits of a count of nanoseconds.
pub open spec fn low_64_bits(nanos: u128) -> int {
    nanos as int % 0x1_0000_0000_0000_0000
}

/// Cuts a count of nanoseconds to 64 bits.
pub fn truncate_nanos(nanos: u128) -> (low: u64)
    ensures
        low == low_64_bits(nanos),
{
    (nanos % 0x1_0000_0000_0000_0000) as u64
}

/// The timestamp that a reading of the wall clock stands for: the low 64
/// bits of its nanoseconds, and zero for a clock that stood before the epoch.
pub open spec fn timestamp_of(reading: Option<u128>) -> int {
    match reading {
        Some(nanos) => low_64_bits(nanos),
        None => 0,
    }
}

/// Turns a reading of the wall clock into a timestamp.
pub fn timestamp_from(reading: Option<u128>) -> (timestamp: u64)
    ensures
        timestamp == timestamp_of(reading),
{
    match reading {
        Some(nanos) => truncate_nanos(nanos),
        None => 0,
    }
}

} // verus!
