use crate::rate_limiter::RateLimiter;
use crate::shard_plan::lemma_shares_sum_to_total;
use crate::shard_plan::shard_count_for;
use crate::shard_plan::shard_count_of;
use crate::shard_plan::shard_of;
use crate::shard_plan::share;
use crate::shard_plan::share_for;
use crate::shard_plan::shares_sum;
use crate::shard_plan::split_evenly;
use crate::token_bucket_rate_limiter::TokenBucketRateLimiter;
use std::sync::atomic::AtomicUsize;
use std::sync::atomic::Ordering;
use std::sync::Arc;
use vstd::prelude::*;

verus! {

/// `num_cpus::get_physical` counts the physical processors of the host.
/// Nothing is claimed of the count: it depends on the machine.
pub assume_specification[ num_cpus::get_physical ]() -> usize;

/// The rates of the first `n` of `shards`, added up.
pub open spec fn rates_sum(shards: Seq<Arc<TokenBucketRateLimiter>>, n: nat) -> int
    decreases n,
{
    if n == 0 {
        0
    } else {
        rates_sum(shards, (n - 1) as nat) + shards[n - 1].initial().rate
    }
}

/// The capacities of the first `n` of `shards`, added up.
pub open spec fn capacities_sum(shards: Seq<Arc<TokenBucketRateLimiter>>, n: nat) -> int
    decreases n,
{
    if n == 0 {
        0
    } else {
        capacities_sum(shards, (n - 1) as nat) + shards[n - 1].initial().capacity
    }
}

proof fn lemma_rates_sum_is_shares_sum(
    shards: Seq<Arc<TokenBucketRateLimiter>>,
    total: int,
    parts: int,
    n: nat,
)
    requires
        n <= shards.len(),
        forall|j: int| 0 <= j < n ==> shards[j].initial().rate == share(total, parts, j),
    ensures
        rates_sum(shards, n) == shares_sum(total, parts, n),
    decreases n,
{
    if n > 0 {
        lemma_rates_sum_is_shares_sum(shards, total, parts, (n - 1) as nat);
    }
}

proof fn lemma_capacities_sum_is_shares_sum(
    shards: Seq<Arc<TokenBucketRateLimiter>>,
    total: int,
    parts: int,
    n: nat,
)
    requires
        n <= shards.len(),
        forall|j: int| 0 <= j < n ==> shards[j].initial().capacity == share(total, parts, j),
    ensures
        capacities_sum(shards, n) == shares_sum(total, parts, n),
    decreases n,
{
    if n > 0 {
        lemma_capacities_sum_is_shares_sum(shards, total, parts, (n - 1) as nat);
    }
}

/// A token bucket cut into independent shards, one exclusive section each,
/// with callers dealt to the shards in turn.
pub struct ShardingTokenBucketRateLimiter {
    index: AtomicUsize,
    shards: Vec<Arc<TokenBucketRateLimiter>>,
}

impl ShardingTokenBucketRateLimiter {
    #[verifier::type_invariant]
    spec fn has_a_shard(self) -> bool {
        self.shards@.len() >= 1
    }

    /// The number of shards.
    pub closed spec fn shards(&self) -> nat {
        self.shards@.len()
    }

    /// The rate given to shard `i`.
    pub closed spec fn shard_rate(&self, i: int) -> int {
        self.shards@[i].initial().rate
    }

    /// The capacity given to shard `i`.
    pub closed spec fn shard_capacity(&self, i: int) -> int {
        self.shards@[i].initial().capacity
    }

    /// The rates of all shards, added up.
    pub closed spec fn total_rate(&self) -> int {
        rates_sum(self.shards@, self.shards@.len())
    }

    /// The capacities of all shards, added up.
    pub closed spec fn total_capacity(&self) -> int {
        capacities_sum(self.shards@, self.shards@.len())
    }

    /// A limiter for the host it runs on: one shard per physical processor,
    /// as far as the rate and the capacity go round.
    pub fn new(rate_in_seconds: i64, capacity: i64) -> (limiter: Self)
        requires
            rate_in_seconds >= 1,
            capacity >= 1,
        ensures
            1 <= limiter.shards() <= rate_in_seconds,
            limiter.shards() <= capacity,
            forall|i: int|
                0 <= i < limiter.shards() ==> limiter.shard_rate(i) == share_for(
                    rate_in_seconds,
                    limiter.shards(),
                    i,
                ) && limiter.shard_capacity(i) == share_for(capacity, limiter.shards(), i),
            limiter.total_rate() == rate_in_seconds,
            limiter.total_capacity() == capacity,
    {
        let parallelism = num_cpus::get_physical();
        Self::with_parallelism(parallelism, rate_in_seconds, capacity)
    }

    /// A limiter for a host with `parallelism` processors; a count below
    /// one is taken as one.
    pub fn with_parallelism(
        parallelism: usize,
        rate_in_seconds: i64,
        capacity: i64,
    ) -> (limiter: Self)
        requires
            rate_in_seconds >= 1,
            capacity >= 1,
        ensures
            limiter.shards() == shard_count_for(parallelism, rate_in_seconds, capacity),
            forall|i: int|
                0 <= i < limiter.shards() ==> limiter.shard_rate(i) == share_for(
                    rate_in_seconds,
                    limiter.shards(),
                    i,
                ) && limiter.shard_capacity(i) == share_for(capacity, limiter.shards(), i),
            limiter.total_rate() == rate_in_seconds,
            limiter.total_capacity() == capacity,
    {
        let count = shard_count_of(parallelism, rate_in_seconds, capacity);
        let rates = split_evenly(rate_in_seconds, count);
        let capacities = split_evenly(capacity, count);
        let mut shards: Vec<Arc<TokenBucketRateLimiter>> = Vec::with_capacity(count);
        let mut i: usize = 0;
        while i < count
            invariant
                i <= count,
                shards@.len() == i,
                rates@.len() == count,
                capacities@.len() == count,
                forall|j: int|
                    0 <= j < count ==> rates@[j] == share(
                        rate_in_seconds as int,
                        count as int,
                        j,
                    ) && capacities@[j] == share(capacity as int, count as int, j),
                forall|j: int|
                    0 <= j < i ==> shards@[j].initial().rate == rates@[j]
                        && shards@[j].initial().capacity == capacities@[j],
            decreases count - i,
        {
            shards.push(Arc::new(TokenBucketRateLimiter::new(rates[i], capacities[i])));
            i += 1;
        }
        proof {
            lemma_rates_sum_is_shares_sum(shards@, rate_in_seconds as int, count as int, count as nat);
            lemma_capacities_sum_is_shares_sum(shards@, capacity as int, count as int, count as nat);
            lemma_shares_sum_to_total(rate_in_seconds as int, count as int);
            lemma_shares_sum_to_total(capacity as int, count as int);
        }
        ShardingTokenBucketRateLimiter { index: AtomicUsize::new(0), shards }
    }

    /// The number of shards.
    pub fn shard_count(&self) -> (count: usize)
        ensures
            count == self.shards(),
            count >= 1,
    {
        proof {
            use_type_invariant(self);
        }
        self.shards.len()
    }
}

impl RateLimiter for ShardingTokenBucketRateLimiter {
    /// Advances the shared cursor and hands the caller to the shard that
    /// the cursor's old value names.
    fn acquire(&self) -> Result<(), ()> {
        proof {
            use_type_invariant(self);
        }
        let cursor = self.index.fetch_add(1, Ordering::Relaxed);
        let shard = shard_of(cursor, self.shards.len());
        self.shards[shard].acquire()
    }
}

} // verus!
