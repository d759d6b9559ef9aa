use vstd::arithmetic::div_mod::lemma_fundamental_div_mod;
use vstd::arithmetic::div_mod::lemma_fundamental_div_mod_converse;
use vstd::arithmetic::div_mod::lemma_mod_bound;
use vstd::prelude::*;

verus! {

/// The smallest of three integers.
pub open spec fn least_of(a: int, b: int, c: int) -> int {
    let ab = if a < b { a } else { b };
    if ab < c { ab } else { c }
}

/// How many shards a limiter is cut into: as many as the host has
/// processors (at least one), but never more than the rate or the capacity,
/// so that no shard is left without quota.
pub open spec fn shard_count(parallelism: int, rate: int, capacity: int) -> int {
    least_of(if parallelism < 1 { 1 } else { parallelism }, rate, capacity)
}

/// The shard count for machine-sized arguments.
pub open spec fn shard_count_for(parallelism: usize, rate: i64, capacity: i64) -> int {
    shard_count(parallelism as int, rate as int, capacity as int)
}

/// What shard `i` of `parts` gets of `total`: the even share, and one unit
/// more for the first `total % parts` shards.
pub open spec fn share(total: int, parts: int, i: int) -> int {
    total / parts + if i < total % parts { 1int } else { 0int }
}

/// The share of shard `i` for machine-sized arguments.
pub open spec fn share_for(total: i64, parts: nat, i: int) -> int {
    share(total as int, parts as int, i)
}

/// The shares of the first `n` shards, added up.
pub open spec fn shares_sum(total: int, parts: int, n: nat) -> int
    decreases n,
{
    if n == 0 {
        0
    } else {
        shares_sum(total, parts, (n - 1) as nat) + share(total, parts, n - 1)
    }
}

/// The entries of `s`, added up.
pub open spec fn total_of(s: Seq<i64>) -> int
    decreases s.len(),
{
    if s.len() == 0 {
        0
    } else {
        total_of(s.drop_last()) + s.last()
    }
}

/// The shard that the call with cursor value `cursor` goes to.
pub open spec fn shard_of_cursor(cursor: int, shards: int) -> int {
    cursor % shards
}

/// How many of the first `calls` cursor values go to `shard`.
pub open spec fn calls_routed_to(shard: int, shards: int, calls: nat) -> nat
    decreases calls,
{
    if calls == 0 {
        0
    } else {
        let earlier = calls_routed_to(shard, shards, (calls - 1) as nat);
        if shard_of_cursor(calls - 1, shards) == shard {
            earlier + 1
        } else {
            earlier
        }
    }
}

proof fn lemma_shares_sum_prefix(total: int, parts: int, n: nat)
    requires
        parts >= 1,
    ensures
        shares_sum(total, parts, n) == n * (total / parts) + if n <= total % parts {
            n as int
        } else {
            total % parts
        },
    decreases n,
{
    lemma_mod_bound(total, parts);
    let q = total / parts;
    if n > 0 {
        lemma_shares_sum_prefix(total, parts, (n - 1) as nat);
        assert(n * q == (n - 1) * q + q) by (nonlinear_arith);
    } else {
        assert(n * q == 0) by (nonlinear_arith)
            requires
                n == 0,
        ;
    }
}

/// The shares of all `parts` shards add up to `total` exactly: nothing of
/// the configured rate or capacity is lost or invented by sharding.
pub proof fn lemma_shares_sum_to_total(total: int, parts: int)
    requires
        parts >= 1,
    ensures
        shares_sum(total, parts, parts as nat) == total,
{
    lemma_shares_sum_prefix(total, parts, parts as nat);
    lemma_mod_bound(total, parts);
    lemma_fundamental_div_mod(total, parts);
}

/// A total that is at least the number of parts leaves no shard empty.
pub proof fn lemma_share_is_positive(total: int, parts: int, i: int)
    requires
        1 <= parts <= total,
    ensures
        share(total, parts, i) >= 1,
{
    lemma_mod_bound(total, parts);
    lemma_fundamental_div_mod(total, parts);
    let q = total / parts;
    assert(q >= 1) by (nonlinear_arith)
        requires
            total == parts * q + total % parts,
            total % parts < parts,
            1 <= parts <= total,
    ;
}

/// The shard count never exceeds the host's parallelism, the rate or the
/// capacity, and is at least one for a rate and a capacity of at least one.
pub proof fn lemma_shard_count_bounds(parallelism: int, rate: int, capacity: int)
    requires
        rate >= 1,
        capacity >= 1,
    ensures
        1 <= shard_count(parallelism, rate, capacity),
        shard_count(parallelism, rate, capacity) <= rate,
        shard_count(parallelism, rate, capacity) <= capacity,
        parallelism >= 1 ==> shard_count(parallelism, rate, capacity) <= parallelism,
{
}

proof fn lemma_total_of_shares(s: Seq<i64>, total: int, parts: int)
    requires
        forall|i: int| 0 <= i < s.len() ==> s[i] == share(total, parts, i),
    ensures
        total_of(s) == shares_sum(total, parts, s.len()),
    decreases s.len(),
{
    if s.len() > 0 {
        lemma_total_of_shares(s.drop_last(), total, parts);
    }
}

/// Round-robin is fair: of `calls` consecutive cursor values from zero,
/// each shard gets the whole part of `calls / shards`, and the first
/// `calls % shards` shards one more. So every shard gets the quotient
/// rounded down or rounded up.
pub proof fn lemma_round_robin_is_fair(shard: int, shards: int, calls: nat)
    requires
        0 <= shard < shards,
    ensures
        calls_routed_to(shard, shards, calls) == (calls as int) / shards + if shard < (calls as int)
            % shards {
            1int
        } else {
            0int
        },
        calls_routed_to(shard, shards, calls) == (calls as int) / shards || calls_routed_to(
            shard,
            shards,
            calls,
        ) == (calls as int + shards - 1) / shards,
    decreases calls,
{
    let n = calls as int;
    lemma_mod_bound(n, shards);
    lemma_fundamental_div_mod(n, shards);
    if calls > 0 {
        let k = n - 1;
        lemma_round_robin_is_fair(shard, shards, k as nat);
        lemma_mod_bound(k, shards);
        lemma_fundamental_div_mod(k, shards);
        let q = k / shards;
        let r = k % shards;
        assert(k == q * shards + r) by (nonlinear_arith)
            requires
                k == shards * q + r,
        ;
        if r == shards - 1 {
            assert(n == (q + 1) * shards + 0) by (nonlinear_arith)
                requires
                    n == q * shards + r + 1,
                    r == shards - 1,
            ;
            lemma_fundamental_div_mod_converse(n, shards, q + 1, 0);
        } else {
            lemma_fundamental_div_mod_converse(n, shards, q, r + 1);
        }
    }
    let q = n / shards;
    let r = n % shards;
    if r > 0 {
        assert(n + shards - 1 == (q + 1) * shards + (r - 1)) by (nonlinear_arith)
            requires
                n == shards * q + r,
        ;
        lemma_fundamental_div_mod_converse(n + shards - 1, shards, q + 1, r - 1);
    }
}

/// Computes the shard count for a host with `parallelism` processors.
pub fn shard_count_of(parallelism: usize, rate: i64, capacity: i64) -> (count: usize)
    requires
        rate >= 1,
        capacity >= 1,
    ensures
        count == shard_count(parallelism as int, rate as int, capacity as int),
        count >= 1,
{
    let mut count: u64 = if parallelism < 1 {
        1
    } else {
        parallelism as u64
    };
    if rate as u64 <= count {
        count = rate as u64;
    }
    if capacity as u64 <= count {
        count = capacity as u64;
    }
    count as usize
}

/// Cuts `total` into `parts` shares that differ by at most one unit, the
/// larger ones first.
pub fn split_evenly(total: i64, parts: usize) -> (shares: Vec<i64>)
    requires
        1 <= parts <= total,
    ensures
        shares@.len() == parts,
        forall|i: int| 0 <= i < parts ==> shares@[i] == share(total as int, parts as int, i),
        forall|i: int| 0 <= i < parts ==> shares@[i] >= 1,
        total_of(shares@) == total,
{
    let wide_parts: i64 = parts as i64;
    let even: i64 = total / wide_parts;
    let extra: i64 = total % wide_parts;
    proof {
        lemma_mod_bound(total as int, parts as int);
        lemma_fundamental_div_mod(total as int, parts as int);
        assert(extra > 0 ==> even < total) by (nonlinear_arith)
            requires
                total == wide_parts * even + extra,
                wide_parts >= 1,
                extra >= 0,
                total >= 1,
        ;
    }
    let mut shares: Vec<i64> = Vec::new();
    let mut i: usize = 0;
    while i < parts
        invariant
            1 <= parts <= total,
            i <= parts,
            shares@.len() == i,
            even == total as int / parts as int,
            extra == total as int % parts as int,
            extra > 0 ==> even < total,
            forall|j: int| 0 <= j < i ==> shares@[j] == share(total as int, parts as int, j),
        decreases parts - i,
    {
        let bonus: i64 = if (i as i64) < extra {
            1
        } else {
            0
        };
        shares.push(even + bonus);
        i += 1;
    }
    proof {
        lemma_total_of_shares(shares@, total as int, parts as int);
        lemma_shares_sum_to_total(total as int, parts as int);
        assert forall|j: int| 0 <= j < parts implies shares@[j] >= 1 by {
            lemma_share_is_positive(total as int, parts as int, j);
        }
    }
    shares
}

/// Picks the shard for a cursor value.
pub fn shard_of(cursor: usize, shards: usize) -> (shard: usize)
    requires
        shards >= 1,
    ensures
        shard == shard_of_cursor(cursor as int, shards as int),
        shard < shards,
{
    cursor % shards
}

} // verus!
