use bucket_rate_limiter::shard_plan::shard_count_of;
use bucket_rate_limiter::shard_plan::shard_of;
use bucket_rate_limiter::shard_plan::split_evenly;
use bucket_rate_limiter::RateLimiter;
use bucket_rate_limiter::ShardingTokenBucketRateLimiter;

#[test]
fn shard_count_is_the_least_of_three() {
    assert_eq!(shard_count_of(8, 3, 5), 3);
    assert_eq!(shard_count_of(8, 30, 5), 5);
    assert_eq!(shard_count_of(2, 30, 5), 2);
    assert_eq!(shard_count_of(4, 4, 4), 4);
    assert_eq!(shard_count_of(usize::MAX, i64::MAX, i64::MAX - 1), (i64::MAX - 1) as usize);
}

#[test]
fn no_processor_counts_as_one() {
    assert_eq!(shard_count_of(0, 5, 5), 1);
}

#[test]
fn split_gives_the_remainder_to_the_first_shards() {
    assert_eq!(split_evenly(10, 3), vec![4, 3, 3]);
    assert_eq!(split_evenly(11, 3), vec![4, 4, 3]);
    assert_eq!(split_evenly(9, 3), vec![3, 3, 3]);
    assert_eq!(split_evenly(7, 7), vec![1, 1, 1, 1, 1, 1, 1]);
    assert_eq!(split_evenly(i64::MAX, 1), vec![i64::MAX]);
}

#[test]
fn shares_add_up_to_the_total() {
    for total in 1..40i64 {
        for parts in 1..=(total as usize) {
            let shares = split_evenly(total, parts);
            assert_eq!(shares.len(), parts);
            assert_eq!(shares.iter().sum::<i64>(), total);
            assert!(shares.iter().all(|share| *share >= 1));
        }
    }
}

#[test]
fn round_robin_deals_evenly() {
    let mut counts = vec![0u32; 3];
    for cursor in 0..10usize {
        counts[shard_of(cursor, 3)] += 1;
    }
    assert_eq!(counts, vec![4, 3, 3]);
    assert_eq!(shard_of(usize::MAX, 1), 0);
    assert_eq!(shard_of(7, 4), 3);
}

#[test]
fn sharded_limiter_has_the_planned_shards() {
    assert_eq!(ShardingTokenBucketRateLimiter::with_parallelism(4, 10, 6).shard_count(), 4);
    assert_eq!(ShardingTokenBucketRateLimiter::with_parallelism(16, 10, 6).shard_count(), 6);
    assert_eq!(ShardingTokenBucketRateLimiter::with_parallelism(0, 10, 6).shard_count(), 1);
    assert_eq!(ShardingTokenBucketRateLimiter::new(1, 1).shard_count(), 1);
    let hosted = ShardingTokenBucketRateLimiter::new(1000, 1000).shard_count();
    assert!(hosted >= 1 && hosted <= 1000);
}

#[test]
fn sharded_limiter_starts_empty() {
    let limiter = ShardingTokenBucketRateLimiter::with_parallelism(3, 0 + 3, 3);
    for _ in 0..6 {
        assert_eq!(limiter.acquire(), Err(()));
    }
}
