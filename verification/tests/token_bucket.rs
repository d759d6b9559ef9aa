use bucket_rate_limiter::RateLimiter;
use bucket_rate_limiter::ShardingTokenBucketRateLimiter;
use bucket_rate_limiter::TokenBucketRateLimiter;
use bucket_rate_limiter::TokenBucketRateLimiterStatus;
use std::time::Duration;
use std::time::Instant;

fn wait_for(span: Duration) {
    let start = Instant::now();
    while start.elapsed() < span {
        std::hint::spin_loop();
    }
}

#[test]
fn token_bucket_rate_limiter_test_token_bucket_rate_limiter() {
    let limiter = TokenBucketRateLimiter::new(1, 1);
    wait_for(Duration::from_secs(2));
    assert_eq!(limiter.acquire(), Ok(()));
    assert_eq!(limiter.acquire(), Err(()));
    wait_for(Duration::from_secs(2));
    assert_eq!(limiter.acquire(), Ok(()));
    assert_eq!(limiter.acquire(), Err(()));
}

#[test]
fn sharding_token_bucket_rate_limiter_test_token_bucket_rate_limiter() {
    let limiter = ShardingTokenBucketRateLimiter::new(1, 1);
    wait_for(Duration::from_secs(2));
    assert_eq!(limiter.acquire(), Ok(()));
    assert_eq!(limiter.acquire(), Err(()));
    wait_for(Duration::from_secs(2));
    assert_eq!(limiter.acquire(), Ok(()));
    assert_eq!(limiter.acquire(), Err(()));
}

#[test]
fn status_follows_the_two_second_scenario() {
    let mut status = TokenBucketRateLimiterStatus::new(1, 1);
    assert_eq!(status.acquire_at(2), Ok(()));
    assert_eq!(status.tokens(), 0);
    assert_eq!(status.last_updated_timestamp_in_seconds(), 2);
    assert_eq!(status.acquire_at(2), Err(()));
    assert_eq!(status.acquire_at(4), Ok(()));
    assert_eq!(status.acquire_at(4), Err(()));
}

#[test]
fn fresh_status_is_empty() {
    let status = TokenBucketRateLimiterStatus::new(7, 9);
    assert_eq!(status.rate_in_seconds(), 7);
    assert_eq!(status.capacity(), 9);
    assert_eq!(status.tokens(), 0);
    assert_eq!(status.last_updated_timestamp_in_seconds(), 0);
}

#[test]
fn fresh_status_rejects_at_second_zero() {
    let mut status = TokenBucketRateLimiterStatus::new(5, 5);
    for _ in 0..5 {
        assert_eq!(status.acquire_at(0), Err(()));
    }
    assert_eq!(status.tokens(), 0);
    assert_eq!(status.last_updated_timestamp_in_seconds(), 0);
}

#[test]
fn full_bucket_admits_exactly_its_capacity() {
    let mut status = TokenBucketRateLimiterStatus::new(2, 5);
    for _ in 0..5 {
        assert_eq!(status.acquire_at(3), Ok(()));
    }
    assert_eq!(status.acquire_at(3), Err(()));
    assert_eq!(status.tokens(), 0);
}

#[test]
fn accrual_is_elapsed_seconds_times_rate() {
    let mut status = TokenBucketRateLimiterStatus::new(3, 100);
    assert_eq!(status.acquire_at(4), Ok(()));
    assert_eq!(status.tokens(), 11);
    assert_eq!(status.acquire_at(6), Ok(()));
    assert_eq!(status.tokens(), 16);
    assert_eq!(status.last_updated_timestamp_in_seconds(), 6);
}

#[test]
fn accrual_is_capped_at_capacity() {
    let mut status = TokenBucketRateLimiterStatus::new(3, 10);
    assert_eq!(status.acquire_at(1000), Ok(()));
    assert_eq!(status.tokens(), 9);
}

#[test]
fn rejection_leaves_the_refill_mark() {
    let mut status = TokenBucketRateLimiterStatus::new(1, 1);
    assert_eq!(status.acquire_at(5), Ok(()));
    assert_eq!(status.acquire_at(5), Err(()));
    assert_eq!(status.last_updated_timestamp_in_seconds(), 5);
    assert_eq!(status.tokens(), 0);
    let mut slow = TokenBucketRateLimiterStatus::new(0, 4);
    assert_eq!(slow.acquire_at(9), Err(()));
    assert_eq!(slow.last_updated_timestamp_in_seconds(), 0);
}

#[test]
fn negative_accrual_rejects() {
    let mut status = TokenBucketRateLimiterStatus::new(-1, 5);
    assert_eq!(status.acquire_at(3), Err(()));
    assert_eq!(status.tokens(), 0);
    let mut empty = TokenBucketRateLimiterStatus::new(1, 0);
    assert_eq!(empty.acquire_at(10), Err(()));
}

#[test]
fn extreme_values_do_not_overflow() {
    let mut status = TokenBucketRateLimiterStatus::new(i64::MAX, i64::MAX);
    assert_eq!(status.acquire_at(i64::MAX), Ok(()));
    assert_eq!(status.tokens(), i64::MAX - 1);
    let mut low = TokenBucketRateLimiterStatus::new(i64::MIN, i64::MAX);
    assert_eq!(low.acquire_at(i64::MAX), Err(()));
    let mut back = TokenBucketRateLimiterStatus::new(i64::MIN, i64::MAX);
    assert_eq!(back.acquire_at(i64::MIN), Ok(()));
    assert_eq!(back.tokens(), i64::MAX - 1);
    assert_eq!(back.last_updated_timestamp_in_seconds(), i64::MIN);
}

#[test]
fn new_limiter_starts_empty_at_second_zero() {
    let limiter = TokenBucketRateLimiter::new(10, 10);
    assert!(limiter.now_in_seconds() <= 1);
    let limiter = TokenBucketRateLimiter::new(0, 10);
    assert_eq!(limiter.acquire(), Err(()));
}

#[test]
fn limiter_clock_counts_seconds() {
    let limiter = TokenBucketRateLimiter::new(1, 1);
    wait_for(Duration::from_millis(1200));
    let seconds = limiter.now_in_seconds();
    assert!(seconds >= 1 && seconds <= 3);
}
