//! In-process admission control: a family of rate limiters that decide, for
//! each unit of work, whether it may proceed under a quota per time window.

pub mod admission;
pub mod background_bucket;
pub mod inaccurate_bucket_rate_limiter;
pub mod rate_limiter;
pub mod refill_worker;
pub mod shard_plan;
pub mod sharding_token_bucket_rate_limiter;
pub mod system_clock;
pub mod token_bucket_rate_limiter;

pub use background_bucket::BackgroundBucket;
pub use inaccurate_bucket_rate_limiter::InaccurateBucketRateLimiter;
pub use rate_limiter::RateLimiter;
pub use sharding_token_bucket_rate_limiter::ShardingTokenBucketRateLimiter;
pub use token_bucket_rate_limiter::{BucketState, TokenBucketRateLimiter, TokenBucketRateLimiterStatus};
