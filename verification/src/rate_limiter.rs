use vstd::prelude::*;

verus! {

/// The interface of a rate limiter.
pub trait RateLimiter: Send {
    /// Tries to take one unit of quota: `Ok(())` admits the caller, `Err(())`
    /// rejects it. Never blocks, and carries no reason or retry hint.
    fn acquire(&self) -> Result<(), ()>;
}

} // verus!
