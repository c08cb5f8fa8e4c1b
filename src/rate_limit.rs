//! Throttling of the credential endpoints.
use vstd::prelude::*;

verus! {

/// A token-bucket policy: one request is replenished every
/// `replenish_period_secs` seconds, and at most `burst_size` may be spent at once.
#[derive(Clone, Copy, Debug, PartialEq, Eq, Structural)]
pub struct RateLimitPolicy {
    pub replenish_period_secs: u64,
    pub burst_size: u32,
}

impl RateLimitPolicy {
    /// Login: 5 per minute, burst of 2, against credential stuffing.
    pub fn login() -> (r: RateLimitPolicy)
        ensures
            r.replenish_period_secs == 12,
            r.burst_size == 2,
    {
        RateLimitPolicy { replenish_period_secs: 12, burst_size: 2 }
    }

    /// Registration: 3 per minute, burst of 1, against mass registration.
    pub fn register() -> (r: RateLimitPolicy)
        ensures
            r.replenish_period_secs == 20,
            r.burst_size == 1,
    {
        RateLimitPolicy { replenish_period_secs: 20, burst_size: 1 }
    }

    /// Requests replenished per minute.
    pub fn per_minute(&self) -> (r: u64)
        requires
            self.replenish_period_secs > 0,
        ensures
            r == 60int / (self.replenish_period_secs as int),
    {
        60 / self.replenish_period_secs
    }
}

} // verus!
