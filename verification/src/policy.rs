//! The retry policy of the connect-based prober: how many attempts one
//! probe makes, and how long it pauses between attempts.

use vstd::prelude::*;

verus! {

/// Bounded-retry configuration for the TCP connect prober.
///
/// One probe makes exactly `max` connection attempts (not `max + 1`), with
/// `delay_ms` milliseconds between consecutive attempts and no delay after
/// the final one. This is configuration, not mutable state.
#[derive(Clone, Copy, Debug, PartialEq, Eq, Structural)]
pub struct RetryPolicy {
    pub max: u64,
    pub delay_ms: u64,
}

impl RetryPolicy {
    /// Builds a policy with the given attempt bound and inter-attempt delay.
    pub fn new(max: u64, delay_ms: u64) -> (p: RetryPolicy)
        ensures
            p.max == max,
            p.delay_ms == delay_ms,
    {
        RetryPolicy { max, delay_ms }
    }
}

impl Default for RetryPolicy {
    /// The default policy: five attempts, one second apart.
    fn default() -> (p: RetryPolicy)
        ensures
            p.max == 5u64,
            p.delay_ms == 1000u64,
    {
        RetryPolicy { max: 5u64, delay_ms: 1000u64 }
    }
}

} // verus!
