//! The probing capability: one liveness determination per call, with a
//! single-slot cache of the most recent outcome.

use vstd::prelude::*;

use crate::outcome::{CachedResult, PingError, ProbeResult};

verus! {

/// A prober bound to one endpoint for its lifetime.
///
/// `ping` performs one liveness determination and returns `Ok` with the
/// outcome when the mechanism ran to completion (a clean determination of
/// non-liveness is the `Ok(Down)` outcome, not an error), or `Err` when the
/// mechanism itself could not run. Every `Ok` overwrites the cache with the
/// returned outcome; an `Err` leaves the cache exactly as it was.
///
/// `cache` reads the slot without probing, never fails, and has no side
/// effect; before the first successful `ping` it reports `NotYetProbed`.
pub trait Pingable: Sized {
    /// The current content of the prober's result cache.
    spec fn cached(&self) -> CachedResult;

    /// Performs one probe and files its outcome in the cache.
    fn ping(&mut self) -> (r: Result<ProbeResult, PingError>)
        ensures
            (r matches Ok(v) ==> final(self).cached() == CachedResult::Probed(v)),
            (r is Err ==> final(self).cached() == old(self).cached()),
    ;

    /// Reads the cached outcome of the most recent successful probe.
    fn cache(&self) -> (r: CachedResult)
        ensures
            r == self.cached(),
    ;
}

/// Probes once and reads the cache straight back, for any prober.
///
/// The pair states the caching law as a caller sees it: a probe that
/// returned an outcome is immediately readable from the cache, and a probe
/// that failed leaves the cache reading exactly what it held before the
/// call.
pub fn ping_then_cache<P: Pingable>(p: &mut P) -> (pair: (
    Result<ProbeResult, PingError>,
    CachedResult,
))
    ensures
        (pair.0 matches Ok(v) ==> pair.1 == CachedResult::Probed(v)),
        (pair.0 is Err ==> pair.1 == old(p).cached()),
{
    let r = p.ping();
    let c = p.cache();
    (r, c)
}

} // verus!
