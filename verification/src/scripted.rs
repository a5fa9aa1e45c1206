//! A scriptable test double for the probing capability.
//!
//! The double answers each `ping` with the next entry of a caller-supplied
//! script, deterministically and without any network work, so that
//! caller-side logic can be exercised independent of real network
//! conditions, timing, or permissions. It honours the same caching contract
//! as the real probers.

use vstd::prelude::*;

use crate::outcome::{CachedResult, PingError, ProbeResult};
use crate::prober::Pingable;

verus! {

/// A prober that replays a fixed script of responses.
pub struct ScriptedProber {
    pending: Vec<Result<ProbeResult, PingError>>,
    cache: CachedResult,
}

impl ScriptedProber {
    /// The responses not yet replayed, in the order `ping` will return them.
    pub closed spec fn remaining(&self) -> Seq<Result<ProbeResult, PingError>> {
        self.pending@
    }

    /// Builds a double with an empty script and an empty cache.
    pub fn new() -> (p: ScriptedProber)
        ensures
            p.cached() == CachedResult::NotYetProbed,
            p.remaining() == Seq::<Result<ProbeResult, PingError>>::empty(),
    {
        let p = ScriptedProber { pending: Vec::new(), cache: CachedResult::NotYetProbed };
        proof {
            assert(p.remaining() =~= Seq::<Result<ProbeResult, PingError>>::empty());
        }
        p
    }

    /// Appends one response to the end of the script.
    pub fn push(&mut self, r: Result<ProbeResult, PingError>)
        ensures
            final(self).remaining() == old(self).remaining().push(r),
            final(self).cached() == old(self).cached(),
    {
        self.pending.push(r);
    }
}

impl Pingable for ScriptedProber {
    closed spec fn cached(&self) -> CachedResult {
        self.cache
    }

    /// Replays the next scripted response; a script that has run out keeps
    /// answering with the transport-layer error and leaves the cache alone.
    fn ping(&mut self) -> (r: Result<ProbeResult, PingError>)
        ensures
            (old(self).remaining().len() > 0 ==> r == old(self).remaining()[0]
                && final(self).remaining() == old(self).remaining().skip(1)),
            (old(self).remaining().len() == 0 ==> r == Result::<ProbeResult, PingError>::Err(
                PingError::IcmpError,
            ) && final(self).remaining() == old(self).remaining()),
    {
        if self.pending.len() > 0 {
            let r = self.pending.remove(0);
            if let Ok(v) = r {
                self.cache = CachedResult::Probed(v);
            }
            proof {
                assert(self.remaining() =~= old(self).remaining().skip(1));
            }
            r
        } else {
            Err(PingError::IcmpError)
        }
    }

    fn cache(&self) -> (r: CachedResult)
    {
        self.cache
    }
}

} // verus!
