//! The ICMP echo prober: one echo request/reply cycle per probe, no retry.
//!
//! The network exchange itself happens outside this module; what a raw
//! socket reported for one cycle arrives here as a plain [`EchoEvent`], and
//! the verified logic turns that report into the probe's outcome and files
//! it in the cache.

use vstd::prelude::*;

use crate::endpoint::Endpoint;
use crate::outcome::{CachedResult, PingError, ProbeResult};

verus! {

/// What one echo request/reply cycle on the raw socket reported.
#[derive(Clone, Copy, Debug, PartialEq, Eq, Structural)]
pub enum EchoEvent {
    /// An ICMPv4 echo reply arrived.
    ReplyV4,
    /// An ICMPv6 echo reply arrived.
    ReplyV6,
    /// No reply arrived before the configured timeout.
    Timeout,
    /// The raw socket could not be opened for want of permission.
    PermissionDenied,
    /// No route led to the target host.
    NoRoute,
    /// A reply arrived but could not be parsed as an echo reply.
    MalformedReply,
}

/// The outcome of one echo cycle against a target of the given IP family.
///
/// A reply of the family the request went out on means the host is up; a
/// reply of the other family is a transport error, never a `Down`. Silence
/// until the timeout is the `Down` outcome. Permission, routing and parse
/// failures mean the probe could not run at all, and are transport errors
/// so that they stay distinct from a timeout-based `Down`.
pub open spec fn classify_echo(v4_target: bool, ev: EchoEvent) -> Result<ProbeResult, PingError> {
    match ev {
        EchoEvent::ReplyV4 => if v4_target {
            Ok(ProbeResult::Up)
        } else {
            Err(PingError::IcmpError)
        },
        EchoEvent::ReplyV6 => if !v4_target {
            Ok(ProbeResult::Up)
        } else {
            Err(PingError::IcmpError)
        },
        EchoEvent::Timeout => Ok(ProbeResult::Down),
        EchoEvent::PermissionDenied => Err(PingError::IcmpError),
        EchoEvent::NoRoute => Err(PingError::IcmpError),
        EchoEvent::MalformedReply => Err(PingError::IcmpError),
    }
}

/// A prober that sends a single ICMP echo request per probe.
pub struct IcmpDest {
    addr: Endpoint,
    timeout_ms: u64,
    cache: CachedResult,
}

impl IcmpDest {
    /// The endpoint this prober was bound to at construction.
    pub closed spec fn bound(&self) -> Endpoint {
        self.addr
    }

    /// How long one cycle waits for a reply, in milliseconds.
    pub closed spec fn timeout_spec(&self) -> u64 {
        self.timeout_ms
    }

    /// The current content of the result cache.
    pub closed spec fn cached(&self) -> CachedResult {
        self.cache
    }

    /// Binds a prober to one endpoint, with the default two-second reply
    /// timeout and an empty cache.
    pub fn new(addr: Endpoint) -> (p: IcmpDest)
        ensures
            p.bound() == addr,
            p.timeout_spec() == 2000u64,
            p.cached() == CachedResult::NotYetProbed,
    {
        IcmpDest { addr, timeout_ms: 2000u64, cache: CachedResult::NotYetProbed }
    }

    /// Binds a prober to one endpoint with an explicit reply timeout.
    pub fn with_timeout(addr: Endpoint, timeout_ms: u64) -> (p: IcmpDest)
        ensures
            p.bound() == addr,
            p.timeout_spec() == timeout_ms,
            p.cached() == CachedResult::NotYetProbed,
    {
        IcmpDest { addr, timeout_ms, cache: CachedResult::NotYetProbed }
    }

    /// Reads the reply timeout, for whoever drives the raw socket.
    pub fn timeout(&self) -> (t: u64)
        ensures
            t == self.timeout_spec(),
    {
        self.timeout_ms
    }

    /// Completes one probe from what the echo cycle reported: classifies
    /// the event against the bound host's IP family, files an outcome in
    /// the cache, and leaves the cache alone on a transport error.
    pub fn ping(&mut self, ev: EchoEvent) -> (r: Result<ProbeResult, PingError>)
        ensures
            r == classify_echo(old(self).bound().host is V4, ev),
            (r matches Ok(v) ==> final(self).cached() == CachedResult::Probed(v)),
            (r is Err ==> final(self).cached() == old(self).cached()),
            final(self).bound() == old(self).bound(),
            final(self).timeout_spec() == old(self).timeout_spec(),
    {
        let v4 = self.addr.host.is_v4();
        let r: Result<ProbeResult, PingError> = match ev {
            EchoEvent::ReplyV4 => if v4 {
                Ok(ProbeResult::Up)
            } else {
                Err(PingError::IcmpError)
            },
            EchoEvent::ReplyV6 => if !v4 {
                Ok(ProbeResult::Up)
            } else {
                Err(PingError::IcmpError)
            },
            EchoEvent::Timeout => Ok(ProbeResult::Down),
            EchoEvent::PermissionDenied => Err(PingError::IcmpError),
            EchoEvent::NoRoute => Err(PingError::IcmpError),
            EchoEvent::MalformedReply => Err(PingError::IcmpError),
        };
        if let Ok(v) = r {
            self.cache = CachedResult::Probed(v);
        }
        r
    }

    /// Reads the cached outcome of the most recent successful probe.
    pub fn cache(&self) -> (r: CachedResult)
        ensures
            r == self.cached(),
    {
        self.cache
    }
}

impl Default for IcmpDest {
    /// A prober bound to the historical default target, loopback port 8080.
    fn default() -> (p: IcmpDest)
        ensures
            p.bound() == (Endpoint {
                host: crate::endpoint::HostAddr::V4(127u8, 0u8, 0u8, 1u8),
                port: 8080u16,
            }),
            p.timeout_spec() == 2000u64,
            p.cached() == CachedResult::NotYetProbed,
    {
        IcmpDest::new(Endpoint::localhost_8080())
    }
}

} // verus!
