//! The network target a prober binds to: a host address and, where the
//! strategy needs one, a port.

use vstd::prelude::*;

verus! {

/// A host address, IPv4 (four octets) or IPv6 (eight segments).
#[derive(Clone, Copy, Debug, PartialEq, Eq, Structural)]
pub enum HostAddr {
    V4(u8, u8, u8, u8),
    V6(u16, u16, u16, u16, u16, u16, u16, u16),
}

impl HostAddr {
    /// Whether this address belongs to the IPv4 family.
    pub fn is_v4(&self) -> (r: bool)
        ensures
            r == (*self is V4),
    {
        match self {
            HostAddr::V4(..) => true,
            HostAddr::V6(..) => false,
        }
    }
}

/// The target of a prober: one host, and a port for connect-based probing.
///
/// A prober binds to exactly one endpoint for its whole lifetime. ICMP
/// probing reads only the host; TCP probing also needs the port, and a port
/// of zero is treated as a malformed endpoint.
#[derive(Clone, Copy, Debug, PartialEq, Eq, Structural)]
pub struct Endpoint {
    pub host: HostAddr,
    pub port: u16,
}

impl Endpoint {
    /// Builds an endpoint from a host address and a port.
    pub fn new(host: HostAddr, port: u16) -> (e: Endpoint)
        ensures
            e.host == host,
            e.port == port,
    {
        Endpoint { host, port }
    }

    /// The IPv4 loopback endpoint on port 8080, the historical default
    /// target.
    pub fn localhost_8080() -> (e: Endpoint)
        ensures
            e.host == HostAddr::V4(127u8, 0u8, 0u8, 1u8),
            e.port == 8080u16,
    {
        Endpoint { host: HostAddr::V4(127u8, 0u8, 0u8, 1u8), port: 8080u16 }
    }
}

} // verus!
