//! Plain models of the network addresses the discovery protocol speaks of.
//!
//! The sockets outside the library convert these to and from the operating
//! system's address types; the library itself only needs the four octets and
//! the port.

use vstd::prelude::*;

verus! {

/// An IPv4 address as its four octets.
#[derive(Clone, Copy, Debug, PartialEq, Eq, Structural)]
pub struct Ipv4Address {
    pub o0: u8,
    pub o1: u8,
    pub o2: u8,
    pub o3: u8,
}

impl Ipv4Address {
    /// The multicast block is 224.0.0.0/4: every address whose first octet
    /// lies in 224..=239, and no other.
    pub open spec fn spec_is_multicast(self) -> bool {
        224 <= self.o0 <= 239
    }

    pub fn is_multicast(&self) -> (r: bool)
        ensures
            r == self.spec_is_multicast(),
    {
        224 <= self.o0 && self.o0 <= 239
    }
}

/// One endpoint: an IPv4 address and a UDP port.
#[derive(Clone, Copy, Debug, PartialEq, Eq, Structural)]
pub struct PeerAddr {
    pub ip: Ipv4Address,
    pub port: u16,
}

} // verus!
