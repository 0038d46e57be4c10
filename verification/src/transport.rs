//! The multicast transport's rules.
//!
//! The socket work itself (binding, joining the group, sending, receiving)
//! is I/O and happens outside the library. What is decided here is what the
//! transport promises before any socket exists: which group addresses are
//! acceptable, and with which settings the socket must be made. The caller
//! builds the real socket from an accepted [`Transport`] value.

use vstd::prelude::*;

use crate::addr::Ipv4Address;

verus! {

/// The well-known discovery port.
pub const DEFAULT_PORT: u16 = 50692;

/// Errors of the transport. `InvalidAddress` is decided here; the others
/// report OS-level socket failures and are produced by the socket driver
/// outside the library.
#[derive(Clone, Copy, Debug, PartialEq, Eq, Structural)]
pub enum TransportError {
    InvalidAddress,
    BindFailure,
    JoinFailure,
    SendFailure,
    ReceiveFailure,
}

/// A validated transport configuration: the multicast group that datagrams
/// are sent to and received from, and its port. A value of this type exists
/// only for a group address inside the multicast block.
#[derive(Clone, Copy, Debug, PartialEq, Eq, Structural)]
pub struct Transport {
    pub group: Ipv4Address,
    pub port: u16,
}

impl Transport {
    pub open spec fn wf(self) -> bool {
        self.group.spec_is_multicast()
    }

    /// Accept a multicast group address, or reject anything else.
    ///
    /// This is the admission rule of `bind`: exactly the addresses in the
    /// multicast block yield a transport, and every other address fails with
    /// `InvalidAddress`. The socket setup that follows an accepted result
    /// (reuse-address, non-blocking mode, multicast loopback, joining the
    /// group) is performed by the caller on the returned configuration.
    pub fn bind(group: Ipv4Address, port: u16) -> (r: Result<Transport, TransportError>)
        ensures
            group.spec_is_multicast() ==> (r == Ok::<Transport, TransportError>(
                Transport { group, port },
            )),
            !group.spec_is_multicast() ==> (r == Err::<Transport, TransportError>(
                TransportError::InvalidAddress,
            )),
            r is Ok ==> r->Ok_0.wf(),
    {
        if group.is_multicast() {
            Ok(Transport { group, port })
        } else {
            Err(TransportError::InvalidAddress)
        }
    }
}

/// The conventional discovery group, 239.255.42.98.
pub fn default_group() -> (r: Ipv4Address)
    ensures
        r == (Ipv4Address { o0: 239, o1: 255, o2: 42, o3: 98 }),
        r.spec_is_multicast(),
{
    Ipv4Address { o0: 239, o1: 255, o2: 42, o3: 98 }
}

} // verus!
