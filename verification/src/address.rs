//! Socket addresses of targets, as plain values.

use vstd::prelude::*;

verus! {

/// The address of a target: an IPv4 or IPv6 address with a port.
#[derive(Clone, Copy, Debug)]
pub enum SocketAddress {
    /// An IPv4 address, its four octets in network order, and a port.
    V4 { octets: [u8; 4], port: u16 },
    /// An IPv6 address, its eight segments in network order, with the port,
    /// flow information and scope identifier of the socket address.
    V6 { segments: [u16; 8], port: u16, flowinfo: u32, scope_id: u32 },
}

impl SocketAddress {
    /// Whether this is the wildcard address of its family with port 0: the
    /// address to bind a socket to when the system is to pick address and port.
    pub open spec fn is_unspecified(self) -> bool {
        match self {
            SocketAddress::V4 { octets, port } => octets@ == Seq::new(4, |i: int| 0u8) && port == 0,
            SocketAddress::V6 { segments, port, flowinfo, scope_id } => {
                &&& segments@ == Seq::new(8, |i: int| 0u16)
                &&& port == 0
                &&& flowinfo == 0
                &&& scope_id == 0
            },
        }
    }

    /// Whether this is an IPv4 address.
    pub fn is_ipv4(&self) -> (v4: bool)
        ensures
            v4 == (*self is V4),
    {
        match self {
            SocketAddress::V4 { .. } => true,
            SocketAddress::V6 { .. } => false,
        }
    }
}

/// The wildcard address, with port 0, in the family of `address`.
pub fn unspecified_address(address: SocketAddress) -> (local: SocketAddress)
    ensures
        local.is_unspecified(),
        local is V4 <==> address is V4,
{
    if address.is_ipv4() {
        let octets: [u8; 4] = [0, 0, 0, 0];
        assert(octets@ =~= Seq::new(4, |i: int| 0u8));
        SocketAddress::V4 { octets, port: 0 }
    } else {
        let segments: [u16; 8] = [0, 0, 0, 0, 0, 0, 0, 0];
        assert(segments@ =~= Seq::new(8, |i: int| 0u16));
        SocketAddress::V6 { segments, port: 0, flowinfo: 0, scope_id: 0 }
    }
}

} // verus!
