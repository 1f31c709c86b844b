//! The transport's packets, as far as the protocol looks into them.

use rusty_enet::Packet;
use vstd::prelude::*;

verus! {

/// `rusty_enet::Packet`, a packet of the transport, held as it is.
#[verifier::external_type_specification]
#[verifier::external_body]
pub struct ExPacket(rusty_enet::Packet);

/// The bytes that a packet carries: what `rusty_enet::Packet::data` gives.
pub uninterp spec fn packet_bytes(packet: Packet) -> Seq<u8>;

/// Whether a packet was made of the reliable kind, which the transport
/// delivers in order and sends again until it has arrived.
pub uninterp spec fn packet_reliable(packet: Packet) -> bool;

/// Calls `rusty_enet::Packet::reliable` on a byte slice. The packet it makes
/// is of the reliable kind and owns a copy of the slice: its data are the
/// bytes given, in order.
#[verifier::external_body]
pub(crate) fn reliable(data: &[u8]) -> (packet: Packet)
    ensures
        packet_bytes(packet) == data@,
        packet_reliable(packet),
{
    Packet::reliable(data)
}

/// Calls `rusty_enet::Packet::data`, which lends the bytes that the packet
/// carries.
#[verifier::external_body]
pub(crate) fn payload(packet: &Packet) -> (data: &[u8])
    ensures
        data@ == packet_bytes(*packet),
{
    packet.data()
}

} // verus!
