//! The framing of relay-to-client packets on a live channel.
//!
//! Every such packet starts with a tag byte. `TAG_DATA` is followed by the
//! payload, which may be empty; `TAG_CLOSE` stands alone and ends the channel.
//! Client-to-relay packets carry the payload bare.

use crate::packet::{packet_bytes, packet_reliable, payload, reliable};
use rusty_enet::Packet;
use vstd::prelude::*;
use vstd::slice::slice_subrange;

verus! {

/// Tag of the packet that ends a channel.
pub const TAG_CLOSE: u8 = 0;

/// Tag of a packet that carries a payload.
pub const TAG_DATA: u8 = 1;

/// The wire form of a payload.
pub open spec fn data_frame(body: Seq<u8>) -> Seq<u8> {
    seq![TAG_DATA] + body
}

/// The wire form of the close signal.
pub open spec fn close_frame() -> Seq<u8> {
    seq![TAG_CLOSE]
}

/// The payload of a data frame; `None` for the close signal, for an unknown
/// tag and for an empty packet.
pub open spec fn frame_body(bytes: Seq<u8>) -> Option<Seq<u8>> {
    if bytes.len() > 0 && bytes[0] == TAG_DATA {
        Some(bytes.skip(1))
    } else {
        None
    }
}

/// Frames a payload.
pub fn encode_data(body: &[u8]) -> (bytes: Vec<u8>)
    ensures
        bytes@ == data_frame(body@),
{
    let mut bytes: Vec<u8> = Vec::new();
    bytes.push(TAG_DATA);
    bytes.extend_from_slice(body);
    bytes
}

/// The payload of a framed packet, if it is a data frame.
pub fn decode_data(bytes: &[u8]) -> (body: Option<Vec<u8>>)
    ensures
        match body {
            Some(b) => frame_body(bytes@) == Some(b@),
            None => frame_body(bytes@) is None,
        },
{
    if bytes.len() > 0 && bytes[0] == TAG_DATA {
        let mut body: Vec<u8> = Vec::new();
        body.extend_from_slice(slice_subrange(bytes, 1, bytes.len()));
        proof {
            assert(body@ =~= bytes@.skip(1));
        }
        Some(body)
    } else {
        None
    }
}

/// The reliable packet that carries a payload to the client.
pub fn data_packet(body: &[u8]) -> (packet: Packet)
    ensures
        packet_bytes(packet) == data_frame(body@),
        packet_reliable(packet),
{
    let bytes = encode_data(body);
    reliable(bytes.as_slice())
}

/// The reliable packet that tells the client that a channel has ended.
pub fn close_packet() -> (packet: Packet)
    ensures
        packet_bytes(packet) == close_frame(),
        packet_reliable(packet),
{
    let mut bytes: Vec<u8> = Vec::new();
    bytes.push(TAG_CLOSE);
    reliable(bytes.as_slice())
}

/// The payload that a packet from the relay carries, if it is a data frame.
pub fn packet_body(packet: &Packet) -> (body: Option<Vec<u8>>)
    ensures
        match body {
            Some(b) => frame_body(packet_bytes(*packet)) == Some(b@),
            None => frame_body(packet_bytes(*packet)) is None,
        },
{
    decode_data(payload(packet))
}

/// Unframing undoes framing: whatever payload is framed comes back whole.
pub proof fn frame_round_trip(body: Seq<u8>)
    ensures
        frame_body(data_frame(body)) == Some(body),
{
    assert(data_frame(body).skip(1) =~= body);
}

/// Framing undoes unframing: a packet that unframes to a payload is exactly
/// the frame of that payload.
pub proof fn unframe_round_trip(bytes: Seq<u8>)
    requires
        frame_body(bytes) is Some,
    ensures
        data_frame(frame_body(bytes)->Some_0) == bytes,
{
    assert(data_frame(bytes.skip(1)) =~= bytes);
}

/// Two payloads with the same frame are the same payload.
pub proof fn data_frame_injective(a: Seq<u8>, b: Seq<u8>)
    requires
        data_frame(a) == data_frame(b),
    ensures
        a == b,
{
    frame_round_trip(a);
    frame_round_trip(b);
}

/// The close signal is no data frame, whatever the payload.
pub proof fn close_is_not_data(body: Seq<u8>)
    ensures
        frame_body(close_frame()) is None,
        data_frame(body) != close_frame(),
{
    assert(data_frame(body)[0] == TAG_DATA);
    assert(close_frame()[0] == TAG_CLOSE);
}

} // verus!
