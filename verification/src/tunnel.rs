//! The relay and the client together: what holds of a payload, the
//! handshake and the close signal on their way from a channel's worker to the
//! client's socket.

use crate::client::{ClientError, ProxiedView, TransportEvent, CLIENT_CHANNEL};
use crate::framing::{close_frame, data_frame, frame_round_trip};
use crate::packet::packet_bytes;
use crate::relay::{action_for, is_open, RelayActionView, RelayEvent};
use rusty_enet::Packet;
use vstd::prelude::*;

verus! {

/// Whether `packet` is what the relay sends to a client when the worker of
/// the client's open channel has put `payload` on its outbound queue.
pub open spec fn relayed(
    sessions: Map<usize, Set<u8>>,
    peer: usize,
    channel_id: u8,
    payload: Vec<u8>,
    packet: Packet,
) -> bool {
    action_for(sessions, RelayEvent::Outbound { peer, channel_id, payload })
        == (RelayActionView::Send { peer, channel_id, packet: packet_bytes(packet) })
}

/// Whether `packet` is what the relay sends to a client when the worker of
/// the client's open channel has ended.
pub open spec fn relayed_end(
    sessions: Map<usize, Set<u8>>,
    peer: usize,
    channel_id: u8,
    packet: Packet,
) -> bool {
    action_for(sessions, RelayEvent::Ended { peer, channel_id }) == (RelayActionView::Reap {
        peer,
        channel_id,
        packet: packet_bytes(packet),
    })
}

/// A payload that a driver has delivered reaches the client whole: the
/// packet that the relay sends for it puts exactly that payload at the end of
/// the client's inbound queue, so that with the queue empty the next
/// `receive` hands out the payload, byte for byte. This holds of every
/// payload of every length, but for the one that the client takes for the
/// handshake: an empty payload that reaches a channel which is still pending.
pub proof fn payload_reaches_client(
    sessions: Map<usize, Set<u8>>,
    peer: usize,
    channel_id: u8,
    payload: Vec<u8>,
    packet: Packet,
    client: ProxiedView,
)
    requires
        relayed(sessions, peer, channel_id, payload, packet),
        !client.disconnected,
        client.connected || payload@.len() > 0,
    ensures
        ({
            let event = TransportEvent::Receive { channel_id: CLIENT_CHANNEL, packet };
            let after = client.serviced(event);
            &&& client.accepts(event)
            &&& after.inbound == client.inbound.push(payload@)
            &&& client.inbound.len() == 0 ==> after.take() == Ok::<
                Option<Seq<u8>>,
                ClientError,
            >(Some(payload@))
        }),
{
    assert(packet_bytes(packet) == data_frame(payload@));
    crate::client::data_is_delivered(client, packet, payload@);
}

/// The handshake opens the client's channel: when the relay passes on the
/// empty payload with which a worker announces that its target is open, a
/// pending client becomes connected, and its inbound queue stays empty.
pub proof fn handshake_opens_client(
    sessions: Map<usize, Set<u8>>,
    peer: usize,
    channel_id: u8,
    payload: Vec<u8>,
    packet: Packet,
    request: Seq<u8>,
)
    requires
        relayed(sessions, peer, channel_id, payload, packet),
        payload@.len() == 0,
    ensures
        ({
            let event = TransportEvent::Receive { channel_id: CLIENT_CHANNEL, packet };
            let client = ProxiedView::pending(request);
            &&& client.accepts(event)
            &&& client.serviced(event) == (ProxiedView { connected: true, ..client })
        }),
{
    assert(packet_bytes(packet) == data_frame(payload@));
    frame_round_trip(payload@);
}

/// Nothing but the handshake opens the client's channel: when a packet that
/// the relay has sent for a payload opens a channel, the channel was pending
/// and the payload was empty. A worker puts an empty payload on its queue
/// first when it announces that its driver is connected.
pub proof fn opening_needs_handshake(
    sessions: Map<usize, Set<u8>>,
    peer: usize,
    channel_id: u8,
    payload: Vec<u8>,
    packet: Packet,
    client: ProxiedView,
)
    requires
        relayed(sessions, peer, channel_id, payload, packet),
        !client.connected,
        client.serviced(TransportEvent::Receive { channel_id: CLIENT_CHANNEL, packet }).connected,
    ensures
        payload@.len() == 0,
        !client.disconnected,
{
    let step = crate::client::ClientStep::Service(
        TransportEvent::Receive { channel_id: CLIENT_CHANNEL, packet },
    );
    crate::client::opens_on_handshake(client, step);
    crate::framing::data_frame_injective(payload@, Seq::empty());
}

/// The end of a worker ends the client's channel: the packet that the relay
/// sends when it reaps a channel is the close signal, and a client that gets
/// it is disconnected.
pub proof fn end_reaches_client(
    sessions: Map<usize, Set<u8>>,
    peer: usize,
    channel_id: u8,
    packet: Packet,
    client: ProxiedView,
)
    requires
        is_open(sessions, peer, channel_id),
        relayed_end(sessions, peer, channel_id, packet),
        !client.disconnected,
    ensures
        packet_bytes(packet) == close_frame(),
        client.serviced(
            TransportEvent::Receive { channel_id: CLIENT_CHANNEL, packet },
        ).disconnected,
{
    crate::client::close_ends_channel(client, packet);
}

} // verus!
