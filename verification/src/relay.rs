//! The relay's main loop: its sessions, their channels, and what it does on
//! each event.
//!
//! The relay keeps one session for each connected client and, in it, the
//! channels that the client has opened. It owns no socket and no queue: its
//! host does, and tells it what happened, one event at a time. `Relay::step`
//! updates the sessions and names the action that the host is to take.

use crate::channel::ChannelConfig;
use crate::framing::{close_frame, close_packet, data_frame, data_packet};
use crate::packet::{packet_bytes, packet_reliable, payload};
use rusty_enet::Packet;
use std::collections::{HashMap, HashSet};
use vstd::prelude::*;
use vstd::slice::slice_to_vec;

verus! {

broadcast use vstd::std_specs::hash::group_hash_axioms;

/// The number of clients that the relay's transport admits.
pub const RELAY_PEER_LIMIT: usize = 4095;

/// The number of channels that the relay's transport gives each client.
pub const RELAY_CHANNEL_LIMIT: usize = 255;

/// What the relay's host observed.
#[derive(Debug)]
pub enum RelayEvent {
    /// A client has connected.
    Connect { peer: usize },
    /// A client has disconnected.
    Disconnect { peer: usize },
    /// A packet from a client arrived on a channel.
    Receive { peer: usize, channel_id: u8, packet: Packet },
    /// A request to open a channel was read: it names this target, or it is
    /// malformed.
    Setup { peer: usize, channel_id: u8, config: Option<ChannelConfig> },
    /// The worker of a channel did not take a payload: it has ended.
    Refused { peer: usize, channel_id: u8 },
    /// The worker of a channel has put a payload on its outbound queue.
    Outbound { peer: usize, channel_id: u8, payload: Vec<u8> },
    /// The outbound queue of a channel is closed: its worker has ended.
    Ended { peer: usize, channel_id: u8 },
    /// The transport refused a payload for a client.
    Unsent { peer: usize, channel_id: u8 },
    /// The transport refused a close signal for a client.
    Unclosed { peer: usize },
}

/// What the relay's host is to do.
#[derive(Debug)]
pub enum RelayAction {
    /// Nothing.
    Nothing,
    /// Drop every channel of the client, which ends their workers.
    Discard { peer: usize },
    /// Read the request as a target, and report it with `Setup`.
    Parse { peer: usize, channel_id: u8, request: Vec<u8> },
    /// Start a worker for the target and keep it as the client's channel.
    Open { peer: usize, channel_id: u8, config: ChannelConfig },
    /// Put the payload on the inbound queue of the channel; report a failure
    /// with `Refused`.
    Forward { peer: usize, channel_id: u8, data: Vec<u8> },
    /// Send the packet to the client on the channel; report a failure with
    /// `Unsent`.
    Send { peer: usize, channel_id: u8, packet: Packet },
    /// Send the packet, a close signal, to the client on the channel; report
    /// a failure with `Unclosed`.
    Close { peer: usize, channel_id: u8, packet: Packet },
    /// Drop the channel, and do as for `Close`.
    Reap { peer: usize, channel_id: u8, packet: Packet },
    /// Disconnect the client.
    Hangup { peer: usize },
}

/// An action as the contracts see it: each packet by the bytes it carries.
pub enum RelayActionView {
    Nothing,
    Discard { peer: usize },
    Parse { peer: usize, channel_id: u8, request: Seq<u8> },
    Open { peer: usize, channel_id: u8, config: ChannelConfig },
    Forward { peer: usize, channel_id: u8, data: Seq<u8> },
    Send { peer: usize, channel_id: u8, packet: Seq<u8> },
    Close { peer: usize, channel_id: u8, packet: Seq<u8> },
    Reap { peer: usize, channel_id: u8, packet: Seq<u8> },
    Hangup { peer: usize },
}

impl View for RelayAction {
    type V = RelayActionView;

    open spec fn view(&self) -> RelayActionView {
        match *self {
            RelayAction::Nothing => RelayActionView::Nothing,
            RelayAction::Discard { peer } => RelayActionView::Discard { peer },
            RelayAction::Parse { peer, channel_id, request } => RelayActionView::Parse {
                peer,
                channel_id,
                request: request@,
            },
            RelayAction::Open { peer, channel_id, config } => RelayActionView::Open {
                peer,
                channel_id,
                config,
            },
            RelayAction::Forward { peer, channel_id, data } => RelayActionView::Forward {
                peer,
                channel_id,
                data: data@,
            },
            RelayAction::Send { peer, channel_id, packet } => RelayActionView::Send {
                peer,
                channel_id,
                packet: packet_bytes(packet),
            },
            RelayAction::Close { peer, channel_id, packet } => RelayActionView::Close {
                peer,
                channel_id,
                packet: packet_bytes(packet),
            },
            RelayAction::Reap { peer, channel_id, packet } => RelayActionView::Reap {
                peer,
                channel_id,
                packet: packet_bytes(packet),
            },
            RelayAction::Hangup { peer } => RelayActionView::Hangup { peer },
        }
    }
}

impl RelayAction {
    /// Whether the packet that the action sends, if it sends one, is of the
    /// reliable kind.
    pub open spec fn is_reliable(self) -> bool {
        match self {
            RelayAction::Send { packet, .. } => packet_reliable(packet),
            RelayAction::Close { packet, .. } => packet_reliable(packet),
            RelayAction::Reap { packet, .. } => packet_reliable(packet),
            _ => true,
        }
    }
}

/// Whether the client has a session with this channel open in it.
pub open spec fn is_open(sessions: Map<usize, Set<u8>>, peer: usize, channel_id: u8) -> bool {
    sessions.contains_key(peer) && sessions[peer].contains(channel_id)
}

/// The sessions after `event`.
///
/// A connecting client gets an empty session and a disconnecting client
/// loses its session. A well-formed request opens its channel. A channel
/// whose worker has ended, or whose payload the transport refused, is
/// removed. Nothing else changes the sessions.
pub open spec fn sessions_after(sessions: Map<usize, Set<u8>>, event: RelayEvent) -> Map<
    usize,
    Set<u8>,
> {
    match event {
        RelayEvent::Connect { peer } => sessions.insert(peer, Set::empty()),
        RelayEvent::Disconnect { peer } => sessions.remove(peer),
        RelayEvent::Setup { peer, channel_id, config } => if sessions.contains_key(peer)
            && config is Some {
            sessions.insert(peer, sessions[peer].insert(channel_id))
        } else {
            sessions
        },
        RelayEvent::Ended { peer, channel_id } => if is_open(sessions, peer, channel_id) {
            sessions.insert(peer, sessions[peer].remove(channel_id))
        } else {
            sessions
        },
        RelayEvent::Unsent { peer, channel_id } => if is_open(sessions, peer, channel_id) {
            sessions.insert(peer, sessions[peer].remove(channel_id))
        } else {
            sessions
        },
        _ => sessions,
    }
}

/// The action that answers `event`.
///
/// A packet on an open channel is forwarded as it is. A packet on a channel
/// that is not open is a request, to be read. A malformed request is answered
/// with the close signal. A payload from a worker goes to the client in a
/// data frame. A channel that ends is reaped, and the client is told with the
/// close signal. A client that cannot be told is disconnected. Events that
/// name a client without a session, or a channel that is not open, are
/// answered with nothing; so is a packet from a client without a session.
pub open spec fn action_for(sessions: Map<usize, Set<u8>>, event: RelayEvent) -> RelayActionView {
    match event {
        RelayEvent::Connect { peer } => if sessions.contains_key(peer) {
            RelayActionView::Discard { peer }
        } else {
            RelayActionView::Nothing
        },
        RelayEvent::Disconnect { peer } => if sessions.contains_key(peer) {
            RelayActionView::Discard { peer }
        } else {
            RelayActionView::Nothing
        },
        RelayEvent::Receive { peer, channel_id, packet } => if !sessions.contains_key(peer) {
            RelayActionView::Nothing
        } else if sessions[peer].contains(channel_id) {
            RelayActionView::Forward { peer, channel_id, data: packet_bytes(packet) }
        } else {
            RelayActionView::Parse { peer, channel_id, request: packet_bytes(packet) }
        },
        RelayEvent::Setup { peer, channel_id, config } => if !sessions.contains_key(peer) {
            RelayActionView::Nothing
        } else {
            match config {
                Some(config) => RelayActionView::Open { peer, channel_id, config },
                None => RelayActionView::Close { peer, channel_id, packet: close_frame() },
            }
        },
        RelayEvent::Refused { peer, channel_id } => if is_open(sessions, peer, channel_id) {
            RelayActionView::Close { peer, channel_id, packet: close_frame() }
        } else {
            RelayActionView::Nothing
        },
        RelayEvent::Outbound { peer, channel_id, payload } => if is_open(
            sessions,
            peer,
            channel_id,
        ) {
            RelayActionView::Send { peer, channel_id, packet: data_frame(payload@) }
        } else {
            RelayActionView::Nothing
        },
        RelayEvent::Ended { peer, channel_id } => if is_open(sessions, peer, channel_id) {
            RelayActionView::Reap { peer, channel_id, packet: close_frame() }
        } else {
            RelayActionView::Nothing
        },
        RelayEvent::Unsent { peer, channel_id } => if is_open(sessions, peer, channel_id) {
            RelayActionView::Reap { peer, channel_id, packet: close_frame() }
        } else {
            RelayActionView::Nothing
        },
        RelayEvent::Unclosed { peer } => RelayActionView::Hangup { peer },
    }
}

/// The session of one client: the channels it has open.
struct Tunnel {
    channels: HashSet<u8>,
}

/// The relay's sessions.
pub struct Relay {
    tunnels: HashMap<usize, Tunnel>,
}

impl View for Relay {
    type V = Map<usize, Set<u8>>;

    closed spec fn view(&self) -> Map<usize, Set<u8>> {
        self.tunnels@.map_values(|tunnel: Tunnel| tunnel.channels@)
    }
}

impl Relay {
    /// A relay without sessions.
    pub fn new() -> (relay: Relay)
        ensures
            relay@ == Map::<usize, Set<u8>>::empty(),
    {
        let relay = Relay { tunnels: HashMap::new() };
        proof {
            assert(relay@ =~= Map::<usize, Set<u8>>::empty());
        }
        relay
    }

    /// Whether the client has a session.
    pub fn has_session(&self, peer: usize) -> (known: bool)
        ensures
            known == self@.contains_key(peer),
    {
        self.tunnels.contains_key(&peer)
    }

    /// Whether the client has this channel open.
    pub fn has_channel(&self, peer: usize, channel_id: u8) -> (open: bool)
        ensures
            open == is_open(self@, peer, channel_id),
    {
        match self.tunnels.get(&peer) {
            Some(tunnel) => tunnel.channels.contains(&channel_id),
            None => false,
        }
    }

    /// Marks a channel of a client's session as open.
    fn open(&mut self, peer: usize, channel_id: u8)
        requires
            old(self)@.contains_key(peer),
        ensures
            final(self)@ == old(self)@.insert(peer, old(self)@[peer].insert(channel_id)),
    {
        match self.tunnels.remove(&peer) {
            Some(mut tunnel) => {
                tunnel.channels.insert(channel_id);
                self.tunnels.insert(peer, tunnel);
            },
            None => {},
        }
        proof {
            assert(final(self)@ =~= old(self)@.insert(peer, old(self)@[peer].insert(channel_id)));
        }
    }

    /// Removes a channel from a client's session.
    fn reap(&mut self, peer: usize, channel_id: u8)
        requires
            old(self)@.contains_key(peer),
        ensures
            final(self)@ == old(self)@.insert(peer, old(self)@[peer].remove(channel_id)),
    {
        match self.tunnels.remove(&peer) {
            Some(mut tunnel) => {
                tunnel.channels.remove(&channel_id);
                self.tunnels.insert(peer, tunnel);
            },
            None => {},
        }
        proof {
            assert(final(self)@ =~= old(self)@.insert(peer, old(self)@[peer].remove(channel_id)));
        }
    }

    /// Takes in one event and names the action that answers it.
    pub fn step(&mut self, event: RelayEvent) -> (action: RelayAction)
        ensures
            final(self)@ == sessions_after(old(self)@, event),
            action@ == action_for(old(self)@, event),
            action.is_reliable(),
    {
        match event {
            RelayEvent::Connect { peer } => {
                let known = self.has_session(peer);
                self.tunnels.insert(peer, Tunnel { channels: HashSet::new() });
                proof {
                    assert(final(self)@ =~= old(self)@.insert(peer, Set::empty()));
                }
                if known {
                    RelayAction::Discard { peer }
                } else {
                    RelayAction::Nothing
                }
            },
            RelayEvent::Disconnect { peer } => {
                let known = self.has_session(peer);
                self.tunnels.remove(&peer);
                proof {
                    assert(final(self)@ =~= old(self)@.remove(peer));
                }
                if known {
                    RelayAction::Discard { peer }
                } else {
                    RelayAction::Nothing
                }
            },
            RelayEvent::Receive { peer, channel_id, packet } => {
                if !self.has_session(peer) {
                    RelayAction::Nothing
                } else if self.has_channel(peer, channel_id) {
                    RelayAction::Forward { peer, channel_id, data: slice_to_vec(payload(&packet)) }
                } else {
                    RelayAction::Parse {
                        peer,
                        channel_id,
                        request: slice_to_vec(payload(&packet)),
                    }
                }
            },
            RelayEvent::Setup { peer, channel_id, config } => {
                if !self.has_session(peer) {
                    RelayAction::Nothing
                } else {
                    match config {
                        Some(config) => {
                            self.open(peer, channel_id);
                            RelayAction::Open { peer, channel_id, config }
                        },
                        None => RelayAction::Close { peer, channel_id, packet: close_packet() },
                    }
                }
            },
            RelayEvent::Refused { peer, channel_id } => {
                if self.has_channel(peer, channel_id) {
                    RelayAction::Close { peer, channel_id, packet: close_packet() }
                } else {
                    RelayAction::Nothing
                }
            },
            RelayEvent::Outbound { peer, channel_id, payload } => {
                if self.has_channel(peer, channel_id) {
                    RelayAction::Send { peer, channel_id, packet: data_packet(payload.as_slice()) }
                } else {
                    RelayAction::Nothing
                }
            },
            RelayEvent::Ended { peer, channel_id } => {
                if self.has_channel(peer, channel_id) {
                    self.reap(peer, channel_id);
                    RelayAction::Reap { peer, channel_id, packet: close_packet() }
                } else {
                    RelayAction::Nothing
                }
            },
            RelayEvent::Unsent { peer, channel_id } => {
                if self.has_channel(peer, channel_id) {
                    self.reap(peer, channel_id);
                    RelayAction::Reap { peer, channel_id, packet: close_packet() }
                } else {
                    RelayAction::Nothing
                }
            },
            RelayEvent::Unclosed { peer } => RelayAction::Hangup { peer },
        }
    }
}

impl RelayEvent {
    /// The client that the event is about.
    pub open spec fn peer(self) -> usize {
        match self {
            RelayEvent::Connect { peer } => peer,
            RelayEvent::Disconnect { peer } => peer,
            RelayEvent::Receive { peer, .. } => peer,
            RelayEvent::Setup { peer, .. } => peer,
            RelayEvent::Refused { peer, .. } => peer,
            RelayEvent::Outbound { peer, .. } => peer,
            RelayEvent::Ended { peer, .. } => peer,
            RelayEvent::Unsent { peer, .. } => peer,
            RelayEvent::Unclosed { peer } => peer,
        }
    }

    /// The channel that the event is about, unless it is about the client as
    /// a whole.
    pub open spec fn channel(self) -> Option<u8> {
        match self {
            RelayEvent::Connect { .. } => None,
            RelayEvent::Disconnect { .. } => None,
            RelayEvent::Receive { channel_id, .. } => Some(channel_id),
            RelayEvent::Setup { channel_id, .. } => Some(channel_id),
            RelayEvent::Refused { channel_id, .. } => Some(channel_id),
            RelayEvent::Outbound { channel_id, .. } => Some(channel_id),
            RelayEvent::Ended { channel_id, .. } => Some(channel_id),
            RelayEvent::Unsent { channel_id, .. } => Some(channel_id),
            RelayEvent::Unclosed { .. } => None,
        }
    }
}

impl RelayActionView {
    /// Whether the action concerns nothing but this client and, where it
    /// names a channel, this channel.
    pub open spec fn stays_on(self, peer: usize, channel: Option<u8>) -> bool {
        match self {
            RelayActionView::Nothing => true,
            RelayActionView::Discard { peer: p } => p == peer,
            RelayActionView::Hangup { peer: p } => p == peer,
            RelayActionView::Parse { peer: p, channel_id, .. } => p == peer && channel == Some(
                channel_id,
            ),
            RelayActionView::Open { peer: p, channel_id, .. } => p == peer && channel == Some(
                channel_id,
            ),
            RelayActionView::Forward { peer: p, channel_id, .. } => p == peer && channel == Some(
                channel_id,
            ),
            RelayActionView::Send { peer: p, channel_id, .. } => p == peer && channel == Some(
                channel_id,
            ),
            RelayActionView::Close { peer: p, channel_id, .. } => p == peer && channel == Some(
                channel_id,
            ),
            RelayActionView::Reap { peer: p, channel_id, .. } => p == peer && channel == Some(
                channel_id,
            ),
        }
    }

    /// The bytes that the action sends to a client, if it sends any.
    pub open spec fn wire(self) -> Option<Seq<u8>> {
        match self {
            RelayActionView::Send { packet, .. } => Some(packet),
            RelayActionView::Close { packet, .. } => Some(packet),
            RelayActionView::Reap { packet, .. } => Some(packet),
            _ => None,
        }
    }
}

/// Once a client has disconnected the relay holds no session for it, and so
/// no channel; the host is told to drop the channels that it had. No other
/// client's session changes.
pub proof fn disconnect_clears_session(sessions: Map<usize, Set<u8>>, peer: usize)
    ensures
        ({
            let event = RelayEvent::Disconnect { peer };
            let after = sessions_after(sessions, event);
            &&& !after.contains_key(peer)
            &&& forall|channel_id: u8| !#[trigger] is_open(after, peer, channel_id)
            &&& forall|other: usize|
                other != peer ==> (#[trigger] after.contains_key(other) == sessions.contains_key(
                    other,
                ) && after[other] == sessions[other])
            &&& sessions.contains_key(peer) ==> action_for(sessions, event)
                == (RelayActionView::Discard { peer })
        }),
{
}

/// A client that connects starts with no channel open.
pub proof fn connect_starts_empty(sessions: Map<usize, Set<u8>>, peer: usize)
    ensures
        ({
            let after = sessions_after(sessions, RelayEvent::Connect { peer });
            &&& after.contains_key(peer)
            &&& forall|channel_id: u8| !#[trigger] is_open(after, peer, channel_id)
        }),
{
}

/// An event changes no channel but its own: every other channel of every
/// client is open after it if and only if it was before. The exceptions are
/// the two events that are about a client as a whole, which close every
/// channel of that client and of no other.
pub proof fn other_channels_untouched(
    sessions: Map<usize, Set<u8>>,
    event: RelayEvent,
    peer: usize,
    channel_id: u8,
)
    requires
        event.peer() != peer || (event.channel() is Some && event.channel() != Some(channel_id)),
    ensures
        is_open(sessions_after(sessions, event), peer, channel_id) == is_open(
            sessions,
            peer,
            channel_id,
        ),
{
}

/// The action that answers an event concerns the client and the channel of
/// the event, and no other: a payload never moves to another channel.
pub proof fn actions_stay_on_channel(sessions: Map<usize, Set<u8>>, event: RelayEvent)
    ensures
        action_for(sessions, event).stays_on(event.peer(), event.channel()),
{
}

/// What the relay forwards to a worker is what the client sent, byte for
/// byte, and what it sends to the client is the frame of what the worker
/// gave.
pub proof fn payloads_pass_whole(sessions: Map<usize, Set<u8>>, event: RelayEvent)
    ensures
        action_for(sessions, event) matches RelayActionView::Forward { data, .. } ==> (
        event matches RelayEvent::Receive { packet, .. } && data == packet_bytes(packet)),
        action_for(sessions, event) matches RelayActionView::Send { packet, .. } ==> (
        event matches RelayEvent::Outbound { payload, .. } && packet == data_frame(payload@)
            && crate::framing::frame_body(packet) == Some(payload@)),
{
    if let RelayEvent::Outbound { payload, .. } = event {
        crate::framing::frame_round_trip(payload@);
    }
}

/// Every packet that the relay sends to a client is framed: it is not empty,
/// and its first byte is the data tag or the close tag. A close signal is the
/// close tag alone.
pub proof fn packets_are_framed(sessions: Map<usize, Set<u8>>, event: RelayEvent)
    ensures
        action_for(sessions, event).wire() matches Some(bytes) ==> bytes.len() > 0 && (bytes[0]
            == crate::framing::TAG_DATA || bytes[0] == crate::framing::TAG_CLOSE),
        action_for(sessions, event) matches RelayActionView::Close { packet, .. } ==> packet
            == close_frame(),
        action_for(sessions, event) matches RelayActionView::Reap { packet, .. } ==> packet
            == close_frame(),
{
}

/// A malformed request opens no channel, and the client is told so with the
/// close signal on the channel of the request.
pub proof fn malformed_request_is_refused(
    sessions: Map<usize, Set<u8>>,
    peer: usize,
    channel_id: u8,
)
    requires
        sessions.contains_key(peer),
    ensures
        ({
            let event = RelayEvent::Setup { peer, channel_id, config: None };
            &&& sessions_after(sessions, event) == sessions
            &&& action_for(sessions, event) == (RelayActionView::Close {
                peer,
                channel_id,
                packet: close_frame(),
            })
        }),
{
}

/// A channel whose worker has ended is reaped: it is no longer open, the
/// client is told with the close signal, and the channel's number is free
/// for a new request.
pub proof fn ended_channel_is_reaped(sessions: Map<usize, Set<u8>>, peer: usize, channel_id: u8)
    requires
        is_open(sessions, peer, channel_id),
    ensures
        ({
            let event = RelayEvent::Ended { peer, channel_id };
            let after = sessions_after(sessions, event);
            &&& !is_open(after, peer, channel_id)
            &&& after.contains_key(peer)
            &&& action_for(sessions, event) == (RelayActionView::Reap {
                peer,
                channel_id,
                packet: close_frame(),
            })
            &&& forall|packet: Packet|
                (#[trigger] action_for(after, RelayEvent::Receive { peer, channel_id, packet }))
                    == (RelayActionView::Parse { peer, channel_id, request: packet_bytes(packet) })
        }),
{
}

/// Sessions begin with a connection and with nothing else: a client without
/// a session has none after any event but its own connecting, and so it has
/// no channel either.
pub proof fn only_connect_opens_sessions(
    sessions: Map<usize, Set<u8>>,
    event: RelayEvent,
    peer: usize,
)
    requires
        !sessions.contains_key(peer),
        event != (RelayEvent::Connect { peer }),
    ensures
        !sessions_after(sessions, event).contains_key(peer),
        forall|channel_id: u8| !#[trigger] is_open(sessions_after(sessions, event), peer, channel_id),
{
}

/// Channels open on a well-formed request and on nothing else, and the host
/// is then told to start the worker for the target that the request names.
pub proof fn only_requests_open_channels(
    sessions: Map<usize, Set<u8>>,
    event: RelayEvent,
    peer: usize,
    channel_id: u8,
)
    requires
        !is_open(sessions, peer, channel_id),
        is_open(sessions_after(sessions, event), peer, channel_id),
    ensures
        event matches RelayEvent::Setup { peer: p, channel_id: c, config: Some(config) } && p
            == peer && c == channel_id && action_for(sessions, event) == (RelayActionView::Open {
            peer,
            channel_id,
            config,
        }),
{
}

} // verus!
