//! The client's end of one proxied channel.
//!
//! A `Proxied` is driven by its host: the host polls the transport, hands each
//! outcome to `service`, sends what `service` and `send` give it, and reports
//! back whether the transport took it. Between those calls the state tells
//! whether the relay has opened the target and holds the payloads that have
//! arrived.

use crate::clock::{elapsed, nanos, now, span_nanos};
use crate::framing::{close_frame, data_frame, frame_body, frame_round_trip, packet_body};
use crate::packet::{packet_bytes, packet_reliable, reliable};
use rusty_enet::Packet;
use std::collections::VecDeque;
use std::time::Duration;
use vstd::prelude::*;
use vstd::string::StringSliceAdditionalSpecFns;
use web_time::Instant;

verus! {

/// Why an operation on a client socket failed.
#[derive(Clone, Copy, Debug, PartialEq, Eq, Structural)]
pub enum ClientError {
    /// The channel has ended.
    Disconnected,
    /// The relay has not opened the target yet, or the transport refused the
    /// payload.
    NotConnected,
    /// The relay did not open the target in time.
    Timeout,
    /// The socket took only a part of the payload, or a read filled the whole
    /// buffer.
    PacketTooLarge,
}

impl ClientError {
    /// The error in words.
    pub fn message(&self) -> (text: &'static str)
        ensures
            text@ == match *self {
                ClientError::Disconnected => "Disconnected."@,
                ClientError::NotConnected => "Socket not connected."@,
                ClientError::Timeout => "Connection timeout."@,
                ClientError::PacketTooLarge => "Packet too large."@,
            },
    {
        match self {
            ClientError::Disconnected => "Disconnected.",
            ClientError::NotConnected => "Socket not connected.",
            ClientError::Timeout => "Connection timeout.",
            ClientError::PacketTooLarge => "Packet too large.",
        }
    }
}

/// What one poll of the transport brought.
#[derive(Debug)]
pub enum TransportEvent {
    /// Nothing happened.
    Idle,
    /// The transport has reached the relay.
    Connect,
    /// The transport has lost the relay.
    Disconnect,
    /// A packet arrived on a channel.
    Receive { channel_id: u8, packet: Packet },
    /// The transport failed.
    Failed,
}

/// The channel on which the client speaks to the relay.
pub const CLIENT_CHANNEL: u8 = 0;

/// The number of peers of a client's transport: the relay alone.
pub const CLIENT_PEER_LIMIT: usize = 1;

/// The number of channels that a client's transport opens.
pub const CLIENT_CHANNEL_LIMIT: usize = 1;

/// The request that asks the relay to open a target: a JSON object with one
/// member, the protocol's name, whose value is the target's address.
pub open spec fn setup_bytes(protocol: Seq<u8>, address: Seq<u8>) -> Seq<u8> {
    seq![0x7bu8, 0x22u8] + protocol + seq![0x22u8, 0x3au8, 0x22u8] + address + seq![
        0x22u8,
        0x7du8,
    ]
}

/// Writes the request for a target, from the protocol's name and the address
/// in its text form.
pub fn setup_message(protocol: &str, address: &str) -> (request: Vec<u8>)
    ensures
        request@ == setup_bytes(protocol.spec_bytes(), address.spec_bytes()),
{
    let mut request: Vec<u8> = Vec::new();
    request.push(0x7b);
    request.push(0x22);
    request.extend_from_slice(protocol.as_bytes());
    request.push(0x22);
    request.push(0x3a);
    request.push(0x22);
    request.extend_from_slice(address.as_bytes());
    request.push(0x22);
    request.push(0x7d);
    proof {
        assert(request@ =~= setup_bytes(protocol.spec_bytes(), address.spec_bytes()));
    }
    request
}

/// A proxied channel as its contracts see it.
pub struct ProxiedView {
    /// The request that is sent once the transport has reached the relay.
    pub request: Seq<u8>,
    /// Whether the relay has opened the target.
    pub connected: bool,
    /// Whether the channel has ended.
    pub disconnected: bool,
    /// The payloads that have arrived and were not taken yet, oldest first.
    pub inbound: Seq<Seq<u8>>,
}

impl ProxiedView {
    /// The channel before the transport has reached the relay.
    pub open spec fn pending(request: Seq<u8>) -> ProxiedView {
        ProxiedView { request, connected: false, disconnected: false, inbound: Seq::empty() }
    }

    /// The channel after it has ended.
    pub open spec fn lost(self) -> ProxiedView {
        ProxiedView { connected: false, disconnected: true, ..self }
    }

    /// Whether servicing `event` succeeds.
    pub open spec fn accepts(self, event: TransportEvent) -> bool {
        !self.disconnected && match event {
            TransportEvent::Idle => true,
            TransportEvent::Connect => true,
            TransportEvent::Disconnect => false,
            TransportEvent::Failed => false,
            TransportEvent::Receive { channel_id, packet } => channel_id != CLIENT_CHANNEL
                || frame_body(packet_bytes(packet)) is Some,
        }
    }

    /// The channel after `event` was serviced. A channel that has ended stays
    /// as it is. A packet on another channel changes nothing. On the client's
    /// channel, the first empty data frame opens the channel, every other data
    /// frame adds its payload to the inbound queue, and anything else ends the
    /// channel.
    pub open spec fn serviced(self, event: TransportEvent) -> ProxiedView {
        if self.disconnected {
            self
        } else {
            match event {
                TransportEvent::Idle => self,
                TransportEvent::Connect => self,
                TransportEvent::Disconnect => self.lost(),
                TransportEvent::Failed => self.lost(),
                TransportEvent::Receive { channel_id, packet } => if channel_id
                    != CLIENT_CHANNEL {
                    self
                } else {
                    match frame_body(packet_bytes(packet)) {
                        Some(body) => if !self.connected && body.len() == 0 {
                            ProxiedView { connected: true, ..self }
                        } else {
                            ProxiedView { inbound: self.inbound.push(body), ..self }
                        },
                        None => self.lost(),
                    }
                },
            }
        }
    }

    /// The channel after the deadline for opening was checked.
    pub open spec fn checked(self, expired: bool) -> ProxiedView {
        if !self.disconnected && !self.connected && expired {
            self.lost()
        } else {
            self
        }
    }

    /// What checking the deadline answers.
    pub open spec fn check(self, expired: bool) -> Result<bool, ClientError> {
        if self.disconnected {
            Err(ClientError::Disconnected)
        } else if !self.connected && expired {
            Err(ClientError::Timeout)
        } else {
            Ok(self.connected)
        }
    }

    /// The channel after the deadline for opening was checked, `waited`
    /// nanoseconds after `connect` and with `allowed` nanoseconds to open in:
    /// the deadline has passed when more time has gone by than was allowed.
    pub open spec fn timed(self, waited: u128, allowed: u128) -> ProxiedView {
        self.checked(waited > allowed)
    }

    /// What checking the deadline answers, `waited` nanoseconds after
    /// `connect` and with `allowed` nanoseconds to open in.
    pub open spec fn time_check(self, waited: u128, allowed: u128) -> Result<bool, ClientError> {
        self.check(waited > allowed)
    }

    /// The channel after the transport took or refused a packet.
    pub open spec fn handed(self, delivered: bool) -> ProxiedView {
        if delivered {
            self
        } else {
            self.lost()
        }
    }

    /// The channel after the oldest payload was taken.
    pub open spec fn taken(self) -> ProxiedView {
        if !self.disconnected && self.inbound.len() > 0 {
            ProxiedView { inbound: self.inbound.skip(1), ..self }
        } else {
            self
        }
    }

    /// What taking the oldest payload answers.
    pub open spec fn take(self) -> Result<Option<Seq<u8>>, ClientError> {
        if self.disconnected {
            Err(ClientError::Disconnected)
        } else if self.inbound.len() > 0 {
            Ok(Some(self.inbound[0]))
        } else {
            Ok(None)
        }
    }
}

/// The client's end of one proxied channel.
pub struct Proxied {
    request: Vec<u8>,
    connect_time: Instant,
    connected: bool,
    disconnected: bool,
    packets: VecDeque<Vec<u8>>,
}

impl View for Proxied {
    type V = ProxiedView;

    closed spec fn view(&self) -> ProxiedView {
        ProxiedView {
            request: self.request@,
            connected: self.connected,
            disconnected: self.disconnected,
            inbound: Seq::new(self.packets@.len(), |i: int| self.packets@[i]@),
        }
    }
}

impl Proxied {
    /// The moment of `connect`, from which the time allowed for opening
    /// runs. No operation moves it.
    pub closed spec fn started(&self) -> Instant {
        self.connect_time
    }

    /// A channel to the target at `address`, which is the address in its text
    /// form, over the protocol named `protocol`. The time allowed for opening
    /// runs from this call.
    pub fn connect(address: &str, protocol: &'static str) -> (proxied: Proxied)
        ensures
            proxied@ == ProxiedView::pending(
                setup_bytes(protocol.spec_bytes(), address.spec_bytes()),
            ),
    {
        let proxied = Proxied {
            request: setup_message(protocol, address),
            connect_time: now(),
            connected: false,
            disconnected: false,
            packets: VecDeque::new(),
        };
        proof {
            assert(proxied@.inbound =~= Seq::<Seq<u8>>::empty());
        }
        proxied
    }

    /// Whether the relay has opened the target.
    pub fn is_connected(&self) -> (connected: bool)
        ensures
            connected == self@.connected,
    {
        self.connected
    }

    /// Whether the channel has ended.
    pub fn is_disconnected(&self) -> (disconnected: bool)
        ensures
            disconnected == self@.disconnected,
    {
        self.disconnected
    }

    /// Takes in what one poll of the transport brought. On `Connect` the answer
    /// holds the request, which is to be sent reliably on the client's
    /// channel; `setup_sent` takes the outcome of that.
    pub fn service(&mut self, event: TransportEvent) -> (reply: Result<Option<Packet>, ClientError>)
        ensures
            final(self)@ == old(self)@.serviced(event),
            reply is Ok <==> old(self)@.accepts(event),
            reply matches Err(error) ==> error == ClientError::Disconnected,
            reply matches Ok(request) ==> (request is Some <==> event is Connect),
            reply matches Ok(Some(packet)) ==> packet_bytes(packet) == old(self)@.request
                && packet_reliable(packet),
            final(self).started() == old(self).started(),
    {
        if self.disconnected {
            return Err(ClientError::Disconnected);
        }
        match event {
            TransportEvent::Idle => Ok(None),
            TransportEvent::Connect => Ok(Some(reliable(self.request.as_slice()))),
            TransportEvent::Disconnect => {
                self.disconnect();
                Err(ClientError::Disconnected)
            },
            TransportEvent::Failed => {
                self.disconnect();
                Err(ClientError::Disconnected)
            },
            TransportEvent::Receive { channel_id, packet } => {
                if channel_id != CLIENT_CHANNEL {
                    return Ok(None);
                }
                match packet_body(&packet) {
                    Some(body) => {
                        if !self.connected && body.len() == 0 {
                            self.connected = true;
                        } else {
                            self.packets.push_back(body);
                            proof {
                                assert(final(self)@.inbound =~= old(self)@.inbound.push(body@));
                            }
                        }
                        Ok(None)
                    },
                    None => {
                        self.disconnect();
                        Err(ClientError::Disconnected)
                    },
                }
            },
        }
    }

    /// Takes in whether the transport took the request. A refusal ends the
    /// channel.
    pub fn setup_sent(&mut self, delivered: bool) -> (done: Result<(), ClientError>)
        ensures
            final(self)@ == old(self)@.handed(delivered),
            final(self).started() == old(self).started(),
            done == if delivered {
                Ok::<(), ClientError>(())
            } else {
                Err::<(), ClientError>(ClientError::Disconnected)
            },
    {
        if delivered {
            Ok(())
        } else {
            self.disconnect();
            Err(ClientError::Disconnected)
        }
    }

    /// Checks the deadline for opening, given whether it has passed. A channel
    /// that is still pending when its deadline has passed ends.
    pub fn deadline(&mut self, expired: bool) -> (connected: Result<bool, ClientError>)
        ensures
            final(self)@ == old(self)@.checked(expired),
            connected == old(self)@.check(expired),
            final(self).started() == old(self).started(),
    {
        if self.disconnected {
            Err(ClientError::Disconnected)
        } else if !self.connected && expired {
            self.disconnect();
            Err(ClientError::Timeout)
        } else {
            Ok(self.connected)
        }
    }

    /// Checks the deadline for opening, `waited` nanoseconds after `connect`
    /// and with `allowed` nanoseconds to open in. A channel that is still
    /// pending when it has waited longer than allowed ends with a timeout; one
    /// that has waited no longer, the limit included, stays pending.
    pub fn timed(&mut self, waited: u128, allowed: u128) -> (connected: Result<bool, ClientError>)
        ensures
            final(self)@ == old(self)@.timed(waited, allowed),
            connected == old(self)@.time_check(waited, allowed),
            final(self).started() == old(self).started(),
    {
        self.deadline(waited > allowed)
    }

    /// Whether the relay has opened the target. A channel that is still
    /// pending when more than `timeout` has passed since `connect` ends. The
    /// clock says how long the channel has waited since the moment of
    /// `connect`: the answer is the one that `timed` gives for that time and
    /// the length of `timeout`.
    pub fn connected(&mut self, timeout: Duration) -> (connected: Result<bool, ClientError>)
        ensures
            exists|waited: u128|
                #![trigger old(self)@.timed(waited, span_nanos(timeout))]
                final(self)@ == old(self)@.timed(waited, span_nanos(timeout)) && connected == old(
                    self,
                )@.time_check(waited, span_nanos(timeout)),
            final(self).started() == old(self).started(),
    {
        let waited: u128 = nanos(&elapsed(&self.connect_time));
        let allowed: u128 = nanos(&timeout);
        self.timed(waited, allowed)
    }

    /// The packet that carries `data` to the target, to be sent reliably on
    /// the client's channel; `data_sent` takes the outcome of that. The bytes
    /// travel bare.
    pub fn send(&self, data: &[u8]) -> (packet: Result<Packet, ClientError>)
        ensures
            match packet {
                Ok(packet) => self@.connected && !self@.disconnected && packet_bytes(packet)
                    == data@ && packet_reliable(packet),
                Err(error) => if self@.disconnected {
                    error == ClientError::Disconnected
                } else {
                    !self@.connected && error == ClientError::NotConnected
                },
            },
    {
        if self.disconnected {
            Err(ClientError::Disconnected)
        } else if self.connected {
            Ok(reliable(data))
        } else {
            Err(ClientError::NotConnected)
        }
    }

    /// Takes in whether the transport took a payload. A refusal ends the
    /// channel.
    pub fn data_sent(&mut self, delivered: bool) -> (done: Result<(), ClientError>)
        ensures
            final(self)@ == old(self)@.handed(delivered),
            final(self).started() == old(self).started(),
            done == if delivered {
                Ok::<(), ClientError>(())
            } else {
                Err::<(), ClientError>(ClientError::NotConnected)
            },
    {
        if delivered {
            Ok(())
        } else {
            self.disconnect();
            Err(ClientError::NotConnected)
        }
    }

    /// Takes the oldest payload that has arrived, if there is one.
    pub fn receive(&mut self) -> (payload: Result<Option<Vec<u8>>, ClientError>)
        ensures
            final(self)@ == old(self)@.taken(),
            final(self).started() == old(self).started(),
            match payload {
                Ok(Some(body)) => old(self)@.take() == Ok::<Option<Seq<u8>>, ClientError>(
                    Some(body@),
                ),
                Ok(None) => old(self)@.take() == Ok::<Option<Seq<u8>>, ClientError>(None),
                Err(error) => old(self)@.take() == Err::<Option<Seq<u8>>, ClientError>(error),
            },
    {
        if self.disconnected {
            return Err(ClientError::Disconnected);
        }
        let payload = self.packets.pop_front();
        proof {
            if payload is Some {
                assert(final(self)@.inbound =~= old(self)@.inbound.skip(1));
            }
        }
        Ok(payload)
    }

    /// Ends the channel.
    pub fn disconnect(&mut self)
        ensures
            final(self)@ == old(self)@.lost(),
            final(self).started() == old(self).started(),
    {
        self.connected = false;
        self.disconnected = true;
    }
}

/// One thing that happens to a proxied channel.
pub enum ClientStep {
    /// An event of the transport is serviced.
    Service(TransportEvent),
    /// The transport took, or refused, the request or a payload.
    Handed(bool),
    /// The deadline for opening is checked, having passed or not.
    Deadline(bool),
    /// The oldest payload is taken.
    Take,
    /// The channel is ended.
    Disconnect,
}

impl ProxiedView {
    /// The channel after one step.
    pub open spec fn stepped(self, step: ClientStep) -> ProxiedView {
        match step {
            ClientStep::Service(event) => self.serviced(event),
            ClientStep::Handed(delivered) => self.handed(delivered),
            ClientStep::Deadline(expired) => self.checked(expired),
            ClientStep::Take => self.taken(),
            ClientStep::Disconnect => self.lost(),
        }
    }

    /// The channel after a run of steps.
    pub open spec fn run(self, steps: Seq<ClientStep>) -> ProxiedView
        decreases steps.len(),
    {
        if steps.len() == 0 {
            self
        } else {
            self.stepped(steps[0]).run(steps.skip(1))
        }
    }

    /// How often, in a run of steps, the channel goes from not connected to
    /// connected.
    pub open spec fn openings(self, steps: Seq<ClientStep>) -> nat
        decreases steps.len(),
    {
        if steps.len() == 0 {
            0
        } else {
            let next = self.stepped(steps[0]);
            let opened: nat = if !self.connected && next.connected {
                1
            } else {
                0
            };
            opened + next.openings(steps.skip(1))
        }
    }

    /// Whether the channel is in exactly one of its three states: pending,
    /// connected, disconnected.
    pub open spec fn well_formed(self) -> bool {
        !(self.connected && self.disconnected)
    }
}

/// A new channel is well formed, and every step keeps a channel so: at any
/// time it is pending, connected or disconnected, and only one of them.
pub proof fn states_are_exclusive(request: Seq<u8>, channel: ProxiedView, step: ClientStep)
    ensures
        ProxiedView::pending(request).well_formed(),
        channel.well_formed() ==> channel.stepped(step).well_formed(),
{
}

/// A channel that has ended stays as it is: whatever happens next, it is
/// still ended, servicing fails, and no payload is handed out.
pub proof fn ended_is_final(channel: ProxiedView, step: ClientStep)
    requires
        channel.disconnected,
    ensures
        channel.stepped(step).disconnected,
        !channel.stepped(step).connected || channel.connected,
        channel.stepped(step).inbound == channel.inbound,
        forall|event: TransportEvent|
            !#[trigger] channel.accepts(event) && channel.serviced(event) == channel,
        channel.take() == Err::<Option<Seq<u8>>, ClientError>(ClientError::Disconnected),
        forall|expired: bool| #[trigger]
            channel.check(expired) == Err::<bool, ClientError>(ClientError::Disconnected),
{
}

/// The close signal ends a live channel, whatever state it is in.
pub proof fn close_ends_channel(channel: ProxiedView, packet: Packet)
    requires
        !channel.disconnected,
        packet_bytes(packet) == close_frame(),
    ensures
        !channel.accepts(TransportEvent::Receive { channel_id: CLIENT_CHANNEL, packet }),
        channel.serviced(
            TransportEvent::Receive { channel_id: CLIENT_CHANNEL, packet },
        ).disconnected,
{
    assert(close_frame()[0] == crate::framing::TAG_CLOSE);
}

/// After the close signal no run of steps brings the channel back: it stays
/// ended, hands out nothing, and is never connected again.
pub proof fn close_is_final(channel: ProxiedView, packet: Packet, steps: Seq<ClientStep>)
    requires
        !channel.disconnected,
        packet_bytes(packet) == close_frame(),
    ensures
        ({
            let closed = channel.serviced(
                TransportEvent::Receive { channel_id: CLIENT_CHANNEL, packet },
            );
            let later = closed.run(steps);
            &&& later.disconnected
            &&& !later.connected
            &&& later.take() == Err::<Option<Seq<u8>>, ClientError>(ClientError::Disconnected)
        }),
{
    close_ends_channel(channel, packet);
    let closed = channel.serviced(TransportEvent::Receive { channel_id: CLIENT_CHANNEL, packet });
    ended_run(closed, steps);
}

/// A run from an ended channel ends in an ended channel, and opens nothing.
proof fn ended_run(channel: ProxiedView, steps: Seq<ClientStep>)
    requires
        channel.disconnected,
    ensures
        channel.run(steps).disconnected,
        channel.run(steps).connected ==> channel.connected,
        channel.openings(steps) == 0,
    decreases steps.len(),
{
    if steps.len() > 0 {
        ended_is_final(channel, steps[0]);
        ended_run(channel.stepped(steps[0]), steps.skip(1));
    }
}

/// A run from a connected channel opens nothing.
proof fn connected_run(channel: ProxiedView, steps: Seq<ClientStep>)
    requires
        channel.connected,
    ensures
        channel.openings(steps) == 0,
    decreases steps.len(),
{
    if steps.len() > 0 {
        let next = channel.stepped(steps[0]);
        if next.disconnected {
            ended_run(next, steps.skip(1));
        } else {
            connected_run(next, steps.skip(1));
        }
    }
}

/// Across the life of a channel the client sees it open at most once.
pub proof fn opens_at_most_once(channel: ProxiedView, steps: Seq<ClientStep>)
    ensures
        channel.openings(steps) <= 1,
    decreases steps.len(),
{
    if steps.len() > 0 {
        let next = channel.stepped(steps[0]);
        if channel.disconnected {
            ended_run(channel, steps);
        } else if channel.connected {
            connected_run(channel, steps);
        } else if next.connected {
            connected_run(next, steps.skip(1));
        } else {
            opens_at_most_once(next, steps.skip(1));
        }
    }
}

/// A channel opens on the handshake and on nothing else: on an empty data
/// frame that reaches it, on the client's channel, while it is pending.
pub proof fn opens_on_handshake(channel: ProxiedView, step: ClientStep)
    ensures
        (!channel.connected && channel.stepped(step).connected) <==> {
            &&& !channel.connected
            &&& !channel.disconnected
            &&& step matches ClientStep::Service(TransportEvent::Receive { channel_id, packet })
            &&& channel_id == CLIENT_CHANNEL
            &&& packet_bytes(packet) == data_frame(Seq::empty())
        },
{
    if let ClientStep::Service(TransportEvent::Receive { channel_id, packet }) = step {
        let bytes = packet_bytes(packet);
        if frame_body(bytes) is Some {
            crate::framing::unframe_round_trip(bytes);
            if frame_body(bytes)->Some_0.len() == 0 {
                assert(frame_body(bytes)->Some_0 =~= Seq::<u8>::empty());
            }
        }
        frame_round_trip(Seq::<u8>::empty());
    }
}

/// A packet on another channel than the client's leaves the channel as it
/// is: its payload never shows up in the inbound queue.
pub proof fn other_channels_are_ignored(channel: ProxiedView, channel_id: u8, packet: Packet)
    requires
        channel_id != CLIENT_CHANNEL,
    ensures
        channel.serviced(TransportEvent::Receive { channel_id, packet }) == channel,
{
}

/// A data frame that reaches a live channel puts exactly its payload at the
/// end of the inbound queue, and nothing else changes; with the queue empty
/// before, that payload is what `receive` hands out next. The one data frame
/// that is not taken for a payload is the empty one that reaches a pending
/// channel: it is the handshake.
pub proof fn data_is_delivered(channel: ProxiedView, packet: Packet, body: Seq<u8>)
    requires
        !channel.disconnected,
        channel.connected || body.len() > 0,
        packet_bytes(packet) == data_frame(body),
    ensures
        ({
            let event = TransportEvent::Receive { channel_id: CLIENT_CHANNEL, packet };
            let after = channel.serviced(event);
            &&& channel.accepts(event)
            &&& after == (ProxiedView { inbound: channel.inbound.push(body), ..channel })
            &&& channel.inbound.len() == 0 ==> after.take() == Ok::<
                Option<Seq<u8>>,
                ClientError,
            >(Some(body))
        }),
{
    frame_round_trip(body);
}

/// Payloads are handed out in the order in which they arrived.
pub proof fn inbound_is_fifo(channel: ProxiedView)
    requires
        !channel.disconnected,
        channel.inbound.len() > 0,
    ensures
        channel.take() == Ok::<Option<Seq<u8>>, ClientError>(Some(channel.inbound[0])),
        channel.taken().inbound == channel.inbound.skip(1),
{
}

/// The steps in which the client services one packet after the other on its
/// own channel.
pub open spec fn arrivals(packets: Seq<Packet>) -> Seq<ClientStep> {
    Seq::new(
        packets.len(),
        |i: int|
            ClientStep::Service(
                TransportEvent::Receive { channel_id: CLIENT_CHANNEL, packet: packets[i] },
            ),
    )
}

/// Payloads keep their order: when the data frames of a run of payloads reach
/// a connected channel one after the other, the inbound queue grows by
/// exactly those payloads, in the order in which their frames came.
pub proof fn payloads_keep_their_order(
    channel: ProxiedView,
    packets: Seq<Packet>,
    bodies: Seq<Seq<u8>>,
)
    requires
        channel.connected,
        !channel.disconnected,
        packets.len() == bodies.len(),
        forall|i: int|
            0 <= i < packets.len() ==> packet_bytes(#[trigger] packets[i]) == data_frame(
                bodies[i],
            ),
    ensures
        channel.run(arrivals(packets)) == (ProxiedView {
            inbound: channel.inbound + bodies,
            ..channel
        }),
    decreases packets.len(),
{
    if packets.len() == 0 {
        assert(channel.inbound + bodies =~= channel.inbound);
    } else {
        let first = arrivals(packets)[0];
        data_is_delivered(channel, packets[0], bodies[0]);
        let next = channel.stepped(first);
        assert(arrivals(packets).skip(1) =~= arrivals(packets.skip(1)));
        payloads_keep_their_order(next, packets.skip(1), bodies.skip(1));
        assert(next.inbound + bodies.skip(1) =~= channel.inbound + bodies);
    }
}

} // verus!
