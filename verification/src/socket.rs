//! The client's sockets: a TCP stream and a UDP socket that reach their
//! target either directly or through the relay.
//!
//! A direct socket is owned by the host, which makes each call on it and
//! hands in the outcome. A proxied socket is a `Proxied` channel.

use crate::client::{setup_bytes, ClientError, Proxied, ProxiedView};
use crate::io::{filled, IoOutcome, READ_BUFFER_LEN};
use crate::clock::span_nanos;
use crate::packet::{packet_bytes, packet_reliable};
use rusty_enet::Packet;
use std::time::Duration;
use vstd::prelude::*;
use vstd::string::StringSliceAdditionalSpecFns;
use web_time::Instant;

verus! {

/// A direct socket after a write of a payload of `len` bytes: it stays open
/// only if the write took all of them.
pub open spec fn direct_sent(open: bool, len: usize, outcome: IoOutcome) -> bool {
    open && outcome == IoOutcome::Done(len)
}

/// What a write on a direct socket answers.
pub open spec fn direct_send(open: bool, len: usize, outcome: IoOutcome) -> Result<
    (),
    ClientError,
> {
    if !open {
        Err(ClientError::Disconnected)
    } else {
        match outcome {
            IoOutcome::Done(count) => if count == len {
                Ok(())
            } else {
                Err(ClientError::PacketTooLarge)
            },
            IoOutcome::WouldBlock => Err(ClientError::Disconnected),
            IoOutcome::Failed => Err(ClientError::Disconnected),
        }
    }
}

/// What a read on a direct socket answers. A read that filled the buffer is
/// too large; any other read is one payload, an empty one too. A read that
/// would have had to wait has nothing ready.
pub open spec fn direct_receive(open: bool, buffer: Seq<u8>, outcome: IoOutcome) -> Result<
    Option<Seq<u8>>,
    ClientError,
> {
    if !open {
        Err(ClientError::Disconnected)
    } else {
        match outcome {
            IoOutcome::Done(count) => if count >= READ_BUFFER_LEN {
                Err(ClientError::PacketTooLarge)
            } else {
                Ok(Some(buffer.take(count as int)))
            },
            IoOutcome::WouldBlock => Ok(None),
            IoOutcome::Failed => Err(ClientError::Disconnected),
        }
    }
}

/// A socket that the client's host has opened to the target itself.
pub struct Direct {
    open: bool,
}

impl View for Direct {
    type V = bool;

    /// Whether the socket is open.
    closed spec fn view(&self) -> bool {
        self.open
    }
}

impl Direct {
    /// An open socket.
    pub fn new() -> (direct: Direct)
        ensures
            direct@,
    {
        Direct { open: true }
    }

    /// Whether the socket is open.
    pub fn is_open(&self) -> (open: bool)
        ensures
            open == self@,
    {
        self.open
    }

    /// Whether the socket is connected: an open socket is.
    pub fn connected(&self) -> (connected: Result<bool, ClientError>)
        ensures
            connected == if self@ {
                Ok::<bool, ClientError>(true)
            } else {
                Err::<bool, ClientError>(ClientError::Disconnected)
            },
    {
        if self.open {
            Ok(true)
        } else {
            Err(ClientError::Disconnected)
        }
    }

    /// Takes in the outcome of writing a payload of `len` bytes. The socket
    /// closes unless the write took the whole payload.
    pub fn send(&mut self, len: usize, outcome: IoOutcome) -> (done: Result<(), ClientError>)
        ensures
            final(self)@ == direct_sent(old(self)@, len, outcome),
            done == direct_send(old(self)@, len, outcome),
    {
        if !self.open {
            return Err(ClientError::Disconnected);
        }
        match outcome {
            IoOutcome::Done(count) => if count == len {
                Ok(())
            } else {
                self.open = false;
                Err(ClientError::PacketTooLarge)
            },
            IoOutcome::WouldBlock => {
                self.open = false;
                Err(ClientError::Disconnected)
            },
            IoOutcome::Failed => {
                self.open = false;
                Err(ClientError::Disconnected)
            },
        }
    }

    /// Takes in the outcome of reading into `buffer` and gives the payload
    /// that was read, if any. The socket closes when the read failed or
    /// filled the buffer.
    pub fn receive(&mut self, buffer: &[u8; 4096], outcome: IoOutcome) -> (payload: Result<
        Option<Vec<u8>>,
        ClientError,
    >)
        ensures
            final(self)@ == (old(self)@ && direct_receive(old(self)@, buffer@, outcome) is Ok),
            match payload {
                Ok(Some(bytes)) => direct_receive(old(self)@, buffer@, outcome) == Ok::<
                    Option<Seq<u8>>,
                    ClientError,
                >(Some(bytes@)),
                Ok(None) => direct_receive(old(self)@, buffer@, outcome) == Ok::<
                    Option<Seq<u8>>,
                    ClientError,
                >(None),
                Err(error) => direct_receive(old(self)@, buffer@, outcome) == Err::<
                    Option<Seq<u8>>,
                    ClientError,
                >(error),
            },
    {
        if !self.open {
            return Err(ClientError::Disconnected);
        }
        match outcome {
            IoOutcome::Done(count) => if count >= READ_BUFFER_LEN {
                self.open = false;
                Err(ClientError::PacketTooLarge)
            } else {
                Ok(Some(filled(buffer, count)))
            },
            IoOutcome::WouldBlock => Ok(None),
            IoOutcome::Failed => {
                self.open = false;
                Err(ClientError::Disconnected)
            },
        }
    }

    /// Closes the socket.
    pub fn disconnect(&mut self)
        ensures
            !final(self)@,
    {
        self.open = false;
    }
}

/// A client socket as its contracts see it.
pub enum SocketView {
    /// A direct socket, open or closed.
    Direct(bool),
    /// A channel through the relay.
    Proxied(ProxiedView),
}

impl SocketView {
    /// The socket after it was closed.
    pub open spec fn closed(self) -> SocketView {
        match self {
            SocketView::Direct(_) => SocketView::Direct(false),
            SocketView::Proxied(proxied) => SocketView::Proxied(proxied.lost()),
        }
    }

    /// The socket that `connect` makes: open if direct, pending if proxied.
    pub open spec fn fresh(proxied: bool, protocol: Seq<u8>, address: Seq<u8>) -> SocketView {
        if proxied {
            SocketView::Proxied(ProxiedView::pending(setup_bytes(protocol, address)))
        } else {
            SocketView::Direct(true)
        }
    }

    /// Whether `answer` is what `connected` answers, and `after` the socket
    /// that it leaves, when a proxied socket has waited `waited` nanoseconds
    /// since `connect` and has `allowed` nanoseconds to open in. A direct
    /// socket is connected while it is open, whatever the time.
    pub open spec fn connected(
        self,
        waited: u128,
        allowed: u128,
        after: SocketView,
        answer: Result<bool, ClientError>,
    ) -> bool {
        match self {
            SocketView::Direct(open) => after == self && answer == if open {
                Ok::<bool, ClientError>(true)
            } else {
                Err::<bool, ClientError>(ClientError::Disconnected)
            },
            SocketView::Proxied(proxied) => after == SocketView::Proxied(
                proxied.timed(waited, allowed),
            ) && answer == proxied.time_check(waited, allowed),
        }
    }

    /// The socket after `send`.
    pub open spec fn sent(self, len: usize, written: IoOutcome) -> SocketView {
        match self {
            SocketView::Direct(open) => SocketView::Direct(direct_sent(open, len, written)),
            SocketView::Proxied(_) => self,
        }
    }

    /// Whether `send` succeeds.
    pub open spec fn sends(self, len: usize, written: IoOutcome) -> Result<(), ClientError> {
        match self {
            SocketView::Direct(open) => direct_send(open, len, written),
            SocketView::Proxied(proxied) => if proxied.disconnected {
                Err(ClientError::Disconnected)
            } else if proxied.connected {
                Ok(())
            } else {
                Err(ClientError::NotConnected)
            },
        }
    }

    /// The socket after `receive`.
    pub open spec fn received(self, buffer: Seq<u8>, read: IoOutcome) -> SocketView {
        match self {
            SocketView::Direct(open) => SocketView::Direct(
                open && direct_receive(open, buffer, read) is Ok,
            ),
            SocketView::Proxied(proxied) => SocketView::Proxied(proxied.taken()),
        }
    }

    /// What `receive` answers.
    pub open spec fn receives(self, buffer: Seq<u8>, read: IoOutcome) -> Result<
        Option<Seq<u8>>,
        ClientError,
    > {
        match self {
            SocketView::Direct(open) => direct_receive(open, buffer, read),
            SocketView::Proxied(proxied) => proxied.take(),
        }
    }
}

/// A stream of bytes to a TCP target.
///
/// A direct socket needs the outcome of the host's call on it: `written` is
/// that of writing the payload and `read` that of reading into the buffer. A
/// proxied socket does not look at them; its host services the channel
/// before each operation.
pub enum TcpStream {
    /// A socket of the host's own.
    Direct(Direct),
    /// A channel through the relay.
    Proxied(Proxied),
}

impl View for TcpStream {
    type V = SocketView;

    open spec fn view(&self) -> SocketView {
        match self {
            TcpStream::Direct(direct) => SocketView::Direct(direct@),
            TcpStream::Proxied(proxied) => SocketView::Proxied(proxied@),
        }
    }
}

impl TcpStream {
    /// The moment of `connect` of a proxied socket, from which the time
    /// allowed for opening runs. No operation moves it.
    pub open spec fn started(&self) -> Option<Instant> {
        match self {
            TcpStream::Direct(_) => None,
            TcpStream::Proxied(proxied) => Some(proxied.started()),
        }
    }

    /// A socket to the target at `address`, which is the address in its text
    /// form: through the relay if `proxied`, else one that the host has
    /// opened.
    pub fn connect(address: &str, proxied: bool) -> (socket: TcpStream)
        ensures
            socket@ == SocketView::fresh(proxied, "Tcp".spec_bytes(), address.spec_bytes()),
    {
        if proxied {
            TcpStream::Proxied(Proxied::connect(address, "Tcp"))
        } else {
            TcpStream::Direct(Direct::new())
        }
    }

    /// Whether the socket is connected. A direct socket is while it is open.
    /// A proxied socket is once the relay has opened the target; while it is
    /// pending, it ends when more than `timeout` has passed since `connect`.
    pub fn connected(&mut self, timeout: Duration) -> (connected: Result<bool, ClientError>)
        ensures
            exists|waited: u128| #[trigger]
                old(self)@.connected(waited, span_nanos(timeout), final(self)@, connected),
            final(self).started() == old(self).started(),
    {
        match self {
            TcpStream::Direct(direct) => {
                let connected = direct.connected();
                proof {
                    assert(old(self)@.connected(0, span_nanos(timeout), final(self)@, connected));
                }
                connected
            },
            TcpStream::Proxied(proxied) => {
                let ghost before = proxied@;
                let connected = proxied.connected(timeout);
                proof {
                    let waited = choose|waited: u128|
                        #![trigger before.timed(waited, span_nanos(timeout))]
                        proxied@ == before.timed(waited, span_nanos(timeout)) && connected
                            == before.time_check(waited, span_nanos(timeout));
                    assert(old(self)@.connected(
                        waited,
                        span_nanos(timeout),
                        final(self)@,
                        connected,
                    ));
                }
                connected
            },
        }
    }

    /// Whether the socket is connected, `waited` nanoseconds after `connect`
    /// and with `allowed` nanoseconds to open in. A proxied socket that is
    /// still pending when it has waited longer than allowed ends with a
    /// timeout.
    pub fn timed(&mut self, waited: u128, allowed: u128) -> (connected: Result<bool, ClientError>)
        ensures
            old(self)@.connected(waited, allowed, final(self)@, connected),
            final(self).started() == old(self).started(),
    {
        match self {
            TcpStream::Direct(direct) => direct.connected(),
            TcpStream::Proxied(proxied) => proxied.timed(waited, allowed),
        }
    }

    /// Sends a payload. For a direct socket, `written` is the outcome of
    /// writing `data`, and a write that did not take all of it closes the
    /// socket. For a proxied socket the answer holds the packet that carries
    /// `data`, which is to be sent reliably on the client's channel.
    pub fn send(&mut self, data: &[u8], written: IoOutcome) -> (packet: Result<
        Option<Packet>,
        ClientError,
    >)
        ensures
            final(self)@ == old(self)@.sent(data@.len() as usize, written),
            final(self).started() == old(self).started(),
            match packet {
                Ok(packet) => {
                    &&& old(self)@.sends(data@.len() as usize, written) is Ok
                    &&& packet is Some <==> old(self)@ is Proxied
                    &&& packet matches Some(packet) ==> packet_bytes(packet) == data@
                        && packet_reliable(packet)
                },
                Err(error) => old(self)@.sends(data@.len() as usize, written) == Err::<
                    (),
                    ClientError,
                >(error),
            },
    {
        match self {
            TcpStream::Direct(direct) => match direct.send(data.len(), written) {
                Ok(()) => Ok(None),
                Err(error) => Err(error),
            },
            TcpStream::Proxied(proxied) => match proxied.send(data) {
                Ok(packet) => Ok(Some(packet)),
                Err(error) => Err(error),
            },
        }
    }

    /// Receives a payload, if one is ready. For a direct socket, `read` is the
    /// outcome of reading into `buffer`, and a read that failed or filled the
    /// buffer closes the socket. A proxied socket gives the oldest payload
    /// that has arrived.
    pub fn receive(&mut self, buffer: &[u8; 4096], read: IoOutcome) -> (payload: Result<
        Option<Vec<u8>>,
        ClientError,
    >)
        ensures
            final(self)@ == old(self)@.received(buffer@, read),
            final(self).started() == old(self).started(),
            match payload {
                Ok(Some(bytes)) => old(self)@.receives(buffer@, read) == Ok::<
                    Option<Seq<u8>>,
                    ClientError,
                >(Some(bytes@)),
                Ok(None) => old(self)@.receives(buffer@, read) == Ok::<
                    Option<Seq<u8>>,
                    ClientError,
                >(None),
                Err(error) => old(self)@.receives(buffer@, read) == Err::<
                    Option<Seq<u8>>,
                    ClientError,
                >(error),
            },
    {
        match self {
            TcpStream::Direct(direct) => direct.receive(buffer, read),
            TcpStream::Proxied(proxied) => proxied.receive(),
        }
    }

    /// Closes the socket.
    pub fn disconnect(&mut self)
        ensures
            final(self)@ == old(self)@.closed(),
            final(self).started() == old(self).started(),
    {
        match self {
            TcpStream::Direct(direct) => direct.disconnect(),
            TcpStream::Proxied(proxied) => proxied.disconnect(),
        }
    }
}

/// A socket for datagrams to a UDP target.
///
/// A direct socket needs the outcome of the host's call on it: `written` is
/// that of writing the payload and `read` that of reading into the buffer. A
/// proxied socket does not look at them; its host services the channel
/// before each operation.
pub enum UdpSocket {
    /// A socket of the host's own.
    Direct(Direct),
    /// A channel through the relay.
    Proxied(Proxied),
}

impl View for UdpSocket {
    type V = SocketView;

    open spec fn view(&self) -> SocketView {
        match self {
            UdpSocket::Direct(direct) => SocketView::Direct(direct@),
            UdpSocket::Proxied(proxied) => SocketView::Proxied(proxied@),
        }
    }
}

impl UdpSocket {
    /// The moment of `connect` of a proxied socket, from which the time
    /// allowed for opening runs. No operation moves it.
    pub open spec fn started(&self) -> Option<Instant> {
        match self {
            UdpSocket::Direct(_) => None,
            UdpSocket::Proxied(proxied) => Some(proxied.started()),
        }
    }

    /// A socket to the target at `address`, which is the address in its text
    /// form: through the relay if `proxied`, else one that the host has
    /// opened.
    pub fn connect(address: &str, proxied: bool) -> (socket: UdpSocket)
        ensures
            socket@ == SocketView::fresh(proxied, "Udp".spec_bytes(), address.spec_bytes()),
    {
        if proxied {
            UdpSocket::Proxied(Proxied::connect(address, "Udp"))
        } else {
            UdpSocket::Direct(Direct::new())
        }
    }

    /// Whether the socket is connected. A direct socket is while it is open.
    /// A proxied socket is once the relay has opened the target; while it is
    /// pending, it ends when more than `timeout` has passed since `connect`.
    pub fn connected(&mut self, timeout: Duration) -> (connected: Result<bool, ClientError>)
        ensures
            exists|waited: u128| #[trigger]
                old(self)@.connected(waited, span_nanos(timeout), final(self)@, connected),
            final(self).started() == old(self).started(),
    {
        match self {
            UdpSocket::Direct(direct) => {
                let connected = direct.connected();
                proof {
                    assert(old(self)@.connected(0, span_nanos(timeout), final(self)@, connected));
                }
                connected
            },
            UdpSocket::Proxied(proxied) => {
                let ghost before = proxied@;
                let connected = proxied.connected(timeout);
                proof {
                    let waited = choose|waited: u128|
                        #![trigger before.timed(waited, span_nanos(timeout))]
                        proxied@ == before.timed(waited, span_nanos(timeout)) && connected
                            == before.time_check(waited, span_nanos(timeout));
                    assert(old(self)@.connected(
                        waited,
                        span_nanos(timeout),
                        final(self)@,
                        connected,
                    ));
                }
                connected
            },
        }
    }

    /// Whether the socket is connected, `waited` nanoseconds after `connect`
    /// and with `allowed` nanoseconds to open in. A proxied socket that is
    /// still pending when it has waited longer than allowed ends with a
    /// timeout.
    pub fn timed(&mut self, waited: u128, allowed: u128) -> (connected: Result<bool, ClientError>)
        ensures
            old(self)@.connected(waited, allowed, final(self)@, connected),
            final(self).started() == old(self).started(),
    {
        match self {
            UdpSocket::Direct(direct) => direct.connected(),
            UdpSocket::Proxied(proxied) => proxied.timed(waited, allowed),
        }
    }

    /// Sends a payload. For a direct socket, `written` is the outcome of
    /// writing `data`, and a write that did not take all of it closes the
    /// socket. For a proxied socket the answer holds the packet that carries
    /// `data`, which is to be sent reliably on the client's channel.
    pub fn send(&mut self, data: &[u8], written: IoOutcome) -> (packet: Result<
        Option<Packet>,
        ClientError,
    >)
        ensures
            final(self)@ == old(self)@.sent(data@.len() as usize, written),
            final(self).started() == old(self).started(),
            match packet {
                Ok(packet) => {
                    &&& old(self)@.sends(data@.len() as usize, written) is Ok
                    &&& packet is Some <==> old(self)@ is Proxied
                    &&& packet matches Some(packet) ==> packet_bytes(packet) == data@
                        && packet_reliable(packet)
                },
                Err(error) => old(self)@.sends(data@.len() as usize, written) == Err::<
                    (),
                    ClientError,
                >(error),
            },
    {
        match self {
            UdpSocket::Direct(direct) => match direct.send(data.len(), written) {
                Ok(()) => Ok(None),
                Err(error) => Err(error),
            },
            UdpSocket::Proxied(proxied) => match proxied.send(data) {
                Ok(packet) => Ok(Some(packet)),
                Err(error) => Err(error),
            },
        }
    }

    /// Receives a payload, if one is ready. For a direct socket, `read` is the
    /// outcome of reading into `buffer`, and a read that failed or filled the
    /// buffer closes the socket. A proxied socket gives the oldest payload
    /// that has arrived.
    pub fn receive(&mut self, buffer: &[u8; 4096], read: IoOutcome) -> (payload: Result<
        Option<Vec<u8>>,
        ClientError,
    >)
        ensures
            final(self)@ == old(self)@.received(buffer@, read),
            final(self).started() == old(self).started(),
            match payload {
                Ok(Some(bytes)) => old(self)@.receives(buffer@, read) == Ok::<
                    Option<Seq<u8>>,
                    ClientError,
                >(Some(bytes@)),
                Ok(None) => old(self)@.receives(buffer@, read) == Ok::<
                    Option<Seq<u8>>,
                    ClientError,
                >(None),
                Err(error) => old(self)@.receives(buffer@, read) == Err::<
                    Option<Seq<u8>>,
                    ClientError,
                >(error),
            },
    {
        match self {
            UdpSocket::Direct(direct) => direct.receive(buffer, read),
            UdpSocket::Proxied(proxied) => proxied.receive(),
        }
    }

    /// Closes the socket.
    pub fn disconnect(&mut self)
        ensures
            final(self)@ == old(self)@.closed(),
            final(self).started() == old(self).started(),
    {
        match self {
            UdpSocket::Direct(direct) => direct.disconnect(),
            UdpSocket::Proxied(proxied) => proxied.disconnect(),
        }
    }
}

} // verus!
