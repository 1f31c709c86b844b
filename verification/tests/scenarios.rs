use rusty_enet::Packet;
use std::collections::VecDeque;
use std::time::{Duration, Instant};
use webrtc_proxy::address::SocketAddress;
use webrtc_proxy::channel::{
    ChannelConfig, ChannelError, ChannelStatus, ChannelStream, Worker, WorkerAction, WorkerEvent,
};
use webrtc_proxy::client::{ClientError, Proxied, TransportEvent};
use webrtc_proxy::echo::EchoChannelStream;
use webrtc_proxy::io::{stream_received, IoOutcome};
use webrtc_proxy::relay::{Relay, RelayAction, RelayEvent};

const PEER: usize = 0;

/// A driver that answers each payload it is sent with the next canned reply.
struct Scripted {
    replies: VecDeque<Vec<u8>>,
    ready: VecDeque<Vec<u8>>,
    sent: Vec<Vec<u8>>,
}

impl Scripted {
    fn new(replies: &[&[u8]]) -> Self {
        Scripted {
            replies: replies.iter().map(|reply| reply.to_vec()).collect(),
            ready: VecDeque::new(),
            sent: Vec::new(),
        }
    }
}

impl ChannelStream for Scripted {
    fn status(&mut self) -> Result<ChannelStatus, ChannelError> {
        Ok(ChannelStatus::Connected)
    }

    fn send(&mut self, data: Vec<u8>) -> Result<(), ChannelError> {
        self.sent.push(data);
        if let Some(reply) = self.replies.pop_front() {
            self.ready.push_back(reply);
        }
        Ok(())
    }

    fn receive(&mut self) -> Result<Option<Vec<u8>>, ChannelError> {
        Ok(self.ready.pop_front())
    }
}

/// A driver whose socket fills the whole read buffer.
struct Oversized;

impl ChannelStream for Oversized {
    fn status(&mut self) -> Result<ChannelStatus, ChannelError> {
        Ok(ChannelStatus::Connected)
    }

    fn send(&mut self, _data: Vec<u8>) -> Result<(), ChannelError> {
        Ok(())
    }

    fn receive(&mut self) -> Result<Option<Vec<u8>>, ChannelError> {
        let buffer = [7u8; 4096];
        stream_received(&buffer, IoOutcome::Done(4096))
    }
}

/// The queues and the worker of one channel, with its driver.
struct Channel<D: ChannelStream> {
    worker: Worker,
    action: WorkerAction,
    driver: D,
    inbound: VecDeque<Vec<u8>>,
    outbound: VecDeque<Vec<u8>>,
    alive: bool,
}

impl<D: ChannelStream> Channel<D> {
    fn new(driver: D) -> Self {
        Channel {
            worker: Worker::new(),
            action: WorkerAction::Status,
            driver,
            inbound: VecDeque::new(),
            outbound: VecDeque::new(),
            alive: true,
        }
    }

    /// Runs the worker up to its next pause, or to its end.
    fn round(&mut self) {
        while self.alive {
            let action = std::mem::replace(&mut self.action, WorkerAction::Status);
            let event = match action {
                WorkerAction::Status => match self.driver.status() {
                    Ok(status) => WorkerEvent::Status(status),
                    Err(_) => WorkerEvent::Failed,
                },
                WorkerAction::Announce => {
                    self.outbound.push_back(Vec::new());
                    WorkerEvent::Done
                }
                WorkerAction::Emit(data) => {
                    self.outbound.push_back(data);
                    WorkerEvent::Done
                }
                WorkerAction::Poll => WorkerEvent::Polled(self.inbound.pop_front()),
                WorkerAction::Send(data) => match self.driver.send(data) {
                    Ok(()) => WorkerEvent::Done,
                    Err(_) => WorkerEvent::Failed,
                },
                WorkerAction::Receive => match self.driver.receive() {
                    Ok(payload) => WorkerEvent::Received(payload),
                    Err(_) => WorkerEvent::Failed,
                },
                WorkerAction::Sleep => {
                    self.action = self.worker.step(WorkerEvent::Done);
                    return;
                }
                WorkerAction::Stop => {
                    self.alive = false;
                    return;
                }
            };
            self.action = self.worker.step(event);
        }
    }
}

/// Reads a request as the relay's host does for the three targets of these
/// scenarios.
fn parse(request: &[u8]) -> Option<ChannelConfig> {
    if request == b"{\"Echo\":null}" {
        Some(ChannelConfig::Echo)
    } else if request == b"{\"Tcp\":\"93.184.216.34:80\"}" {
        Some(ChannelConfig::Tcp(SocketAddress::V4 { octets: [93, 184, 216, 34], port: 80 }))
    } else if request == b"{\"Udp\":\"127.0.0.1:9999\"}" {
        Some(ChannelConfig::Udp(SocketAddress::V4 { octets: [127, 0, 0, 1], port: 9999 }))
    } else {
        None
    }
}

/// One client with one channel, the relay, and what is on the wire between
/// them.
struct Tunnel<D: ChannelStream> {
    relay: Relay,
    channel: Option<Channel<D>>,
    driver: Option<D>,
    channel_id: u8,
    to_client: VecDeque<(u8, Vec<u8>)>,
    opened: Option<ChannelConfig>,
}

impl<D: ChannelStream> Tunnel<D> {
    fn new(driver: D, channel_id: u8) -> Self {
        let mut relay = Relay::new();
        relay.step(RelayEvent::Connect { peer: PEER });
        Tunnel { relay, channel: None, driver: Some(driver), channel_id, to_client: VecDeque::new(), opened: None }
    }

    fn act(&mut self, action: RelayAction) {
        match action {
            RelayAction::Nothing => {}
            RelayAction::Discard { .. } => self.channel = None,
            RelayAction::Parse { peer, channel_id, request } => {
                let config = parse(&request);
                let next = self.relay.step(RelayEvent::Setup { peer, channel_id, config });
                self.act(next);
            }
            RelayAction::Open { config, channel_id, .. } => {
                assert_eq!(channel_id, self.channel_id);
                self.opened = Some(config);
                self.channel = self.driver.take().map(Channel::new);
            }
            RelayAction::Forward { data, .. } => {
                if let Some(channel) = &mut self.channel {
                    channel.inbound.push_back(data);
                }
            }
            RelayAction::Send { channel_id, packet, .. } => {
                self.to_client.push_back((channel_id, packet.data().to_vec()))
            }
            RelayAction::Close { channel_id, packet, .. } => {
                self.to_client.push_back((channel_id, packet.data().to_vec()))
            }
            RelayAction::Reap { channel_id, packet, .. } => {
                self.channel = None;
                self.to_client.push_back((channel_id, packet.data().to_vec()));
            }
            RelayAction::Hangup { .. } => {}
        }
    }

    /// A packet from the client reaches the relay.
    fn from_client(&mut self, bytes: &[u8]) {
        let packet = Packet::reliable(bytes);
        let action = self.relay.step(RelayEvent::Receive { peer: PEER, channel_id: self.channel_id, packet });
        self.act(action);
    }

    /// One tick: the worker runs a round and the relay scans its queue.
    fn tick(&mut self) {
        let mut events = Vec::new();
        if let Some(channel) = &mut self.channel {
            channel.round();
            while let Some(payload) = channel.outbound.pop_front() {
                events.push(RelayEvent::Outbound { peer: PEER, channel_id: self.channel_id, payload });
            }
            if !channel.alive {
                events.push(RelayEvent::Ended { peer: PEER, channel_id: self.channel_id });
            }
        }
        for event in events {
            let action = self.relay.step(event);
            self.act(action);
        }
    }

    /// The client services what has reached it, one packet after the other,
    /// up to the first failure.
    fn deliver(&mut self, client: &mut Proxied) -> Result<(), ClientError> {
        while let Some((channel_id, bytes)) = self.to_client.pop_front() {
            let packet = Packet::reliable(bytes.as_slice());
            client.service(TransportEvent::Receive { channel_id, packet })?;
        }
        Ok(())
    }
}

/// The client reaches the relay and its request crosses.
fn open<D: ChannelStream>(tunnel: &mut Tunnel<D>, client: &mut Proxied) {
    let request = match client.service(TransportEvent::Connect) {
        Ok(Some(packet)) => packet.data().to_vec(),
        other => panic!("{:?}", other),
    };
    assert_eq!(client.setup_sent(true), Ok(()));
    tunnel.from_client(&request);
}

/// The client sends a payload and it crosses.
fn send<D: ChannelStream>(tunnel: &mut Tunnel<D>, client: &mut Proxied, data: &[u8]) {
    let packet = client.send(data).expect("connected");
    assert_eq!(client.data_sent(true), Ok(()));
    tunnel.from_client(packet.data());
}

#[test]
fn echo_round_trip() {
    let mut tunnel = Tunnel::new(EchoChannelStream::new(), 0);
    let mut client = Proxied::connect("0.0.0.0:0", "Tcp");
    assert!(matches!(client.service(TransportEvent::Connect), Ok(Some(_))));
    tunnel.from_client(b"{\"Echo\":null}");
    assert!(matches!(tunnel.opened, Some(ChannelConfig::Echo)));
    assert_eq!(client.connected(Duration::from_secs(3)), Ok(false));

    tunnel.tick();
    assert_eq!(tunnel.deliver(&mut client), Ok(()));
    assert_eq!(client.connected(Duration::from_secs(3)), Ok(true));
    assert_eq!(client.receive(), Ok(None));

    send(&mut tunnel, &mut client, b"ping");
    tunnel.tick();
    assert_eq!(tunnel.deliver(&mut client), Ok(()));
    assert_eq!(client.receive(), Ok(Some(b"ping".to_vec())));
    assert_eq!(client.receive(), Ok(None));

    let idle = Instant::now();
    while idle.elapsed() < Duration::from_millis(3100) {}
    tunnel.tick();
    assert!(tunnel.channel.is_none());
    assert!(!tunnel.relay.has_channel(PEER, 0));
    assert_eq!(tunnel.deliver(&mut client), Err(ClientError::Disconnected));
    assert_eq!(client.receive(), Err(ClientError::Disconnected));
}

#[test]
fn http_get_through_the_tcp_proxy() {
    let reply: &[u8] = b"HTTP/1.1 200 OK\r\nContent-Length: 0\r\n\r\n";
    let mut tunnel = Tunnel::new(Scripted::new(&[reply]), 0);
    let mut client = Proxied::connect("93.184.216.34:80", "Tcp");
    open(&mut tunnel, &mut client);
    match tunnel.opened {
        Some(ChannelConfig::Tcp(SocketAddress::V4 { octets, port })) => {
            assert_eq!(octets, [93, 184, 216, 34]);
            assert_eq!(port, 80);
        }
        other => panic!("{:?}", other),
    }
    tunnel.tick();
    assert_eq!(tunnel.deliver(&mut client), Ok(()));
    assert!(client.is_connected());

    let request: &[u8] = b"GET / HTTP/1.1\r\nHost: example.com\r\n\r\n";
    send(&mut tunnel, &mut client, request);
    tunnel.tick();
    assert_eq!(tunnel.channel.as_ref().map(|channel| channel.driver.sent.clone()), Some(vec![request.to_vec()]));
    assert_eq!(tunnel.deliver(&mut client), Ok(()));
    let first = client.receive().expect("live").expect("a payload");
    assert!(first.starts_with(b"HTTP/1."));
    assert_eq!(first, reply.to_vec());
}

#[test]
fn udp_echo_through_the_proxy() {
    let mut tunnel = Tunnel::new(Scripted::new(&[&[1, 2, 3]]), 0);
    let mut client = Proxied::connect("127.0.0.1:9999", "Udp");
    open(&mut tunnel, &mut client);
    assert!(matches!(tunnel.opened, Some(ChannelConfig::Udp(_))));
    tunnel.tick();
    assert_eq!(tunnel.deliver(&mut client), Ok(()));
    assert!(client.is_connected());

    send(&mut tunnel, &mut client, &[1, 2, 3]);
    tunnel.tick();
    assert_eq!(tunnel.deliver(&mut client), Ok(()));
    assert_eq!(client.receive(), Ok(Some(vec![1, 2, 3])));
}

#[test]
fn malformed_setup_is_refused() {
    let mut tunnel = Tunnel::new(Scripted::new(&[]), 5);
    tunnel.from_client(b"not json");
    assert_eq!(tunnel.to_client.pop_front(), Some((5, vec![0])));
    assert_eq!(tunnel.to_client.pop_front(), None);
    assert!(!tunnel.relay.has_channel(PEER, 5));
    assert!(tunnel.channel.is_none());
    assert!(tunnel.opened.is_none());
}

#[test]
fn oversize_read_ends_the_channel() {
    let mut tunnel = Tunnel::new(Oversized, 0);
    let mut client = Proxied::connect("93.184.216.34:80", "Tcp");
    open(&mut tunnel, &mut client);
    assert!(tunnel.relay.has_channel(PEER, 0));
    tunnel.tick();
    assert!(!tunnel.relay.has_channel(PEER, 0));
    assert!(tunnel.channel.is_none());
    let wire: Vec<(u8, Vec<u8>)> = tunnel.to_client.iter().cloned().collect();
    assert_eq!(wire, vec![(0, vec![1]), (0, vec![0])]);
    assert!(wire.iter().all(|(_, bytes)| bytes.len() < 4096));
    assert_eq!(tunnel.deliver(&mut client), Err(ClientError::Disconnected));
    assert_eq!(client.receive(), Err(ClientError::Disconnected));
}

#[test]
fn connect_timeout() {
    let mut client = Proxied::connect("93.184.216.34:80", "Tcp");
    assert!(matches!(client.service(TransportEvent::Idle), Ok(None)));
    assert_eq!(client.connected(Duration::from_secs(3)), Ok(false));
    let start = Instant::now();
    while start.elapsed() <= Duration::from_secs(3) {
        assert!(matches!(client.service(TransportEvent::Idle), Ok(None)));
    }
    assert_eq!(client.connected(Duration::from_secs(3)), Err(ClientError::Timeout));
    assert!(start.elapsed() >= Duration::from_secs(3));
    assert!(matches!(client.service(TransportEvent::Idle), Err(ClientError::Disconnected)));
    assert_eq!(client.connected(Duration::from_secs(3)), Err(ClientError::Disconnected));
    assert!(matches!(client.send(b"x"), Err(ClientError::Disconnected)));
    assert_eq!(client.receive(), Err(ClientError::Disconnected));
}

#[test]
fn payloads_of_every_size_cross_whole() {
    let sizes = [1usize, 2, 100, 4094, 4095];
    let bodies: Vec<Vec<u8>> =
        sizes.iter().map(|&size| (0..size).map(|i| (i * 7 % 256) as u8).collect()).collect();
    let replies: Vec<&[u8]> = bodies.iter().map(|body| body.as_slice()).collect();
    let mut tunnel = Tunnel::new(Scripted::new(&replies), 0);
    let mut client = Proxied::connect("127.0.0.1:9999", "Udp");
    open(&mut tunnel, &mut client);
    tunnel.tick();
    assert_eq!(tunnel.deliver(&mut client), Ok(()));
    for body in &bodies {
        send(&mut tunnel, &mut client, b"next");
        tunnel.tick();
        assert_eq!(tunnel.deliver(&mut client), Ok(()));
        assert_eq!(client.receive(), Ok(Some(body.clone())));
        assert_eq!(client.receive(), Ok(None));
    }
}

#[test]
fn a_client_that_leaves_takes_its_channels_along() {
    let mut tunnel = Tunnel::new(EchoChannelStream::new(), 0);
    tunnel.from_client(b"{\"Echo\":null}");
    tunnel.tick();
    assert!(tunnel.channel.is_some());
    let action = tunnel.relay.step(RelayEvent::Disconnect { peer: PEER });
    tunnel.act(action);
    assert!(tunnel.channel.is_none());
    assert!(!tunnel.relay.has_session(PEER));
    assert!(!tunnel.relay.has_channel(PEER, 0));
}
