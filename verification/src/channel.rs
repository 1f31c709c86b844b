//! The relay's end of one channel: the target it is bound to, the driver that
//! speaks to the target, and the worker that moves payloads between the
//! driver and the relay's main loop.

use crate::address::SocketAddress;
use vstd::prelude::*;

verus! {

/// The target that a client asks the relay to open on a channel.
#[derive(Debug, Clone, Copy)]
pub enum ChannelConfig {
    /// A loopback that hands back what it is sent.
    Echo,
    /// A TCP connection to the address.
    Tcp(SocketAddress),
    /// A UDP socket connected to the address.
    Udp(SocketAddress),
}

/// How a driver stands with its target.
#[derive(Debug, Clone, Copy, PartialEq, Eq, Structural)]
pub enum ChannelStatus {
    Connecting,
    Connected,
    Disconnected,
}

/// Why a driver failed.
#[derive(Debug, Clone, Copy, PartialEq, Eq, Structural)]
pub enum ChannelError {
    /// The target has closed the connection.
    Disconnected,
    /// The socket took only a part of the payload, or a read filled the whole
    /// buffer.
    PacketTooLarge,
    /// The socket reported an error.
    Io,
}

impl ChannelError {
    /// The error in words.
    pub fn message(&self) -> (text: &'static str)
        ensures
            text@ == match *self {
                ChannelError::Disconnected => "Disconnected."@,
                ChannelError::PacketTooLarge => "Packet too large."@,
                ChannelError::Io => "Socket error."@,
            },
    {
        match self {
            ChannelError::Disconnected => "Disconnected.",
            ChannelError::PacketTooLarge => "Packet too large.",
            ChannelError::Io => "Socket error.",
        }
    }
}

/// A driver: the endpoint behind a channel. No call blocks.
pub trait ChannelStream {
    /// How the driver stands with its target.
    fn status(&mut self) -> Result<ChannelStatus, ChannelError>;

    /// Sends one payload to the target.
    fn send(&mut self, data: Vec<u8>) -> Result<(), ChannelError>;

    /// Takes one payload that has come from the target, if one is ready.
    fn receive(&mut self) -> Result<Option<Vec<u8>>, ChannelError>;
}

/// What a worker has asked its host to do and waits to hear of.
#[derive(Debug, Clone, Copy, PartialEq, Eq, Structural)]
pub enum Phase {
    /// The driver's status.
    Status,
    /// The handshake payload being put on the outbound queue.
    Announcing,
    /// A poll of the inbound queue.
    Polling,
    /// A payload being sent by the driver.
    Sending,
    /// A payload being taken from the driver.
    Draining,
    /// A payload being put on the outbound queue.
    Emitting,
    /// The pause between two rounds.
    Sleeping,
    /// Nothing: the worker has ended.
    Stopped,
}

/// What the host of a worker is to do next.
#[derive(Debug, PartialEq, Eq)]
pub enum WorkerAction {
    /// Ask the driver for its status.
    Status,
    /// Put an empty payload on the outbound queue: the handshake, which tells
    /// the client that the target is open.
    Announce,
    /// Put the payload on the outbound queue.
    Emit(Vec<u8>),
    /// Poll the inbound queue, without waiting, for one payload.
    Poll,
    /// Have the driver send the payload.
    Send(Vec<u8>),
    /// Ask the driver for one payload.
    Receive,
    /// Pause for one tick.
    Sleep,
    /// End: drop the driver and both queues.
    Stop,
}

/// What became of the action that a worker asked for.
#[derive(Debug, PartialEq, Eq)]
pub enum WorkerEvent {
    /// The driver reported its status.
    Status(ChannelStatus),
    /// The inbound queue was polled: it held the payload, or nothing.
    Polled(Option<Vec<u8>>),
    /// The driver was asked for a payload: it had this one, or none ready.
    Received(Option<Vec<u8>>),
    /// The action was carried out and has nothing to report.
    Done,
    /// The driver reported an error, or the other end of a queue is gone.
    Failed,
}

/// A worker's action as its contracts see it.
pub enum ActionView {
    Status,
    Announce,
    Emit(Seq<u8>),
    Poll,
    Send(Seq<u8>),
    Receive,
    Sleep,
    Stop,
}

/// A worker's event as its contracts see it.
pub enum EventView {
    Status(ChannelStatus),
    Polled(Option<Seq<u8>>),
    Received(Option<Seq<u8>>),
    Done,
    Failed,
}

impl View for WorkerAction {
    type V = ActionView;

    open spec fn view(&self) -> ActionView {
        match *self {
            WorkerAction::Status => ActionView::Status,
            WorkerAction::Announce => ActionView::Announce,
            WorkerAction::Emit(data) => ActionView::Emit(data@),
            WorkerAction::Poll => ActionView::Poll,
            WorkerAction::Send(data) => ActionView::Send(data@),
            WorkerAction::Receive => ActionView::Receive,
            WorkerAction::Sleep => ActionView::Sleep,
            WorkerAction::Stop => ActionView::Stop,
        }
    }
}

impl View for WorkerEvent {
    type V = EventView;

    open spec fn view(&self) -> EventView {
        match *self {
            WorkerEvent::Status(status) => EventView::Status(status),
            WorkerEvent::Polled(Some(data)) => EventView::Polled(Some(data@)),
            WorkerEvent::Polled(None) => EventView::Polled(None),
            WorkerEvent::Received(Some(data)) => EventView::Received(Some(data@)),
            WorkerEvent::Received(None) => EventView::Received(None),
            WorkerEvent::Done => EventView::Done,
            WorkerEvent::Failed => EventView::Failed,
        }
    }
}

/// A worker as its contracts see it.
pub struct WorkerView {
    /// What the worker waits to hear of.
    pub phase: Phase,
    /// Whether the handshake payload is on the outbound queue.
    pub announced: bool,
}

impl WorkerView {
    /// A worker that has asked for nothing yet but the driver's status.
    pub open spec fn fresh() -> WorkerView {
        WorkerView { phase: Phase::Status, announced: false }
    }

    /// The worker in another phase.
    pub open spec fn at(self, phase: Phase) -> WorkerView {
        WorkerView { phase, ..self }
    }

    /// The worker after `event`, and what it asks for next.
    ///
    /// One round asks the driver for its status. While the driver is
    /// connecting the round is over. When the driver is connected, the round
    /// announces the handshake if no round has yet, hands at most one inbound
    /// payload to the driver, and then passes on what the driver has until it
    /// has nothing ready. A pause follows each round. The worker ends when the
    /// driver is disconnected, on any failure, and when an event is not the
    /// answer to what it asked for.
    pub open spec fn next(self, event: EventView) -> (WorkerView, ActionView) {
        match (self.phase, event) {
            (Phase::Status, EventView::Status(ChannelStatus::Connecting)) => (
                self.at(Phase::Sleeping),
                ActionView::Sleep,
            ),
            (Phase::Status, EventView::Status(ChannelStatus::Connected)) => if self.announced {
                (self.at(Phase::Polling), ActionView::Poll)
            } else {
                (self.at(Phase::Announcing), ActionView::Announce)
            },
            (Phase::Announcing, EventView::Done) => (
                WorkerView { phase: Phase::Polling, announced: true },
                ActionView::Poll,
            ),
            (Phase::Polling, EventView::Polled(Some(data))) => (
                self.at(Phase::Sending),
                ActionView::Send(data),
            ),
            (Phase::Polling, EventView::Polled(None)) => (
                self.at(Phase::Draining),
                ActionView::Receive,
            ),
            (Phase::Sending, EventView::Done) => (self.at(Phase::Draining), ActionView::Receive),
            (Phase::Draining, EventView::Received(Some(data))) => (
                self.at(Phase::Emitting),
                ActionView::Emit(data),
            ),
            (Phase::Draining, EventView::Received(None)) => (
                self.at(Phase::Sleeping),
                ActionView::Sleep,
            ),
            (Phase::Emitting, EventView::Done) => (self.at(Phase::Draining), ActionView::Receive),
            (Phase::Sleeping, EventView::Done) => (self.at(Phase::Status), ActionView::Status),
            _ => (self.at(Phase::Stopped), ActionView::Stop),
        }
    }
}

/// The worker of one channel: the decisions of its loop.
///
/// The host starts with the action `Status`, carries out each action and
/// hands what became of it to `step`, which names the next action, until that
/// is `Stop`.
pub struct Worker {
    phase: Phase,
    announced: bool,
}

impl View for Worker {
    type V = WorkerView;

    closed spec fn view(&self) -> WorkerView {
        WorkerView { phase: self.phase, announced: self.announced }
    }
}

impl Worker {
    /// A worker that waits for its driver's status.
    pub fn new() -> (worker: Worker)
        ensures
            worker@ == WorkerView::fresh(),
    {
        Worker { phase: Phase::Status, announced: false }
    }

    /// What the worker waits to hear of.
    pub fn phase(&self) -> (phase: Phase)
        ensures
            phase == self@.phase,
    {
        self.phase
    }

    /// Whether the handshake payload is on the outbound queue.
    pub fn announced(&self) -> (announced: bool)
        ensures
            announced == self@.announced,
    {
        self.announced
    }

    /// Takes in what became of the last action and names the next one.
    pub fn step(&mut self, event: WorkerEvent) -> (action: WorkerAction)
        ensures
            (final(self)@, action@) == old(self)@.next(event@),
    {
        let (phase, action) = match (self.phase, event) {
            (Phase::Status, WorkerEvent::Status(ChannelStatus::Connecting)) => (
                Phase::Sleeping,
                WorkerAction::Sleep,
            ),
            (Phase::Status, WorkerEvent::Status(ChannelStatus::Connected)) => if self.announced {
                (Phase::Polling, WorkerAction::Poll)
            } else {
                (Phase::Announcing, WorkerAction::Announce)
            },
            (Phase::Announcing, WorkerEvent::Done) => {
                self.announced = true;
                (Phase::Polling, WorkerAction::Poll)
            },
            (Phase::Polling, WorkerEvent::Polled(Some(data))) => (
                Phase::Sending,
                WorkerAction::Send(data),
            ),
            (Phase::Polling, WorkerEvent::Polled(None)) => (Phase::Draining, WorkerAction::Receive),
            (Phase::Sending, WorkerEvent::Done) => (Phase::Draining, WorkerAction::Receive),
            (Phase::Draining, WorkerEvent::Received(Some(data))) => (
                Phase::Emitting,
                WorkerAction::Emit(data),
            ),
            (Phase::Draining, WorkerEvent::Received(None)) => (
                Phase::Sleeping,
                WorkerAction::Sleep,
            ),
            (Phase::Emitting, WorkerEvent::Done) => (Phase::Draining, WorkerAction::Receive),
            (Phase::Sleeping, WorkerEvent::Done) => (Phase::Status, WorkerAction::Status),
            _ => (Phase::Stopped, WorkerAction::Stop),
        };
        self.phase = phase;
        action
    }
}

impl WorkerView {
    /// Whether the worker handles payloads only after the handshake: true of
    /// every worker that a run of events has led to from a new one.
    pub open spec fn settled(self) -> bool {
        (self.phase == Phase::Polling || self.phase == Phase::Sending || self.phase
            == Phase::Draining || self.phase == Phase::Emitting) ==> self.announced
    }

    /// The worker after a run of events.
    pub open spec fn run(self, events: Seq<EventView>) -> WorkerView
        decreases events.len(),
    {
        if events.len() == 0 {
            self
        } else {
            self.next(events[0]).0.run(events.skip(1))
        }
    }

    /// How often the worker announces the handshake in a run of events.
    pub open spec fn announcements(self, events: Seq<EventView>) -> nat
        decreases events.len(),
    {
        if events.len() == 0 {
            0
        } else {
            let (after, action) = self.next(events[0]);
            let announced: nat = if action is Announce {
                1
            } else {
                0
            };
            announced + after.announcements(events.skip(1))
        }
    }
}

/// The worker announces the handshake when it sees its driver connected and
/// has not announced before, and at no other time.
pub proof fn announces_when_connected(worker: WorkerView, event: EventView)
    ensures
        worker.next(event).1 is Announce <==> worker.phase == Phase::Status && !worker.announced
            && event == EventView::Status(ChannelStatus::Connected),
{
}

/// A run in which nothing is announced any more: one from a worker that has
/// announced, is announcing or has ended.
proof fn announced_run(worker: WorkerView, events: Seq<EventView>)
    requires
        worker.announced || worker.phase == Phase::Announcing || worker.phase == Phase::Stopped,
    ensures
        worker.announcements(events) == 0,
    decreases events.len(),
{
    if events.len() > 0 {
        announced_run(worker.next(events[0]).0, events.skip(1));
    }
}

/// Whatever the events, a worker announces the handshake at most once.
pub proof fn announces_at_most_once(worker: WorkerView, events: Seq<EventView>)
    ensures
        worker.announcements(events) <= 1,
    decreases events.len(),
{
    if events.len() > 0 {
        let (after, action) = worker.next(events[0]);
        if action is Announce {
            announced_run(after, events.skip(1));
        } else {
            announces_at_most_once(after, events.skip(1));
        }
    }
}

/// The handshake comes before every payload: a new worker is settled, every
/// event leaves a settled worker settled, and a settled worker passes a
/// payload on, to the driver or to the relay, only once it has announced.
pub proof fn handshake_comes_first(worker: WorkerView, events: Seq<EventView>, event: EventView)
    ensures
        WorkerView::fresh().settled(),
        worker.settled() ==> worker.next(event).0.settled(),
        worker.settled() ==> worker.run(events).settled(),
        worker.settled() && (worker.next(event).1 is Emit || worker.next(event).1 is Send)
            ==> worker.announced,
    decreases events.len(),
{
    if events.len() > 0 && worker.settled() {
        handshake_comes_first(worker.next(events[0]).0, events.skip(1), event);
    }
}

/// The worker passes payloads on as they are: what it has the driver send is
/// the payload that the poll brought, and what it puts on the outbound queue
/// is the payload that the driver gave.
pub proof fn payloads_pass_unchanged(worker: WorkerView, event: EventView)
    ensures
        worker.next(event).1 matches ActionView::Send(data) ==> event == EventView::Polled(
            Some(data),
        ),
        worker.next(event).1 matches ActionView::Emit(data) ==> event == EventView::Received(
            Some(data),
        ),
{
}

/// A worker that has ended stays ended.
pub proof fn stopped_is_final(worker: WorkerView, events: Seq<EventView>)
    requires
        worker.phase == Phase::Stopped,
    ensures
        worker.run(events) == worker,
        events.len() > 0 ==> worker.next(events[0]) == (worker, ActionView::Stop),
    decreases events.len(),
{
    if events.len() > 0 {
        stopped_is_final(worker, events.skip(1));
    }
}

/// A failure ends the worker, whatever it was waiting for, and so does a
/// driver that is disconnected.
pub proof fn failure_stops(worker: WorkerView)
    ensures
        worker.next(EventView::Failed) == (worker.at(Phase::Stopped), ActionView::Stop),
        worker.next(EventView::Status(ChannelStatus::Disconnected)) == (
            worker.at(Phase::Stopped),
            ActionView::Stop,
        ),
{
}

} // verus!
