use webrtc_proxy::channel::{
    ChannelError, ChannelStatus, ChannelStream, Phase, Worker, WorkerAction, WorkerEvent,
};
use webrtc_proxy::echo::{echo_status, EchoChannelStream, ECHO_LIFETIME_NANOS};

fn announced() -> Worker {
    let mut worker = Worker::new();
    assert_eq!(
        worker.step(WorkerEvent::Status(ChannelStatus::Connected)),
        WorkerAction::Announce
    );
    assert_eq!(worker.step(WorkerEvent::Done), WorkerAction::Poll);
    worker
}

#[test]
fn a_new_worker_waits_for_the_status() {
    let worker = Worker::new();
    assert_eq!(worker.phase(), Phase::Status);
    assert!(!worker.announced());
}

#[test]
fn a_connecting_driver_makes_the_worker_sleep() {
    let mut worker = Worker::new();
    assert_eq!(worker.step(WorkerEvent::Status(ChannelStatus::Connecting)), WorkerAction::Sleep);
    assert_eq!(worker.phase(), Phase::Sleeping);
    assert_eq!(worker.step(WorkerEvent::Done), WorkerAction::Status);
    assert_eq!(worker.phase(), Phase::Status);
    assert!(!worker.announced());
}

#[test]
fn the_first_connected_status_is_announced() {
    let mut worker = Worker::new();
    assert_eq!(
        worker.step(WorkerEvent::Status(ChannelStatus::Connected)),
        WorkerAction::Announce
    );
    assert_eq!(worker.phase(), Phase::Announcing);
    assert!(!worker.announced());
    assert_eq!(worker.step(WorkerEvent::Done), WorkerAction::Poll);
    assert!(worker.announced());
    assert_eq!(worker.phase(), Phase::Polling);
}

#[test]
fn an_announcement_that_fails_ends_the_worker() {
    let mut worker = Worker::new();
    worker.step(WorkerEvent::Status(ChannelStatus::Connected));
    assert_eq!(worker.step(WorkerEvent::Failed), WorkerAction::Stop);
    assert_eq!(worker.phase(), Phase::Stopped);
    assert!(!worker.announced());
}

#[test]
fn a_round_without_traffic() {
    let mut worker = announced();
    assert_eq!(worker.step(WorkerEvent::Polled(None)), WorkerAction::Receive);
    assert_eq!(worker.step(WorkerEvent::Received(None)), WorkerAction::Sleep);
    assert_eq!(worker.step(WorkerEvent::Done), WorkerAction::Status);
    assert_eq!(worker.step(WorkerEvent::Status(ChannelStatus::Connected)), WorkerAction::Poll);
}

#[test]
fn an_inbound_payload_goes_to_the_driver_unchanged() {
    let mut worker = announced();
    assert_eq!(
        worker.step(WorkerEvent::Polled(Some(vec![1, 2, 3]))),
        WorkerAction::Send(vec![1, 2, 3])
    );
    assert_eq!(worker.phase(), Phase::Sending);
    assert_eq!(worker.step(WorkerEvent::Done), WorkerAction::Receive);
}

#[test]
fn what_the_driver_gives_goes_out_unchanged_until_it_has_nothing() {
    let mut worker = announced();
    worker.step(WorkerEvent::Polled(None));
    assert_eq!(worker.step(WorkerEvent::Received(Some(vec![9]))), WorkerAction::Emit(vec![9]));
    assert_eq!(worker.step(WorkerEvent::Done), WorkerAction::Receive);
    assert_eq!(worker.step(WorkerEvent::Received(Some(vec![]))), WorkerAction::Emit(vec![]));
    assert_eq!(worker.step(WorkerEvent::Done), WorkerAction::Receive);
    assert_eq!(worker.step(WorkerEvent::Received(None)), WorkerAction::Sleep);
}

#[test]
fn a_disconnected_driver_ends_the_worker() {
    let mut worker = announced();
    worker.step(WorkerEvent::Polled(None));
    worker.step(WorkerEvent::Received(None));
    worker.step(WorkerEvent::Done);
    assert_eq!(worker.step(WorkerEvent::Status(ChannelStatus::Disconnected)), WorkerAction::Stop);
    assert_eq!(worker.phase(), Phase::Stopped);
}

#[test]
fn a_disconnected_driver_is_never_announced() {
    let mut worker = Worker::new();
    assert_eq!(worker.step(WorkerEvent::Status(ChannelStatus::Disconnected)), WorkerAction::Stop);
    assert!(!worker.announced());
}

#[test]
fn a_failure_ends_the_worker_in_every_phase() {
    let mut at_status = Worker::new();
    assert_eq!(at_status.step(WorkerEvent::Failed), WorkerAction::Stop);

    let mut polling = announced();
    assert_eq!(polling.step(WorkerEvent::Failed), WorkerAction::Stop);

    let mut sending = announced();
    sending.step(WorkerEvent::Polled(Some(vec![1])));
    assert_eq!(sending.step(WorkerEvent::Failed), WorkerAction::Stop);

    let mut draining = announced();
    draining.step(WorkerEvent::Polled(None));
    assert_eq!(draining.step(WorkerEvent::Failed), WorkerAction::Stop);

    let mut emitting = announced();
    emitting.step(WorkerEvent::Polled(None));
    emitting.step(WorkerEvent::Received(Some(vec![1])));
    assert_eq!(emitting.step(WorkerEvent::Failed), WorkerAction::Stop);

    let mut sleeping = Worker::new();
    sleeping.step(WorkerEvent::Status(ChannelStatus::Connecting));
    assert_eq!(sleeping.step(WorkerEvent::Failed), WorkerAction::Stop);
}

#[test]
fn an_event_out_of_turn_ends_the_worker() {
    let mut worker = Worker::new();
    assert_eq!(worker.step(WorkerEvent::Polled(None)), WorkerAction::Stop);
    let mut worker = announced();
    assert_eq!(worker.step(WorkerEvent::Status(ChannelStatus::Connected)), WorkerAction::Stop);
    let mut worker = announced();
    assert_eq!(worker.step(WorkerEvent::Received(Some(vec![1]))), WorkerAction::Stop);
}

#[test]
fn a_stopped_worker_stays_stopped() {
    let mut worker = Worker::new();
    worker.step(WorkerEvent::Failed);
    for event in [
        WorkerEvent::Status(ChannelStatus::Connected),
        WorkerEvent::Status(ChannelStatus::Connecting),
        WorkerEvent::Done,
        WorkerEvent::Polled(Some(vec![1])),
        WorkerEvent::Received(None),
        WorkerEvent::Failed,
    ] {
        assert_eq!(worker.step(event), WorkerAction::Stop);
        assert_eq!(worker.phase(), Phase::Stopped);
    }
}

#[test]
fn the_handshake_is_announced_once_over_many_rounds() {
    let mut worker = Worker::new();
    let mut announcements = 0;
    let mut emitted_before_handshake = false;
    let mut action = WorkerAction::Status;
    let mut round = 0;
    let mut pending: Vec<Vec<u8>> = vec![vec![1], vec![2], vec![3]];
    for _ in 0..200 {
        let event = match action {
            WorkerAction::Status => {
                round += 1;
                if round < 3 {
                    WorkerEvent::Status(ChannelStatus::Connecting)
                } else if round < 12 {
                    WorkerEvent::Status(ChannelStatus::Connected)
                } else {
                    WorkerEvent::Status(ChannelStatus::Disconnected)
                }
            }
            WorkerAction::Announce => {
                announcements += 1;
                WorkerEvent::Done
            }
            WorkerAction::Emit(_) => {
                if !worker.announced() {
                    emitted_before_handshake = true;
                }
                WorkerEvent::Done
            }
            WorkerAction::Poll => WorkerEvent::Polled(None),
            WorkerAction::Send(_) => WorkerEvent::Done,
            WorkerAction::Receive => WorkerEvent::Received(pending.pop()),
            WorkerAction::Sleep => WorkerEvent::Done,
            WorkerAction::Stop => break,
        };
        action = worker.step(event);
    }
    assert_eq!(action, WorkerAction::Stop);
    assert_eq!(announcements, 1);
    assert!(!emitted_before_handshake);
}

#[test]
fn echo_lifetime_is_three_seconds() {
    assert_eq!(ECHO_LIFETIME_NANOS, 3_000_000_000);
}

#[test]
fn echo_status_by_age() {
    assert_eq!(echo_status(0), ChannelStatus::Connected);
    assert_eq!(echo_status(2_999_999_999), ChannelStatus::Connected);
    assert_eq!(echo_status(3_000_000_000), ChannelStatus::Connected);
    assert_eq!(echo_status(3_000_000_001), ChannelStatus::Disconnected);
    assert_eq!(echo_status(u128::MAX), ChannelStatus::Disconnected);
}

#[test]
fn a_new_echo_is_connected_and_empty() {
    let mut echo = EchoChannelStream::new();
    assert_eq!(echo.status(), Ok(ChannelStatus::Connected));
    assert_eq!(echo.receive(), Ok(None));
}

#[test]
fn echo_hands_back_what_it_was_sent_in_order() {
    let mut echo = EchoChannelStream::new();
    assert_eq!(echo.send(b"ping".to_vec()), Ok(()));
    assert_eq!(echo.send(vec![]), Ok(()));
    assert_eq!(echo.send(vec![0, 1]), Ok(()));
    assert_eq!(echo.receive(), Ok(Some(b"ping".to_vec())));
    assert_eq!(echo.receive(), Ok(Some(vec![])));
    assert_eq!(echo.receive(), Ok(Some(vec![0, 1])));
    assert_eq!(echo.receive(), Ok(None));
}

#[test]
fn channel_error_messages() {
    assert_eq!(ChannelError::Disconnected.message(), "Disconnected.");
    assert_eq!(ChannelError::PacketTooLarge.message(), "Packet too large.");
    assert_eq!(ChannelError::Io.message(), "Socket error.");
}

#[test]
fn using_an_echo_does_not_lengthen_its_life() {
    let mut echo = EchoChannelStream::new();
    let start = std::time::Instant::now();
    while start.elapsed() < std::time::Duration::from_millis(3100) {
        assert_eq!(echo.send(vec![1]), Ok(()));
        assert_eq!(echo.receive(), Ok(Some(vec![1])));
    }
    assert_eq!(echo.status(), Ok(ChannelStatus::Disconnected));
    assert_eq!(echo.send(vec![2]), Ok(()));
    assert_eq!(echo.status(), Ok(ChannelStatus::Disconnected));
}
