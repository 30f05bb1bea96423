use net_serial_console::bus::{FanoutBus, RecvOutcome};
use net_serial_console::funnel::WriteFunnel;
use net_serial_console::link::{link_on_event, LinkAction, LinkEvent, LinkStop};
use net_serial_console::session::{banner, ClientSession, SessionAction, SessionEvent, StopReason};

#[test]
fn every_subscriber_observes_a_publish() {
    let mut bus = FanoutBus::new(4);
    let a = bus.subscribe();
    let b = bus.subscribe();
    bus.publish(b"chunk");
    for sid in [a, b] {
        match bus.receive(sid) {
            RecvOutcome::Chunk(c) => assert_eq!(c, b"chunk".to_vec()),
            other => panic!("expected the chunk, got {other:?}"),
        }
    }
}

#[test]
fn lagging_subscriber_sees_a_gap_and_resumes() {
    let mut bus = FanoutBus::new(2);
    let slow = bus.subscribe();
    bus.publish(b"one");
    bus.publish(b"two");
    bus.publish(b"three");
    // Capacity 2: "one" was discarded, which the subscriber learns first.
    match bus.receive(slow) {
        RecvOutcome::Gap(n) => assert_eq!(n, 1),
        other => panic!("expected a gap, got {other:?}"),
    }
    // Delivery resumes with the oldest retained chunk: no permanent stall.
    match bus.receive(slow) {
        RecvOutcome::Chunk(c) => assert_eq!(c, b"two".to_vec()),
        other => panic!("expected a chunk, got {other:?}"),
    }
    match bus.receive(slow) {
        RecvOutcome::Chunk(c) => assert_eq!(c, b"three".to_vec()),
        other => panic!("expected a chunk, got {other:?}"),
    }
    assert!(matches!(bus.receive(slow), RecvOutcome::Pending));
}

#[test]
fn late_subscriber_sees_no_history() {
    let mut bus = FanoutBus::new(4);
    bus.publish(b"early");
    let late = bus.subscribe();
    assert!(matches!(bus.receive(late), RecvOutcome::Pending));
}

#[test]
fn closed_bus_drains_then_reports_closed() {
    let mut bus = FanoutBus::new(4);
    let sid = bus.subscribe();
    bus.publish(b"last words");
    bus.close();
    match bus.receive(sid) {
        RecvOutcome::Chunk(c) => assert_eq!(c, b"last words".to_vec()),
        other => panic!("expected a chunk, got {other:?}"),
    }
    // After the drain nothing will ever come: Closed, not Pending, so a
    // session waiting on the device's closure terminates instead of hanging.
    assert!(matches!(bus.receive(sid), RecvOutcome::Closed));
}

#[test]
fn funnel_keeps_per_producer_order() {
    let mut funnel = WriteFunnel::new(8);
    assert!(funnel.try_submit(1, b"A".to_vec()));
    assert!(funnel.try_submit(2, b"C".to_vec()));
    assert!(funnel.try_submit(1, b"B".to_vec()));
    // Global order is enqueue order; producer 1's A comes before its B.
    assert_eq!(funnel.take_next(), Some(b"A".to_vec()));
    assert_eq!(funnel.take_next(), Some(b"C".to_vec()));
    assert_eq!(funnel.take_next(), Some(b"B".to_vec()));
    assert_eq!(funnel.take_next(), None);
}

#[test]
fn full_funnel_pushes_back_without_loss() {
    let mut funnel = WriteFunnel::new(1);
    assert!(funnel.try_submit(7, b"kept".to_vec()));
    // Full: the submission is refused, not dropped; the producer retries.
    assert!(!funnel.try_submit(7, b"retried".to_vec()));
    assert_eq!(funnel.take_next(), Some(b"kept".to_vec()));
    assert!(funnel.try_submit(7, b"retried".to_vec()));
    assert_eq!(funnel.take_next(), Some(b"retried".to_vec()));
}

#[test]
fn write_disabled_session_never_submits() {
    let session = ClientSession::new(false);
    let action = session.on_event(SessionEvent::ConnBytes(b"reboot\r\n".to_vec()));
    assert!(matches!(action, SessionAction::Ignore));
}

#[test]
fn write_enabled_session_submits_verbatim() {
    let session = ClientSession::new(true);
    match session.on_event(SessionEvent::ConnBytes(b"reboot\r\n".to_vec())) {
        SessionAction::SubmitToFunnel(d) => assert_eq!(d, b"reboot\r\n".to_vec()),
        other => panic!("expected a funnel submission, got {other:?}"),
    }
}

#[test]
fn session_relays_bus_chunks_and_tolerates_gaps() {
    let session = ClientSession::new(false);
    match session.on_event(SessionEvent::BusChunk(b"data".to_vec())) {
        SessionAction::SendToConn(d) => assert_eq!(d, b"data".to_vec()),
        other => panic!("expected a connection write, got {other:?}"),
    }
    assert!(matches!(session.on_event(SessionEvent::BusLagged(3)), SessionAction::Ignore));
}

#[test]
fn session_terminations_have_distinct_reasons() {
    let session = ClientSession::new(true);
    assert!(matches!(
        session.on_event(SessionEvent::BusClosed),
        SessionAction::Stop(StopReason::UpstreamGone)
    ));
    assert!(matches!(
        session.on_event(SessionEvent::ConnClosed),
        SessionAction::Stop(StopReason::PeerClosed)
    ));
    assert!(matches!(
        session.on_event(SessionEvent::ConnError),
        SessionAction::Stop(StopReason::Transport)
    ));
}

#[test]
fn link_publishes_reads_and_stops_on_eof() {
    match link_on_event(LinkEvent::DeviceRead(b"serial out".to_vec())) {
        LinkAction::Publish(d) => assert_eq!(d, b"serial out".to_vec()),
        other => panic!("expected a publish, got {other:?}"),
    }
    assert!(matches!(
        link_on_event(LinkEvent::DeviceRead(Vec::new())),
        LinkAction::Stop(LinkStop::DeviceClosed)
    ));
    assert!(matches!(link_on_event(LinkEvent::DeviceTimeout), LinkAction::Continue));
    assert!(matches!(
        link_on_event(LinkEvent::DeviceError),
        LinkAction::Stop(LinkStop::Fatal)
    ));
    match link_on_event(LinkEvent::FunnelItem(b"cmd".to_vec())) {
        LinkAction::WriteDevice(d) => assert_eq!(d, b"cmd".to_vec()),
        other => panic!("expected a device write, got {other:?}"),
    }
}

#[test]
fn banner_names_the_device() {
    assert_eq!(banner("/dev/ttyUSB0"), "*** Connected to: /dev/ttyUSB0\n");
}
