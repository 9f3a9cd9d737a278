use socket_engine::bpaddr::BpAddrError;
use socket_engine::endpoint::Endpoint;
use socket_engine::event::{
    ConnectionEvent, ConnectionFailureReason, DataEvent, ErrorEvent, IoErrorKind,
    SocketEngineEvent,
};
use socket_engine::senders::{BpSender, IoOutcome, TcpSendPhase, TcpSender, UdpSender};

fn refused() -> IoOutcome {
    IoOutcome::Failed { kind: IoErrorKind::ConnectionRefused, reason: String::from("refused") }
}

#[test]
fn classification_of_io_errors() {
    assert_eq!(
        ConnectionFailureReason::from_io_error_kind(IoErrorKind::ConnectionRefused),
        ConnectionFailureReason::Refused
    );
    assert_eq!(
        ConnectionFailureReason::from_io_error_kind(IoErrorKind::TimedOut),
        ConnectionFailureReason::Timeout
    );
    assert_eq!(
        ConnectionFailureReason::from_io_error_kind(IoErrorKind::NetworkUnreachable),
        ConnectionFailureReason::NetworkUnreachable
    );
    assert_eq!(
        ConnectionFailureReason::from_io_error_kind(IoErrorKind::WouldBlock),
        ConnectionFailureReason::Other
    );
    assert_eq!(
        ConnectionFailureReason::from_io_error_kind(IoErrorKind::Interrupted),
        ConnectionFailureReason::Other
    );
    assert_eq!(
        ConnectionFailureReason::from_io_error_kind(IoErrorKind::Other),
        ConnectionFailureReason::Other
    );
}

#[test]
fn udp_send_success_emits_sent() {
    let ep = Endpoint::from_str("udp 127.0.0.1:9001").unwrap();
    let events = UdpSender::send(&ep, &String::from("t1"), 2, IoOutcome::Done);
    assert_eq!(
        events,
        vec![SocketEngineEvent::Data(DataEvent::Sent {
            message_id: String::from("t1"),
            to: ep,
            bytes_sent: 2,
        })]
    );
}

#[test]
fn udp_send_failure_emits_send_failed() {
    let ep = Endpoint::from_str("udp 127.0.0.1:9001").unwrap();
    let events = UdpSender::send(
        &ep,
        &String::from("t1"),
        2,
        IoOutcome::Failed { kind: IoErrorKind::Other, reason: String::from("no route") },
    );
    assert_eq!(
        events,
        vec![SocketEngineEvent::Error(ErrorEvent::SendFailed {
            endpoint: ep,
            token: String::from("t1"),
            reason: String::from("no route"),
        })]
    );
}

#[test]
fn bp_send_mirrors_the_oneshot_path() {
    let ep = Endpoint::from_str("bp ipn:1.2").unwrap();
    let events = BpSender::send(&ep, &String::from("m"), 5, IoOutcome::Done);
    assert_eq!(
        events,
        vec![SocketEngineEvent::Data(DataEvent::Sent {
            message_id: String::from("m"),
            to: ep,
            bytes_sent: 5,
        })]
    );
}

#[test]
fn bp_socket_resolution() {
    let (params, rec) = BpSender::create_bp_socket("ipn:9.10").unwrap();
    assert_eq!(params.domain, 28);
    assert_eq!(params.socket_type, 2);
    assert_eq!(params.protocol, 0);
    assert_eq!(rec.node_id, 9);
    assert_eq!(rec.service_id, 10);
    assert_eq!(
        BpSender::create_bp_socket("dtn:x").unwrap_err(),
        BpAddrError::Unsupported
    );
}

#[test]
fn tcp_send_happy_path_emits_each_step() {
    let ep = Endpoint::from_str("tcp 127.0.0.1:9101").unwrap();
    let mut sender = TcpSender::new(ep.clone(), String::from("t2"), 4);
    assert_eq!(sender.phase, TcpSendPhase::Connecting);

    let events = sender.send(IoOutcome::Done);
    assert_eq!(
        events,
        vec![SocketEngineEvent::Connection(ConnectionEvent::Established { remote: ep.clone() })]
    );
    assert_eq!(sender.phase, TcpSendPhase::Writing);

    let events = sender.send(IoOutcome::Done);
    assert_eq!(
        events,
        vec![SocketEngineEvent::Data(DataEvent::Sent {
            message_id: String::from("t2"),
            to: ep.clone(),
            bytes_sent: 4,
        })]
    );
    assert_eq!(sender.phase, TcpSendPhase::Flushing);

    let events = sender.send(IoOutcome::Done);
    assert!(events.is_empty());
    assert_eq!(sender.phase, TcpSendPhase::ShuttingDown);

    let events = sender.send(IoOutcome::Done);
    assert_eq!(
        events,
        vec![SocketEngineEvent::Connection(ConnectionEvent::Closed { remote: Some(ep) })]
    );
    assert_eq!(sender.phase, TcpSendPhase::Done);

    assert!(sender.send(IoOutcome::Done).is_empty());
}

#[test]
fn tcp_write_failure_does_not_suppress_cleanup() {
    let ep = Endpoint::from_str("tcp 127.0.0.1:9101").unwrap();
    let mut sender = TcpSender::new(ep.clone(), String::from("t"), 1);
    sender.send(IoOutcome::Done);
    let events = sender.send(
        IoOutcome::Failed { kind: IoErrorKind::Other, reason: String::from("pipe") },
    );
    assert_eq!(
        events,
        vec![SocketEngineEvent::Error(ErrorEvent::SendFailed {
            endpoint: ep.clone(),
            token: String::from("t"),
            reason: String::from("pipe"),
        })]
    );
    // The path still flushes and shuts down.
    assert_eq!(sender.phase, TcpSendPhase::Flushing);
    sender.send(IoOutcome::Done);
    assert_eq!(sender.phase, TcpSendPhase::ShuttingDown);
    let events = sender.send(IoOutcome::Done);
    assert_eq!(
        events,
        vec![SocketEngineEvent::Connection(ConnectionEvent::Closed { remote: Some(ep) })]
    );
}

#[test]
fn tcp_shutdown_failure_is_reported_with_its_reason() {
    let ep = Endpoint::from_str("tcp 127.0.0.1:9101").unwrap();
    let mut sender = TcpSender::new(ep.clone(), String::from("t"), 1);
    sender.send(IoOutcome::Done);
    sender.send(IoOutcome::Done);
    sender.send(IoOutcome::Done);
    let events = sender.send(
        IoOutcome::Failed { kind: IoErrorKind::Other, reason: String::from("boom") },
    );
    assert_eq!(
        events,
        vec![SocketEngineEvent::Error(ErrorEvent::SendFailed {
            endpoint: ep,
            token: String::from("t"),
            reason: String::from("Shutdown failed: boom"),
        })]
    );
    assert_eq!(sender.phase, TcpSendPhase::Done);
}

#[test]
fn refused_connect_emits_exactly_one_classified_failure() {
    let ep = Endpoint::from_str("tcp 127.0.0.1:9999").unwrap();
    let mut sender = TcpSender::new(ep.clone(), String::from("t3"), 3);
    let events = sender.send(refused());
    assert_eq!(
        events,
        vec![SocketEngineEvent::Error(ErrorEvent::ConnectionFailed {
            endpoint: ep,
            reason: ConnectionFailureReason::Refused,
            token: String::from("t3"),
        })]
    );
    assert_eq!(sender.phase, TcpSendPhase::Done);
    // Nothing follows: no sent, established or closed event can appear.
    assert!(sender.send(IoOutcome::Done).is_empty());
    assert!(sender.send(refused()).is_empty());
}

#[test]
fn timed_out_connect_is_classified_as_timeout() {
    let ep = Endpoint::from_str("tcp 127.0.0.1:9999").unwrap();
    let mut sender = TcpSender::new(ep.clone(), String::from("t"), 0);
    let events = sender.send(
        IoOutcome::Failed { kind: IoErrorKind::TimedOut, reason: String::from("slow") },
    );
    match &events[..] {
        [SocketEngineEvent::Error(ErrorEvent::ConnectionFailed { reason, .. })] => {
            assert_eq!(*reason, ConnectionFailureReason::Timeout);
        }
        other => panic!("expected one connection failure, got {:?}", other),
    }
}
