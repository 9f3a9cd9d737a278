use socket_engine::endpoint::Endpoint;
use socket_engine::engine::{Engine, SenderKind};
use socket_engine::event::{
    delay_for_event, notify_all_observers, ConnectionEvent, ConnectionFailureReason, DataEvent,
    EngineObserver, ErrorEvent, RecordingObserver, SocketEngineEvent,
};
use socket_engine::listeners::{
    listener_started_event, RecvOutcome, TcpListenerHandler, UdpListenerHandler,
};
use socket_engine::listeners::{AcceptOutcome, ReadOutcome};
use socket_engine::senders::{IoOutcome, TcpSender, UdpSender};

fn new_engine() -> Engine<RecordingObserver> {
    let mut engine = Engine::new();
    engine.add_observer(RecordingObserver::new());
    engine
}

fn events_of(engine: &Engine<RecordingObserver>) -> &Vec<SocketEngineEvent> {
    &engine.observers()[0].events
}

#[test]
fn every_observer_gets_every_event_in_order() {
    let mut observers = vec![RecordingObserver::new(), RecordingObserver::new()];
    let ep = Endpoint::from_str("udp 127.0.0.1:9001").unwrap();
    let started = listener_started_event(&ep);
    notify_all_observers(&mut observers, &started);
    let failed = SocketEngineEvent::Error(ErrorEvent::ReceiveFailed {
        endpoint: ep,
        reason: String::from("x"),
    });
    notify_all_observers(&mut observers, &failed);
    for obs in &observers {
        assert_eq!(obs.events.len(), 2);
        assert_eq!(obs.events[0], started);
        assert_eq!(obs.events[1], failed);
    }
}

#[test]
fn engine_fans_events_out_to_all_registered_observers() {
    let mut engine: Engine<RecordingObserver> = Engine::new();
    engine.add_observer(RecordingObserver::new());
    engine.add_observer(RecordingObserver::new());
    let target = Endpoint::from_str("udp 127.0.0.1:9002").unwrap();
    engine
        .send_async(None, target.clone(), b"hi".to_vec(), String::from("t"))
        .unwrap();
    for obs in engine.observers() {
        assert_eq!(obs.events.len(), 1);
        assert!(matches!(
            obs.events[0],
            SocketEngineEvent::Data(DataEvent::Sending { .. })
        ));
    }
}

#[test]
fn recording_observer_logs_deliveries_in_order() {
    let mut obs = RecordingObserver::new();
    assert!(obs.events.is_empty());
    let ep = Endpoint::from_str("udp 127.0.0.1:9001").unwrap();
    let first = listener_started_event(&ep);
    let second = SocketEngineEvent::Connection(ConnectionEvent::Closed { remote: None });
    obs.on_engine_event(first.clone());
    obs.on_engine_event(second.clone());
    assert_eq!(obs.events, vec![first, second]);
}

#[test]
fn listener_start_stores_the_socket_for_reuse() {
    let mut engine = new_engine();
    let ep = Endpoint::from_str("udp 127.0.0.1:9001").unwrap();
    let socket = engine.start_listener_async(ep.clone()).expect("resolution must succeed");
    assert_eq!(socket.endpoint, ep);
    assert!(!socket.listening);
    assert!(events_of(&engine).is_empty());

    // A later send naming the listener's endpoint as source reuses it.
    let target = Endpoint::from_str("udp 127.0.0.1:9002").unwrap();
    let plan = engine
        .send_async(Some(ep.clone()), target, b"x".to_vec(), String::from("t"))
        .expect("send must be planned");
    assert!(plan.reused);
    assert_eq!(plan.socket.endpoint, ep);
}

#[test]
fn listener_start_failure_becomes_a_socket_error_event() {
    let mut engine = new_engine();
    let ep = Endpoint::from_str("udp not-an-address").unwrap();
    assert!(engine.start_listener_async(ep.clone()).is_none());
    assert_eq!(
        events_of(&engine)[..],
        [SocketEngineEvent::Error(ErrorEvent::SocketError {
            endpoint: ep,
            reason: String::from("invalid socket address"),
        })]
    );
}

#[test]
fn send_to_fresh_socket_when_no_source_is_given() {
    let mut engine = new_engine();
    let target = Endpoint::from_str("udp 127.0.0.1:9002").unwrap();
    let plan = engine
        .send_async(None, target.clone(), b"hi".to_vec(), String::from("t1"))
        .unwrap();
    assert!(!plan.reused);
    assert_eq!(plan.socket.endpoint, target);
    assert_eq!(plan.kind, SenderKind::Oneshot);
    assert_eq!(plan.data, b"hi".to_vec());
    assert_eq!(plan.token, "t1");
}

#[test]
fn no_reuse_for_stream_targets() {
    let mut engine = new_engine();
    let src = Endpoint::from_str("udp 127.0.0.1:9001").unwrap();
    engine.start_listener_async(src.clone()).unwrap();
    let target = Endpoint::from_str("tcp 127.0.0.1:9101").unwrap();
    let plan = engine
        .send_async(Some(src), target.clone(), b"x".to_vec(), String::from("t"))
        .unwrap();
    assert!(!plan.reused);
    assert_eq!(plan.socket.endpoint, target);
    assert_eq!(plan.kind, SenderKind::Stream);
}

#[test]
fn no_reuse_for_unknown_source() {
    let mut engine = new_engine();
    let src = Endpoint::from_str("udp 127.0.0.1:7777").unwrap();
    let target = Endpoint::from_str("udp 127.0.0.1:9002").unwrap();
    let plan = engine
        .send_async(Some(src), target.clone(), b"x".to_vec(), String::from("t"))
        .unwrap();
    assert!(!plan.reused);
    assert_eq!(plan.socket.endpoint, target);
}

#[test]
fn send_announces_itself_before_any_transport_work() {
    let mut engine = new_engine();
    let target = Endpoint::from_str("udp 127.0.0.1:9002").unwrap();
    engine
        .send_async(None, target.clone(), b"hi".to_vec(), String::from("t1"))
        .unwrap();
    assert_eq!(
        events_of(&engine)[..],
        [SocketEngineEvent::Data(DataEvent::Sending {
            message_id: String::from("t1"),
            to: target,
            bytes: 2,
        })]
    );
}

#[test]
fn send_to_unresolvable_target_reports_and_stops() {
    let mut engine = new_engine();
    let target = Endpoint::from_str("tcp nowhere").unwrap();
    assert!(engine
        .send_async(None, target.clone(), b"x".to_vec(), String::from("t"))
        .is_none());
    assert_eq!(
        events_of(&engine)[..],
        [SocketEngineEvent::Error(ErrorEvent::SocketError {
            endpoint: target,
            reason: String::from("invalid socket address"),
        })]
    );
}

#[test]
fn datagram_end_to_end_event_order() {
    // A datagram listener on one endpoint, a send from a second endpoint to
    // it: the sender sees the sending announcement and then the completion;
    // the listener sees its start and then the received payload.
    let mut listener_side = new_engine();
    let mut sender_side = new_engine();
    let listener_ep = Endpoint::from_str("udp 127.0.0.1:9001").unwrap();
    let sender_ep = Endpoint::from_str("udp 127.0.0.1:9002").unwrap();

    let mut listener_socket = listener_side.start_listener_async(listener_ep.clone()).unwrap();
    let plan = listener_socket.start_listener().unwrap();
    assert_eq!(plan.kind, socket_engine::socket::ListenerKind::Datagram);
    let started = listener_started_event(&listener_ep);
    let mut listener_observers = vec![RecordingObserver::new()];
    notify_all_observers(&mut listener_observers, &started);

    let send_plan = sender_side
        .send_async(
            Some(sender_ep.clone()),
            listener_ep.clone(),
            b"hi".to_vec(),
            String::from("t1"),
        )
        .unwrap();
    assert_eq!(send_plan.kind, SenderKind::Oneshot);

    // The datagram arrives at the listener.
    let step = UdpListenerHandler::on_recv(
        &listener_ep,
        RecvOutcome::Data { data: b"hi".to_vec(), from: sender_ep.clone() },
    );
    for event in &step.events {
        notify_all_observers(&mut listener_observers, event);
    }

    // The send-to call completes on the sender side.
    let events = UdpSender::send(&listener_ep, &send_plan.token, send_plan.data.len(), IoOutcome::Done);
    for event in &events {
        sender_side.notify_observers(event);
    }

    assert_eq!(
        events_of(&sender_side)[..],
        [
            SocketEngineEvent::Data(DataEvent::Sending {
                message_id: String::from("t1"),
                to: listener_ep.clone(),
                bytes: 2,
            }),
            SocketEngineEvent::Data(DataEvent::Sent {
                message_id: String::from("t1"),
                to: listener_ep.clone(),
                bytes_sent: 2,
            }),
        ]
    );
    assert_eq!(
        listener_observers[0].events[..],
        [
            started,
            SocketEngineEvent::Data(DataEvent::Received {
                data: b"hi".to_vec(),
                from: sender_ep,
            }),
        ]
    );
}

#[test]
fn stream_end_to_end_event_order() {
    // A stream listener, one connection carrying one payload, and the
    // sender's connect-write-flush-shutdown path.
    let listener_ep = Endpoint::from_str("tcp 127.0.0.1:9101").unwrap();
    let peer_ep = Endpoint::from_str("tcp 127.0.0.1:41000").unwrap();

    let mut listener_observers = vec![RecordingObserver::new()];
    let started = listener_started_event(&listener_ep);
    notify_all_observers(&mut listener_observers, &started);

    let accept = TcpListenerHandler::on_accept(
        &listener_ep,
        AcceptOutcome::Accepted { peer: peer_ep.clone() },
    );
    assert!(accept.spawn_reader);
    for event in &accept.events {
        notify_all_observers(&mut listener_observers, event);
    }
    let read = TcpListenerHandler::on_stream_read(
        &listener_ep,
        &peer_ep,
        ReadOutcome::Data { data: b"ping".to_vec() },
    );
    for event in &read.events {
        notify_all_observers(&mut listener_observers, event);
    }
    let closed = TcpListenerHandler::on_stream_read(&listener_ep, &peer_ep, ReadOutcome::Closed);
    for event in &closed.events {
        notify_all_observers(&mut listener_observers, event);
    }

    assert_eq!(
        listener_observers[0].events[..],
        [
            started,
            SocketEngineEvent::Connection(ConnectionEvent::Established {
                remote: peer_ep.clone()
            }),
            SocketEngineEvent::Data(DataEvent::Received {
                data: b"ping".to_vec(),
                from: peer_ep.clone(),
            }),
            SocketEngineEvent::Connection(ConnectionEvent::Closed { remote: Some(peer_ep) }),
        ]
    );

    // Sender side: announcement, connect, write, flush, shutdown.
    let mut sender_side = new_engine();
    let plan = sender_side
        .send_async(None, listener_ep.clone(), b"ping".to_vec(), String::from("t2"))
        .unwrap();
    assert_eq!(plan.kind, SenderKind::Stream);
    let mut tcp = TcpSender::new(listener_ep.clone(), plan.token, plan.data.len());
    let mut sent_events: Vec<SocketEngineEvent> = Vec::new();
    sent_events.extend(tcp.send(IoOutcome::Done));
    sent_events.extend(tcp.send(IoOutcome::Done));
    sent_events.extend(tcp.send(IoOutcome::Done));
    sent_events.extend(tcp.send(IoOutcome::Done));
    for event in &sent_events {
        sender_side.notify_observers(event);
    }
    assert_eq!(
        events_of(&sender_side)[..],
        [
            SocketEngineEvent::Data(DataEvent::Sending {
                message_id: String::from("t2"),
                to: listener_ep.clone(),
                bytes: 4,
            }),
            SocketEngineEvent::Connection(ConnectionEvent::Established {
                remote: listener_ep.clone()
            }),
            SocketEngineEvent::Data(DataEvent::Sent {
                message_id: String::from("t2"),
                to: listener_ep.clone(),
                bytes_sent: 4,
            }),
            SocketEngineEvent::Connection(ConnectionEvent::Closed {
                remote: Some(listener_ep)
            }),
        ]
    );
}

#[test]
fn refused_stream_send_yields_one_failure_and_nothing_else() {
    // Sending to a stream endpoint with nothing listening: exactly one
    // classified connection failure; no sent or established event.
    let mut sender_side = new_engine();
    let target = Endpoint::from_str("tcp 127.0.0.1:9999").unwrap();
    let plan = sender_side
        .send_async(None, target.clone(), b"x".to_vec(), String::from("t"))
        .unwrap();
    let mut tcp = TcpSender::new(target.clone(), plan.token, plan.data.len());
    let events = tcp.send(IoOutcome::Failed {
        kind: socket_engine::event::IoErrorKind::ConnectionRefused,
        reason: String::from("refused"),
    });
    for event in &events {
        sender_side.notify_observers(event);
    }
    let log = events_of(&sender_side);
    let failures: Vec<_> = log
        .iter()
        .filter(|e| {
            matches!(
                e,
                SocketEngineEvent::Error(ErrorEvent::ConnectionFailed {
                    reason: ConnectionFailureReason::Refused,
                    ..
                })
            )
        })
        .collect();
    assert_eq!(failures.len(), 1);
    assert!(!log
        .iter()
        .any(|e| matches!(e, SocketEngineEvent::Data(DataEvent::Sent { .. }))));
    assert!(!log
        .iter()
        .any(|e| matches!(e, SocketEngineEvent::Connection(ConnectionEvent::Established { .. }))));
}

#[test]
fn receive_delay_applies_only_to_received_events() {
    let ep = Endpoint::from_str("udp 127.0.0.1:9001").unwrap();
    let received = SocketEngineEvent::Data(DataEvent::Received {
        data: b"x".to_vec(),
        from: ep.clone(),
    });
    let other = listener_started_event(&ep);
    assert_eq!(delay_for_event(&received, Some(250)), Some(250));
    assert_eq!(delay_for_event(&received, None), Some(1000));
    assert_eq!(delay_for_event(&other, Some(250)), None);
    assert_eq!(delay_for_event(&other, None), None);
}
