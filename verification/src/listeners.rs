//! The per-protocol listener state machines.
//!
//! A listener loop alternates between one receive (or accept) call, made by
//! the runtime outside this crate, and one decision, made here: which events
//! the outcome produces and whether the loop proceeds, sleeps briefly and
//! retries, or stops.  The decisions pin down the engine's error policy: a
//! would-block outcome emits nothing and is retried; a genuine error emits
//! exactly one failure event and stops only the affected loop.

use crate::endpoint::Endpoint;
use crate::event::{
    views_of_events, ConnectionEvent, ConnectionEventView, DataEvent, DataEventView, ErrorEvent,
    ErrorEventView, EventView, SocketEngineEvent,
};
use vstd::prelude::*;

verus! {

/// What one receive call reported.
#[derive(Debug)]
pub enum RecvOutcome {
    /// A payload arrived; `from` names the sender as far as the transport
    /// reports it.
    Data { data: Vec<u8>, from: Endpoint },
    /// The call would block; nothing arrived.
    WouldBlock,
    /// A genuine receive error, with its reason.
    Failed { reason: String },
}

/// What one accept call reported.
#[derive(Debug)]
pub enum AcceptOutcome {
    /// A connection arrived from `peer`.
    Accepted { peer: Endpoint },
    /// The call was interrupted before a connection arrived.
    Interrupted,
    /// The call would block; no connection is pending.
    WouldBlock,
    /// A genuine accept error, with its reason.
    Failed { reason: String },
}

/// What one stream read reported.
#[derive(Debug)]
pub enum ReadOutcome {
    /// Bytes arrived on the connection.
    Data { data: Vec<u8> },
    /// The peer closed the connection in an orderly way (a zero-length
    /// read).
    Closed,
    /// A genuine read error, with its reason.
    Failed { reason: String },
}

/// How a listener loop goes on after one step.
#[derive(Clone, Copy, Debug, PartialEq, Eq, Structural)]
pub enum LoopDirective {
    /// Make the next call at once.
    Proceed,
    /// Sleep for the polling interval, then retry.
    SleepRetry,
    /// Stop this loop; other listeners are unaffected.
    Stop,
}

/// One decision of a receive or read loop: the events to fan out, and how
/// the loop goes on.
#[derive(Debug)]
pub struct ListenerStep {
    /// The events this outcome produces, in emission order.
    pub events: Vec<SocketEngineEvent>,
    /// How the loop goes on.
    pub directive: LoopDirective,
}

/// One decision of the accept loop.
#[derive(Debug)]
pub struct AcceptStep {
    /// The events this outcome produces, in emission order.
    pub events: Vec<SocketEngineEvent>,
    /// How the loop goes on.
    pub directive: LoopDirective,
    /// Whether to start an independent reader for the accepted connection.
    pub spawn_reader: bool,
}

/// The event every listener emits once its socket is bound.
pub fn listener_started_event(endpoint: &Endpoint) -> (e: SocketEngineEvent)
    ensures
        e@ == EventView::Connection(ConnectionEventView::ListenerStarted { endpoint: endpoint@ }),
{
    SocketEngineEvent::Connection(ConnectionEvent::ListenerStarted { endpoint: endpoint.clone() })
}

/// The decision a datagram-style receive loop takes on one outcome:
/// data becomes one received-data event and the loop proceeds; would-block
/// emits nothing and is retried after the polling interval; a genuine error
/// emits exactly one receive-failure event and stops the loop.
pub open spec fn spec_datagram_step(
    endpoint: crate::endpoint::EndpointView,
    data: Option<(Seq<u8>, crate::endpoint::EndpointView)>,
    would_block: bool,
    reason: Seq<char>,
) -> (Seq<EventView>, LoopDirective) {
    match data {
        Some((bytes, from)) => (
            seq![EventView::Data(DataEventView::Received { data: bytes, from })],
            LoopDirective::Proceed,
        ),
        None => if would_block {
            (Seq::<EventView>::empty(), LoopDirective::SleepRetry)
        } else {
            (
                seq![
                    EventView::Error(ErrorEventView::ReceiveFailed { endpoint, reason }),
                ],
                LoopDirective::Stop,
            )
        },
    }
}

/// Builds the step a datagram receive outcome produces; shared by the
/// datagram listener and the polling listener of the custom transport.
fn datagram_recv_step(endpoint: &Endpoint, outcome: RecvOutcome) -> (r: ListenerStep)
    ensures
        match outcome {
            RecvOutcome::Data { data, from } => (views_of_events(r.events@), r.directive)
                == spec_datagram_step(endpoint@, Some((data@, from@)), false, Seq::empty()),
            RecvOutcome::WouldBlock => (views_of_events(r.events@), r.directive)
                == spec_datagram_step(endpoint@, None, true, Seq::empty()),
            RecvOutcome::Failed { reason } => (views_of_events(r.events@), r.directive)
                == spec_datagram_step(endpoint@, None, false, reason@),
        },
{
    match outcome {
        RecvOutcome::Data { data, from } => {
            let mut events: Vec<SocketEngineEvent> = Vec::new();
            let ghost data_v = data@;
            let ghost from_v = from@;
            events.push(SocketEngineEvent::Data(DataEvent::Received { data, from }));
            proof {
                assert(views_of_events(events@) =~= seq![
                    EventView::Data(DataEventView::Received { data: data_v, from: from_v }),
                ]);
            }
            ListenerStep { events, directive: LoopDirective::Proceed }
        },
        RecvOutcome::WouldBlock => {
            let events: Vec<SocketEngineEvent> = Vec::new();
            proof {
                assert(views_of_events(events@) =~= Seq::<EventView>::empty());
            }
            ListenerStep { events, directive: LoopDirective::SleepRetry }
        },
        RecvOutcome::Failed { reason } => {
            let mut events: Vec<SocketEngineEvent> = Vec::new();
            let ghost reason_v = reason@;
            events.push(
                SocketEngineEvent::Error(
                    ErrorEvent::ReceiveFailed { endpoint: endpoint.clone(), reason },
                ),
            );
            proof {
                assert(views_of_events(events@) =~= seq![
                    EventView::Error(
                        ErrorEventView::ReceiveFailed { endpoint: endpoint@, reason: reason_v },
                    ),
                ]);
            }
            ListenerStep { events, directive: LoopDirective::Stop }
        },
    }
}

/// The datagram listener: bound once, then one receive per step on the
/// shared pool.
#[derive(Debug)]
pub struct UdpListenerHandler;

impl UdpListenerHandler {
    /// Decides what one receive outcome produces.
    pub fn on_recv(endpoint: &Endpoint, outcome: RecvOutcome) -> (r: ListenerStep)
        ensures
            match outcome {
                RecvOutcome::Data { data, from } => (views_of_events(r.events@), r.directive)
                    == spec_datagram_step(endpoint@, Some((data@, from@)), false, Seq::empty()),
                RecvOutcome::WouldBlock => (views_of_events(r.events@), r.directive)
                    == spec_datagram_step(endpoint@, None, true, Seq::empty()),
                RecvOutcome::Failed { reason } => (views_of_events(r.events@), r.directive)
                    == spec_datagram_step(endpoint@, None, false, reason@),
            },
    {
        datagram_recv_step(endpoint, outcome)
    }
}

/// The custom-transport listener: the same receive semantics as the
/// datagram listener, run by polling on a dedicated thread because the
/// shared pool cannot wait on this family's receive call.
#[derive(Debug)]
pub struct BpListenerHandler;

impl BpListenerHandler {
    /// Decides what one receive outcome produces.
    pub fn on_recv(endpoint: &Endpoint, outcome: RecvOutcome) -> (r: ListenerStep)
        ensures
            match outcome {
                RecvOutcome::Data { data, from } => (views_of_events(r.events@), r.directive)
                    == spec_datagram_step(endpoint@, Some((data@, from@)), false, Seq::empty()),
                RecvOutcome::WouldBlock => (views_of_events(r.events@), r.directive)
                    == spec_datagram_step(endpoint@, None, true, Seq::empty()),
                RecvOutcome::Failed { reason } => (views_of_events(r.events@), r.directive)
                    == spec_datagram_step(endpoint@, None, false, reason@),
            },
    {
        datagram_recv_step(endpoint, outcome)
    }
}

/// The stream listener: accept connections, then read each one on an
/// independent task.
#[derive(Debug)]
pub struct TcpListenerHandler;

impl TcpListenerHandler {
    /// Decides what one accept outcome produces: an accepted connection
    /// emits one established event and gets an independent reader; an
    /// interrupted call emits one anonymous closed event and the loop goes
    /// on; would-block sleeps and retries; a genuine error emits exactly one
    /// socket-error event and stops the accept loop.
    pub fn on_accept(endpoint: &Endpoint, outcome: AcceptOutcome) -> (r: AcceptStep)
        ensures
            match outcome {
                AcceptOutcome::Accepted { peer } => {
                    &&& views_of_events(r.events@) == seq![
                        EventView::Connection(ConnectionEventView::Established { remote: peer@ }),
                    ]
                    &&& r.directive == LoopDirective::Proceed
                    &&& r.spawn_reader
                },
                AcceptOutcome::Interrupted => {
                    &&& views_of_events(r.events@) == seq![
                        EventView::Connection(ConnectionEventView::Closed { remote: None }),
                    ]
                    &&& r.directive == LoopDirective::Proceed
                    &&& !r.spawn_reader
                },
                AcceptOutcome::WouldBlock => {
                    &&& views_of_events(r.events@) == Seq::<EventView>::empty()
                    &&& r.directive == LoopDirective::SleepRetry
                    &&& !r.spawn_reader
                },
                AcceptOutcome::Failed { reason } => {
                    &&& views_of_events(r.events@) == seq![
                        EventView::Error(
                            ErrorEventView::SocketError { endpoint: endpoint@, reason: reason@ },
                        ),
                    ]
                    &&& r.directive == LoopDirective::Stop
                    &&& !r.spawn_reader
                },
            },
    {
        match outcome {
            AcceptOutcome::Accepted { peer } => {
                let mut events: Vec<SocketEngineEvent> = Vec::new();
                let ghost peer_v = peer@;
                events.push(
                    SocketEngineEvent::Connection(ConnectionEvent::Established { remote: peer }),
                );
                proof {
                    assert(views_of_events(events@) =~= seq![
                        EventView::Connection(
                            ConnectionEventView::Established { remote: peer_v },
                        ),
                    ]);
                }
                AcceptStep { events, directive: LoopDirective::Proceed, spawn_reader: true }
            },
            AcceptOutcome::Interrupted => {
                let mut events: Vec<SocketEngineEvent> = Vec::new();
                events.push(SocketEngineEvent::Connection(ConnectionEvent::Closed { remote: None }));
                proof {
                    assert(views_of_events(events@) =~= seq![
                        EventView::Connection(ConnectionEventView::Closed { remote: None }),
                    ]);
                }
                AcceptStep { events, directive: LoopDirective::Proceed, spawn_reader: false }
            },
            AcceptOutcome::WouldBlock => {
                let events: Vec<SocketEngineEvent> = Vec::new();
                proof {
                    assert(views_of_events(events@) =~= Seq::<EventView>::empty());
                }
                AcceptStep { events, directive: LoopDirective::SleepRetry, spawn_reader: false }
            },
            AcceptOutcome::Failed { reason } => {
                let mut events: Vec<SocketEngineEvent> = Vec::new();
                let ghost reason_v = reason@;
                events.push(
                    SocketEngineEvent::Error(
                        ErrorEvent::SocketError { endpoint: endpoint.clone(), reason },
                    ),
                );
                proof {
                    assert(views_of_events(events@) =~= seq![
                        EventView::Error(
                            ErrorEventView::SocketError { endpoint: endpoint@, reason: reason_v },
                        ),
                    ]);
                }
                AcceptStep { events, directive: LoopDirective::Stop, spawn_reader: false }
            },
        }
    }

    /// Decides what one read outcome on an accepted connection produces:
    /// bytes become one received-data event, each read forwarded verbatim in
    /// receive order; a zero-length read means the peer closed and emits one
    /// closed event; a genuine error emits exactly one receive-failure event.
    /// The reader stops on close or error.
    pub fn on_stream_read(local: &Endpoint, peer: &Endpoint, outcome: ReadOutcome) -> (r:
        ListenerStep)
        ensures
            match outcome {
                ReadOutcome::Data { data } => {
                    &&& views_of_events(r.events@) == seq![
                        EventView::Data(DataEventView::Received { data: data@, from: peer@ }),
                    ]
                    &&& r.directive == LoopDirective::Proceed
                },
                ReadOutcome::Closed => {
                    &&& views_of_events(r.events@) == seq![
                        EventView::Connection(
                            ConnectionEventView::Closed { remote: Some(peer@) },
                        ),
                    ]
                    &&& r.directive == LoopDirective::Stop
                },
                ReadOutcome::Failed { reason } => {
                    &&& views_of_events(r.events@) == seq![
                        EventView::Error(
                            ErrorEventView::ReceiveFailed { endpoint: local@, reason: reason@ },
                        ),
                    ]
                    &&& r.directive == LoopDirective::Stop
                },
            },
    {
        match outcome {
            ReadOutcome::Data { data } => {
                let mut events: Vec<SocketEngineEvent> = Vec::new();
                let ghost data_v = data@;
                events.push(
                    SocketEngineEvent::Data(DataEvent::Received { data, from: peer.clone() }),
                );
                proof {
                    assert(views_of_events(events@) =~= seq![
                        EventView::Data(DataEventView::Received { data: data_v, from: peer@ }),
                    ]);
                }
                ListenerStep { events, directive: LoopDirective::Proceed }
            },
            ReadOutcome::Closed => {
                let mut events: Vec<SocketEngineEvent> = Vec::new();
                events.push(
                    SocketEngineEvent::Connection(
                        ConnectionEvent::Closed { remote: Some(peer.clone()) },
                    ),
                );
                proof {
                    assert(views_of_events(events@) =~= seq![
                        EventView::Connection(
                            ConnectionEventView::Closed { remote: Some(peer@) },
                        ),
                    ]);
                }
                ListenerStep { events, directive: LoopDirective::Stop }
            },
            ReadOutcome::Failed { reason } => {
                let mut events: Vec<SocketEngineEvent> = Vec::new();
                let ghost reason_v = reason@;
                events.push(
                    SocketEngineEvent::Error(
                        ErrorEvent::ReceiveFailed { endpoint: local.clone(), reason },
                    ),
                );
                proof {
                    assert(views_of_events(events@) =~= seq![
                        EventView::Error(
                            ErrorEventView::ReceiveFailed { endpoint: local@, reason: reason_v },
                        ),
                    ]);
                }
                ListenerStep { events, directive: LoopDirective::Stop }
            },
        }
    }
}

} // verus!
