//! The per-protocol send paths.
//!
//! A datagram or custom-transport send is one call whose outcome becomes one
//! event.  A stream send is a short state machine — connect, write, flush,
//! shut down — in which every step emits its own events, a connect failure
//! is classified into the closed failure set, and a failure at one step does
//! not suppress the later best-effort cleanup steps.

use crate::bpaddr::{create_bp_sockaddr_with_string, spec_build_bp_addr, BpAddrError, SockAddrBp};
use crate::endpoint::{Endpoint, EndpointView};
use crate::event::{
    spec_classify_io_error, views_of_events, ConnectionEvent, ConnectionEventView, DataEvent,
    DataEventView, ErrorEvent, ErrorEventView, EventView, IoErrorKind, SocketEngineEvent,
};
use crate::socket::{spec_socket_params, ResolvedAddr, SocketParams};
use vstd::prelude::*;
use vstd::string::StringExecFns;

verus! {

/// What one I/O call of a send path reported.
#[derive(Debug)]
pub enum IoOutcome {
    /// The call succeeded.
    Done,
    /// The call failed, with its error class and reason.
    Failed { kind: IoErrorKind, reason: String },
}

/// Mathematical image of an [`IoOutcome`].
pub enum IoOutcomeView {
    Done,
    Failed { kind: IoErrorKind, reason: Seq<char> },
}

impl View for IoOutcome {
    type V = IoOutcomeView;

    open spec fn view(&self) -> IoOutcomeView {
        match self {
            IoOutcome::Done => IoOutcomeView::Done,
            IoOutcome::Failed { kind, reason } => IoOutcomeView::Failed {
                kind: *kind,
                reason: reason@,
            },
        }
    }
}

/// The events one completed datagram-style send produces: a success is one
/// sent event, a failure one send-failed event carrying the token.
pub open spec fn spec_oneshot_send_events(
    endpoint: EndpointView,
    token: Seq<char>,
    data_len: int,
    outcome: IoOutcomeView,
) -> Seq<EventView> {
    match outcome {
        IoOutcomeView::Done => seq![
            EventView::Data(
                DataEventView::Sent { message_id: token, to: endpoint, bytes_sent: data_len },
            ),
        ],
        IoOutcomeView::Failed { kind, reason } => seq![
            EventView::Error(ErrorEventView::SendFailed { endpoint, token, reason }),
        ],
    }
}

/// Builds the events of a one-call send; shared by the datagram and
/// custom-transport senders.
fn oneshot_send_events(
    endpoint: &Endpoint,
    token: &String,
    data_len: usize,
    outcome: IoOutcome,
) -> (r: Vec<SocketEngineEvent>)
    ensures
        views_of_events(r@) == spec_oneshot_send_events(
            endpoint@,
            token@,
            data_len as int,
            outcome@,
        ),
{
    let mut events: Vec<SocketEngineEvent> = Vec::new();
    match outcome {
        IoOutcome::Done => {
            events.push(
                SocketEngineEvent::Data(
                    DataEvent::Sent {
                        message_id: token.clone(),
                        to: endpoint.clone(),
                        bytes_sent: data_len,
                    },
                ),
            );
            proof {
                assert(views_of_events(events@) =~= spec_oneshot_send_events(
                    endpoint@,
                    token@,
                    data_len as int,
                    outcome@,
                ));
            }
        },
        IoOutcome::Failed { kind, reason } => {
            let ghost reason_v = reason@;
            events.push(
                SocketEngineEvent::Error(
                    ErrorEvent::SendFailed {
                        endpoint: endpoint.clone(),
                        token: token.clone(),
                        reason,
                    },
                ),
            );
            proof {
                assert(views_of_events(events@) =~= spec_oneshot_send_events(
                    endpoint@,
                    token@,
                    data_len as int,
                    IoOutcomeView::Failed { kind, reason: reason_v },
                ));
            }
        },
    }
    events
}

/// The datagram sender: an ephemeral or cached bound socket, one send-to
/// call, one event.
#[derive(Debug)]
pub struct UdpSender;

impl UdpSender {
    /// Turns the outcome of the single send-to call into its events.
    pub fn send(endpoint: &Endpoint, token: &String, data_len: usize, outcome: IoOutcome) -> (r:
        Vec<SocketEngineEvent>)
        ensures
            views_of_events(r@) == spec_oneshot_send_events(
                endpoint@,
                token@,
                data_len as int,
                outcome@,
            ),
    {
        oneshot_send_events(endpoint, token, data_len, outcome)
    }
}

/// The custom-transport sender: an address built from the `ipn:` name, a
/// socket of the custom family, one send-to call, one event.  No connection
/// or handshake phase exists.
#[derive(Debug)]
pub struct BpSender;

impl BpSender {
    /// Resolves the `ipn:` address and the custom family's socket-creation
    /// parameters for one send.
    pub fn create_bp_socket(addr: &str) -> (r: Result<(SocketParams, SockAddrBp), BpAddrError>)
        ensures
            match r {
                Ok((params, rec)) => spec_build_bp_addr(addr@) == Ok::<_, BpAddrError>(rec)
                    && params == spec_socket_params(
                    crate::endpoint::EndpointProto::Bp,
                    ResolvedAddr::Bp(rec),
                ),
                Err(e) => spec_build_bp_addr(addr@) == Err::<SockAddrBp, _>(e),
            },
    {
        match create_bp_sockaddr_with_string(addr) {
            Ok(rec) => Ok(
                (
                    SocketParams {
                        domain: crate::constants::AF_BP,
                        socket_type: crate::constants::SOCK_DGRAM,
                        protocol: 0,
                    },
                    rec,
                ),
            ),
            Err(e) => Err(e),
        }
    }

    /// Turns the outcome of the single send-to call into its events.
    pub fn send(endpoint: &Endpoint, token: &String, data_len: usize, outcome: IoOutcome) -> (r:
        Vec<SocketEngineEvent>)
        ensures
            views_of_events(r@) == spec_oneshot_send_events(
                endpoint@,
                token@,
                data_len as int,
                outcome@,
            ),
    {
        oneshot_send_events(endpoint, token, data_len, outcome)
    }
}

/// Where a stream send stands.
#[derive(Clone, Copy, Debug, PartialEq, Eq, Structural)]
pub enum TcpSendPhase {
    /// Waiting for the connect call's outcome.
    Connecting,
    /// Connected; waiting for the write call's outcome.
    Writing,
    /// Written (or not); waiting for the flush call's outcome.
    Flushing,
    /// Flushed (or not); waiting for the shutdown call's outcome.
    ShuttingDown,
    /// The path has finished; nothing more is emitted.
    Done,
}

/// Mathematical image of a [`TcpSender`].
pub struct TcpSenderView {
    /// The target endpoint.
    pub endpoint: EndpointView,
    /// The caller-supplied token carried in the emitted events.
    pub token: Seq<char>,
    /// Payload length in bytes.
    pub data_len: int,
    /// Where the path stands.
    pub phase: TcpSendPhase,
}

/// The stream sender: connect, then write all bytes, then flush, then shut
/// both directions down, emitting events at every step.
#[derive(Debug)]
pub struct TcpSender {
    /// The target endpoint.
    pub endpoint: Endpoint,
    /// The caller-supplied token carried in the emitted events.
    pub token: String,
    /// Payload length in bytes.
    pub data_len: usize,
    /// Where the path stands.
    pub phase: TcpSendPhase,
}

impl View for TcpSender {
    type V = TcpSenderView;

    open spec fn view(&self) -> TcpSenderView {
        TcpSenderView {
            endpoint: self.endpoint@,
            token: self.token@,
            data_len: self.data_len as int,
            phase: self.phase,
        }
    }
}

/// The reason string of a failed shutdown call.
pub open spec fn spec_shutdown_reason(reason: Seq<char>) -> Seq<char> {
    "Shutdown failed: "@ + reason
}

/// One step of the stream send path: from the current phase and the outcome
/// of that phase's I/O call to the next phase and the emitted events.
///
/// A connect failure is classified and ends the path with exactly one
/// connection-failed event.  A connect success establishes the connection.
/// Write and flush failures emit a send-failed event but the path still goes
/// on to the cleanup steps.  A successful shutdown emits the closed event.
pub open spec fn spec_tcp_send_step(v: TcpSenderView, o: IoOutcomeView) -> (
    TcpSenderView,
    Seq<EventView>,
) {
    match v.phase {
        TcpSendPhase::Connecting => match o {
            IoOutcomeView::Done => (
                TcpSenderView { phase: TcpSendPhase::Writing, ..v },
                seq![
                    EventView::Connection(ConnectionEventView::Established { remote: v.endpoint }),
                ],
            ),
            IoOutcomeView::Failed { kind, reason } => (
                TcpSenderView { phase: TcpSendPhase::Done, ..v },
                seq![
                    EventView::Error(
                        ErrorEventView::ConnectionFailed {
                            endpoint: v.endpoint,
                            reason: spec_classify_io_error(kind),
                            token: v.token,
                        },
                    ),
                ],
            ),
        },
        TcpSendPhase::Writing => match o {
            IoOutcomeView::Done => (
                TcpSenderView { phase: TcpSendPhase::Flushing, ..v },
                seq![
                    EventView::Data(
                        DataEventView::Sent {
                            message_id: v.token,
                            to: v.endpoint,
                            bytes_sent: v.data_len,
                        },
                    ),
                ],
            ),
            IoOutcomeView::Failed { kind, reason } => (
                TcpSenderView { phase: TcpSendPhase::Flushing, ..v },
                seq![
                    EventView::Error(
                        ErrorEventView::SendFailed {
                            endpoint: v.endpoint,
                            token: v.token,
                            reason,
                        },
                    ),
                ],
            ),
        },
        TcpSendPhase::Flushing => match o {
            IoOutcomeView::Done => (
                TcpSenderView { phase: TcpSendPhase::ShuttingDown, ..v },
                Seq::<EventView>::empty(),
            ),
            IoOutcomeView::Failed { kind, reason } => (
                TcpSenderView { phase: TcpSendPhase::ShuttingDown, ..v },
                seq![
                    EventView::Error(
                        ErrorEventView::SendFailed {
                            endpoint: v.endpoint,
                            token: v.token,
                            reason,
                        },
                    ),
                ],
            ),
        },
        TcpSendPhase::ShuttingDown => match o {
            IoOutcomeView::Done => (
                TcpSenderView { phase: TcpSendPhase::Done, ..v },
                seq![
                    EventView::Connection(
                        ConnectionEventView::Closed { remote: Some(v.endpoint) },
                    ),
                ],
            ),
            IoOutcomeView::Failed { kind, reason } => (
                TcpSenderView { phase: TcpSendPhase::Done, ..v },
                seq![
                    EventView::Error(
                        ErrorEventView::SendFailed {
                            endpoint: v.endpoint,
                            token: v.token,
                            reason: spec_shutdown_reason(reason),
                        },
                    ),
                ],
            ),
        },
        TcpSendPhase::Done => (v, Seq::<EventView>::empty()),
    }
}

impl TcpSender {
    /// A stream send path about to connect to `endpoint`.
    pub fn new(endpoint: Endpoint, token: String, data_len: usize) -> (r: Self)
        ensures
            r@ == (TcpSenderView {
                endpoint: endpoint@,
                token: token@,
                data_len: data_len as int,
                phase: TcpSendPhase::Connecting,
            }),
    {
        TcpSender { endpoint, token, data_len, phase: TcpSendPhase::Connecting }
    }

    /// Advances the send path by one step, handing back the events the
    /// outcome of the current phase's I/O call produces.
    pub fn send(&mut self, outcome: IoOutcome) -> (r: Vec<SocketEngineEvent>)
        ensures
            (final (self)@, views_of_events(r@)) == spec_tcp_send_step(old(self)@, outcome@),
    {
        let mut events: Vec<SocketEngineEvent> = Vec::new();
        match self.phase {
            TcpSendPhase::Connecting => match outcome {
                IoOutcome::Done => {
                    self.phase = TcpSendPhase::Writing;
                    events.push(
                        SocketEngineEvent::Connection(
                            ConnectionEvent::Established { remote: self.endpoint.clone() },
                        ),
                    );
                    proof {
                        assert(views_of_events(events@) =~= spec_tcp_send_step(
                            old(self)@,
                            outcome@,
                        ).1);
                    }
                },
                IoOutcome::Failed { kind, reason } => {
                    self.phase = TcpSendPhase::Done;
                    events.push(
                        SocketEngineEvent::Error(
                            ErrorEvent::ConnectionFailed {
                                endpoint: self.endpoint.clone(),
                                reason: crate::event::ConnectionFailureReason::from_io_error_kind(
                                    kind,
                                ),
                                token: self.token.clone(),
                            },
                        ),
                    );
                    proof {
                        assert(views_of_events(events@) =~= spec_tcp_send_step(
                            old(self)@,
                            outcome@,
                        ).1);
                    }
                },
            },
            TcpSendPhase::Writing => match outcome {
                IoOutcome::Done => {
                    self.phase = TcpSendPhase::Flushing;
                    events.push(
                        SocketEngineEvent::Data(
                            DataEvent::Sent {
                                message_id: self.token.clone(),
                                to: self.endpoint.clone(),
                                bytes_sent: self.data_len,
                            },
                        ),
                    );
                    proof {
                        assert(views_of_events(events@) =~= spec_tcp_send_step(
                            old(self)@,
                            outcome@,
                        ).1);
                    }
                },
                IoOutcome::Failed { kind: _, reason } => {
                    self.phase = TcpSendPhase::Flushing;
                    events.push(
                        SocketEngineEvent::Error(
                            ErrorEvent::SendFailed {
                                endpoint: self.endpoint.clone(),
                                token: self.token.clone(),
                                reason,
                            },
                        ),
                    );
                    proof {
                        assert(views_of_events(events@) =~= spec_tcp_send_step(
                            old(self)@,
                            outcome@,
                        ).1);
                    }
                },
            },
            TcpSendPhase::Flushing => match outcome {
                IoOutcome::Done => {
                    self.phase = TcpSendPhase::ShuttingDown;
                    proof {
                        assert(views_of_events(events@) =~= spec_tcp_send_step(
                            old(self)@,
                            outcome@,
                        ).1);
                    }
                },
                IoOutcome::Failed { kind: _, reason } => {
                    self.phase = TcpSendPhase::ShuttingDown;
                    events.push(
                        SocketEngineEvent::Error(
                            ErrorEvent::SendFailed {
                                endpoint: self.endpoint.clone(),
                                token: self.token.clone(),
                                reason,
                            },
                        ),
                    );
                    proof {
                        assert(views_of_events(events@) =~= spec_tcp_send_step(
                            old(self)@,
                            outcome@,
                        ).1);
                    }
                },
            },
            TcpSendPhase::ShuttingDown => match outcome {
                IoOutcome::Done => {
                    self.phase = TcpSendPhase::Done;
                    events.push(
                        SocketEngineEvent::Connection(
                            ConnectionEvent::Closed { remote: Some(self.endpoint.clone()) },
                        ),
                    );
                    proof {
                        assert(views_of_events(events@) =~= spec_tcp_send_step(
                            old(self)@,
                            outcome@,
                        ).1);
                    }
                },
                IoOutcome::Failed { kind: _, reason } => {
                    self.phase = TcpSendPhase::Done;
                    let ghost reason_v = reason@;
                    let mut text = String::from_str("Shutdown failed: ");
                    text.append(reason.as_str());
                    proof {
                        reveal_strlit("Shutdown failed: ");
                    }
                    events.push(
                        SocketEngineEvent::Error(
                            ErrorEvent::SendFailed {
                                endpoint: self.endpoint.clone(),
                                token: self.token.clone(),
                                reason: text,
                            },
                        ),
                    );
                    proof {
                        assert(views_of_events(events@) =~= spec_tcp_send_step(
                            old(self)@,
                            outcome@,
                        ).1);
                    }
                },
            },
            TcpSendPhase::Done => {
                proof {
                    assert(views_of_events(events@) =~= spec_tcp_send_step(old(self)@, outcome@).1);
                }
            },
        }
        events
    }
}

/// A refused (or otherwise failed) connect emits exactly one
/// connection-failed event, carrying the classified reason, and ends the
/// path: no sent, established or closed event can follow, whatever outcomes
/// later calls would report.
pub proof fn lemma_failed_connect_emits_one_failure(
    v: TcpSenderView,
    kind: IoErrorKind,
    reason: Seq<char>,
)
    requires
        v.phase == TcpSendPhase::Connecting,
    ensures
        ({
            let (next, events) = spec_tcp_send_step(
                v,
                IoOutcomeView::Failed { kind, reason },
            );
            &&& events == seq![
                EventView::Error(
                    ErrorEventView::ConnectionFailed {
                        endpoint: v.endpoint,
                        reason: spec_classify_io_error(kind),
                        token: v.token,
                    },
                ),
            ]
            &&& next.phase == TcpSendPhase::Done
            &&& forall|o: IoOutcomeView| (#[trigger] spec_tcp_send_step(next, o)).1
                == Seq::<EventView>::empty()
        }),
{
}

} // verus!
