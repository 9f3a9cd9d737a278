//! Engine events, their mathematical views, the failure taxonomy, and the
//! observer bus that fans every event out to all registered observers.

use crate::endpoint::{Endpoint, EndpointView};
use vstd::prelude::*;

verus! {

/// How a connection attempt failed, derived from the I/O error class.
#[derive(Clone, Copy, Debug, PartialEq, Eq, Structural)]
pub enum ConnectionFailureReason {
    /// The remote end actively refused the connection.
    Refused,
    /// The attempt timed out.
    Timeout,
    /// No route to the network.
    NetworkUnreachable,
    /// Any other error class.
    Other,
}

/// The classes of I/O error the engine's decisions distinguish.  The
/// surrounding runtime translates the platform's error kinds into this
/// closed set before handing an outcome to the engine.
#[derive(Clone, Copy, Debug, PartialEq, Eq, Structural)]
pub enum IoErrorKind {
    /// The remote end refused the connection.
    ConnectionRefused,
    /// The operation timed out.
    TimedOut,
    /// The network is unreachable.
    NetworkUnreachable,
    /// The operation would block; a transient condition.
    WouldBlock,
    /// The call was interrupted before it could finish.
    Interrupted,
    /// Every other error class.
    Other,
}

/// The classification every connection failure goes through.
pub open spec fn spec_classify_io_error(kind: IoErrorKind) -> ConnectionFailureReason {
    match kind {
        IoErrorKind::ConnectionRefused => ConnectionFailureReason::Refused,
        IoErrorKind::TimedOut => ConnectionFailureReason::Timeout,
        IoErrorKind::NetworkUnreachable => ConnectionFailureReason::NetworkUnreachable,
        _ => ConnectionFailureReason::Other,
    }
}

impl ConnectionFailureReason {
    /// Deterministic classification of an I/O error class into the closed
    /// failure set.
    pub fn from_io_error_kind(kind: IoErrorKind) -> (r: Self)
        ensures
            r == spec_classify_io_error(kind),
    {
        match kind {
            IoErrorKind::ConnectionRefused => ConnectionFailureReason::Refused,
            IoErrorKind::TimedOut => ConnectionFailureReason::Timeout,
            IoErrorKind::NetworkUnreachable => ConnectionFailureReason::NetworkUnreachable,
            _ => ConnectionFailureReason::Other,
        }
    }
}

/// Mathematical image of a [`DataEvent`].
pub enum DataEventView {
    /// Bytes arrived from a peer.
    Received { data: Seq<u8>, from: EndpointView },
    /// A send request was accepted and is about to be carried out.
    Sending { message_id: Seq<char>, to: EndpointView, bytes: int },
    /// A send completed.
    Sent { message_id: Seq<char>, to: EndpointView, bytes_sent: int },
}

/// Mathematical image of a [`ConnectionEvent`].
pub enum ConnectionEventView {
    /// A listener is bound and receiving.
    ListenerStarted { endpoint: EndpointView },
    /// A stream connection was established.
    Established { remote: EndpointView },
    /// A stream connection closed; the peer is named when it is known.
    Closed { remote: Option<EndpointView> },
}

/// Mathematical image of an [`ErrorEvent`].
pub enum ErrorEventView {
    /// A connection attempt failed, with its classified reason.
    ConnectionFailed { endpoint: EndpointView, reason: ConnectionFailureReason, token: Seq<char> },
    /// A send failed after any connection phase.
    SendFailed { endpoint: EndpointView, token: Seq<char>, reason: Seq<char> },
    /// A receive loop hit a genuine error.
    ReceiveFailed { endpoint: EndpointView, reason: Seq<char> },
    /// Socket construction or a listener loop failed.
    SocketError { endpoint: EndpointView, reason: Seq<char> },
}

/// Mathematical image of a [`SocketEngineEvent`].
pub enum EventView {
    Data(DataEventView),
    Connection(ConnectionEventView),
    Error(ErrorEventView),
}

/// Payload traffic events.
#[derive(Debug, PartialEq)]
pub enum DataEvent {
    /// Bytes arrived from a peer.
    Received { data: Vec<u8>, from: Endpoint },
    /// A send request was accepted and is about to be carried out.
    Sending { message_id: String, to: Endpoint, bytes: usize },
    /// A send completed.
    Sent { message_id: String, to: Endpoint, bytes_sent: usize },
}

/// Connection lifecycle events.
#[derive(Debug, PartialEq)]
pub enum ConnectionEvent {
    /// A listener is bound and receiving.
    ListenerStarted { endpoint: Endpoint },
    /// A stream connection was established.
    Established { remote: Endpoint },
    /// A stream connection closed; the peer is named when it is known.
    Closed { remote: Option<Endpoint> },
}

/// Failure events.
#[derive(Debug, PartialEq)]
pub enum ErrorEvent {
    /// A connection attempt failed, with its classified reason.
    ConnectionFailed { endpoint: Endpoint, reason: ConnectionFailureReason, token: String },
    /// A send failed after any connection phase.
    SendFailed { endpoint: Endpoint, token: String, reason: String },
    /// A receive loop hit a genuine error.
    ReceiveFailed { endpoint: Endpoint, reason: String },
    /// Socket construction or a listener loop failed.
    SocketError { endpoint: Endpoint, reason: String },
}

/// One engine event: an immutable snapshot handed to every observer.
#[derive(Debug, PartialEq)]
pub enum SocketEngineEvent {
    Data(DataEvent),
    Connection(ConnectionEvent),
    Error(ErrorEvent),
}

impl View for DataEvent {
    type V = DataEventView;

    open spec fn view(&self) -> DataEventView {
        match self {
            DataEvent::Received { data, from } => DataEventView::Received {
                data: data@,
                from: from@,
            },
            DataEvent::Sending { message_id, to, bytes } => DataEventView::Sending {
                message_id: message_id@,
                to: to@,
                bytes: *bytes as int,
            },
            DataEvent::Sent { message_id, to, bytes_sent } => DataEventView::Sent {
                message_id: message_id@,
                to: to@,
                bytes_sent: *bytes_sent as int,
            },
        }
    }
}

impl View for ConnectionEvent {
    type V = ConnectionEventView;

    open spec fn view(&self) -> ConnectionEventView {
        match self {
            ConnectionEvent::ListenerStarted { endpoint } => ConnectionEventView::ListenerStarted {
                endpoint: endpoint@,
            },
            ConnectionEvent::Established { remote } => ConnectionEventView::Established {
                remote: remote@,
            },
            ConnectionEvent::Closed { remote } => ConnectionEventView::Closed {
                remote: match remote {
                    Some(ep) => Some(ep@),
                    None => None,
                },
            },
        }
    }
}

impl View for ErrorEvent {
    type V = ErrorEventView;

    open spec fn view(&self) -> ErrorEventView {
        match self {
            ErrorEvent::ConnectionFailed { endpoint, reason, token } =>
                ErrorEventView::ConnectionFailed {
                endpoint: endpoint@,
                reason: *reason,
                token: token@,
            },
            ErrorEvent::SendFailed { endpoint, token, reason } => ErrorEventView::SendFailed {
                endpoint: endpoint@,
                token: token@,
                reason: reason@,
            },
            ErrorEvent::ReceiveFailed { endpoint, reason } => ErrorEventView::ReceiveFailed {
                endpoint: endpoint@,
                reason: reason@,
            },
            ErrorEvent::SocketError { endpoint, reason } => ErrorEventView::SocketError {
                endpoint: endpoint@,
                reason: reason@,
            },
        }
    }
}

impl View for SocketEngineEvent {
    type V = EventView;

    open spec fn view(&self) -> EventView {
        match self {
            SocketEngineEvent::Data(d) => EventView::Data(d@),
            SocketEngineEvent::Connection(c) => EventView::Connection(c@),
            SocketEngineEvent::Error(e) => EventView::Error(e@),
        }
    }
}

/// Copies a byte vector, preserving its contents exactly.
fn clone_bytes(v: &Vec<u8>) -> (r: Vec<u8>)
    ensures
        r@ == v@,
{
    let r = v.clone();
    proof {
        assert forall|i: int| 0 <= i < v@.len() implies r@[i] == v@[i] by {
            assert(cloned::<u8>(v@[i], r@[i]));
        }
        assert(r@ =~= v@);
    }
    r
}

impl Clone for DataEvent {
    fn clone(&self) -> (r: Self)
        ensures
            r@ == self@,
    {
        match self {
            DataEvent::Received { data, from } => DataEvent::Received {
                data: clone_bytes(data),
                from: from.clone(),
            },
            DataEvent::Sending { message_id, to, bytes } => DataEvent::Sending {
                message_id: message_id.clone(),
                to: to.clone(),
                bytes: *bytes,
            },
            DataEvent::Sent { message_id, to, bytes_sent } => DataEvent::Sent {
                message_id: message_id.clone(),
                to: to.clone(),
                bytes_sent: *bytes_sent,
            },
        }
    }
}

impl Clone for ConnectionEvent {
    fn clone(&self) -> (r: Self)
        ensures
            r@ == self@,
    {
        match self {
            ConnectionEvent::ListenerStarted { endpoint } => ConnectionEvent::ListenerStarted {
                endpoint: endpoint.clone(),
            },
            ConnectionEvent::Established { remote } => ConnectionEvent::Established {
                remote: remote.clone(),
            },
            ConnectionEvent::Closed { remote } => ConnectionEvent::Closed {
                remote: match remote {
                    Some(ep) => Some(ep.clone()),
                    None => None,
                },
            },
        }
    }
}

impl Clone for ErrorEvent {
    fn clone(&self) -> (r: Self)
        ensures
            r@ == self@,
    {
        match self {
            ErrorEvent::ConnectionFailed { endpoint, reason, token } =>
                ErrorEvent::ConnectionFailed {
                endpoint: endpoint.clone(),
                reason: *reason,
                token: token.clone(),
            },
            ErrorEvent::SendFailed { endpoint, token, reason } => ErrorEvent::SendFailed {
                endpoint: endpoint.clone(),
                token: token.clone(),
                reason: reason.clone(),
            },
            ErrorEvent::ReceiveFailed { endpoint, reason } => ErrorEvent::ReceiveFailed {
                endpoint: endpoint.clone(),
                reason: reason.clone(),
            },
            ErrorEvent::SocketError { endpoint, reason } => ErrorEvent::SocketError {
                endpoint: endpoint.clone(),
                reason: reason.clone(),
            },
        }
    }
}

impl Clone for SocketEngineEvent {
    fn clone(&self) -> (r: Self)
        ensures
            r@ == self@,
    {
        match self {
            SocketEngineEvent::Data(d) => SocketEngineEvent::Data(d.clone()),
            SocketEngineEvent::Connection(c) => SocketEngineEvent::Connection(c.clone()),
            SocketEngineEvent::Error(e) => SocketEngineEvent::Error(e.clone()),
        }
    }
}

/// The views of a sequence of events, in order.
pub open spec fn views_of_events(events: Seq<SocketEngineEvent>) -> Seq<EventView> {
    events.map_values(|e: SocketEngineEvent| e@)
}

/// A consumer of engine events.
///
/// The ghost sequence [`EngineObserver::seen`] records every event the
/// observer has been handed, in delivery order; each delivery appends
/// exactly one event to it, so no event is lost or reordered on its way to
/// any single observer.
pub trait EngineObserver: Sized {
    /// The events delivered to this observer so far, oldest first.
    ///
    /// Every implementation that is verified must override this with its
    /// own log: under the default, the delivery contract below cannot be
    /// met.  The default exists only so that client code outside the
    /// verifier, which cannot name ghost types, can still implement the
    /// trait.
    open spec fn seen(&self) -> Seq<EventView> {
        Seq::empty()
    }

    /// Delivers one event.
    fn on_engine_event(&mut self, event: SocketEngineEvent)
        ensures
            final (self).seen() == old(self).seen().push(event@),
    ;
}

/// Delivers one event to every registered observer, in registration order.
/// Each observer sees exactly this event appended to its delivery log.
pub fn notify_all_observers<O: EngineObserver>(
    observers: &mut Vec<O>,
    event: &SocketEngineEvent,
)
    ensures
        final (observers)@.len() == old(observers)@.len(),
        forall|i: int|
            0 <= i < old(observers)@.len() ==> #[trigger] final (observers)@[i].seen() == old(
                observers,
            )@[i].seen().push(event@),
{
    let n = observers.len();
    let mut i: usize = 0;
    while i < n
        invariant
            0 <= i <= n,
            observers@.len() == n,
            forall|j: int|
                0 <= j < i ==> #[trigger] observers@[j].seen() == old(
                    observers,
                )@[j].seen().push(event@),
            forall|j: int| i <= j < n ==> #[trigger] observers@[j] == old(observers)@[j],
        decreases n - i,
    {
        let mut obs = observers.remove(i);
        obs.on_engine_event(event.clone());
        observers.insert(i, obs);
        i += 1;
    }
}

/// An observer that stores every delivered event; the executable twin of the
/// ghost delivery log.
#[derive(Debug)]
pub struct RecordingObserver {
    /// Every event delivered so far, oldest first.
    pub events: Vec<SocketEngineEvent>,
}

impl RecordingObserver {
    /// An observer that has seen nothing yet.
    pub fn new() -> (r: Self)
        ensures
            r.seen() == Seq::<EventView>::empty(),
            r.events@.len() == 0,
    {
        let r = RecordingObserver { events: Vec::new() };
        proof {
            assert(r.seen() =~= Seq::<EventView>::empty());
        }
        r
    }
}

impl EngineObserver for RecordingObserver {
    open spec fn seen(&self) -> Seq<EventView> {
        self.events@.map_values(|e: SocketEngineEvent| e@)
    }

    fn on_engine_event(&mut self, event: SocketEngineEvent) {
        self.events.push(event);
        proof {
            assert(self.seen() =~= old(self).seen().push(event@));
        }
    }
}

/// The artificial delivery delay for received-data events: the configured
/// value when one is present, else the default.
pub open spec fn spec_receive_delay(config_ms: Option<u64>) -> u64 {
    match config_ms {
        Some(ms) => ms,
        None => crate::constants::DEFAULT_RECEIVE_DELAY_MS,
    }
}

/// The event is a received-data event.
pub open spec fn spec_is_received(v: EventView) -> bool {
    match v {
        EventView::Data(d) => d is Received,
        _ => false,
    }
}

/// Decides whether delivery of `event` is to be delayed, and by how many
/// milliseconds: only received-data events are delayed, by the configured
/// value or its default.
pub fn delay_for_event(event: &SocketEngineEvent, config_ms: Option<u64>) -> (r: Option<u64>)
    ensures
        r == if spec_is_received(event@) {
            Some(spec_receive_delay(config_ms))
        } else {
            None::<u64>
        },
{
    match event {
        SocketEngineEvent::Data(DataEvent::Received { .. }) => match config_ms {
            Some(ms) => Some(ms),
            None => Some(crate::constants::DEFAULT_RECEIVE_DELAY_MS),
        },
        _ => None,
    }
}

} // verus!
