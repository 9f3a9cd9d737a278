//! The engine: observer registration, the socket cache, and the synchronous
//! decisions behind starting a listener and sending a payload.
//!
//! Both operations return immediately.  A successful start or send hands the
//! runtime a plan — the resolved socket and, for a send, the target address
//! and payload — to carry out in the background; a synchronous failure is
//! reported as a socket-error event to every observer, never as a return
//! value.

use crate::cache::SocketCache;
use crate::endpoint::{Endpoint, EndpointProto, EndpointView};
use crate::event::{
    notify_all_observers, DataEvent, DataEventView, EngineObserver, ErrorEvent, ErrorEventView,
    EventView, SocketEngineEvent,
};
use crate::socket::{
    resolve_addr, spec_build_error_message, spec_new_socket, spec_resolve_addr, GenericSocket,
    GenericSocketView, ResolvedAddr,
};
use vstd::prelude::*;

verus! {

/// Every observer's delivery log grew by exactly `evs`, in order.
pub open spec fn all_pushed(
    before: Seq<Seq<EventView>>,
    after: Seq<Seq<EventView>>,
    evs: Seq<EventView>,
) -> bool {
    after.len() == before.len() && forall|i: int|
        0 <= i < before.len() ==> after[i] == before[i] + evs
}

/// Which send path a plan runs.
#[derive(Clone, Copy, Debug, PartialEq, Eq, Structural)]
pub enum SenderKind {
    /// Connect, write, flush, shut down: stream sockets.
    Stream,
    /// A single send-to call: datagram and custom-transport sockets.
    Oneshot,
}

/// The send path a socket's transport uses.
pub open spec fn spec_sender_kind(p: EndpointProto) -> SenderKind {
    match p {
        EndpointProto::Tcp => SenderKind::Stream,
        _ => SenderKind::Oneshot,
    }
}

/// A send is eligible for socket reuse: an explicit source endpoint was
/// given, the target transport is connectionless, and the cache holds a
/// socket for the source.
pub open spec fn spec_wants_reuse(
    source: Option<EndpointView>,
    target_proto: EndpointProto,
    cache: Map<EndpointView, GenericSocketView>,
) -> bool {
    match source {
        Some(k) => (target_proto is Udp || target_proto is Bp) && cache.contains_key(k),
        None => false,
    }
}

/// The view of an optional source endpoint.
pub open spec fn spec_opt_endpoint_view(o: Option<Endpoint>) -> Option<EndpointView> {
    match o {
        Some(ep) => Some(ep@),
        None => None,
    }
}

/// Everything the runtime needs to carry one send out: the socket to use,
/// where to send, the payload, and which path to run.
#[derive(Debug)]
pub struct SendPlan {
    /// The socket the send uses: a cached bound socket or a fresh one.
    pub socket: GenericSocket,
    /// Whether the socket came from the cache.
    pub reused: bool,
    /// The target endpoint, named in all events of this send.
    pub target: Endpoint,
    /// The resolved address of the target endpoint.
    pub target_addr: ResolvedAddr,
    /// The payload.
    pub data: Vec<u8>,
    /// The caller-supplied token carried in all events of this send.
    pub token: String,
    /// Which send path to run.
    pub kind: SenderKind,
}

/// The socket engine: an append-only observer registry and a cache of bound
/// sockets keyed by endpoint.
pub struct Engine<O: EngineObserver> {
    observers: Vec<O>,
    sockets: SocketCache,
}

impl<O: EngineObserver> Engine<O> {
    /// The delivery log of each registered observer, in registration order.
    pub closed spec fn observers_seen(&self) -> Seq<Seq<EventView>> {
        self.observers@.map_values(|o: O| o.seen())
    }

    /// The abstract socket cache.
    pub closed spec fn cache(&self) -> Map<EndpointView, GenericSocketView> {
        self.sockets@
    }

    /// An engine with no observers and an empty cache.
    pub fn new() -> (r: Self)
        ensures
            r.observers_seen() == Seq::<Seq<EventView>>::empty(),
            r.cache() == Map::<EndpointView, GenericSocketView>::empty(),
    {
        let r = Engine { observers: Vec::new(), sockets: SocketCache::new() };
        proof {
            assert(r.observers_seen() =~= Seq::<Seq<EventView>>::empty());
        }
        r
    }

    /// Registers one more observer; registration is append-only.
    pub fn add_observer(&mut self, obs: O)
        ensures
            final (self).observers_seen() == old(self).observers_seen().push(obs.seen()),
            final (self).cache() == old(self).cache(),
    {
        self.observers.push(obs);
        proof {
            assert(self.observers_seen() =~= old(self).observers_seen().push(obs.seen()));
        }
    }

    /// The registered observers, in registration order.
    pub fn observers(&self) -> (r: &Vec<O>)
        ensures
            r@.map_values(|o: O| o.seen()) == self.observers_seen(),
    {
        &self.observers
    }

    /// Fans one event out to every observer: the runtime delivers the
    /// events of listener steps and send steps through this.
    pub fn notify_observers(&mut self, event: &SocketEngineEvent)
        ensures
            final (self).cache() == old(self).cache(),
            all_pushed(
                old(self).observers_seen(),
                final (self).observers_seen(),
                seq![event@],
            ),
    {
        notify_all_observers(&mut self.observers, event);
        proof {
            let before = old(self).observers_seen();
            assert forall|i: int|
                0 <= i < before.len() implies #[trigger] self.observers_seen()[i] == before[i]
                + seq![event@] by {
                assert(self.observers@[i].seen() == old(self).observers@[i].seen().push(event@));
                assert(old(self).observers@[i].seen().push(event@) =~= old(self).observers@[i].seen()
                    + seq![event@]);
            }
        }
    }

    /// Builds a socket for `endpoint`, stores a duplicate in the cache for
    /// later reuse, and hands the socket back for the runtime to bind and
    /// run the matching listener loop on.  A resolution failure is reported
    /// to every observer as one socket-error event, and nothing is returned
    /// or cached.
    pub fn start_listener_async(&mut self, endpoint: Endpoint) -> (r: Option<GenericSocket>)
        ensures
            match spec_resolve_addr(endpoint@) {
                Ok(addr) => {
                    &&& r matches Some(s) && s@ == spec_new_socket(endpoint@)
                    &&& final (self).cache() == old(self).cache().insert(
                        endpoint@,
                        spec_new_socket(endpoint@),
                    )
                    &&& final (self).observers_seen() == old(self).observers_seen()
                },
                Err(e) => {
                    &&& r is None
                    &&& final (self).cache() == old(self).cache()
                    &&& all_pushed(
                        old(self).observers_seen(),
                        final (self).observers_seen(),
                        seq![
                            EventView::Error(
                                ErrorEventView::SocketError {
                                    endpoint: endpoint@,
                                    reason: spec_build_error_message(e),
                                },
                            ),
                        ],
                    )
                },
            },
    {
        match GenericSocket::new(endpoint.clone()) {
            Ok(sock) => {
                let dup = sock.duplicate();
                self.sockets.insert(endpoint, dup);
                Some(sock)
            },
            Err(e) => {
                let event = SocketEngineEvent::Error(
                    ErrorEvent::SocketError { endpoint, reason: e.message() },
                );
                self.notify_observers(&event);
                None
            },
        }
    }

    /// Decides how one send request is carried out and announces it.
    ///
    /// The target address is resolved; on failure every observer gets one
    /// socket-error event and nothing more happens.  Otherwise every
    /// observer first gets the sending event, and the returned plan names
    /// the socket to use — the cached socket of the source endpoint when one
    /// was given, the target transport is connectionless and the cache holds
    /// it, else a fresh socket for the target — together with the resolved
    /// target address, the payload and the send path to run.  All further
    /// outcomes surface only as events of that path.
    pub fn send_async(
        &mut self,
        source_endpoint: Option<Endpoint>,
        target_endpoint: Endpoint,
        data: Vec<u8>,
        token: String,
    ) -> (r: Option<SendPlan>)
        ensures
            final (self).cache() == old(self).cache(),
            match spec_resolve_addr(target_endpoint@) {
                Err(e) => {
                    &&& r is None
                    &&& all_pushed(
                        old(self).observers_seen(),
                        final (self).observers_seen(),
                        seq![
                            EventView::Error(
                                ErrorEventView::SocketError {
                                    endpoint: target_endpoint@,
                                    reason: spec_build_error_message(e),
                                },
                            ),
                        ],
                    )
                },
                Ok(addr) => {
                    &&& all_pushed(
                        old(self).observers_seen(),
                        final (self).observers_seen(),
                        seq![
                            EventView::Data(
                                DataEventView::Sending {
                                    message_id: token@,
                                    to: target_endpoint@,
                                    bytes: data@.len() as int,
                                },
                            ),
                        ],
                    )
                    &&& r matches Some(p) && {
                        &&& p.target@ == target_endpoint@
                        &&& p.target_addr == addr
                        &&& p.data@ == data@
                        &&& p.token@ == token@
                        &&& p.kind == spec_sender_kind(p.socket@.endpoint.proto)
                        &&& if spec_wants_reuse(
                            spec_opt_endpoint_view(source_endpoint),
                            target_endpoint@.proto,
                            old(self).cache(),
                        ) {
                            p.reused && p.socket@ == old(self).cache()[spec_opt_endpoint_view(
                                source_endpoint,
                            ).unwrap()]
                        } else {
                            !p.reused && p.socket@ == spec_new_socket(target_endpoint@)
                        }
                    }
                },
            },
    {
        let connectionless = match target_endpoint.proto {
            EndpointProto::Udp | EndpointProto::Bp => true,
            EndpointProto::Tcp => false,
        };
        let cached: Option<GenericSocket> = if connectionless {
            match &source_endpoint {
                Some(src) => match self.sockets.get(src) {
                    Some(s) => Some(s.duplicate()),
                    None => None,
                },
                None => None,
            }
        } else {
            None
        };
        let target_addr = match resolve_addr(&target_endpoint) {
            Ok(a) => a,
            Err(e) => {
                let event = SocketEngineEvent::Error(
                    ErrorEvent::SocketError { endpoint: target_endpoint, reason: e.message() },
                );
                self.notify_observers(&event);
                return None;
            },
        };
        let (socket, reused) = match cached {
            Some(s) => (s, true),
            None => match GenericSocket::new(target_endpoint.clone()) {
                Ok(s) => (s, false),
                Err(_) => {
                    // The target address resolved above, so building the
                    // socket cannot fail.
                    proof {
                        assert(false);
                    }
                    return None;
                },
            },
        };
        let event = SocketEngineEvent::Data(
            DataEvent::Sending {
                message_id: token.clone(),
                to: target_endpoint.clone(),
                bytes: data.len(),
            },
        );
        self.notify_observers(&event);
        let kind = match socket.endpoint.proto {
            EndpointProto::Tcp => SenderKind::Stream,
            EndpointProto::Udp | EndpointProto::Bp => SenderKind::Oneshot,
        };
        Some(SendPlan { socket, reused, target: target_endpoint, target_addr, data, token, kind })
    }
}

} // verus!
