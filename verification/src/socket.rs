//! The generic socket factory: resolving an endpoint into socket-creation
//! parameters (family, type, protocol) and a destination or bind address,
//! and the listening flag that makes starting a listener idempotent.
//!
//! The operating-system handle itself lives outside this crate; the runtime
//! pairs each [`GenericSocket`] with one OS socket created from its
//! [`SocketParams`] and configured and bound as its [`ListenPlan`] says.

use crate::bpaddr::{create_bp_sockaddr_with_string, spec_build_bp_addr, BpAddrError, SockAddrBp};
use crate::constants::{AF_BP, AF_INET, AF_INET6, IPPROTO_TCP, IPPROTO_UDP, SOCK_DGRAM, SOCK_STREAM};
use crate::endpoint::{Endpoint, EndpointProto, EndpointView};
use crate::ipv6::{parse_v6, spec_parse_v6, Ipv6AddrPort};
use crate::scan::{find_char, is_u32_token, parse_u32_range, spec_find, u32_token_val};
use vstd::prelude::*;
use vstd::string::StrSliceExecFns;

verus! {

/// An IPv4 address and port, the resolved form of a `<host>:<port>` string.
#[derive(Clone, Copy, Debug, PartialEq, Eq, Structural)]
pub struct Ipv4AddrPort {
    /// First octet.
    pub a: u8,
    /// Second octet.
    pub b: u8,
    /// Third octet.
    pub c: u8,
    /// Fourth octet.
    pub d: u8,
    /// Port number.
    pub port: u16,
}

/// A numeric token whose value fits in one address octet.
pub open spec fn is_octet(s: Seq<char>) -> bool {
    is_u32_token(s) && u32_token_val(s) <= 255
}

/// What IPv4 address parsing returns for every input: the input splits at
/// its first colon into a host and a port token; the host splits at dots
/// into exactly four octet tokens; the port fits in 16 bits.
pub open spec fn spec_parse_v4(s: Seq<char>) -> Option<Ipv4AddrPort> {
    match spec_find(s, ':') {
        None => None,
        Some(colon) => {
            let host = s.take(colon);
            let port_tok = s.skip(colon + 1);
            if !(is_u32_token(port_tok) && u32_token_val(port_tok) <= u16::MAX) {
                None
            } else {
                match spec_find(host, '.') {
                    None => None,
                    Some(p1) => {
                        let o1 = host.take(p1);
                        let r1 = host.skip(p1 + 1);
                        match spec_find(r1, '.') {
                            None => None,
                            Some(p2) => {
                                let o2 = r1.take(p2);
                                let r2 = r1.skip(p2 + 1);
                                match spec_find(r2, '.') {
                                    None => None,
                                    Some(p3) => {
                                        let o3 = r2.take(p3);
                                        let o4 = r2.skip(p3 + 1);
                                        if is_octet(o1) && is_octet(o2) && is_octet(o3)
                                            && is_octet(o4) {
                                            Some(
                                                Ipv4AddrPort {
                                                    a: u32_token_val(o1) as u8,
                                                    b: u32_token_val(o2) as u8,
                                                    c: u32_token_val(o3) as u8,
                                                    d: u32_token_val(o4) as u8,
                                                    port: u32_token_val(port_tok) as u16,
                                                },
                                            )
                                        } else {
                                            None
                                        }
                                    },
                                }
                            },
                        }
                    },
                }
            }
        },
    }
}

/// Parses `<a>.<b>.<c>.<d>:<port>` notation into an address-and-port value.
pub fn parse_v4(s: &str) -> (r: Option<Ipv4AddrPort>)
    ensures
        r == spec_parse_v4(s@),
{
    let n = s.unicode_len();
    let colon = match find_char(s, ':') {
        Some(i) => i,
        None => {
            return None;
        },
    };
    proof {
        crate::scan::lemma_spec_find(s@, ':');
    }
    let port = match parse_u32_range(s, colon + 1, n) {
        Some(v) => {
            proof {
                assert(s@.subrange(colon + 1, n as int) =~= s@.skip(colon + 1));
            }
            if v > 65535 {
                return None;
            }
            v as u16
        },
        None => {
            proof {
                assert(s@.subrange(colon + 1, n as int) =~= s@.skip(colon + 1));
            }
            return None;
        },
    };
    let host = s.substring_char(0, colon);
    let ghost host_v = s@.take(colon as int);
    proof {
        assert(host@ =~= host_v);
    }
    let hn = host.unicode_len();
    let p1 = match find_char(host, '.') {
        Some(i) => i,
        None => {
            return None;
        },
    };
    proof {
        crate::scan::lemma_spec_find(host@, '.');
    }
    let o1 = match parse_u32_range(host, 0, p1) {
        Some(v) => {
            proof {
                assert(host@.subrange(0, p1 as int) =~= host_v.take(p1 as int));
            }
            if v > 255 {
                return None;
            }
            v as u8
        },
        None => {
            proof {
                assert(host@.subrange(0, p1 as int) =~= host_v.take(p1 as int));
            }
            return None;
        },
    };
    let rest1 = host.substring_char(p1 + 1, hn);
    let ghost r1_v = host_v.skip(p1 + 1);
    proof {
        assert(rest1@ =~= r1_v);
    }
    let r1n = rest1.unicode_len();
    let p2 = match find_char(rest1, '.') {
        Some(i) => i,
        None => {
            return None;
        },
    };
    proof {
        crate::scan::lemma_spec_find(rest1@, '.');
    }
    let o2 = match parse_u32_range(rest1, 0, p2) {
        Some(v) => {
            proof {
                assert(rest1@.subrange(0, p2 as int) =~= r1_v.take(p2 as int));
            }
            if v > 255 {
                return None;
            }
            v as u8
        },
        None => {
            proof {
                assert(rest1@.subrange(0, p2 as int) =~= r1_v.take(p2 as int));
            }
            return None;
        },
    };
    let rest2 = rest1.substring_char(p2 + 1, r1n);
    let ghost r2_v = r1_v.skip(p2 + 1);
    proof {
        assert(rest2@ =~= r2_v);
    }
    let r2n = rest2.unicode_len();
    let p3 = match find_char(rest2, '.') {
        Some(i) => i,
        None => {
            return None;
        },
    };
    proof {
        crate::scan::lemma_spec_find(rest2@, '.');
    }
    let o3 = match parse_u32_range(rest2, 0, p3) {
        Some(v) => {
            proof {
                assert(rest2@.subrange(0, p3 as int) =~= r2_v.take(p3 as int));
            }
            if v > 255 {
                return None;
            }
            v as u8
        },
        None => {
            proof {
                assert(rest2@.subrange(0, p3 as int) =~= r2_v.take(p3 as int));
            }
            return None;
        },
    };
    let o4 = match parse_u32_range(rest2, p3 + 1, r2n) {
        Some(v) => {
            proof {
                assert(rest2@.subrange(p3 + 1, r2n as int) =~= r2_v.skip(p3 + 1));
            }
            if v > 255 {
                return None;
            }
            v as u8
        },
        None => {
            proof {
                assert(rest2@.subrange(p3 + 1, r2n as int) =~= r2_v.skip(p3 + 1));
            }
            return None;
        },
    };
    Some(Ipv4AddrPort { a: o1, b: o2, c: o3, d: o4, port })
}

/// Family, type and protocol numbers an OS socket is created with.
#[derive(Clone, Copy, Debug, PartialEq, Eq, Structural)]
pub struct SocketParams {
    /// Address family.
    pub domain: i32,
    /// Socket type: stream or datagram.
    pub socket_type: i32,
    /// Transport protocol number; zero leaves the choice to the family.
    pub protocol: i32,
}

/// The resolved destination or bind address of a socket.
#[derive(Clone, Copy, Debug, PartialEq, Eq, Structural)]
pub enum ResolvedAddr {
    /// A standard IPv4 address and port.
    V4(Ipv4AddrPort),
    /// A standard IPv6 address and port.
    V6(Ipv6AddrPort),
    /// A custom-transport address record.
    Bp(SockAddrBp),
}

/// Why an endpoint could not be resolved into a socket.
#[derive(Clone, Copy, Debug, PartialEq, Eq, Structural)]
pub enum SocketBuildError {
    /// A datagram or stream address is neither `<a>.<b>.<c>.<d>:<port>`
    /// nor `[<v6-address>]:<port>`.
    InvalidAddress,
    /// A custom-transport address is not a well-formed `ipn:` name.
    InvalidBpAddress,
    /// A custom-transport address names the recognized but unimplemented
    /// `dtn:` scheme.
    UnsupportedBpScheme,
}

/// The socket family a resolved address lives in.
pub open spec fn spec_domain_of(addr: ResolvedAddr) -> int {
    match addr {
        ResolvedAddr::V4(_) => AF_INET as int,
        ResolvedAddr::V6(_) => AF_INET6 as int,
        ResolvedAddr::Bp(_) => AF_BP as int,
    }
}

/// The socket-creation parameters a transport and its resolved address use:
/// the family follows the address, while datagram endpoints get UDP
/// semantics, stream endpoints TCP semantics, and custom-transport
/// endpoints a datagram type with no fixed protocol.
pub open spec fn spec_socket_params(p: EndpointProto, addr: ResolvedAddr) -> SocketParams {
    match p {
        EndpointProto::Udp => SocketParams {
            domain: spec_domain_of(addr) as i32,
            socket_type: SOCK_DGRAM,
            protocol: IPPROTO_UDP,
        },
        EndpointProto::Tcp => SocketParams {
            domain: spec_domain_of(addr) as i32,
            socket_type: SOCK_STREAM,
            protocol: IPPROTO_TCP,
        },
        EndpointProto::Bp => SocketParams { domain: AF_BP, socket_type: SOCK_DGRAM, protocol: 0 },
    }
}

/// What address resolution returns for every endpoint: a standard address
/// is read as IPv4 or, failing that, as bracketed IPv6.
pub open spec fn spec_resolve_addr(v: EndpointView) -> Result<ResolvedAddr, SocketBuildError> {
    match v.proto {
        EndpointProto::Udp | EndpointProto::Tcp => match spec_parse_v4(v.addr) {
            Some(a) => Ok(ResolvedAddr::V4(a)),
            None => match spec_parse_v6(v.addr) {
                Some(a) => Ok(ResolvedAddr::V6(a)),
                None => Err(SocketBuildError::InvalidAddress),
            },
        },
        EndpointProto::Bp => match spec_build_bp_addr(v.addr) {
            Ok(rec) => Ok(ResolvedAddr::Bp(rec)),
            Err(BpAddrError::InvalidInput) => Err(SocketBuildError::InvalidBpAddress),
            Err(BpAddrError::Unsupported) => Err(SocketBuildError::UnsupportedBpScheme),
        },
    }
}

impl SocketBuildError {
    /// A short human-readable reason, carried in error events.
    pub fn message(&self) -> (r: String)
        ensures
            r@ == spec_build_error_message(*self),
    {
        match self {
            SocketBuildError::InvalidAddress => {
                let m = String::from_str("invalid socket address");
                proof {
                    reveal_strlit("invalid socket address");
                }
                m
            },
            SocketBuildError::InvalidBpAddress => {
                let m = String::from_str("invalid ipn endpoint");
                proof {
                    reveal_strlit("invalid ipn endpoint");
                }
                m
            },
            SocketBuildError::UnsupportedBpScheme => {
                let m = String::from_str("dtn scheme not yet implemented");
                proof {
                    reveal_strlit("dtn scheme not yet implemented");
                }
                m
            },
        }
    }
}

/// The reason string of each resolution failure.
pub open spec fn spec_build_error_message(e: SocketBuildError) -> Seq<char> {
    match e {
        SocketBuildError::InvalidAddress => "invalid socket address"@,
        SocketBuildError::InvalidBpAddress => "invalid ipn endpoint"@,
        SocketBuildError::UnsupportedBpScheme => "dtn scheme not yet implemented"@,
    }
}

/// Mathematical image of a [`GenericSocket`].
pub struct GenericSocketView {
    /// The endpoint the socket was built from.
    pub endpoint: EndpointView,
    /// Family, type and protocol the OS handle is created with.
    pub params: SocketParams,
    /// The resolved destination or bind address.
    pub sockaddr: ResolvedAddr,
    /// Whether a listener was already started on this socket.
    pub listening: bool,
}

/// One socket of the engine: the endpoint it was built from, the resolved
/// creation parameters and address, and the listening flag.
#[derive(Debug)]
pub struct GenericSocket {
    /// The endpoint the socket was built from.
    pub endpoint: Endpoint,
    /// Family, type and protocol the OS handle is created with.
    pub params: SocketParams,
    /// The resolved destination or bind address.
    pub sockaddr: ResolvedAddr,
    /// Whether a listener was already started on this socket.
    pub listening: bool,
}

impl View for GenericSocket {
    type V = GenericSocketView;

    open spec fn view(&self) -> GenericSocketView {
        GenericSocketView {
            endpoint: self.endpoint@,
            params: self.params,
            sockaddr: self.sockaddr,
            listening: self.listening,
        }
    }
}

/// The socket a freshly resolved endpoint produces.
pub open spec fn spec_new_socket(v: EndpointView) -> GenericSocketView
    recommends
        spec_resolve_addr(v) is Ok,
{
    GenericSocketView {
        endpoint: v,
        params: spec_socket_params(v.proto, spec_resolve_addr(v).unwrap()),
        sockaddr: spec_resolve_addr(v).unwrap(),
        listening: false,
    }
}

/// Options set on a socket before it is bound for listening.
#[derive(Clone, Copy, Debug, PartialEq, Eq, Structural)]
pub struct ListenConfig {
    /// Put the handle into non-blocking mode.
    pub nonblocking: bool,
    /// Allow rebinding a recently used local address.
    pub reuse_address: bool,
    /// Port sharing stays off.
    pub reuse_port: bool,
}

/// The one configuration every listener uses: non-blocking, address reuse
/// on, port reuse off.
pub open spec fn spec_listen_config() -> ListenConfig {
    ListenConfig { nonblocking: true, reuse_address: true, reuse_port: false }
}

/// Which receive loop serves a protocol.
#[derive(Clone, Copy, Debug, PartialEq, Eq, Structural)]
pub enum ListenerKind {
    /// Accept connections, then read each one: stream endpoints.
    Stream,
    /// Receive single datagrams on the shared pool: datagram endpoints.
    Datagram,
    /// Receive datagrams by polling on a dedicated thread: the custom
    /// transport, whose receive call the shared pool cannot wait on.
    Polling,
}

/// The loop each transport's listener runs.
pub open spec fn spec_listener_kind(p: EndpointProto) -> ListenerKind {
    match p {
        EndpointProto::Udp => ListenerKind::Datagram,
        EndpointProto::Tcp => ListenerKind::Stream,
        EndpointProto::Bp => ListenerKind::Polling,
    }
}

/// Everything the runtime needs to start a listener: how to configure the
/// socket before binding, and which loop to run afterwards.
#[derive(Clone, Copy, Debug, PartialEq, Eq, Structural)]
pub struct ListenPlan {
    /// Socket options to set before binding to the resolved address.
    pub config: ListenConfig,
    /// The receive loop to run once bound.
    pub kind: ListenerKind,
}

/// Resolves an endpoint's address text into the address its socket binds or
/// sends to.
pub fn resolve_addr(endpoint: &Endpoint) -> (r: Result<ResolvedAddr, SocketBuildError>)
    ensures
        r == spec_resolve_addr(endpoint@),
{
    match endpoint.proto {
        EndpointProto::Udp | EndpointProto::Tcp => match parse_v4(endpoint.endpoint.as_str()) {
            Some(a) => Ok(ResolvedAddr::V4(a)),
            None => match parse_v6(endpoint.endpoint.as_str()) {
                Some(a) => Ok(ResolvedAddr::V6(a)),
                None => Err(SocketBuildError::InvalidAddress),
            },
        },
        EndpointProto::Bp => match create_bp_sockaddr_with_string(endpoint.endpoint.as_str()) {
            Ok(rec) => Ok(ResolvedAddr::Bp(rec)),
            Err(BpAddrError::InvalidInput) => Err(SocketBuildError::InvalidBpAddress),
            Err(BpAddrError::Unsupported) => Err(SocketBuildError::UnsupportedBpScheme),
        },
    }
}

impl GenericSocket {
    /// Resolves an endpoint into a socket: creation parameters derived from
    /// the transport, and the destination or bind address parsed from the
    /// address text.
    pub fn new(endpoint: Endpoint) -> (r: Result<Self, SocketBuildError>)
        ensures
            match r {
                Ok(s) => spec_resolve_addr(endpoint@) is Ok && s@ == spec_new_socket(endpoint@),
                Err(e) => spec_resolve_addr(endpoint@) == Err::<ResolvedAddr, _>(e),
            },
    {
        let sockaddr = match resolve_addr(&endpoint) {
            Ok(a) => a,
            Err(e) => {
                return Err(e);
            },
        };
        let domain = match sockaddr {
            ResolvedAddr::V4(_) => AF_INET,
            ResolvedAddr::V6(_) => AF_INET6,
            ResolvedAddr::Bp(_) => AF_BP,
        };
        let params = match endpoint.proto {
            EndpointProto::Udp => SocketParams {
                domain,
                socket_type: SOCK_DGRAM,
                protocol: IPPROTO_UDP,
            },
            EndpointProto::Tcp => SocketParams {
                domain,
                socket_type: SOCK_STREAM,
                protocol: IPPROTO_TCP,
            },
            EndpointProto::Bp => SocketParams {
                domain: AF_BP,
                socket_type: SOCK_DGRAM,
                protocol: 0,
            },
        };
        Ok(GenericSocket { endpoint, params, sockaddr, listening: false })
    }

    /// A second handle onto the same underlying socket, used to keep a cache
    /// copy while a listener loop owns the original.
    pub fn duplicate(&self) -> (r: Self)
        ensures
            r@ == self@,
    {
        GenericSocket {
            endpoint: self.endpoint.clone(),
            params: self.params,
            sockaddr: self.sockaddr,
            listening: self.listening,
        }
    }

    /// The socket options set before binding: non-blocking mode, address
    /// reuse enabled, port reuse disabled — the same for every transport.
    pub fn prepare_socket(&self) -> (r: ListenConfig)
        ensures
            r == spec_listen_config(),
    {
        ListenConfig { nonblocking: true, reuse_address: true, reuse_port: false }
    }

    /// Starts listening on this socket, once.
    ///
    /// The first call marks the socket listening and hands back the plan to
    /// carry out: configure, bind to the resolved address, and run the
    /// returned loop.  A second call is a no-op returning nothing — the
    /// socket is neither reconfigured nor rebound.
    pub fn start_listener(&mut self) -> (r: Option<ListenPlan>)
        ensures
            old(self).listening ==> r is None && *final (self) == *old(self),
            !old(self).listening ==> {
                &&& r == Some(
                    ListenPlan {
                        config: spec_listen_config(),
                        kind: spec_listener_kind(old(self)@.endpoint.proto),
                    },
                )
                &&& final (self)@ == GenericSocketView { listening: true, ..old(self)@ }
            },
    {
        if self.listening {
            return None;
        }
        let config = self.prepare_socket();
        self.listening = true;
        let kind = match self.endpoint.proto {
            EndpointProto::Udp => ListenerKind::Datagram,
            EndpointProto::Tcp => ListenerKind::Stream,
            EndpointProto::Bp => ListenerKind::Polling,
        };
        Some(ListenPlan { config, kind })
    }
}

} // verus!
