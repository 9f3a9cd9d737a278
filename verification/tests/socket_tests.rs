use socket_engine::constants::{
    AF_BP, AF_INET, AF_INET6, IPPROTO_TCP, IPPROTO_UDP, SOCK_DGRAM, SOCK_STREAM,
};
use socket_engine::ipv6::{parse_v6, Ipv6AddrPort};
use socket_engine::endpoint::Endpoint;
use socket_engine::socket::{
    parse_v4, resolve_addr, GenericSocket, Ipv4AddrPort, ListenerKind, ResolvedAddr,
    SocketBuildError,
};

#[test]
fn parses_v4_address_and_port() {
    let a = parse_v4("127.0.0.1:9001").unwrap();
    assert_eq!(
        a,
        Ipv4AddrPort { a: 127, b: 0, c: 0, d: 1, port: 9001 }
    );
}

#[test]
fn parses_extreme_v4_values() {
    let a = parse_v4("255.255.255.255:65535").unwrap();
    assert_eq!(
        a,
        Ipv4AddrPort { a: 255, b: 255, c: 255, d: 255, port: 65535 }
    );
    let a = parse_v4("0.0.0.0:0").unwrap();
    assert_eq!(a, Ipv4AddrPort { a: 0, b: 0, c: 0, d: 0, port: 0 });
}

#[test]
fn rejects_malformed_v4_addresses() {
    assert!(parse_v4("256.0.0.1:1").is_none());
    assert!(parse_v4("1.2.3:80").is_none());
    assert!(parse_v4("1.2.3.4.5:80").is_none());
    assert!(parse_v4("1.2.3.4:65536").is_none());
    assert!(parse_v4("1.2.3.4").is_none());
    assert!(parse_v4("a.b.c.d:80").is_none());
    assert!(parse_v4("").is_none());
    assert!(parse_v4("[::1]:80").is_none());
    assert!(parse_v4("localhost:80").is_none());
}

#[test]
fn parses_v6_loopback() {
    let a = parse_v6("[::1]:80").unwrap();
    assert_eq!(
        a,
        Ipv6AddrPort { g0: 0, g1: 0, g2: 0, g3: 0, g4: 0, g5: 0, g6: 0, g7: 1, port: 80 }
    );
}

#[test]
fn parses_full_and_compressed_v6_forms() {
    let a = parse_v6("[1:2:3:4:5:6:7:8]:9").unwrap();
    assert_eq!(
        a,
        Ipv6AddrPort { g0: 1, g1: 2, g2: 3, g3: 4, g4: 5, g5: 6, g6: 7, g7: 8, port: 9 }
    );
    let a = parse_v6("[2001:db8::8a2e:370:7334]:443").unwrap();
    assert_eq!(
        a,
        Ipv6AddrPort {
            g0: 0x2001,
            g1: 0x0db8,
            g2: 0,
            g3: 0,
            g4: 0,
            g5: 0x8a2e,
            g6: 0x0370,
            g7: 0x7334,
            port: 443,
        }
    );
    let a = parse_v6("[fe80::]:0").unwrap();
    assert_eq!(
        a,
        Ipv6AddrPort { g0: 0xfe80, g1: 0, g2: 0, g3: 0, g4: 0, g5: 0, g6: 0, g7: 0, port: 0 }
    );
    let a = parse_v6("[::]:1").unwrap();
    assert_eq!(
        a,
        Ipv6AddrPort { g0: 0, g1: 0, g2: 0, g3: 0, g4: 0, g5: 0, g6: 0, g7: 0, port: 1 }
    );
    let a = parse_v6("[AbCd::]:1").unwrap();
    assert_eq!(a.g0, 0xabcd);
}

#[test]
fn rejects_malformed_v6_addresses() {
    assert!(parse_v6("[::1:80").is_none());
    assert!(parse_v6("::1]:80").is_none());
    assert!(parse_v6("[1:2:3:4:5:6:7]:80").is_none());
    assert!(parse_v6("[1:2:3:4:5:6:7:8:9]:80").is_none());
    assert!(parse_v6("[1:2:3:4:5:6:7:8::]:80").is_none());
    assert!(parse_v6("[1::2::3]:80").is_none());
    assert!(parse_v6("[:::1]:80").is_none());
    assert!(parse_v6("[12345::]:80").is_none());
    assert!(parse_v6("[g::1]:80").is_none());
    assert!(parse_v6("[::1]:65536").is_none());
    assert!(parse_v6("[::1]").is_none());
    assert!(parse_v6("[::1]x80").is_none());
    assert!(parse_v6("[]:80").is_none());
    // Zone identifiers and an embedded dotted IPv4 tail are outside the
    // accepted grammar.
    assert!(parse_v6("[fe80::1%1]:80").is_none());
    assert!(parse_v6("[::ffff:1.2.3.4]:80").is_none());
}

#[test]
fn v6_socket_parameters_follow_the_address_family() {
    let ep = Endpoint::from_str("udp [::1]:9001").unwrap();
    let s = GenericSocket::new(ep).unwrap();
    assert_eq!(s.params.domain, AF_INET6);
    assert_eq!(s.params.socket_type, SOCK_DGRAM);
    assert_eq!(s.params.protocol, IPPROTO_UDP);
    let ep = Endpoint::from_str("tcp [2001:db8::1]:443").unwrap();
    let s = GenericSocket::new(ep).unwrap();
    assert_eq!(s.params.domain, AF_INET6);
    assert_eq!(s.params.socket_type, SOCK_STREAM);
    assert_eq!(s.params.protocol, IPPROTO_TCP);
    match s.sockaddr {
        ResolvedAddr::V6(a) => {
            assert_eq!(a.g0, 0x2001);
            assert_eq!(a.g7, 1);
            assert_eq!(a.port, 443);
        }
        other => panic!("expected an IPv6 address, got {:?}", other),
    }
}

#[test]
fn udp_socket_parameters() {
    let ep = Endpoint::from_str("udp 127.0.0.1:9001").unwrap();
    let s = GenericSocket::new(ep).unwrap();
    assert_eq!(s.params.domain, AF_INET);
    assert_eq!(s.params.socket_type, SOCK_DGRAM);
    assert_eq!(s.params.protocol, IPPROTO_UDP);
    assert!(!s.listening);
    assert_eq!(
        s.sockaddr,
        ResolvedAddr::V4(Ipv4AddrPort { a: 127, b: 0, c: 0, d: 1, port: 9001 })
    );
}

#[test]
fn tcp_socket_parameters() {
    let ep = Endpoint::from_str("tcp 127.0.0.1:9101").unwrap();
    let s = GenericSocket::new(ep).unwrap();
    assert_eq!(s.params.domain, AF_INET);
    assert_eq!(s.params.socket_type, SOCK_STREAM);
    assert_eq!(s.params.protocol, IPPROTO_TCP);
}

#[test]
fn bp_socket_parameters() {
    let ep = Endpoint::from_str("bp ipn:42.7").unwrap();
    let s = GenericSocket::new(ep).unwrap();
    assert_eq!(s.params.domain, AF_BP);
    assert_eq!(s.params.socket_type, SOCK_DGRAM);
    assert_eq!(s.params.protocol, 0);
    match s.sockaddr {
        ResolvedAddr::Bp(rec) => {
            assert_eq!(rec.node_id, 42);
            assert_eq!(rec.service_id, 7);
        }
        other => panic!("expected a custom-transport address, got {:?}", other),
    }
}

#[test]
fn socket_creation_rejects_bad_addresses() {
    let ep = Endpoint::from_str("udp nonsense").unwrap();
    assert_eq!(GenericSocket::new(ep).unwrap_err(), SocketBuildError::InvalidAddress);
    let ep = Endpoint {
        proto: socket_engine::endpoint::EndpointProto::Bp,
        endpoint: String::from("dtn:foo"),
    };
    assert_eq!(GenericSocket::new(ep).unwrap_err(), SocketBuildError::UnsupportedBpScheme);
    let ep = Endpoint {
        proto: socket_engine::endpoint::EndpointProto::Bp,
        endpoint: String::from("ipn:1"),
    };
    assert_eq!(GenericSocket::new(ep).unwrap_err(), SocketBuildError::InvalidBpAddress);
}

#[test]
fn resolve_addr_matches_socket_creation() {
    let ep = Endpoint::from_str("udp 127.0.0.1:9001").unwrap();
    let s = GenericSocket::new(ep.clone()).unwrap();
    assert_eq!(resolve_addr(&ep).unwrap(), s.sockaddr);
}

#[test]
fn start_listener_is_idempotent() {
    let ep = Endpoint::from_str("udp 127.0.0.1:9001").unwrap();
    let mut s = GenericSocket::new(ep).unwrap();
    let plan = s.start_listener().expect("first start must yield a plan");
    assert!(plan.config.nonblocking);
    assert!(plan.config.reuse_address);
    assert!(!plan.config.reuse_port);
    assert_eq!(plan.kind, ListenerKind::Datagram);
    assert!(s.listening);
    // The second start does not rebind and does not error: it is a no-op.
    assert!(s.start_listener().is_none());
    assert!(s.listening);
}

#[test]
fn listener_kind_follows_transport() {
    let mut s = GenericSocket::new(Endpoint::from_str("tcp 127.0.0.1:9101").unwrap()).unwrap();
    assert_eq!(s.start_listener().unwrap().kind, ListenerKind::Stream);
    let mut s = GenericSocket::new(Endpoint::from_str("bp ipn:1.2").unwrap()).unwrap();
    assert_eq!(s.start_listener().unwrap().kind, ListenerKind::Polling);
}

#[test]
fn duplicate_shares_the_resolved_state() {
    let s = GenericSocket::new(Endpoint::from_str("udp 127.0.0.1:9001").unwrap()).unwrap();
    let d = s.duplicate();
    assert_eq!(d.endpoint, s.endpoint);
    assert_eq!(d.params, s.params);
    assert_eq!(d.sockaddr, s.sockaddr);
    assert_eq!(d.listening, s.listening);
}
