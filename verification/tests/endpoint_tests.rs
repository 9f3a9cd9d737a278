use socket_engine::endpoint::{format_endpoint, Endpoint, EndpointProto, ParseError};

#[test]
fn parse_udp_endpoint() {
    let ep = Endpoint::from_str("udp 127.0.0.1:9001").unwrap();
    assert_eq!(ep.proto, EndpointProto::Udp);
    assert_eq!(ep.endpoint, "127.0.0.1:9001");
}

#[test]
fn parse_tcp_endpoint() {
    let ep = Endpoint::from_str("tcp 10.0.0.2:80").unwrap();
    assert_eq!(ep.proto, EndpointProto::Tcp);
    assert_eq!(ep.endpoint, "10.0.0.2:80");
}

#[test]
fn parse_bp_endpoint() {
    let ep = Endpoint::from_str("bp ipn:12.34").unwrap();
    assert_eq!(ep.proto, EndpointProto::Bp);
    assert_eq!(ep.endpoint, "ipn:12.34");
}

#[test]
fn round_trip_udp() {
    let s = "udp 127.0.0.1:9001";
    let ep = Endpoint::from_str(s).unwrap();
    assert_eq!(ep.to_string(), s);
}

#[test]
fn round_trip_tcp() {
    let s = "tcp 127.0.0.1:9101";
    let ep = Endpoint::from_str(s).unwrap();
    assert_eq!(ep.to_string(), s);
}

#[test]
fn round_trip_bp() {
    let s = "bp ipn:1.2";
    let ep = Endpoint::from_str(s).unwrap();
    assert_eq!(ep.to_string(), s);
}

#[test]
fn round_trip_normalizes_scheme_case() {
    let ep = Endpoint::from_str("UdP 127.0.0.1:80").unwrap();
    assert_eq!(ep.proto, EndpointProto::Udp);
    assert_eq!(ep.to_string(), "udp 127.0.0.1:80");
    let ep = Endpoint::from_str("TCP 1.2.3.4:5").unwrap();
    assert_eq!(ep.to_string(), "tcp 1.2.3.4:5");
    let ep = Endpoint::from_str("Bp ipn:3.4").unwrap();
    assert_eq!(ep.to_string(), "bp ipn:3.4");
}

#[test]
fn parse_rejects_unknown_scheme() {
    assert_eq!(
        Endpoint::from_str("ftp 1.2.3.4:80").unwrap_err(),
        ParseError::UnsupportedScheme
    );
}

#[test]
fn parse_rejects_bp_address_without_dot() {
    assert_eq!(Endpoint::from_str("bp ipn:12").unwrap_err(), ParseError::InvalidInput);
}

#[test]
fn parse_rejects_bp_address_with_nonnumeric_node() {
    assert_eq!(Endpoint::from_str("bp ipn:abc.1").unwrap_err(), ParseError::InvalidInput);
}

#[test]
fn parse_rejects_missing_address_part() {
    assert_eq!(Endpoint::from_str("udp").unwrap_err(), ParseError::InvalidInput);
    assert_eq!(Endpoint::from_str("").unwrap_err(), ParseError::InvalidInput);
}

#[test]
fn parse_keeps_address_verbatim_after_first_space() {
    let ep = Endpoint::from_str("udp a b c").unwrap();
    assert_eq!(ep.endpoint, "a b c");
    assert_eq!(ep.to_string(), "udp a b c");
}

#[test]
fn proto_names() {
    assert_eq!(EndpointProto::Udp.to_string(), "udp");
    assert_eq!(EndpointProto::Tcp.to_string(), "tcp");
    assert_eq!(EndpointProto::Bp.to_string(), "bp");
}

#[test]
fn display_format_uses_capital_scheme() {
    let ep = Endpoint::from_str("udp 127.0.0.1:9001").unwrap();
    assert_eq!(format_endpoint(&ep), "UDP:127.0.0.1:9001");
    let ep = Endpoint::from_str("tcp 1.2.3.4:5").unwrap();
    assert_eq!(format_endpoint(&ep), "TCP:1.2.3.4:5");
    let ep = Endpoint::from_str("bp ipn:1.2").unwrap();
    assert_eq!(format_endpoint(&ep), "BP:ipn:1.2");
}

#[test]
fn endpoint_equality_and_clone() {
    let a = Endpoint::from_str("udp 127.0.0.1:9001").unwrap();
    let b = Endpoint::from_str("UDP 127.0.0.1:9001").unwrap();
    let c = Endpoint::from_str("tcp 127.0.0.1:9001").unwrap();
    assert_eq!(a, b);
    assert_ne!(a, c);
    assert_eq!(a.clone(), a);
}
