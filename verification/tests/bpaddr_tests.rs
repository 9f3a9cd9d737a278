use socket_engine::bpaddr::{create_bp_sockaddr_with_string, BpAddrError};
use socket_engine::constants::{BP_SOCKADDR_LEN, SOCKADDR_STORAGE_LEN};

#[test]
fn builds_record_for_ipn_address() {
    let rec = create_bp_sockaddr_with_string("ipn:42.7").unwrap();
    assert_eq!(rec.bp_family, 28);
    assert_eq!(rec.bp_scheme, 1);
    assert_eq!(rec.node_id, 42);
    assert_eq!(rec.service_id, 7);
}

#[test]
fn declared_length_is_record_size() {
    let rec = create_bp_sockaddr_with_string("ipn:42.7").unwrap();
    let (storage, len) = rec.storage();
    assert_eq!(len, BP_SOCKADDR_LEN);
    assert_eq!(storage.len(), SOCKADDR_STORAGE_LEN);
}

#[test]
fn wire_bytes_have_exact_layout() {
    let rec = create_bp_sockaddr_with_string("ipn:42.7").unwrap();
    let wire = rec.to_wire();
    assert_eq!(
        wire,
        vec![28, 0, 0, 0, 1, 0, 0, 0, 42, 0, 0, 0, 7, 0, 0, 0]
    );
}

#[test]
fn storage_is_zero_after_record() {
    let rec = create_bp_sockaddr_with_string("ipn:1.2").unwrap();
    let (storage, len) = rec.storage();
    assert_eq!(&storage[..len], &rec.to_wire()[..]);
    assert!(storage[len..].iter().all(|&b| b == 0));
}

#[test]
fn records_differ_only_in_service_id_bytes() {
    let a = create_bp_sockaddr_with_string("ipn:1.2").unwrap();
    let b = create_bp_sockaddr_with_string("ipn:1.3").unwrap();
    let wa = a.to_wire();
    let wb = b.to_wire();
    assert_eq!(&wa[..12], &wb[..12]);
    assert_ne!(&wa[12..16], &wb[12..16]);
}

#[test]
fn empty_string_is_invalid() {
    assert_eq!(create_bp_sockaddr_with_string("").unwrap_err(), BpAddrError::InvalidInput);
}

#[test]
fn dtn_scheme_is_unsupported() {
    assert_eq!(
        create_bp_sockaddr_with_string("dtn:node/service").unwrap_err(),
        BpAddrError::Unsupported
    );
}

#[test]
fn unknown_scheme_is_invalid() {
    assert_eq!(
        create_bp_sockaddr_with_string("http://x").unwrap_err(),
        BpAddrError::InvalidInput
    );
}

#[test]
fn ipn_without_dot_is_invalid() {
    assert_eq!(create_bp_sockaddr_with_string("ipn:12").unwrap_err(), BpAddrError::InvalidInput);
}

#[test]
fn ipn_with_two_dots_is_invalid() {
    assert_eq!(
        create_bp_sockaddr_with_string("ipn:1.2.3").unwrap_err(),
        BpAddrError::InvalidInput
    );
}

#[test]
fn ipn_with_empty_tokens_is_invalid() {
    assert_eq!(create_bp_sockaddr_with_string("ipn:.1").unwrap_err(), BpAddrError::InvalidInput);
    assert_eq!(create_bp_sockaddr_with_string("ipn:1.").unwrap_err(), BpAddrError::InvalidInput);
    assert_eq!(create_bp_sockaddr_with_string("ipn:.").unwrap_err(), BpAddrError::InvalidInput);
}

#[test]
fn ipn_with_nonnumeric_token_is_invalid() {
    assert_eq!(
        create_bp_sockaddr_with_string("ipn:abc.1").unwrap_err(),
        BpAddrError::InvalidInput
    );
    assert_eq!(
        create_bp_sockaddr_with_string("ipn:1.x").unwrap_err(),
        BpAddrError::InvalidInput
    );
}

#[test]
fn ipn_ids_are_32_bit() {
    let rec = create_bp_sockaddr_with_string("ipn:4294967295.0").unwrap();
    assert_eq!(rec.node_id, u32::MAX);
    assert_eq!(rec.service_id, 0);
    assert_eq!(
        create_bp_sockaddr_with_string("ipn:4294967296.1").unwrap_err(),
        BpAddrError::InvalidInput
    );
}

#[test]
fn record_renders_back_to_its_address_name() {
    let rec = create_bp_sockaddr_with_string("ipn:42.7").unwrap();
    assert_eq!(rec.to_string(), "ipn:42.7");
    let rec = create_bp_sockaddr_with_string("ipn:4294967295.0").unwrap();
    assert_eq!(rec.to_string(), "ipn:4294967295.0");
}

#[test]
fn record_with_unknown_scheme_renders_a_placeholder() {
    let mut rec = create_bp_sockaddr_with_string("ipn:1.2").unwrap();
    rec.bp_scheme = 9;
    assert_eq!(rec.to_string(), "scheme ?? unknown");
}

#[test]
fn ipn_tokens_accept_a_leading_plus() {
    // The numeric tokens follow the standard unsigned-integer grammar, which
    // admits one leading plus sign.
    let rec = create_bp_sockaddr_with_string("ipn:+1.+2").unwrap();
    assert_eq!(rec.node_id, 1);
    assert_eq!(rec.service_id, 2);
}
