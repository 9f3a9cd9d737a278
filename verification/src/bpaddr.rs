//! Low-level address construction for the custom delay-tolerant transport.
//!
//! A human-readable `ipn:<node>.<service>` address becomes a fixed-layout
//! record (family, scheme, node id, service id) whose little-endian byte
//! image is copied into a zero-filled generic address-storage buffer.  The
//! byte layout is stated explicitly here instead of relying on in-memory
//! reinterpretation, so every byte of the produced buffer is pinned down.

use crate::constants::{AF_BP, BP_SCHEME_IPN, BP_SOCKADDR_LEN, SOCKADDR_STORAGE_LEN};
use crate::scan::{
    find_char, is_u32_token, parse_u32_range, spec_dec_digits, spec_find, u32_to_dec_string,
    u32_token_val,
};
use vstd::bytes::{
    lemma_auto_spec_u32_to_from_le_bytes, spec_u16_to_le_bytes, spec_u32_to_le_bytes,
    u16_to_le_bytes, u32_to_le_bytes,
};
use vstd::prelude::*;
use vstd::string::StringExecFns;

verus! {

/// Why an address string was not turned into a low-level address.
#[derive(Clone, Copy, Debug, PartialEq, Eq, Structural)]
pub enum BpAddrError {
    /// The string is empty, names an unknown scheme, or its `ipn:` body is
    /// not two unsigned 32-bit numbers joined by a single dot.
    InvalidInput,
    /// The string names the `dtn:` scheme, which is recognized but not
    /// implemented.
    Unsupported,
}

/// The fixed-layout address record of the custom transport.
#[derive(Clone, Copy, Debug, PartialEq, Eq, Structural)]
pub struct SockAddrBp {
    /// Socket family; always [`AF_BP`], stored in the platform's 16-bit
    /// family slot.
    pub bp_family: u16,
    /// Naming scheme within the family; always [`BP_SCHEME_IPN`] here.
    pub bp_scheme: u32,
    /// Node number of the `ipn:<node>.<service>` address.
    pub node_id: u32,
    /// Service number of the `ipn:<node>.<service>` address.
    pub service_id: u32,
}

/// The string starts with `ipn:`.
pub open spec fn has_ipn_prefix(s: Seq<char>) -> bool {
    s.len() >= 4 && s[0] == 'i' && s[1] == 'p' && s[2] == 'n' && s[3] == ':'
}

/// The string starts with `dtn:`.
pub open spec fn has_dtn_prefix(s: Seq<char>) -> bool {
    s.len() >= 4 && s[0] == 'd' && s[1] == 't' && s[2] == 'n' && s[3] == ':'
}

/// The body of an `ipn:` address (everything after the prefix).
pub open spec fn ipn_body(s: Seq<char>) -> Seq<char> {
    s.skip(4)
}

/// A well-formed `ipn:` address: the body splits on exactly one dot into two
/// numeric tokens, each an unsigned 32-bit number.
pub open spec fn is_ipn_addr(s: Seq<char>) -> bool {
    let body = ipn_body(s);
    &&& has_ipn_prefix(s)
    &&& match spec_find(body, '.') {
        Some(d) => {
            let node = body.take(d);
            let service = body.skip(d + 1);
            &&& spec_find(service, '.') is None
            &&& is_u32_token(node)
            &&& is_u32_token(service)
        },
        None => false,
    }
}

/// Node number of a well-formed `ipn:` address.
pub open spec fn ipn_node(s: Seq<char>) -> int {
    let body = ipn_body(s);
    u32_token_val(body.take(spec_find(body, '.').unwrap()))
}

/// Service number of a well-formed `ipn:` address.
pub open spec fn ipn_service(s: Seq<char>) -> int {
    let body = ipn_body(s);
    u32_token_val(body.skip(spec_find(body, '.').unwrap() + 1))
}

/// The record a well-formed `ipn:` address denotes.
pub open spec fn spec_bp_record(s: Seq<char>) -> SockAddrBp {
    SockAddrBp {
        bp_family: AF_BP as u16,
        bp_scheme: BP_SCHEME_IPN,
        node_id: ipn_node(s) as u32,
        service_id: ipn_service(s) as u32,
    }
}

/// What address construction returns for every input string.
pub open spec fn spec_build_bp_addr(s: Seq<char>) -> Result<SockAddrBp, BpAddrError> {
    if s.len() == 0 {
        Err(BpAddrError::InvalidInput)
    } else if has_ipn_prefix(s) {
        if is_ipn_addr(s) {
            Ok(spec_bp_record(s))
        } else {
            Err(BpAddrError::InvalidInput)
        }
    } else if has_dtn_prefix(s) {
        Err(BpAddrError::Unsupported)
    } else {
        Err(BpAddrError::InvalidInput)
    }
}

/// Checks whether the character at position `i` of `s` equals `c`.
fn char_at_is(s: &str, i: usize, c: char) -> (r: bool)
    requires
        i < s@.len(),
    ensures
        r == (s@[i as int] == c),
{
    s.get_char(i) == c
}

/// Builds the low-level address record for an endpoint-address string.
///
/// An empty string and anything that is not `ipn:<u32>.<u32>` is
/// `InvalidInput`; the recognized but unimplemented `dtn:` scheme is
/// `Unsupported`.
pub fn create_bp_sockaddr_with_string(endpoint_string: &str) -> (r: Result<
    SockAddrBp,
    BpAddrError,
>)
    ensures
        r == spec_build_bp_addr(endpoint_string@),
{
    let n = endpoint_string.unicode_len();
    if n == 0 {
        return Err(BpAddrError::InvalidInput);
    }
    let has_ipn = n >= 4 && char_at_is(endpoint_string, 0, 'i') && char_at_is(
        endpoint_string,
        1,
        'p',
    ) && char_at_is(endpoint_string, 2, 'n') && char_at_is(endpoint_string, 3, ':');
    if has_ipn {
        match parse_ipn_body(endpoint_string) {
            Some(rec) => Ok(rec),
            None => Err(BpAddrError::InvalidInput),
        }
    } else {
        let has_dtn = n >= 4 && char_at_is(endpoint_string, 0, 'd') && char_at_is(
            endpoint_string,
            1,
            't',
        ) && char_at_is(endpoint_string, 2, 'n') && char_at_is(endpoint_string, 3, ':');
        if has_dtn {
            Err(BpAddrError::Unsupported)
        } else {
            Err(BpAddrError::InvalidInput)
        }
    }
}

/// Reads the two numbers of an `ipn:` address whose prefix has already been
/// checked.
fn parse_ipn_body(s: &str) -> (r: Option<SockAddrBp>)
    requires
        has_ipn_prefix(s@),
    ensures
        is_ipn_addr(s@) ==> r == Some(spec_bp_record(s@)),
        !is_ipn_addr(s@) ==> r is None,
{
    let ghost body = ipn_body(s@);
    let n = s.unicode_len();
    // Locate the single dot of the body.  `find_char` scans the whole
    // string, but the prefix `ipn:` holds no dot, so the first dot of the
    // string is the first dot of the body.
    let dot = match find_char(s, '.') {
        Some(d) => d,
        None => {
            proof {
                crate::scan::lemma_spec_find(s@, '.');
                crate::scan::lemma_spec_find(body, '.');
                if spec_find(body, '.') is Some {
                    let k = spec_find(body, '.').unwrap();
                    assert(s@[k + 4] == body[k]);
                }
            }
            return None;
        },
    };
    proof {
        crate::scan::lemma_spec_find(s@, '.');
    }
    if dot < 4 {
        // The dot sits inside `ipn:`, which is impossible.
        proof {
            assert(s@[dot as int] == '.');
            assert(false);
        }
    }
    proof {
        // The dot found in the whole string is the first dot of the body.
        crate::scan::lemma_spec_find(body, '.');
        assert forall|j: int| 0 <= j < dot - 4 implies body[j] != '.' by {
            assert(body[j] == s@[j + 4]);
        }
        assert(body[dot - 4] == s@[dot as int]);
        crate::scan::lemma_spec_find_at_boundary(
            body.take(dot - 4),
            body.skip(dot - 4 + 1),
            '.',
        );
        assert(body.take(dot - 4) + seq!['.'] + body.skip(dot - 4 + 1) =~= body);
        assert(spec_find(body, '.') == Some(dot - 4));
    }
    // A second dot after the first makes the body malformed.
    let mut j = dot + 1;
    while j < n
        invariant
            dot + 1 <= j <= n,
            n == s@.len(),
            4 <= dot < n,
            body == ipn_body(s@),
            has_ipn_prefix(s@),
            spec_find(body, '.') == Some(dot - 4),
            forall|k: int| dot + 1 <= k < j ==> s@[k] != '.',
        decreases n - j,
    {
        if s.get_char(j) == '.' {
            proof {
                let service = body.skip(dot - 4 + 1);
                crate::scan::lemma_spec_find(service, '.');
                assert(service[j - dot - 1] == s@[j as int]);
            }
            return None;
        }
        j += 1;
    }
    proof {
        let service = body.skip(dot - 4 + 1);
        crate::scan::lemma_spec_find(service, '.');
        if spec_find(service, '.') is Some {
            let k = spec_find(service, '.').unwrap();
            assert(s@[k + dot + 1] == service[k]);
        }
    }
    let node = match parse_u32_range(s, 4, dot) {
        Some(v) => v,
        None => {
            proof {
                assert(s@.subrange(4, dot as int) =~= body.take(dot - 4));
            }
            return None;
        },
    };
    let service = match parse_u32_range(s, dot + 1, n) {
        Some(v) => v,
        None => {
            proof {
                assert(s@.subrange(dot + 1, n as int) =~= body.skip(dot - 4 + 1));
            }
            return None;
        },
    };
    proof {
        assert(s@.subrange(4, dot as int) =~= body.take(dot - 4));
        assert(s@.subrange(dot + 1, n as int) =~= body.skip(dot - 4 + 1));
    }
    Some(
        SockAddrBp {
            bp_family: AF_BP as u16,
            bp_scheme: BP_SCHEME_IPN,
            node_id: node,
            service_id: service,
        },
    )
}

impl SockAddrBp {
    /// The 16-byte little-endian image of the record: family, two alignment
    /// padding bytes, scheme, node id, service id.
    pub open spec fn wire_bytes(self) -> Seq<u8> {
        spec_u16_to_le_bytes(self.bp_family) + seq![0u8, 0u8] + spec_u32_to_le_bytes(
            self.bp_scheme,
        ) + spec_u32_to_le_bytes(self.node_id) + spec_u32_to_le_bytes(self.service_id)
    }

    /// Serializes the record into its 16-byte wire image.
    pub fn to_wire(&self) -> (r: Vec<u8>)
        ensures
            r@ == self.wire_bytes(),
            r@.len() == BP_SOCKADDR_LEN,
    {
        proof {
            vstd::bytes::lemma_auto_spec_u16_to_from_le_bytes();
            lemma_auto_spec_u32_to_from_le_bytes();
        }
        let mut v = u16_to_le_bytes(self.bp_family);
        v.push(0);
        v.push(0);
        let mut scheme = u32_to_le_bytes(self.bp_scheme);
        v.append(&mut scheme);
        let mut node = u32_to_le_bytes(self.node_id);
        v.append(&mut node);
        let mut service = u32_to_le_bytes(self.service_id);
        v.append(&mut service);
        proof {
            assert(v@ =~= self.wire_bytes());
        }
        v
    }

    /// Copies the wire image into a zero-filled buffer of the platform's
    /// maximum socket-address size, returning the buffer together with the
    /// record's true byte length.
    pub fn storage(&self) -> (r: (Vec<u8>, usize))
        ensures
            r.0@.len() == SOCKADDR_STORAGE_LEN,
            r.0@.subrange(0, BP_SOCKADDR_LEN as int) == self.wire_bytes(),
            forall|i: int| BP_SOCKADDR_LEN <= i < SOCKADDR_STORAGE_LEN ==> r.0@[i] == 0,
            r.1 == BP_SOCKADDR_LEN,
    {
        let mut v = self.to_wire();
        while v.len() < SOCKADDR_STORAGE_LEN
            invariant
                BP_SOCKADDR_LEN <= v@.len() <= SOCKADDR_STORAGE_LEN,
                v@.subrange(0, BP_SOCKADDR_LEN as int) == self.wire_bytes(),
                forall|i: int| BP_SOCKADDR_LEN <= i < v@.len() ==> v@[i] == 0,
            decreases SOCKADDR_STORAGE_LEN - v@.len(),
        {
            let ghost prev = v@;
            v.push(0);
            proof {
                assert(v@.subrange(0, BP_SOCKADDR_LEN as int) =~= prev.subrange(
                    0,
                    BP_SOCKADDR_LEN as int,
                ));
            }
        }
        (v, BP_SOCKADDR_LEN)
    }
}

/// The display form of a record: the `ipn:<node>.<service>` name it was
/// built from, or a placeholder for a scheme this crate does not implement.
pub open spec fn spec_bp_display(a: SockAddrBp) -> Seq<char> {
    if a.bp_scheme == BP_SCHEME_IPN {
        seq!['i', 'p', 'n', ':'] + spec_dec_digits(a.node_id as int) + seq!['.']
            + spec_dec_digits(a.service_id as int)
    } else {
        "scheme ?? unknown"@
    }
}

impl SockAddrBp {
    /// Renders the record back into its human-readable address name.
    pub fn to_string(&self) -> (r: String)
        ensures
            r@ == spec_bp_display(*self),
    {
        if self.bp_scheme == BP_SCHEME_IPN {
            let mut s = String::from_str("ipn:");
            s.append(u32_to_dec_string(self.node_id).as_str());
            s.append(".");
            s.append(u32_to_dec_string(self.service_id).as_str());
            proof {
                reveal_strlit("ipn:");
                reveal_strlit(".");
                assert("ipn:"@ =~= seq!['i', 'p', 'n', ':']);
                assert("."@ =~= seq!['.']);
                assert(s@ =~= spec_bp_display(*self));
            }
            s
        } else {
            String::from_str("scheme ?? unknown")
        }
    }
}

/// Where each field of the record sits in the wire image: bytes 0 and 1 hold
/// the family, bytes 2 and 3 are zero padding, and the scheme, node id and
/// service id occupy the three following 4-byte little-endian words.
pub proof fn lemma_wire_layout(a: SockAddrBp)
    ensures
        a.wire_bytes().len() == BP_SOCKADDR_LEN,
        a.wire_bytes().subrange(0, 2) == spec_u16_to_le_bytes(a.bp_family),
        a.wire_bytes()[2] == 0u8,
        a.wire_bytes()[3] == 0u8,
        a.wire_bytes().subrange(4, 8) == spec_u32_to_le_bytes(a.bp_scheme),
        a.wire_bytes().subrange(8, 12) == spec_u32_to_le_bytes(a.node_id),
        a.wire_bytes().subrange(12, 16) == spec_u32_to_le_bytes(a.service_id),
{
    vstd::bytes::lemma_auto_spec_u16_to_from_le_bytes();
    lemma_auto_spec_u32_to_from_le_bytes();
    assert(a.wire_bytes().subrange(0, 2) =~= spec_u16_to_le_bytes(a.bp_family));
    assert(a.wire_bytes().subrange(4, 8) =~= spec_u32_to_le_bytes(a.bp_scheme));
    assert(a.wire_bytes().subrange(8, 12) =~= spec_u32_to_le_bytes(a.node_id));
    assert(a.wire_bytes().subrange(12, 16) =~= spec_u32_to_le_bytes(a.service_id));
}

/// Two records that agree on everything but the service id produce wire
/// images that agree everywhere outside the service id's four bytes — and
/// disagree inside them whenever the service ids differ.
pub proof fn lemma_wire_differs_only_in_service_id(a: SockAddrBp, b: SockAddrBp)
    requires
        a.bp_family == b.bp_family,
        a.bp_scheme == b.bp_scheme,
        a.node_id == b.node_id,
    ensures
        forall|i: int| 0 <= i < 12 ==> a.wire_bytes()[i] == b.wire_bytes()[i],
        a.service_id != b.service_id ==> exists|i: int|
            12 <= i < 16 && a.wire_bytes()[i] != b.wire_bytes()[i],
{
    lemma_wire_layout(a);
    lemma_wire_layout(b);
    assert forall|i: int| 0 <= i < 12 implies a.wire_bytes()[i] == b.wire_bytes()[i] by {
        if i < 2 {
            assert(a.wire_bytes()[i] == a.wire_bytes().subrange(0, 2)[i]);
            assert(b.wire_bytes()[i] == b.wire_bytes().subrange(0, 2)[i]);
        } else if 4 <= i < 8 {
            assert(a.wire_bytes()[i] == a.wire_bytes().subrange(4, 8)[i - 4]);
            assert(b.wire_bytes()[i] == b.wire_bytes().subrange(4, 8)[i - 4]);
        } else if 8 <= i < 12 {
            assert(a.wire_bytes()[i] == a.wire_bytes().subrange(8, 12)[i - 8]);
            assert(b.wire_bytes()[i] == b.wire_bytes().subrange(8, 12)[i - 8]);
        }
    }
    if a.service_id != b.service_id {
        lemma_auto_spec_u32_to_from_le_bytes();
        let sa = spec_u32_to_le_bytes(a.service_id);
        let sb = spec_u32_to_le_bytes(b.service_id);
        assert(sa != sb);
        assert(exists|j: int| 0 <= j < 4 && sa[j] != sb[j]) by {
            if forall|j: int| 0 <= j < 4 ==> sa[j] == sb[j] {
                assert(sa =~= sb);
            }
        }
        let j = choose|j: int| 0 <= j < 4 && sa[j] != sb[j];
        assert(a.wire_bytes().subrange(12, 16)[j] != b.wire_bytes().subrange(12, 16)[j]);
        assert(a.wire_bytes()[12 + j] != b.wire_bytes()[12 + j]);
    }
}

} // verus!
