//! The endpoint model: `"<scheme> <address>"` notation parsed into a tagged
//! protocol-and-address value, and formatted back.  The scheme is matched
//! case-insensitively against `udp`, `tcp` and `bp`; a `bp` address must be a
//! well-formed `ipn:<node>.<service>` name, so that a parsed endpoint is
//! always internally consistent.

use crate::bpaddr::{create_bp_sockaddr_with_string, is_ipn_addr, spec_build_bp_addr};
use crate::scan::{find_char, spec_find};
use vstd::prelude::*;
use vstd::string::StrSliceExecFns;
use vstd::string::StringExecFns;

verus! {

/// The transport a communication party is reached over.
#[derive(Clone, Copy, Debug, PartialEq, Eq, Hash, Structural)]
pub enum EndpointProto {
    /// Connectionless datagrams.
    Udp,
    /// Connection-oriented streams.
    Tcp,
    /// The custom delay-tolerant transport.
    Bp,
}

/// Why an endpoint string was rejected.
#[derive(Clone, Copy, Debug, PartialEq, Eq, Structural)]
pub enum ParseError {
    /// The scheme token names no supported transport.
    UnsupportedScheme,
    /// The string has no address part, or the address is malformed for its
    /// scheme.
    InvalidInput,
}

/// Mathematical image of an [`Endpoint`].
pub struct EndpointView {
    /// The transport tag.
    pub proto: EndpointProto,
    /// The address characters, kept verbatim.
    pub addr: Seq<char>,
}

/// A communication party: a transport tag and the address understood by that
/// transport.
#[derive(Debug)]
pub struct Endpoint {
    /// The transport tag.
    pub proto: EndpointProto,
    /// The address, e.g. `127.0.0.1:9000` or `ipn:42.7`.
    pub endpoint: String,
}

impl View for Endpoint {
    type V = EndpointView;

    open spec fn view(&self) -> EndpointView {
        EndpointView { proto: self.proto, addr: self.endpoint@ }
    }
}

impl Clone for Endpoint {
    fn clone(&self) -> (r: Self)
        ensures
            r@ == self@,
    {
        Endpoint { proto: self.proto, endpoint: self.endpoint.clone() }
    }
}

impl PartialEq for Endpoint {
    fn eq(&self, other: &Self) -> (r: bool) {
        self.proto == other.proto && self.endpoint == other.endpoint
    }
}

impl Eq for Endpoint {

}

impl vstd::std_specs::cmp::PartialEqSpecImpl for Endpoint {
    open spec fn obeys_eq_spec() -> bool {
        true
    }

    open spec fn eq_spec(&self, other: &Endpoint) -> bool {
        self@ == other@
    }
}

/// ASCII lowercase of a character; anything but `A`..`Z` is left alone.
pub open spec fn lower_char(c: char) -> char {
    if c == 'A' {
        'a'
    } else if c == 'B' {
        'b'
    } else if c == 'C' {
        'c'
    } else if c == 'D' {
        'd'
    } else if c == 'E' {
        'e'
    } else if c == 'F' {
        'f'
    } else if c == 'G' {
        'g'
    } else if c == 'H' {
        'h'
    } else if c == 'I' {
        'i'
    } else if c == 'J' {
        'j'
    } else if c == 'K' {
        'k'
    } else if c == 'L' {
        'l'
    } else if c == 'M' {
        'm'
    } else if c == 'N' {
        'n'
    } else if c == 'O' {
        'o'
    } else if c == 'P' {
        'p'
    } else if c == 'Q' {
        'q'
    } else if c == 'R' {
        'r'
    } else if c == 'S' {
        's'
    } else if c == 'T' {
        't'
    } else if c == 'U' {
        'u'
    } else if c == 'V' {
        'v'
    } else if c == 'W' {
        'w'
    } else if c == 'X' {
        'x'
    } else if c == 'Y' {
        'y'
    } else if c == 'Z' {
        'z'
    } else {
        c
    }
}

/// Canonical (lowercase) scheme name of a transport.
pub open spec fn proto_name(p: EndpointProto) -> Seq<char> {
    match p {
        EndpointProto::Udp => seq!['u', 'd', 'p'],
        EndpointProto::Tcp => seq!['t', 'c', 'p'],
        EndpointProto::Bp => seq!['b', 'p'],
    }
}

/// The scheme token equals `name` up to ASCII case.
pub open spec fn scheme_matches(s: Seq<char>, name: Seq<char>) -> bool {
    s.len() == name.len() && forall|j: int|
        0 <= j < s.len() ==> lower_char(#[trigger] s[j]) == name[j]
}

/// A view is internally consistent: a custom-transport endpoint carries a
/// well-formed `ipn:` address.  The datagram and stream transports accept any
/// address text here; its network syntax is checked when a socket is built.
pub open spec fn endpoint_wf(v: EndpointView) -> bool {
    v.proto is Bp ==> is_ipn_addr(v.addr)
}

/// What parsing returns for every input string: the input splits at its
/// first space into a scheme and an address; the scheme picks the transport
/// case-insensitively; a `bp` address must be a well-formed `ipn:` name.
pub open spec fn spec_parse_endpoint(s: Seq<char>) -> Result<EndpointView, ParseError> {
    match spec_find(s, ' ') {
        None => Err(ParseError::InvalidInput),
        Some(i) => {
            let scheme = s.take(i);
            let addr = s.skip(i + 1);
            if scheme_matches(scheme, proto_name(EndpointProto::Bp)) {
                if is_ipn_addr(addr) {
                    Ok(EndpointView { proto: EndpointProto::Bp, addr })
                } else {
                    Err(ParseError::InvalidInput)
                }
            } else if scheme_matches(scheme, proto_name(EndpointProto::Tcp)) {
                Ok(EndpointView { proto: EndpointProto::Tcp, addr })
            } else if scheme_matches(scheme, proto_name(EndpointProto::Udp)) {
                Ok(EndpointView { proto: EndpointProto::Udp, addr })
            } else {
                Err(ParseError::UnsupportedScheme)
            }
        },
    }
}

/// What formatting returns: the canonical scheme name, one space, and the
/// address verbatim.
pub open spec fn spec_format_endpoint(v: EndpointView) -> Seq<char> {
    proto_name(v.proto) + seq![' '] + v.addr
}

/// The parse result with the endpoint replaced by its view.
pub open spec fn parse_result_view(r: Result<Endpoint, ParseError>) -> Result<
    EndpointView,
    ParseError,
> {
    match r {
        Ok(ep) => Ok(ep@),
        Err(e) => Err(e),
    }
}

impl EndpointProto {
    /// The canonical scheme name, as a string.
    pub fn to_string(&self) -> (r: String)
        ensures
            r@ == proto_name(*self),
    {
        match self {
            EndpointProto::Udp => {
                let r = String::from_str("udp");
                proof {
                    reveal_strlit("udp");
                    assert(r@ =~= proto_name(EndpointProto::Udp));
                }
                r
            },
            EndpointProto::Tcp => {
                let r = String::from_str("tcp");
                proof {
                    reveal_strlit("tcp");
                    assert(r@ =~= proto_name(EndpointProto::Tcp));
                }
                r
            },
            EndpointProto::Bp => {
                let r = String::from_str("bp");
                proof {
                    reveal_strlit("bp");
                    assert(r@ =~= proto_name(EndpointProto::Bp));
                }
                r
            },
        }
    }
}

/// Checks whether the character at position `i` of `s` is `a` or `b`.
fn char_is_either(s: &str, i: usize, a: char, b: char) -> (r: bool)
    requires
        i < s@.len(),
    ensures
        r == (s@[i as int] == a || s@[i as int] == b),
{
    let c = s.get_char(i);
    c == a || c == b
}

impl Endpoint {
    /// This endpoint is internally consistent.
    pub open spec fn wf(&self) -> bool {
        endpoint_wf(self@)
    }

    /// Parses `"<scheme> <address>"` notation.  The scheme is matched
    /// case-insensitively against `udp`, `tcp` and `bp`; an unknown scheme
    /// fails with [`ParseError::UnsupportedScheme`], a missing address part
    /// or a malformed `bp` address with [`ParseError::InvalidInput`].
    pub fn from_str(input: &str) -> (r: Result<Self, ParseError>)
        ensures
            parse_result_view(r) == spec_parse_endpoint(input@),
            r matches Ok(ep) ==> ep.wf(),
    {
        let n = input.unicode_len();
        let space = match find_char(input, ' ') {
            Some(i) => i,
            None => {
                return Err(ParseError::InvalidInput);
            },
        };
        proof {
            crate::scan::lemma_spec_find(input@, ' ');
        }
        let ghost scheme = input@.take(space as int);
        let ghost addr = input@.skip(space + 1);
        let addr_str = input.substring_char(space + 1, n);
        proof {
            assert(addr_str@ =~= addr);
        }
        let is_bp = space == 2 && char_is_either(input, 0, 'b', 'B') && char_is_either(
            input,
            1,
            'p',
            'P',
        );
        if is_bp {
            proof {
                assert(scheme_matches(scheme, proto_name(EndpointProto::Bp)));
            }
            return match create_bp_sockaddr_with_string(addr_str) {
                Ok(_) => {
                    proof {
                        assert(spec_build_bp_addr(addr) is Ok);
                        assert(is_ipn_addr(addr));
                    }
                    Ok(Endpoint { proto: EndpointProto::Bp, endpoint: addr_str.to_owned() })
                },
                Err(_) => {
                    proof {
                        if is_ipn_addr(addr) {
                            assert(addr.len() >= 4);
                            assert(spec_build_bp_addr(addr) is Ok);
                        }
                    }
                    Err(ParseError::InvalidInput)
                },
            };
        }
        proof {
            assert(!scheme_matches(scheme, proto_name(EndpointProto::Bp))) by {
                if scheme_matches(scheme, proto_name(EndpointProto::Bp)) {
                    assert(lower_char(scheme[0]) == 'b' && lower_char(scheme[1]) == 'p');
                    assert(scheme[0] == input@[0] && scheme[1] == input@[1]);
                }
            }
        }
        let is_tcp = space == 3 && char_is_either(input, 0, 't', 'T') && char_is_either(
            input,
            1,
            'c',
            'C',
        ) && char_is_either(input, 2, 'p', 'P');
        if is_tcp {
            proof {
                assert(scheme_matches(scheme, proto_name(EndpointProto::Tcp)));
            }
            return Ok(Endpoint { proto: EndpointProto::Tcp, endpoint: addr_str.to_owned() });
        }
        proof {
            assert(!scheme_matches(scheme, proto_name(EndpointProto::Tcp))) by {
                if scheme_matches(scheme, proto_name(EndpointProto::Tcp)) {
                    assert(lower_char(scheme[0]) == 't' && lower_char(scheme[1]) == 'c'
                        && lower_char(scheme[2]) == 'p');
                    assert(scheme[0] == input@[0] && scheme[1] == input@[1] && scheme[2]
                        == input@[2]);
                }
            }
        }
        let is_udp = space == 3 && char_is_either(input, 0, 'u', 'U') && char_is_either(
            input,
            1,
            'd',
            'D',
        ) && char_is_either(input, 2, 'p', 'P');
        if is_udp {
            proof {
                assert(scheme_matches(scheme, proto_name(EndpointProto::Udp)));
            }
            return Ok(Endpoint { proto: EndpointProto::Udp, endpoint: addr_str.to_owned() });
        }
        proof {
            assert(!scheme_matches(scheme, proto_name(EndpointProto::Udp))) by {
                if scheme_matches(scheme, proto_name(EndpointProto::Udp)) {
                    assert(lower_char(scheme[0]) == 'u' && lower_char(scheme[1]) == 'd'
                        && lower_char(scheme[2]) == 'p');
                    assert(scheme[0] == input@[0] && scheme[1] == input@[1] && scheme[2]
                        == input@[2]);
                }
            }
        }
        Err(ParseError::UnsupportedScheme)
    }

    /// Formats the endpoint back into `"<scheme> <address>"` notation with a
    /// lowercase scheme.
    pub fn to_string(&self) -> (r: String)
        ensures
            r@ == spec_format_endpoint(self@),
    {
        let mut s = self.proto.to_string();
        s.append(" ");
        s.append(self.endpoint.as_str());
        proof {
            reveal_strlit(" ");
            assert(" "@ =~= seq![' ']);
            assert(s@ =~= spec_format_endpoint(self@));
        }
        s
    }
}

/// The display form used by console front-ends: the scheme in capitals, a
/// colon, and the address.
pub open spec fn spec_display_endpoint(v: EndpointView) -> Seq<char> {
    match v.proto {
        EndpointProto::Udp => seq!['U', 'D', 'P', ':'] + v.addr,
        EndpointProto::Tcp => seq!['T', 'C', 'P', ':'] + v.addr,
        EndpointProto::Bp => seq!['B', 'P', ':'] + v.addr,
    }
}

/// Renders an endpoint as `<SCHEME>:<address>` for console output.
pub fn format_endpoint(endpoint: &Endpoint) -> (r: String)
    ensures
        r@ == spec_display_endpoint(endpoint@),
{
    let mut s = match endpoint.proto {
        EndpointProto::Udp => {
            let p = String::from_str("UDP:");
            proof {
                reveal_strlit("UDP:");
                assert(p@ =~= seq!['U', 'D', 'P', ':']);
            }
            p
        },
        EndpointProto::Tcp => {
            let p = String::from_str("TCP:");
            proof {
                reveal_strlit("TCP:");
                assert(p@ =~= seq!['T', 'C', 'P', ':']);
            }
            p
        },
        EndpointProto::Bp => {
            let p = String::from_str("BP:");
            proof {
                reveal_strlit("BP:");
                assert(p@ =~= seq!['B', 'P', ':']);
            }
            p
        },
    };
    s.append(endpoint.endpoint.as_str());
    proof {
        assert(s@ =~= spec_display_endpoint(endpoint@));
    }
    s
}

/// The input with its scheme token lowered to canonical case and everything
/// else kept verbatim.
pub open spec fn normalize_endpoint_string(s: Seq<char>) -> Seq<char>
    recommends
        spec_find(s, ' ') is Some,
{
    let i = spec_find(s, ' ').unwrap();
    Seq::new(s.len(), |j: int| if j < i { lower_char(s[j]) } else { s[j] })
}

/// Round trip, first direction: formatting a successfully parsed endpoint
/// string gives the string back, with the scheme in canonical lowercase.
pub proof fn lemma_parse_then_format(s: Seq<char>)
    requires
        spec_parse_endpoint(s) is Ok,
    ensures
        spec_format_endpoint(spec_parse_endpoint(s).unwrap()) == normalize_endpoint_string(s),
{
    let i = spec_find(s, ' ').unwrap();
    crate::scan::lemma_spec_find(s, ' ');
    let v = spec_parse_endpoint(s).unwrap();
    let scheme = s.take(i);
    assert(scheme_matches(scheme, proto_name(v.proto)));
    assert(v.addr == s.skip(i + 1));
    assert(spec_format_endpoint(v) =~= normalize_endpoint_string(s)) by {
        assert(proto_name(v.proto).len() == i);
        assert forall|j: int| 0 <= j < s.len() implies spec_format_endpoint(v)[j]
            == normalize_endpoint_string(s)[j] by {
            if j < i {
                assert(scheme[j] == s[j]);
                assert(spec_format_endpoint(v)[j] == proto_name(v.proto)[j]);
                assert(proto_name(v.proto)[j] == lower_char(s[j]));
            } else if j == i {
                assert(spec_format_endpoint(v)[j] == ' ');
                assert(s[i] == ' ');
            } else {
                assert(spec_format_endpoint(v)[j] == v.addr[j - i - 1]);
                assert(v.addr[j - i - 1] == s[j]);
            }
        }
    }
}

/// Round trip, second direction: a well-formed endpoint survives formatting
/// and re-parsing unchanged, so formatting is the exact inverse of parsing.
pub proof fn lemma_format_then_parse(v: EndpointView)
    requires
        endpoint_wf(v),
    ensures
        spec_parse_endpoint(spec_format_endpoint(v)) == Ok::<EndpointView, ParseError>(v),
{
    let s = spec_format_endpoint(v);
    let name = proto_name(v.proto);
    assert(forall|j: int| 0 <= j < name.len() ==> #[trigger] name[j] != ' ');
    crate::scan::lemma_spec_find_at_boundary(name, v.addr, ' ');
    assert(spec_find(s, ' ') == Some(name.len() as int));
    let scheme = s.take(name.len() as int);
    assert(scheme =~= name);
    let addr = s.skip(name.len() as int + 1);
    assert(addr =~= v.addr);
    assert(scheme_matches(name, name)) by {
        assert(forall|j: int|
            0 <= j < name.len() ==> lower_char(#[trigger] name[j]) == name[j]);
    }
    match v.proto {
        EndpointProto::Bp => {
        },
        EndpointProto::Tcp => {
            assert(!scheme_matches(name, proto_name(EndpointProto::Bp)));
        },
        EndpointProto::Udp => {
            assert(!scheme_matches(name, proto_name(EndpointProto::Bp)));
            assert(!scheme_matches(name, proto_name(EndpointProto::Tcp))) by {
                if scheme_matches(name, proto_name(EndpointProto::Tcp)) {
                    assert(lower_char(name[0]) == 't');
                }
            }
        },
    }
}

} // verus!
