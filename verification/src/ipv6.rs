//! IPv6 address-and-port parsing for `[<address>]:<port>` notation.
//!
//! The accepted address grammar: groups of one to four hexadecimal digits
//! separated by single colons — exactly eight of them, or fewer with one
//! `::` standing for the missing all-zero groups (at least one).  Zone
//! identifiers and an embedded dotted IPv4 tail are not part of the
//! grammar.  The port token follows the same unsigned decimal grammar as
//! everywhere else in the crate.

use crate::scan::{find_char, is_u32_token, parse_u32_range, spec_find, u32_token_val};
use vstd::prelude::*;
use vstd::string::StrSliceExecFns;

verus! {

/// A hexadecimal digit.
pub open spec fn is_hex_digit(c: char) -> bool {
    ('0' <= c && c <= '9') || ('a' <= c && c <= 'f') || ('A' <= c && c <= 'F')
}

/// Numeric value of a hexadecimal digit.
pub open spec fn hex_digit_val(c: char) -> int {
    if '0' <= c && c <= '9' {
        c as int - '0' as int
    } else if 'a' <= c && c <= 'f' {
        c as int - 'a' as int + 10
    } else {
        c as int - 'A' as int + 10
    }
}

/// Every character of `s` is a hexadecimal digit.
pub open spec fn all_hex_digits(s: Seq<char>) -> bool {
    forall|j: int| 0 <= j < s.len() ==> is_hex_digit(#[trigger] s[j])
}

/// Value of a hexadecimal digit string read in base sixteen.
pub open spec fn hex_val(s: Seq<char>) -> int
    decreases s.len(),
{
    if s.len() == 0 {
        0
    } else {
        hex_val(s.drop_last()) * 16 + hex_digit_val(s.last())
    }
}

/// One group of an IPv6 address: one to four hexadecimal digits.
pub open spec fn is_hex_group(s: Seq<char>) -> bool {
    1 <= s.len() <= 4 && all_hex_digits(s)
}

/// Sixteen to the power `k`.
pub open spec fn pow16(k: nat) -> int
    decreases k,
{
    if k == 0 {
        1
    } else {
        16 * pow16((k - 1) as nat)
    }
}

/// A hexadecimal string's value is bounded by sixteen to its length; in
/// particular a group of at most four digits fits in sixteen bits.
pub proof fn lemma_hex_val_bound(s: Seq<char>)
    requires
        all_hex_digits(s),
    ensures
        0 <= hex_val(s) < pow16(s.len()),
    decreases s.len(),
{
    if s.len() > 0 {
        let t = s.drop_last();
        assert(all_hex_digits(t)) by {
            assert(forall|j: int| 0 <= j < t.len() ==> t[j] == #[trigger] s[j]);
        }
        lemma_hex_val_bound(t);
        assert(0 <= hex_digit_val(s.last()) < 16);
        assert(pow16(s.len()) == 16 * pow16(t.len()));
    }
}

/// Reads the characters of `s` in the index range `[from, to)` as one
/// hexadecimal group.  Returns `None` exactly when the range is not a group
/// of one to four hexadecimal digits.
pub fn parse_hex_group_range(s: &str, from: usize, to: usize) -> (r: Option<u16>)
    requires
        from <= to <= s@.len(),
    ensures
        match r {
            Some(v) => is_hex_group(s@.subrange(from as int, to as int)) && v == hex_val(
                s@.subrange(from as int, to as int),
            ),
            None => !is_hex_group(s@.subrange(from as int, to as int)),
        },
{
    let ghost tok = s@.subrange(from as int, to as int);
    if to == from || to - from > 4 {
        return None;
    }
    let mut acc: u32 = 0;
    let mut i = from;
    while i < to
        invariant
            from <= i <= to <= s@.len(),
            to - from <= 4,
            tok == s@.subrange(from as int, to as int),
            all_hex_digits(tok.take(i - from)),
            acc == hex_val(tok.take(i - from)),
            acc < 65536,
        decreases to - i,
    {
        let c = s.get_char(i);
        proof {
            assert(tok[i - from] == s@[i as int]);
        }
        let d: u32 = if c >= '0' && c <= '9' {
            (c as u32) - ('0' as u32)
        } else if c >= 'a' && c <= 'f' {
            (c as u32) - ('a' as u32) + 10
        } else if c >= 'A' && c <= 'F' {
            (c as u32) - ('A' as u32) + 10
        } else {
            proof {
                assert(!is_hex_digit(tok[i - from]));
            }
            return None;
        };
        proof {
            let pre = tok.take(i - from + 1);
            assert(pre.drop_last() =~= tok.take(i - from));
            assert(pre.last() == tok[i - from]);
            assert(hex_digit_val(tok[i - from]) == d as int);
            assert(all_hex_digits(pre)) by {
                assert(forall|j: int|
                    0 <= j < pre.len() - 1 ==> pre[j] == #[trigger] tok.take(i - from)[j]);
            }
            lemma_hex_val_bound(pre);
            assert(1 <= pre.len() <= 4);
            assert(pow16(0) == 1);
            assert(pow16(1) == 16);
            assert(pow16(2) == 256);
            assert(pow16(3) == 4096);
            assert(pow16(4) == 65536);
            assert(pow16(pre.len()) <= 65536);
        }
        acc = acc * 16 + d;
        i += 1;
    }
    proof {
        assert(tok.take(to - from) =~= tok);
    }
    Some(acc as u16)
}

/// The group lists an IPv6 side denotes: the empty string is no groups at
/// all; otherwise hexadecimal groups separated by single colons, none of
/// them empty.
pub open spec fn spec_hex_groups(s: Seq<char>) -> Option<Seq<int>>
    decreases s.len(),
{
    if s.len() == 0 {
        Some(Seq::<int>::empty())
    } else {
        match spec_find(s, ':') {
            None => if is_hex_group(s) {
                Some(seq![hex_val(s)])
            } else {
                None
            },
            Some(i) => if 0 <= i < s.len() && is_hex_group(s.take(i)) {
                match spec_hex_groups(s.skip(i + 1)) {
                    Some(rest) => if rest.len() > 0 {
                        Some(seq![hex_val(s.take(i))] + rest)
                    } else {
                        None
                    },
                    None => None,
                }
            } else {
                None
            },
        }
    }
}

/// Reads a whole side string as a colon-separated list of hexadecimal
/// groups.
fn parse_groups(s: &str) -> (r: Option<Vec<u16>>)
    ensures
        match r {
            Some(vals) => spec_hex_groups(s@) == Some(
                Seq::new(vals@.len(), |i: int| vals@[i] as int),
            ),
            None => spec_hex_groups(s@) is None,
        },
{
    let n = s.unicode_len();
    let mut vals: Vec<u16> = Vec::new();
    let mut i: usize = 0;
    if n == 0 {
        proof {
            assert(Seq::new(vals@.len(), |j: int| vals@[j] as int) =~= Seq::<int>::empty());
        }
        return Some(vals);
    }
    proof {
        assert(s@.subrange(0, n as int) =~= s@);
        match spec_hex_groups(s@) {
            Some(rest) => {
                assert(Seq::new(vals@.len(), |j: int| vals@[j] as int) + rest =~= rest);
            },
            None => {},
        }
    }
    loop
        invariant
            0 <= i <= n,
            1 <= n,
            n == s@.len(),
            ({
                let prefix = Seq::new(vals@.len(), |j: int| vals@[j] as int);
                let tail = s@.subrange(i as int, n as int);
                match spec_hex_groups(tail) {
                    Some(rest) => spec_hex_groups(s@) == (if i > 0 && rest.len() == 0 {
                        None
                    } else {
                        Some(prefix + rest)
                    }),
                    None => spec_hex_groups(s@) is None,
                }
            }),
        decreases n - i,
    {
        let ghost tail = s@.subrange(i as int, n as int);
        let ghost prefix = Seq::new(vals@.len(), |j: int| vals@[j] as int);
        let rest_str = s.substring_char(i, n);
        proof {
            assert(rest_str@ =~= tail);
        }
        match find_char(rest_str, ':') {
            None => {
                // The final group runs to the end of the string.
                proof {
                    crate::scan::lemma_spec_find(tail, ':');
                }
                match parse_hex_group_range(s, i, n) {
                    Some(v) => {
                        proof {
                            assert(s@.subrange(i as int, n as int) =~= tail);
                            assert(tail.len() > 0);
                            assert(spec_hex_groups(tail) == Some(seq![hex_val(tail)]));
                        }
                        vals.push(v);
                        proof {
                            assert(Seq::new(vals@.len(), |j: int| vals@[j] as int) =~= prefix
                                + seq![hex_val(tail)]);
                        }
                        return Some(vals);
                    },
                    None => {
                        proof {
                            assert(s@.subrange(i as int, n as int) =~= tail);
                            if tail.len() == 0 {
                                assert(!is_hex_group(tail));
                                assert(spec_hex_groups(tail) == Some(Seq::<int>::empty()));
                            } else {
                                assert(spec_hex_groups(tail) is None);
                            }
                        }
                        return None;
                    },
                }
            },
            Some(j_rel) => {
                proof {
                    crate::scan::lemma_spec_find(tail, ':');
                }
                let j = i + j_rel;
                match parse_hex_group_range(s, i, j) {
                    Some(v) => {
                        proof {
                            assert(s@.subrange(i as int, j as int) =~= tail.take(j_rel as int));
                            assert(tail.len() > 0);
                            assert(spec_hex_groups(tail) == (match spec_hex_groups(
                                tail.skip(j_rel + 1),
                            ) {
                                Some(rest) => if rest.len() > 0 {
                                    Some(seq![hex_val(tail.take(j_rel as int))] + rest)
                                } else {
                                    None
                                },
                                None => None,
                            }));
                        }
                        vals.push(v);
                        let ghost new_prefix = Seq::new(vals@.len(), |j2: int| vals@[j2] as int);
                        proof {
                            assert(new_prefix =~= prefix + seq![hex_val(tail.take(j_rel as int))]);
                            assert(s@.subrange(j + 1, n as int) =~= tail.skip(j_rel + 1));
                            match spec_hex_groups(tail.skip(j_rel + 1)) {
                                Some(rest) => {
                                    if rest.len() > 0 {
                                        assert((prefix + (seq![hex_val(
                                            tail.take(j_rel as int),
                                        )] + rest)) =~= new_prefix + rest);
                                    }
                                },
                                None => {},
                            }
                        }
                        i = j + 1;
                    },
                    None => {
                        proof {
                            assert(s@.subrange(i as int, j as int) =~= tail.take(j_rel as int));
                            assert(tail.len() > 0);
                            assert(spec_hex_groups(tail) is None);
                        }
                        return None;
                    },
                }
            },
        }
    }
}

/// Index of the first `::` in `s`, if any.
pub open spec fn spec_find_dc(s: Seq<char>) -> Option<int>
    decreases s.len(),
{
    if s.len() < 2 {
        None
    } else if s[0] == ':' && s[1] == ':' {
        Some(0int)
    } else {
        match spec_find_dc(s.drop_first()) {
            Some(i) => Some(i + 1),
            None => None,
        }
    }
}

/// What `spec_find_dc` returns is a pair of adjacent colons, and the first
/// one.
pub proof fn lemma_find_dc_props(s: Seq<char>)
    ensures
        match spec_find_dc(s) {
            Some(i) => 0 <= i < s.len() - 1 && s[i] == ':' && s[i + 1] == ':' && forall|k: int|
                0 <= k < i ==> !(#[trigger] s[k] == ':' && s[k + 1] == ':'),
            None => forall|k: int|
                0 <= k < s.len() - 1 ==> !(#[trigger] s[k] == ':' && s[k + 1] == ':'),
        },
    decreases s.len(),
{
    if s.len() >= 2 && !(s[0] == ':' && s[1] == ':') {
        let t = s.drop_first();
        lemma_find_dc_props(t);
        assert(forall|k: int|
            0 <= k < t.len() - 1 ==> t[k] == #[trigger] s[k + 1] && t[k + 1] == s[k + 2]);
        match spec_find_dc(t) {
            Some(i) => {
                assert(s[i + 1] == t[i] && s[i + 2] == t[i + 1]);
                assert forall|k: int|
                    0 <= k < i + 1 implies !(#[trigger] s[k] == ':' && s[k + 1] == ':') by {
                    if k > 0 {
                        assert(t[k - 1] == s[k] && t[k] == s[k + 1]);
                    }
                }
            },
            None => {
                assert forall|k: int|
                    0 <= k < s.len() - 1 implies !(#[trigger] s[k] == ':' && s[k + 1] == ':') by {
                    if k > 0 {
                        assert(t[k - 1] == s[k] && t[k] == s[k + 1]);
                    }
                }
            },
        }
    }
}

/// A pair of colons at `j`, with no pair before it, is what `spec_find_dc`
/// returns.
proof fn lemma_find_dc_at(s: Seq<char>, j: int)
    requires
        0 <= j < s.len() - 1,
        s[j] == ':' && s[j + 1] == ':',
        forall|k: int| 0 <= k < j ==> !(#[trigger] s[k] == ':' && s[k + 1] == ':'),
    ensures
        spec_find_dc(s) == Some(j),
    decreases j,
{
    if j > 0 {
        let t = s.drop_first();
        assert(t[j - 1] == s[j] && t[j] == s[j + 1]);
        assert(forall|k: int| 0 <= k < j - 1 ==> t[k] == #[trigger] s[k + 1] && t[k + 1] == s[k + 2]);
        lemma_find_dc_at(t, j - 1);
    }
}

/// A string with no pair of adjacent colons has no `::`.
proof fn lemma_find_dc_none(s: Seq<char>)
    requires
        forall|k: int| 0 <= k < s.len() - 1 ==> !(#[trigger] s[k] == ':' && s[k + 1] == ':'),
    ensures
        spec_find_dc(s) is None,
    decreases s.len(),
{
    if s.len() >= 2 {
        let t = s.drop_first();
        assert(forall|k: int|
            0 <= k < t.len() - 1 ==> t[k] == #[trigger] s[k + 1] && t[k + 1] == s[k + 2]);
        lemma_find_dc_none(t);
    }
}

/// Finds the first `::` in `s`.
fn find_dc(s: &str) -> (r: Option<usize>)
    ensures
        match r {
            Some(j) => spec_find_dc(s@) == Some(j as int),
            None => spec_find_dc(s@) is None,
        },
{
    let n = s.unicode_len();
    if n < 2 {
        proof {
            lemma_find_dc_none(s@);
        }
        return None;
    }
    let mut j: usize = 0;
    while j < n - 1
        invariant
            0 <= j <= n - 1,
            n == s@.len(),
            n >= 2,
            forall|k: int| 0 <= k < j ==> !(#[trigger] s@[k] == ':' && s@[k + 1] == ':'),
        decreases n - j,
    {
        if s.get_char(j) == ':' && s.get_char(j + 1) == ':' {
            proof {
                lemma_find_dc_at(s@, j as int);
            }
            return Some(j);
        }
        j += 1;
    }
    proof {
        lemma_find_dc_none(s@);
    }
    None
}

/// An IPv6 address and port, the resolved form of a `[<host>]:<port>`
/// string: the eight 16-bit groups, most significant first, and the port.
#[derive(Clone, Copy, Debug, PartialEq, Eq, Structural)]
pub struct Ipv6AddrPort {
    /// First group.
    pub g0: u16,
    /// Second group.
    pub g1: u16,
    /// Third group.
    pub g2: u16,
    /// Fourth group.
    pub g3: u16,
    /// Fifth group.
    pub g4: u16,
    /// Sixth group.
    pub g5: u16,
    /// Seventh group.
    pub g6: u16,
    /// Eighth group.
    pub g7: u16,
    /// Port number.
    pub port: u16,
}

impl Ipv6AddrPort {
    /// The eight groups as a sequence, most significant first.
    pub open spec fn groups(self) -> Seq<int> {
        seq![
            self.g0 as int,
            self.g1 as int,
            self.g2 as int,
            self.g3 as int,
            self.g4 as int,
            self.g5 as int,
            self.g6 as int,
            self.g7 as int,
        ]
    }
}

/// The address a full list of eight groups and a port denote.
pub open spec fn spec_v6_of_groups(g: Seq<int>, port: int) -> Ipv6AddrPort
    recommends
        g.len() == 8,
{
    Ipv6AddrPort {
        g0: g[0] as u16,
        g1: g[1] as u16,
        g2: g[2] as u16,
        g3: g[3] as u16,
        g4: g[4] as u16,
        g5: g[5] as u16,
        g6: g[6] as u16,
        g7: g[7] as u16,
        port: port as u16,
    }
}

/// The groups written on either side of a `::`, with the elided all-zero
/// groups restored between them.
pub open spec fn spec_expand_dc(left: Seq<int>, right: Seq<int>) -> Seq<int>
    recommends
        left.len() + right.len() <= 7,
{
    left + Seq::new((8 - left.len() - right.len()) as nat, |i: int| 0int) + right
}

/// What IPv6 address parsing returns for every input: a bracketed host, a
/// colon, and a 16-bit port; the host is eight hexadecimal groups, or fewer
/// with one `::` standing for the missing all-zero groups.
pub open spec fn spec_parse_v6(s: Seq<char>) -> Option<Ipv6AddrPort> {
    if !(s.len() >= 1 && s[0] == '[') {
        None
    } else {
        match spec_find(s, ']') {
            None => None,
            Some(close) => {
                let inner = s.subrange(1, close);
                if !(close + 2 <= s.len() && s[close + 1] == ':') {
                    None
                } else {
                    let port_tok = s.skip(close + 2);
                    if !(is_u32_token(port_tok) && u32_token_val(port_tok) <= u16::MAX) {
                        None
                    } else {
                        let port = u32_token_val(port_tok);
                        match spec_find_dc(inner) {
                            None => match spec_hex_groups(inner) {
                                Some(g) => if g.len() == 8 {
                                    Some(spec_v6_of_groups(g, port))
                                } else {
                                    None
                                },
                                None => None,
                            },
                            Some(d) => {
                                let left = inner.take(d);
                                let right = inner.skip(d + 2);
                                match (spec_hex_groups(left), spec_hex_groups(right)) {
                                    (Some(gl), Some(gr)) => if gl.len() + gr.len() <= 7 {
                                        Some(spec_v6_of_groups(spec_expand_dc(gl, gr), port))
                                    } else {
                                        None
                                    },
                                    _ => None,
                                }
                            },
                        }
                    }
                }
            },
        }
    }
}

/// Reads eight groups out of the parsed sides of the host, restoring the
/// all-zero groups a `::` elides.
fn assemble_groups(left: &Vec<u16>, right: &Vec<u16>) -> (r: Vec<u16>)
    requires
        left@.len() + right@.len() <= 7,
    ensures
        r@.len() == 8,
        Seq::new(r@.len(), |i: int| r@[i] as int) == spec_expand_dc(
            Seq::new(left@.len(), |i: int| left@[i] as int),
            Seq::new(right@.len(), |i: int| right@[i] as int),
        ),
{
    let mut r: Vec<u16> = Vec::new();
    let mut i: usize = 0;
    while i < left.len()
        invariant
            0 <= i <= left@.len(),
            r@ =~= left@.take(i as int),
        decreases left@.len() - i,
    {
        r.push(left[i]);
        i += 1;
    }
    let zeros = 8 - left.len() - right.len();
    let mut k: usize = 0;
    while k < zeros
        invariant
            0 <= k <= zeros,
            zeros == 8 - left@.len() - right@.len(),
            left@.len() + right@.len() <= 7,
            r@ =~= left@ + Seq::new(k as nat, |j: int| 0u16),
        decreases zeros - k,
    {
        r.push(0);
        k += 1;
    }
    let mut m: usize = 0;
    while m < right.len()
        invariant
            0 <= m <= right@.len(),
            zeros == 8 - left@.len() - right@.len(),
            left@.len() + right@.len() <= 7,
            r@ =~= left@ + Seq::new(zeros as nat, |j: int| 0u16) + right@.take(m as int),
        decreases right@.len() - m,
    {
        r.push(right[m]);
        m += 1;
    }
    proof {
        assert(r@ =~= left@ + Seq::new(zeros as nat, |j: int| 0u16) + right@);
        assert(Seq::new(r@.len(), |i2: int| r@[i2] as int) =~= spec_expand_dc(
            Seq::new(left@.len(), |i2: int| left@[i2] as int),
            Seq::new(right@.len(), |i2: int| right@[i2] as int),
        ));
    }
    r
}

/// The address eight parsed groups and a port denote.
fn v6_of_groups(g: &Vec<u16>, port: u16) -> (r: Ipv6AddrPort)
    requires
        g@.len() == 8,
    ensures
        r == spec_v6_of_groups(Seq::new(g@.len(), |i: int| g@[i] as int), port as int),
{
    Ipv6AddrPort {
        g0: g[0],
        g1: g[1],
        g2: g[2],
        g3: g[3],
        g4: g[4],
        g5: g[5],
        g6: g[6],
        g7: g[7],
        port,
    }
}

/// Parses `[<host>]:<port>` notation into an address-and-port value.
pub fn parse_v6(s: &str) -> (r: Option<Ipv6AddrPort>)
    ensures
        r == spec_parse_v6(s@),
{
    let n = s.unicode_len();
    if n == 0 || s.get_char(0) != '[' {
        return None;
    }
    let close = match find_char(s, ']') {
        Some(c) => c,
        None => {
            return None;
        },
    };
    proof {
        crate::scan::lemma_spec_find(s@, ']');
    }
    if close + 1 >= n {
        return None;
    }
    if s.get_char(close + 1) != ':' {
        return None;
    }
    let port = match parse_u32_range(s, close + 2, n) {
        Some(v) => {
            proof {
                assert(s@.subrange(close + 2, n as int) =~= s@.skip(close + 2));
            }
            if v > 65535 {
                return None;
            }
            v as u16
        },
        None => {
            proof {
                assert(s@.subrange(close + 2, n as int) =~= s@.skip(close + 2));
            }
            return None;
        },
    };
    let inner = s.substring_char(1, close);
    let ghost inner_v = s@.subrange(1, close as int);
    proof {
        assert(inner@ =~= inner_v);
    }
    let inner_len = inner.unicode_len();
    match find_dc(inner) {
        None => {
            let groups = match parse_groups(inner) {
                Some(g) => g,
                None => {
                    return None;
                },
            };
            if groups.len() == 8 {
                Some(v6_of_groups(&groups, port))
            } else {
                None
            }
        },
        Some(d) => {
            proof {
                lemma_find_dc_props(inner_v);
            }
            let left_str = inner.substring_char(0, d);
            proof {
                assert(left_str@ =~= inner_v.take(d as int));
            }
            let right_str = inner.substring_char(d + 2, inner_len);
            proof {
                assert(right_str@ =~= inner_v.skip(d + 2));
            }
            let left = match parse_groups(left_str) {
                Some(g) => g,
                None => {
                    return None;
                },
            };
            let right = match parse_groups(right_str) {
                Some(g) => g,
                None => {
                    return None;
                },
            };
            if left.len() <= 7 && right.len() <= 7 - left.len() {
                let groups = assemble_groups(&left, &right);
                Some(v6_of_groups(&groups, port))
            } else {
                None
            }
        },
    }
}

} // verus!
