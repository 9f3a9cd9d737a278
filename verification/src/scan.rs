//! Character-level scanning helpers: locating a separator character and
//! reading an unsigned 32-bit decimal number out of a string slice.

use vstd::prelude::*;
use vstd::string::StringExecFns;

verus! {

/// Index of the first occurrence of `c` in `s`, if any.
pub open spec fn spec_find(s: Seq<char>, c: char) -> Option<int>
    decreases s.len(),
{
    if s.len() == 0 {
        None
    } else if s[0] == c {
        Some(0int)
    } else {
        match spec_find(s.drop_first(), c) {
            Some(i) => Some(i + 1),
            None => None,
        }
    }
}

/// What `spec_find` returns is an occurrence of `c`, and the first one.
pub proof fn lemma_spec_find(s: Seq<char>, c: char)
    ensures
        match spec_find(s, c) {
            Some(i) => 0 <= i < s.len() && s[i] == c && forall|j: int|
                0 <= j < i ==> s[j] != c,
            None => forall|j: int| 0 <= j < s.len() ==> s[j] != c,
        },
    decreases s.len(),
{
    if s.len() > 0 && s[0] != c {
        let t = s.drop_first();
        lemma_spec_find(t, c);
        match spec_find(t, c) {
            Some(i) => {
                assert(s[i + 1] == t[i]);
                assert forall|j: int| 0 <= j < i + 1 implies s[j] != c by {
                    if j > 0 {
                        assert(t[j - 1] == s[j]);
                    }
                }
            },
            None => {
                assert forall|j: int| 0 <= j < s.len() implies s[j] != c by {
                    if j > 0 {
                        assert(t[j - 1] == s[j]);
                    }
                }
            },
        }
    }
}

/// A sequence without any occurrence of `c`, extended by `c` and then by
/// anything at all, has its first occurrence of `c` exactly at the boundary.
pub proof fn lemma_spec_find_at_boundary(a: Seq<char>, b: Seq<char>, c: char)
    requires
        forall|j: int| 0 <= j < a.len() ==> a[j] != c,
    ensures
        spec_find(a + seq![c] + b, c) == Some(a.len() as int),
    decreases a.len(),
{
    let s = a + seq![c] + b;
    if a.len() == 0 {
        assert(s[0] == c);
    } else {
        lemma_spec_find_at_boundary(a.drop_first(), b, c);
        assert(s[0] == a[0]);
        assert(s.drop_first() =~= a.drop_first() + seq![c] + b);
    }
}

/// Finds the first occurrence of `c` in `s`, scanning left to right.
pub fn find_char(s: &str, c: char) -> (r: Option<usize>)
    ensures
        match r {
            Some(i) => spec_find(s@, c) == Some(i as int),
            None => spec_find(s@, c) is None,
        },
{
    let n = s.unicode_len();
    let mut i: usize = 0;
    while i < n
        invariant
            0 <= i <= n,
            n == s@.len(),
            forall|j: int| 0 <= j < i ==> s@[j] != c,
        decreases n - i,
    {
        if s.get_char(i) == c {
            proof {
                lemma_spec_find(s@, c);
                lemma_spec_find_at_boundary(s@.take(i as int), s@.skip(i + 1), c);
                assert(s@.take(i as int) + seq![c] + s@.skip(i + 1) =~= s@);
            }
            return Some(i);
        }
        i += 1;
    }
    proof {
        lemma_spec_find(s@, c);
        if spec_find(s@, c) is Some {
            let k = spec_find(s@, c).unwrap();
            assert(s@[k] == c);
        }
    }
    None
}

/// A decimal digit.
pub open spec fn is_digit(c: char) -> bool {
    '0' <= c && c <= '9'
}

/// Numeric value of a digit character.
pub open spec fn digit_val(c: char) -> int {
    c as int - '0' as int
}

/// Every character of `s` is a decimal digit.
pub open spec fn all_digits(s: Seq<char>) -> bool {
    forall|j: int| 0 <= j < s.len() ==> is_digit(#[trigger] s[j])
}

/// Value of a digit string read in base ten.
pub open spec fn dec_val(s: Seq<char>) -> int
    decreases s.len(),
{
    if s.len() == 0 {
        0
    } else {
        dec_val(s.drop_last()) * 10 + digit_val(s.last())
    }
}

/// The value of a digit string is non-negative and grows (weakly) with every
/// digit that is appended.
pub proof fn lemma_dec_val_monotone(s: Seq<char>)
    requires
        all_digits(s),
    ensures
        dec_val(s) >= 0,
        forall|i: int| 0 <= i <= s.len() ==> #[trigger] dec_val(s.take(i)) <= dec_val(s),
    decreases s.len(),
{
    if s.len() > 0 {
        assert(all_digits(s.drop_last())) by {
            assert(forall|j: int|
                0 <= j < s.len() - 1 ==> s.drop_last()[j] == #[trigger] s[j]);
        }
        lemma_dec_val_monotone(s.drop_last());
        assert(digit_val(s.last()) >= 0);
        assert forall|i: int| 0 <= i <= s.len() implies #[trigger] dec_val(s.take(i))
            <= dec_val(s) by {
            if i < s.len() {
                assert(s.take(i) =~= s.drop_last().take(i));
                assert(dec_val(s.drop_last()) <= dec_val(s));
            } else {
                assert(s.take(i) =~= s);
            }
        }
    }
}

/// The digit character of a value below ten.
pub open spec fn digit_char(d: int) -> char {
    if d == 0 {
        '0'
    } else if d == 1 {
        '1'
    } else if d == 2 {
        '2'
    } else if d == 3 {
        '3'
    } else if d == 4 {
        '4'
    } else if d == 5 {
        '5'
    } else if d == 6 {
        '6'
    } else if d == 7 {
        '7'
    } else if d == 8 {
        '8'
    } else {
        '9'
    }
}

/// Decimal rendering of a non-negative number, most significant digit
/// first, without leading zeros (zero itself is `0`).
pub open spec fn spec_dec_digits(n: int) -> Seq<char>
    decreases n,
{
    if n < 10 {
        seq![digit_char(n)]
    } else {
        spec_dec_digits(n / 10).push(digit_char(n % 10))
    }
}

/// Rendering agrees with parsing: the decimal digits of a number are all
/// digits, and reading them back in base ten gives the number again.
pub proof fn lemma_dec_digits_val(n: int)
    requires
        0 <= n,
    ensures
        all_digits(spec_dec_digits(n)),
        dec_val(spec_dec_digits(n)) == n,
    decreases n,
{
    if n < 10 {
        let s = spec_dec_digits(n);
        assert(s.drop_last() =~= Seq::<char>::empty());
        assert(dec_val(Seq::<char>::empty()) == 0);
        assert(s.last() == digit_char(n));
        assert(dec_val(s) == dec_val(s.drop_last()) * 10 + digit_val(s.last()));
        assert(digit_val(digit_char(n)) == n);
        assert(is_digit(digit_char(n)));
    } else {
        lemma_dec_digits_val(n / 10);
        let s = spec_dec_digits(n);
        let t = spec_dec_digits(n / 10);
        assert(s.drop_last() =~= t);
        assert(digit_val(digit_char(n % 10)) == n % 10);
        assert(is_digit(digit_char(n % 10)));
        assert(dec_val(s) == dec_val(t) * 10 + n % 10);
        assert forall|j: int| 0 <= j < s.len() implies is_digit(#[trigger] s[j]) by {
            if j < t.len() {
                assert(s[j] == t[j]);
            }
        }
    }
}

/// The single digit literal for a value below ten.
fn digit_str(d: u32) -> (r: &'static str)
    requires
        d < 10,
    ensures
        r@ =~= seq![digit_char(d as int)],
{
    proof {
        reveal_strlit("0");
        reveal_strlit("1");
        reveal_strlit("2");
        reveal_strlit("3");
        reveal_strlit("4");
        reveal_strlit("5");
        reveal_strlit("6");
        reveal_strlit("7");
        reveal_strlit("8");
        reveal_strlit("9");
    }
    match d {
        0 => "0",
        1 => "1",
        2 => "2",
        3 => "3",
        4 => "4",
        5 => "5",
        6 => "6",
        7 => "7",
        8 => "8",
        _ => "9",
    }
}

/// Renders a number in decimal.
pub fn u32_to_dec_string(n: u32) -> (r: String)
    ensures
        r@ == spec_dec_digits(n as int),
{
    // Collect the digits least significant first, then append them in
    // reverse.
    let mut reversed: Vec<u32> = Vec::new();
    let mut cur = n;
    proof {
        assert(spec_dec_digits(n as int) =~= spec_dec_digits(cur as int) + Seq::new(
            reversed@.len(),
            |i: int| digit_char(reversed@[reversed@.len() - 1 - i] as int),
        ));
    }
    while cur >= 10
        invariant
            spec_dec_digits(n as int) == spec_dec_digits(cur as int) + Seq::new(
                reversed@.len(),
                |i: int| digit_char(reversed@[reversed@.len() - 1 - i] as int),
            ),
            forall|i: int| 0 <= i < reversed@.len() ==> reversed@[i] < 10,
        decreases cur,
    {
        let ghost old_reversed = reversed@;
        let d = cur % 10;
        reversed.push(d);
        cur = cur / 10;
        proof {
            assert(spec_dec_digits(n as int) =~= spec_dec_digits(cur as int) + Seq::new(
                reversed@.len(),
                |i: int| digit_char(reversed@[reversed@.len() - 1 - i] as int),
            ));
        }
    }
    let ghost final_digits = spec_dec_digits(n as int);
    let mut r = String::from_str(digit_str(cur));
    proof {
        assert(r@ =~= final_digits.take(1));
    }
    let mut k = reversed.len();
    while k > 0
        invariant
            0 <= k <= reversed@.len(),
            final_digits == spec_dec_digits(n as int),
            final_digits.len() == 1 + reversed@.len(),
            forall|i: int| 0 <= i < reversed@.len() ==> reversed@[i] < 10,
            final_digits == seq![final_digits[0]] + Seq::new(
                reversed@.len(),
                |i: int| digit_char(reversed@[reversed@.len() - 1 - i] as int),
            ),
            r@ == final_digits.take(final_digits.len() - k),
        decreases k,
    {
        k = k - 1;
        let d = reversed[k];
        r.append(digit_str(d));
        proof {
            let done = final_digits.len() - k;
            assert(final_digits[done - 1] == digit_char(reversed@[k as int] as int));
            assert(r@ =~= final_digits.take(done));
        }
    }
    proof {
        assert(final_digits.take(final_digits.len() as int) =~= final_digits);
    }
    r
}

/// The numeric token grammar: an optional leading `+`, then one or more
/// decimal digits.  This mirrors how the standard unsigned-integer parser
/// reads its input.
pub open spec fn spec_digits_part(s: Seq<char>) -> Seq<char> {
    if s.len() > 0 && s[0] == '+' {
        s.drop_first()
    } else {
        s
    }
}

/// The strings accepted as unsigned 32-bit decimal numbers.
pub open spec fn is_u32_token(s: Seq<char>) -> bool {
    let d = spec_digits_part(s);
    d.len() > 0 && all_digits(d) && dec_val(d) <= u32::MAX
}

/// The number a valid token denotes.
pub open spec fn u32_token_val(s: Seq<char>) -> int {
    dec_val(spec_digits_part(s))
}

/// Reads the characters of `s` in the index range `[from, to)` as an unsigned
/// 32-bit decimal number.  Returns `None` exactly when that range is not a
/// numeric token or its value does not fit in 32 bits.
pub fn parse_u32_range(s: &str, from: usize, to: usize) -> (r: Option<u32>)
    requires
        from <= to <= s@.len(),
    ensures
        match r {
            Some(v) => is_u32_token(s@.subrange(from as int, to as int))
                && v == u32_token_val(s@.subrange(from as int, to as int)),
            None => !is_u32_token(s@.subrange(from as int, to as int)),
        },
{
    let ghost tok = s@.subrange(from as int, to as int);
    let mut start = from;
    if from < to && s.get_char(from) == '+' {
        start = from + 1;
        proof {
            assert(spec_digits_part(tok) =~= s@.subrange(start as int, to as int));
        }
    } else {
        proof {
            assert(spec_digits_part(tok) =~= s@.subrange(start as int, to as int));
        }
    }
    let ghost digits = s@.subrange(start as int, to as int);
    if start == to {
        // no digits at all
        return None;
    }
    let mut acc: u32 = 0;
    let mut i = start;
    while i < to
        invariant
            from <= start <= i <= to <= s@.len(),
            tok == s@.subrange(from as int, to as int),
            digits == spec_digits_part(tok),
            digits == s@.subrange(start as int, to as int),
            digits.len() > 0,
            all_digits(digits.take(i - start)),
            acc == dec_val(digits.take(i - start)),
        decreases to - i,
    {
        let c = s.get_char(i);
        proof {
            assert(digits[i - start] == s@[i as int]);
        }
        if c < '0' || c > '9' {
            proof {
                assert(!is_digit(digits[i - start]));
            }
            return None;
        }
        let d: u32 = (c as u32) - ('0' as u32);
        assert(d <= 9);
        let wide: u64 = (acc as u64) * 10 + (d as u64);
        proof {
            assert(digits.take(i - start + 1).drop_last() =~= digits.take(i - start));
            assert(digits.take(i - start + 1).last() == digits[i - start]);
            assert(digit_val(digits[i - start]) == d as int);
            assert(dec_val(digits.take(i - start + 1)) == acc * 10 + d);
        }
        if wide > u32::MAX as u64 {
            proof {
                if all_digits(digits) {
                    lemma_dec_val_monotone(digits);
                    assert(dec_val(digits.take(i - start + 1)) <= dec_val(digits));
                }
            }
            return None;
        }
        acc = wide as u32;
        i += 1;
    }
    proof {
        assert(digits.take(to - start) =~= digits);
    }
    Some(acc)
}

} // verus!
