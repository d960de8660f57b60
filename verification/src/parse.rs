//! Parsing of environment-style string values: unsigned integers and booleans.
//!
//! These mirror the grammar of Rust's standard `FromStr` implementations for
//! unsigned integers (an optional leading `+` followed by one or more ASCII
//! digits, within range) and for `bool` (exactly `true` or `false`).

use vstd::prelude::*;

verus! {

/// A character that is an ASCII decimal digit.
pub open spec fn is_digit(c: char) -> bool {
    '0' <= c && c <= '9'
}

/// Numeric value of a sequence of ASCII digits, most significant first.
pub open spec fn digits_val(s: Seq<char>) -> nat
    decreases s.len(),
{
    if s.len() == 0 {
        0
    } else {
        digits_val(s.drop_last()) * 10 + ((s.last() as int - 48) as nat)
    }
}

/// Every character of the sequence is an ASCII decimal digit.
pub open spec fn all_digits(s: Seq<char>) -> bool {
    forall|i: int| 0 <= i < s.len() ==> is_digit(s[i])
}

/// The digit part of an unsigned-integer literal: everything after an
/// optional leading `+`.
pub open spec fn digits_part(s: Seq<char>) -> Seq<char> {
    if s.len() > 0 && s[0] == '+' {
        s.drop_first()
    } else {
        s
    }
}

/// Whether an unsigned-integer literal is well formed: a non-empty run of
/// digits after the optional sign.
pub open spec fn is_uint_literal(s: Seq<char>) -> bool {
    digits_part(s).len() > 0 && all_digits(digits_part(s))
}

/// The value a well-formed unsigned-integer literal denotes.
pub open spec fn uint_literal_val(s: Seq<char>) -> nat {
    digits_val(digits_part(s))
}

/// What parsing a string as a `u16` yields.
pub open spec fn parse_u16_spec(s: Seq<char>) -> Option<u16> {
    if is_uint_literal(s) && uint_literal_val(s) <= u16::MAX {
        Some(uint_literal_val(s) as u16)
    } else {
        None
    }
}

/// What parsing a string as a `usize` yields.
pub open spec fn parse_usize_spec(s: Seq<char>) -> Option<usize> {
    if is_uint_literal(s) && uint_literal_val(s) <= usize::MAX {
        Some(uint_literal_val(s) as usize)
    } else {
        None
    }
}

/// What parsing a string as a `bool` yields: only the exact words
/// `true` and `false` are accepted.
pub open spec fn parse_bool_spec(s: Seq<char>) -> Option<bool> {
    if s == "true"@ {
        Some(true)
    } else if s == "false"@ {
        Some(false)
    } else {
        None
    }
}

/// Extending a digit run on the right can only grow its value.
proof fn lemma_digits_val_prefix(s: Seq<char>, i: int)
    requires
        0 <= i <= s.len(),
    ensures
        digits_val(s.subrange(0, i)) <= digits_val(s),
    decreases s.len() - i,
{
    if i < s.len() {
        lemma_digits_val_prefix(s, i + 1);
        assert(s.subrange(0, i + 1).drop_last() =~= s.subrange(0, i));
        assert(digits_val(s.subrange(0, i)) <= digits_val(s.subrange(0, i + 1)));
    } else {
        assert(s.subrange(0, i) =~= s);
    }
}

/// Parse the digit part of `s` (already past any sign) into a value bounded
/// by `bound`, scanning characters `from..` of the string.
fn parse_digits(s: &str, from: usize, n: usize, bound: u64) -> (r: Option<u64>)
    requires
        from <= n,
        n == s@.len(),
    ensures
        ({
            let d = s@.subrange(from as int, n as int);
            match r {
                Some(v) => d.len() > 0 && all_digits(d) && digits_val(d) == v && v <= bound,
                None => !(d.len() > 0 && all_digits(d) && digits_val(d) <= bound),
            }
        }),
{
    let ghost d = s@.subrange(from as int, n as int);
    if from == n {
        return None;
    }
    let mut acc: u64 = 0;
    let mut i: usize = from;
    while i < n
        invariant
            from <= i <= n,
            n == s@.len(),
            d == s@.subrange(from as int, n as int),
            all_digits(d.subrange(0, i - from)),
            digits_val(d.subrange(0, i - from)) == acc,
            acc <= bound,
        decreases n - i,
    {
        let c = s.get_char(i);
        let v = c as u32;
        proof {
            assert(d.subrange(0, i + 1 - from).drop_last() =~= d.subrange(0, i - from));
            assert(d[i - from] == s@[i as int]);
        }
        if v < 48 || v > 57 {
            assert(!is_digit(d[i - from]));
            return None;
        }
        let digit: u64 = (v - 48) as u64;
        assert(digits_val(d.subrange(0, i + 1 - from)) == acc * 10 + digit);
        let next: u64 = match acc.checked_mul(10) {
            Some(m) => match m.checked_add(digit) {
                Some(t) => t,
                None => {
                    proof {
                        lemma_digits_val_prefix(d, i + 1 - from);
                    }
                    return None;
                },
            },
            None => {
                proof {
                    lemma_digits_val_prefix(d, i + 1 - from);
                }
                return None;
            },
        };
        if next > bound {
            proof {
                lemma_digits_val_prefix(d, i + 1 - from);
            }
            return None;
        }
        acc = next;
        i = i + 1;
    }
    proof {
        assert(d.subrange(0, n - from) =~= d);
    }
    Some(acc)
}

/// Parse a string as Rust's `u16::from_str` does.
pub fn parse_u16(s: &str) -> (r: Option<u16>)
    ensures
        r == parse_u16_spec(s@),
{
    let n = s.unicode_len();
    let start: usize = if n > 0 && s.get_char(0) == '+' {
        1
    } else {
        0
    };
    proof {
        if start == 1 {
            assert(s@.subrange(1, n as int) =~= digits_part(s@));
        } else {
            assert(s@.subrange(0, n as int) =~= digits_part(s@));
        }
    }
    match parse_digits(s, start, n, 65535) {
        Some(v) => Some(v as u16),
        None => None,
    }
}

/// Parse a string as Rust's `usize::from_str` does.
pub fn parse_usize(s: &str) -> (r: Option<usize>)
    ensures
        r == parse_usize_spec(s@),
{
    let n = s.unicode_len();
    let start: usize = if n > 0 && s.get_char(0) == '+' {
        1
    } else {
        0
    };
    proof {
        if start == 1 {
            assert(s@.subrange(1, n as int) =~= digits_part(s@));
        } else {
            assert(s@.subrange(0, n as int) =~= digits_part(s@));
        }
    }
    match parse_digits(s, start, n, usize::MAX as u64) {
        Some(v) => Some(v as usize),
        None => None,
    }
}

/// Parse a string as Rust's `bool::from_str` does.
pub fn parse_bool(s: &str) -> (r: Option<bool>)
    ensures
        r == parse_bool_spec(s@),
{
    let t: &str = "true";
    let f: &str = "false";
    if str_eq(s, t) {
        Some(true)
    } else if str_eq(s, f) {
        Some(false)
    } else {
        None
    }
}

/// Compare two string slices character by character.
pub(crate) fn str_eq(a: &str, b: &str) -> (r: bool)
    ensures
        r == (a@ == b@),
{
    let na = a.unicode_len();
    let nb = b.unicode_len();
    if na != nb {
        return false;
    }
    let mut i: usize = 0;
    while i < na
        invariant
            0 <= i <= na,
            na == a@.len(),
            na == b@.len(),
            forall|j: int| 0 <= j < i ==> a@[j] == b@[j],
        decreases na - i,
    {
        if a.get_char(i) != b.get_char(i) {
            return false;
        }
        i = i + 1;
    }
    proof {
        assert(a@ =~= b@);
    }
    true
}

} // verus!
