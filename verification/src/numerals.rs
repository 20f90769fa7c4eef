//! Decimal token parsing.
//!
//! The journal stores its editor preference as a decimal numeral and reads
//! numeric selections from the terminal, so the meaning of a decimal token is
//! pinned down here once: an optional sign followed by one or more ASCII
//! digits, read most significant digit first.

use vstd::prelude::*;

verus! {

/// True of the ten ASCII digit characters.
pub open spec fn is_digit(c: char) -> bool {
    48 <= c as u32 && c as u32 <= 57
}

/// The numeric value of a digit character.
pub open spec fn digit_value(c: char) -> int {
    (c as u32) as int - 48
}

/// True when every character of `s` is an ASCII digit.
pub open spec fn all_digits(s: Seq<char>) -> bool {
    forall|i: int| 0 <= i < s.len() ==> is_digit(#[trigger] s[i])
}

/// The value of a digit string, most significant digit first.
pub open spec fn digits_value(s: Seq<char>) -> int
    decreases s.len(),
{
    if s.len() == 0 {
        0
    } else {
        digits_value(s.drop_last()) * 10 + digit_value(s.last())
    }
}

/// The integer denoted by a decimal token: an optional `-` or `+` sign
/// followed by at least one digit, and nothing else. Anything of another
/// shape denotes no integer at all.
pub open spec fn parse_int(s: Seq<char>) -> Option<int> {
    if s.len() > 0 && (s[0] == '-' || s[0] == '+') {
        let digits = s.drop_first();
        if digits.len() > 0 && all_digits(digits) {
            if s[0] == '-' {
                Some(-digits_value(digits))
            } else {
                Some(digits_value(digits))
            }
        } else {
            None
        }
    } else if s.len() > 0 && all_digits(s) {
        Some(digits_value(s))
    } else {
        None
    }
}

proof fn lemma_digits_value_nonneg(s: Seq<char>)
    requires
        all_digits(s),
    ensures
        digits_value(s) >= 0,
    decreases s.len(),
{
    if s.len() > 0 {
        assert(all_digits(s.drop_last()));
        lemma_digits_value_nonneg(s.drop_last());
    }
}

/// A digit string is worth at least as much as any of its prefixes.
proof fn lemma_digits_value_prefix_le(s: Seq<char>, i: int)
    requires
        all_digits(s),
        0 <= i <= s.len(),
    ensures
        digits_value(s.take(i)) <= digits_value(s),
    decreases s.len() - i,
{
    if i < s.len() {
        let t = s.take(i + 1);
        assert(t.drop_last() =~= s.take(i));
        assert(all_digits(t.drop_last()));
        lemma_digits_value_nonneg(t.drop_last());
        assert(digits_value(t) == digits_value(s.take(i)) * 10 + digit_value(t.last()));
        assert(digits_value(s.take(i)) <= digits_value(t)) by {
            lemma_digits_value_nonneg(s.take(i));
        }
        lemma_digits_value_prefix_le(s, i + 1);
        assert(s.take(s.len() as int) =~= s);
    } else {
        assert(s.take(i) =~= s);
    }
}

/// Reads the digits of `s` from position `start` on, provided they run to the
/// end of the token and their value does not exceed `cap`.
fn parse_digits(s: &str, start: usize, cap: u64) -> (r: Option<u64>)
    requires
        start <= s@.len(),
        cap <= 0xFFFF_FFFF,
    ensures
        ({
            let t = s@.skip(start as int);
            match r {
                Some(m) => t.len() > 0 && all_digits(t) && digits_value(t) == m as int && m <= cap,
                None => !(t.len() > 0 && all_digits(t) && digits_value(t) <= cap as int),
            }
        }),
{
    let ghost t = s@.skip(start as int);
    let n = s.unicode_len();
    if start >= n {
        return None;
    }
    let mut i = start;
    let mut acc: u64 = 0;
    while i < n
        invariant
            start <= i <= n,
            n == s@.len(),
            start < n,
            cap <= 0xFFFF_FFFF,
            t == s@.skip(start as int),
            all_digits(t.take(i - start)),
            acc as int == digits_value(t.take(i - start)),
            acc <= cap,
        decreases n - i,
    {
        let c = s.get_char(i);
        let u = c as u32;
        if u < 48 || u > 57 {
            proof {
                assert(t[i - start] == s@[i as int]);
                assert(!is_digit(t[i - start]));
            }
            return None;
        }
        let d = (u - 48) as u64;
        proof {
            assert(t.take(i + 1 - start).drop_last() =~= t.take(i - start));
            assert(t.take(i + 1 - start).last() == s@[i as int]);
        }
        acc = acc * 10 + d;
        if acc > cap {
            proof {
                let j = i + 1 - start;
                if all_digits(t) {
                    lemma_digits_value_prefix_le(t, j);
                }
            }
            return None;
        }
        i = i + 1;
    }
    proof {
        assert(t.take(n - start) =~= t);
    }
    Some(acc)
}

/// The `i16` denoted by a decimal token, if the token denotes an integer in
/// the range of `i16`.
pub open spec fn spec_parse_i16(s: Seq<char>) -> Option<i16> {
    match parse_int(s) {
        Some(n) => if i16::MIN <= n && n <= i16::MAX {
            Some(n as i16)
        } else {
            None
        },
        None => None,
    }
}

/// The `u32` denoted by a decimal token, if the token denotes an integer in
/// the range of `u32`.
pub open spec fn spec_parse_u32(s: Seq<char>) -> Option<u32> {
    match parse_int(s) {
        Some(n) => if 0 <= n && n <= u32::MAX {
            Some(n as u32)
        } else {
            None
        },
        None => None,
    }
}

/// Parses a decimal token as an `i16`.
pub fn parse_i16(s: &str) -> (r: Option<i16>)
    ensures
        r == spec_parse_i16(s@),
{
    let n = s.unicode_len();
    if n == 0 {
        return None;
    }
    let c0 = s.get_char(0);
    let neg = c0 == '-';
    let has_sign = neg || c0 == '+';
    let start: usize = if has_sign {
        1
    } else {
        0
    };
    proof {
        if has_sign {
            assert(s@.drop_first() =~= s@.skip(1));
        } else {
            assert(s@.skip(0) =~= s@);
        }
    }
    match parse_digits(s, start, 32768) {
        None => None,
        Some(m) => {
            if neg {
                let v: i32 = -(m as i32);
                Some(v as i16)
            } else if m <= 32767 {
                Some(m as i16)
            } else {
                None
            }
        },
    }
}

/// Parses a decimal token as a `u32`.
pub fn parse_u32(s: &str) -> (r: Option<u32>)
    ensures
        r == spec_parse_u32(s@),
{
    let n = s.unicode_len();
    if n == 0 {
        return None;
    }
    let c0 = s.get_char(0);
    let neg = c0 == '-';
    let has_sign = neg || c0 == '+';
    let start: usize = if has_sign {
        1
    } else {
        0
    };
    proof {
        if has_sign {
            assert(s@.drop_first() =~= s@.skip(1));
        } else {
            assert(s@.skip(0) =~= s@);
        }
    }
    match parse_digits(s, start, 0xFFFF_FFFF) {
        None => None,
        Some(m) => {
            if neg {
                if m == 0 {
                    Some(0)
                } else {
                    None
                }
            } else {
                Some(m as u32)
            }
        },
    }
}

} // verus!
