//! Verified reading of a decimal numeral from text, used to decide
//! whether a search term names an identifier or a name pattern.

use vstd::prelude::*;

verus! {

/// True for the ten decimal digit characters.
pub open spec fn is_ascii_digit(c: char) -> bool {
    '0' as u32 <= c as u32 && c as u32 <= '9' as u32
}

/// The numeric value of one digit character.
pub open spec fn digit_value(c: char) -> int {
    c as u32 - '0' as u32
}

/// True when every character of the text is a decimal digit.
pub open spec fn all_ascii_digits(s: Seq<char>) -> bool {
    forall|i: int| 0 <= i < s.len() ==> is_ascii_digit(#[trigger] s[i])
}

/// The number a digit string denotes, most significant digit first.
pub open spec fn dec_value(s: Seq<char>) -> int
    decreases s.len(),
{
    if s.len() == 0 {
        0
    } else {
        dec_value(s.drop_last()) * 10 + digit_value(s.last())
    }
}

/// A digit string denotes a non-negative number.
pub proof fn lemma_dec_value_nonneg(s: Seq<char>)
    requires
        all_ascii_digits(s),
    ensures
        dec_value(s) >= 0,
    decreases s.len(),
{
    if s.len() > 0 {
        assert(all_ascii_digits(s.drop_last()));
        lemma_dec_value_nonneg(s.drop_last());
    }
}

/// Every prefix of a digit string denotes at most the whole string's
/// number.
pub proof fn lemma_dec_value_prefix_le(s: Seq<char>, i: int)
    requires
        all_ascii_digits(s),
        0 <= i <= s.len(),
    ensures
        dec_value(s.subrange(0, i)) <= dec_value(s),
    decreases s.len() - i,
{
    if i < s.len() {
        let shorter = s.subrange(0, i);
        let longer = s.subrange(0, i + 1);
        assert(longer.drop_last() =~= shorter);
        assert(all_ascii_digits(shorter));
        lemma_dec_value_nonneg(shorter);
        assert(dec_value(longer) == dec_value(shorter) * 10 + digit_value(longer.last()));
        lemma_dec_value_prefix_le(s, i + 1);
    } else {
        assert(s.subrange(0, i) =~= s);
    }
}

/// Reads an unsigned decimal numeral: the reading succeeds exactly when
/// the text is nonempty, is made of digits alone, and denotes a number
/// that fits, and then yields that number.
pub fn parse_u64(s: &str) -> (r: Option<u64>)
    ensures
        r is Some <==> (s@.len() > 0 && all_ascii_digits(s@) && dec_value(s@) <= u64::MAX),
        r matches Some(n) ==> n == dec_value(s@),
{
    let len = s.unicode_len();
    if len == 0 {
        return None;
    }
    let mut acc: u64 = 0;
    let mut i: usize = 0;
    while i < len
        invariant
            0 < len == s@.len(),
            0 <= i <= len,
            all_ascii_digits(s@.subrange(0, i as int)),
            acc == dec_value(s@.subrange(0, i as int)),
        decreases len - i,
    {
        let c = s.get_char(i);
        let code = c as u32;
        if code < 48 || code > 57 {
            proof {
                assert(!is_ascii_digit(s@[i as int]));
            }
            return None;
        }
        let d = (code - 48) as u64;
        let next = match acc.checked_mul(10) {
            Some(m) => m.checked_add(d),
            None => None,
        };
        proof {
            assert(s@.subrange(0, i + 1).drop_last() =~= s@.subrange(0, i as int));
            assert(dec_value(s@.subrange(0, i + 1)) == acc * 10 + d);
        }
        match next {
            Some(v) => {
                acc = v;
            }
            None => {
                proof {
                    if all_ascii_digits(s@) {
                        lemma_dec_value_prefix_le(s@, i + 1);
                    }
                }
                return None;
            }
        }
        i += 1;
    }
    proof {
        assert(s@.subrange(0, len as int) =~= s@);
    }
    Some(acc)
}

/// True when the text is a signed decimal numeral that fits: digits
/// alone, or a minus sign followed by digits, denoting a value in the
/// signed 64-bit range.
pub open spec fn is_i64_numeral(s: Seq<char>) -> bool {
    if s.len() > 0 && s[0] == '-' {
        let digits = s.subrange(1, s.len() as int);
        digits.len() > 0 && all_ascii_digits(digits) && dec_value(digits) <= i64::MAX as int + 1
    } else {
        s.len() > 0 && all_ascii_digits(s) && dec_value(s) <= i64::MAX as int
    }
}

/// The number a signed numeral denotes.
pub open spec fn i64_numeral_value(s: Seq<char>) -> int {
    if s.len() > 0 && s[0] == '-' {
        -dec_value(s.subrange(1, s.len() as int))
    } else {
        dec_value(s)
    }
}

/// Reads a signed decimal numeral: an optional leading minus sign, then
/// digits. The reading succeeds exactly when the text has that shape and
/// denotes a number that fits, and then yields that number.
pub fn parse_i64(s: &str) -> (r: Option<i64>)
    ensures
        r is Some <==> is_i64_numeral(s@),
        r matches Some(n) ==> n == i64_numeral_value(s@),
{
    let len = s.unicode_len();
    if len == 0 {
        return None;
    }
    let first = s.get_char(0);
    if first == '-' {
        let digits = s.substring_char(1, len);
        match parse_u64(digits) {
            Some(m) => {
                if m <= i64::MAX as u64 {
                    Some(-(m as i64))
                } else if m == i64::MAX as u64 + 1 {
                    Some(i64::MIN)
                } else {
                    None
                }
            }
            None => None,
        }
    } else {
        match parse_u64(s) {
            Some(m) => {
                if m <= i64::MAX as u64 {
                    Some(m as i64)
                } else {
                    None
                }
            }
            None => None,
        }
    }
}

} // verus!
