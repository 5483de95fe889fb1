//! Small verified text utilities: string equality by characters and parsing
//! of unsigned decimal amounts, as used by the threshold filters.

use vstd::prelude::*;

verus! {

/// Character is an ASCII decimal digit.
pub open spec fn is_digit_char(c: char) -> bool {
    48 <= c as u32 && c as u32 <= 57
}

/// Numeric value of one digit character.
pub open spec fn digit_val(c: char) -> nat
    recommends
        is_digit_char(c),
{
    (c as u32 - 48) as nat
}

/// Every character is a digit and there is at least one.
pub open spec fn is_digits(s: Seq<char>) -> bool {
    s.len() > 0 && forall|i: int| 0 <= i < s.len() ==> is_digit_char(s[i])
}

/// Value of a digit string read most-significant first.
pub open spec fn digits_val(s: Seq<char>) -> nat
    decreases s.len(),
{
    if s.len() == 0 {
        0
    } else {
        digits_val(s.drop_last()) * 10 + digit_val(s.last())
    }
}

/// The digit part of a decimal literal: an optional leading `+` is skipped.
pub open spec fn digit_part(s: Seq<char>) -> Seq<char> {
    if s.len() > 0 && s[0] == '+' {
        s.subrange(1, s.len() as int)
    } else {
        s
    }
}

/// What parsing a string as an unsigned 128-bit decimal returns: the value of
/// the digits after an optional `+` sign, or nothing when a character is not a
/// digit, no digit is present, or the value does not fit.
pub open spec fn spec_parse_u128(s: Seq<char>) -> Option<u128> {
    if is_digits(digit_part(s)) && digits_val(digit_part(s)) <= u128::MAX {
        Some(digits_val(digit_part(s)) as u128)
    } else {
        None
    }
}

/// The value of a prefix of a digit string never exceeds the whole string's.
pub proof fn lemma_digits_val_prefix_le(s: Seq<char>, j: int)
    requires
        0 <= j <= s.len(),
    ensures
        digits_val(s.subrange(0, j)) <= digits_val(s),
    decreases s.len() - j,
{
    if j == s.len() {
        assert(s.subrange(0, j) =~= s);
    } else {
        assert(s.subrange(0, j + 1).drop_last() =~= s.subrange(0, j));
        assert(digits_val(s.subrange(0, j + 1)) == digits_val(s.subrange(0, j)) * 10 + digit_val(
            s.subrange(0, j + 1).last(),
        ));
        assert(digits_val(s.subrange(0, j)) * 10 >= digits_val(s.subrange(0, j))) by (
        nonlinear_arith);
        lemma_digits_val_prefix_le(s, j + 1);
    }
}

/// Parse a string as a non-negative 128-bit decimal integer, accepting an
/// optional leading `+`, exactly as `spec_parse_u128` describes.
pub fn parse_u128(s: &str) -> (r: Option<u128>)
    ensures
        r == spec_parse_u128(s@),
{
    let len = s.unicode_len();
    if len == 0 {
        return None;
    }
    let start: usize = if s.get_char(0) == '+' {
        1
    } else {
        0
    };
    if start == len {
        return None;
    }
    let ghost digits = digit_part(s@);
    proof {
        assert(digits =~= s@.subrange(start as int, len as int));
    }
    let mut acc: u128 = 0;
    let mut i: usize = start;
    while i < len
        invariant
            start <= i <= len,
            len == s@.len(),
            start == 1 ==> s@[0] == '+',
            start < len,
            digits == digit_part(s@),
            digits =~= s@.subrange(start as int, len as int),
            forall|k: int| start <= k < i ==> is_digit_char(s@[k]),
            acc == digits_val(s@.subrange(start as int, i as int)),
        decreases len - i,
    {
        let c = s.get_char(i);
        let u = c as u32;
        if u < 48 || u > 57 {
            proof {
                assert(digits[i - start] == s@[i as int]);
                assert(!is_digits(digits));
            }
            return None;
        }
        let d = (u - 48) as u128;
        proof {
            assert(s@.subrange(start as int, i + 1).drop_last() =~= s@.subrange(
                start as int,
                i as int,
            ));
            assert(s@.subrange(start as int, i + 1).last() == s@[i as int]);
        }
        let next = match acc.checked_mul(10) {
            Some(m) => m.checked_add(d),
            None => None,
        };
        match next {
            Some(v) => {
                acc = v;
            },
            None => {
                proof {
                    assert(digits_val(s@.subrange(start as int, i + 1)) > u128::MAX);
                    assert(s@.subrange(start as int, i + 1) =~= digits.subrange(
                        0,
                        i + 1 - start,
                    ));
                    lemma_digits_val_prefix_le(digits, i + 1 - start);
                }
                return None;
            },
        }
        i += 1;
    }
    proof {
        assert(s@.subrange(start as int, len as int) =~= digits);
        assert(is_digits(digits));
    }
    Some(acc)
}

/// String slice equality, decided character by character.
pub fn str_eq(a: &str, b: &str) -> (r: bool)
    ensures
        r == (a@ == b@),
{
    let alen = a.unicode_len();
    let blen = b.unicode_len();
    if alen != blen {
        return false;
    }
    let mut i: usize = 0;
    while i < alen
        invariant
            0 <= i <= alen,
            alen == a@.len(),
            alen == b@.len(),
            forall|k: int| 0 <= k < i ==> a@[k] == b@[k],
        decreases alen - i,
    {
        if a.get_char(i) != b.get_char(i) {
            return false;
        }
        i += 1;
    }
    proof {
        assert(a@ =~= b@);
    }
    true
}


} // verus!
