//! Verified parsing of unsigned decimal numbers, as the kernel-reported
//! topology fields and the verbosity flag require.

use vstd::prelude::*;

verus! {

/// A decimal digit byte, `'0'` through `'9'`.
pub open spec fn is_dec_digit(b: u8) -> bool {
    48 <= b <= 57
}

/// Every byte of `s` is a decimal digit.
pub open spec fn all_dec_digits(s: Seq<u8>) -> bool {
    forall|i: int| 0 <= i < s.len() ==> is_dec_digit(#[trigger] s[i])
}

/// The number a digit string denotes, read in base ten.
pub open spec fn dec_value(s: Seq<u8>) -> nat
    decreases s.len(),
{
    if s.len() == 0 {
        0
    } else {
        dec_value(s.drop_last()) * 10 + (s.last() - 48) as nat
    }
}

/// The digits of `s` after its optional single leading `+` sign.
pub open spec fn digits_of(s: Seq<u8>) -> Seq<u8> {
    if s.len() > 0 && s[0] == 43 {
        s.drop_first()
    } else {
        s
    }
}

/// `s` spells an unsigned decimal number as `usize` reads one: an optional
/// single leading `+` sign, then one or more decimal digits.
pub open spec fn is_unsigned_decimal(s: Seq<u8>) -> bool {
    digits_of(s).len() > 0 && all_dec_digits(digits_of(s))
}

/// The value of a prefix of a digit string never exceeds the whole string's.
proof fn lemma_dec_value_take_le(s: Seq<u8>, j: int)
    requires
        0 <= j <= s.len(),
    ensures
        dec_value(s.take(j)) <= dec_value(s),
    decreases s.len() - j,
{
    if j == s.len() {
        assert(s.take(j) =~= s);
    } else {
        assert(s.take(j + 1).drop_last() =~= s.take(j));
        assert(dec_value(s.take(j + 1)) == dec_value(s.take(j)) * 10 + (s.take(j + 1).last()
            - 48) as nat);
        lemma_dec_value_take_le(s, j + 1);
    }
}

/// Parses `s` as an unsigned decimal integer, with the grammar `usize`
/// itself reads: an optional single leading `+` sign, then one or more
/// decimal digits.
///
/// Returns `Some` exactly when `s` spells such a number and its value fits
/// in `usize`; callers that model a field with a zero fallback map `None`
/// to zero.
pub fn parse_usize(s: &[u8]) -> (r: Option<usize>)
    ensures
        r is Some <==> (is_unsigned_decimal(s@) && dec_value(digits_of(s@)) <= usize::MAX),
        r is Some ==> r == Some((dec_value(digits_of(s@)) as usize)),
{
    let digits: &[u8] = if s.len() > 0 && s[0] == 43 {
        vstd::slice::slice_subrange(s, 1, s.len())
    } else {
        s
    };
    proof {
        assert(digits@ =~= digits_of(s@));
    }
    if digits.len() == 0 {
        return None;
    }
    let mut acc: usize = 0;
    let mut i: usize = 0;
    while i < digits.len()
        invariant
            0 < digits@.len(),
            i <= digits@.len(),
            digits@ == digits_of(s@),
            all_dec_digits(digits@.take(i as int)),
            acc == dec_value(digits@.take(i as int)),
        decreases digits@.len() - i,
    {
        let b = digits[i];
        if b < 48 || b > 57 {
            assert(!all_dec_digits(digits@)) by {
                assert(!is_dec_digit(digits@[i as int]));
            }
            return None;
        }
        proof {
            assert(digits@.take(i + 1).drop_last() =~= digits@.take(i as int));
            assert(digits@.take(i + 1).last() == digits@[i as int]);
        }
        let step = match acc.checked_mul(10) {
            Some(m) => m.checked_add((b - 48) as usize),
            None => None,
        };
        match step {
            Some(v) => {
                acc = v;
                i = i + 1;
            },
            None => {
                proof {
                    lemma_dec_value_take_le(digits@, i + 1);
                }
                return None;
            },
        }
    }
    proof {
        assert(digits@.take(digits@.len() as int) =~= digits@);
    }
    Some(acc)
}

} // verus!
