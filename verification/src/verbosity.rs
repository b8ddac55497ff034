//! The diagnostic-verbosity predicate: decides whether a verbosity flag
//! value asks for diagnostic output.

use vstd::prelude::*;
use vstd::utf8::encode_utf8;
use crate::numparse::{dec_value, digits_of, is_unsigned_decimal, parse_usize};

verus! {

/// ASCII uppercase folding of one byte.
pub open spec fn ascii_upper(b: u8) -> u8 {
    if 97 <= b <= 122 {
        (b - 32) as u8
    } else {
        b
    }
}

/// `s`, uppercased byte for byte, spells "TRACE".
pub open spec fn upper_is_trace(s: Seq<u8>) -> bool {
    s.len() == 5 && ascii_upper(s[0]) == 84 && ascii_upper(s[1]) == 82 && ascii_upper(s[2]) == 65
        && ascii_upper(s[3]) == 67 && ascii_upper(s[4]) == 69
}

/// `s`, uppercased byte for byte, spells "DEBUG".
pub open spec fn upper_is_debug(s: Seq<u8>) -> bool {
    s.len() == 5 && ascii_upper(s[0]) == 68 && ascii_upper(s[1]) == 69 && ascii_upper(s[2]) == 66
        && ascii_upper(s[3]) == 85 && ascii_upper(s[4]) == 71
}

/// A truthy verbosity value: nonempty, and either one of the literals
/// `TRACE` or `DEBUG` in any letter case, or an unsigned decimal number
/// (optional leading `+` sign) other than zero that fits in `usize`.
pub open spec fn verbose_value(s: Seq<u8>) -> bool {
    s.len() > 0 && (upper_is_trace(s) || upper_is_debug(s) || (is_unsigned_decimal(s) && dec_value(
        digits_of(s),
    ) <= usize::MAX && dec_value(digits_of(s)) != 0))
}

/// The UTF-8 bytes of the verbosity flag's value; `None` when it is unset.
pub open spec fn flag_bytes(v: Option<&str>) -> Option<Seq<u8>> {
    match v {
        None => None,
        Some(s) => Some(encode_utf8(s@)),
    }
}

/// Whether diagnostics are enabled for a given flag value.
pub open spec fn verbosity_enabled(v: Option<Seq<u8>>) -> bool {
    match v {
        None => false,
        Some(s) => verbose_value(s),
    }
}

/// ASCII uppercase folding of one byte.
fn upper_byte(b: u8) -> (r: u8)
    ensures
        r == ascii_upper(b),
{
    if 97 <= b && b <= 122 {
        b - 32
    } else {
        b
    }
}

/// Whether `s`, uppercased, spells "TRACE".
fn is_word_trace(s: &[u8]) -> (r: bool)
    ensures
        r == upper_is_trace(s@),
{
    s.len() == 5 && upper_byte(s[0]) == 84 && upper_byte(s[1]) == 82 && upper_byte(s[2]) == 65
        && upper_byte(s[3]) == 67 && upper_byte(s[4]) == 69
}

/// Whether `s`, uppercased, spells "DEBUG".
fn is_word_debug(s: &[u8]) -> (r: bool)
    ensures
        r == upper_is_debug(s@),
{
    s.len() == 5 && upper_byte(s[0]) == 68 && upper_byte(s[1]) == 69 && upper_byte(s[2]) == 66
        && upper_byte(s[3]) == 85 && upper_byte(s[4]) == 71
}

/// Decides the diagnostic-verbosity flag from the flag variable's value
/// (`None` when the variable is unset): true for the literals `TRACE` or
/// `DEBUG` in any letter case and for any nonzero unsigned decimal number
/// (optional leading `+` sign), false otherwise.
pub fn check_rustlog(value: Option<&str>) -> (r: bool)
    ensures
        r == verbosity_enabled(flag_bytes(value)),
{
    match value {
        None => false,
        Some(s) => {
            let b = s.as_bytes();
            if b.len() == 0 {
                false
            } else if is_word_trace(b) || is_word_debug(b) {
                true
            } else {
                match parse_usize(b) {
                    Some(n) => n != 0,
                    None => false,
                }
            }
        },
    }
}

} // verus!
