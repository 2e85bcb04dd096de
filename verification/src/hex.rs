//! Decoding of hexadecimal text, one byte at a time.

use vstd::prelude::*;

verus! {

/// The value of an ASCII hexadecimal digit, in either case, or `None` for any
/// other byte.
pub open spec fn hex_digit_value(c: u8) -> Option<int> {
    if 0x30 <= c <= 0x39 {
        Some(c - 0x30)
    } else if 0x41 <= c <= 0x46 {
        Some(c - 0x41 + 10)
    } else if 0x61 <= c <= 0x66 {
        Some(c - 0x61 + 10)
    } else {
        None
    }
}

/// The byte that two hexadecimal digits spell, the high digit first.
pub open spec fn hex_pair_value(hi: u8, lo: u8) -> Option<int> {
    match (hex_digit_value(hi), hex_digit_value(lo)) {
        (Some(h), Some(l)) => Some(16 * h + l),
        _ => None,
    }
}

/// Whether `text` is an even number of hexadecimal digits.
pub open spec fn is_hex_text(text: Seq<u8>) -> bool {
    &&& text.len() % 2 == 0
    &&& forall|i: int| 0 <= i < text.len() ==> (#[trigger] hex_digit_value(text[i])) is Some
}

/// The bytes that a hexadecimal text spells: byte `i` comes from the digits
/// at `2 * i` and `2 * i + 1`. Where these are no digits the byte is 0.
pub open spec fn hex_decoded(text: Seq<u8>) -> Seq<u8> {
    Seq::new(
        (text.len() / 2) as nat,
        |i: int| hex_pair_value(text[2 * i], text[2 * i + 1]).unwrap_or(0) as u8,
    )
}

/// Decodes one hexadecimal digit.
pub fn hex_digit(c: u8) -> (r: Option<u8>)
    ensures
        r is Some <==> hex_digit_value(c) is Some,
        r matches Some(v) ==> hex_digit_value(c) == Some(v as int) && v < 16,
{
    if 0x30 <= c && c <= 0x39 {
        Some(c - 0x30)
    } else if 0x41 <= c && c <= 0x46 {
        Some(c - 0x41 + 10)
    } else if 0x61 <= c && c <= 0x66 {
        Some(c - 0x61 + 10)
    } else {
        None
    }
}

/// Decodes the byte that the digits `hi` and `lo` spell.
pub fn hex_pair(hi: u8, lo: u8) -> (r: Option<u8>)
    ensures
        r is Some <==> hex_pair_value(hi, lo) is Some,
        r matches Some(v) ==> hex_pair_value(hi, lo) == Some(v as int),
{
    match (hex_digit(hi), hex_digit(lo)) {
        (Some(h), Some(l)) => Some(16 * h + l),
        _ => None,
    }
}

} // verus!
