//! URL-safe base64 alphabet for the text form of correlation ids.
//!
//! Only the alphabet tables live here; the fixed-width encoding of an
//! 8-byte id is in `id64`.

use vstd::prelude::*;

verus! {

/// ASCII `A`.
pub const ASCII_UPPER_A: u8 = 65;

/// ASCII `Z`.
pub const ASCII_UPPER_Z: u8 = 90;

/// ASCII `a`.
pub const ASCII_LOWER_A: u8 = 97;

/// ASCII `z`.
pub const ASCII_LOWER_Z: u8 = 122;

/// ASCII `0`.
pub const ASCII_ZERO: u8 = 48;

/// ASCII `9`.
pub const ASCII_NINE: u8 = 57;

/// ASCII `-`.
pub const ASCII_DASH: u8 = 45;

/// ASCII `_`.
pub const ASCII_UNDERSCORE: u8 = 95;

/// The alphabet byte standing for a 6-bit value: `A`..`Z`, `a`..`z`,
/// `0`..`9`, `-`, `_`.
pub open spec fn b64_byte_of_val(v: u8) -> u8 {
    if v < 26 {
        (ASCII_UPPER_A + v) as u8
    } else if v < 52 {
        (ASCII_LOWER_A + (v - 26)) as u8
    } else if v < 62 {
        (ASCII_ZERO + (v - 52)) as u8
    } else if v == 62 {
        ASCII_DASH
    } else {
        ASCII_UNDERSCORE
    }
}

/// Whether a byte belongs to the URL-safe base64 alphabet.
pub open spec fn is_b64_byte(c: u8) -> bool {
    (ASCII_UPPER_A <= c && c <= ASCII_UPPER_Z) || (ASCII_LOWER_A <= c && c <= ASCII_LOWER_Z) || (
    ASCII_ZERO <= c && c <= ASCII_NINE) || c == ASCII_DASH || c == ASCII_UNDERSCORE
}

/// The 6-bit value of an alphabet byte; meaningful only when
/// `is_b64_byte(c)` holds.
pub open spec fn b64_val_of_byte(c: u8) -> u8 {
    if ASCII_UPPER_A <= c && c <= ASCII_UPPER_Z {
        (c - ASCII_UPPER_A) as u8
    } else if ASCII_LOWER_A <= c && c <= ASCII_LOWER_Z {
        (26 + (c - ASCII_LOWER_A)) as u8
    } else if ASCII_ZERO <= c && c <= ASCII_NINE {
        (52 + (c - ASCII_ZERO)) as u8
    } else if c == ASCII_DASH {
        62u8
    } else {
        63u8
    }
}

/// The two table spec functions invert each other on 6-bit values.
pub proof fn lemma_b64_tables(v: u8)
    requires
        v < 64,
    ensures
        is_b64_byte(b64_byte_of_val(v)),
        b64_val_of_byte(b64_byte_of_val(v)) == v,
{
}

/// Encode a 6-bit value as its alphabet byte.
pub fn enc_val(v: u8) -> (r: u8)
    requires
        v < 64,
    ensures
        r == b64_byte_of_val(v),
{
    if v < 26 {
        ASCII_UPPER_A + v
    } else if v < 52 {
        ASCII_LOWER_A + (v - 26)
    } else if v < 62 {
        ASCII_ZERO + (v - 52)
    } else if v == 62 {
        ASCII_DASH
    } else {
        ASCII_UNDERSCORE
    }
}

/// Decode an alphabet byte back to its 6-bit value; `None` for a byte
/// outside the alphabet.
pub fn dec_byte(c: u8) -> (r: Option<u8>)
    ensures
        r is Some <==> is_b64_byte(c),
        r is Some ==> r->0 == b64_val_of_byte(c) && r->0 < 64,
{
    if ASCII_UPPER_A <= c && c <= ASCII_UPPER_Z {
        Some(c - ASCII_UPPER_A)
    } else if ASCII_LOWER_A <= c && c <= ASCII_LOWER_Z {
        Some(26 + (c - ASCII_LOWER_A))
    } else if ASCII_ZERO <= c && c <= ASCII_NINE {
        Some(52 + (c - ASCII_ZERO))
    } else if c == ASCII_DASH {
        Some(62)
    } else if c == ASCII_UNDERSCORE {
        Some(63)
    } else {
        None
    }
}

} // verus!
