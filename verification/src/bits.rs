//! Exact integer readings of IEEE-754 single-precision words.
//!
//! Pointer coordinates and vertex attributes travel through this crate as
//! the raw 32-bit words the graphics stack stores them in. The two places
//! where the frame logic must interpret such a word — deciding whether a
//! wheel delta is zero, and turning a wheel delta into a whole-number step —
//! are defined here purely over the bits, so they verify without any
//! floating-point arithmetic.

use vstd::prelude::*;

verus! {

/// The biased exponent field of a single-precision word.
pub open spec fn f32_bits_exponent(bits: u32) -> u32 {
    (bits >> 23u32) & 0xFFu32
}

/// The fraction (significand) field of a single-precision word.
pub open spec fn f32_bits_fraction(bits: u32) -> u32 {
    bits & 0x7F_FFFFu32
}

/// Whether the word encodes a zero of either sign. Exactly the words that
/// compare equal to zero under IEEE comparison (not-a-number words do not).
pub open spec fn f32_bits_is_zero(bits: u32) -> bool {
    bits & 0x7FFF_FFFFu32 == 0u32
}

/// The value of the word truncated toward zero and saturated to `u64`,
/// with not-a-number taken to 0 — the behaviour of Rust's saturating cast
/// from a single-precision value to a 64-bit unsigned integer. Words with
/// the sign bit set yield 0, since every negative value clamps to 0.
pub open spec fn f32_bits_trunc_spec(bits: u32) -> u64 {
    if bits >= 0x8000_0000u32 {
        0u64
    } else if f32_bits_exponent(bits) == 0xFFu32 {
        // An infinity saturates; not-a-number casts to 0.
        if f32_bits_fraction(bits) == 0u32 {
            u64::MAX
        } else {
            0u64
        }
    } else if f32_bits_exponent(bits) < 127u32 {
        // Magnitude below one truncates to 0.
        0u64
    } else if f32_bits_exponent(bits) >= 191u32 {
        // Unbiased exponent of at least 64: the value is at least 2^64.
        u64::MAX
    } else {
        let n = (f32_bits_exponent(bits) - 127u32) as u32;
        let sig = (0x80_0000u64 | f32_bits_fraction(bits) as u64) as u64;
        if n <= 23u32 {
            sig >> ((23u32 - n) as u64)
        } else {
            sig << ((n - 23u32) as u64)
        }
    }
}

/// Whether the word encodes a zero of either sign.
pub fn f32_bits_test_zero(bits: u32) -> (r: bool)
    ensures
        r == f32_bits_is_zero(bits),
{
    bits & 0x7FFF_FFFF == 0
}

/// The word's value truncated toward zero, saturated to `u64`, with
/// not-a-number taken to 0.
pub fn f32_bits_trunc(bits: u32) -> (r: u64)
    ensures
        r == f32_bits_trunc_spec(bits),
{
    if bits >= 0x8000_0000 {
        return 0;
    }
    let exponent: u32 = (bits >> 23) & 0xFF;
    let fraction: u32 = bits & 0x7F_FFFF;
    if exponent == 0xFF {
        if fraction == 0 {
            u64::MAX
        } else {
            0
        }
    } else if exponent < 127 {
        0
    } else if exponent >= 191 {
        u64::MAX
    } else {
        let n: u32 = exponent - 127;
        let sig: u64 = 0x80_0000u64 | (fraction as u64);
        if n <= 23 {
            sig >> ((23 - n) as u64)
        } else {
            sig << ((n - 23) as u64)
        }
    }
}

} // verus!
