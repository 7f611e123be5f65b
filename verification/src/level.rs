//! Ordering of IEEE-754 single-precision values given by their bit patterns.
//!
//! A level (a probability, a threshold, an energy) travels through the library
//! as the `u32` bit pattern of a single-precision value. This module says what
//! such a pattern means and compares two of them exactly as the hardware
//! compares the values they encode.

use vstd::prelude::*;

verus! {

/// Bit pattern of `0.0`.
pub const ZERO_BITS: u32 = 0;

/// Bit pattern of `1.0`.
pub const ONE_BITS: u32 = 0x3F80_0000;

/// Bit pattern of positive infinity; every larger magnitude is a NaN.
pub const INFINITY_BITS: u32 = 0x7F80_0000;

/// Mask of the sign bit.
pub const SIGN_MASK: u32 = 0x8000_0000;

/// The pattern without its sign bit.
pub open spec fn magnitude(bits: u32) -> int {
    if bits >= SIGN_MASK {
        bits - SIGN_MASK
    } else {
        bits as int
    }
}

/// True when the pattern encodes a NaN.
pub open spec fn is_nan(bits: u32) -> bool {
    magnitude(bits) > INFINITY_BITS
}

/// True when the sign bit is set.
pub open spec fn is_negative(bits: u32) -> bool {
    bits >= SIGN_MASK
}

/// An integer that orders non-NaN patterns as their values are ordered:
/// the magnitude for positive values, its negation for negative ones.
/// Both zeros map to 0.
pub open spec fn rank(bits: u32) -> int {
    if is_negative(bits) {
        -magnitude(bits)
    } else {
        magnitude(bits)
    }
}

/// `a > b` on the encoded values: false when either is a NaN.
pub open spec fn exceeds(a: u32, b: u32) -> bool {
    !is_nan(a) && !is_nan(b) && rank(a) > rank(b)
}

/// The encoded value limited to the closed interval from 0 to 1.
/// A NaN and a negative zero pass through unchanged.
pub open spec fn clamp_unit(bits: u32) -> u32 {
    if is_nan(bits) {
        bits
    } else if rank(bits) < 0 {
        ZERO_BITS
    } else if rank(bits) > ONE_BITS {
        ONE_BITS
    } else {
        bits
    }
}

/// True when the pattern encodes a value in the closed interval from 0 to 1.
pub open spec fn in_unit_interval(bits: u32) -> bool {
    !is_nan(bits) && 0 <= rank(bits) <= ONE_BITS
}

fn magnitude_of(bits: u32) -> (m: u32)
    ensures
        m == magnitude(bits),
{
    if bits >= SIGN_MASK {
        bits - SIGN_MASK
    } else {
        bits
    }
}

/// Reports whether the pattern encodes a NaN.
pub fn level_is_nan(bits: u32) -> (r: bool)
    ensures
        r == is_nan(bits),
{
    magnitude_of(bits) > INFINITY_BITS
}

/// Compares two levels as the values they encode: `a > b`.
pub fn level_exceeds(a: u32, b: u32) -> (r: bool)
    ensures
        r == exceeds(a, b),
{
    let ma: u32 = magnitude_of(a);
    let mb: u32 = magnitude_of(b);
    if ma > INFINITY_BITS || mb > INFINITY_BITS {
        return false;
    }
    let a_neg: bool = a >= SIGN_MASK;
    let b_neg: bool = b >= SIGN_MASK;
    if a_neg {
        if b_neg {
            ma < mb
        } else {
            false
        }
    } else {
        if b_neg {
            ma > 0 || mb > 0
        } else {
            ma > mb
        }
    }
}

/// Limits a level to the closed interval from 0 to 1.
pub fn level_clamp_unit(bits: u32) -> (r: u32)
    ensures
        r == clamp_unit(bits),
        !is_nan(bits) ==> in_unit_interval(r),
{
    let m: u32 = magnitude_of(bits);
    if m > INFINITY_BITS {
        bits
    } else if bits >= SIGN_MASK {
        if m > 0 {
            ZERO_BITS
        } else {
            bits
        }
    } else if m > ONE_BITS {
        ONE_BITS
    } else {
        bits
    }
}

/// A value in the unit interval stays as it is under clamping, and clamping
/// twice is clamping once.
pub proof fn lemma_clamp_unit_idempotent(bits: u32)
    ensures
        clamp_unit(clamp_unit(bits)) == clamp_unit(bits),
        in_unit_interval(bits) ==> clamp_unit(bits) == bits,
{
}

/// No level exceeds itself, and of two levels at most one exceeds the other.
pub proof fn lemma_exceeds_strict(a: u32, b: u32)
    ensures
        !exceeds(a, a),
        !(exceeds(a, b) && exceeds(b, a)),
{
}

/// Exceeding is transitive.
pub proof fn lemma_exceeds_transitive(a: u32, b: u32, c: u32)
    requires
        exceeds(a, b),
        exceeds(b, c),
    ensures
        exceeds(a, c),
{
}

} // verus!
