//! Order of double-precision binary floating-point numbers, decided on their
//! bit patterns.
//!
//! A number is held as the 64 bits of its interchange encoding: one sign bit,
//! eleven exponent bits and fifty-two fraction bits. For everything that is
//! a number, the order of the values is the order of the magnitude bits,
//! mirrored for negative signs; the two zeros are equal.
use vstd::prelude::*;

verus! {

/// The weight of the sign bit.
pub const SIGN_BIT: u64 = 0x8000_0000_0000_0000;

/// The magnitude bits of positive infinity; every larger magnitude is not a
/// number.
pub const INFINITY_BITS: u64 = 0x7ff0_0000_0000_0000;

/// The bit pattern without its sign.
pub open spec fn spec_magnitude(bits: u64) -> int {
    bits as int % SIGN_BIT as int
}

/// Whether the sign bit is set.
pub open spec fn spec_sign(bits: u64) -> bool {
    bits >= SIGN_BIT
}

/// Whether the bit pattern encodes no number.
pub open spec fn spec_is_nan(bits: u64) -> bool {
    spec_magnitude(bits) > INFINITY_BITS as int
}

/// The place of a number on the number line: numbers compare as their ranks
/// do. Both zeros have rank 0.
pub open spec fn spec_rank(bits: u64) -> int {
    if spec_sign(bits) {
        -spec_magnitude(bits)
    } else {
        spec_magnitude(bits)
    }
}

/// `a <= b` as numbers; false if either is not a number.
pub open spec fn spec_le(a: u64, b: u64) -> bool {
    !spec_is_nan(a) && !spec_is_nan(b) && spec_rank(a) <= spec_rank(b)
}

/// `a > 0` as a number; false if `a` is not a number.
pub open spec fn spec_is_positive(a: u64) -> bool {
    !spec_is_nan(a) && spec_rank(a) > 0
}

/// Whether the bit pattern encodes no number.
pub fn is_nan(bits: u64) -> (r: bool)
    ensures
        r == spec_is_nan(bits),
{
    bits % SIGN_BIT > INFINITY_BITS
}

/// Decides `a <= b` for two numbers given by their bit patterns.
pub fn le(a: u64, b: u64) -> (r: bool)
    ensures
        r == spec_le(a, b),
{
    let magnitude_a: u64 = a % SIGN_BIT;
    let magnitude_b: u64 = b % SIGN_BIT;
    if magnitude_a > INFINITY_BITS || magnitude_b > INFINITY_BITS {
        return false;
    }
    let negative_a = a >= SIGN_BIT;
    let negative_b = b >= SIGN_BIT;
    if negative_a {
        if negative_b {
            magnitude_b <= magnitude_a
        } else {
            true
        }
    } else {
        if negative_b {
            magnitude_a == 0 && magnitude_b == 0
        } else {
            magnitude_a <= magnitude_b
        }
    }
}

/// Decides `a > 0` for a number given by its bit pattern.
pub fn is_positive(a: u64) -> (r: bool)
    ensures
        r == spec_is_positive(a),
{
    let magnitude: u64 = a % SIGN_BIT;
    a < SIGN_BIT && 0 < magnitude && magnitude <= INFINITY_BITS
}

/// The order is reflexive on numbers and transitive.
pub proof fn law_order(a: u64, b: u64, c: u64)
    ensures
        !spec_is_nan(a) ==> spec_le(a, a),
        spec_le(a, b) && spec_le(b, c) ==> spec_le(a, c),
{
}

} // verus!
