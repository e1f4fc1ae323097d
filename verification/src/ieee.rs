//! IEEE 754 binary64 values as `u64` bit patterns.
//!
//! The solver carries every amount and every rate as the bit pattern of a
//! binary64 value, so that all of its own reasoning is over plain integers.
//! Everything it reads off a value — sign, zeroness, finiteness, magnitude
//! ordering, negation — is exact bit logic on the pattern and is defined and
//! verified here; only rounded arithmetic is beyond these patterns, and the
//! solver hands that out to its driver (see the solver's requests).

use vstd::prelude::*;

verus! {

/// Bit 63: the sign of a binary64 value.
pub const SIGN_MASK: u64 = 0x8000_0000_0000_0000;

/// Bits 0..=62: exponent and significand, the magnitude of the value.
pub const MAGNITUDE_MASK: u64 = 0x7FFF_FFFF_FFFF_FFFF;

/// Bits 52..=62: the biased exponent field; all ones means infinity or NaN.
pub const EXPONENT_MASK: u64 = 0x7FF0_0000_0000_0000;

/// The pattern of positive zero.
pub const ZERO_BITS: u64 = 0x0000_0000_0000_0000;

/// The pattern of one.
pub const ONE_BITS: u64 = 0x3FF0_0000_0000_0000;

/// The pattern of two.
pub const TWO_BITS: u64 = 0x4000_0000_0000_0000;

/// A rate is admissible when it lies strictly above minus one, so that the
/// discount base stays strictly positive. On finite patterns this is exact:
/// the value is non-negative, or negative with magnitude below one.
pub open spec fn rate_above_neg_one(b: u64) -> bool {
    is_finite_bits(b) && (b & SIGN_MASK == 0 || b & MAGNITUDE_MASK < ONE_BITS)
}

/// Executable form of `rate_above_neg_one`.
pub fn rate_admissible(b: u64) -> (r: bool)
    ensures
        r == rate_above_neg_one(b),
{
    is_finite(b) && (b & SIGN_MASK == 0 || b & MAGNITUDE_MASK < ONE_BITS)
}

/// The exponent field is not all ones: the value is neither infinite nor NaN.
pub open spec fn is_finite_bits(b: u64) -> bool {
    b & EXPONENT_MASK != EXPONENT_MASK
}

/// A finite pattern with this shape encodes a value strictly above zero.
pub open spec fn is_strictly_pos_bits(b: u64) -> bool {
    b & SIGN_MASK == 0 && b & MAGNITUDE_MASK != 0
}

/// A finite pattern with this shape encodes a value strictly below zero.
pub open spec fn is_strictly_neg_bits(b: u64) -> bool {
    b & SIGN_MASK != 0 && b & MAGNITUDE_MASK != 0
}

/// The sign bit alone; on non-NaN patterns it tells a negative value.
pub open spec fn sign_bit(b: u64) -> bool {
    b & SIGN_MASK != 0
}

/// The magnitude bits. On non-NaN patterns, unsigned order of magnitudes is
/// exactly the order of the absolute values, so `|v| < |w|` is
/// `magnitude_bits(v) < magnitude_bits(w)`.
pub open spec fn magnitude_bits(b: u64) -> u64 {
    b & MAGNITUDE_MASK
}

/// Magnitude bits, executable form.
pub fn magnitude(b: u64) -> (r: u64)
    ensures
        r == magnitude_bits(b),
{
    b & MAGNITUDE_MASK
}

/// Executable form of `is_strictly_pos_bits`.
pub fn is_strictly_pos(b: u64) -> (r: bool)
    ensures
        r == is_strictly_pos_bits(b),
{
    b & SIGN_MASK == 0 && b & MAGNITUDE_MASK != 0
}

/// Executable form of `is_strictly_neg_bits`.
pub fn is_strictly_neg(b: u64) -> (r: bool)
    ensures
        r == is_strictly_neg_bits(b),
{
    b & SIGN_MASK != 0 && b & MAGNITUDE_MASK != 0
}

/// Executable form of `is_finite_bits`.
pub fn is_finite(b: u64) -> (r: bool)
    ensures
        r == is_finite_bits(b),
{
    b & EXPONENT_MASK != EXPONENT_MASK
}

/// Executable form of `sign_bit`.
pub fn is_sign_neg(b: u64) -> (r: bool)
    ensures
        r == sign_bit(b),
{
    b & SIGN_MASK != 0
}

/// The pattern of the negated value: the sign bit flipped. IEEE 754 negation
/// is exact, so this is the only arithmetic the solver performs itself.
pub open spec fn negate_bits(b: u64) -> u64 {
    b ^ SIGN_MASK
}

/// Executable form of `negate_bits`.
pub fn negate(b: u64) -> (r: u64)
    ensures
        r == negate_bits(b),
{
    b ^ SIGN_MASK
}

} // verus!
