//! Numbers as the engine stores them: IEEE-754 binary64 values held as their
//! 64-bit patterns. The engine never performs floating-point arithmetic itself;
//! it only inspects and rearranges these patterns (sign, zero, finiteness), and
//! receives the results of arithmetic from its caller.

use vstd::prelude::*;

verus! {

/// The sign bit of a binary64 pattern.
pub const SIGN_MASK: u64 = 0x8000_0000_0000_0000;

/// The eleven exponent bits of a binary64 pattern.
pub const EXPONENT_MASK: u64 = 0x7ff0_0000_0000_0000;

/// The fifty-two fraction bits of a binary64 pattern.
pub const FRACTION_MASK: u64 = 0x000f_ffff_ffff_ffff;

/// The pattern of positive zero.
pub const POSITIVE_ZERO: u64 = 0;

/// A pattern is finite unless its exponent field is all ones (infinity or NaN).
pub open spec fn is_finite(bits: u64) -> bool {
    bits & EXPONENT_MASK != EXPONENT_MASK
}

/// A pattern denotes zero (either sign) when every bit but the sign is clear.
pub open spec fn is_zero(bits: u64) -> bool {
    bits & !SIGN_MASK == 0
}

/// Not-a-number: exponent all ones and a non-zero fraction.
pub open spec fn is_nan(bits: u64) -> bool {
    bits & EXPONENT_MASK == EXPONENT_MASK && bits & FRACTION_MASK != 0
}

/// The comparison `value < 0`: the sign is set and the value is neither a zero
/// nor NaN (negative infinity counts as negative).
pub open spec fn is_negative(bits: u64) -> bool {
    bits & SIGN_MASK != 0 && !is_zero(bits) && !is_nan(bits)
}

/// Negation flips the sign bit and nothing else.
pub open spec fn negated(bits: u64) -> u64 {
    bits ^ SIGN_MASK
}

/// Whether `bits` is a finite value.
pub fn finite(bits: u64) -> (r: bool)
    ensures
        r == is_finite(bits),
{
    bits & EXPONENT_MASK != EXPONENT_MASK
}

/// Whether `bits` is `+0` or `-0`.
pub fn zero(bits: u64) -> (r: bool)
    ensures
        r == is_zero(bits),
{
    bits & !SIGN_MASK == 0
}

/// Whether `bits` compares below zero.
pub fn negative(bits: u64) -> (r: bool)
    ensures
        r == is_negative(bits),
{
    bits & SIGN_MASK != 0 && !(bits & !SIGN_MASK == 0) && !(bits & EXPONENT_MASK == EXPONENT_MASK
        && bits & FRACTION_MASK != 0)
}

/// The negation of `bits`.
pub fn negate(bits: u64) -> (r: u64)
    ensures
        r == negated(bits),
{
    bits ^ SIGN_MASK
}

/// Negating twice gives back the value, bit for bit.
pub proof fn lemma_negate_involutive(bits: u64)
    ensures
        negated(negated(bits)) == bits,
{
    assert((bits ^ 0x8000_0000_0000_0000u64) ^ 0x8000_0000_0000_0000u64 == bits) by (bit_vector);
}

/// Positive zero is a finite zero.
pub proof fn lemma_positive_zero()
    ensures
        is_finite(POSITIVE_ZERO),
        is_zero(POSITIVE_ZERO),
        !is_negative(POSITIVE_ZERO),
{
    assert(0u64 & 0x7ff0_0000_0000_0000u64 != 0x7ff0_0000_0000_0000u64) by (bit_vector);
    assert(0u64 & !0x8000_0000_0000_0000u64 == 0) by (bit_vector);
}

} // verus!
