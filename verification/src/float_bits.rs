//! Floating-point values of the records, held by their IEEE-754 binary64 bit
//! pattern (what `f64::to_bits` gives).  The library only carries them and
//! compares them with zero; the numeric work on them happens at the edge.
use vstd::prelude::*;

verus! {

/// The bit pattern of `0.0`.
pub const ZERO_BITS: u64 = 0;

/// The magnitude bits: all but the sign bit.
pub open spec fn magnitude(bits: u64) -> int {
    bits as int % 0x8000_0000_0000_0000
}

/// The sign bit is set.
pub open spec fn sign_set(bits: u64) -> bool {
    bits >= 0x8000_0000_0000_0000
}

/// The pattern is a NaN: all exponent bits set and a non-zero fraction.
pub open spec fn is_nan(bits: u64) -> bool {
    magnitude(bits) > 0x7FF0_0000_0000_0000
}

/// The pattern is `0.0` or `-0.0`.
pub open spec fn is_zero(bits: u64) -> bool {
    magnitude(bits) == 0
}

/// `x <= 0.0` for the value `x` with these bits: false for NaN, true for
/// both zeros and for every negative value.
pub open spec fn spec_le_zero(bits: u64) -> bool {
    !is_nan(bits) && (is_zero(bits) || sign_set(bits))
}

/// `x < 0.0` for the value `x` with these bits: false for NaN and both zeros.
pub open spec fn spec_lt_zero(bits: u64) -> bool {
    !is_nan(bits) && !is_zero(bits) && sign_set(bits)
}

/// Evaluates `x <= 0.0` on the bit pattern of `x`.
pub fn le_zero(bits: u64) -> (r: bool)
    ensures
        r == spec_le_zero(bits),
{
    let magnitude: u64 = bits % 0x8000_0000_0000_0000;
    magnitude <= 0x7FF0_0000_0000_0000 && (magnitude == 0 || bits >= 0x8000_0000_0000_0000)
}

/// Evaluates `x < 0.0` on the bit pattern of `x`.
pub fn lt_zero(bits: u64) -> (r: bool)
    ensures
        r == spec_lt_zero(bits),
{
    let magnitude: u64 = bits % 0x8000_0000_0000_0000;
    magnitude <= 0x7FF0_0000_0000_0000 && magnitude != 0 && bits >= 0x8000_0000_0000_0000
}

} // verus!
