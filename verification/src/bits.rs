//! The mathematical model of lane values.
//!
//! A lane of a single-precision vector is carried as the `u32` holding the
//! IEEE-754 bit pattern of the value; a double-precision lane as the `u64`.
//! The predicates here read the sign, exponent and significand fields of a
//! bit pattern directly, so that the zero test and the finiteness test of a
//! lane are plain integer facts.

use vstd::prelude::*;

verus! {

/// A `u32` bit pattern holds a zero single-precision value (of either sign)
/// exactly when every bit but the sign bit is clear.
pub open spec fn is_zero_bits32(x: u32) -> bool {
    x & 0x7fff_ffff == 0
}

/// A `u64` bit pattern holds a zero double-precision value (of either sign)
/// exactly when every bit but the sign bit is clear.
pub open spec fn is_zero_bits64(x: u64) -> bool {
    x & 0x7fff_ffff_ffff_ffff == 0
}

/// A `u32` bit pattern holds a finite single-precision value exactly when
/// its exponent field is not all ones.
pub open spec fn is_finite_bits32(x: u32) -> bool {
    x & 0x7f80_0000 != 0x7f80_0000
}

/// A `u64` bit pattern holds a finite double-precision value exactly when
/// its exponent field is not all ones.
pub open spec fn is_finite_bits64(x: u64) -> bool {
    x & 0x7ff0_0000_0000_0000 != 0x7ff0_0000_0000_0000
}

/// A `u32` bit pattern holds a positive normal single-precision value: sign
/// bit clear, exponent field neither zero (which would make it a zero or a
/// subnormal) nor all ones (an infinity or NaN).
pub open spec fn is_pos_normal_bits32(x: u32) -> bool {
    &&& x & 0x8000_0000 == 0
    &&& x & 0x7f80_0000 != 0
    &&& x & 0x7f80_0000 != 0x7f80_0000
}

/// Tests whether a single-precision lane holds a zero of either sign.
pub fn lane_is_zero32(x: u32) -> (b: bool)
    ensures
        b == is_zero_bits32(x),
{
    x & 0x7fff_ffff == 0
}

/// A zero bit pattern is in particular a finite one.
pub proof fn lemma_zero_is_finite32(x: u32)
    requires
        is_zero_bits32(x),
    ensures
        is_finite_bits32(x),
{
    assert(x & 0x7fff_ffff == 0 ==> x & 0x7f80_0000 != 0x7f80_0000) by (bit_vector);
}

/// A positive normal bit pattern is in particular a finite, non-zero one.
pub proof fn lemma_pos_normal_is_finite_nonzero32(x: u32)
    requires
        is_pos_normal_bits32(x),
    ensures
        !is_zero_bits32(x),
        is_finite_bits32(x),
{
    assert(x & 0x7f80_0000 != 0 ==> x & 0x7fff_ffff != 0) by (bit_vector);
}

/// A zero bit pattern is in particular a finite one.
pub proof fn lemma_zero_is_finite64(x: u64)
    requires
        is_zero_bits64(x),
    ensures
        is_finite_bits64(x),
{
    assert(x & 0x7fff_ffff_ffff_ffff == 0
        ==> x & 0x7ff0_0000_0000_0000 != 0x7ff0_0000_0000_0000) by (bit_vector);
}

} // verus!
