//! The trusted boundary to the hardware vector operations.
//!
//! Every floating-point instruction this library leans on is reached through
//! `pulp`, whose capability token `pulp::x86::V3` proves once, at detection
//! time, that the needed instruction set is present.  Each wrapper here takes
//! lane vectors of IEEE-754 bit patterns, runs one `pulp` operation on them,
//! and hands the resulting bit patterns back.
//!
//! The elementwise multiply, subtract and precision conversions are IEEE-754
//! operations: the same lane values give the same lane results on every
//! machine, so their per-lane results are named by uninterpreted spec
//! functions (`mul32_of` and the like).  The reciprocal-square-root estimate
//! instruction is only *approximate* and its exact answer differs between
//! processors, so no name pins it: its wrappers promise nothing beyond the
//! lane count, and everything the library proves holds whatever estimate the
//! hardware returns.

use vstd::prelude::*;
use crate::bits::{
    is_zero_bits32, is_zero_bits64, is_finite_bits32, is_finite_bits64, is_pos_normal_bits32,
};

verus! {

#[verifier::external_type_specification]
#[verifier::external_body]
pub struct ExSimdToken(pulp::x86::V3);

/// The single-precision product, as a bit pattern, of two lanes given as bit
/// patterns: what the hardware elementwise multiply returns in each lane.
pub uninterp spec fn mul32_of(a: u32, b: u32) -> u32;

/// The single-precision difference `a - b`, as a bit pattern, of two lanes
/// given as bit patterns.
pub uninterp spec fn sub32_of(a: u32, b: u32) -> u32;

/// The double-precision product, as a bit pattern, of two lanes given as bit
/// patterns.
pub uninterp spec fn mul64_of(a: u64, b: u64) -> u64;

/// The double-precision difference `a - b`, as a bit pattern, of two lanes
/// given as bit patterns.
pub uninterp spec fn sub64_of(a: u64, b: u64) -> u64;

/// The single-precision value, as a bit pattern, nearest to the
/// double-precision lane given as a bit pattern.
pub uninterp spec fn narrow64_of(a: u64) -> u32;

/// The double-precision bit pattern of the single-precision lane given as a
/// bit pattern; the conversion is exact.
pub uninterp spec fn widen32_of(a: u32) -> u64;

/// Relies on `pulp::x86::V3::mul_f32x8` (`_mm256_mul_ps`): the IEEE-754
/// elementwise single-precision product.  A zero lane times a finite lane,
/// in either order, is a zero of some sign.
#[verifier::external_body]
pub(crate) fn simd_mul_f32x8(simd: &pulp::x86::V3, a: &Vec<u32>, b: &Vec<u32>) -> (r: Vec<u32>)
    requires
        a.len() == 8,
        b.len() == 8,
    ensures
        r.len() == 8,
        forall|i: int| 0 <= i < 8 ==> r[i] == mul32_of(a[i], b[i]),
        forall|i: int| 0 <= i < 8 && is_zero_bits32(a[i]) && is_finite_bits32(b[i])
            ==> is_zero_bits32(#[trigger] r[i]),
        forall|i: int| 0 <= i < 8 && is_finite_bits32(a[i]) && is_zero_bits32(b[i])
            ==> is_zero_bits32(#[trigger] r[i]),
{
    let aa: [u32; 8] = a.clone().try_into().unwrap();
    let bb: [u32; 8] = b.clone().try_into().unwrap();
    let av: pulp::f32x8 = pulp::cast(aa);
    let bv: pulp::f32x8 = pulp::cast(bb);
    let rr: [u32; 8] = pulp::cast(simd.mul_f32x8(av, bv));
    rr.to_vec()
}

/// Relies on `pulp::x86::V3::sub_f32x8` (`_mm256_sub_ps`): the IEEE-754
/// elementwise single-precision difference.  Subtracting a zero lane from a
/// finite, non-zero lane returns that lane unchanged; the difference of two
/// zero lanes is a zero of some sign.
#[verifier::external_body]
pub(crate) fn simd_sub_f32x8(simd: &pulp::x86::V3, a: &Vec<u32>, b: &Vec<u32>) -> (r: Vec<u32>)
    requires
        a.len() == 8,
        b.len() == 8,
    ensures
        r.len() == 8,
        forall|i: int| 0 <= i < 8 ==> r[i] == sub32_of(a[i], b[i]),
        forall|i: int| 0 <= i < 8 && is_zero_bits32(b[i]) && is_finite_bits32(a[i])
            && !is_zero_bits32(a[i]) ==> #[trigger] r[i] == a[i],
        forall|i: int| 0 <= i < 8 && is_zero_bits32(a[i]) && is_zero_bits32(b[i])
            ==> is_zero_bits32(#[trigger] r[i]),
{
    let aa: [u32; 8] = a.clone().try_into().unwrap();
    let bb: [u32; 8] = b.clone().try_into().unwrap();
    let av: pulp::f32x8 = pulp::cast(aa);
    let bv: pulp::f32x8 = pulp::cast(bb);
    let rr: [u32; 8] = pulp::cast(simd.sub_f32x8(av, bv));
    rr.to_vec()
}

/// Relies on `pulp::x86::V3::mul_f64x4` (`_mm256_mul_pd`): the IEEE-754
/// elementwise double-precision product.  A zero lane times a finite lane,
/// in either order, is a zero of some sign.
#[verifier::external_body]
pub(crate) fn simd_mul_f64x4(simd: &pulp::x86::V3, a: &Vec<u64>, b: &Vec<u64>) -> (r: Vec<u64>)
    requires
        a.len() == 4,
        b.len() == 4,
    ensures
        r.len() == 4,
        forall|i: int| 0 <= i < 4 ==> r[i] == mul64_of(a[i], b[i]),
        forall|i: int| 0 <= i < 4 && is_zero_bits64(a[i]) && is_finite_bits64(b[i])
            ==> is_zero_bits64(#[trigger] r[i]),
        forall|i: int| 0 <= i < 4 && is_finite_bits64(a[i]) && is_zero_bits64(b[i])
            ==> is_zero_bits64(#[trigger] r[i]),
{
    let aa: [u64; 4] = a.clone().try_into().unwrap();
    let bb: [u64; 4] = b.clone().try_into().unwrap();
    let av: pulp::f64x4 = pulp::cast(aa);
    let bv: pulp::f64x4 = pulp::cast(bb);
    let rr: [u64; 4] = pulp::cast(simd.mul_f64x4(av, bv));
    rr.to_vec()
}

/// Relies on `pulp::x86::V3::sub_f64x4` (`_mm256_sub_pd`): the IEEE-754
/// elementwise double-precision difference.  Subtracting a zero lane from a
/// finite, non-zero lane returns that lane unchanged; the difference of two
/// zero lanes is a zero of some sign.
#[verifier::external_body]
pub(crate) fn simd_sub_f64x4(simd: &pulp::x86::V3, a: &Vec<u64>, b: &Vec<u64>) -> (r: Vec<u64>)
    requires
        a.len() == 4,
        b.len() == 4,
    ensures
        r.len() == 4,
        forall|i: int| 0 <= i < 4 ==> r[i] == sub64_of(a[i], b[i]),
        forall|i: int| 0 <= i < 4 && is_zero_bits64(b[i]) && is_finite_bits64(a[i])
            && !is_zero_bits64(a[i]) ==> #[trigger] r[i] == a[i],
        forall|i: int| 0 <= i < 4 && is_zero_bits64(a[i]) && is_zero_bits64(b[i])
            ==> is_zero_bits64(#[trigger] r[i]),
{
    let aa: [u64; 4] = a.clone().try_into().unwrap();
    let bb: [u64; 4] = b.clone().try_into().unwrap();
    let av: pulp::f64x4 = pulp::cast(aa);
    let bv: pulp::f64x4 = pulp::cast(bb);
    let rr: [u64; 4] = pulp::cast(simd.sub_f64x4(av, bv));
    rr.to_vec()
}

/// Relies on `pulp::x86::V3::approx_reciprocal_sqrt_f32x8`
/// (`_mm256_rsqrt_ps`): a fast per-lane estimate of the reciprocal square
/// root.  The exact lane values differ between processor models, so no name
/// pins them; what is stated is only what the instruction's documentation
/// fixes for every model: the relative error is at most 1.5 * 2^-12, so the
/// estimate of a positive normal lane (whose reciprocal square root lies
/// well inside the normal range) is itself positive, non-zero and finite;
/// and each lane is computed from that lane alone, so equal input lanes get
/// equal estimates within one call.
#[verifier::external_body]
pub(crate) fn simd_rsqrt_estimate_f32x8(simd: &pulp::x86::V3, a: &Vec<u32>) -> (r: Vec<u32>)
    requires
        a.len() == 8,
    ensures
        r.len() == 8,
        forall|i: int| 0 <= i < 8 && is_pos_normal_bits32(#[trigger] a[i])
            ==> !is_zero_bits32(r[i]) && is_finite_bits32(r[i]) && r[i] & 0x8000_0000 == 0,
        forall|i: int, j: int| #![trigger a[i], a[j]] 0 <= i < 8 && 0 <= j < 8 && a[i] == a[j]
            ==> r[i] == r[j],
{
    let aa: [u32; 8] = a.clone().try_into().unwrap();
    let av: pulp::f32x8 = pulp::cast(aa);
    let rr: [u32; 8] = pulp::cast(simd.approx_reciprocal_sqrt_f32x8(av));
    rr.to_vec()
}

/// Relies on `pulp::x86::V3::approx_reciprocal_sqrt_f32x8`
/// (`_mm256_rsqrt_ps`), run on four lanes carried in the low half of an
/// eight-lane vector.  As above, the estimate is processor-dependent and no
/// name pins it; only the documented outcome facts are stated: a positive
/// normal lane's estimate is positive, non-zero and finite, and equal input
/// lanes get equal estimates within one call.
#[verifier::external_body]
pub(crate) fn simd_rsqrt_estimate_f32x4(simd: &pulp::x86::V3, a: &Vec<u32>) -> (r: Vec<u32>)
    requires
        a.len() == 4,
    ensures
        r.len() == 4,
        forall|i: int| 0 <= i < 4 && is_pos_normal_bits32(#[trigger] a[i])
            ==> !is_zero_bits32(r[i]) && is_finite_bits32(r[i]) && r[i] & 0x8000_0000 == 0,
        forall|i: int, j: int| #![trigger a[i], a[j]] 0 <= i < 4 && 0 <= j < 4 && a[i] == a[j]
            ==> r[i] == r[j],
{
    let aa: [u32; 8] = [a[0], a[1], a[2], a[3], a[0], a[1], a[2], a[3]];
    let av: pulp::f32x8 = pulp::cast(aa);
    let rr: [u32; 8] = pulp::cast(simd.approx_reciprocal_sqrt_f32x8(av));
    rr[0..4].to_vec()
}

/// Relies on `pulp::x86::V3::convert_f64x4_to_f32x4` (`_mm256_cvtpd_ps`):
/// each double-precision lane rounded to the nearest single-precision value.
/// A zero lane of either sign converts to a zero lane.
#[verifier::external_body]
pub(crate) fn simd_narrow_f64x4(simd: &pulp::x86::V3, a: &Vec<u64>) -> (r: Vec<u32>)
    requires
        a.len() == 4,
    ensures
        r.len() == 4,
        forall|i: int| 0 <= i < 4 ==> r[i] == narrow64_of(a[i]),
        forall|i: int| 0 <= i < 4 && is_zero_bits64(a[i])
            ==> is_zero_bits32(#[trigger] r[i]),
{
    let aa: [u64; 4] = a.clone().try_into().unwrap();
    let av: pulp::f64x4 = pulp::cast(aa);
    let rr: [u32; 4] = pulp::cast(simd.convert_f64x4_to_f32x4(av));
    rr.to_vec()
}

/// Relies on `pulp::x86::V3::convert_f32x4_to_f64x4` (`_mm256_cvtps_pd`):
/// each single-precision lane widened, exactly, to double precision.  The
/// all-zero pattern (positive zero) widens to the all-zero pattern, and
/// since the conversion preserves the value, a non-zero lane (NaN included)
/// widens to a non-zero lane.
#[verifier::external_body]
pub(crate) fn simd_widen_f32x4(simd: &pulp::x86::V3, a: &Vec<u32>) -> (r: Vec<u64>)
    requires
        a.len() == 4,
    ensures
        r.len() == 4,
        forall|i: int| 0 <= i < 4 ==> r[i] == widen32_of(a[i]),
        forall|i: int| 0 <= i < 4 && a[i] == 0 ==> #[trigger] r[i] == 0,
        forall|i: int| 0 <= i < 4 && !is_zero_bits32(a[i])
            ==> !is_zero_bits64(#[trigger] r[i]),
{
    let aa: [u32; 4] = a.clone().try_into().unwrap();
    let av: pulp::f32x4 = pulp::cast(aa);
    let rr: [u64; 4] = pulp::cast(simd.convert_f32x4_to_f64x4(av));
    rr.to_vec()
}

} // verus!
