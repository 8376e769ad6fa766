//! The approximate reciprocal-square-root pipeline.
//!
//! Each function works on a fixed-width vector of lanes given as IEEE-754
//! bit patterns.  The first guess comes from the hardware estimate
//! instruction, with lanes whose input is exactly zero forced to zero; one
//! or two Newton-Raphson steps then sharpen the guess.  A step deliberately
//! leaves its 0.5 scale factor unapplied: the caller owes a final factor of
//! 0.5 after one step and 1/16 after two, and pays it once instead of per
//! lane per step.

use vstd::prelude::*;
use crate::bits::{
    is_zero_bits32, is_zero_bits64, is_finite_bits32, is_finite_bits64, is_pos_normal_bits32,
    lane_is_zero32, lemma_pos_normal_is_finite_nonzero32, lemma_zero_is_finite32,
    lemma_zero_is_finite64,
};
use crate::simd::{
    mul32_of, sub32_of, mul64_of, sub64_of, narrow64_of, widen32_of, simd_mul_f32x8,
    simd_sub_f32x8, simd_mul_f64x4, simd_sub_f64x4, simd_rsqrt_estimate_f32x8,
    simd_rsqrt_estimate_f32x4, simd_narrow_f64x4, simd_widen_f32x4,
};

verus! {

/// Bit pattern of the single-precision Newton numerator constant, three.
pub const NEWTON_THREE_BITS32: u32 = 0x4040_0000;

/// Bit pattern of the double-precision Newton numerator constant, three.
pub const NEWTON_THREE_BITS64: u64 = 0x4008_0000_0000_0000;

/// Bit pattern of the double-precision correction constant for the second
/// chained Newton step under deferred scaling, twelve.
pub const NEWTON_TWELVE_BITS64: u64 = 0x4028_0000_0000_0000;

/// What the zero-forcing mask leaves of a single-precision lane: the
/// estimate where the input lane is not a zero, the all-zero pattern
/// (exactly positive zero) where it is.
pub open spec fn mask_lane32(x: u32, e: u32) -> u32 {
    if is_zero_bits32(x) {
        0u32
    } else {
        e
    }
}

/// One Newton-Raphson step on a single-precision lane, with the 0.5 scale
/// factor deferred: `rinv * (c - r2 * (rinv * rinv))` in IEEE-754 arithmetic
/// on bit patterns.
pub open spec fn newton_lane32(rinv: u32, r2: u32, c: u32) -> u32 {
    mul32_of(rinv, sub32_of(c, mul32_of(r2, mul32_of(rinv, rinv))))
}

/// One Newton-Raphson step on a double-precision lane, with the 0.5 scale
/// factor deferred.
pub open spec fn newton_lane64(rinv: u64, r2: u64, c: u64) -> u64 {
    mul64_of(rinv, sub64_of(c, mul64_of(r2, mul64_of(rinv, rinv))))
}

/// A double-precision lane that is exactly the widening of some
/// single-precision lane: the shape every lane of the double-precision
/// first guess has, since its estimate is computed in single precision.
pub open spec fn is_widened_lane64(x: u64) -> bool {
    exists|e: u32| x == #[trigger] widen32_of(e)
}

/// A lane vector `e` is an admissible first guess for the single-precision
/// input `r2`: same width, every lane whose input is a zero was masked to
/// the all-zero pattern, and every lane whose input is positive normal
/// holds a positive, non-zero, finite estimate.
pub open spec fn first_guess32(r2: Seq<u32>, e: Seq<u32>) -> bool {
    &&& e.len() == r2.len()
    &&& forall|i: int| 0 <= i < r2.len() && is_zero_bits32(#[trigger] r2[i]) ==> e[i] == 0
    &&& forall|i: int|
        0 <= i < r2.len() && is_pos_normal_bits32(#[trigger] r2[i]) ==> !is_zero_bits32(e[i])
            && is_finite_bits32(e[i]) && e[i] & 0x8000_0000 == 0
}

/// A lane vector `e` is an admissible first guess for the double-precision
/// input `r2`: same width, every lane whose input is a zero was masked to
/// the all-zero pattern, and every lane whose input narrows to a positive
/// normal single-precision value holds a non-zero estimate.
pub open spec fn first_guess64(r2: Seq<u64>, e: Seq<u64>) -> bool {
    &&& e.len() == r2.len()
    &&& forall|i: int| 0 <= i < r2.len() && is_zero_bits64(#[trigger] r2[i]) ==> e[i] == 0
    &&& forall|i: int|
        0 <= i < r2.len() && is_pos_normal_bits32(narrow64_of(#[trigger] r2[i]))
            ==> !is_zero_bits64(e[i])
}

/// Builds the broadcast vector that holds one constant in every lane.
pub fn splat_lanes32(c: u32, n: usize) -> (r: Vec<u32>)
    ensures
        r.len() == n,
        forall|i: int| 0 <= i < n ==> r[i] == c,
{
    let mut r: Vec<u32> = Vec::new();
    let mut k: usize = 0;
    while k < n
        invariant
            k <= n,
            r.len() == k,
            forall|i: int| 0 <= i < k ==> r[i] == c,
        decreases n - k,
    {
        r.push(c);
        k = k + 1;
    }
    r
}

/// Builds the broadcast vector that holds one constant in every lane.
pub fn splat_lanes64(c: u64, n: usize) -> (r: Vec<u64>)
    ensures
        r.len() == n,
        forall|i: int| 0 <= i < n ==> r[i] == c,
{
    let mut r: Vec<u64> = Vec::new();
    let mut k: usize = 0;
    while k < n
        invariant
            k <= n,
            r.len() == k,
            forall|i: int| 0 <= i < k ==> r[i] == c,
        decreases n - k,
    {
        r.push(c);
        k = k + 1;
    }
    r
}

/// Forces every lane whose input is a zero to the all-zero pattern and
/// passes every other lane of the estimate through unchanged.  This is the
/// whole decision logic of the approximate primitive, verified for every
/// estimate the hardware can return.
pub fn mask_zero_lanes_32(r2: &Vec<u32>, est: &Vec<u32>) -> (r: Vec<u32>)
    requires
        est.len() == r2.len(),
    ensures
        r.len() == r2.len(),
        forall|i: int| 0 <= i < r2.len() ==> r[i] == mask_lane32(r2[i], est[i]),
{
    let n = r2.len();
    let mut r: Vec<u32> = Vec::new();
    let mut k: usize = 0;
    while k < n
        invariant
            n == r2.len(),
            est.len() == n,
            k <= n,
            r.len() == k,
            forall|i: int| 0 <= i < k ==> r[i] == mask_lane32(r2[i], est[i]),
        decreases n - k,
    {
        if lane_is_zero32(r2[k]) {
            r.push(0u32);
        } else {
            r.push(est[k]);
        }
        k = k + 1;
    }
    r
}

/// Approximate reciprocal square root of eight single-precision lanes.
///
/// Runs the hardware estimate instruction and forces every lane whose input
/// is exactly zero to zero, so that such a lane yields zero rather than the
/// infinity the estimate would produce.  Every other lane carries the raw,
/// processor-dependent estimate: for a positive normal input it is positive,
/// non-zero and finite, and within one call equal input lanes get equal
/// results.
pub fn rqsqrt_approx_intrin_avx_32(simd: &pulp::x86::V3, r2: &Vec<u32>) -> (r: Vec<u32>)
    requires
        r2.len() == 8,
    ensures
        r.len() == 8,
        forall|i: int| 0 <= i < 8 && is_zero_bits32(#[trigger] r2[i]) ==> r[i] == 0,
        forall|i: int|
            0 <= i < 8 && is_pos_normal_bits32(#[trigger] r2[i]) ==> !is_zero_bits32(r[i])
                && is_finite_bits32(r[i]) && r[i] & 0x8000_0000 == 0,
        forall|i: int, j: int|
            #![trigger r2[i], r2[j]]
            0 <= i < 8 && 0 <= j < 8 && r2[i] == r2[j] ==> r[i] == r[j],
{
    let est = simd_rsqrt_estimate_f32x8(simd, r2);
    let r = mask_zero_lanes_32(r2, &est);
    proof {
        assert forall|i: int|
            0 <= i < 8 && is_pos_normal_bits32(#[trigger] r2[i]) implies !is_zero_bits32(r[i])
            && is_finite_bits32(r[i]) && r[i] & 0x8000_0000 == 0 by {
            lemma_pos_normal_is_finite_nonzero32(r2[i]);
            assert(r[i] == mask_lane32(r2[i], est[i]));
        }
        assert forall|i: int, j: int|
            #![trigger r2[i], r2[j]]
            0 <= i < 8 && 0 <= j < 8 && r2[i] == r2[j] implies r[i] == r[j] by {
            assert(est[i] == est[j]);
            assert(r[i] == mask_lane32(r2[i], est[i]));
            assert(r[j] == mask_lane32(r2[j], est[j]));
        }
    }
    r
}

/// Approximate reciprocal square root of four single-precision lanes, with
/// the same zero forcing, the same outcome facts and the same per-call lane
/// agreement as the eight-lane variant.
pub fn rqsqrt_approx_intrin_sse_32(simd: &pulp::x86::V3, r2: &Vec<u32>) -> (r: Vec<u32>)
    requires
        r2.len() == 4,
    ensures
        r.len() == 4,
        forall|i: int| 0 <= i < 4 && is_zero_bits32(#[trigger] r2[i]) ==> r[i] == 0,
        forall|i: int|
            0 <= i < 4 && is_pos_normal_bits32(#[trigger] r2[i]) ==> !is_zero_bits32(r[i])
                && is_finite_bits32(r[i]) && r[i] & 0x8000_0000 == 0,
        forall|i: int, j: int|
            #![trigger r2[i], r2[j]]
            0 <= i < 4 && 0 <= j < 4 && r2[i] == r2[j] ==> r[i] == r[j],
{
    let est = simd_rsqrt_estimate_f32x4(simd, r2);
    let r = mask_zero_lanes_32(r2, &est);
    proof {
        assert forall|i: int|
            0 <= i < 4 && is_pos_normal_bits32(#[trigger] r2[i]) implies !is_zero_bits32(r[i])
            && is_finite_bits32(r[i]) && r[i] & 0x8000_0000 == 0 by {
            lemma_pos_normal_is_finite_nonzero32(r2[i]);
            assert(r[i] == mask_lane32(r2[i], est[i]));
        }
        assert forall|i: int, j: int|
            #![trigger r2[i], r2[j]]
            0 <= i < 4 && 0 <= j < 4 && r2[i] == r2[j] implies r[i] == r[j] by {
            assert(est[i] == est[j]);
            assert(r[i] == mask_lane32(r2[i], est[i]));
            assert(r[j] == mask_lane32(r2[j], est[j]));
        }
    }
    r
}

/// Approximate reciprocal square root of four double-precision lanes.
///
/// No double-precision estimate instruction is assumed: each lane is
/// narrowed to single precision, estimated and zero-masked there, and the
/// masked estimate is widened back, exactly, to double precision.  The
/// following refinement steps recover the accuracy the narrowing gave up.
/// The mask acts after the narrowing, so a lane is forced to zero exactly
/// when its narrowing is a zero — a double-precision lane too small to
/// survive the narrowing is masked along with the exact zeros.
pub fn rqsqrt_approx_intrin_avx_64(simd: &pulp::x86::V3, r2: &Vec<u64>) -> (r: Vec<u64>)
    requires
        r2.len() == 4,
    ensures
        r.len() == 4,
        forall|i: int| 0 <= i < 4 && is_zero_bits64(#[trigger] r2[i]) ==> r[i] == 0,
        forall|i: int| 0 <= i < 4 && is_zero_bits32(narrow64_of(#[trigger] r2[i])) ==> r[i] == 0,
        forall|i: int|
            0 <= i < 4 && is_pos_normal_bits32(narrow64_of(#[trigger] r2[i]))
                ==> !is_zero_bits64(r[i]),
        forall|i: int, j: int|
            #![trigger r2[i], r2[j]]
            0 <= i < 4 && 0 <= j < 4 && r2[i] == r2[j] ==> r[i] == r[j],
        forall|i: int| 0 <= i < 4 ==> is_widened_lane64(#[trigger] r[i]),
{
    let narrowed = simd_narrow_f64x4(simd, r2);
    let est = simd_rsqrt_estimate_f32x4(simd, &narrowed);
    let masked = mask_zero_lanes_32(&narrowed, &est);
    let r = simd_widen_f32x4(simd, &masked);
    proof {
        assert forall|i: int| 0 <= i < 4 && is_zero_bits64(#[trigger] r2[i]) implies r[i]
            == 0 by {
            assert(is_zero_bits32(narrowed[i]));
            assert(masked[i] == mask_lane32(narrowed[i], est[i]));
            assert(masked[i] == 0);
        }
        assert forall|i: int|
            0 <= i < 4 && is_zero_bits32(narrow64_of(#[trigger] r2[i])) implies r[i] == 0 by {
            assert(narrowed[i] == narrow64_of(r2[i]));
            assert(masked[i] == mask_lane32(narrowed[i], est[i]));
            assert(masked[i] == 0);
        }
        assert forall|i: int|
            0 <= i < 4 && is_pos_normal_bits32(narrow64_of(#[trigger] r2[i]))
            implies !is_zero_bits64(r[i]) by {
            assert(narrowed[i] == narrow64_of(r2[i]));
            lemma_pos_normal_is_finite_nonzero32(narrowed[i]);
            assert(masked[i] == mask_lane32(narrowed[i], est[i]));
            assert(masked[i] == est[i]);
            assert(!is_zero_bits32(masked[i]));
        }
        assert forall|i: int, j: int|
            #![trigger r2[i], r2[j]]
            0 <= i < 4 && 0 <= j < 4 && r2[i] == r2[j] implies r[i] == r[j] by {
            assert(narrowed[i] == narrow64_of(r2[i]));
            assert(narrowed[j] == narrow64_of(r2[j]));
            assert(est[i] == est[j]);
            assert(masked[i] == mask_lane32(narrowed[i], est[i]));
            assert(masked[j] == mask_lane32(narrowed[j], est[j]));
            assert(r[i] == widen32_of(masked[i]));
            assert(r[j] == widen32_of(masked[j]));
        }
        assert forall|i: int| 0 <= i < 4 implies is_widened_lane64(#[trigger] r[i]) by {
            assert(r[i] == widen32_of(masked[i]));
        }
    }
    r
}

/// One Newton-Raphson refinement of eight single-precision lanes.
///
/// For a first guess straight from the estimate the constant is the bit
/// pattern of three; the 0.5 of the exact update `0.5 * rinv * (3 - r2 *
/// rinv^2)` is deferred, so the caller owes a factor 0.5 per step applied.
/// A zero estimate lane stays zero whenever the input lane and the constant
/// are finite, so the zero forcing of the approximate primitive survives
/// every refinement.
pub fn rsqrt_newton_intrin_32(
    simd: &pulp::x86::V3,
    rinv: &Vec<u32>,
    r2: &Vec<u32>,
    newton_constant: u32,
) -> (r: Vec<u32>)
    requires
        rinv.len() == 8,
        r2.len() == 8,
    ensures
        r.len() == 8,
        forall|i: int| 0 <= i < 8 ==> r[i] == newton_lane32(rinv[i], r2[i], newton_constant),
        forall|i: int|
            0 <= i < 8 && is_zero_bits32(#[trigger] rinv[i]) && is_finite_bits32(r2[i])
                && is_finite_bits32(newton_constant) ==> is_zero_bits32(r[i]),
{
    let c = splat_lanes32(newton_constant, 8);
    let sq = simd_mul_f32x8(simd, rinv, rinv);
    let xsq = simd_mul_f32x8(simd, r2, &sq);
    let d = simd_sub_f32x8(simd, &c, &xsq);
    let r = simd_mul_f32x8(simd, rinv, &d);
    proof {
        assert forall|i: int|
            0 <= i < 8 && is_zero_bits32(#[trigger] rinv[i]) && is_finite_bits32(r2[i])
                && is_finite_bits32(newton_constant) implies is_zero_bits32(r[i]) by {
            lemma_zero_is_finite32(rinv[i]);
            assert(is_zero_bits32(sq[i]));
            lemma_zero_is_finite32(sq[i]);
            assert(is_zero_bits32(xsq[i]));
            lemma_zero_is_finite32(xsq[i]);
            if is_zero_bits32(newton_constant) {
                assert(is_zero_bits32(d[i]));
                lemma_zero_is_finite32(d[i]);
            } else {
                assert(d[i] == newton_constant);
            }
            assert(is_finite_bits32(d[i]));
            assert(is_zero_bits32(r[i]));
        }
    }
    r
}

/// One Newton-Raphson refinement of four double-precision lanes, with the
/// constant supplied broadcast as a lane vector and the 0.5 scale factor
/// deferred exactly as in the single-precision step.  A zero estimate lane
/// stays zero whenever the input lane and the constant lane are finite.
pub fn rsqrt_newton_intrin_64(
    simd: &pulp::x86::V3,
    rinv: &Vec<u64>,
    r2: &Vec<u64>,
    newton_constant: &Vec<u64>,
) -> (r: Vec<u64>)
    requires
        rinv.len() == 4,
        r2.len() == 4,
        newton_constant.len() == 4,
    ensures
        r.len() == 4,
        forall|i: int|
            0 <= i < 4 ==> r[i] == newton_lane64(rinv[i], r2[i], newton_constant[i]),
        forall|i: int|
            0 <= i < 4 && is_zero_bits64(#[trigger] rinv[i]) && is_finite_bits64(r2[i])
                && is_finite_bits64(newton_constant[i]) ==> is_zero_bits64(r[i]),
{
    let sq = simd_mul_f64x4(simd, rinv, rinv);
    let xsq = simd_mul_f64x4(simd, r2, &sq);
    let d = simd_sub_f64x4(simd, newton_constant, &xsq);
    let r = simd_mul_f64x4(simd, rinv, &d);
    proof {
        assert forall|i: int|
            0 <= i < 4 && is_zero_bits64(#[trigger] rinv[i]) && is_finite_bits64(r2[i])
                && is_finite_bits64(newton_constant[i]) implies is_zero_bits64(r[i]) by {
            lemma_zero_is_finite64(rinv[i]);
            assert(is_zero_bits64(sq[i]));
            lemma_zero_is_finite64(sq[i]);
            assert(is_zero_bits64(xsq[i]));
            lemma_zero_is_finite64(xsq[i]);
            if is_zero_bits64(newton_constant[i]) {
                assert(is_zero_bits64(d[i]));
                lemma_zero_is_finite64(d[i]);
            } else {
                assert(d[i] == newton_constant[i]);
            }
            assert(is_finite_bits64(d[i]));
            assert(is_zero_bits64(r[i]));
        }
    }
    r
}

/// Single-precision pipeline, one refinement step: estimate with zero
/// forcing, then one Newton step with constant three.  The caller owes a
/// final factor of 0.5 on every lane.
pub fn rsqrt_single_intrin_32(simd: &pulp::x86::V3, r2: &Vec<u32>) -> (r: Vec<u32>)
    requires
        r2.len() == 8,
    ensures
        r.len() == 8,
        forall|i: int|
            0 <= i < 8 && is_zero_bits32(#[trigger] r2[i]) ==> is_zero_bits32(r[i]),
        forall|i: int, j: int|
            #![trigger r2[i], r2[j]]
            0 <= i < 8 && 0 <= j < 8 && r2[i] == r2[j] ==> r[i] == r[j],
        exists|e: Seq<u32>|
            #[trigger] first_guess32(r2@, e) && forall|i: int|
                0 <= i < 8 ==> r[i] == newton_lane32(e[i], r2@[i], NEWTON_THREE_BITS32),
{
    let est = rqsqrt_approx_intrin_avx_32(simd, r2);
    let r = rsqrt_newton_intrin_32(simd, &est, r2, NEWTON_THREE_BITS32);
    proof {
        assert(is_finite_bits32(NEWTON_THREE_BITS32)) by (bit_vector);
        assert forall|i: int|
            0 <= i < 8 && is_zero_bits32(#[trigger] r2[i]) implies is_zero_bits32(r[i]) by {
            assert(est[i] == 0);
            assert(is_zero_bits32(0u32)) by (bit_vector);
            lemma_zero_is_finite32(r2[i]);
        }
        assert forall|i: int, j: int|
            #![trigger r2[i], r2[j]]
            0 <= i < 8 && 0 <= j < 8 && r2[i] == r2[j] implies r[i] == r[j] by {
            assert(est[i] == est[j]);
            assert(r[i] == newton_lane32(est[i], r2[i], NEWTON_THREE_BITS32));
            assert(r[j] == newton_lane32(est[j], r2[j], NEWTON_THREE_BITS32));
        }
        assert(first_guess32(r2@, est@));
        assert(forall|i: int|
            0 <= i < 8 ==> r[i] == newton_lane32(est@[i], r2@[i], NEWTON_THREE_BITS32));
    }
    r
}

/// Double-precision pipeline, one refinement step: the narrowing estimate
/// with zero forcing, then one Newton step with constant three.  The caller
/// owes a final factor of 0.5 on every lane.
pub fn rsqrt_single_intrin_64(simd: &pulp::x86::V3, r2: &Vec<u64>) -> (r: Vec<u64>)
    requires
        r2.len() == 4,
    ensures
        r.len() == 4,
        forall|i: int|
            0 <= i < 4 && is_zero_bits64(#[trigger] r2[i]) ==> is_zero_bits64(r[i]),
        forall|i: int, j: int|
            #![trigger r2[i], r2[j]]
            0 <= i < 4 && 0 <= j < 4 && r2[i] == r2[j] ==> r[i] == r[j],
        exists|e: Seq<u64>|
            #[trigger] first_guess64(r2@, e) && forall|i: int|
                0 <= i < 4 ==> r[i] == newton_lane64(e[i], r2@[i], NEWTON_THREE_BITS64),
{
    let est = rqsqrt_approx_intrin_avx_64(simd, r2);
    let c = splat_lanes64(NEWTON_THREE_BITS64, 4);
    let r = rsqrt_newton_intrin_64(simd, &est, r2, &c);
    proof {
        assert(is_finite_bits64(NEWTON_THREE_BITS64)) by (bit_vector);
        assert forall|i: int|
            0 <= i < 4 && is_zero_bits64(#[trigger] r2[i]) implies is_zero_bits64(r[i]) by {
            assert(est[i] == 0);
            assert(is_zero_bits64(0u64)) by (bit_vector);
            lemma_zero_is_finite64(r2[i]);
        }
        assert forall|i: int, j: int|
            #![trigger r2[i], r2[j]]
            0 <= i < 4 && 0 <= j < 4 && r2[i] == r2[j] implies r[i] == r[j] by {
            assert(est[i] == est[j]);
            assert(r[i] == newton_lane64(est[i], r2[i], NEWTON_THREE_BITS64));
            assert(r[j] == newton_lane64(est[j], r2[j], NEWTON_THREE_BITS64));
        }
        assert(first_guess64(r2@, est@));
        assert(forall|i: int|
            0 <= i < 4 ==> r[i] == newton_lane64(est@[i], r2@[i], NEWTON_THREE_BITS64));
    }
    r
}

/// Double-precision pipeline, two refinement steps: the narrowing estimate
/// with zero forcing, a Newton step with constant three, and a second step
/// with constant twelve, the correction the chain needs when the first
/// step's 0.5 was never applied.  The caller owes a final factor of 1/16 on
/// every lane.
pub fn rsqrt_double_intrin_64(simd: &pulp::x86::V3, r2: &Vec<u64>) -> (r: Vec<u64>)
    requires
        r2.len() == 4,
    ensures
        r.len() == 4,
        forall|i: int|
            0 <= i < 4 && is_zero_bits64(#[trigger] r2[i]) ==> is_zero_bits64(r[i]),
        forall|i: int, j: int|
            #![trigger r2[i], r2[j]]
            0 <= i < 4 && 0 <= j < 4 && r2[i] == r2[j] ==> r[i] == r[j],
        exists|e: Seq<u64>|
            #[trigger] first_guess64(r2@, e) && forall|i: int|
                0 <= i < 4 ==> r[i] == newton_lane64(
                    newton_lane64(e[i], r2@[i], NEWTON_THREE_BITS64),
                    r2@[i],
                    NEWTON_TWELVE_BITS64,
                ),
{
    let est = rqsqrt_approx_intrin_avx_64(simd, r2);
    let c3 = splat_lanes64(NEWTON_THREE_BITS64, 4);
    let once = rsqrt_newton_intrin_64(simd, &est, r2, &c3);
    let c12 = splat_lanes64(NEWTON_TWELVE_BITS64, 4);
    let r = rsqrt_newton_intrin_64(simd, &once, r2, &c12);
    proof {
        assert(is_finite_bits64(NEWTON_THREE_BITS64)) by (bit_vector);
        assert(is_finite_bits64(NEWTON_TWELVE_BITS64)) by (bit_vector);
        assert forall|i: int|
            0 <= i < 4 && is_zero_bits64(#[trigger] r2[i]) implies is_zero_bits64(r[i]) by {
            assert(est[i] == 0);
            assert(is_zero_bits64(0u64)) by (bit_vector);
            lemma_zero_is_finite64(r2[i]);
            assert(is_zero_bits64(once[i]));
        }
        assert forall|i: int, j: int|
            #![trigger r2[i], r2[j]]
            0 <= i < 4 && 0 <= j < 4 && r2[i] == r2[j] implies r[i] == r[j] by {
            assert(est[i] == est[j]);
            assert(once[i] == newton_lane64(est[i], r2[i], NEWTON_THREE_BITS64));
            assert(once[j] == newton_lane64(est[j], r2[j], NEWTON_THREE_BITS64));
            assert(r[i] == newton_lane64(once[i], r2[i], NEWTON_TWELVE_BITS64));
            assert(r[j] == newton_lane64(once[j], r2[j], NEWTON_TWELVE_BITS64));
        }
        assert(first_guess64(r2@, est@));
        assert(forall|i: int|
            0 <= i < 4 ==> r[i] == newton_lane64(
                newton_lane64(est@[i], r2@[i], NEWTON_THREE_BITS64),
                r2@[i],
                NEWTON_TWELVE_BITS64,
            ));
    }
    r
}

/// Lane independence of the zero-forcing mask: the value a lane gets
/// depends only on that lane of the input and of the estimate, never on a
/// sibling lane.
pub proof fn lemma_mask_lane_independent(
    r2a: Seq<u32>,
    ea: Seq<u32>,
    r2b: Seq<u32>,
    eb: Seq<u32>,
    i: int,
    j: int,
)
    requires
        0 <= i < r2a.len(),
        ea.len() == r2a.len(),
        0 <= j < r2b.len(),
        eb.len() == r2b.len(),
        r2a[i] == r2b[j],
        ea[i] == eb[j],
    ensures
        mask_lane32(r2a[i], ea[i]) == mask_lane32(r2b[j], eb[j]),
{
}

/// Lane independence of the single-precision refinement step: the value a
/// lane gets from one Newton step depends only on that lane of the estimate
/// and of the input, never on a sibling lane.
pub proof fn lemma_refine32_lane_independent(
    rinva: Seq<u32>,
    r2a: Seq<u32>,
    rinvb: Seq<u32>,
    r2b: Seq<u32>,
    c: u32,
    i: int,
    j: int,
)
    requires
        0 <= i < rinva.len(),
        r2a.len() == rinva.len(),
        0 <= j < rinvb.len(),
        r2b.len() == rinvb.len(),
        rinva[i] == rinvb[j],
        r2a[i] == r2b[j],
    ensures
        newton_lane32(rinva[i], r2a[i], c) == newton_lane32(rinvb[j], r2b[j], c),
{
}

/// Lane independence of the double-precision refinement step.
pub proof fn lemma_refine64_lane_independent(
    rinva: Seq<u64>,
    r2a: Seq<u64>,
    rinvb: Seq<u64>,
    r2b: Seq<u64>,
    c: u64,
    i: int,
    j: int,
)
    requires
        0 <= i < rinva.len(),
        r2a.len() == rinva.len(),
        0 <= j < rinvb.len(),
        r2b.len() == rinvb.len(),
        rinva[i] == rinvb[j],
        r2a[i] == r2b[j],
    ensures
        newton_lane64(rinva[i], r2a[i], c) == newton_lane64(rinvb[j], r2b[j], c),
{
}

} // verus!
