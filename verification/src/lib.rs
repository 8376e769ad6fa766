//! Vectorised approximate reciprocal square root (1/sqrt(x)).
//!
//! The library computes a per-lane first guess of the reciprocal square root
//! with the hardware estimate instruction, forces lanes whose input is zero
//! to zero, and sharpens the guess with Newton-Raphson steps whose 0.5 scale
//! factor is deferred to the caller.  Lane values are carried as IEEE-754
//! bit patterns (`u32` / `u64`), so the masking logic and the shape of the
//! refinement pipeline are verified, while the floating-point arithmetic
//! itself runs on the hardware through the `pulp` SIMD library.

pub mod bits;
pub mod simd;
pub mod rsqrt;

pub use rsqrt::{
    mask_zero_lanes_32, rqsqrt_approx_intrin_avx_32, rqsqrt_approx_intrin_sse_32,
    rqsqrt_approx_intrin_avx_64, rsqrt_newton_intrin_32, rsqrt_newton_intrin_64,
    rsqrt_single_intrin_32, rsqrt_single_intrin_64, rsqrt_double_intrin_64,
    splat_lanes32, splat_lanes64, NEWTON_THREE_BITS32, NEWTON_THREE_BITS64, NEWTON_TWELVE_BITS64,
};
