use invsqrt::{
    mask_zero_lanes_32, rqsqrt_approx_intrin_avx_32, rqsqrt_approx_intrin_avx_64,
    rqsqrt_approx_intrin_sse_32, rsqrt_double_intrin_64, rsqrt_newton_intrin_32,
    rsqrt_newton_intrin_64, rsqrt_single_intrin_32, rsqrt_single_intrin_64, splat_lanes32,
    NEWTON_THREE_BITS32,
};

fn token() -> pulp::x86::V3 {
    pulp::x86::V3::try_new().expect("the avx2 instruction set is not available")
}

fn bits32(xs: &[f32]) -> Vec<u32> {
    xs.iter().map(|x| x.to_bits()).collect()
}

fn bits64(xs: &[f64]) -> Vec<u64> {
    xs.iter().map(|x| x.to_bits()).collect()
}

fn floats32(bs: &[u32]) -> Vec<f32> {
    bs.iter().map(|b| f32::from_bits(*b)).collect()
}

fn floats64(bs: &[u64]) -> Vec<f64> {
    bs.iter().map(|b| f64::from_bits(*b)).collect()
}

#[test]
fn approx_avx_32_masks_zero_lanes() {
    let simd = token();
    let r2 = bits32(&[0.0, 4.0, 0.0, 9.0, 16.0, 25.0, -0.0, 36.0]);
    let r = rqsqrt_approx_intrin_avx_32(&simd, &r2);
    assert_eq!(r[0], 0);
    assert_eq!(r[2], 0);
    assert_eq!(r[6], 0);
    let v = floats32(&r);
    assert!((v[1] - 0.5).abs() < 0.01);
    assert!((v[3] - 1.0 / 3.0).abs() < 0.01);
    assert!((v[7] - 1.0 / 6.0).abs() < 0.01);
}

#[test]
fn approx_sse_32_masks_zero_lanes() {
    let simd = token();
    let r2 = bits32(&[-0.0, 1.0, 0.0, 2.0]);
    let r = rqsqrt_approx_intrin_sse_32(&simd, &r2);
    assert_eq!(r[0], 0);
    assert_eq!(r[2], 0);
    let v = floats32(&r);
    assert!((v[1] - 1.0).abs() < 0.01);
    assert!((v[3] - 0.70710678).abs() < 0.01);
}

#[test]
fn approx_avx_64_masks_zero_lanes() {
    let simd = token();
    let r2 = bits64(&[0.0, 2.0, -0.0, 4.0]);
    let r = rqsqrt_approx_intrin_avx_64(&simd, &r2);
    assert_eq!(r[0], 0);
    assert_eq!(r[2], 0);
    let v = floats64(&r);
    assert!((v[1] - 0.70710678).abs() < 0.01);
    assert!((v[3] - 0.5).abs() < 0.01);
}

#[test]
fn zero_lane_unmoved_by_sibling_lanes() {
    let simd = token();
    let a = bits32(&[0.0, 4.0, 1.0, 9.0, 16.0, 25.0, 36.0, 49.0]);
    let b = bits32(&[0.0, 100.0, 0.25, 64.0, 81.0, 1.0, 9.0, 4.0]);
    let ra = rqsqrt_approx_intrin_avx_32(&simd, &a);
    let rb = rqsqrt_approx_intrin_avx_32(&simd, &b);
    assert_eq!(ra[0], 0);
    assert_eq!(rb[0], 0);
}

#[test]
fn mask_passes_other_lanes_through() {
    let r2 = bits32(&[0.0, 1.0, -0.0, 2.0]);
    let est = vec![11u32, 22u32, 33u32, 44u32];
    let r = mask_zero_lanes_32(&r2, &est);
    assert_eq!(r, vec![0u32, 22u32, 0u32, 44u32]);
}

#[test]
fn splat_fills_every_lane() {
    let r = splat_lanes32(NEWTON_THREE_BITS32, 8);
    assert_eq!(r.len(), 8);
    for lane in r {
        assert_eq!(lane, 3.0f32.to_bits());
    }
}

#[test]
fn newton_step_32_is_exact_on_exact_inputs() {
    let simd = token();
    let rinv = bits32(&[0.5, 1.0, 0.25, 2.0, 1.0, 0.5, 1.0, 0.0]);
    let r2 = bits32(&[4.0, 1.0, 16.0, 0.25, 2.0, 8.0, 0.0, 0.0]);
    let r = rsqrt_newton_intrin_32(&simd, &rinv, &r2, 3.0f32.to_bits());
    let expected = bits32(&[1.0, 2.0, 0.5, 4.0, 1.0, 0.5, 3.0, 0.0]);
    assert_eq!(r, expected);
}

#[test]
fn newton_step_64_is_exact_on_exact_inputs() {
    let simd = token();
    let rinv = bits64(&[0.5, 1.0, 2.0, 0.25]);
    let r2 = bits64(&[4.0, 1.0, 0.25, 16.0]);
    let c = bits64(&[3.0, 3.0, 12.0, 12.0]);
    let r = rsqrt_newton_intrin_64(&simd, &rinv, &r2, &c);
    let expected = bits64(&[1.0, 2.0, 22.0, 2.75]);
    assert_eq!(r, expected);
}

#[test]
fn single_precision_one_step_error_bound() {
    let simd = token();
    let samples: [f32; 16] = [
        1.0e-3, 7.3e-3, 0.041, 0.37, 1.0, 2.0, 3.5, 9.81, 55.0, 144.0, 1.0e3, 7.7e3, 4.2e4,
        1.3e5, 6.0e5, 1.0e6,
    ];
    let bound = (2.0f64).powi(-11);
    for chunk in samples.chunks(8) {
        let r2 = bits32(chunk);
        let r = rsqrt_single_intrin_32(&simd, &r2);
        let v = floats32(&r);
        for (x, raw) in chunk.iter().zip(v.iter()) {
            let got = 0.5 * (*raw as f64);
            let exact = 1.0 / (*x as f64).sqrt();
            let rel = (got - exact).abs() / exact;
            assert!(rel <= bound, "input {x}: relative error {rel}");
        }
    }
}

#[test]
fn double_precision_two_step_error_bound() {
    let simd = token();
    let samples: [f64; 12] = [
        1.0e-3, 0.02, 0.5, 1.0, 2.0, 3.0, 10.0, 256.0, 1.0e3, 3.3e4, 5.0e5, 1.0e6,
    ];
    let bound = (2.0f64).powi(-20);
    for chunk in samples.chunks(4) {
        let r2 = bits64(chunk);
        let r = rsqrt_double_intrin_64(&simd, &r2);
        let v = floats64(&r);
        for (x, raw) in chunk.iter().zip(v.iter()) {
            let got = raw / 16.0;
            let exact = 1.0 / x.sqrt();
            let rel = (got - exact).abs() / exact;
            assert!(rel <= bound, "input {x}: relative error {rel}");
        }
    }
}

#[test]
fn two_steps_never_less_accurate_than_one() {
    let simd = token();
    let samples: [f64; 12] = [
        1.0, 1.5, 2.0, 4.0, 10.0, 77.0, 321.0, 1.0e3, 9.9e3, 6.5e4, 4.0e5, 1.0e6,
    ];
    for chunk in samples.chunks(4) {
        let r2 = bits64(chunk);
        let one = rsqrt_single_intrin_64(&simd, &r2);
        let two = rsqrt_double_intrin_64(&simd, &r2);
        let vone = floats64(&one);
        let vtwo = floats64(&two);
        for ((x, o), t) in chunk.iter().zip(vone.iter()).zip(vtwo.iter()) {
            let exact = 1.0 / x.sqrt();
            let err_one = (o * 0.5 - exact).abs();
            let err_two = (t / 16.0 - exact).abs();
            assert!(err_two <= err_one, "input {x}: {err_two} > {err_one}");
        }
    }
}

#[test]
fn scale_factor_recovers_exact_reciprocal_sqrt() {
    let simd = token();
    let xs32: [f32; 8] = [0.25, 1.0, 2.0, 5.0, 10.0, 100.0, 12345.0, 9.0e5];
    let r = rsqrt_single_intrin_32(&simd, &bits32(&xs32));
    let v = floats32(&r);
    for (x, raw) in xs32.iter().zip(v.iter()) {
        let exact = 1.0 / x.sqrt();
        assert!((0.5 * raw - exact).abs() / exact < 1.0e-5);
    }
    let xs64: [f64; 4] = [0.25, 3.0, 1234.5, 8.8e5];
    let r = rsqrt_double_intrin_64(&simd, &bits64(&xs64));
    let v = floats64(&r);
    for (x, raw) in xs64.iter().zip(v.iter()) {
        let exact = 1.0 / x.sqrt();
        assert!((raw / 16.0 - exact).abs() / exact < 1.0e-9);
    }
}

#[test]
fn lanes_permute_with_their_inputs() {
    let simd = token();
    let fwd = bits64(&[1.0, 2.0, 3.0, 4.0]);
    let rev = bits64(&[4.0, 3.0, 2.0, 1.0]);
    let rf = rsqrt_double_intrin_64(&simd, &fwd);
    let rr = rsqrt_double_intrin_64(&simd, &rev);
    for i in 0..4 {
        assert_eq!(rf[i], rr[3 - i]);
    }
    let fwd32 = bits32(&[1.0, 2.0, 3.0, 4.0, 5.0, 6.0, 7.0, 8.0]);
    let rot32 = bits32(&[8.0, 1.0, 2.0, 3.0, 4.0, 5.0, 6.0, 7.0]);
    let rf32 = rsqrt_single_intrin_32(&simd, &fwd32);
    let rr32 = rsqrt_single_intrin_32(&simd, &rot32);
    for i in 0..8 {
        assert_eq!(rf32[i], rr32[(i + 1) % 8]);
    }
}

#[test]
fn positive_lanes_get_positive_finite_estimates() {
    let simd = token();
    let r2 = bits32(&[1.0, 2.0, 3.0, 4.0, 0.5, 100.0, 1.0e-3, 1.0e6]);
    let r = rqsqrt_approx_intrin_avx_32(&simd, &r2);
    for lane in &r {
        assert_ne!(*lane, 0);
        assert_eq!(lane & 0x8000_0000, 0);
        let v = f32::from_bits(*lane);
        assert!(v.is_finite() && v > 0.0);
    }
}

#[test]
fn equal_input_lanes_get_equal_results() {
    let simd = token();
    let r2 = bits32(&[7.0, 2.0, 7.0, 5.0, 2.0, 7.0, 5.0, 7.0]);
    let r = rsqrt_single_intrin_32(&simd, &r2);
    assert_eq!(r[0], r[2]);
    assert_eq!(r[0], r[5]);
    assert_eq!(r[0], r[7]);
    assert_eq!(r[1], r[4]);
    assert_eq!(r[3], r[6]);
    let r2 = bits64(&[9.0, 3.0, 9.0, 3.0]);
    let r = rsqrt_double_intrin_64(&simd, &r2);
    assert_eq!(r[0], r[2]);
    assert_eq!(r[1], r[3]);
}

#[test]
fn tiny_double_lanes_are_masked_with_the_zeros() {
    let simd = token();
    // The first lane is far below the smallest positive single-precision
    // value, so it narrows to zero and is masked exactly as a zero is.
    let r2 = bits64(&[1.0e-60, 0.0, 2.0, 4.0]);
    let r = rqsqrt_approx_intrin_avx_64(&simd, &r2);
    assert_eq!(r[0], 0);
    assert_eq!(r[1], 0);
    assert_ne!(r[2], 0);
    assert_ne!(r[3], 0);
}

#[test]
fn double_pipeline_concrete_scenario() {
    let simd = token();
    let r2 = bits64(&[1.0, 2.0, 3.0, 4.0]);
    let r = rsqrt_double_intrin_64(&simd, &r2);
    let v = floats64(&r);
    let expected: [f64; 4] = [1.0, 0.70710678118654752, 0.57735026918962576, 0.5];
    for (got, want) in v.iter().zip(expected.iter()) {
        assert!(((got / 16.0) - want).abs() / want < 1.0e-6);
    }
}
