use europa_terrain::fx::{
    fx_abs, fx_add, fx_clamp, fx_div, fx_floor_split, fx_mul, fx_neg, fx_sub, isqrt_u128, Fx,
    Fx2, FX_ONE,
};

#[test]
fn from_int_scales_by_one_unit() {
    assert_eq!(Fx::from_int(5).raw, 5 * FX_ONE);
    assert!(Fx::from_int(5).fin);
    assert_eq!(Fx::from_int(-3).raw, -3 * FX_ONE);
    assert_eq!(Fx::from_int(0), Fx::zero());
}

#[test]
fn from_int_out_of_range_is_non_finite() {
    assert_eq!(Fx::from_int(i64::MAX), Fx::non_finite());
    assert_eq!(Fx::from_int(-(1_i64 << 50)), Fx::non_finite());
}

#[test]
fn add_and_sub_are_exact() {
    let a = Fx::from_int(7);
    let b = Fx::from_int(-2);
    assert_eq!(fx_add(a, b), Fx::from_int(5));
    assert_eq!(fx_sub(a, b), Fx::from_int(9));
}

#[test]
fn add_overflow_is_non_finite() {
    let big = Fx::from_raw(i64::MAX);
    assert_eq!(fx_add(big, Fx::one()), Fx::non_finite());
}

#[test]
fn mul_matches_whole_number_products() {
    assert_eq!(fx_mul(Fx::from_int(3), Fx::from_int(4)), Fx::from_int(12));
    assert_eq!(fx_mul(Fx::from_int(-3), Fx::from_int(4)), Fx::from_int(-12));
}

#[test]
fn mul_truncates_toward_zero() {
    // -3/65536 * 1/2 = -1.5/65536, truncated toward zero to -1/65536.
    let r = fx_mul(Fx::from_raw(-3), Fx::from_raw(32768));
    assert_eq!(r.raw, -1);
    assert!(r.fin);
}

#[test]
fn div_matches_reference_quotients() {
    assert_eq!(fx_div(Fx::one(), Fx::from_int(600)).raw, 109);
    assert_eq!(fx_div(Fx::from_int(12), Fx::from_int(4)), Fx::from_int(3));
}

#[test]
fn div_by_zero_is_non_finite() {
    assert_eq!(fx_div(Fx::one(), Fx::zero()), Fx::non_finite());
}

#[test]
fn non_finite_propagates_through_arithmetic() {
    let n = Fx::non_finite();
    let x = Fx::from_int(2);
    assert_eq!(fx_add(n, x), Fx::non_finite());
    assert_eq!(fx_sub(x, n), Fx::non_finite());
    assert_eq!(fx_mul(n, x), Fx::non_finite());
    assert_eq!(fx_div(n, x), Fx::non_finite());
    assert_eq!(fx_neg(n), Fx::non_finite());
    assert_eq!(fx_abs(n), Fx::non_finite());
    assert_eq!(fx_clamp(n, 0, FX_ONE), Fx::non_finite());
}

#[test]
fn neg_and_abs_are_exact() {
    assert_eq!(fx_neg(Fx::from_int(4)), Fx::from_int(-4));
    assert_eq!(fx_abs(Fx::from_int(-4)), Fx::from_int(4));
    assert_eq!(fx_abs(Fx::from_int(4)), Fx::from_int(4));
}

#[test]
fn clamp_pins_the_raw_value() {
    assert_eq!(fx_clamp(Fx::from_int(2), 0, FX_ONE), Fx::one());
    assert_eq!(fx_clamp(Fx::from_int(-2), 0, FX_ONE), Fx::zero());
    assert_eq!(fx_clamp(Fx::from_raw(123), 0, FX_ONE).raw, 123);
}

#[test]
fn floor_split_rounds_toward_negative_infinity() {
    assert_eq!(fx_floor_split(FX_ONE + 7), (1, 7));
    assert_eq!(fx_floor_split(-1), (-1, FX_ONE - 1));
    assert_eq!(fx_floor_split(-FX_ONE), (-1, 0));
    assert_eq!(fx_floor_split(0), (0, 0));
}

#[test]
fn integer_square_roots_are_exact() {
    assert_eq!(isqrt_u128(0), 0);
    assert_eq!(isqrt_u128(15), 3);
    assert_eq!(isqrt_u128(16), 4);
    assert_eq!(isqrt_u128(1 << 32), 65536);
    assert_eq!(isqrt_u128(u128::MAX), u64::MAX);
}

#[test]
fn normalize_matches_reference_direction() {
    let v = Fx2 {
        x: fx_div(Fx::from_int(4), Fx::from_int(5)),
        y: fx_div(Fx::from_int(1), Fx::from_int(5)),
    };
    let n = v.normalize();
    assert_eq!(n.x.raw, 63579);
    assert_eq!(n.y.raw, 15894);
    assert!(n.x.fin && n.y.fin);
}

#[test]
fn normalize_keeps_axis_vectors_exact() {
    let v = Fx2 { x: Fx::one(), y: Fx::zero() };
    let n = v.normalize();
    assert_eq!(n.x, Fx::one());
    assert_eq!(n.y, Fx::zero());
}

#[test]
fn normalize_of_zero_is_non_finite() {
    let v = Fx2 { x: Fx::zero(), y: Fx::zero() };
    let n = v.normalize();
    assert!(!n.x.fin && !n.y.fin);
}
