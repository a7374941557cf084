//! Exact arithmetic of the fixed-point scalar type.

use particle_sim::fixed::{Fx, RAW_MAX, SCALE};

#[test]
fn from_int_and_raw_round_trip() {
    assert_eq!(Fx::from_int(3).raw, 3 * SCALE);
    assert_eq!(Fx::from_int(-10).raw, -10 * SCALE);
    assert_eq!(Fx::from_raw(123_456).raw, 123_456);
    assert_eq!(Fx::zero().raw, 0);
    assert_eq!(Fx::one().raw, SCALE);
}

#[test]
fn add_sub_neg_exact() {
    let a = Fx::from_raw(1_500_000); // 1.5
    let b = Fx::from_raw(250_000); // 0.25
    assert_eq!(a.add(b).raw, 1_750_000);
    assert_eq!(a.sub(b).raw, 1_250_000);
    assert_eq!(b.sub(a).raw, -1_250_000);
    assert_eq!(a.neg().raw, -1_500_000);
}

#[test]
fn mul_scales_back_down() {
    let a = Fx::from_raw(1_500_000); // 1.5
    let b = Fx::from_int(2);
    assert_eq!(a.mul(b).raw, 3_000_000); // 3.0
    assert_eq!(a.mul(a).raw, 2_250_000); // 2.25
    assert_eq!(a.neg().mul(b).raw, -3_000_000);
}

#[test]
fn div_truncates_toward_zero() {
    let one = Fx::one();
    let three = Fx::from_int(3);
    assert_eq!(one.div(three).raw, 333_333);
    assert_eq!(one.neg().div(three).raw, -333_333);
}

#[test]
fn saturation_is_symmetric() {
    let big = Fx::from_raw(RAW_MAX);
    assert_eq!(big.add(big).raw, RAW_MAX);
    assert_eq!(big.neg().sub(big).raw, -RAW_MAX);
    assert_eq!(Fx::from_raw(i64::MIN).neg().raw, RAW_MAX);
}

#[test]
fn sqrt_rounds_down() {
    assert_eq!(Fx::from_int(4).sqrt().raw, 2 * SCALE);
    assert_eq!(Fx::from_int(2).sqrt().raw, 1_414_213);
    assert_eq!(Fx::zero().sqrt().raw, 0);
    assert_eq!(Fx::from_raw(1).sqrt().raw, 1_000); // sqrt(1e-6) == 1e-3
}
