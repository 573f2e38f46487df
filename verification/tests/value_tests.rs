use lox_vm::Value;

fn v(x: f64) -> Value {
    Value(x.to_bits())
}

fn f(value: Value) -> f64 {
    f64::from_bits(value.0)
}

#[test]
fn add_matches_native_double_addition_exactly() {
    for (a, b) in [(1.2, 3.4), (0.1, 0.2), (-5.5, 2.25), (1.0e300, 1.0e300), (0.0, -0.0)] {
        assert_eq!(v(a).add(v(b)).0, (a + b).to_bits());
    }
}

#[test]
fn sub_matches_native_double_subtraction_exactly() {
    for (a, b) in [(7.5, 2.25), (1.2, 3.4), (-1.0, -2.0), (0.0, 0.0)] {
        assert_eq!(v(a).sub(v(b)).0, (a - b).to_bits());
    }
}

#[test]
fn mul_matches_native_double_multiplication_exactly() {
    for (a, b) in [(1.5, 2.5), (1.2, 3.4), (-4.0, 0.125), (1.0e200, 1.0e200)] {
        assert_eq!(v(a).mul(v(b)).0, (a * b).to_bits());
    }
}

#[test]
fn div_matches_native_double_division_exactly() {
    for (a, b) in [(1.0, 3.0), (4.6, 5.6), (-7.0, 2.0), (1.0, 0.5)] {
        assert_eq!(v(a).div(v(b)).0, (a / b).to_bits());
    }
}

#[test]
fn div_by_zero_follows_ieee_semantics() {
    assert_eq!(f(v(1.0).div(v(0.0))), f64::INFINITY);
    assert_eq!(f(v(-1.0).div(v(0.0))), f64::NEG_INFINITY);
    assert!(f(v(0.0).div(v(0.0))).is_nan());
}

#[test]
fn negate_flips_the_sign_and_nothing_else() {
    assert_eq!(v(4.6).negate().0, (-4.6f64).to_bits());
    assert_eq!(v(-4.6).negate().0, (4.6f64).to_bits());
    assert_eq!(v(0.0).negate().0, (-0.0f64).to_bits());
    assert!(f(v(f64::NAN).negate()).is_nan());
    // negation is an involution
    assert_eq!(v(1.25).negate().negate(), v(1.25));
}
