use r3bar::number::{
    Number, FIVE_BITS, HUNDRED_BITS, INFINITY_BITS, NINETY_FIVE_BITS, SEVENTY_FIVE_BITS,
    SIGN_BIT, THIRTY_FIVE_BITS, ZERO_BITS,
};
use r3bar::sensors::wifi::DEGRADED_BITRATE_BITS;
use r3bar::store::MINUS_ONE_BITS;

fn samples() -> Vec<f64> {
    let mut all = vec![
        0.0,
        -0.0,
        1.0,
        -1.0,
        4.999999999999999,
        5.0,
        5.000000000000001,
        35.0,
        75.0,
        95.0,
        100.0,
        100.00000000000001,
        1e-320,
        -1e-320,
        f64::MIN_POSITIVE,
        f64::MAX,
        f64::MIN,
        f64::INFINITY,
        f64::NEG_INFINITY,
        f64::NAN,
        -f64::NAN,
        f64::EPSILON,
        866.7,
        53.0,
    ];
    let mut x = 0.37;
    for _ in 0..60 {
        all.push(x);
        all.push(-x);
        x *= 1.9;
    }
    all
}

#[test]
fn named_patterns_are_the_numbers_they_name() {
    assert_eq!(ZERO_BITS, 0.0f64.to_bits());
    assert_eq!(FIVE_BITS, 5.0f64.to_bits());
    assert_eq!(THIRTY_FIVE_BITS, 35.0f64.to_bits());
    assert_eq!(SEVENTY_FIVE_BITS, 75.0f64.to_bits());
    assert_eq!(NINETY_FIVE_BITS, 95.0f64.to_bits());
    assert_eq!(HUNDRED_BITS, 100.0f64.to_bits());
    assert_eq!(INFINITY_BITS, f64::INFINITY.to_bits());
    assert_eq!(SIGN_BIT, (-0.0f64).to_bits());
    assert_eq!(MINUS_ONE_BITS, (-1.0f64).to_bits());
    assert_eq!(DEGRADED_BITRATE_BITS, 53.0f64.to_bits());
}

#[test]
fn number_keeps_its_bits() {
    for x in samples() {
        let n = Number::from_bits(x.to_bits());
        assert_eq!(n.to_bits(), x.to_bits());
        assert_eq!(n.bits, x.to_bits());
    }
}

#[test]
fn is_nan_agrees_with_the_floating_point_unit() {
    for x in samples() {
        assert_eq!(Number::from_bits(x.to_bits()).is_nan(), x.is_nan(), "{}", x);
    }
    assert!(Number::from_bits(0x7FF0_0000_0000_0001).is_nan());
    assert!(Number::from_bits(0xFFFF_FFFF_FFFF_FFFF).is_nan());
    assert!(!Number::from_bits(0x7FF0_0000_0000_0000).is_nan());
    assert!(!Number::from_bits(0xFFF0_0000_0000_0000).is_nan());
}

#[test]
fn comparisons_agree_with_the_floating_point_unit() {
    let all = samples();
    for &a in &all {
        for &b in &all {
            let x = Number::from_bits(a.to_bits());
            let y = Number::from_bits(b.to_bits());
            assert_eq!(x.le(&y), a <= b, "{} <= {}", a, b);
            assert_eq!(x.gt(&y), a > b, "{} > {}", a, b);
            assert_eq!(x.equals(&y), a == b, "{} == {}", a, b);
            assert_eq!(x.in_range(a.to_bits(), b.to_bits()), a <= a && a <= b);
            assert_eq!(y.in_range(0.0f64.to_bits(), a.to_bits()), 0.0 <= b && b <= a);
        }
    }
}

#[test]
fn ordinal_orders_numbers_as_their_values() {
    let all: Vec<f64> = samples().into_iter().filter(|x| !x.is_nan()).collect();
    for &a in &all {
        for &b in &all {
            let x = Number::from_bits(a.to_bits()).ordinal();
            let y = Number::from_bits(b.to_bits()).ordinal();
            assert_eq!(x < y, a < b, "{} < {}", a, b);
            assert_eq!(x == y, a == b, "{} == {}", a, b);
        }
    }
    assert_eq!(Number::from_bits(0).ordinal(), 0);
    assert_eq!(Number::from_bits(SIGN_BIT).ordinal(), 0);
    assert_eq!(Number::from_bits(1).ordinal(), 1);
    assert_eq!(Number::from_bits(SIGN_BIT + 1).ordinal(), -1);
}
