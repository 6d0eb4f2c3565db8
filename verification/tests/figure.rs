use finnhub_scanner::figure::{Figure, INFINITY_MAGNITUDE, SIGN_BIT};

fn fig(value: f64) -> Figure {
    Figure::from_bits(value.to_bits())
}

fn samples() -> Vec<f64> {
    vec![
        f64::NEG_INFINITY,
        f64::MIN,
        -1.0e10,
        -5.0,
        -3.0,
        -1.0,
        -0.5,
        -f64::MIN_POSITIVE,
        -5e-324,
        -0.0,
        0.0,
        5e-324,
        f64::MIN_POSITIVE,
        0.5,
        1.0,
        3.0,
        5.0,
        10.0,
        1.0e10,
        f64::MAX,
        f64::INFINITY,
    ]
}

#[test]
fn bits_go_in_and_come_out_unchanged() {
    for value in samples() {
        assert_eq!(fig(value).to_bits(), value.to_bits());
    }
    assert_eq!(Figure::from_bits(0x4014_0000_0000_0000).to_bits(), 5.0f64.to_bits());
}

#[test]
fn the_limits_are_those_of_binary64() {
    assert_eq!(SIGN_BIT, (-0.0f64).to_bits());
    assert_eq!(INFINITY_MAGNITUDE, f64::INFINITY.to_bits());
}

#[test]
fn zero_is_positive_zero() {
    assert_eq!(Figure::zero().to_bits(), 0.0f64.to_bits());
    assert!(Figure::zero().is_zero());
}

#[test]
fn sign_tests_agree_with_the_numbers() {
    for value in samples() {
        let figure = fig(value);
        assert_eq!(figure.is_positive(), value > 0.0, "{}", value);
        assert_eq!(figure.is_negative(), value < 0.0, "{}", value);
        assert_eq!(figure.is_zero(), value == 0.0, "{}", value);
        assert_eq!(figure.is_nan(), value.is_nan(), "{}", value);
        assert_eq!(figure.sign(), value.is_sign_negative(), "{}", value);
    }
}

#[test]
fn ranks_order_as_the_numbers_do() {
    let values = samples();
    for a in values.iter() {
        for b in values.iter() {
            assert_eq!(fig(*a).rank() < fig(*b).rank(), a < b, "{} {}", a, b);
            assert_eq!(fig(*a).rank() == fig(*b).rank(), a == b, "{} {}", a, b);
        }
    }
}

#[test]
fn magnitudes_order_as_the_absolute_values_do() {
    let values = samples();
    for a in values.iter() {
        for b in values.iter() {
            assert_eq!(
                fig(*a).magnitude() < fig(*b).magnitude(),
                a.abs() < b.abs(),
                "{} {}",
                a,
                b
            );
        }
    }
    assert_eq!(fig(-5.0).magnitude(), 5.0f64.to_bits());
}

#[test]
fn rank_of_a_number_and_its_negative() {
    assert_eq!(fig(0.0).rank(), 0);
    assert_eq!(fig(-0.0).rank(), 0);
    assert_eq!(fig(1.0).rank(), 0x3ff0_0000_0000_0000);
    assert_eq!(fig(-1.0).rank(), -0x3ff0_0000_0000_0000);
}

#[test]
fn abs_at_least_agrees_with_the_numbers() {
    let values = samples();
    for a in values.iter() {
        for b in values.iter() {
            assert_eq!(fig(*a).abs_at_least(fig(*b)), a.abs() >= *b, "{} {}", a, b);
        }
    }
}

#[test]
fn what_is_not_a_number_fails_every_comparison() {
    let nan = fig(f64::NAN);
    let negative_nan = Figure::from_bits(f64::NAN.to_bits() | SIGN_BIT);
    assert!(nan.is_nan());
    assert!(negative_nan.is_nan());
    assert!(!nan.is_positive());
    assert!(!nan.is_negative());
    assert!(!negative_nan.is_positive());
    assert!(!negative_nan.is_negative());
    assert!(!nan.is_zero());
    assert!(!nan.abs_at_least(fig(1.0)));
    assert!(!nan.abs_at_least(fig(-1.0)));
    assert!(!fig(1.0).abs_at_least(nan));
    assert!(!fig(1.0).abs_at_least(negative_nan));
}
