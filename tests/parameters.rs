use vangenuchten::binary64::{finite, less_or_equal, less_than, nan, normal, subnormal};
use vangenuchten::errors::InvalidParam;
use vangenuchten::models::vg::{Alpha, Theta, N};
use vangenuchten::models::vgm::{KSat, L};
use vangenuchten::traits::RestrictedParameter;

fn b(x: f64) -> u64 {
    x.to_bits()
}

const SAMPLES: [f64; 14] = [
    0.0,
    -0.0,
    1.0,
    -1.0,
    0.5,
    1479.5945,
    f64::MIN_POSITIVE,
    f64::MIN_POSITIVE / 2.0,
    -f64::MIN_POSITIVE / 4.0,
    f64::MAX,
    f64::INFINITY,
    f64::NEG_INFINITY,
    f64::NAN,
    -2.68,
];

#[test]
fn classification_agrees_with_hardware() {
    for x in SAMPLES {
        assert_eq!(nan(b(x)), x.is_nan(), "{x}");
        assert_eq!(finite(b(x)), x.is_finite(), "{x}");
        assert_eq!(normal(b(x)), x.is_normal(), "{x}");
        assert_eq!(subnormal(b(x)), x.is_subnormal(), "{x}");
    }
}

#[test]
fn comparison_agrees_with_hardware() {
    for x in SAMPLES {
        for y in SAMPLES {
            assert_eq!(less_than(b(x), b(y)), x < y, "{x} < {y}");
            assert_eq!(less_or_equal(b(x), b(y)), x <= y, "{x} <= {y}");
        }
    }
}

#[test]
fn signed_zeros_compare_equal() {
    assert!(!less_than(b(-0.0), b(0.0)));
    assert!(less_or_equal(b(0.0), b(-0.0)));
}

#[test]
fn alpha_zero_is_rejected_with_its_value() {
    assert_eq!(Alpha::try_new(b(0.0)), Err(InvalidParam::BadVgAlpha(b(0.0))));
}

#[test]
fn alpha_rejects_non_normal_and_negative() {
    for x in [-1.0, f64::MIN_POSITIVE / 2.0, f64::INFINITY, f64::NAN, -0.0] {
        assert_eq!(Alpha::try_new(b(x)), Err(InvalidParam::BadVgAlpha(b(x))));
    }
}

#[test]
fn alpha_keeps_value_unchanged() {
    let a = Alpha::try_new(b(1479.5945)).unwrap();
    assert_eq!(a.get(), b(1479.5945));
    assert_eq!(Alpha::try_new(b(f64::MIN_POSITIVE)).unwrap().get(), b(f64::MIN_POSITIVE));
}

#[test]
fn n_of_one_is_rejected() {
    assert_eq!(N::try_new(b(1.0)), Err(InvalidParam::BadVgN(b(1.0))));
}

#[test]
fn n_just_above_one_is_accepted() {
    let x = 1.0 + f64::EPSILON;
    assert_eq!(N::try_new(b(x)).unwrap().get(), b(x));
    assert_eq!(N::try_new(b(2.68)).unwrap().get(), b(2.68));
}

#[test]
fn n_rejects_infinity_and_nan() {
    for x in [f64::INFINITY, f64::NAN, 0.5, -3.0] {
        assert_eq!(N::try_new(b(x)), Err(InvalidParam::BadVgN(b(x))));
    }
}

#[test]
fn theta_accepts_closed_unit_interval() {
    for x in [0.0, -0.0, 1.0, 0.43, 0.045, f64::MIN_POSITIVE] {
        assert_eq!(Theta::try_new(b(x)).unwrap().get(), b(x));
    }
}

#[test]
fn theta_rejects_outside_values() {
    for x in [1.0 + f64::EPSILON, -0.01, f64::MIN_POSITIVE / 2.0, f64::NAN, f64::INFINITY] {
        assert_eq!(Theta::try_new(b(x)), Err(InvalidParam::BadVgTheta(b(x))));
    }
}

#[test]
fn ksat_accepts_zero_and_finite_positive() {
    for x in [0.0, -0.0, 0.5, 29.7, f64::MAX] {
        assert_eq!(KSat::try_new(b(x)).unwrap().get(), b(x));
    }
}

#[test]
fn ksat_rejects_negative_infinite_subnormal_nan() {
    for x in [-1.0, f64::INFINITY, f64::MIN_POSITIVE / 2.0, f64::NAN] {
        assert_eq!(KSat::try_new(b(x)), Err(InvalidParam::BadVgMKSat(b(x))));
    }
}

#[test]
fn l_accepts_everything() {
    for x in SAMPLES {
        assert_eq!(L::try_new(b(x)).unwrap().get(), b(x));
        assert!(L::is_valid(b(x)));
    }
}

#[test]
fn is_valid_matches_try_new() {
    for x in SAMPLES {
        assert_eq!(Alpha::is_valid(b(x)), Alpha::try_new(b(x)).is_ok());
        assert_eq!(N::is_valid(b(x)), N::try_new(b(x)).is_ok());
        assert_eq!(Theta::is_valid(b(x)), Theta::try_new(b(x)).is_ok());
        assert_eq!(KSat::is_valid(b(x)), KSat::try_new(b(x)).is_ok());
    }
}

#[test]
fn defaults_are_the_sand_values() {
    assert_eq!(Alpha::default().get(), b(1479.5945));
    assert_eq!(N::default().get(), b(2.68));
    assert_eq!(Theta::default().get(), b(0.43));
    assert_eq!(KSat::default().get(), b(0.5));
    assert_eq!(L::default().get(), b(0.5));
}
