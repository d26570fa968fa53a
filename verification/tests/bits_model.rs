//! The bit-pattern model against hardware doubles: ordering, finiteness
//! and sign read off the bits must agree with the machine's own notion.

use diffevo::bits::{le_bits, lt_bits, is_finite, is_zero, sign_of, apply_sign, Sign};

fn samples() -> Vec<f64> {
    vec![
        0.0,
        -0.0,
        1.0,
        -1.0,
        0.5,
        -0.5,
        1.5,
        1e300,
        -1e300,
        1e-310,
        -1e-310,
        f64::MAX,
        f64::MIN,
        f64::MIN_POSITIVE,
        3.25,
        -7.75,
    ]
}

#[test]
fn ordering_matches_hardware() {
    let xs = samples();
    for &a in xs.iter() {
        for &b in xs.iter() {
            assert_eq!(le_bits(a.to_bits(), b.to_bits()), a <= b, "le {a} {b}");
            assert_eq!(lt_bits(a.to_bits(), b.to_bits()), a < b, "lt {a} {b}");
        }
    }
}

#[test]
fn finiteness_matches_hardware() {
    for &a in samples().iter() {
        assert_eq!(is_finite(a.to_bits()), a.is_finite());
    }
    assert!(!is_finite(f64::INFINITY.to_bits()));
    assert!(!is_finite(f64::NEG_INFINITY.to_bits()));
    assert!(!is_finite(f64::NAN.to_bits()));
    assert!(is_finite(0.0f64.to_bits()));
}

#[test]
fn zero_of_either_sign() {
    assert!(is_zero(0.0f64.to_bits()));
    assert!(is_zero((-0.0f64).to_bits()));
    assert!(!is_zero(1e-310f64.to_bits()));
    assert!(!is_zero(1.0f64.to_bits()));
}

#[test]
fn both_zeros_compare_equal() {
    let pz = 0.0f64.to_bits();
    let nz = (-0.0f64).to_bits();
    assert!(le_bits(pz, nz));
    assert!(le_bits(nz, pz));
    assert!(!lt_bits(pz, nz));
    assert!(!lt_bits(nz, pz));
}

#[test]
fn sign_reading() {
    assert_eq!(sign_of(3.0f64.to_bits()), Sign::Pos);
    assert_eq!(sign_of((-3.0f64).to_bits()), Sign::Neg);
    assert_eq!(sign_of(0.0f64.to_bits()), Sign::Zero);
    assert_eq!(sign_of((-0.0f64).to_bits()), Sign::Zero);
}

#[test]
fn sign_application_is_exact_negation() {
    let v = 2.75f64;
    assert_eq!(apply_sign(v.to_bits(), Sign::Pos), v.to_bits());
    assert_eq!(apply_sign(v.to_bits(), Sign::Neg), (-v).to_bits());
    assert_eq!(apply_sign(v.to_bits(), Sign::Zero), 0.0f64.to_bits());
}
