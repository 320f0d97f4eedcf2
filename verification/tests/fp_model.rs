use fina::fp;

fn samples() -> Vec<f64> {
    vec![
        0.0,
        -0.0,
        1.0,
        -1.0,
        0.5,
        -0.5,
        2.0,
        -2.0,
        1e300,
        -1e300,
        1e-300,
        -1e-300,
        5e-324,
        -5e-324,
        f64::EPSILON,
        -f64::EPSILON,
        f64::MAX,
        f64::MIN,
        f64::INFINITY,
        f64::NEG_INFINITY,
        f64::NAN,
        -f64::NAN,
        500.0,
        -500.0,
    ]
}

#[test]
fn named_encodings_match_std() {
    assert_eq!(fp::POS_ZERO_BITS, 0.0f64.to_bits());
    assert_eq!(fp::NEG_ZERO_BITS, (-0.0f64).to_bits());
    assert_eq!(fp::ONE_BITS, 1.0f64.to_bits());
    assert_eq!(fp::POS_INF_BITS, f64::INFINITY.to_bits());
    assert_eq!(fp::NEG_INF_BITS, f64::NEG_INFINITY.to_bits());
    assert_eq!(fp::EPSILON_BITS, f64::EPSILON.to_bits());
}

#[test]
fn classification_matches_std() {
    for &x in &samples() {
        assert_eq!(fp::nan(x.to_bits()), x.is_nan(), "nan({x})");
        assert_eq!(fp::zero(x.to_bits()), x == 0.0 || x == -0.0, "zero({x})");
    }
    assert!(fp::nan(f64::NAN.to_bits()));
    assert!(!fp::nan(f64::INFINITY.to_bits()));
}

#[test]
fn abs_matches_std() {
    for &x in &samples() {
        let r = f64::from_bits(fp::abs_bits(x.to_bits()));
        if x.is_nan() {
            assert!(r.is_nan());
        } else {
            assert_eq!(r, x.abs(), "abs({x})");
        }
    }
}

#[test]
fn comparisons_match_ieee() {
    for &a in &samples() {
        for &b in &samples() {
            let (ab, bb) = (a.to_bits(), b.to_bits());
            assert_eq!(fp::lt(ab, bb), a < b, "lt({a}, {b})");
            assert_eq!(fp::le(ab, bb), a <= b, "le({a}, {b})");
            assert_eq!(fp::eq_val(ab, bb), a == b, "eq({a}, {b})");
        }
    }
}

#[test]
fn max_min_match_std() {
    for &a in &samples() {
        for &b in &samples() {
            // The sign of a zero result is left open by std's max and min,
            // so zeros of opposite sign are compared by value elsewhere.
            if (a == 0.0 && b == 0.0) && a.to_bits() != b.to_bits() {
                continue;
            }
            let mx = f64::from_bits(fp::max2(a.to_bits(), b.to_bits()));
            let mn = f64::from_bits(fp::min2(a.to_bits(), b.to_bits()));
            if a.is_nan() && b.is_nan() {
                assert!(mx.is_nan() && mn.is_nan());
            } else {
                assert_eq!(mx, a.max(b), "max({a}, {b})");
                assert_eq!(mn, a.min(b), "min({a}, {b})");
            }
        }
    }
}

// A small linear-congruential walk over arbitrary encodings — NaNs,
// subnormals and infinities included — so the agreement with std is not an
// artifact of hand-picked samples.
fn walk(state: &mut u64) -> u64 {
    *state = state.wrapping_mul(6364136223846793005).wrapping_add(1442695040888963407);
    *state
}

#[test]
fn comparisons_match_ieee_on_arbitrary_encodings() {
    let mut state: u64 = 0x9E37_79B9_7F4A_7C15;
    for _ in 0..20000 {
        let ab = walk(&mut state);
        let bb = walk(&mut state);
        let (a, b) = (f64::from_bits(ab), f64::from_bits(bb));
        assert_eq!(fp::lt(ab, bb), a < b, "lt({a}, {b})");
        assert_eq!(fp::le(ab, bb), a <= b, "le({a}, {b})");
        assert_eq!(fp::eq_val(ab, bb), a == b, "eq({a}, {b})");
        assert_eq!(fp::nan(ab), a.is_nan(), "nan({a})");
        let mx = f64::from_bits(fp::max2(ab, bb));
        let mn = f64::from_bits(fp::min2(ab, bb));
        if a.is_nan() && b.is_nan() {
            assert!(mx.is_nan() && mn.is_nan());
        } else {
            assert_eq!(mx, a.max(b), "max({a}, {b})");
            assert_eq!(mn, a.min(b), "min({a}, {b})");
        }
    }
}

#[test]
fn max_min_of_opposite_zeros_are_zero() {
    let z = f64::from_bits(fp::max2(0.0f64.to_bits(), (-0.0f64).to_bits()));
    assert_eq!(z, 0.0);
    let z = f64::from_bits(fp::min2((-0.0f64).to_bits(), 0.0f64.to_bits()));
    assert_eq!(z, 0.0);
}
