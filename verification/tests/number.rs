use pilotrs::number::Real;

fn r(x: f64) -> Real {
    Real::from_bits(x.to_bits())
}

fn f(x: Real) -> f64 {
    f64::from_bits(x.to_bits())
}

const VALUES: [f64; 15] = [
    0.0,
    -0.0,
    1.0,
    -1.0,
    0.1,
    -0.1,
    5e-324,
    -5e-324,
    f64::MAX,
    f64::MIN,
    f64::INFINITY,
    f64::NEG_INFINITY,
    f64::NAN,
    2.5,
    1e-6,
];

#[test]
fn order_is_that_of_numbers() {
    for a in VALUES {
        assert_eq!(r(a).is_nan(), a.is_nan());
        assert_eq!(r(a).is_finite(), a.is_finite());
        for b in VALUES {
            assert_eq!(r(a).lt(r(b)), a < b, "{a} < {b}");
            assert_eq!(r(a).le(r(b)), a <= b, "{a} <= {b}");
            assert_eq!(r(a).equals(r(b)), a == b, "{a} == {b}");
        }
    }
}

#[test]
fn picking_and_signs() {
    for a in VALUES {
        assert_eq!(f(r(a).neg()).to_bits(), (-a).to_bits());
        assert_eq!(f(r(a).abs()).to_bits(), a.abs().to_bits());
        for b in VALUES {
            // Which of two zeros is picked is open.
            if !(a == 0.0 && b == 0.0) && !(a.is_nan() && b.is_nan()) {
                assert_eq!(f(r(a).max(r(b))).to_bits(), a.max(b).to_bits(), "max {a} {b}");
                assert_eq!(f(r(a).min(r(b))).to_bits(), a.min(b).to_bits(), "min {a} {b}");
            }
            for c in VALUES {
                if b <= c {
                    assert_eq!(f(r(a).clamp(r(b), r(c))).to_bits(), a.clamp(b, c).to_bits());
                }
            }
        }
    }
}

#[test]
fn constants() {
    assert_eq!(f(Real::zero()).to_bits(), 0.0_f64.to_bits());
    assert_eq!(f(Real::one()), 1.0);
    assert_eq!(f(Real::minus_one()), -1.0);
}
