use pilotrs::aiding::{
    accel_counts, covariance_at_fix, field_counts, field_fades, initial_covariance, passes_gate,
    passes_scalar_gate, skew, FixState, FixUse, INS_DIM,
};
use pilotrs::messages::Vec3;
use pilotrs::number::Real;

fn r(x: f64) -> Real {
    Real::from_bits(x.to_bits())
}

fn f(x: Real) -> f64 {
    f64::from_bits(x.to_bits())
}

#[test]
fn accelerometer_counts_near_gravity_only() {
    let g = 9.80665_f64;
    let counts = |a: f64| accel_counts(r(a), r((a - g).abs() / g), r(0.15));
    assert!(counts(g));
    assert!(counts(g * 1.14));
    assert!(!counts(g * 1.16));
    assert!(!counts(0.0));
    assert!(!accel_counts(r(1e-6), r(0.0), r(0.15)));
    assert!(!accel_counts(r(g), r(f64::NAN), r(0.15)));
}

#[test]
fn weak_fields_have_no_direction() {
    assert!(field_counts(r(1.0)));
    assert!(!field_counts(r(1e-9)));
    assert!(!field_fades(r(1e-9)));
    assert!(field_fades(r(0.0)));
    assert!(!field_counts(r(f64::NAN)));
    assert!(!field_fades(r(f64::NAN)));
}

#[test]
fn gates_turn_outliers_away() {
    let chi2 = r(11.34);
    assert!(passes_gate(Some(r(0.0)), chi2));
    assert!(passes_gate(Some(r(11.34)), chi2));
    assert!(!passes_gate(Some(r(11.35)), chi2));
    assert!(!passes_gate(Some(r(f64::INFINITY)), chi2));
    assert!(!passes_gate(None, chi2));
    assert!(passes_scalar_gate(r(0.64), r(6.63), r(6.63)));
    assert!(!passes_scalar_gate(r(0.64), r(6.64), r(6.63)));
    assert!(!passes_scalar_gate(r(0.0), r(0.0), r(6.63)));
    assert!(!passes_scalar_gate(r(-1.0), r(0.0), r(6.63)));
}

#[test]
fn first_fix_is_adopted_and_later_ones_aid() {
    let mut fix = FixState::new();
    assert_eq!(fix.update_gps(), FixUse::Adopt);
    for _ in 0..3 {
        assert_eq!(fix.update_gps(), FixUse::Aid);
    }
    assert!(fix.have_fix);
}

#[test]
fn estimator_starts_with_a_diagonal() {
    let stds = [5.0_f64, 0.5, 0.18, 0.1, 0.05];
    let cov = initial_covariance(&stds.iter().map(|s| r(s * s)).collect());
    assert_eq!(cov.len(), INS_DIM * INS_DIM);
    for i in 0..INS_DIM {
        for j in 0..INS_DIM {
            let want = if i == j { stds[i / 3] * stds[i / 3] } else { 0.0 };
            assert_eq!(f(cov[i * INS_DIM + j]), want);
        }
    }
    assert_eq!(initial_covariance(&vec![]).len(), 0);
    assert_eq!(initial_covariance(&vec![r(2.0), r(3.0)]).len(), 36);
}

#[test]
fn fix_forgets_what_motion_was_related_to() {
    let before: Vec<Real> =
        (0..225).map(|k| r(1.0 + ((k / 15) * (k % 15)) as f64 + (k / 15 + k % 15) as f64)).collect();
    let after = covariance_at_fix(&before, r(9.0), r(0.0625));
    for i in 0..INS_DIM {
        for j in 0..INS_DIM {
            let k = i * INS_DIM + j;
            let want = if i >= 6 && j >= 6 {
                f(before[k])
            } else if i != j {
                0.0
            } else if i < 3 {
                9.0
            } else {
                0.0625
            };
            assert_eq!(f(after[k]), want);
            assert_eq!(after[k], after[j * INS_DIM + i]);
        }
    }
}

#[test]
fn skew_matrix_is_a_cross_product() {
    let v = Vec3::new(r(1.0), r(2.0), r(3.0));
    let m = skew(v).map(f);
    assert_eq!(m, [0.0, -3.0, 2.0, 3.0, 0.0, -1.0, -2.0, 1.0, 0.0]);
    let w = [4.0, 5.0, 6.0];
    let product: Vec<f64> =
        (0..3).map(|i| (0..3).map(|j| m[3 * i + j] * w[j]).sum()).collect();
    assert_eq!(product, vec![2.0 * 6.0 - 3.0 * 5.0, 3.0 * 4.0 - 6.0, 5.0 - 2.0 * 4.0]);
}
