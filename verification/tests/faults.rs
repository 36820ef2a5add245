use pilotrs::faults::{CoefficientFault, Deflection, FwFaults, QuadFaults, SurfaceFault};
use pilotrs::messages::FixedWingControls;
use pilotrs::number::Real;

fn r(x: f64) -> Real {
    Real::from_bits(x.to_bits())
}

fn f(x: Real) -> f64 {
    f64::from_bits(x.to_bits())
}

/// The angle that a surface goes to.
fn angle(d: Deflection) -> f64 {
    match d {
        Deflection::Angle(a) => f(a),
        Deflection::Scaled { command, factor } => f(command) * f(factor),
    }
}

fn controls(a: f64, e: f64, ru: f64, t: f64) -> FixedWingControls {
    FixedWingControls { aileron: r(a), elevator: r(e), rudder: r(ru), throttle: r(t) }
}

/// A coefficient after damage.
fn damaged(value: f64, fault: CoefficientFault) -> f64 {
    match fault {
        CoefficientFault::Keep => value,
        CoefficientFault::Fifth => value * 0.2,
        CoefficientFault::Lost => 0.0,
    }
}

#[test]
fn surface_faults_map_the_command() {
    assert_eq!(angle(SurfaceFault::Normal.apply(r(0.3))), 0.3);
    assert_eq!(angle(SurfaceFault::Jammed(r(0.1)).apply(r(0.3))), 0.1); // ignores command
    assert_eq!(angle(SurfaceFault::Floating.apply(r(0.3))), 0.0);
    assert_eq!(angle(SurfaceFault::Degraded(r(0.5)).apply(r(0.4))), 0.2);
}

#[test]
fn engine_out_kills_throttle() {
    let mut faults = FwFaults::none();
    faults.engine_out = true;
    let c = faults.apply_controls(controls(0.1, 0.2, 0.0, 0.6));
    assert_eq!(f(c.throttle), 0.0);
    assert_eq!(angle(c.elevator), 0.2, "surfaces still work on a glide");
}

#[test]
fn tail_loss_zeros_pitch_yaw_control_and_damping() {
    let mut faults = FwFaults::none();
    faults.tail_loss = true;
    let c = faults.apply_controls(controls(0.1, 0.2, 0.3, 0.6));
    assert_eq!(angle(c.elevator), 0.0, "no elevator without a tail");
    assert_eq!(angle(c.rudder), 0.0, "no rudder without a tail");
    assert_eq!(angle(c.aileron), 0.1, "wings still have ailerons");
    assert_eq!(f(c.throttle), 0.6);

    let t = faults.apply_params();
    assert!(damaged(-38.21, t.cm_q).abs() < 38.21, "lost pitch damping");
    assert!(damaged(-0.095, t.cnr).abs() < 0.095, "lost yaw damping");
    assert_eq!(damaged(-0.99, t.cm_de), 0.0, "lost elevator authority");
    assert_eq!(damaged(-0.069, t.cn_dr), 0.0, "lost rudder authority");
    let t = FwFaults::none().apply_params();
    assert_eq!(damaged(-38.21, t.cm_q), -38.21);
    assert_eq!(damaged(-0.99, t.cm_de), -0.99);
}

#[test]
fn dead_rotor_zeros_one_motor() {
    let faults = QuadFaults { dead_rotor: Some(2) };
    let one = r(1.0);
    assert_eq!(faults.apply_motors([one; 4]), [one, one, r(0.0), one]);
    assert!(!QuadFaults::none().any());
    assert!(faults.any());
    // There is no fifth motor.
    assert_eq!(QuadFaults { dead_rotor: Some(4) }.apply_motors([one; 4]), [one; 4]);
    assert_eq!(QuadFaults::none().apply_motors([one; 4]), [one; 4]);
}

#[test]
fn degraded_factor_is_limited() {
    assert_eq!(angle(SurfaceFault::Degraded(r(2.0)).apply(r(0.4))), 0.4);
    assert_eq!(angle(SurfaceFault::Degraded(r(-1.0)).apply(r(0.4))), 0.0);
    assert!(SurfaceFault::Degraded(r(1.0)).is_faulted());
    assert!(!SurfaceFault::Normal.is_faulted());
}

#[test]
fn any_sees_every_fault() {
    assert!(!FwFaults::none().any());
    let broken = [
        FwFaults { engine_out: true, ..FwFaults::none() },
        FwFaults { tail_loss: true, ..FwFaults::none() },
        FwFaults { aileron: SurfaceFault::Floating, ..FwFaults::none() },
        FwFaults { elevator: SurfaceFault::Jammed(r(0.0)), ..FwFaults::none() },
        FwFaults { rudder: SurfaceFault::Degraded(r(0.9)), ..FwFaults::none() },
    ];
    for b in broken {
        assert!(b.any());
    }
    let c = FwFaults::none().apply_controls(controls(0.1, 0.2, 0.3, 0.4));
    assert_eq!(
        (angle(c.aileron), angle(c.elevator), angle(c.rudder), f(c.throttle)),
        (0.1, 0.2, 0.3, 0.4)
    );
}
