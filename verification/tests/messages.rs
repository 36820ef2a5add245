use pilotrs::messages::{
    ControlLimits, EstState, FixedWingControls, Quat, Setpoint, State13, StateDeriv, StickInput,
    Vec3, STATE_DIM,
};
use pilotrs::number::Real;

fn r(x: f64) -> Real {
    Real::from_bits(x.to_bits())
}

fn f(x: Real) -> f64 {
    f64::from_bits(x.to_bits())
}

fn v3(x: f64, y: f64, z: f64) -> Vec3 {
    Vec3::new(r(x), r(y), r(z))
}

fn euler(roll: f64, pitch: f64, yaw: f64) -> Quat {
    let (sr, cr) = (roll * 0.5).sin_cos();
    let (sp, cp) = (pitch * 0.5).sin_cos();
    let (sy, cy) = (yaw * 0.5).sin_cos();
    Quat {
        w: r(cr * cp * cy + sr * sp * sy),
        i: r(sr * cp * cy - cr * sp * sy),
        j: r(cr * sp * cy + sr * cp * sy),
        k: r(cr * cp * sy - sr * sp * cy),
    }
}

/// The quaternion in a packed state, normalized.
fn normalized(v: &[Real; 13]) -> Quat {
    let q = [f(v[6]), f(v[7]), f(v[8]), f(v[9])];
    let n = q.iter().map(|x| x * x).sum::<f64>().sqrt();
    Quat { w: r(q[0] / n), i: r(q[1] / n), j: r(q[2] / n), k: r(q[3] / n) }
}

#[test]
fn pack_unpack_round_trips() {
    let s = State13 {
        position: v3(1.0, -2.0, 3.0),
        velocity: v3(-0.5, 0.25, 10.0),
        attitude: euler(0.1, -0.2, 0.3),
        angular_rate: v3(0.01, -0.02, 0.03),
    };
    let v = s.to_vector();
    let back = State13::from_vector(&v, normalized(&v));
    assert_eq!(back.position, s.position);
    assert_eq!(back.velocity, s.velocity);
    assert_eq!(back.angular_rate, s.angular_rate);
    let (a, b) = (back.attitude, s.attitude);
    let dot = f(a.w) * f(b.w) + f(a.i) * f(b.i) + f(a.j) * f(b.j) + f(a.k) * f(b.k);
    assert!((1.0 - dot.abs()).abs() < 1e-15);
    assert_eq!(State13::from_vector(&v, s.attitude), s);
}

#[test]
fn from_vector_renormalizes() {
    // A deliberately non-unit quaternion in the packed vector.
    let mut v = State13::at_rest().to_vector();
    v[6] = r(2.0); // qw = 2
    let s = State13::from_vector(&v, normalized(&v));
    let q = s.attitude;
    let n = f(q.w) * f(q.w) + f(q.i) * f(q.i) + f(q.j) * f(q.j) + f(q.k) * f(q.k);
    assert!((n.sqrt() - 1.0).abs() < 1e-12);
    assert_eq!(v.len(), STATE_DIM);
}

#[test]
fn derivative_packs_in_the_same_order() {
    let d = StateDeriv {
        d_position: v3(1.0, 2.0, 3.0),
        d_velocity: v3(4.0, 5.0, 6.0),
        d_attitude: Quat { w: r(7.0), i: r(8.0), j: r(9.0), k: r(10.0) },
        d_angular_rate: v3(11.0, 12.0, 13.0),
    };
    let got: Vec<f64> = d.to_vector().iter().map(|x| f(*x)).collect();
    assert_eq!(got, (1..=13).map(|i| i as f64).collect::<Vec<f64>>());
}

#[test]
fn resting_values() {
    let s = State13::default();
    assert_eq!(s, State13::at_rest());
    assert_eq!(s.position, Vec3::zeros());
    assert_eq!(s.attitude, Quat::identity());
    assert_eq!(f(s.attitude.w), 1.0);
    assert_eq!(EstState::at_rest().attitude, Quat::identity());
    assert_eq!(EstState::at_rest().velocity, v3(0.0, 0.0, 0.0));
    let sp = Setpoint::level(r(4.9));
    assert_eq!((sp.attitude, f(sp.thrust)), (Quat::identity(), 4.9));
    assert_eq!(FixedWingControls::zero().throttle, r(0.0));
}

#[test]
fn controls_are_limited() {
    let lim = ControlLimits { surface_max: r(0.4), throttle: (r(0.1), r(0.9)) };
    let c = FixedWingControls {
        aileron: r(0.5),
        elevator: r(-0.5),
        rudder: r(0.2),
        throttle: r(0.0),
    };
    let once = c.clamp(&lim);
    assert_eq!(
        (f(once.aileron), f(once.elevator), f(once.rudder), f(once.throttle)),
        (0.4, -0.4, 0.2, 0.1)
    );
    assert_eq!(once.clamp(&lim), once);
    let nan = FixedWingControls { aileron: r(f64::NAN), ..c }.clamp(&lim);
    assert!(f(nan.aileron).is_nan());
}

#[test]
fn stick_is_limited() {
    let s = StickInput { pitch: r(2.0), roll: r(-3.0), yaw: r(0.5), throttle: r(-0.1) };
    let c = s.clamped();
    assert_eq!((f(c.pitch), f(c.roll), f(c.yaw), f(c.throttle)), (1.0, -1.0, 0.5, 0.0));
    assert_eq!(c.clamped(), c);
    assert_eq!(StickInput::neutral().clamped(), StickInput::neutral());
}
