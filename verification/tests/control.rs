use nalgebra::{Matrix4, Vector4};
use pilotrs::control::{
    cuts_tilt, limit_vector, limit_vertical, saturate, short_way, shortens, MotorModel, Pid,
    XQuadMixer,
};
use pilotrs::messages::{Quat, Vec3};
use pilotrs::number::Real;

fn r(x: f64) -> Real {
    Real::from_bits(x.to_bits())
}

fn f(x: Real) -> f64 {
    f64::from_bits(x.to_bits())
}

/// A step of a loop.
fn step(p: &mut Pid, error: f64, dt: f64) -> f64 {
    let bound = f(p.integral_limit) / f(p.ki).abs();
    p.integrate(r(f(p.integral) + error * dt), r(bound));
    let d = match p.exchange_error(r(error)) {
        Some(last) => (error - f(last)) / dt,
        None => 0.0,
    };
    f(p.limit(r(f(p.kp) * error + f(p.ki) * f(p.integral) + f(p.kd) * d)))
}

fn pid(kp: f64, ki: f64, kd: f64, il: f64, ol: f64) -> Pid {
    Pid::new(r(kp), r(ki), r(kd), r(il), r(ol))
}

#[test]
fn proportional_sign_and_magnitude() {
    let mut p = pid(2.0, 0.0, 0.0, 0.0, 100.0);
    assert!((step(&mut p, 3.0, 1e-3) - 6.0).abs() < 1e-12);
    assert!((step(&mut p, -1.5, 1e-3) + 3.0).abs() < 1e-12);
}

#[test]
fn integral_accumulates_and_winds_up_bounded() {
    // ki=1, integral term clamped to ±0.5.
    let mut p = pid(0.0, 1.0, 0.0, 0.5, 100.0);
    for _ in 0..10_000 {
        step(&mut p, 1.0, 1e-3); // constant positive error
    }
    // ki*integral must not exceed the anti-windup limit.
    assert!((step(&mut p, 1.0, 1e-3) - 0.5).abs() < 1e-6);
}

#[test]
fn a_negative_gain_does_not_wind_up_either() {
    let mut p = pid(0.0, -2.0, 0.0, 0.5, 100.0);
    assert!(p.has_integral());
    let mut out = 0.0;
    for _ in 0..1000 {
        out = step(&mut p, 1.0, 0.01);
    }
    assert!((out + 0.5).abs() < 1e-9, "out={out}");
    assert!(!pid(1.0, 0.0, 0.0, 1.0, 1.0).has_integral());
}

#[test]
fn output_is_clamped() {
    let mut p = pid(1000.0, 0.0, 0.0, 0.0, 1.0);
    assert!((step(&mut p, 5.0, 1e-3) - 1.0).abs() < 1e-12);
    assert_eq!(step(&mut p, -5.0, 1e-3), -1.0);
}

#[test]
fn first_step_has_no_derivative() {
    let mut p = pid(0.0, 1.0, 1.0, 10.0, 100.0);
    assert!(p.has_integral());
    assert_eq!(step(&mut p, 2.0, 0.5), 1.0);
    assert_eq!(step(&mut p, 3.0, 0.5), 2.5 + 2.0);
    p.reset();
    assert_eq!(p, pid(0.0, 1.0, 1.0, 10.0, 100.0));
    assert_eq!(step(&mut p, 2.0, 0.5), 1.0);
}

/// A step of the motors.
fn update(m: &mut MotorModel, command: &[f64; 4], dt: f64) -> [f64; 4] {
    let alpha = match m.lags() {
        Some(tau) => 1.0 - (-dt / f(tau)).exp(),
        None => 1.0,
    };
    let want = m.targets(&command.map(r));
    let mut now = m.thrust();
    for i in 0..4 {
        now[i] = r(f(now[i]) + (f(want[i]) - f(now[i])) * alpha);
    }
    m.update(now);
    m.thrust().map(f)
}

#[test]
fn ideal_motors_track_command_instantly() {
    let mut m = MotorModel::ideal(r(4.0));
    let out = update(&mut m, &[1.0, 2.0, 3.0, 4.0], 1e-3);
    assert_eq!(out, [1.0, 2.0, 3.0, 4.0]);
}

#[test]
fn lagged_motor_reaches_63pct_after_one_tau() {
    // Classic first-order step response: ~63.2% of the step after t = tau.
    let tau = 0.05;
    let mut m = MotorModel::new(r(tau), r(4.0));
    let dt = 1e-4;
    let steps = (tau / dt) as usize;
    for _ in 0..steps {
        update(&mut m, &[2.0; 4], dt);
    }
    let got = f(m.thrust()[0]);
    assert!((got - 2.0 * 0.632).abs() < 0.02, "got {got}");
}

#[test]
fn commands_saturate_at_max() {
    let mut m = MotorModel::ideal(r(4.0));
    let out = update(&mut m, &[10.0, -5.0, 4.0, 0.0], 1e-3);
    assert_eq!(out, [4.0, 0.0, 4.0, 0.0]);
    assert_eq!(saturate(&[r(9.0), r(0.5), r(-0.1), r(4.0)], r(4.0)).map(f), [4.0, 0.5, 0.0, 4.0]);
}

#[test]
fn rates_and_torques_are_limited_by_part() {
    let max = Vec3::new(r(10.0), r(10.0), r(5.0));
    let v = Vec3::new(r(12.0), r(-3.0), r(-7.0));
    assert_eq!(limit_vector(v, max), Vec3::new(r(10.0), r(-3.0), r(-5.0)));
    assert_eq!(limit_vector(limit_vector(v, max), max), limit_vector(v, max));
}

#[test]
fn climbing_and_sinking_have_limits_of_their_own() {
    assert_eq!(f(limit_vertical(r(-9.0), r(3.0), r(2.0))), -3.0);
    assert_eq!(f(limit_vertical(r(9.0), r(3.0), r(2.0))), 2.0);
    assert_eq!(f(limit_vertical(r(1.0), r(3.0), r(2.0))), 1.0);
}

#[test]
fn only_what_is_too_long_is_shortened() {
    assert!(shortens(r(6.0), r(5.0)));
    assert!(!shortens(r(5.0), r(5.0)));
    assert!(shortens(r(1e-9), r(0.0)));
    assert!(shortens(r(5e-10), r(0.0)));
    assert!(!shortens(r(0.0), r(0.0)));
}

#[test]
fn tilt_is_cut_about_an_axis() {
    assert_eq!(cuts_tilt(r(0.7), r(0.611), r(0.5)), (true, false));
    assert!(!cuts_tilt(r(0.5), r(0.611), r(0.5)).0);
    // Upside down there is no axis of the tilt: any horizontal one will do.
    assert_eq!(cuts_tilt(r(std::f64::consts::PI), r(0.611), r(0.0)), (true, true));
    assert_eq!(cuts_tilt(r(0.7), r(0.611), r(1e-6)), (true, true));
}

#[test]
fn rotation_goes_the_short_way_round() {
    let q = Quat { w: r(-0.5), i: r(0.5), j: r(-0.5), k: r(0.5) };
    let p = Quat { w: r(0.5), i: r(-0.5), j: r(0.5), k: r(-0.5) };
    assert_eq!(short_way(q), p);
    assert_eq!(short_way(p), p);
}

/// The mixer of the small quadrotor: arms of 0.12, yaw coefficient 0.016, 4 per motor.
fn quad_250() -> XQuadMixer {
    XQuadMixer::new(r(0.12 / 2.0_f64.sqrt()), r(0.016), r(4.0))
}

fn matrix(m: &XQuadMixer) -> Matrix4<f64> {
    Matrix4::from_row_slice(&m.allocation().map(f))
}

/// The motor thrusts for a thrust and a torque.
fn mix(m: &XQuadMixer, cmd: Vector4<f64>) -> [f64; 4] {
    let x = matrix(m).try_inverse().unwrap() * cmd;
    m.mix(&[r(x[0]), r(x[1]), r(x[2]), r(x[3])]).map(f)
}

#[test]
fn mix_then_collect_round_trips_within_limits() {
    let m = quad_250();
    // A modest, realizable command (well below saturation).
    let cmd = Vector4::new(0.5 * 9.80665, 0.02, -0.015, 0.01);
    let motors = mix(&m, cmd);
    for x in motors {
        assert!((0.0..=4.0).contains(&x));
    }
    let back = matrix(&m) * Vector4::from(motors);
    assert!((back[0] - cmd[0]).abs() < 1e-9);
    assert!((back - cmd).fixed_rows::<3>(1).norm() < 1e-9);
}

#[test]
fn pure_hover_thrust_splits_evenly() {
    let m = quad_250();
    let motors = mix(&m, Vector4::new(4.0, 0.0, 0.0, 0.0));
    for x in motors {
        assert!((x - 1.0).abs() < 1e-9);
    }
}

#[test]
fn positive_roll_command_loads_correct_side() {
    // +Mx (roll-right) should raise the left rotors (M2,M3) vs right (M0,M1).
    let m = quad_250();
    let x = mix(&m, Vector4::new(4.0, 0.05, 0.0, 0.0));
    assert!(x[2] > x[0] && x[3] > x[1]);
}

#[test]
fn motors_give_no_more_than_they_can() {
    let m = quad_250();
    assert_eq!(mix(&m, Vector4::new(40.0, 0.0, 0.0, 0.0)), [4.0; 4]);
    assert_eq!(mix(&m, Vector4::new(-1.0, 0.0, 0.0, 0.0)), [0.0; 4]);
}
