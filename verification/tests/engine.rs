use nalgebra::UnitQuaternion;
use pilotrs::atmosphere::{AtmosphereConfig, StormCell};
use pilotrs::config::EstimatorKind;
use pilotrs::engine::{
    counted_time, limit_speed, telemetry_due, Command, Effect, FixedMove, LatestCell, LoggingCfg,
    Readings, RunMode, RunReport, Snapshot, Worker,
};
use pilotrs::faults::QuadFaults;
use pilotrs::guidance::{GuidanceConfig, Waypoint};
use pilotrs::messages::{EstState, Quat, Setpoint, State13, Vec3};
use pilotrs::number::Real;
use pilotrs::scheduler::{Periods, Sim, SimSetup, StepResult};

fn r(x: f64) -> Real {
    Real::from_bits(x.to_bits())
}

fn f(x: Real) -> f64 {
    f64::from_bits(x.to_bits())
}

fn v3(x: f64, y: f64, z: f64) -> Vec3 {
    Vec3::new(r(x), r(y), r(z))
}

fn setup(estimator_kind: EstimatorKind) -> SimSetup {
    SimSetup {
        dt: r(0.001),
        periods: Periods { imu: 1, mag: 20, baro: 40, gps: 200, control: 4 },
        estimator_kind,
        hover: r(4.9),
        atmosphere: AtmosphereConfig::calm(),
    }
}

/// A step of an aircraft that climbs at 1 m/s.
fn step(sim: &mut Sim) {
    let t = (sim.tick() + 1) as f64 * 0.001;
    let mut truth = *sim.truth();
    truth.position.z = r(f(truth.position.z) - 0.001);
    let res = StepResult {
        truth,
        estimate: EstState::at_rest(),
        motors: [r(1.2); 4],
        true_gyro_bias: v3(0.01, 0.0, 0.0),
        est_gyro_bias: None,
    };
    sim.finish_step(r(t), res);
}

fn readings(w: &Worker) -> Readings {
    Readings {
        t: r(w.sim.tick() as f64 * 0.001),
        estimate: EstState::at_rest(),
        true_gyro_bias: v3(0.01, 0.0, 0.0),
        est_gyro_bias: None,
        wind_speed: r(0.0),
        gust: r(0.0),
    }
}

fn realtime(kind: EstimatorKind) -> Worker {
    Worker::new(setup(kind), RunMode::Realtime { speed: r(1.0) }, LoggingCfg::default())
}

/// A round of a run by the clock in which `seconds` have passed.
fn round(w: &mut Worker, seconds: f64) -> Snapshot {
    let counted = f(counted_time(r(seconds)));
    let due = (counted * f(w.speed()) / f(w.dt())) as u64;
    for _ in 0..w.realtime_steps(due) {
        step(&mut w.sim);
    }
    let seen = readings(w);
    w.publish(&seen)
}

#[test]
fn command_round_trip_setpoint() {
    let mut w = realtime(EstimatorKind::Complementary);
    let q = UnitQuaternion::from_euler_angles(0.1, -0.05, 0.2);
    let sp = Setpoint {
        attitude: Quat { w: r(q.w), i: r(q.i), j: r(q.j), k: r(q.k) },
        thrust: r(5.0),
    };
    assert_eq!(w.handle(Command::SetSetpoint(sp)), Effect::Nothing);
    assert_eq!(round(&mut w, 0.01).setpoint, sp, "setpoint command not reflected in snapshot");
}

#[test]
fn snapshot_advances_then_pause_freezes_tick() {
    let mut w = realtime(EstimatorKind::Complementary);
    let s0 = round(&mut w, 0.0);
    let s1 = round(&mut w, 0.01);
    assert!(s1.tick > s0.tick, "tick did not advance");
    w.handle(Command::Pause(true));
    let a = round(&mut w, 0.05);
    let b = round(&mut w, 0.05);
    assert_eq!(a.tick, b.tick, "tick advanced while paused");
    assert!(b.seq > a.seq, "seq should advance even when paused");
    assert!(b.paused);
}

#[test]
fn engine_reset_restarts_tick() {
    let mut w = realtime(EstimatorKind::Complementary);
    while round(&mut w, 0.05).tick <= 100 {}
    w.handle(Command::Record(true));
    let effect = w.handle(Command::Reset(setup(EstimatorKind::Complementary)));
    assert_eq!(effect, Effect::Rebuild);
    let s = round(&mut w, 0.0);
    assert!(s.tick < 100, "tick did not reset");
    assert!(!s.recording && !s.paused);
    assert_eq!(s.truth, State13::at_rest());
}

#[test]
fn mission_rejected_without_ins() {
    let mut w = realtime(EstimatorKind::Mekf);
    w.handle(Command::SetMission {
        waypoints: vec![Waypoint::new(v3(1.0, 0.0, -2.0), r(0.0))],
        guidance: GuidanceConfig::default(),
    });
    assert_eq!(round(&mut w, 0.1).waypoint_index, None, "mission accepted without INS");
    assert_eq!(w.report().rejected_missions, 1);
    // With the INS it is flown, and holding the attitude ends it.
    let mut w = realtime(EstimatorKind::Ins);
    w.handle(Command::SetMission {
        waypoints: vec![Waypoint::new(v3(1.0, 0.0, -2.0), r(0.0))],
        guidance: GuidanceConfig::default(),
    });
    assert_eq!(round(&mut w, 0.1).waypoint_index, Some(0));
    w.handle(Command::SetAttitudeMode);
    assert_eq!(round(&mut w, 0.1).waypoint_index, None);
    assert_eq!(w.report().rejected_missions, 0);
}

#[test]
fn engine_speed_zero_does_not_advance() {
    let mut w = realtime(EstimatorKind::Complementary);
    w.handle(Command::SetSpeed(r(0.0)));
    let a = round(&mut w, 0.05);
    let b = round(&mut w, 0.08);
    assert_eq!(a.tick, b.tick, "advanced at speed 0");
    assert!(b.seq > a.seq, "seq should still advance (no spin starvation)");
}

#[test]
fn engine_fixedsteps_matches_run_headless() {
    let total = 4000u64;
    let mut inline = Sim::new(setup(EstimatorKind::Mekf));
    inline.set_logging(10, None);
    for _ in 0..total {
        step(&mut inline);
    }
    let want = inline.telemetry().samples.clone();

    let mut w = Worker::new(
        setup(EstimatorKind::Mekf),
        RunMode::FixedSteps { total },
        LoggingCfg { log_every: 10, cap: None },
    );
    let mut done = 0u64;
    loop {
        match w.fixed_move(done, total) {
            FixedMove::Steps(n) => {
                assert!(n <= 50);
                for _ in 0..n {
                    step(&mut w.sim);
                }
                done += n;
            }
            FixedMove::Wait => panic!("not paused"),
            FixedMove::Finished => break,
        }
    }
    let got = &w.sim.telemetry().samples;
    assert_eq!(got.len(), want.len(), "sample count differs");
    for (a, b) in got.iter().zip(&want) {
        assert_eq!(a, b, "fixed-step run diverged from the plain one");
    }
    assert_eq!(
        w.report(),
        RunReport { steps_taken: total, final_tick: total, rejected_missions: 0 }
    );
}

#[test]
fn fixed_run_waits_while_paused() {
    let mut w = Worker::new(
        setup(EstimatorKind::Ins),
        RunMode::FixedSteps { total: 70 },
        LoggingCfg::default(),
    );
    assert_eq!(w.fixed_move(0, 70), FixedMove::Steps(50));
    assert_eq!(w.fixed_move(50, 70), FixedMove::Steps(20));
    w.handle(Command::Pause(true));
    assert_eq!(w.fixed_move(50, 70), FixedMove::Wait);
    assert_eq!(w.fixed_move(70, 70), FixedMove::Finished);
    w.handle(Command::Pause(false));
    assert_eq!(w.fixed_move(20, 70), FixedMove::Steps(50));
    assert_eq!(f(w.speed()), 1.0);
}

#[test]
fn catching_up_is_limited() {
    let w = realtime(EstimatorKind::Ins);
    assert_eq!(w.realtime_steps(249), 249);
    assert_eq!(w.realtime_steps(250), 250);
    assert_eq!(w.realtime_steps(100_000), 250);
    assert_eq!(f(counted_time(r(3.0))), 0.25);
    assert_eq!(f(counted_time(r(0.1))), 0.1);
    assert_eq!(f(limit_speed(r(100.0))), 16.0);
    assert_eq!(f(limit_speed(r(-1.0))), 0.0);
    assert_eq!(f(limit_speed(r(2.5))), 2.5);
    assert!(!telemetry_due(49));
    assert!(telemetry_due(50));
}

#[test]
fn recording_lifts_the_cap() {
    let mut w = Worker::new(
        setup(EstimatorKind::Ins),
        RunMode::Realtime { speed: r(1.0) },
        LoggingCfg { log_every: 1, cap: Some(5) },
    );
    round(&mut w, 0.02);
    assert_eq!(w.sim.telemetry().len(), 5);
    w.handle(Command::Record(true));
    round(&mut w, 0.02);
    assert_eq!(w.sim.telemetry().len(), 25);
    assert_eq!(w.handle(Command::SaveRecording), Effect::Save);
    // Saying that nothing more need be kept does not throw anything away.
    w.handle(Command::Record(false));
    let s = round(&mut w, 0.001);
    assert!(!s.recording);
    assert_eq!(w.sim.telemetry().len(), 26);
    assert_eq!(w.handle(Command::Shutdown), Effect::Stop);
}

#[test]
fn weather_and_faults_are_passed_on() {
    let mut w = realtime(EstimatorKind::Ins);
    w.handle(Command::SetWind(v3(1.0, 2.0, 3.0)));
    w.handle(Command::SetTurbulence(r(1.5)));
    w.handle(Command::SetStorm(Some(StormCell::microburst((r(0.0), r(0.0))))));
    w.handle(Command::SetFaults(QuadFaults { dead_rotor: Some(3) }));
    let c = w.sim.atmosphere().config();
    assert_eq!(c.wind_ned, v3(1.0, 2.0, 3.0));
    assert_eq!(f(c.turbulence), 1.5);
    assert!(c.storm.is_some());
    assert!(w.sim.faulted());
    w.handle(Command::SetStorm(None));
    assert!(w.sim.atmosphere().config().storm.is_none());
}

#[test]
fn snapshot_of_a_sample() {
    let mut sim = Sim::new(setup(EstimatorKind::Ins));
    step(&mut sim);
    let mut s = sim.telemetry().samples[0];
    let v = Snapshot::from_telemetry_sample(&s);
    assert_eq!((v.t, v.truth, v.motors), (s.t, s.truth, s.motors));
    assert_eq!((v.tick, v.seq, v.waypoint_index, v.paused), (0, 0, None, false));
    assert!(!v.has_bias);
    s.est_gyro_bias = v3(0.0, 0.0, 0.5);
    assert!(Snapshot::from_telemetry_sample(&s).has_bias);
    s.est_gyro_bias = v3(0.0, -0.0, 0.0);
    assert!(!Snapshot::from_telemetry_sample(&s).has_bias);
}

#[test]
fn snapshot_of_a_simulation() {
    let mut w = realtime(EstimatorKind::Mekf);
    step(&mut w.sim);
    let mut seen = readings(&w);
    seen.est_gyro_bias = Some(v3(0.1, 0.2, 0.3));
    seen.wind_speed = r(4.0);
    seen.gust = r(0.5);
    let s = w.publish(&seen);
    assert_eq!((s.tick, s.seq, s.has_bias), (1, 1, true));
    assert_eq!(s.est_gyro_bias, v3(0.1, 0.2, 0.3));
    assert_eq!((f(s.wind_speed), f(s.gust), f(s.storm)), (4.0, 0.5, 0.0));
    assert_eq!(f(s.truth.position.z), -0.001);
    let seen = readings(&w);
    let s = w.publish(&seen);
    assert_eq!((s.seq, s.has_bias), (2, false));
    assert_eq!(s.est_gyro_bias, v3(0.0, 0.0, 0.0));
}

#[test]
fn latest_value_wins() {
    let mut c = LatestCell::new(1u32);
    assert_eq!(c.load(), 1);
    c.publish(2);
    c.publish(3);
    assert_eq!(c.load(), 3);
    assert_eq!(c.load(), 3);
}

#[test]
fn default_logging() {
    let l = LoggingCfg::default();
    assert_eq!((l.log_every, l.cap), (5, Some(4000)));
    assert_eq!(
        RunReport::empty(),
        RunReport { steps_taken: 0, final_tick: 0, rejected_missions: 0 }
    );
}
