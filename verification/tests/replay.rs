use pilotrs::engine::Snapshot;
use pilotrs::fwengine::{FwReadings, FwRunMode, FwLoggingCfg, FwWorker};
use pilotrs::atmosphere::AtmosphereConfig;
use pilotrs::fixedwing::FwSimSetup;
use pilotrs::fw_guidance::FixedWingSetpoint;
use pilotrs::messages::{ControlLimits, EstState, Setpoint, State13, Vec3};
use pilotrs::number::Real;
use pilotrs::playback::{count_until, ReplayPlayer};
use pilotrs::recording::Recording;
use pilotrs::replay::{AircraftKind, ReplayState, SourceKind, ViewSnapshot};
use pilotrs::telemetry::{Telemetry, TelemetrySample};

fn r(x: f64) -> Real {
    Real::from_bits(x.to_bits())
}

fn f(x: Real) -> f64 {
    f64::from_bits(x.to_bits())
}

fn sample(t: f64) -> TelemetrySample {
    let mut truth = State13::at_rest();
    truth.position = Vec3::new(r(t * 2.0), r(0.0), r(-t));
    TelemetrySample {
        t: r(t),
        truth,
        estimate: EstState::at_rest(),
        setpoint: Setpoint::level(r(4.9)),
        motors: [r(1.0), r(2.0), r(3.0), r(4.0)],
        true_gyro_bias: Vec3::zeros(),
        est_gyro_bias: Vec3::zeros(),
    }
}

/// About a second, logged every hundredth.
fn recording() -> Recording {
    let mut t = Telemetry::new();
    for k in 0..100 {
        t.push(sample(k as f64 * 0.01));
    }
    Recording::from_telemetry(t)
}

#[test]
fn replay_advances_and_stops_at_end() {
    let rec = recording();
    let (t0, t1) = rec.span().unwrap();
    let duration = f(t1) - f(t0);
    let mut s = ReplayState::new(rec);
    assert!(s.playing);
    for _ in 0..100000 {
        let moved = r(f(s.time()) + 0.001 * f(s.speed));
        s.advance(moved);
    }
    assert!(!s.playing, "should stop at end");
    assert!((f(s.time()) - duration).abs() < 1e-9, "playhead at end");
}

#[test]
fn replay_seek_clamps_and_pauses() {
    let mut s = ReplayState::new(recording());
    let (t0, t1) = s.range();
    s.seek(r(f(t1) + 100.0));
    assert!((f(s.time()) - f(t1)).abs() < 1e-9);
    s.seek(r(f(t0) - 100.0));
    assert!((f(s.time()) - f(t0)).abs() < 1e-9);
    assert!(!s.playing, "seek pauses");
}

#[test]
fn replay_view_is_quad_and_tracks_playhead() {
    let mut s = ReplayState::new(recording());
    let none = Snapshot::from_telemetry_sample(&sample(-1.0));
    let (t0, t1) = s.range();
    s.seek(t0);
    let v0 = s.frame(&none);
    assert_eq!(v0.kind, AircraftKind::Quad);
    s.seek(t1);
    let v1 = s.frame(&none);
    assert!(f(v1.t) >= f(v0.t), "later playhead → later sample");
    assert_eq!((f(v0.t), f(v1.t)), (0.0, 0.99));
}

#[test]
fn playhead_shows_the_latest_sample() {
    let mut s = ReplayState::new(recording());
    s.seek(r(0.505));
    assert_eq!(f(s.current_quad().unwrap().t), 0.5);
    s.toggle();
    assert!(s.playing);
    s.advance(r(0.507));
    assert_eq!(f(s.time()), 0.507);
    s.toggle();
    s.advance(r(0.9));
    assert_eq!(f(s.time()), 0.507);
    assert_eq!(s.samples().len(), 100);
}

#[test]
fn an_empty_replay_shows_the_fallback() {
    let mut s = ReplayState::new(Recording::default());
    assert_eq!((f(s.range().0), f(s.range().1)), (0.0, 0.0));
    assert!(s.current_quad().is_none());
    let fallback = Snapshot::from_telemetry_sample(&sample(3.0));
    assert_eq!(s.frame(&fallback), ViewSnapshot::from_quad(&fallback));
    s.seek(r(1.0));
    assert_eq!(f(s.time()), 0.0);
    s.toggle();
    s.advance(r(0.5));
    assert!(!s.playing);
}

#[test]
fn views_show_their_aircraft() {
    let quad = Snapshot::from_telemetry_sample(&sample(1.0));
    let v = ViewSnapshot::from_quad(&quad);
    assert_eq!((f(v.t), v.kind, v.manual), (1.0, AircraftKind::Quad, false));
    assert_eq!(v.position, quad.truth.position);
    assert_eq!(v.motors, quad.motors);
    assert!(v.surfaces.is_none());
    let sp = FixedWingSetpoint { airspeed: r(25.0), altitude: r(100.0), course: r(0.0) };
    let mut w = FwWorker::new(
        FwSimSetup {
            dt: r(0.001),
            control_period: 10,
            initial: sample(2.0).truth,
            setpoint: sp,
            limits: ControlLimits { surface_max: r(0.4), throttle: (r(0.0), r(1.0)) },
            atmosphere: AtmosphereConfig::calm(),
        },
        FwRunMode::Realtime { speed: r(1.0) },
        FwLoggingCfg::default(),
    );
    w.sim.enter_manual(true);
    let snap = w.publish(&FwReadings {
        t: r(2.0),
        airspeed: r(25.0),
        altitude: r(100.0),
        course: r(0.0),
        alpha: r(0.1),
        load_factor: r(1.5),
        wind_speed: r(0.0),
        gust: r(0.0),
    });
    let v = ViewSnapshot::from_fixedwing(&snap);
    assert_eq!((v.kind, v.manual, v.fbw_on), (AircraftKind::FixedWing, true, true));
    assert_eq!((f(v.alpha), f(v.load_factor)), (0.1, 1.5));
    assert_eq!(v.motors, [r(0.0); 4]);
    assert_eq!(v.surfaces, Some(snap.controls));
    assert_eq!(v.position, sample(2.0).truth.position);
}

#[test]
fn sources_know_their_aircraft() {
    assert!(SourceKind::Replay.is_replay());
    assert!(!SourceKind::LiveQuad.is_replay() && !SourceKind::LiveFixedWing.is_replay());
    assert_eq!(SourceKind::Replay.kind(), AircraftKind::Quad);
    assert_eq!(SourceKind::LiveQuad.kind(), AircraftKind::Quad);
    assert_eq!(SourceKind::LiveFixedWing.kind(), AircraftKind::FixedWing);
}

#[test]
fn a_cut_counts_the_samples_until_then() {
    let rec = recording();
    assert_eq!(count_until(&rec.samples, r(-0.1)), 0);
    assert_eq!(count_until(&rec.samples, r(0.0)), 1);
    assert_eq!(count_until(&rec.samples, r(0.015)), 2);
    assert_eq!(count_until(&rec.samples, r(5.0)), 100);
    assert_eq!(count_until(&rec.samples, r(f64::NAN)), 0);
}

#[test]
fn a_looping_player_starts_over() {
    let rec = recording();
    let mut p = ReplayPlayer::new(&rec).with_speed(r(2.0)).looping(true);
    assert_eq!(f(p.speed()), 2.0);
    assert_eq!(p.first_two().map(|(a, b)| f(b) - f(a)), Some(0.01));
    p.advance(r(0.5), r(0.0));
    assert_eq!(f(p.time()), 0.5);
    p.advance(r(1.09), r(0.1));
    assert_eq!(f(p.time()), 0.1);
    p.seek(r(7.0));
    assert_eq!(f(p.time()), 0.99);
    p.reset();
    assert_eq!(f(p.time()), 0.0);
    assert_eq!(p.len(), 100);
    assert!(!p.is_empty());
}

#[test]
fn local_readings_depend_on_the_aircraft() {
    let quad = ViewSnapshot::from_quad(&Snapshot::from_telemetry_sample(&sample(4.0)));
    let wing = ViewSnapshot { kind: AircraftKind::FixedWing, ..quad };
    let turned = pilotrs::messages::Quat { w: r(0.0), i: r(1.0), j: r(0.0), k: r(0.0) };
    let v = Vec3::new(r(1.0), r(2.0), r(3.0));
    assert_eq!((f(quad.altitude(r(77.0))), f(wing.altitude(r(77.0)))), (4.0, 77.0));
    assert_eq!(quad.local_attitude(turned), quad.attitude);
    assert_eq!(wing.local_attitude(turned), turned);
    assert_eq!((quad.local_velocity(v), wing.local_velocity(v)), (quad.velocity, v));
    assert_eq!(f(ViewSnapshot::course(r(0.05), r(1.0), r(2.0))), 1.0);
    assert_eq!(f(ViewSnapshot::course(r(0.1), r(1.0), r(2.0))), 2.0);
}
