use pilotrs::atmosphere::{AirMove, AtmosphereConfig, StormCell, StormEffect};
use pilotrs::config::EstimatorKind;
use pilotrs::faults::QuadFaults;
use pilotrs::guidance::{GuidanceConfig, Waypoint};
use pilotrs::messages::{EstState, Quat, Setpoint, State13, Vec3};
use pilotrs::number::Real;
use pilotrs::scheduler::{push_windowed, Demand, Periods, Sim, SimSetup, Step, StepResult, Task};

fn r(x: f64) -> Real {
    Real::from_bits(x.to_bits())
}

fn f(x: Real) -> f64 {
    f64::from_bits(x.to_bits())
}

fn v3(x: f64, y: f64, z: f64) -> Vec3 {
    Vec3::new(r(x), r(y), r(z))
}

const PERIODS: Periods = Periods { imu: 1, mag: 20, baro: 40, gps: 200, control: 4 };

fn setup() -> SimSetup {
    SimSetup {
        dt: r(0.001),
        periods: PERIODS,
        estimator_kind: EstimatorKind::Ins,
        hover: r(4.9),
        atmosphere: AtmosphereConfig::calm(),
    }
}

fn still_air() -> AirMove {
    let storm = StormEffect { intensity: r(0.0), turbulence: r(0.0) };
    AirMove { time: r(0.0), storm, gust: v3(0.0, 0.0, 0.0) }
}

/// What the step came to if the aircraft is at `position`.
fn result(position: Vec3) -> StepResult {
    let mut truth = State13::at_rest();
    truth.position = position;
    let mut estimate = EstState::at_rest();
    estimate.position = position;
    StepResult {
        truth,
        estimate,
        motors: [r(1.0); 4],
        true_gyro_bias: v3(0.1, 0.2, 0.3),
        est_gyro_bias: None,
    }
}

#[test]
fn parts_run_at_their_own_rates() {
    let mut sim = Sim::new(setup());
    sim.set_logging(10, None);
    let mut count = [0u32; 9];
    for k in 0..400u64 {
        let agenda = sim.agenda();
        assert_eq!(agenda[0], Task::MoveAir);
        assert_eq!(sim.tick(), k);
        for t in &agenda {
            let i = match t {
                Task::MoveAir => 0,
                Task::PredictImu => 1,
                Task::UpdateMag => 2,
                Task::UpdateBaro => 3,
                Task::UpdateGps => 4,
                Task::Control => 5,
                Task::Actuate => 6,
                Task::Integrate => 7,
                Task::Log => 8,
            };
            count[i] += 1;
        }
        sim.finish_step(r(k as f64 * 0.001), result(v3(0.0, 0.0, 0.0)));
    }
    assert_eq!(count, [400, 400, 20, 10, 2, 100, 400, 400, 40]);
    assert_eq!(sim.telemetry().len(), 40);
}

#[test]
fn a_full_step_runs_in_order() {
    let sim = Sim::new(setup());
    assert_eq!(
        sim.agenda(),
        vec![
            Task::MoveAir,
            Task::PredictImu,
            Task::UpdateMag,
            Task::UpdateBaro,
            Task::UpdateGps,
            Task::Control,
            Task::Actuate,
            Task::Integrate,
            Task::Log,
        ]
    );
}

#[test]
fn starts_level_and_hovering() {
    let sim = Sim::new(setup());
    assert_eq!(*sim.truth(), State13::at_rest());
    assert_eq!(sim.setpoint(), Setpoint::level(r(4.9)));
    assert_eq!(sim.motors(), [r(0.0); 4]);
    assert_eq!((sim.tick(), sim.waypoint_index()), (0, None));
    assert_eq!(sim.estimator_kind(), EstimatorKind::Ins);
    assert!(!sim.faulted());
    assert!(sim.telemetry().is_empty());
}

#[test]
fn mission_is_flown_to_its_end() {
    let square = vec![
        Waypoint::new(v3(0.0, 0.0, -2.0), r(0.0)),
        Waypoint::new(v3(5.0, 0.0, -2.0), r(0.0)),
        Waypoint::new(v3(5.0, 5.0, -2.0), r(0.0)),
    ];
    let mut sim = Sim::new(setup());
    sim.set_mission(square, GuidanceConfig::default());
    assert_eq!(sim.waypoint_index(), Some(0));
    let mut p = [0.0f64; 3];
    for k in 0..5000u64 {
        for t in sim.agenda() {
            if t != Task::Control {
                continue;
            }
            let (here, next) = sim.ahead();
            let d = |w: Option<Waypoint>| match w {
                Some(w) => {
                    let q = w.position;
                    let (x, y, z) = (f(q.x) - p[0], f(q.y) - p[1], f(q.z) - p[2]);
                    r((x * x + y * y + z * z).sqrt())
                }
                None => r(0.0),
            };
            match sim.demand(d(here), d(next)) {
                Demand::Position(target) => {
                    if let Some(speed) = target.cruise {
                        let q = [f(target.position.x), f(target.position.y), f(target.position.z)];
                        let n = (0..3).map(|i| (q[i] - p[i]) * (q[i] - p[i])).sum::<f64>().sqrt();
                        for i in 0..3 {
                            p[i] += (q[i] - p[i]) / n * f(speed) * 0.004;
                        }
                    }
                    let sp = Setpoint { attitude: Quat::identity(), thrust: r(5.0) };
                    sim.track(sp);
                    assert_eq!(sim.setpoint(), sp);
                }
                Demand::Attitude(_) => panic!("waypoints are flown"),
            }
        }
        sim.finish_step(r(k as f64 * 0.001), result(v3(p[0], p[1], p[2])));
    }
    assert_eq!(sim.waypoint_index(), Some(2));
    // A setpoint ends the mission.
    sim.set_setpoint(Setpoint::level(r(4.0)));
    assert_eq!(sim.waypoint_index(), None);
    assert_eq!(sim.ahead(), (None, None));
    assert_eq!(sim.demand(r(0.0), r(0.0)), Demand::Attitude(Setpoint::level(r(4.0))));
}

#[test]
fn a_step_is_its_tasks_in_order() {
    let mut a = Sim::new(setup());
    let mut b = Sim::new(setup());
    for s in [&mut a, &mut b] {
        s.set_mission(
            vec![Waypoint::new(v3(0.0, 0.0, -2.0), r(0.0)), Waypoint::new(v3(5.0, 0.0, 0.0), r(0.0))],
            GuidanceConfig::default(),
        );
    }
    let sp = Setpoint { attitude: Quat::identity(), thrust: r(5.0) };
    for k in 0..9 {
        let (here, next, t) = (r(0.1), r(5.0), r(k as f64));
        let (air, res) = (still_air(), result(v3(k as f64, 0.0, 0.0)));
        b.move_air(air);
        if b.agenda().contains(&Task::Control) {
            assert_eq!(a.demanded(here, next), b.demand(here, next));
            b.track(sp);
        }
        b.finish_step(t, res);
        a.step(Step { air, here, next, setpoint: sp, t, result: res });
        assert_eq!((a.tick(), a.waypoint_index()), (b.tick(), b.waypoint_index()));
        assert_eq!((a.setpoint(), a.motors(), a.truth()), (b.setpoint(), b.motors(), b.truth()));
        assert_eq!(a.telemetry().samples, b.telemetry().samples);
    }
    assert_eq!(a.waypoint_index(), Some(1));
    assert_eq!(a.setpoint(), sp);
    // Where an attitude is held, a step leaves the setpoint alone.
    a.set_setpoint(Setpoint::level(r(4.0)));
    let res = result(v3(0.0, 0.0, 0.0));
    let air = still_air();
    for _ in 0..4 {
        a.step(Step { air, here: r(0.0), next: r(0.0), setpoint: sp, t: r(9.0), result: res });
    }
    assert_eq!(a.setpoint(), Setpoint::level(r(4.0)));
}

#[test]
fn the_autopilot_does_not_see_the_truth() {
    let mut a = Sim::new(setup());
    let mut b = Sim::new(setup());
    let mut lost = State13::at_rest();
    lost.position = v3(900.0, -900.0, 90.0);
    b.set_truth(lost);
    for s in [&mut a, &mut b] {
        s.set_mission(vec![Waypoint::new(v3(0.0, 0.0, -2.0), r(0.0))], GuidanceConfig::default());
    }
    let sp = Setpoint { attitude: Quat::identity(), thrust: r(5.0) };
    for k in 0..8 {
        assert_eq!(a.agenda(), b.agenda());
        assert_eq!(a.demanded(r(2.0), r(0.0)), b.demanded(r(2.0), r(0.0)));
        let mut res = result(v3(0.0, 0.0, 0.0));
        let air = still_air();
        let go = |s: &mut Sim, result: StepResult| {
            s.step(Step { air, here: r(2.0), next: r(0.0), setpoint: sp, t: r(k as f64), result })
        };
        go(&mut a, res);
        res.truth = lost;
        res.true_gyro_bias = v3(9.0, 9.0, 9.0);
        go(&mut b, res);
        assert_eq!((a.setpoint(), a.motors()), (b.setpoint(), b.motors()));
        let (x, y) = (a.telemetry().last().unwrap(), b.telemetry().last().unwrap());
        assert_eq!(x.estimate, y.estimate);
        assert_ne!(x.truth, y.truth);
    }
}

#[test]
fn log_keeps_the_newest_samples() {
    let mut sim = Sim::new(setup());
    sim.set_logging(0, Some(3));
    for k in 0..10 {
        sim.finish_step(r(k as f64), result(v3(0.0, 0.0, 0.0)));
    }
    let times: Vec<f64> = sim.telemetry().samples.iter().map(|s| f(s.t)).collect();
    assert_eq!(times, vec![7.0, 8.0, 9.0]);
    assert_eq!(sim.recording().len(), 3);
    // A smaller cap drops more than one at once; no cap drops none.
    sim.set_logging(1, Some(1));
    sim.finish_step(r(10.0), result(v3(0.0, 0.0, 0.0)));
    assert_eq!(sim.telemetry().len(), 1);
    sim.set_logging(1, None);
    for k in 11..20 {
        sim.finish_step(r(k as f64), result(v3(0.0, 0.0, 0.0)));
    }
    assert_eq!(sim.telemetry().len(), 10);
    let mut log: Vec<u32> = vec![1, 2];
    push_windowed(&mut log, 3, Some(0));
    assert!(log.is_empty());
}

#[test]
fn samples_hold_what_the_step_came_to() {
    let mut sim = Sim::new(setup());
    let mut res = result(v3(1.0, 2.0, 3.0));
    sim.finish_step(r(0.5), res);
    res.est_gyro_bias = Some(v3(0.4, 0.5, 0.6));
    sim.finish_step(r(0.6), res);
    let s = &sim.telemetry().samples;
    assert_eq!((s[0].truth, s[0].estimate, s[0].motors), (res.truth, res.estimate, res.motors));
    assert_eq!(s[0].setpoint, Setpoint::level(r(4.9)));
    assert_eq!(s[0].true_gyro_bias, v3(0.1, 0.2, 0.3));
    assert_eq!(s[0].est_gyro_bias, v3(0.0, 0.0, 0.0));
    assert_eq!(s[1].est_gyro_bias, v3(0.4, 0.5, 0.6));
    assert_eq!(sim.telemetry().last().map(|s| f(s.t)), Some(0.6));
    assert_eq!(*sim.truth(), res.truth);
    assert_eq!(sim.motors(), res.motors);
}

#[test]
fn a_dead_rotor_gives_no_thrust_in_any_step() {
    let mut sim = Sim::new(setup());
    sim.set_faults(QuadFaults { dead_rotor: Some(2) });
    let res = result(v3(0.0, 0.0, 0.0));
    let (air, setpoint) = (still_air(), sim.setpoint());
    for k in 0..5 {
        let t = r(k as f64);
        sim.step(Step { air, here: r(0.0), next: r(0.0), setpoint, t, result: res });
        assert_eq!(sim.motors(), [r(1.0), r(1.0), r(0.0), r(1.0)]);
        assert_eq!(sim.telemetry().last().unwrap().motors, sim.motors());
    }
    sim.set_faults(QuadFaults::none());
    sim.step(Step { air, here: r(0.0), next: r(0.0), setpoint, t: r(5.0), result: res });
    assert_eq!(sim.motors(), [r(1.0); 4]);
}

#[test]
fn settings_of_the_air_last_over_steps() {
    let mut sim = Sim::new(setup());
    sim.set_wind(v3(3.0, 4.0, 0.0));
    let (res, setpoint) = (result(v3(0.0, 0.0, 0.0)), sim.setpoint());
    let storm = StormEffect { intensity: r(0.7), turbulence: r(2.0) };
    let go = |sim: &mut Sim, k: f64, gust: Vec3| {
        let air = AirMove { time: r(k), storm, gust };
        sim.step(Step { air, here: r(0.0), next: r(0.0), setpoint, t: r(k), result: res });
    };
    // Calm air: no gust is taken over, and there is no storm to be in.
    go(&mut sim, 1.0, v3(9.0, 9.0, 9.0));
    let a = *sim.atmosphere();
    assert_eq!((a.gust, a.time, a.last_g), (v3(0.0, 0.0, 0.0), r(1.0), r(0.0)));
    assert_eq!(a.config().wind_ned, v3(3.0, 4.0, 0.0));
    sim.set_turbulence(r(1.5));
    go(&mut sim, 2.0, v3(0.5, 0.0, 0.0));
    assert_eq!(sim.atmosphere().gust, v3(0.5, 0.0, 0.0));
    sim.set_storm(Some(StormCell::microburst((r(0.0), r(0.0)))));
    go(&mut sim, 3.0, v3(0.6, 0.0, 0.0));
    let a = *sim.atmosphere();
    assert_eq!((a.last_g, a.config().turbulence), (r(0.7), r(1.5)));
    assert_eq!(a.config().wind_ned, v3(3.0, 4.0, 0.0));
    assert!(a.config().storm.is_some());
}

#[test]
fn a_dead_rotor_stays_dead() {
    let mut sim = Sim::new(setup());
    sim.set_faults(QuadFaults { dead_rotor: Some(0) });
    assert!(sim.faulted());
    assert_eq!(sim.apply_motors([r(2.0); 4]), [r(0.0), r(2.0), r(2.0), r(2.0)]);
    sim.set_faults(QuadFaults::none());
    assert_eq!(sim.apply_motors([r(2.0); 4]), [r(2.0); 4]);
}

#[test]
fn truth_can_be_set() {
    let mut sim = Sim::new(setup());
    let mut truth = State13::at_rest();
    truth.velocity = v3(1.0, 0.0, -2.0);
    sim.set_truth(truth);
    assert_eq!(*sim.truth(), truth);
    assert_eq!(sim.tick(), 0);
}
