use pilotrs::atmosphere::{AirMove, AtmosphereConfig, StormCell, StormEffect};
use pilotrs::engine::FixedMove;
use pilotrs::faults::{Deflection, FwFaults};
use pilotrs::fixedwing::{FwDemand, FwSim, FwSimSetup, FwStep, FwTask};
use pilotrs::fw_guidance::{Aim, FixedWingSetpoint, FwGuidanceConfig};
use pilotrs::fwengine::{
    FwCommand, FwEffect, FwLoggingCfg, FwReadings, FwRunMode, FwRunReport, FwSnapshot, FwWorker,
};
use pilotrs::guidance::Waypoint;
use pilotrs::messages::{ControlLimits, FixedWingControls, State13, StickInput, Vec3};
use pilotrs::number::Real;

fn r(x: f64) -> Real {
    Real::from_bits(x.to_bits())
}

fn f(x: Real) -> f64 {
    f64::from_bits(x.to_bits())
}

fn v3(x: f64, y: f64, z: f64) -> Vec3 {
    Vec3::new(r(x), r(y), r(z))
}

fn sp(airspeed: f64, altitude: f64, course: f64) -> FixedWingSetpoint {
    FixedWingSetpoint { airspeed: r(airspeed), altitude: r(altitude), course: r(course) }
}

fn cfg() -> FwSimSetup {
    let mut initial = State13::at_rest();
    initial.position = v3(6471.0, 0.0, 0.0);
    initial.velocity = v3(0.0, 0.0, 25.0);
    FwSimSetup {
        dt: r(0.001),
        control_period: 10,
        initial,
        setpoint: sp(25.0, 100.0, 0.0),
        limits: ControlLimits { surface_max: r(0.436), throttle: (r(0.0), r(1.0)) },
        atmosphere: AtmosphereConfig::calm(),
    }
}

fn still_air() -> AirMove {
    let storm = StormEffect { intensity: r(0.0), turbulence: r(0.0) };
    AirMove { time: r(0.0), storm, gust: v3(0.0, 0.0, 0.0) }
}

/// A step straight on.
fn step(sim: &mut FwSim) {
    let mut truth = *sim.truth();
    truth.position.z = r(f(truth.position.z) + f(truth.velocity.z) * 0.001);
    let d = r(sim.target().map(|w| distance(w.position, truth.position)).unwrap_or(0.0));
    let (mut setpoint, mut controls) = (sim.setpoint(), sim.controls());
    match sim.demanded(d) {
        FwDemand::Setpoint(_) => {}
        FwDemand::Route(aim) => setpoint = setpoint_for(aim),
        FwDemand::Manual { stick, .. } => {
            controls = FixedWingControls {
                aileron: stick.roll,
                elevator: stick.pitch,
                rudder: stick.yaw,
                throttle: stick.throttle,
            };
        }
    }
    let t = r((sim.tick() + 1) as f64 * 0.001);
    sim.step(FwStep { air: still_air(), distance: d, setpoint, controls, t, truth });
}

fn distance(a: Vec3, b: Vec3) -> f64 {
    let (x, y, z) = (f(a.x) - f(b.x), f(a.y) - f(b.y), f(a.z) - f(b.z));
    (x * x + y * y + z * z).sqrt()
}

fn setpoint_for(aim: Aim) -> FixedWingSetpoint {
    match aim {
        Aim::Kept(sp) => sp,
        Aim::Leg { target, .. } => sp(25.0, f(target.z), 0.1),
        _ => sp(25.0, 100.0, 0.2),
    }
}

fn route() -> Vec<Waypoint> {
    vec![
        Waypoint::new(v3(6471.0, 0.0, 0.0), r(0.0)),
        Waypoint::new(v3(6471.0, 0.0, 400.0), r(0.0)),
    ]
}

fn realtime() -> FwWorker {
    FwWorker::new(cfg(), FwRunMode::Realtime { speed: r(1.0) }, FwLoggingCfg::default())
}

fn readings(w: &FwWorker) -> FwReadings {
    FwReadings {
        t: r(w.sim.tick() as f64 * 0.001),
        airspeed: r(25.0),
        altitude: r(100.0),
        course: r(0.0),
        alpha: r(0.05),
        load_factor: r(1.0),
        wind_speed: r(0.0),
        gust: r(0.0),
    }
}

fn round(w: &mut FwWorker, seconds: f64) -> FwSnapshot {
    let due = (seconds * f(w.speed()) / f(w.dt())) as u64;
    for _ in 0..w.realtime_steps(due) {
        step(&mut w.sim);
    }
    let seen = readings(w);
    w.publish(&seen)
}

#[test]
fn set_setpoint_cancels_route() {
    let mut sim = FwSim::new(cfg());
    let there = v3(6491.0, 0.0, 400.0);
    let aim = sim.set_route(
        vec![Waypoint::new(there, r(0.0))],
        FwGuidanceConfig::default(),
        r(400.0),
    );
    assert_eq!(aim, Aim::Leg { origin: v3(6471.0, 0.0, 0.0), target: there });
    assert_eq!(sim.waypoint_index(), Some(0));
    assert!(sim.route_config().is_some());
    step(&mut sim);
    sim.set_setpoint(sp(25.0, 100.0, 0.0));
    assert_eq!(sim.waypoint_index(), None, "route not cancelled");
    assert_eq!(sim.route_config(), None);
    assert_eq!(sim.target(), None);
    for _ in 0..20_000 {
        step(&mut sim);
    }
    assert_eq!(sim.demand(r(0.0)), FwDemand::Setpoint(sp(25.0, 100.0, 0.0)));
}

#[test]
fn route_is_flown_to_its_end() {
    let mut sim = FwSim::new(cfg());
    sim.set_route(route(), FwGuidanceConfig::default(), r(0.0));
    assert_eq!(sim.waypoint_index(), Some(1));
    for _ in 0..12_000 {
        step(&mut sim);
    }
    assert!(sim.route_complete());
    assert_eq!(sim.waypoint_index(), Some(1));
    // The setpoint of the arrival is kept.
    assert_eq!(sim.setpoint(), sp(25.0, 100.0, 0.2));
    assert_eq!(sim.demand(r(1e6)), FwDemand::Route(Aim::Kept(sp(25.0, 100.0, 0.2))));
}

#[test]
fn pilot_flies_within_limits() {
    let mut sim = FwSim::new(cfg());
    let stick = StickInput { pitch: r(1.0), roll: r(-0.2), yaw: r(-1.0), throttle: r(0.7) };
    sim.set_stick(stick); // nobody flies yet
    assert_eq!(sim.demand(r(0.0)), FwDemand::Setpoint(sp(25.0, 100.0, 0.0)));
    sim.enter_manual(true);
    assert!(sim.is_manual() && sim.fbw_on());
    assert_eq!(
        sim.demand(r(0.0)),
        FwDemand::Manual { stick: StickInput::neutral(), fbw_on: true }
    );
    sim.set_stick(stick);
    sim.set_fbw(false);
    assert_eq!(sim.demand(r(0.0)), FwDemand::Manual { stick, fbw_on: false });
    step(&mut sim);
    let c = sim.controls();
    assert_eq!(
        (f(c.elevator), f(c.aileron), f(c.rudder), f(c.throttle)),
        (0.436, -0.2, -0.436, 0.7)
    );
    sim.set_faults(FwFaults { engine_out: true, ..FwFaults::none() });
    assert!(sim.faulted());
    let real = sim.faulted_controls(sim.controls());
    assert_eq!(f(real.throttle), 0.0);
    assert_eq!(real.elevator, Deflection::Angle(r(0.436)));
    assert_eq!(sim.tail_faults(), FwFaults::none().apply_params());
}

#[test]
fn control_runs_every_tenth_step() {
    let mut sim = FwSim::new(cfg());
    assert_eq!(
        sim.agenda(),
        vec![FwTask::MoveAir, FwTask::Control, FwTask::Integrate, FwTask::Log]
    );
    let mut controls = 0;
    for _ in 0..100 {
        controls += sim.agenda().iter().filter(|t| **t == FwTask::Control).count();
        step(&mut sim);
    }
    assert_eq!((controls, sim.samples().len(), sim.tick()), (10, 20, 100));
    assert_eq!(sim.control_period(), 10);
    assert_eq!(sim.agenda(), FwSim::new(cfg()).agenda());
    step(&mut sim);
    assert_eq!(sim.agenda(), vec![FwTask::MoveAir, FwTask::Integrate]);
}

#[test]
fn rolling_log_drops_the_oldest() {
    let mut sim = FwSim::new(cfg());
    sim.set_logging(0, Some(4));
    for _ in 0..10 {
        step(&mut sim);
    }
    let times: Vec<u64> = sim.samples().iter().map(|s| (f(s.t) * 1000.0).round() as u64).collect();
    assert_eq!(times, vec![7, 8, 9, 10]);
}

#[test]
fn a_cap_holds_for_a_log_that_was_longer() {
    let mut sim = FwSim::new(cfg());
    sim.set_logging(1, None);
    for _ in 0..5 {
        step(&mut sim);
    }
    assert_eq!(sim.samples().len(), 5);
    sim.set_logging(1, Some(2));
    step(&mut sim);
    let times: Vec<u64> = sim.samples().iter().map(|s| (f(s.t) * 1000.0).round() as u64).collect();
    assert_eq!(times, vec![5, 6]);
    assert_eq!(sim.tick(), 6);
    sim.set_logging(1, Some(0));
    step(&mut sim);
    assert!(sim.samples().is_empty());
}

#[test]
fn a_fixed_wing_step_is_its_tasks_in_order() {
    let mut a = FwSim::new(cfg());
    let mut b = FwSim::new(cfg());
    for s in [&mut a, &mut b] {
        s.set_logging(1, None);
        s.set_route(route(), FwGuidanceConfig::default(), r(0.0));
    }
    let c = FixedWingControls { aileron: r(1.0), ..FixedWingControls::zero() };
    for k in 0..25 {
        let truth = *a.truth();
        let (d, t, air) = (r(5.0), r(k as f64), still_air());
        b.move_air(air);
        if b.agenda().contains(&FwTask::Control) {
            assert_eq!(a.demanded(d), b.demand(d));
            b.track(sp(22.0, 50.0, 0.3));
            b.set_controls(c);
        }
        b.finish_step(t, truth);
        let setpoint = sp(22.0, 50.0, 0.3);
        a.step(FwStep { air, distance: d, setpoint, controls: c, t, truth });
        assert_eq!((a.tick(), a.waypoint_index()), (b.tick(), b.waypoint_index()));
        assert_eq!((a.setpoint(), a.controls()), (b.setpoint(), b.controls()));
        assert_eq!(a.samples(), b.samples());
    }
    assert!(a.route_complete());
    assert_eq!(f(a.controls().aileron), 0.436);
}

#[test]
fn an_arrival_keeps_its_setpoint_in_force() {
    let mut sim = FwSim::new(cfg());
    sim.set_logging(1, None);
    let aim = sim.set_route(route(), FwGuidanceConfig::default(), r(900.0));
    assert!(matches!(aim, Aim::Leg { .. }));
    let go = |sim: &mut FwSim, d: f64, found: FixedWingSetpoint| {
        let (truth, controls) = (*sim.truth(), sim.controls());
        for _ in 0..10 {
            let (air, t) = (still_air(), r(0.0));
            sim.step(FwStep { air, distance: r(d), setpoint: found, controls, t, truth });
        }
    };
    // The airspeed is the route's, whatever is found.
    go(&mut sim, 900.0, sp(99.0, 50.0, 0.3));
    assert_eq!(sim.setpoint(), sp(25.0, 50.0, 0.3));
    while !sim.route_complete() {
        go(&mut sim, 5.0, sp(25.0, 60.0, 0.4));
    }
    go(&mut sim, 5000.0, sp(25.0, 70.0, 0.5));
    assert_eq!(sim.setpoint(), sp(25.0, 60.0, 0.4));
    assert_eq!(sim.samples().last().unwrap().setpoint, sp(25.0, 60.0, 0.4));
    // Without waypoints the course is due north.
    let mut sim = FwSim::new(cfg());
    sim.set_route(Vec::new(), FwGuidanceConfig::default(), r(0.0));
    go(&mut sim, 0.0, sp(1.0, 100.0, 2.0));
    assert_eq!(sim.setpoint(), sp(25.0, 100.0, 0.0));
}

// ---- the engine -------------------------------------------------------------

#[test]
fn command_round_trip_set_cruise() {
    let mut w = realtime();
    let want = sp(30.0, 150.0, 0.3);
    assert_eq!(w.handle(FwCommand::SetCruise(want)), FwEffect::Nothing);
    assert_eq!(round(&mut w, 0.01).setpoint, want, "SetCruise not reflected in snapshot");
}

#[test]
fn snapshot_tick_advances() {
    let mut w = realtime();
    let s0 = round(&mut w, 0.0);
    let s1 = round(&mut w, 0.01);
    assert!(s1.tick > s0.tick, "tick did not advance");
}

#[test]
fn pause_freezes_tick_while_seq_advances() {
    let mut w = realtime();
    assert!(round(&mut w, 0.05).tick > 10);
    w.handle(FwCommand::Pause(true));
    let a = round(&mut w, 0.05);
    let b = round(&mut w, 0.05);
    assert_eq!(a.tick, b.tick, "tick advanced while paused");
    assert!(b.seq > a.seq, "seq should advance even when paused");
    assert_eq!(w.fixed_move(0, 10), FixedMove::Wait);
    assert!(w.is_paused());
}

#[test]
fn fwengine_speed_zero_does_not_advance() {
    let mut w = realtime();
    w.handle(FwCommand::SetSpeed(r(0.0)));
    let a = round(&mut w, 0.05);
    let b = round(&mut w, 0.08);
    assert_eq!(a.tick, b.tick, "advanced at speed 0");
    assert!(b.seq > a.seq, "seq should still advance");
    w.handle(FwCommand::SetSpeed(r(17.0)));
    assert_eq!(f(w.speed()), 16.0);
}

#[test]
fn fwengine_reset_restarts_tick() {
    let mut w = realtime();
    assert!(round(&mut w, 0.2).tick > 100);
    assert_eq!(w.handle(FwCommand::Reset(cfg())), FwEffect::Rebuild);
    let s = round(&mut w, 0.0);
    assert!(s.tick < 100, "tick did not reset");
    assert_eq!(s.truth, cfg().initial);
}

#[test]
fn route_round_trip_sets_waypoint_index() {
    let mut w = realtime();
    let effect = w.handle(FwCommand::SetRoute {
        waypoints: vec![
            Waypoint::ne_alt(r(0.0), r(0.0), r(120.0)),
            Waypoint::ne_alt(r(400.0), r(0.0), r(120.0)),
        ],
        cfg: FwGuidanceConfig::default(),
        distance: r(6500.0),
    });
    match effect {
        FwEffect::FindSetpoint(aim) => w.sim.track(setpoint_for(aim)),
        other => panic!("no setpoint asked for: {other:?}"),
    }
    assert!(
        round(&mut w, 0.01).waypoint_index.is_some(),
        "route not installed (waypoint_index stayed None)"
    );
}

#[test]
fn fwengine_fixedsteps_matches_run_headless() {
    let total = 4000u64;
    let mut inline = FwSim::new(cfg());
    inline.set_logging(10, None);
    for _ in 0..total {
        step(&mut inline);
    }
    let want = inline.samples().clone();

    let mut w = FwWorker::new(
        cfg(),
        FwRunMode::FixedSteps { total },
        FwLoggingCfg { log_every: 10, cap: None },
    );
    let mut done = 0u64;
    while let FixedMove::Steps(n) = w.fixed_move(done, total) {
        for _ in 0..n {
            step(&mut w.sim);
        }
        done += n;
    }
    assert_eq!(w.fixed_move(done, total), FixedMove::Finished);
    assert_eq!(w.sim.samples().len(), want.len(), "sample count differs");
    for (a, b) in w.sim.samples().iter().zip(&want) {
        assert_eq!(a, b, "fixed-step run diverged from the plain one");
    }
    assert_eq!(w.report(), FwRunReport { steps_taken: total, final_tick: total });
}

#[test]
fn a_new_destination_is_noticed() {
    let mut w = realtime();
    let same = sp(25.0, 100.0, 0.0);
    assert!(!w.redirects(&FwCommand::SetCruise(same)));
    assert!(w.redirects(&FwCommand::SetCruise(sp(25.0, 200.0, 0.0))));
    assert!(w.redirects(&FwCommand::EnterManual(true)));
    assert!(!w.redirects(&FwCommand::Pause(true)));
    let go = FwCommand::SetRoute {
        waypoints: route(),
        cfg: FwGuidanceConfig::default(),
        distance: r(0.0),
    };
    assert!(w.redirects(&go));
    w.handle(go);
    assert!(!w.sim.holds_setpoint());
    assert!(w.redirects(&FwCommand::SetCruise(w.sim.setpoint())));
}

#[test]
fn commands_reach_the_aircraft() {
    let mut w = realtime();
    w.handle(FwCommand::SetFbw(true)); // nobody flies yet
    w.handle(FwCommand::EnterManual(false));
    let s = round(&mut w, 0.0);
    assert!(s.manual && !s.fbw_on);
    w.handle(FwCommand::SetFbw(true));
    let stick = StickInput { pitch: r(0.1), roll: r(0.2), yaw: r(0.3), throttle: r(0.4) };
    w.handle(FwCommand::SetStick(stick));
    let s = round(&mut w, 0.001);
    assert!(s.fbw_on);
    assert_eq!(s.controls.elevator, r(0.1));
    assert_eq!((f(s.alpha), f(s.load_factor), f(s.airspeed)), (0.05, 1.0, 25.0));
    w.handle(FwCommand::SetWind(v3(0.0, 5.0, 0.0)));
    w.handle(FwCommand::SetTurbulence(r(2.0)));
    w.handle(FwCommand::SetStorm(Some(StormCell::microburst((r(1.0), r(2.0))))));
    w.handle(FwCommand::SetFaults(FwFaults { tail_loss: true, ..FwFaults::none() }));
    let air = w.sim.atmosphere();
    assert_eq!(air.config().wind_ned, v3(0.0, 5.0, 0.0));
    assert_eq!(f(air.config().turbulence), 2.0);
    assert!(air.config().storm.is_some());
    assert!(w.sim.faulted());
    assert_eq!(w.handle(FwCommand::Shutdown), FwEffect::Stop);
    let l = FwLoggingCfg::default();
    assert_eq!((l.log_every, l.cap), (5, Some(4000)));
    assert_eq!(FwRunReport::empty(), FwRunReport { steps_taken: 0, final_tick: 0 });
}
