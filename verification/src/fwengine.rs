//! The fixed-wing aircraft's engine: what a command does to a running simulation,
//! how many steps are due, what is shown of it.
use vstd::prelude::*;
use crate::atmosphere::StormCell;
use crate::engine::FixedMove;
use crate::faults::FwFaults;
use crate::fixedwing::{FwModeState, FwSim, FwSimSetup, FwSimState, FwStep};
use crate::fw_guidance::{Aim, FixedWingSetpoint, FwGuidanceConfig};
use crate::guidance::Waypoint;
use crate::messages::{FixedWingControls, State13, StickInput, Tick, Vec3};
use crate::number::Real;
use crate::engine;
use crate::fw_schedule_laws;

verus! {

/// What is shown of a fixed-wing simulation.
#[derive(Clone, Copy, Debug, PartialEq, Eq, Structural)]
pub struct FwSnapshot {
    pub t: Real,
    pub tick: Tick,
    pub truth: State13,
    pub controls: FixedWingControls,
    pub setpoint: FixedWingSetpoint,
    pub waypoint_index: Option<usize>,
    pub airspeed: Real,
    pub altitude: Real,
    pub course: Real,
    /// Angle of attack.
    pub alpha: Real,
    /// Load factor.
    pub load_factor: Real,
    /// Whether a pilot flies.
    pub manual: bool,
    /// Whether the pilot flies with the fly-by-wire law.
    pub fbw_on: bool,
    pub wind_speed: Real,
    pub gust: Real,
    pub paused: bool,
    /// Counts the publications, whether or not the simulation steps.
    pub seq: u64,
}

/// What a snapshot shows besides the scheduler's own state.
#[derive(Clone, Copy, Debug, PartialEq, Eq, Structural)]
pub struct FwReadings {
    pub t: Real,
    pub airspeed: Real,
    pub altitude: Real,
    pub course: Real,
    pub alpha: Real,
    pub load_factor: Real,
    pub wind_speed: Real,
    pub gust: Real,
}

impl FwSnapshot {
    /// What is shown of state `s` with the given readings.
    pub open spec fn of(s: FwSimState, r: FwReadings, seq: u64, paused: bool) -> FwSnapshot {
        FwSnapshot {
            t: r.t,
            tick: s.tick,
            truth: s.truth,
            controls: s.controls,
            setpoint: s.setpoint,
            waypoint_index: s.mode.waypoint_index(),
            airspeed: r.airspeed,
            altitude: r.altitude,
            course: r.course,
            alpha: r.alpha,
            load_factor: r.load_factor,
            manual: s.mode is Manual,
            fbw_on: s.mode matches FwModeState::Manual { fbw_on, .. } && fbw_on,
            wind_speed: r.wind_speed,
            gust: r.gust,
            paused,
            seq,
        }
    }

    /// Shows the state of a simulation.
    pub fn from_sim(sim: &FwSim, r: &FwReadings, seq: u64, paused: bool) -> (v: FwSnapshot)
        ensures
            v == FwSnapshot::of(sim@, *r, seq, paused),
    {
        FwSnapshot {
            t: r.t,
            tick: sim.tick(),
            truth: *sim.truth(),
            controls: sim.controls(),
            setpoint: sim.setpoint(),
            waypoint_index: sim.waypoint_index(),
            airspeed: r.airspeed,
            altitude: r.altitude,
            course: r.course,
            alpha: r.alpha,
            load_factor: r.load_factor,
            manual: sim.is_manual(),
            fbw_on: sim.fbw_on(),
            wind_speed: r.wind_speed,
            gust: r.gust,
            paused,
            seq,
        }
    }
}

/// What a running fixed-wing simulation can be told.
#[derive(Debug)]
pub enum FwCommand {
    /// Fly a route. `distance` is the distance to its first waypoint.
    SetRoute { waypoints: Vec<Waypoint>, cfg: FwGuidanceConfig, distance: Real },
    /// Hold a setpoint.
    SetCruise(FixedWingSetpoint),
    /// Let a pilot fly, with or without the fly-by-wire law.
    EnterManual(bool),
    SetStick(StickInput),
    SetFbw(bool),
    SetWind(Vec3),
    SetTurbulence(Real),
    SetStorm(Option<StormCell>),
    SetFaults(FwFaults),
    Pause(bool),
    /// How much faster than the clock, within `[0, 16]`.
    SetSpeed(Real),
    /// Start over with another configuration.
    Reset(FwSimSetup),
    Shutdown,
}

/// What is left to do after a command.
#[derive(Clone, Copy, Debug, PartialEq, Eq, Structural)]
pub enum FwEffect {
    Nothing,
    /// Find the first setpoint of a route, and hand it to [`FwSim::track`].
    FindSetpoint(Aim),
    /// Rebuild the parts of the simulator from the new configuration.
    Rebuild,
    /// End the run.
    Stop,
}

/// How much is logged while the engine runs.
#[derive(Clone, Copy, Debug, PartialEq, Eq, Structural)]
pub struct FwLoggingCfg {
    pub log_every: Tick,
    pub cap: Option<usize>,
}

impl Default for FwLoggingCfg {
    /// Every fifth step, the newest 4000 samples.
    fn default() -> (r: FwLoggingCfg)
        ensures
            r == (FwLoggingCfg { log_every: 5, cap: Some(4000) }),
    {
        FwLoggingCfg { log_every: 5, cap: Some(4000) }
    }
}

/// How the steps are driven.
#[derive(Clone, Copy, Debug, PartialEq, Eq, Structural)]
pub enum FwRunMode {
    /// By the clock.
    Realtime { speed: Real },
    /// A number of steps, and then no more.
    FixedSteps { total: u64 },
}

/// What a run came to.
#[derive(Clone, Copy, Debug, PartialEq, Eq, Structural)]
pub struct FwRunReport {
    pub steps_taken: Tick,
    pub final_tick: Tick,
}

impl FwRunReport {
    pub open spec fn nothing() -> FwRunReport {
        FwRunReport { steps_taken: 0, final_tick: 0 }
    }

    /// The report on a run that nothing is known of.
    pub fn empty() -> (r: FwRunReport)
        ensures
            r == FwRunReport::nothing(),
    {
        FwRunReport { steps_taken: 0, final_tick: 0 }
    }
}

/// What an [`FwWorker`] stands for.
pub struct FwWorkerState {
    pub sim: FwSimState,
    /// Length of a step.
    pub dt: Real,
    pub logging: FwLoggingCfg,
    pub paused: bool,
    pub speed: Real,
    /// Publications so far.
    pub seq: u64,
}

impl FwWorkerState {
    pub open spec fn wf(self) -> bool {
        self.sim.wf()
    }

    /// A run that has not started.
    pub open spec fn start(cfg: FwSimSetup, mode: FwRunMode, logging: FwLoggingCfg) -> FwWorkerState {
        FwWorkerState {
            sim: FwSimState::start(cfg).with_logging(logging.log_every, logging.cap),
            dt: cfg.dt,
            logging,
            paused: false,
            speed: match mode {
                FwRunMode::Realtime { speed } => engine::limited_speed(speed),
                FwRunMode::FixedSteps { .. } => Real::one_value(),
            },
            seq: 0,
        }
    }

    /// The same run with another simulation.
    pub open spec fn with_sim(self, sim: FwSimState) -> FwWorkerState {
        FwWorkerState { sim, ..self }
    }

    /// The state after a command.
    pub open spec fn after(self, cmd: FwCommand) -> FwWorkerState {
        let s = self.sim;
        match cmd {
            FwCommand::SetRoute { waypoints, cfg, distance } => self.with_sim(
                s.with_route(waypoints@, cfg, distance),
            ),
            FwCommand::SetCruise(sp) => self.with_sim(
                FwSimState { setpoint: sp, mode: FwModeState::Setpoint, ..s },
            ),
            FwCommand::EnterManual(fbw_on) => self.with_sim(
                FwSimState {
                    mode: FwModeState::Manual { stick: StickInput::neutral_value(), fbw_on },
                    ..s
                },
            ),
            FwCommand::SetStick(stick) => match s.mode {
                FwModeState::Manual { fbw_on, .. } => self.with_sim(
                    FwSimState { mode: FwModeState::Manual { stick, fbw_on }, ..s },
                ),
                _ => self,
            },
            FwCommand::SetFbw(on) => match s.mode {
                FwModeState::Manual { stick, .. } => self.with_sim(
                    FwSimState { mode: FwModeState::Manual { stick, fbw_on: on }, ..s },
                ),
                _ => self,
            },
            FwCommand::SetWind(w) => self.with_sim(FwSimState { air: s.air.with_wind(w), ..s }),
            FwCommand::SetTurbulence(rms) => self.with_sim(
                FwSimState { air: s.air.with_turbulence(rms), ..s },
            ),
            FwCommand::SetStorm(c) => self.with_sim(FwSimState { air: s.air.with_storm(c), ..s }),
            FwCommand::SetFaults(faults) => self.with_sim(FwSimState { faults, ..s }),
            FwCommand::Pause(p) => FwWorkerState { paused: p, ..self },
            FwCommand::SetSpeed(v) => FwWorkerState { speed: engine::limited_speed(v), ..self },
            FwCommand::Reset(cfg) => FwWorkerState {
                sim: FwSimState::start(cfg).with_logging(self.logging.log_every, self.logging.cap),
                dt: cfg.dt,
                paused: false,
                ..self
            },
            FwCommand::Shutdown => self,
        }
    }

    /// Whether a command changes what is flown to: a new route, a pilot, or another setpoint.
    pub open spec fn redirects(self, cmd: FwCommand) -> bool {
        match cmd {
            FwCommand::SetRoute { .. } => true,
            FwCommand::EnterManual(_) => true,
            FwCommand::SetCruise(sp) => !(self.sim.mode is Setpoint) || self.sim.setpoint != sp,
            _ => false,
        }
    }

    /// What is left to do after a command.
    pub open spec fn effect(self, cmd: FwCommand) -> FwEffect {
        match cmd {
            FwCommand::SetRoute { .. } => match self.after(cmd).sim.mode {
                FwModeState::Route(g) => FwEffect::FindSetpoint(g.aim()),
                _ => FwEffect::Nothing,
            },
            FwCommand::Reset(_) => FwEffect::Rebuild,
            FwCommand::Shutdown => FwEffect::Stop,
            _ => FwEffect::Nothing,
        }
    }

    /// How many of the steps that are due by the clock are taken.
    pub open spec fn realtime_steps(self, due: u64) -> u64 {
        if self.paused {
            0
        } else if due < engine::CATCH_UP {
            due
        } else {
            engine::CATCH_UP
        }
    }

    /// What a run of `total` steps does next when `done` are taken.
    pub open spec fn fixed_move(self, done: u64, total: u64) -> FixedMove {
        if done >= total {
            FixedMove::Finished
        } else if self.paused {
            FixedMove::Wait
        } else {
            FixedMove::Steps(engine::next_batch(done, total))
        }
    }
}

/// A running fixed-wing simulation and how it is driven.
pub struct FwWorker {
    pub sim: FwSim,
    dt: Real,
    logging: FwLoggingCfg,
    paused: bool,
    speed: Real,
    seq: u64,
}

impl View for FwWorker {
    type V = FwWorkerState;

    closed spec fn view(&self) -> FwWorkerState {
        FwWorkerState {
            sim: self.sim@,
            dt: self.dt,
            logging: self.logging,
            paused: self.paused,
            speed: self.speed,
            seq: self.seq,
        }
    }
}

impl FwWorker {
    /// A run that has not started.
    pub fn new(cfg: FwSimSetup, mode: FwRunMode, logging: FwLoggingCfg) -> (r: FwWorker)
        requires
            cfg.wf(),
        ensures
            r@ == FwWorkerState::start(cfg, mode, logging),
            r@.wf(),
    {
        let mut sim = FwSim::new(cfg);
        sim.set_logging(logging.log_every, logging.cap);
        let speed = match mode {
            FwRunMode::Realtime { speed } => engine::limit_speed(speed),
            FwRunMode::FixedSteps { .. } => Real::one(),
        };
        FwWorker { sim, dt: cfg.dt, logging, paused: false, speed, seq: 0 }
    }

    /// Obeys a command, and says what is left to do.
    pub fn handle(&mut self, cmd: FwCommand) -> (r: FwEffect)
        requires
            old(self)@.wf(),
            cmd matches FwCommand::Reset(cfg) ==> cfg.wf(),
        ensures
            final(self)@ == old(self)@.after(cmd),
            final(self)@.wf(),
            r == old(self)@.effect(cmd),
    {
        match cmd {
            FwCommand::SetRoute { waypoints, cfg, distance } => {
                return FwEffect::FindSetpoint(self.sim.set_route(waypoints, cfg, distance));
            },
            FwCommand::SetCruise(sp) => {
                self.sim.set_setpoint(sp);
            },
            FwCommand::EnterManual(fbw_on) => {
                self.sim.enter_manual(fbw_on);
            },
            FwCommand::SetStick(s) => {
                self.sim.set_stick(s);
            },
            FwCommand::SetFbw(on) => {
                self.sim.set_fbw(on);
            },
            FwCommand::SetWind(w) => {
                self.sim.set_wind(w);
            },
            FwCommand::SetTurbulence(rms) => {
                self.sim.set_turbulence(rms);
            },
            FwCommand::SetStorm(s) => {
                self.sim.set_storm(s);
            },
            FwCommand::SetFaults(f) => {
                self.sim.set_faults(f);
            },
            FwCommand::Pause(p) => {
                self.paused = p;
            },
            FwCommand::SetSpeed(s) => {
                self.speed = engine::limit_speed(s);
            },
            FwCommand::Reset(cfg) => {
                self.dt = cfg.dt;
                self.sim = FwSim::new(cfg);
                self.sim.set_logging(self.logging.log_every, self.logging.cap);
                self.paused = false;
                return FwEffect::Rebuild;
            },
            FwCommand::Shutdown => {
                return FwEffect::Stop;
            },
        }
        FwEffect::Nothing
    }

    /// Counts a publication and gives the snapshot to publish.
    pub fn publish(&mut self, r: &FwReadings) -> (v: FwSnapshot)
        requires
            old(self)@.seq < u64::MAX,
        ensures
            final(self)@ == (FwWorkerState { seq: (old(self)@.seq + 1) as u64, ..old(self)@ }),
            v == FwSnapshot::of(old(self)@.sim, *r, final(self)@.seq, old(self)@.paused),
    {
        self.seq = self.seq + 1;
        FwSnapshot::from_sim(&self.sim, r, self.seq, self.paused)
    }

    /// How many of the steps that are due by the clock are to be taken: none while
    /// paused, and never more than can be caught up.
    pub fn realtime_steps(&self, due: u64) -> (r: u64)
        ensures
            r == self@.realtime_steps(due),
    {
        if self.paused {
            0
        } else if due < engine::CATCH_UP {
            due
        } else {
            engine::CATCH_UP
        }
    }

    /// What a run of `total` steps does next when `done` are taken.
    pub fn fixed_move(&self, done: u64, total: u64) -> (r: FixedMove)
        ensures
            r == self@.fixed_move(done, total),
    {
        if done >= total {
            FixedMove::Finished
        } else if self.paused {
            FixedMove::Wait
        } else if total - done < engine::FIXED_BATCH {
            FixedMove::Steps(total - done)
        } else {
            FixedMove::Steps(engine::FIXED_BATCH)
        }
    }

    /// Whether a command changes what is flown to, so that the avoidance of terrain has to
    /// start afresh.
    pub fn redirects(&self, cmd: &FwCommand) -> (r: bool)
        ensures
            r == self@.redirects(*cmd),
    {
        match cmd {
            FwCommand::SetRoute { .. } => true,
            FwCommand::EnterManual(_) => true,
            FwCommand::SetCruise(sp) => !self.sim.holds_setpoint() || self.sim.setpoint() != *sp,
            _ => false,
        }
    }

    pub fn is_paused(&self) -> (r: bool)
        ensures
            r == self@.paused,
    {
        self.paused
    }

    pub fn speed(&self) -> (r: Real)
        ensures
            r == self@.speed,
    {
        self.speed
    }

    pub fn dt(&self) -> (r: Real)
        ensures
            r == self@.dt,
    {
        self.dt
    }

    /// What the run came to.
    pub fn report(&self) -> (r: FwRunReport)
        ensures
            r == (FwRunReport { steps_taken: self@.sim.tick, final_tick: self@.sim.tick }),
    {
        FwRunReport { steps_taken: self.sim.tick(), final_tick: self.sim.tick() }
    }
}

// ---- laws -------------------------------------------------------------------

/// The state after a run of `total` steps was driven to its end from step `done` on, in
/// batches, each followed by a publication. `steps` are the steps of the whole run.
pub open spec fn fw_fixed_run(
    w: FwWorkerState,
    steps: Seq<FwStep>,
    done: u64,
    total: u64,
) -> FwWorkerState
    decreases total - done,
{
    match w.fixed_move(done, total) {
        FixedMove::Steps(n) => if done < total {
            fw_fixed_run(
                FwWorkerState {
                    sim: fw_schedule_laws::fw_run(w.sim, steps.subrange(done as int, done + n)),
                    seq: (w.seq + 1) as u64,
                    ..w
                },
                steps,
                (done + n) as u64,
                total,
            )
        } else {
            w
        },
        _ => w,
    }
}

/// A run of a fixed length, nothing being sent to it, ends where a headless run of the same
/// steps ends: batches and publications in between make no difference.
pub proof fn fw_fixed_run_goes_on_as_headless(
    w: FwWorkerState,
    steps: Seq<FwStep>,
    done: u64,
    total: u64,
)
    requires
        !w.paused,
        done <= total,
        steps.len() == total,
    ensures
        fw_fixed_run(w, steps, done, total).sim == fw_schedule_laws::fw_run(
            w.sim,
            steps.skip(done as int),
        ),
        !fw_fixed_run(w, steps, done, total).paused,
    decreases total - done,
{
    if done < total {
        let n = engine::next_batch(done, total);
        let now = steps.subrange(done as int, done + n);
        let on = FwWorkerState {
            sim: fw_schedule_laws::fw_run(w.sim, now),
            seq: (w.seq + 1) as u64,
            ..w
        };
        fw_fixed_run_goes_on_as_headless(on, steps, (done + n) as u64, total);
        fw_schedule_laws::fw_batches_make_no_difference(w.sim, now, steps.skip(done + n));
        assert(now + steps.skip(done + n) =~= steps.skip(done as int));
    } else {
        assert(steps.skip(done as int) =~= Seq::<FwStep>::empty());
    }
}

/// From the start, a run of a fixed length logs, sample for sample, what a headless run with
/// the same logging logs, and reports all its steps.
pub proof fn fw_fixed_run_matches_headless(
    cfg: FwSimSetup,
    logging: FwLoggingCfg,
    total: u64,
    steps: Seq<FwStep>,
)
    requires
        cfg.wf(),
        steps.len() == total,
        total <= Tick::MAX,
    ensures
        ({
            let w = FwWorkerState::start(cfg, (FwRunMode::FixedSteps { total }), logging);
            let end = fw_fixed_run(w, steps, 0, total);
            let alone = fw_schedule_laws::fw_run(
                FwSimState::start(cfg).with_logging(logging.log_every, logging.cap),
                steps,
            );
            &&& end.sim == alone
            &&& end.sim.log == alone.log
            &&& end.sim.tick == total
        }),
{
    let w = FwWorkerState::start(cfg, (FwRunMode::FixedSteps { total }), logging);
    fw_fixed_run_goes_on_as_headless(w, steps, 0, total);
    assert(steps.skip(0) =~= steps);
    fw_schedule_laws::fw_run_counts_its_steps(w.sim, steps);
}

/// While paused no step is taken, by the clock or otherwise, and pausing itself
/// leaves the simulation as it is.
pub proof fn fw_pause_takes_no_step(w: FwWorkerState, due: u64, done: u64, total: u64)
    ensures
        w.after(FwCommand::Pause(true)).sim == w.sim,
        w.after(FwCommand::Pause(true)).realtime_steps(due) == 0,
        !(w.after(FwCommand::Pause(true)).fixed_move(done, total) is Steps),
{
}

/// A reset goes back to step 0 of the new configuration and lets the simulation run.
pub proof fn fw_reset_starts_over(w: FwWorkerState, cfg: FwSimSetup)
    ensures
        w.after(FwCommand::Reset(cfg)).sim.tick == 0,
        w.after(FwCommand::Reset(cfg)).sim.log.len() == 0,
        w.after(FwCommand::Reset(cfg)).sim.truth == cfg.initial,
        !w.after(FwCommand::Reset(cfg)).paused,
        w.after(FwCommand::Reset(cfg)).seq == w.seq,
{
}

/// No command moves the simulation on by a step: only a reset changes the count.
pub proof fn fw_commands_take_no_step(w: FwWorkerState, cmd: FwCommand)
    requires
        !(cmd is Reset),
    ensures
        w.after(cmd).sim.tick == w.sim.tick,
        w.after(cmd).sim.log == w.sim.log,
        w.after(cmd).sim.truth == w.sim.truth,
        w.after(cmd).seq == w.seq,
{
}

/// The stick and the fly-by-wire switch do nothing while no pilot flies.
pub proof fn stick_needs_a_pilot(w: FwWorkerState, stick: StickInput, on: bool)
    requires
        !(w.sim.mode is Manual),
    ensures
        w.after(FwCommand::SetStick(stick)) == w,
        w.after(FwCommand::SetFbw(on)) == w,
{
}

/// A new route of at least one waypoint has an active waypoint; a setpoint has none.
pub proof fn route_shows_its_waypoint(
    w: FwWorkerState,
    waypoints: Vec<Waypoint>,
    cfg: FwGuidanceConfig,
    distance: Real,
    sp: FixedWingSetpoint,
)
    requires
        waypoints@.len() > 0,
    ensures
        w.after(FwCommand::SetRoute { waypoints, cfg, distance }).sim.mode.waypoint_index()
            is Some,
        w.after(FwCommand::SetCruise(sp)).sim.mode.waypoint_index() is None,
{
}

/// Each command changes what it names and nothing else of the run.
pub proof fn fw_commands_change_what_they_name(
    w: FwWorkerState,
    sp: FixedWingSetpoint,
    faults: FwFaults,
    on: bool,
    speed: Real,
)
    ensures
        ({
            let a = w.after(FwCommand::SetCruise(sp));
            &&& a.sim.setpoint == sp && a.sim.mode is Setpoint
            &&& (FwSimState { setpoint: w.sim.setpoint, mode: w.sim.mode, ..a.sim }) == w.sim
            &&& (FwWorkerState { sim: w.sim, ..a }) == w
        }),
        ({
            let a = w.after(FwCommand::SetFaults(faults));
            &&& a.sim.faults == faults
            &&& (FwSimState { faults: w.sim.faults, ..a.sim }) == w.sim
            &&& (FwWorkerState { sim: w.sim, ..a }) == w
        }),
        ({
            let a = w.after(FwCommand::Pause(on));
            &&& a.paused == on
            &&& (FwWorkerState { paused: w.paused, ..a }) == w
        }),
        ({
            let a = w.after(FwCommand::SetSpeed(speed));
            let most = Real { bits: 0x4030_0000_0000_0000 };
            &&& Real::zero_value().at_most(speed) && speed.at_most(most) ==> a.speed == speed
            &&& most.less(speed) ==> a.speed == most
            &&& speed.less(Real::zero_value()) ==> a.speed == Real::zero_value()
            &&& (FwWorkerState { speed: w.speed, ..a }) == w
        }),
        w.after(FwCommand::Shutdown) == w,
{
}

/// A pilot who takes over has a centred stick; from then on the stick and the fly-by-wire
/// switch are set apart from each other, and only the mode changes.
pub proof fn pilot_sets_stick_and_switch(w: FwWorkerState, stick: StickInput, on: bool)
    ensures
        ({
            let a = w.after(FwCommand::EnterManual(on));
            let z = Real::zero_value();
            &&& a.sim.mode matches FwModeState::Manual { stick: s, fbw_on } && fbw_on == on
                && s.pitch == z && s.roll == z && s.yaw == z && s.throttle == z
            &&& (FwSimState { mode: w.sim.mode, ..a.sim }) == w.sim
            &&& (FwWorkerState { sim: w.sim, ..a }) == w
        }),
        w.sim.mode matches FwModeState::Manual { stick: s, fbw_on } ==> ({
            let a = w.after(FwCommand::SetStick(stick));
            let b = w.after(FwCommand::SetFbw(on));
            &&& a.sim.mode == (FwModeState::Manual { stick, fbw_on })
            &&& b.sim.mode == (FwModeState::Manual { stick: s, fbw_on: on })
            &&& (FwSimState { mode: w.sim.mode, ..a.sim }) == w.sim
            &&& (FwSimState { mode: w.sim.mode, ..b.sim }) == w.sim
            &&& (FwWorkerState { sim: w.sim, ..a }) == w
            &&& (FwWorkerState { sim: w.sim, ..b }) == w
        }),
{
}

/// Commands on the weather change the air as they say and nothing else.
pub proof fn fw_weather_commands_change_the_air(
    w: FwWorkerState,
    wind: Vec3,
    rms: Real,
    storm: Option<StormCell>,
)
    requires
        Real::zero_value().at_most(rms),
    ensures
        ({
            let a = w.after(FwCommand::SetWind(wind));
            &&& a.sim.air.cfg.wind_ned == wind
            &&& a.sim.air.cfg.turbulence == w.sim.air.cfg.turbulence
            &&& a.sim.air.cfg.storm == w.sim.air.cfg.storm
            &&& (FwSimState { air: w.sim.air, ..a.sim }) == w.sim
            &&& (FwWorkerState { sim: w.sim, ..a }) == w
        }),
        ({
            let a = w.after(FwCommand::SetTurbulence(rms));
            &&& a.sim.air.cfg.turbulence == rms
            &&& a.sim.air.cfg.wind_ned == w.sim.air.cfg.wind_ned
            &&& a.sim.air.cfg.storm == w.sim.air.cfg.storm
            &&& (FwSimState { air: w.sim.air, ..a.sim }) == w.sim
            &&& (FwWorkerState { sim: w.sim, ..a }) == w
        }),
        ({
            let a = w.after(FwCommand::SetStorm(storm));
            &&& a.sim.air.cfg.storm == storm
            &&& a.sim.air.cfg.wind_ned == w.sim.air.cfg.wind_ned
            &&& a.sim.air.cfg.turbulence == w.sim.air.cfg.turbulence
            &&& (FwSimState { air: w.sim.air, ..a.sim }) == w.sim
            &&& (FwWorkerState { sim: w.sim, ..a }) == w
        }),
{
}

/// A route is flown from where the aircraft is; its first setpoint is left to be found. What
/// else is left to do: parts are rebuilt after a reset, and the run ends on a shutdown.
pub proof fn fw_commands_leave_work(
    w: FwWorkerState,
    waypoints: Vec<Waypoint>,
    cfg: FwGuidanceConfig,
    distance: Real,
    cmd: FwCommand,
)
    ensures
        ({
            let a = w.after(FwCommand::SetRoute { waypoints, cfg, distance });
            &&& a.sim.mode matches FwModeState::Route(g) && g.route == waypoints@ && g.config
                == cfg && g.start == w.sim.truth.position && w.effect(
                FwCommand::SetRoute { waypoints, cfg, distance },
            ) == FwEffect::FindSetpoint(g.aim())
            &&& (FwSimState { mode: w.sim.mode, ..a.sim }) == w.sim
            &&& (FwWorkerState { sim: w.sim, ..a }) == w
        }),
        w.effect(cmd) is Rebuild <==> cmd is Reset,
        w.effect(cmd) is Stop <==> cmd is Shutdown,
        w.effect(cmd) is FindSetpoint <==> cmd is SetRoute,
{
}

/// A reset takes the new configuration over whole, keeps the logging and the speed of the run,
/// and holds the configured setpoint.
pub proof fn fw_reset_takes_the_configuration_over(w: FwWorkerState, cfg: FwSimSetup)
    requires
        w.logging.log_every > 0,
    ensures
        ({
            let a = w.after(FwCommand::Reset(cfg));
            &&& a.dt == cfg.dt && a.logging == w.logging && a.speed == w.speed
            &&& a.sim.cap == w.logging.cap && a.sim.log_every == w.logging.log_every
            &&& a.sim.control_period == cfg.control_period && a.sim.limits == cfg.limits
            &&& a.sim.mode is Setpoint && a.sim.setpoint == cfg.setpoint
            &&& a.sim.air.cfg == cfg.atmosphere
            &&& !a.sim.faults.engine_out && !a.sim.faults.tail_loss
        }),
{
}

/// Something else is flown to exactly after a new route, when a pilot takes over, and when a
/// setpoint is to be held that was not held before.
pub proof fn redirection_is_something_else_to_fly_to(w: FwWorkerState, cmd: FwCommand)
    ensures
        cmd is SetRoute || cmd is EnterManual ==> w.redirects(cmd),
        cmd matches FwCommand::SetCruise(sp) ==> (w.redirects(cmd) <==> !(w.sim.mode is Setpoint
            && w.sim.setpoint == sp)),
        !(cmd is SetRoute) && !(cmd is EnterManual) && !(cmd is SetCruise) ==> !w.redirects(cmd),
{
}

/// By the clock all steps that are due are taken, up to what can be caught up at once. A run of
/// a fixed length is over exactly when all its steps are taken; until then it waits while it is
/// paused and else takes steps, at least one, at most fifty and never too many.
pub proof fn fw_steps_are_taken_as_due(w: FwWorkerState, due: u64, done: u64, total: u64)
    ensures
        !w.paused && due <= 250 ==> w.realtime_steps(due) == due,
        !w.paused && due > 250 ==> w.realtime_steps(due) == 250,
        w.paused ==> w.realtime_steps(due) == 0,
        w.fixed_move(done, total) is Finished <==> done >= total,
        done < total && w.paused ==> w.fixed_move(done, total) is Wait,
        done < total && !w.paused ==> (w.fixed_move(done, total) matches FixedMove::Steps(n) && 0
            < n && n <= 50 && done + n <= total && (n == 50 || done + n == total)),
{
}

/// A run starts unpaused and with nothing published, at the speed it is to have; a run of a
/// fixed length has the clock's.
pub proof fn fw_run_starts_at_its_speed(cfg: FwSimSetup, mode: FwRunMode, logging: FwLoggingCfg)
    requires
        logging.log_every > 0,
    ensures
        ({
            let w = FwWorkerState::start(cfg, mode, logging);
            &&& !w.paused && w.seq == 0 && w.dt == cfg.dt && w.logging == logging
            &&& w.sim.log_every == logging.log_every && w.sim.cap == logging.cap
            &&& w.sim.tick == 0 && w.sim.truth == cfg.initial
            &&& mode is FixedSteps ==> w.speed == Real::one_value()
            &&& mode matches FwRunMode::Realtime { speed } ==> (Real::zero_value().at_most(speed)
                && speed.at_most(Real { bits: 0x4030_0000_0000_0000 }) ==> w.speed == speed)
        }),
{
}

/// A snapshot shows each reading and each part of the state in its own place. Someone flies by
/// hand exactly in the manual mode, and with the fly-by-wire law exactly if that is on then.
pub proof fn fw_snapshot_shows_the_state(s: FwSimState, r: FwReadings, seq: u64, paused: bool)
    ensures
        ({
            let v = FwSnapshot::of(s, r, seq, paused);
            &&& v.t == r.t && v.tick == s.tick && v.truth == s.truth
            &&& v.controls == s.controls && v.setpoint == s.setpoint
            &&& v.airspeed == r.airspeed && v.altitude == r.altitude && v.course == r.course
            &&& v.alpha == r.alpha && v.load_factor == r.load_factor
            &&& v.wind_speed == r.wind_speed && v.gust == r.gust
            &&& v.paused == paused && v.seq == seq
            &&& v.manual <==> s.mode is Manual
            &&& s.mode matches FwModeState::Manual { fbw_on, .. } ==> v.fbw_on == fbw_on
            &&& !(s.mode is Manual) ==> !v.fbw_on
            &&& !(s.mode is Route) ==> v.waypoint_index is None
            &&& s.mode matches FwModeState::Route(g) ==> (g.route.len() == 0 ==> v.waypoint_index
                is None) && (g.route.len() > 0 ==> v.waypoint_index == Some(g.active as usize))
        }),
{
}

} // verus!
