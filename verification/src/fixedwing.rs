//! The scheduler of the fixed-wing aircraft: when control runs, what it works
//! towards, what is logged.
use vstd::prelude::*;
use crate::atmosphere::{AirMove, Atmosphere, AtmosphereConfig, StormCell};
use crate::faults::{FaultedControls, FwFaults, TailFaults};
use crate::fw_guidance::{Aim, FixedWingSetpoint, FwGuidance, FwGuidanceConfig, FwGuidanceState};
use crate::guidance::Waypoint;
use crate::messages::{ControlLimits, FixedWingControls, State13, StickInput, Tick, Vec3};
use crate::number::Real;
use crate::scheduler;

verus! {

/// One logged instant of a fixed-wing flight.
#[derive(Clone, Copy, Debug, PartialEq, Eq, Structural)]
pub struct FwSample {
    pub t: Real,
    pub truth: State13,
    pub controls: FixedWingControls,
    pub setpoint: FixedWingSetpoint,
}

/// What the scheduler takes from the configuration of a fixed-wing simulator.
#[derive(Clone, Copy, Debug)]
pub struct FwSimSetup {
    /// Length of a step.
    pub dt: Real,
    /// Every how many steps control runs.
    pub control_period: Tick,
    pub initial: State13,
    pub setpoint: FixedWingSetpoint,
    pub limits: ControlLimits,
    pub atmosphere: AtmosphereConfig,
}

impl FwSimSetup {
    pub open spec fn wf(self) -> bool {
        self.control_period > 0 && self.limits.wf()
    }
}

/// How the aircraft is commanded.
pub enum FwMode {
    /// A setpoint is held.
    Setpoint,
    /// A route is flown.
    Route(FwGuidance),
    /// A pilot flies, with or without the fly-by-wire law.
    Manual { stick: StickInput, fbw_on: bool },
}

/// What an [`FwMode`] stands for.
pub enum FwModeState {
    Setpoint,
    Route(FwGuidanceState),
    Manual { stick: StickInput, fbw_on: bool },
}

impl View for FwMode {
    type V = FwModeState;

    open spec fn view(&self) -> FwModeState {
        match self {
            FwMode::Setpoint => FwModeState::Setpoint,
            FwMode::Route(g) => FwModeState::Route(g@),
            FwMode::Manual { stick, fbw_on } => FwModeState::Manual {
                stick: *stick,
                fbw_on: *fbw_on,
            },
        }
    }
}

impl FwModeState {
    pub open spec fn wf(self) -> bool {
        self matches FwModeState::Route(g) ==> g.wf()
    }

    pub open spec fn waypoint_index(self) -> Option<usize> {
        match self {
            FwModeState::Route(g) => g.current_index(),
            _ => None,
        }
    }

    pub open spec fn route_complete(self) -> bool {
        self matches FwModeState::Route(g) && g.completed
    }
}

/// What the controller of this step works towards.
#[derive(Clone, Copy, Debug, PartialEq, Eq, Structural)]
pub enum FwDemand {
    /// The setpoint as it stands.
    Setpoint(FixedWingSetpoint),
    /// A setpoint made of this.
    Route(Aim),
    /// What the pilot asks for.
    Manual { stick: StickInput, fbw_on: bool },
}

/// One thing to do within a step.
#[derive(Clone, Copy, Debug, PartialEq, Eq, Structural)]
pub enum FwTask {
    /// Move the gusts on and find the wind.
    MoveAir,
    /// Find the setpoint and run the controller.
    Control,
    /// Integrate the true state.
    Integrate,
    /// Log a sample.
    Log,
}

/// The tasks of a step, in order.
pub open spec fn fw_tasks(tick: Tick, control_period: Tick, log_every: Tick) -> Seq<FwTask> {
    seq![FwTask::MoveAir] + (if tick % control_period == 0 {
        seq![FwTask::Control]
    } else {
        seq![]
    }) + seq![FwTask::Integrate] + (if tick % log_every == 0 {
        seq![FwTask::Log]
    } else {
        seq![]
    })
}

/// What one step is given and comes to.
#[derive(Clone, Copy, Debug)]
pub struct FwStep {
    /// How the air moves on.
    pub air: AirMove,
    /// The distance of the active waypoint.
    pub distance: Real,
    /// The setpoint that was found, where a route is flown and the controller ran.
    pub setpoint: FixedWingSetpoint,
    /// The controls that the controller found, if it ran.
    pub controls: FixedWingControls,
    /// The time at the start of the step.
    pub t: Real,
    /// The new state.
    pub truth: State13,
}

/// What an [`FwSim`] stands for.
pub struct FwSimState {
    pub control_period: Tick,
    pub limits: ControlLimits,
    pub mode: FwModeState,
    pub setpoint: FixedWingSetpoint,
    pub controls: FixedWingControls,
    pub air: Atmosphere,
    pub faults: FwFaults,
    pub truth: State13,
    pub tick: Tick,
    pub log: Seq<FwSample>,
    pub log_every: Tick,
    pub cap: Option<usize>,
}

impl FwSimState {
    pub open spec fn wf(self) -> bool {
        &&& self.control_period > 0
        &&& self.limits.wf()
        &&& self.mode.wf()
        &&& self.log_every > 0
        &&& self.holds_kept()
    }

    /// Where a setpoint was kept on arrival, it is the one in force.
    pub open spec fn holds_kept(self) -> bool {
        self.mode matches FwModeState::Route(g) ==> (g.kept matches Some(sp) ==> self.setpoint
            == sp)
    }

    pub open spec fn start(cfg: FwSimSetup) -> FwSimState {
        FwSimState {
            control_period: cfg.control_period,
            limits: cfg.limits,
            mode: FwModeState::Setpoint,
            setpoint: cfg.setpoint,
            controls: FixedWingControls::zero_value(),
            air: Atmosphere::start(cfg.atmosphere),
            faults: FwFaults::healthy(),
            truth: cfg.initial,
            tick: 0,
            log: Seq::empty(),
            log_every: 5,
            cap: None,
        }
    }

    /// With another logging rate, at least 1, and another cap.
    pub open spec fn with_logging(self, every: Tick, cap: Option<usize>) -> FwSimState {
        FwSimState {
            log_every: if every == 0 {
                1
            } else {
                every
            },
            cap,
            ..self
        }
    }

    /// The state once a route is flown from the present position. `distance` is the
    /// distance to the first waypoint.
    pub open spec fn with_route(
        self,
        route: Seq<Waypoint>,
        cfg: FwGuidanceConfig,
        distance: Real,
    ) -> FwSimState {
        FwSimState {
            mode: FwModeState::Route(
                FwGuidanceState::begin(route, self.truth.position, cfg).after(distance),
            ),
            ..self
        }
    }

    /// What the controller works towards, at this distance of the active waypoint.
    pub open spec fn demanded(self, distance: Real) -> FwDemand {
        match self.mode {
            FwModeState::Setpoint => FwDemand::Setpoint(self.setpoint),
            FwModeState::Route(g) => FwDemand::Route(g.after(distance).aim()),
            FwModeState::Manual { stick, fbw_on } => FwDemand::Manual { stick, fbw_on },
        }
    }

    /// The state once the controller was given its demand: a route may have gone on.
    pub open spec fn guided(self, distance: Real) -> FwSimState {
        FwSimState {
            mode: match self.mode {
                FwModeState::Route(g) => FwModeState::Route(g.after(distance)),
                m => m,
            },
            ..self
        }
    }

    /// The setpoint in force where `sp` was found: on a route, what its aim makes of it.
    pub open spec fn in_force(self, sp: FixedWingSetpoint) -> FixedWingSetpoint {
        match self.mode {
            FwModeState::Route(g) => g.aim().setpoint(g.config, sp),
            _ => sp,
        }
    }

    /// The state with the setpoint that was found for the route. The setpoint of an arrival
    /// is kept, and in force from then on.
    pub open spec fn tracking(self, sp: FixedWingSetpoint) -> FwSimState {
        FwSimState {
            setpoint: self.in_force(sp),
            mode: match self.mode {
                FwModeState::Route(g) => FwModeState::Route(
                    if g.aim() is Arrive {
                        FwGuidanceState { kept: Some(self.in_force(sp)), ..g }
                    } else {
                        g
                    },
                ),
                m => m,
            },
            ..self
        }
    }

    /// The state once the controller has run.
    pub open spec fn controlled(self, step: FwStep) -> FwSimState {
        let s = self.guided(step.distance);
        let s = if s.mode is Route {
            s.tracking(step.setpoint)
        } else {
            s
        };
        FwSimState { controls: step.controls.limited(s.limits), ..s }
    }

    /// What a task of a step changes before the step ends.
    pub open spec fn task_done(self, step: FwStep, task: FwTask) -> FwSimState {
        match task {
            FwTask::MoveAir => FwSimState { air: self.air.moved(step.air), ..self },
            FwTask::Control => self.controlled(step),
            _ => self,
        }
    }

    /// The state after some tasks of a step, in order.
    pub open spec fn tasks_done(self, step: FwStep, list: Seq<FwTask>) -> FwSimState
        decreases list.len(),
    {
        if list.len() == 0 {
            self
        } else {
            self.tasks_done(step, list.drop_last()).task_done(step, list.last())
        }
    }

    /// The state before a step ends: the air has moved, and the controller has run if it was
    /// due.
    pub open spec fn prepared(self, step: FwStep) -> FwSimState {
        let s = FwSimState { air: self.air.moved(step.air), ..self };
        if s.tick % s.control_period == 0 {
            s.controlled(step)
        } else {
            s
        }
    }

    /// The state after one step, all its tasks done.
    pub open spec fn stepped(self, step: FwStep) -> FwSimState {
        self.prepared(step).after_step(step.t, step.truth)
    }

    /// The state behind a step that came to `truth`.
    pub open spec fn after_step(self, t: Real, truth: State13) -> FwSimState {
        FwSimState {
            truth,
            tick: (self.tick + 1) as Tick,
            log: if self.tick % self.log_every == 0 {
                scheduler::windowed(
                    self.log,
                    FwSample { t, truth, controls: self.controls, setpoint: self.setpoint },
                    self.cap,
                )
            } else {
                self.log
            },
            ..self
        }
    }
}

/// The scheduler of the fixed-wing aircraft and everything that it decides.
pub struct FwSim {
    control_period: Tick,
    limits: ControlLimits,
    mode: FwMode,
    setpoint: FixedWingSetpoint,
    controls: FixedWingControls,
    atmosphere: Atmosphere,
    faults: FwFaults,
    truth: State13,
    tick: Tick,
    log: Vec<FwSample>,
    log_every: Tick,
    log_cap: Option<usize>,
}

impl View for FwSim {
    type V = FwSimState;

    closed spec fn view(&self) -> FwSimState {
        FwSimState {
            control_period: self.control_period,
            limits: self.limits,
            mode: self.mode@,
            setpoint: self.setpoint,
            controls: self.controls,
            air: self.atmosphere,
            faults: self.faults,
            truth: self.truth,
            tick: self.tick,
            log: self.log@,
            log_every: self.log_every,
            cap: self.log_cap,
        }
    }
}

impl FwSim {
    /// Holds the configured setpoint from the initial state, controls neutral.
    pub fn new(cfg: FwSimSetup) -> (r: FwSim)
        requires
            cfg.wf(),
        ensures
            r@ == FwSimState::start(cfg),
            r@.wf(),
    {
        FwSim {
            control_period: cfg.control_period,
            limits: cfg.limits,
            mode: FwMode::Setpoint,
            setpoint: cfg.setpoint,
            controls: FixedWingControls::zero(),
            atmosphere: Atmosphere::new(cfg.atmosphere),
            faults: FwFaults::none(),
            truth: cfg.initial,
            tick: 0,
            log: Vec::new(),
            log_every: 5,
            log_cap: None,
        }
    }

    /// Holds a setpoint from now on, and gives up a route.
    pub fn set_setpoint(&mut self, sp: FixedWingSetpoint)
        ensures
            final(self)@ == (FwSimState { setpoint: sp, mode: FwModeState::Setpoint, ..old(self)@ }),
    {
        self.setpoint = sp;
        self.mode = FwMode::Setpoint;
    }

    /// Flies a route from now on, the first leg from the present position.
    /// `distance` is the distance to the first waypoint. What the first setpoint is
    /// made of is returned; it is handed back with [`FwSim::track`].
    pub fn set_route(
        &mut self,
        waypoints: Vec<Waypoint>,
        cfg: FwGuidanceConfig,
        distance: Real,
    ) -> (r: Aim)
        ensures
            final(self)@ == old(self)@.with_route(waypoints@, cfg, distance),
            final(self)@.mode.wf(),
            final(self)@.mode matches FwModeState::Route(g) ==> r == g.aim(),
    {
        let mut g = FwGuidance::new(waypoints, self.truth.position, cfg);
        let aim = g.update(distance);
        self.mode = FwMode::Route(g);
        aim
    }

    /// Lets a pilot fly from now on, with a centred stick.
    pub fn enter_manual(&mut self, fbw_on: bool)
        ensures
            final(self)@ == (FwSimState {
                mode: FwModeState::Manual { stick: StickInput::neutral_value(), fbw_on },
                ..old(self)@
            }),
    {
        self.mode = FwMode::Manual { stick: StickInput::neutral(), fbw_on };
    }

    /// Takes over the pilot's stick, if a pilot flies.
    pub fn set_stick(&mut self, stick: StickInput)
        ensures
            final(self)@ == (match old(self)@.mode {
                FwModeState::Manual { fbw_on, .. } => FwSimState {
                    mode: FwModeState::Manual { stick, fbw_on },
                    ..old(self)@
                },
                _ => old(self)@,
            }),
    {
        if let FwMode::Manual { fbw_on, .. } = &self.mode {
            let on = *fbw_on;
            self.mode = FwMode::Manual { stick, fbw_on: on };
        }
    }

    /// Turns the fly-by-wire law on or off, if a pilot flies.
    pub fn set_fbw(&mut self, on: bool)
        ensures
            final(self)@ == (match old(self)@.mode {
                FwModeState::Manual { stick, .. } => FwSimState {
                    mode: FwModeState::Manual { stick, fbw_on: on },
                    ..old(self)@
                },
                _ => old(self)@,
            }),
    {
        if let FwMode::Manual { stick, .. } = &self.mode {
            let s = *stick;
            self.mode = FwMode::Manual { stick: s, fbw_on: on };
        }
    }

    /// Whether a setpoint is held.
    pub fn holds_setpoint(&self) -> (r: bool)
        ensures
            r == (self@.mode is Setpoint),
    {
        match &self.mode {
            FwMode::Setpoint => true,
            _ => false,
        }
    }

    /// Whether a pilot flies.
    pub fn is_manual(&self) -> (r: bool)
        ensures
            r == (self@.mode is Manual),
    {
        matches!(self.mode, FwMode::Manual { .. })
    }

    /// Whether a pilot flies with the fly-by-wire law.
    pub fn fbw_on(&self) -> (r: bool)
        ensures
            r == (self@.mode matches FwModeState::Manual { fbw_on, .. } && fbw_on),
    {
        match &self.mode {
            FwMode::Manual { fbw_on, .. } => *fbw_on,
            _ => false,
        }
    }

    pub fn set_faults(&mut self, faults: FwFaults)
        ensures
            final(self)@ == (FwSimState { faults, ..old(self)@ }),
    {
        self.faults = faults;
    }

    pub fn faulted(&self) -> (r: bool)
        ensures
            r == (self@.faults != FwFaults::healthy()),
    {
        self.faults.any()
    }

    /// Where the surfaces and the throttle really go when the controller asks for `c`.
    pub fn faulted_controls(&self, c: FixedWingControls) -> (r: FaultedControls)
        requires
            self@.wf(),
        ensures
            r == self@.faults.applied(c.limited(self@.limits)),
    {
        self.faults.apply_controls(c.clamp(&self.limits))
    }

    /// What damage does to the coefficients of the airframe.
    pub fn tail_faults(&self) -> (r: TailFaults)
        ensures
            r == self@.faults.tail(),
    {
        self.faults.apply_params()
    }

    /// Sets the steady wind.
    pub fn set_wind(&mut self, wind_ned: Vec3)
        ensures
            final(self)@ == (FwSimState { air: old(self)@.air.with_wind(wind_ned), ..old(self)@ }),
    {
        self.atmosphere.set_wind(wind_ned);
    }

    /// Sets the turbulence intensity.
    pub fn set_turbulence(&mut self, rms: Real)
        ensures
            final(self)@ == (FwSimState { air: old(self)@.air.with_turbulence(rms), ..old(self)@ }),
    {
        self.atmosphere.set_turbulence(rms);
    }

    /// Places the storm cell, or takes it away.
    pub fn set_storm(&mut self, storm: Option<StormCell>)
        ensures
            final(self)@ == (FwSimState { air: old(self)@.air.with_storm(storm), ..old(self)@ }),
    {
        self.atmosphere.set_storm(storm);
    }

    pub fn atmosphere(&self) -> (r: &Atmosphere)
        ensures
            *r == self@.air,
    {
        &self.atmosphere
    }

    /// Moves the air on by a step.
    pub fn move_air(&mut self, m: AirMove)
        ensures
            final(self)@ == (FwSimState { air: old(self)@.air.moved(m), ..old(self)@ }),
    {
        self.atmosphere.move_on(m);
    }

    /// The active waypoint, if a route is flown.
    pub fn waypoint_index(&self) -> (r: Option<usize>)
        ensures
            r == self@.mode.waypoint_index(),
    {
        match &self.mode {
            FwMode::Route(g) => g.current_index(),
            _ => None,
        }
    }

    /// Whether a route is flown that has reached its end.
    pub fn route_complete(&self) -> (r: bool)
        ensures
            r == self@.mode.route_complete(),
    {
        match &self.mode {
            FwMode::Route(g) => g.is_complete(),
            _ => false,
        }
    }

    /// The tuning of the route that is flown.
    pub fn route_config(&self) -> (r: Option<FwGuidanceConfig>)
        ensures
            r == (match self@.mode {
                FwModeState::Route(g) => Some(g.config),
                _ => None,
            }),
    {
        match &self.mode {
            FwMode::Route(g) => Some(g.config()),
            _ => None,
        }
    }

    pub fn setpoint(&self) -> (r: FixedWingSetpoint)
        ensures
            r == self@.setpoint,
    {
        self.setpoint
    }

    pub fn truth(&self) -> (r: &State13)
        ensures
            *r == self@.truth,
    {
        &self.truth
    }

    pub fn controls(&self) -> (r: FixedWingControls)
        ensures
            r == self@.controls,
    {
        self.controls
    }

    /// Steps since the start.
    pub fn tick(&self) -> (r: Tick)
        ensures
            r == self@.tick,
    {
        self.tick
    }

    pub fn control_period(&self) -> (r: Tick)
        ensures
            r == self@.control_period,
    {
        self.control_period
    }

    pub fn samples(&self) -> (r: &Vec<FwSample>)
        ensures
            r@ == self@.log,
    {
        &self.log
    }

    /// Logs one sample every `every` steps (at least 1), and keeps at most the newest
    /// `cap`.
    pub fn set_logging(&mut self, every: Tick, cap: Option<usize>)
        requires
            old(self)@.wf(),
        ensures
            final(self)@ == old(self)@.with_logging(every, cap),
            final(self)@.wf(),
    {
        self.log_every = if every == 0 {
            1
        } else {
            every
        };
        self.log_cap = cap;
    }

    /// What there is to do in the step ahead, in order.
    pub fn agenda(&self) -> (r: Vec<FwTask>)
        requires
            self@.wf(),
        ensures
            r@ == fw_tasks(self@.tick, self@.control_period, self@.log_every),
    {
        let mut r: Vec<FwTask> = Vec::new();
        r.push(FwTask::MoveAir);
        if self.tick % self.control_period == 0 {
            r.push(FwTask::Control);
        }
        r.push(FwTask::Integrate);
        if self.tick % self.log_every == 0 {
            r.push(FwTask::Log);
        }
        assert(r@ =~= fw_tasks(self@.tick, self@.control_period, self@.log_every));
        r
    }

    /// The waypoint that [`FwSim::demand`] wants the distance of.
    pub fn target(&self) -> (r: Option<Waypoint>)
        requires
            self@.wf(),
        ensures
            r == (match self@.mode {
                FwModeState::Route(g) => if g.route.len() == 0 {
                    None
                } else {
                    Some(g.route[g.active])
                },
                _ => None,
            }),
    {
        match &self.mode {
            FwMode::Route(g) => g.target(),
            _ => None,
        }
    }

    /// What the controller works towards, with nothing changed yet.
    pub fn demanded(&self, distance: Real) -> (r: FwDemand)
        requires
            self@.wf(),
        ensures
            r == self@.demanded(distance),
    {
        match &self.mode {
            FwMode::Setpoint => FwDemand::Setpoint(self.setpoint),
            FwMode::Route(g) => FwDemand::Route(g.preview(distance)),
            FwMode::Manual { stick, fbw_on } => FwDemand::Manual { stick: *stick, fbw_on: *fbw_on },
        }
    }

    /// What the controller works towards. Where a route is flown, this goes on with
    /// it if the active waypoint, at `distance`, is reached.
    pub fn demand(&mut self, distance: Real) -> (r: FwDemand)
        requires
            old(self)@.wf(),
        ensures
            final(self)@.wf(),
            final(self)@ == old(self)@.guided(distance),
            r == old(self)@.demanded(distance),
    {
        match &mut self.mode {
            FwMode::Setpoint => FwDemand::Setpoint(self.setpoint),
            FwMode::Route(g) => FwDemand::Route(g.update(distance)),
            FwMode::Manual { stick, fbw_on } => FwDemand::Manual { stick: *stick, fbw_on: *fbw_on },
        }
    }

    /// Takes over the setpoint that was found for the route. The setpoint of an
    /// arrival is kept, and in force from then on.
    pub fn track(&mut self, sp: FixedWingSetpoint)
        requires
            old(self)@.wf(),
        ensures
            final(self)@.wf(),
            final(self)@ == old(self)@.tracking(sp),
    {
        let mut sp = sp;
        if let FwMode::Route(g) = &mut self.mode {
            sp = g.aim().make(g.config(), sp);
            if g.arriving() {
                g.latch(sp);
            }
        }
        self.setpoint = sp;
    }

    /// Takes over the controls that the controller found, within their limits.
    pub fn set_controls(&mut self, c: FixedWingControls)
        requires
            old(self)@.wf(),
        ensures
            final(self)@ == (FwSimState { controls: c.limited(old(self)@.limits), ..old(self)@ }),
            final(self)@.wf(),
    {
        self.controls = c.clamp(&self.limits);
    }

    /// Ends a step: takes over the new state, logs a sample if one is due, and counts
    /// the step.
    pub fn finish_step(&mut self, t: Real, truth: State13)
        requires
            old(self)@.wf(),
            old(self)@.tick < Tick::MAX,
        ensures
            final(self)@ == old(self)@.after_step(t, truth),
            final(self)@.wf(),
    {
        self.truth = truth;
        if self.tick % self.log_every == 0 {
            let s = FwSample { t, truth, controls: self.controls, setpoint: self.setpoint };
            scheduler::push_windowed(&mut self.log, s, self.log_cap);
        }
        self.tick = self.tick + 1;
    }

    /// One step: takes over what came of its tasks, in the order of the agenda.
    pub fn step(&mut self, step: FwStep)
        requires
            old(self)@.wf(),
            old(self)@.tick < Tick::MAX,
        ensures
            final(self)@ == old(self)@.stepped(step),
            final(self)@.wf(),
    {
        let agenda = self.agenda();
        let ghost start = self@;
        let mut i: usize = 0;
        while i < agenda.len()
            invariant
                i <= agenda.len(),
                self@ == start.tasks_done(step, agenda@.take(i as int)),
                self@.wf(),
            decreases agenda.len() - i,
        {
            assert(agenda@.take(i + 1).drop_last() =~= agenda@.take(i as int));
            match agenda[i] {
                FwTask::MoveAir => self.move_air(step.air),
                FwTask::Control => {
                    if let FwDemand::Route(_) = self.demand(step.distance) {
                        self.track(step.setpoint);
                    }
                    self.set_controls(step.controls);
                },
                _ => {},
            }
            i = i + 1;
        }
        assert(agenda@.take(agenda@.len() as int) =~= agenda@);
        proof {
            fw_agenda_prepares_the_step(start, step);
        }
        self.finish_step(step.t, step.truth);
    }
}

proof fn fw_tasks_done_in_two(
    s: FwSimState,
    step: FwStep,
    first: Seq<FwTask>,
    rest: Seq<FwTask>,
)
    ensures
        s.tasks_done(step, first + rest) == s.tasks_done(step, first).tasks_done(step, rest),
    decreases rest.len(),
{
    let all = first + rest;
    if rest.len() == 0 {
        assert(all =~= first);
    } else {
        fw_tasks_done_in_two(s, step, first, rest.drop_last());
        assert(all.drop_last() =~= first + rest.drop_last());
        assert(all.last() == rest.last());
    }
}

proof fn fw_task_done_alone(s: FwSimState, step: FwStep, task: FwTask)
    ensures
        s.tasks_done(step, seq![task]) == s.task_done(step, task),
{
    assert(seq![task].drop_last() =~= Seq::<FwTask>::empty());
    assert(s.tasks_done(step, seq![task].drop_last()) == s);
}

/// The tasks of a step, done in the order of the agenda, come to what the step's end is
/// told: the air has moved, and the controller has run if it was due.
pub proof fn fw_agenda_prepares_the_step(s: FwSimState, step: FwStep)
    requires
        s.wf(),
    ensures
        s.tasks_done(step, fw_tasks(s.tick, s.control_period, s.log_every)) == s.prepared(step),
{
    let a = seq![FwTask::MoveAir];
    let control: Seq<FwTask> = if s.tick % s.control_period == 0 {
        seq![FwTask::Control]
    } else {
        seq![]
    };
    let last = seq![FwTask::Integrate];
    let log: Seq<FwTask> = if s.tick % s.log_every == 0 {
        seq![FwTask::Log]
    } else {
        seq![]
    };
    fw_tasks_done_in_two(s, step, a + control + last, log);
    fw_tasks_done_in_two(s, step, a + control, last);
    fw_tasks_done_in_two(s, step, a, control);
    let moved = s.tasks_done(step, a);
    let ready = moved.tasks_done(step, control);
    fw_task_done_alone(s, step, FwTask::MoveAir);
    fw_task_done_alone(moved, step, FwTask::Control);
    fw_task_done_alone(ready, step, FwTask::Integrate);
    fw_task_done_alone(ready, step, FwTask::Log);
}

} // verus!
