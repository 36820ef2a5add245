//! The fixed-step scheduler of the quadrotor: what happens in which step, how the
//! autopilot is commanded, what is logged.
//!
//! A step is a list of tasks in a fixed order. The caller carries them out (noise,
//! filters, control laws, integration) and hands the results back.
use vstd::prelude::*;
use crate::atmosphere::{AirMove, Atmosphere, AtmosphereConfig, StormCell};
use crate::config::EstimatorKind;
use crate::faults::QuadFaults;
use crate::guidance::{Guidance, GuidanceConfig, GuidanceState, GuidanceTarget, Waypoint};
use crate::messages::{EstState, Setpoint, State13, Tick, Vec3};
use crate::number::Real;
use crate::recording::Recording;
use crate::telemetry::{Telemetry, TelemetrySample};

verus! {

/// Every how many steps a part runs.
#[derive(Clone, Copy, Debug, PartialEq, Eq, Structural)]
pub struct Periods {
    pub imu: Tick,
    pub mag: Tick,
    pub baro: Tick,
    pub gps: Tick,
    pub control: Tick,
}

impl Periods {
    pub open spec fn wf(self) -> bool {
        self.imu > 0 && self.mag > 0 && self.baro > 0 && self.gps > 0 && self.control > 0
    }
}

/// What the scheduler takes from the configuration of a simulator.
#[derive(Clone, Copy, Debug)]
pub struct SimSetup {
    /// Length of a step.
    pub dt: Real,
    pub periods: Periods,
    pub estimator_kind: EstimatorKind,
    /// The thrust that cancels gravity.
    pub hover: Real,
    pub atmosphere: AtmosphereConfig,
}

/// One thing to do within a step.
#[derive(Clone, Copy, Debug, PartialEq, Eq, Structural)]
pub enum Task {
    /// Move the gusts on and find the wind.
    MoveAir,
    /// Sample the IMU and let the estimator predict.
    PredictImu,
    /// Sample the magnetometer and let the estimator use it.
    UpdateMag,
    /// Sample the barometer and let the estimator use it.
    UpdateBaro,
    /// Sample the GPS and let the estimator use it.
    UpdateGps,
    /// Find the setpoint and run the controller on the estimate.
    Control,
    /// Spread the command over the motors.
    Actuate,
    /// Integrate the true state.
    Integrate,
    /// Log a sample.
    Log,
}

/// A task that runs every `period` steps.
pub open spec fn gated(tick: Tick, period: Tick, task: Task) -> Seq<Task> {
    if tick % period == 0 {
        seq![task]
    } else {
        seq![]
    }
}

/// The tasks of a step, in order.
pub open spec fn tasks(tick: Tick, p: Periods, log_every: Tick) -> Seq<Task> {
    seq![Task::MoveAir] + gated(tick, p.imu, Task::PredictImu) + gated(
        tick,
        p.mag,
        Task::UpdateMag,
    ) + gated(tick, p.baro, Task::UpdateBaro) + gated(tick, p.gps, Task::UpdateGps) + gated(
        tick,
        p.control,
        Task::Control,
    ) + seq![Task::Actuate, Task::Integrate] + gated(tick, log_every, Task::Log)
}

/// A log with one more entry, of which at most the newest `cap` are kept.
pub open spec fn windowed<S>(log: Seq<S>, s: S, cap: Option<usize>) -> Seq<S> {
    let longer = log.push(s);
    match cap {
        Some(c) => if longer.len() > c {
            longer.skip(longer.len() - c)
        } else {
            longer
        },
        None => longer,
    }
}

/// Adds an entry to a log and drops the oldest beyond `cap`.
pub fn push_windowed<S>(log: &mut Vec<S>, s: S, cap: Option<usize>)
    ensures
        final(log)@ == windowed(old(log)@, s, cap),
{
    log.push(s);
    if let Some(c) = cap {
        let n: usize = log.len();
        if n > c {
            let tail = log.split_off(n - c);
            assert(tail@ =~= windowed(old(log)@, s, cap));
            *log = tail;
        }
    }
}

/// How the autopilot is commanded.
pub enum ControlMode {
    /// The attitude setpoint is set from outside.
    Attitude,
    /// Waypoints are flown.
    Position(Guidance),
}

/// What a [`ControlMode`] stands for.
pub enum ModeState {
    Attitude,
    Position(GuidanceState),
}

impl View for ControlMode {
    type V = ModeState;

    open spec fn view(&self) -> ModeState {
        match self {
            ControlMode::Attitude => ModeState::Attitude,
            ControlMode::Position(g) => ModeState::Position(g@),
        }
    }
}

impl ModeState {
    pub open spec fn wf(self) -> bool {
        self matches ModeState::Position(g) ==> g.wf()
    }

    pub open spec fn waypoint_index(self) -> Option<usize> {
        match self {
            ModeState::Attitude => None,
            ModeState::Position(g) => Some(g.active as usize),
        }
    }

    /// Whether waypoints are flown and the last one has been reached.
    pub open spec fn arrived(self) -> bool {
        self matches ModeState::Position(g) && g.arrived
    }
}

/// What the controller of this step works towards.
#[derive(Clone, Copy, Debug, PartialEq, Eq, Structural)]
pub enum Demand {
    /// The attitude setpoint as it stands.
    Attitude(Setpoint),
    /// A position, which the outer loop turns into an attitude setpoint.
    Position(GuidanceTarget),
}

/// What a step came to.
#[derive(Clone, Copy, Debug)]
pub struct StepResult {
    pub truth: State13,
    pub estimate: EstState,
    /// The thrusts of healthy motors; those of broken ones are taken out.
    pub motors: [Real; 4],
    pub true_gyro_bias: Vec3,
    /// `None` for an estimator that has no idea of the bias.
    pub est_gyro_bias: Option<Vec3>,
}

/// What one step is given and comes to.
#[derive(Clone, Copy, Debug)]
pub struct Step {
    /// How the air moves on.
    pub air: AirMove,
    /// The distances of the waypoints ahead, by the estimate.
    pub here: Real,
    pub next: Real,
    /// The setpoint that the outer loop found, where waypoints are flown and the controller
    /// ran.
    pub setpoint: Setpoint,
    /// The time at the start of the step.
    pub t: Real,
    pub result: StepResult,
}

/// What a [`Sim`] stands for.
pub struct SimState {
    pub periods: Periods,
    pub estimator_kind: EstimatorKind,
    pub mode: ModeState,
    pub setpoint: Setpoint,
    pub air: Atmosphere,
    pub faults: QuadFaults,
    pub truth: State13,
    pub motors: Seq<Real>,
    pub tick: Tick,
    pub log: Seq<TelemetrySample>,
    pub log_every: Tick,
    pub cap: Option<usize>,
}

impl SimState {
    pub open spec fn wf(self) -> bool {
        self.periods.wf() && self.log_every > 0 && self.mode.wf()
    }

    /// At rest and level, hovering, with nothing logged yet.
    pub open spec fn start(cfg: SimSetup) -> SimState {
        SimState {
            periods: cfg.periods,
            estimator_kind: cfg.estimator_kind,
            mode: ModeState::Attitude,
            setpoint: Setpoint::level_value(cfg.hover),
            air: Atmosphere::start(cfg.atmosphere),
            faults: QuadFaults::healthy(),
            truth: State13::rest_value(),
            motors: Seq::new(4, |i: int| Real::zero_value()),
            tick: 0,
            log: Seq::empty(),
            log_every: 1,
            cap: None,
        }
    }

    /// With another logging rate, at least 1, and another cap.
    pub open spec fn with_logging(self, log_every: Tick, cap: Option<usize>) -> SimState {
        SimState {
            log_every: if log_every == 0 {
                1
            } else {
                log_every
            },
            cap,
            ..self
        }
    }

    /// What the controller works towards, at these distances of the waypoints ahead.
    pub open spec fn demanded(self, here: Real, next: Real) -> Demand {
        match self.mode {
            ModeState::Attitude => Demand::Attitude(self.setpoint),
            ModeState::Position(g) => Demand::Position(
                g.after(here, next).target(g.distance_after(here, next)),
            ),
        }
    }

    /// The state once the controller was given its demand: guidance may have gone on.
    pub open spec fn guided(self, here: Real, next: Real) -> SimState {
        SimState {
            mode: match self.mode {
                ModeState::Attitude => self.mode,
                ModeState::Position(g) => ModeState::Position(g.after(here, next)),
            },
            ..self
        }
    }

    /// Whether the controller runs in the step ahead.
    pub open spec fn controls_now(self) -> bool {
        self.tick % self.periods.control == 0
    }

    /// The state once the controller has run: guidance and the setpoint are up to date.
    pub open spec fn controlled(self, step: Step) -> SimState {
        let s = self.guided(step.here, step.next);
        if s.mode is Position {
            SimState { setpoint: step.setpoint, ..s }
        } else {
            s
        }
    }

    /// What a task of a step changes before the step ends.
    pub open spec fn task_done(self, step: Step, task: Task) -> SimState {
        match task {
            Task::MoveAir => SimState { air: self.air.moved(step.air), ..self },
            Task::Control => self.controlled(step),
            _ => self,
        }
    }

    /// The state after some tasks of a step, in order.
    pub open spec fn tasks_done(self, step: Step, list: Seq<Task>) -> SimState
        decreases list.len(),
    {
        if list.len() == 0 {
            self
        } else {
            self.tasks_done(step, list.drop_last()).task_done(step, list.last())
        }
    }

    /// The state before a step ends: the air has moved, and the controller has run if it was
    /// due.
    pub open spec fn prepared(self, step: Step) -> SimState {
        let s = SimState { air: self.air.moved(step.air), ..self };
        if s.controls_now() {
            s.controlled(step)
        } else {
            s
        }
    }

    /// The state after one step, all its tasks done.
    pub open spec fn stepped(self, step: Step) -> SimState {
        self.prepared(step).after_step(step.t, step.result)
    }

    /// The sample that a step logs. A dead rotor gives no thrust.
    pub open spec fn sample(self, t: Real, r: StepResult) -> TelemetrySample {
        TelemetrySample {
            t,
            truth: r.truth,
            estimate: r.estimate,
            setpoint: self.setpoint,
            motors: self.faults.applied_to_four(r.motors),
            true_gyro_bias: r.true_gyro_bias,
            est_gyro_bias: match r.est_gyro_bias {
                Some(b) => b,
                None => Vec3::zero_value(),
            },
        }
    }

    /// The state behind a step that came to `r`. A dead rotor gives no thrust.
    pub open spec fn after_step(self, t: Real, r: StepResult) -> SimState {
        SimState {
            truth: r.truth,
            motors: self.faults.applied(r.motors@),
            tick: (self.tick + 1) as Tick,
            log: if self.tick % self.log_every == 0 {
                windowed(self.log, self.sample(t, r), self.cap)
            } else {
                self.log
            },
            ..self
        }
    }
}

/// The scheduler and everything that it decides.
pub struct Sim {
    periods: Periods,
    estimator_kind: EstimatorKind,
    control_mode: ControlMode,
    setpoint: Setpoint,
    atmosphere: Atmosphere,
    faults: QuadFaults,
    truth: State13,
    last_motors: [Real; 4],
    tick: Tick,
    telemetry: Telemetry,
    log_every: Tick,
    history_cap: Option<usize>,
}

impl View for Sim {
    type V = SimState;

    closed spec fn view(&self) -> SimState {
        SimState {
            periods: self.periods,
            estimator_kind: self.estimator_kind,
            mode: self.control_mode@,
            setpoint: self.setpoint,
            air: self.atmosphere,
            faults: self.faults,
            truth: self.truth,
            motors: self.last_motors@,
            tick: self.tick,
            log: self.telemetry@,
            log_every: self.log_every,
            cap: self.history_cap,
        }
    }
}

impl Sim {
    /// At rest and level, hovering, with nothing logged yet.
    pub fn new(cfg: SimSetup) -> (r: Sim)
        requires
            cfg.periods.wf(),
        ensures
            r@ == SimState::start(cfg),
            r@.wf(),
    {
        let z = Real::zero();
        let r = Sim {
            periods: cfg.periods,
            estimator_kind: cfg.estimator_kind,
            control_mode: ControlMode::Attitude,
            setpoint: Setpoint::level(cfg.hover),
            atmosphere: Atmosphere::new(cfg.atmosphere),
            faults: QuadFaults::none(),
            truth: State13::at_rest(),
            last_motors: [z, z, z, z],
            tick: 0,
            telemetry: Telemetry::new(),
            log_every: 1,
            history_cap: None,
        };
        assert(r@.motors =~= SimState::start(cfg).motors);
        r
    }

    /// Logs one sample every `log_every` steps (at least 1), and keeps at most the
    /// newest `cap`.
    pub fn set_logging(&mut self, log_every: Tick, cap: Option<usize>)
        requires
            old(self)@.wf(),
        ensures
            final(self)@.wf(),
            final(self)@ == old(self)@.with_logging(log_every, cap),
    {
        self.log_every = if log_every == 0 {
            1
        } else {
            log_every
        };
        self.history_cap = cap;
    }

    /// Replaces the true state.
    pub fn set_truth(&mut self, truth: State13)
        ensures
            final(self)@ == (SimState { truth, ..old(self)@ }),
    {
        self.truth = truth;
    }

    /// Replaces the faults.
    pub fn set_faults(&mut self, faults: QuadFaults)
        ensures
            final(self)@ == (SimState { faults, ..old(self)@ }),
    {
        self.faults = faults;
    }

    /// Whether anything is broken.
    pub fn faulted(&self) -> (r: bool)
        ensures
            r == (self@.faults != QuadFaults::healthy()),
    {
        self.faults.any()
    }

    /// The thrusts with the dead rotor's taken out.
    pub fn apply_motors(&self, thrust: [Real; 4]) -> (r: [Real; 4])
        ensures
            r@ == self@.faults.applied(thrust@),
            r == self@.faults.applied_to_four(thrust),
    {
        self.faults.apply_motors(thrust)
    }

    /// Sets the attitude setpoint, and flies by it from now on.
    pub fn set_setpoint(&mut self, sp: Setpoint)
        ensures
            final(self)@ == (SimState { setpoint: sp, mode: ModeState::Attitude, ..old(self)@ }),
    {
        self.setpoint = sp;
        self.control_mode = ControlMode::Attitude;
    }

    /// Flies a list of waypoints from now on. Only the INS knows where the aircraft
    /// is.
    pub fn set_mission(&mut self, waypoints: Vec<Waypoint>, gcfg: GuidanceConfig)
        requires
            old(self)@.estimator_kind == EstimatorKind::Ins,
        ensures
            final(self)@ == (SimState {
                mode: ModeState::Position(GuidanceState::start(waypoints@, gcfg)),
                ..old(self)@
            }),
            final(self)@.mode.wf(),
    {
        self.control_mode = ControlMode::Position(Guidance::new(waypoints, gcfg));
    }

    /// The active waypoint, if waypoints are flown.
    pub fn waypoint_index(&self) -> (r: Option<usize>)
        ensures
            r == self@.mode.waypoint_index(),
    {
        match &self.control_mode {
            ControlMode::Position(g) => Some(g.current_index()),
            ControlMode::Attitude => None,
        }
    }

    /// Whether waypoints are flown and the last one has been reached.
    pub fn arrived(&self) -> (r: bool)
        ensures
            r == self@.mode.arrived(),
    {
        match &self.control_mode {
            ControlMode::Position(g) => g.arrived(),
            ControlMode::Attitude => false,
        }
    }

    pub fn estimator_kind(&self) -> (r: EstimatorKind)
        ensures
            r == self@.estimator_kind,
    {
        self.estimator_kind
    }

    /// Steps since the start.
    pub fn tick(&self) -> (r: Tick)
        ensures
            r == self@.tick,
    {
        self.tick
    }

    pub fn truth(&self) -> (r: &State13)
        ensures
            *r == self@.truth,
    {
        &self.truth
    }

    pub fn setpoint(&self) -> (r: Setpoint)
        ensures
            r == self@.setpoint,
    {
        self.setpoint
    }

    /// Thrust of each motor in the last step.
    pub fn motors(&self) -> (r: [Real; 4])
        ensures
            r@ == self@.motors,
    {
        self.last_motors
    }

    pub fn atmosphere(&self) -> (r: &Atmosphere)
        ensures
            *r == self@.air,
    {
        &self.atmosphere
    }

    /// Moves the air on by a step.
    pub fn move_air(&mut self, m: AirMove)
        ensures
            final(self)@ == (SimState { air: old(self)@.air.moved(m), ..old(self)@ }),
    {
        self.atmosphere.move_on(m);
    }

    /// Sets the steady wind.
    pub fn set_wind(&mut self, wind_ned: Vec3)
        ensures
            final(self)@ == (SimState { air: old(self)@.air.with_wind(wind_ned), ..old(self)@ }),
    {
        self.atmosphere.set_wind(wind_ned);
    }

    /// Sets the turbulence intensity.
    pub fn set_turbulence(&mut self, rms: Real)
        ensures
            final(self)@ == (SimState { air: old(self)@.air.with_turbulence(rms), ..old(self)@ }),
    {
        self.atmosphere.set_turbulence(rms);
    }

    /// Places the storm cell, or takes it away.
    pub fn set_storm(&mut self, storm: Option<StormCell>)
        ensures
            final(self)@ == (SimState { air: old(self)@.air.with_storm(storm), ..old(self)@ }),
    {
        self.atmosphere.set_storm(storm);
    }

    pub fn telemetry(&self) -> (r: &Telemetry)
        ensures
            r@ == self@.log,
    {
        &self.telemetry
    }

    /// What has been logged, as a recording.
    pub fn recording(&self) -> (r: Recording)
        ensures
            r@ == self@.log,
    {
        let samples = self.telemetry.samples.clone();
        assert(samples@ =~= self.telemetry.samples@);
        Recording::from_samples(samples)
    }

    /// What there is to do in the step ahead, in order.
    pub fn agenda(&self) -> (r: Vec<Task>)
        requires
            self@.wf(),
        ensures
            r@ == tasks(self@.tick, self@.periods, self@.log_every),
    {
        let mut r: Vec<Task> = Vec::new();
        r.push(Task::MoveAir);
        if self.tick % self.periods.imu == 0 {
            r.push(Task::PredictImu);
        }
        if self.tick % self.periods.mag == 0 {
            r.push(Task::UpdateMag);
        }
        if self.tick % self.periods.baro == 0 {
            r.push(Task::UpdateBaro);
        }
        if self.tick % self.periods.gps == 0 {
            r.push(Task::UpdateGps);
        }
        if self.tick % self.periods.control == 0 {
            r.push(Task::Control);
        }
        r.push(Task::Actuate);
        r.push(Task::Integrate);
        if self.tick % self.log_every == 0 {
            r.push(Task::Log);
        }
        assert(r@ =~= tasks(self@.tick, self@.periods, self@.log_every));
        r
    }

    /// The waypoints that [`Sim::demand`] wants the distances of.
    pub fn ahead(&self) -> (r: (Option<Waypoint>, Option<Waypoint>))
        requires
            self@.wf(),
        ensures
            r == (match self@.mode {
                ModeState::Position(g) => (g.ahead(0), g.ahead(1)),
                ModeState::Attitude => (None, None),
            }),
    {
        match &self.control_mode {
            ControlMode::Position(g) => g.ahead(),
            ControlMode::Attitude => (None, None),
        }
    }

    /// What the controller works towards, with nothing changed yet.
    pub fn demanded(&self, here: Real, next: Real) -> (r: Demand)
        requires
            self@.wf(),
        ensures
            r == self@.demanded(here, next),
    {
        match &self.control_mode {
            ControlMode::Attitude => Demand::Attitude(self.setpoint),
            ControlMode::Position(g) => Demand::Position(g.preview(here, next)),
        }
    }

    /// What the controller works towards. Where waypoints are flown, this goes on to
    /// the next one if the active one is reached; `here` and `next` are the distances
    /// to the waypoints of [`Sim::ahead`].
    pub fn demand(&mut self, here: Real, next: Real) -> (r: Demand)
        requires
            old(self)@.wf(),
        ensures
            final(self)@.wf(),
            final(self)@ == old(self)@.guided(here, next),
            r == old(self)@.demanded(here, next),
    {
        match &mut self.control_mode {
            ControlMode::Attitude => Demand::Attitude(self.setpoint),
            ControlMode::Position(g) => Demand::Position(g.update(here, next)),
        }
    }

    /// Takes over the setpoint that the inner controller is given, without changing
    /// how the autopilot is commanded.
    pub fn track(&mut self, sp: Setpoint)
        ensures
            final(self)@ == (SimState { setpoint: sp, ..old(self)@ }),
    {
        self.setpoint = sp;
    }

    /// Ends a step: takes over what it came to, logs a sample if one is due, and
    /// counts the step.
    pub fn finish_step(&mut self, t: Real, r: StepResult)
        requires
            old(self)@.wf(),
            old(self)@.tick < Tick::MAX,
        ensures
            final(self)@.wf(),
            final(self)@ == old(self)@.after_step(t, r),
    {
        self.truth = r.truth;
        let motors = self.faults.apply_motors(r.motors);
        self.last_motors = motors;
        if self.tick % self.log_every == 0 {
            let bias = match r.est_gyro_bias {
                Some(b) => b,
                None => Vec3::zeros(),
            };
            let sample = TelemetrySample {
                t,
                truth: r.truth,
                estimate: r.estimate,
                setpoint: self.setpoint,
                motors,
                true_gyro_bias: r.true_gyro_bias,
                est_gyro_bias: bias,
            };
            push_windowed(&mut self.telemetry.samples, sample, self.history_cap);
        }
        self.tick = self.tick + 1;
    }

    /// One step: takes over what came of its tasks, in the order of the agenda.
    pub fn step(&mut self, step: Step)
        requires
            old(self)@.wf(),
            old(self)@.tick < Tick::MAX,
        ensures
            final(self)@ == old(self)@.stepped(step),
            final(self)@.wf(),
    {
        let agenda = self.agenda();
        let ghost start = self@;
        let mut i: usize = 0;
        while i < agenda.len()
            invariant
                i <= agenda.len(),
                self@ == start.tasks_done(step, agenda@.take(i as int)),
                self@.wf(),
            decreases agenda.len() - i,
        {
            assert(agenda@.take(i + 1).drop_last() =~= agenda@.take(i as int));
            match agenda[i] {
                Task::MoveAir => self.move_air(step.air),
                Task::Control => {
                    if let Demand::Position(_) = self.demand(step.here, step.next) {
                        self.track(step.setpoint);
                    }
                },
                _ => {},
            }
            i = i + 1;
        }
        assert(agenda@.take(agenda@.len() as int) =~= agenda@);
        proof {
            agenda_prepares_the_step(start, step);
        }
        self.finish_step(step.t, step.result);
    }
}

proof fn tasks_done_in_two(s: SimState, step: Step, first: Seq<Task>, rest: Seq<Task>)
    ensures
        s.tasks_done(step, first + rest) == s.tasks_done(step, first).tasks_done(step, rest),
    decreases rest.len(),
{
    let all = first + rest;
    if rest.len() == 0 {
        assert(all =~= first);
    } else {
        tasks_done_in_two(s, step, first, rest.drop_last());
        assert(all.drop_last() =~= first + rest.drop_last());
        assert(all.last() == rest.last());
    }
}

proof fn gated_task_done(s: SimState, step: Step, before: Seq<Task>, period: Tick, task: Task)
    ensures
        s.tasks_done(step, before + gated(s.tick, period, task)) == (if s.tick % period == 0 {
            s.tasks_done(step, before).task_done(step, task)
        } else {
            s.tasks_done(step, before)
        }),
{
    let list = gated(s.tick, period, task);
    tasks_done_in_two(s, step, before, list);
    let mid = s.tasks_done(step, before);
    if s.tick % period == 0 {
        assert(list.drop_last() =~= Seq::<Task>::empty());
        assert(mid.tasks_done(step, list.drop_last()) == mid);
    }
}

/// The tasks of a step, done in the order of the agenda, come to what the step's end is
/// told: the air has moved, and the controller has run if it was due, on what the sensors
/// and the estimator came to before it.
pub proof fn agenda_prepares_the_step(s: SimState, step: Step)
    requires
        s.wf(),
    ensures
        s.tasks_done(step, tasks(s.tick, s.periods, s.log_every)) == s.prepared(step),
{
    let p = s.periods;
    let a = seq![Task::MoveAir];
    let b = a + gated(s.tick, p.imu, Task::PredictImu);
    let c = b + gated(s.tick, p.mag, Task::UpdateMag);
    let d = c + gated(s.tick, p.baro, Task::UpdateBaro);
    let e = d + gated(s.tick, p.gps, Task::UpdateGps);
    let f = e + gated(s.tick, p.control, Task::Control);
    let last = seq![Task::Actuate, Task::Integrate];
    let g = f + last;
    assert(a.drop_last() =~= Seq::<Task>::empty());
    assert(s.tasks_done(step, a.drop_last()) == s);
    gated_task_done(s, step, a, p.imu, Task::PredictImu);
    gated_task_done(s, step, b, p.mag, Task::UpdateMag);
    gated_task_done(s, step, c, p.baro, Task::UpdateBaro);
    gated_task_done(s, step, d, p.gps, Task::UpdateGps);
    gated_task_done(s, step, e, p.control, Task::Control);
    tasks_done_in_two(s, step, f, last);
    let mid = s.tasks_done(step, f);
    assert(last.drop_last().drop_last() =~= Seq::<Task>::empty());
    assert(mid.tasks_done(step, last.drop_last().drop_last()) == mid);
    assert(mid.tasks_done(step, last.drop_last()) == mid);
    gated_task_done(s, step, g, s.log_every, Task::Log);
}

} // verus!
