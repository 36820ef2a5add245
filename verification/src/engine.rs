//! The quadrotor's engine: what a command does to a running simulation, how many
//! steps are due, what is shown of it.
//!
//! A worker thread owns a [`Worker`]. It hands over the commands it receives, takes
//! the steps it is told to take, and publishes the snapshots.
use vstd::prelude::*;
use crate::atmosphere::StormCell;
use crate::config::EstimatorKind;
use crate::faults::QuadFaults;
use crate::guidance::{GuidanceConfig, GuidanceState, Waypoint};
use crate::messages::{EstState, Setpoint, State13, Tick, Vec3};
use crate::number::Real;
use crate::scheduler::{ModeState, Sim, SimSetup, SimState, Step};
use crate::telemetry::TelemetrySample;
use crate::schedule_laws;

verus! {

/// What is shown of a simulation.
#[derive(Clone, Copy, Debug, PartialEq, Eq)]
pub struct Snapshot {
    pub t: Real,
    pub tick: Tick,
    pub truth: State13,
    pub estimate: EstState,
    pub setpoint: Setpoint,
    pub motors: [Real; 4],
    pub true_gyro_bias: Vec3,
    pub est_gyro_bias: Vec3,
    /// Whether the estimator has an idea of the bias.
    pub has_bias: bool,
    pub waypoint_index: Option<usize>,
    /// Steady wind speed.
    pub wind_speed: Real,
    /// Strength of the gust.
    pub gust: Real,
    /// How deep in the storm.
    pub storm: Real,
    pub paused: bool,
    pub recording: bool,
    /// Counts the publications, whether or not the simulation steps.
    pub seq: u64,
}

/// What a snapshot shows besides the scheduler's own state.
#[derive(Clone, Copy, Debug, PartialEq, Eq, Structural)]
pub struct Readings {
    pub t: Real,
    pub estimate: EstState,
    pub true_gyro_bias: Vec3,
    pub est_gyro_bias: Option<Vec3>,
    pub wind_speed: Real,
    pub gust: Real,
}

/// Whether all parts of a vector are zero.
pub open spec fn is_zero(v: Vec3) -> bool {
    v.x.same(Real::zero_value()) && v.y.same(Real::zero_value()) && v.z.same(Real::zero_value())
}

impl Snapshot {
    /// Shows state `s` with the given readings.
    pub open spec fn shows(
        self,
        s: SimState,
        r: Readings,
        seq: u64,
        paused: bool,
        recording: bool,
    ) -> bool {
        &&& self.t == r.t
        &&& self.tick == s.tick
        &&& self.truth == s.truth
        &&& self.estimate == r.estimate
        &&& self.setpoint == s.setpoint
        &&& self.motors@ == s.motors
        &&& self.true_gyro_bias == r.true_gyro_bias
        &&& self.est_gyro_bias == (match r.est_gyro_bias {
            Some(b) => b,
            None => Vec3::zero_value(),
        })
        &&& self.has_bias == (r.est_gyro_bias is Some)
        &&& self.waypoint_index == s.mode.waypoint_index()
        &&& self.wind_speed == r.wind_speed
        &&& self.gust == r.gust
        &&& self.storm == s.air.last_g
        &&& self.paused == paused
        &&& self.recording == recording
        &&& self.seq == seq
    }

    /// Shows the state of a simulation.
    pub fn from_sim(sim: &Sim, r: &Readings, seq: u64, paused: bool, recording: bool) -> (v:
        Snapshot)
        ensures
            v.shows(sim@, *r, seq, paused, recording),
    {
        let bias = match r.est_gyro_bias {
            Some(b) => b,
            None => Vec3::zeros(),
        };
        Snapshot {
            t: r.t,
            tick: sim.tick(),
            truth: *sim.truth(),
            estimate: r.estimate,
            setpoint: sim.setpoint(),
            motors: sim.motors(),
            true_gyro_bias: r.true_gyro_bias,
            est_gyro_bias: bias,
            has_bias: r.est_gyro_bias.is_some(),
            waypoint_index: sim.waypoint_index(),
            wind_speed: r.wind_speed,
            gust: r.gust,
            storm: sim.atmosphere().storm_intensity(),
            paused,
            recording,
            seq,
        }
    }

    /// What a recorded sample shows. A recording knows nothing of steps, waypoints
    /// and weather.
    pub open spec fn of_sample(s: TelemetrySample) -> Snapshot {
        Snapshot {
            t: s.t,
            tick: 0,
            truth: s.truth,
            estimate: s.estimate,
            setpoint: s.setpoint,
            motors: s.motors,
            true_gyro_bias: s.true_gyro_bias,
            est_gyro_bias: s.est_gyro_bias,
            has_bias: !is_zero(s.est_gyro_bias),
            waypoint_index: None,
            wind_speed: Real::zero_value(),
            gust: Real::zero_value(),
            storm: Real::zero_value(),
            paused: false,
            recording: false,
            seq: 0,
        }
    }

    /// Shows a recorded sample.
    pub fn from_telemetry_sample(s: &TelemetrySample) -> (v: Snapshot)
        ensures
            v == Snapshot::of_sample(*s),
    {
        let z = Real::zero();
        let b = s.est_gyro_bias;
        Snapshot {
            t: s.t,
            tick: 0,
            truth: s.truth,
            estimate: s.estimate,
            setpoint: s.setpoint,
            motors: s.motors,
            true_gyro_bias: s.true_gyro_bias,
            est_gyro_bias: b,
            has_bias: !(b.x.equals(z) && b.y.equals(z) && b.z.equals(z)),
            waypoint_index: None,
            wind_speed: z,
            gust: z,
            storm: z,
            paused: false,
            recording: false,
            seq: 0,
        }
    }
}

/// Holds the value published last.
#[derive(Debug)]
pub struct LatestCell<T: Copy> {
    value: T,
}

impl<T: Copy> LatestCell<T> {
    pub closed spec fn latest(&self) -> T {
        self.value
    }

    pub fn new(init: T) -> (r: LatestCell<T>)
        ensures
            r.latest() == init,
    {
        LatestCell { value: init }
    }

    /// Replaces the value.
    pub fn publish(&mut self, v: T)
        ensures
            final(self).latest() == v,
    {
        self.value = v;
    }

    pub fn load(&self) -> (r: T)
        ensures
            r == self.latest(),
    {
        self.value
    }
}

/// What a running simulation can be told.
#[derive(Debug)]
pub enum Command {
    SetSetpoint(Setpoint),
    SetMission { waypoints: Vec<Waypoint>, guidance: GuidanceConfig },
    /// Hold the setpoint that is in force.
    SetAttitudeMode,
    SetWind(Vec3),
    SetTurbulence(Real),
    SetStorm(Option<StormCell>),
    SetFaults(QuadFaults),
    Pause(bool),
    /// How much faster than the clock, within `[0, 16]`.
    SetSpeed(Real),
    /// Start over with another configuration.
    Reset(SimSetup),
    /// Keep everything that is logged from now on, or say that it need not be kept.
    Record(bool),
    /// Write what has been logged to a file.
    SaveRecording,
    Shutdown,
}

/// What is left to do after a command.
#[derive(Clone, Copy, Debug, PartialEq, Eq, Structural)]
pub enum Effect {
    Nothing,
    /// Rebuild the parts of the simulator from the new configuration.
    Rebuild,
    /// Write the log to a file.
    Save,
    /// End the run.
    Stop,
}

/// How much is logged while the engine runs.
#[derive(Clone, Copy, Debug, PartialEq, Eq, Structural)]
pub struct LoggingCfg {
    pub log_every: Tick,
    pub cap: Option<usize>,
}

impl Default for LoggingCfg {
    /// Every fifth step, the newest 4000 samples.
    fn default() -> (r: LoggingCfg)
        ensures
            r == (LoggingCfg { log_every: 5, cap: Some(4000) }),
    {
        LoggingCfg { log_every: 5, cap: Some(4000) }
    }
}

/// How the steps are driven.
#[derive(Clone, Copy, Debug, PartialEq, Eq, Structural)]
pub enum RunMode {
    /// By the clock.
    Realtime { speed: Real },
    /// A number of steps, and then no more.
    FixedSteps { total: u64 },
}

/// The engine has ended; the command was not delivered.
#[derive(Clone, Copy, Debug, PartialEq, Eq, Structural)]
pub struct EngineClosed;

/// What a run came to.
#[derive(Clone, Copy, Debug, PartialEq, Eq, Structural)]
pub struct RunReport {
    pub steps_taken: Tick,
    pub final_tick: Tick,
    pub rejected_missions: u64,
}

impl RunReport {
    pub open spec fn nothing() -> RunReport {
        RunReport { steps_taken: 0, final_tick: 0, rejected_missions: 0 }
    }

    /// The report on a run that nothing is known of.
    pub fn empty() -> (r: RunReport)
        ensures
            r == RunReport::nothing(),
    {
        RunReport { steps_taken: 0, final_tick: 0, rejected_missions: 0 }
    }
}

/// The largest number of steps between two looks at the commands, in a run of a
/// fixed length.
pub const FIXED_BATCH: u64 = 50;

/// The largest number of steps that a run by the clock catches up at once.
pub const CATCH_UP: u64 = 250;

/// Milliseconds between two publications of the log.
pub const TELEMETRY_PERIOD_MS: u128 = 50;

/// Whether the log is to be published again, so long after the last time.
pub fn telemetry_due(elapsed_ms: u128) -> (r: bool)
    ensures
        r == (elapsed_ms >= TELEMETRY_PERIOD_MS),
{
    elapsed_ms >= TELEMETRY_PERIOD_MS
}

/// The time that a run by the clock takes account of: at most a quarter of a second.
pub fn counted_time(elapsed: Real) -> (r: Real)
    ensures
        r == elapsed.smaller(Real { bits: 0x3fd0_0000_0000_0000 }),
{
    elapsed.min(Real::from_bits(0x3fd0_0000_0000_0000))
}

/// What a run of a fixed length does next.
#[derive(Clone, Copy, Debug, PartialEq, Eq, Structural)]
pub enum FixedMove {
    /// Take this many steps.
    Steps(u64),
    /// Take none for now.
    Wait,
    /// All steps are taken.
    Finished,
}

/// A speed within `[0, 16]`.
pub open spec fn limited_speed(speed: Real) -> Real {
    speed.clamped_to(Real::zero_value(), Real { bits: 0x4030_0000_0000_0000 })
}

/// A speed within `[0, 16]`.
pub fn limit_speed(speed: Real) -> (r: Real)
    ensures
        r == limited_speed(speed),
{
    speed.clamp(Real::zero(), Real::from_bits(0x4030_0000_0000_0000))
}

/// What a [`Worker`] stands for.
pub struct WorkerState {
    pub sim: SimState,
    /// Length of a step.
    pub dt: Real,
    pub logging: LoggingCfg,
    pub paused: bool,
    pub speed: Real,
    pub recording: bool,
    /// Publications so far.
    pub seq: u64,
    /// Missions turned down so far.
    pub rejected: u64,
}

impl WorkerState {
    pub open spec fn wf(self) -> bool {
        self.sim.wf()
    }

    /// A run that has not started.
    pub open spec fn start(cfg: SimSetup, mode: RunMode, logging: LoggingCfg) -> WorkerState {
        WorkerState {
            sim: SimState::start(cfg).with_logging(logging.log_every, logging.cap),
            dt: cfg.dt,
            logging,
            paused: false,
            speed: match mode {
                RunMode::Realtime { speed } => limited_speed(speed),
                RunMode::FixedSteps { .. } => Real::one_value(),
            },
            recording: false,
            seq: 0,
            rejected: 0,
        }
    }

    /// The state after a command.
    pub open spec fn after(self, cmd: Command) -> WorkerState {
        match cmd {
            Command::SetSetpoint(sp) => WorkerState {
                sim: SimState { setpoint: sp, mode: ModeState::Attitude, ..self.sim },
                ..self
            },
            Command::SetMission { waypoints, guidance } => if self.sim.estimator_kind
                == EstimatorKind::Ins {
                WorkerState {
                    sim: SimState {
                        mode: ModeState::Position(GuidanceState::start(waypoints@, guidance)),
                        ..self.sim
                    },
                    ..self
                }
            } else {
                WorkerState { rejected: (self.rejected + 1) as u64, ..self }
            },
            Command::SetAttitudeMode => WorkerState {
                sim: SimState { mode: ModeState::Attitude, ..self.sim },
                ..self
            },
            Command::SetWind(w) => WorkerState {
                sim: SimState { air: self.sim.air.with_wind(w), ..self.sim },
                ..self
            },
            Command::SetTurbulence(rms) => WorkerState {
                sim: SimState { air: self.sim.air.with_turbulence(rms), ..self.sim },
                ..self
            },
            Command::SetStorm(s) => WorkerState {
                sim: SimState { air: self.sim.air.with_storm(s), ..self.sim },
                ..self
            },
            Command::SetFaults(faults) => WorkerState {
                sim: SimState { faults, ..self.sim },
                ..self
            },
            Command::Pause(p) => WorkerState { paused: p, ..self },
            Command::SetSpeed(s) => WorkerState { speed: limited_speed(s), ..self },
            Command::Reset(cfg) => WorkerState {
                sim: SimState::start(cfg).with_logging(self.logging.log_every, self.logging.cap),
                dt: cfg.dt,
                paused: false,
                recording: false,
                ..self
            },
            Command::Record(on) => WorkerState {
                sim: if on {
                    self.sim.with_logging(self.logging.log_every, None)
                } else {
                    self.sim
                },
                recording: on,
                ..self
            },
            Command::SaveRecording => self,
            Command::Shutdown => self,
        }
    }

    /// What is left to do after a command.
    pub open spec fn effect(cmd: Command) -> Effect {
        match cmd {
            Command::Reset(_) => Effect::Rebuild,
            Command::SaveRecording => Effect::Save,
            Command::Shutdown => Effect::Stop,
            _ => Effect::Nothing,
        }
    }

    /// How many of the steps that are due by the clock are taken.
    pub open spec fn realtime_steps(self, due: u64) -> u64 {
        if self.paused {
            0
        } else if due < CATCH_UP {
            due
        } else {
            CATCH_UP
        }
    }

    /// What a run of `total` steps does next when `done` are taken.
    pub open spec fn fixed_move(self, done: u64, total: u64) -> FixedMove {
        if done >= total {
            FixedMove::Finished
        } else if self.paused {
            FixedMove::Wait
        } else {
            FixedMove::Steps(next_batch(done, total))
        }
    }
}

/// How many steps a run of `total` takes at once when `done` are taken.
pub open spec fn next_batch(done: u64, total: u64) -> u64 {
    if total - done < FIXED_BATCH {
        (total - done) as u64
    } else {
        FIXED_BATCH
    }
}

/// A running simulation and how it is driven.
pub struct Worker {
    pub sim: Sim,
    dt: Real,
    logging: LoggingCfg,
    paused: bool,
    speed: Real,
    recording: bool,
    seq: u64,
    rejected: u64,
}

impl View for Worker {
    type V = WorkerState;

    closed spec fn view(&self) -> WorkerState {
        WorkerState {
            sim: self.sim@,
            dt: self.dt,
            logging: self.logging,
            paused: self.paused,
            speed: self.speed,
            recording: self.recording,
            seq: self.seq,
            rejected: self.rejected,
        }
    }
}

impl Worker {
    /// A run that has not started.
    pub fn new(cfg: SimSetup, mode: RunMode, logging: LoggingCfg) -> (r: Worker)
        requires
            cfg.periods.wf(),
        ensures
            r@ == WorkerState::start(cfg, mode, logging),
            r@.wf(),
    {
        let mut sim = Sim::new(cfg);
        sim.set_logging(logging.log_every, logging.cap);
        let speed = match mode {
            RunMode::Realtime { speed } => limit_speed(speed),
            RunMode::FixedSteps { .. } => Real::one(),
        };
        Worker {
            sim,
            dt: cfg.dt,
            logging,
            paused: false,
            speed,
            recording: false,
            seq: 0,
            rejected: 0,
        }
    }

    /// Obeys a command, and says what is left to do.
    pub fn handle(&mut self, cmd: Command) -> (r: Effect)
        requires
            old(self)@.wf(),
            old(self)@.rejected < u64::MAX,
            cmd matches Command::Reset(cfg) ==> cfg.periods.wf(),
        ensures
            final(self)@ == old(self)@.after(cmd),
            final(self)@.wf(),
            r == WorkerState::effect(cmd),
    {
        match cmd {
            Command::SetSetpoint(sp) => {
                self.sim.set_setpoint(sp);
            },
            Command::SetMission { waypoints, guidance } => {
                if self.sim.estimator_kind() == EstimatorKind::Ins {
                    self.sim.set_mission(waypoints, guidance);
                } else {
                    self.rejected = self.rejected + 1;
                }
            },
            Command::SetAttitudeMode => {
                let sp = self.sim.setpoint();
                self.sim.set_setpoint(sp);
            },
            Command::SetWind(w) => {
                self.sim.set_wind(w);
            },
            Command::SetTurbulence(rms) => {
                self.sim.set_turbulence(rms);
            },
            Command::SetStorm(s) => {
                self.sim.set_storm(s);
            },
            Command::SetFaults(faults) => {
                self.sim.set_faults(faults);
            },
            Command::Pause(p) => {
                self.paused = p;
            },
            Command::SetSpeed(s) => {
                self.speed = limit_speed(s);
            },
            Command::Reset(cfg) => {
                self.sim = Sim::new(cfg);
                self.sim.set_logging(self.logging.log_every, self.logging.cap);
                self.dt = cfg.dt;
                self.paused = false;
                self.recording = false;
                return Effect::Rebuild;
            },
            Command::Record(on) => {
                self.recording = on;
                if on {
                    self.sim.set_logging(self.logging.log_every, None);
                }
            },
            Command::SaveRecording => {
                return Effect::Save;
            },
            Command::Shutdown => {
                return Effect::Stop;
            },
        }
        Effect::Nothing
    }

    /// Counts a publication and gives the snapshot to publish.
    pub fn publish(&mut self, r: &Readings) -> (v: Snapshot)
        requires
            old(self)@.seq < u64::MAX,
        ensures
            final(self)@ == (WorkerState { seq: (old(self)@.seq + 1) as u64, ..old(self)@ }),
            v.shows(
                old(self)@.sim,
                *r,
                final(self)@.seq,
                old(self)@.paused,
                old(self)@.recording,
            ),
    {
        self.seq = self.seq + 1;
        Snapshot::from_sim(&self.sim, r, self.seq, self.paused, self.recording)
    }

    /// How many of the steps that are due by the clock are to be taken: none while
    /// paused, and never more than can be caught up.
    pub fn realtime_steps(&self, due: u64) -> (r: u64)
        ensures
            r == self@.realtime_steps(due),
    {
        if self.paused {
            0
        } else if due < CATCH_UP {
            due
        } else {
            CATCH_UP
        }
    }

    /// What a run of `total` steps does next when `done` are taken.
    pub fn fixed_move(&self, done: u64, total: u64) -> (r: FixedMove)
        ensures
            r == self@.fixed_move(done, total),
    {
        if done >= total {
            FixedMove::Finished
        } else if self.paused {
            FixedMove::Wait
        } else if total - done < FIXED_BATCH {
            FixedMove::Steps(total - done)
        } else {
            FixedMove::Steps(FIXED_BATCH)
        }
    }

    pub fn is_paused(&self) -> (r: bool)
        ensures
            r == self@.paused,
    {
        self.paused
    }

    pub fn speed(&self) -> (r: Real)
        ensures
            r == self@.speed,
    {
        self.speed
    }

    pub fn dt(&self) -> (r: Real)
        ensures
            r == self@.dt,
    {
        self.dt
    }

    /// What the run came to.
    pub fn report(&self) -> (r: RunReport)
        ensures
            r == (RunReport {
                steps_taken: self@.sim.tick,
                final_tick: self@.sim.tick,
                rejected_missions: self@.rejected,
            }),
    {
        RunReport {
            steps_taken: self.sim.tick(),
            final_tick: self.sim.tick(),
            rejected_missions: self.rejected,
        }
    }
}

// ---- laws -------------------------------------------------------------------

/// The batches that a run of `total` steps takes from `done` on.
pub open spec fn batches(done: u64, total: u64) -> Seq<u64>
    decreases total - done,
{
    if done >= total {
        seq![]
    } else {
        let b = next_batch(done, total);
        seq![b] + batches((done + b) as u64, total)
    }
}

/// The sum of the batches.
pub open spec fn sum(s: Seq<u64>) -> int
    decreases s.len(),
{
    if s.len() == 0 {
        0
    } else {
        s[0] + sum(s.drop_first())
    }
}

/// A run of a fixed length takes exactly the steps it was given: no more, no fewer.
pub proof fn fixed_run_takes_its_steps(done: u64, total: u64)
    requires
        done <= total,
    ensures
        sum(batches(done, total)) == total - done,
    decreases total - done,
{
    if done < total {
        let b = next_batch(done, total);
        fixed_run_takes_its_steps((done + b) as u64, total);
        assert(batches(done, total).drop_first() =~= batches((done + b) as u64, total));
    }
}

/// The state after a run of `total` steps was driven to its end from step `done` on, in
/// batches, each followed by a publication. `steps` are the steps of the whole run.
pub open spec fn fixed_run(w: WorkerState, steps: Seq<Step>, done: u64, total: u64) -> WorkerState
    decreases total - done,
{
    match w.fixed_move(done, total) {
        FixedMove::Steps(n) => if done < total {
            fixed_run(
                WorkerState {
                    sim: schedule_laws::run(w.sim, steps.subrange(done as int, done + n)),
                    seq: (w.seq + 1) as u64,
                    ..w
                },
                steps,
                (done + n) as u64,
                total,
            )
        } else {
            w
        },
        _ => w,
    }
}

/// A run of a fixed length, nothing being sent to it, ends where a headless run of the same
/// steps ends: batches and publications in between make no difference.
pub proof fn fixed_run_goes_on_as_headless(w: WorkerState, steps: Seq<Step>, done: u64, total: u64)
    requires
        !w.paused,
        done <= total,
        steps.len() == total,
    ensures
        fixed_run(w, steps, done, total).sim == schedule_laws::run(w.sim, steps.skip(done as int)),
        !fixed_run(w, steps, done, total).paused,
        fixed_run(w, steps, done, total).rejected == w.rejected,
    decreases total - done,
{
    if done < total {
        let n = next_batch(done, total);
        let now = steps.subrange(done as int, done + n);
        let on = WorkerState { sim: schedule_laws::run(w.sim, now), seq: (w.seq + 1) as u64, ..w };
        fixed_run_goes_on_as_headless(on, steps, (done + n) as u64, total);
        schedule_laws::batches_make_no_difference(w.sim, now, steps.skip(done + n));
        assert(now + steps.skip(done + n) =~= steps.skip(done as int));
    } else {
        assert(steps.skip(done as int) =~= Seq::<Step>::empty());
    }
}

/// From the start, a run of a fixed length logs, sample for sample, what a headless run with
/// the same logging logs, and reports all its steps.
pub proof fn fixed_run_matches_headless(
    cfg: SimSetup,
    logging: LoggingCfg,
    total: u64,
    steps: Seq<Step>,
)
    requires
        cfg.periods.wf(),
        steps.len() == total,
        total <= Tick::MAX,
    ensures
        ({
            let w = WorkerState::start(cfg, (RunMode::FixedSteps { total }), logging);
            let end = fixed_run(w, steps, 0, total);
            let alone = schedule_laws::run(
                SimState::start(cfg).with_logging(logging.log_every, logging.cap),
                steps,
            );
            &&& end.sim == alone
            &&& end.sim.log == alone.log
            &&& end.sim.tick == total
            &&& end.rejected == 0
        }),
{
    let w = WorkerState::start(cfg, (RunMode::FixedSteps { total }), logging);
    fixed_run_goes_on_as_headless(w, steps, 0, total);
    assert(steps.skip(0) =~= steps);
    schedule_laws::run_counts_its_steps(w.sim, steps);
}

/// While paused no step is taken, by the clock or otherwise, and pausing itself
/// leaves the simulation as it is.
pub proof fn pause_takes_no_step(w: WorkerState, due: u64, done: u64, total: u64)
    ensures
        w.after(Command::Pause(true)).sim == w.sim,
        w.after(Command::Pause(true)).realtime_steps(due) == 0,
        !(w.after(Command::Pause(true)).fixed_move(done, total) is Steps),
{
}

/// A reset goes back to step 0 of the new configuration, lets the simulation run
/// and ends a recording; it does not touch the counts of the run.
pub proof fn reset_starts_over(w: WorkerState, cfg: SimSetup)
    ensures
        w.after(Command::Reset(cfg)).sim.tick == 0,
        w.after(Command::Reset(cfg)).sim.log.len() == 0,
        w.after(Command::Reset(cfg)).sim.estimator_kind == cfg.estimator_kind,
        !w.after(Command::Reset(cfg)).paused,
        !w.after(Command::Reset(cfg)).recording,
        w.after(Command::Reset(cfg)).seq == w.seq,
        w.after(Command::Reset(cfg)).rejected == w.rejected,
{
}

/// A mission is flown only with an estimator that knows the position. Otherwise it
/// is turned down and counted, and nothing else changes.
pub proof fn mission_needs_position(w: WorkerState, waypoints: Vec<Waypoint>, g: GuidanceConfig)
    requires
        w.rejected < u64::MAX,
    ensures
        ({
            let after = w.after(Command::SetMission { waypoints, guidance: g });
            if w.sim.estimator_kind == EstimatorKind::Ins {
                &&& after.sim.mode == ModeState::Position(GuidanceState::start(waypoints@, g))
                &&& after.rejected == w.rejected
            } else {
                &&& after.sim == w.sim
                &&& after.rejected == w.rejected + 1
            }
        }),
{
}

/// While recording, no sample that is logged is dropped again.
pub proof fn recording_keeps_everything(w: WorkerState, s: TelemetrySample)
    ensures
        crate::scheduler::windowed(
            w.after(Command::Record(true)).sim.log,
            s,
            w.after(Command::Record(true)).sim.cap,
        ) == w.sim.log.push(s),
{
}

/// No command moves the simulation on by a step: only a reset changes the count.
pub proof fn commands_take_no_step(w: WorkerState, cmd: Command)
    requires
        !(cmd is Reset),
    ensures
        w.after(cmd).sim.tick == w.sim.tick,
        w.after(cmd).sim.log == w.sim.log,
        w.after(cmd).sim.truth == w.sim.truth,
        w.after(cmd).seq == w.seq,
{
}

/// Each command changes what it names and nothing else of the run.
pub proof fn commands_change_what_they_name(
    w: WorkerState,
    sp: Setpoint,
    faults: QuadFaults,
    on: bool,
    speed: Real,
)
    ensures
        ({
            let a = w.after(Command::SetSetpoint(sp));
            &&& a.sim.setpoint == sp && a.sim.mode is Attitude
            &&& (SimState { setpoint: w.sim.setpoint, mode: w.sim.mode, ..a.sim }) == w.sim
            &&& (WorkerState { sim: w.sim, ..a }) == w
        }),
        ({
            let a = w.after(Command::SetAttitudeMode);
            &&& a.sim.setpoint == w.sim.setpoint && a.sim.mode is Attitude
            &&& (SimState { mode: w.sim.mode, ..a.sim }) == w.sim
            &&& (WorkerState { sim: w.sim, ..a }) == w
        }),
        ({
            let a = w.after(Command::SetFaults(faults));
            &&& a.sim.faults == faults
            &&& (SimState { faults: w.sim.faults, ..a.sim }) == w.sim
            &&& (WorkerState { sim: w.sim, ..a }) == w
        }),
        ({
            let a = w.after(Command::Pause(on));
            &&& a.paused == on
            &&& (WorkerState { paused: w.paused, ..a }) == w
        }),
        ({
            let a = w.after(Command::SetSpeed(speed));
            &&& (WorkerState { speed: w.speed, ..a }) == w
        }),
        w.after(Command::SaveRecording) == w,
        w.after(Command::Shutdown) == w,
{
}

/// Commands on the weather change the air as they say and nothing else.
pub proof fn weather_commands_change_the_air(
    w: WorkerState,
    wind: Vec3,
    rms: Real,
    storm: Option<StormCell>,
)
    requires
        Real::zero_value().at_most(rms),
    ensures
        ({
            let a = w.after(Command::SetWind(wind));
            &&& a.sim.air.cfg.wind_ned == wind
            &&& a.sim.air.cfg.turbulence == w.sim.air.cfg.turbulence
            &&& a.sim.air.cfg.storm == w.sim.air.cfg.storm
            &&& (SimState { air: w.sim.air, ..a.sim }) == w.sim
            &&& (WorkerState { sim: w.sim, ..a }) == w
        }),
        ({
            let a = w.after(Command::SetTurbulence(rms));
            &&& a.sim.air.cfg.turbulence == rms
            &&& a.sim.air.cfg.wind_ned == w.sim.air.cfg.wind_ned
            &&& a.sim.air.cfg.storm == w.sim.air.cfg.storm
            &&& (SimState { air: w.sim.air, ..a.sim }) == w.sim
            &&& (WorkerState { sim: w.sim, ..a }) == w
        }),
        ({
            let a = w.after(Command::SetStorm(storm));
            &&& a.sim.air.cfg.storm == storm
            &&& a.sim.air.cfg.wind_ned == w.sim.air.cfg.wind_ned
            &&& a.sim.air.cfg.turbulence == w.sim.air.cfg.turbulence
            &&& (SimState { air: w.sim.air, ..a.sim }) == w.sim
            &&& (WorkerState { sim: w.sim, ..a }) == w
        }),
{
}

/// A recording, once started, has no cap; ending it, or a reset, says so, and a reset brings
/// the cap of the run back. A mission that is taken up starts at its first waypoint.
pub proof fn recording_lifts_the_cap(w: WorkerState, cfg: SimSetup, waypoints: Vec<Waypoint>, g: GuidanceConfig)
    requires
        w.logging.log_every > 0,
    ensures
        ({
            let a = w.after(Command::Record(true));
            &&& a.recording && a.sim.cap is None && a.sim.log_every == w.logging.log_every
            &&& (SimState { cap: w.sim.cap, log_every: w.sim.log_every, ..a.sim }) == w.sim
            &&& (WorkerState { sim: w.sim, recording: w.recording, ..a }) == w
        }),
        ({
            let a = w.after(Command::Record(false));
            &&& !a.recording && a.sim == w.sim
            &&& (WorkerState { recording: w.recording, ..a }) == w
        }),
        ({
            let a = w.after(Command::Reset(cfg));
            &&& a.sim.cap == w.logging.cap && a.sim.log_every == w.logging.log_every
            &&& a.dt == cfg.dt && a.logging == w.logging && a.speed == w.speed
            &&& a.sim.periods == cfg.periods && a.sim.setpoint.thrust == cfg.hover
            &&& a.sim.mode is Attitude && a.sim.air.cfg == cfg.atmosphere
            &&& a.sim.faults.dead_rotor is None
        }),
        w.sim.estimator_kind is Ins ==> ({
            let a = w.after(Command::SetMission { waypoints, guidance: g });
            &&& a.sim.mode matches ModeState::Position(h) && h.route == waypoints@ && h.config == g
                && h.active == 0 && !h.arrived
            &&& (SimState { mode: w.sim.mode, ..a.sim }) == w.sim
            &&& (WorkerState { sim: w.sim, ..a }) == w
        }),
{
}

/// What is left to do after a command: parts are rebuilt after a reset, the log is written when
/// asked for, the run ends on a shutdown, and after everything else nothing is left.
pub proof fn only_three_commands_leave_work(cmd: Command)
    ensures
        WorkerState::effect(cmd) is Rebuild <==> cmd is Reset,
        WorkerState::effect(cmd) is Save <==> cmd is SaveRecording,
        WorkerState::effect(cmd) is Stop <==> cmd is Shutdown,
{
}

/// By the clock all steps that are due are taken, up to what can be caught up at once; a speed
/// is taken as it is between standstill and sixteen times, and cut off beyond.
pub proof fn clock_is_followed_within_reason(w: WorkerState, due: u64, speed: Real)
    ensures
        !w.paused && due <= 250 ==> w.realtime_steps(due) == due,
        !w.paused && due > 250 ==> w.realtime_steps(due) == 250,
        w.paused ==> w.realtime_steps(due) == 0,
        ({
            let s = w.after(Command::SetSpeed(speed)).speed;
            let most = Real { bits: 0x4030_0000_0000_0000 };
            &&& Real::zero_value().at_most(speed) && speed.at_most(most) ==> s == speed
            &&& most.less(speed) ==> s == most
            &&& speed.less(Real::zero_value()) ==> s == Real::zero_value()
            &&& limited_speed(speed) == s
        }),
{
}

/// A run of a fixed length is over exactly when all its steps are taken. Until then it waits
/// while it is paused and else takes steps, at least one, at most fifty and never too many.
pub proof fn fixed_run_goes_on_until_all_steps_are_taken(w: WorkerState, done: u64, total: u64)
    ensures
        w.fixed_move(done, total) is Finished <==> done >= total,
        done < total && w.paused ==> w.fixed_move(done, total) is Wait,
        done < total && !w.paused ==> (w.fixed_move(done, total) matches FixedMove::Steps(n) && 0
            < n && n <= 50 && done + n <= total && (n == 50 || done + n == total)),
{
}

/// A run starts unpaused, not recording, with nothing published and nothing turned down, at the
/// speed it is to have; a run of a fixed length has the clock's.
pub proof fn run_starts_at_its_speed(cfg: SimSetup, mode: RunMode, logging: LoggingCfg)
    requires
        logging.log_every > 0,
    ensures
        ({
            let w = WorkerState::start(cfg, mode, logging);
            &&& !w.paused && !w.recording && w.seq == 0 && w.rejected == 0
            &&& w.dt == cfg.dt && w.logging == logging
            &&& w.sim.log_every == logging.log_every && w.sim.cap == logging.cap
            &&& w.sim.tick == 0 && w.sim.estimator_kind == cfg.estimator_kind
            &&& mode is FixedSteps ==> w.speed == Real::one_value()
            &&& mode matches RunMode::Realtime { speed } ==> (Real::zero_value().at_most(speed)
                && speed.at_most(Real { bits: 0x4030_0000_0000_0000 }) ==> w.speed == speed)
        }),
{
}

/// A snapshot shows each reading and each part of the state in its own place, and there is only
/// one that does.
pub proof fn snapshot_shows_the_state(
    v: Snapshot,
    other: Snapshot,
    s: SimState,
    r: Readings,
    seq: u64,
    paused: bool,
    recording: bool,
)
    requires
        v.shows(s, r, seq, paused, recording),
        other.shows(s, r, seq, paused, recording),
    ensures
        v.t == r.t && v.tick == s.tick && v.truth == s.truth && v.estimate == r.estimate,
        v.setpoint == s.setpoint && v.motors@ == s.motors,
        v.true_gyro_bias == r.true_gyro_bias,
        r.est_gyro_bias matches Some(b) ==> v.has_bias && v.est_gyro_bias == b,
        r.est_gyro_bias is None ==> !v.has_bias && v.est_gyro_bias == Vec3::zero_value(),
        s.mode is Attitude ==> v.waypoint_index is None,
        s.mode matches ModeState::Position(g) ==> v.waypoint_index == Some(g.active as usize),
        v.wind_speed == r.wind_speed && v.gust == r.gust && v.storm == s.air.last_g,
        v.paused == paused && v.recording == recording && v.seq == seq,
        v == other,
{
    assert(v.motors =~= other.motors);
}

/// A snapshot of a recorded sample shows what was recorded, and nothing of steps, waypoints and
/// weather. It has an idea of the bias exactly if one was recorded that is not zero.
pub proof fn snapshot_shows_the_sample(s: TelemetrySample)
    ensures
        ({
            let v = Snapshot::of_sample(s);
            let z = Real::zero_value();
            let b = s.est_gyro_bias;
            &&& v.t == s.t && v.truth == s.truth && v.estimate == s.estimate
            &&& v.setpoint == s.setpoint && v.motors == s.motors
            &&& v.true_gyro_bias == s.true_gyro_bias && v.est_gyro_bias == b
            &&& v.has_bias <==> !b.x.same(z) || !b.y.same(z) || !b.z.same(z)
            &&& v.tick == 0 && v.seq == 0 && !v.paused && !v.recording
            &&& v.waypoint_index is None && v.wind_speed == z && v.gust == z && v.storm == z
        }),
{
}

} // verus!
