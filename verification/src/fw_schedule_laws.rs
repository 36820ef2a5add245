//! What holds of whole runs of the fixed-wing aircraft.
use vstd::prelude::*;
use crate::fixedwing;
use crate::fixedwing::{
    FwDemand, FwModeState, FwSample, FwSimSetup, FwSimState, FwStep, FwTask,
};
use crate::fw_guidance::{Aim, FixedWingSetpoint, FwGuidanceConfig, TerminalAction};
use crate::guidance::Waypoint;
use crate::messages::Tick;
use crate::number::Real;
use crate::scheduler;

verus! {

/// The state after a number of steps.
pub open spec fn fw_run(s: FwSimState, steps: Seq<FwStep>) -> FwSimState
    decreases steps.len(),
{
    if steps.len() == 0 {
        s
    } else {
        fw_run(s, steps.drop_last()).stepped(steps.last())
    }
}

/// A run takes as many steps as it is given, and keeps how it is set up.
pub proof fn fw_run_counts_its_steps(s: FwSimState, steps: Seq<FwStep>)
    requires
        s.wf(),
        s.tick + steps.len() <= Tick::MAX,
    ensures
        fw_run(s, steps).tick == s.tick + steps.len(),
        fw_run(s, steps).wf(),
        fw_run(s, steps).control_period == s.control_period,
        fw_run(s, steps).limits == s.limits,
        fw_run(s, steps).faults == s.faults,
        fw_run(s, steps).air.cfg == s.air.cfg,
        fw_run(s, steps).log_every == s.log_every,
        fw_run(s, steps).cap == s.cap,
    decreases steps.len(),
{
    if steps.len() > 0 {
        fw_run_counts_its_steps(s, steps.drop_last());
    }
}

/// A run that is split into batches comes to what it comes to in one go: a run of a fixed
/// length on a thread of its own ends where a headless run ends.
pub proof fn fw_batches_make_no_difference(s: FwSimState, first: Seq<FwStep>, rest: Seq<FwStep>)
    ensures
        fw_run(s, first + rest) == fw_run(fw_run(s, first), rest),
    decreases rest.len(),
{
    let all = first + rest;
    if rest.len() == 0 {
        assert(all =~= first);
    } else {
        fw_batches_make_no_difference(s, first, rest.drop_last());
        assert(all.drop_last() =~= first + rest.drop_last());
        assert(all.last() == rest.last());
    }
}

/// Over a whole run a route is flown through its waypoints, never back and at most one per
/// step; once complete it stays complete. The other modes stay what they are.
pub proof fn route_goes_on_through_its_waypoints(s: FwSimState, steps: Seq<FwStep>)
    requires
        s.wf(),
    ensures
        !(s.mode is Route) ==> fw_run(s, steps).mode == s.mode,
        s.mode matches FwModeState::Route(g) ==> (fw_run(s, steps).mode matches FwModeState::Route(
            h,
        ) && h.wf() && h.route == g.route && h.start == g.start && h.config == g.config && g.active
            <= h.active <= g.active + steps.len() && (g.completed ==> h.completed)),
    decreases steps.len(),
{
    if steps.len() > 0 {
        route_goes_on_through_its_waypoints(s, steps.drop_last());
    }
}

/// A setpoint that was kept on arrival is what the route aims at ever after, and the setpoint
/// in force, whatever is found for it.
pub proof fn arrival_is_final(s: FwSimState, steps: Seq<FwStep>, sp: FixedWingSetpoint)
    requires
        s.wf(),
        s.mode matches FwModeState::Route(g) && g.kept == Some(sp),
    ensures
        fw_run(s, steps).mode == s.mode,
        fw_run(s, steps).mode matches FwModeState::Route(h) && h.aim() == Aim::Kept(sp),
        fw_run(s, steps).setpoint == sp,
    decreases steps.len(),
{
    if steps.len() > 0 {
        arrival_is_final(s, steps.drop_last(), sp);
    }
}

/// Whether controls lie within the limits: limiting them changes nothing.
pub open spec fn within_limits(s: FwSimState) -> bool {
    s.controls.limited(s.limits) == s.controls
}

/// Whatever a controller finds: once it has run, the controls lie within their limits for the
/// rest of the run.
pub proof fn controls_stay_within_limits(s: FwSimState, steps: Seq<FwStep>)
    requires
        s.wf(),
        s.tick % s.control_period == 0,
        steps.len() > 0,
    ensures
        within_limits(fw_run(s, steps)),
        fw_run(s, steps).limits == s.limits,
    decreases steps.len(),
{
    let init = steps.drop_last();
    let step = steps.last();
    if init.len() == 0 {
        assert(fw_run(s, init) == s);
    } else {
        controls_stay_within_limits(s, init);
    }
    crate::messages::limiting_controls_is_idempotent(step.controls, s.limits);
}

// ---- what one step does -----------------------------------------------------

/// The place of a task among the others of a step.
pub open spec fn fw_place(task: FwTask) -> int {
    match task {
        FwTask::MoveAir => 0,
        FwTask::Control => 1,
        FwTask::Integrate => 2,
        FwTask::Log => 3,
    }
}

/// Every step moves the air, runs the controller if it is due, integrates, and logs if it is
/// due, in this order.
pub proof fn fw_tasks_come_in_order(tick: Tick, control_period: Tick, log_every: Tick)
    requires
        control_period > 0,
        log_every > 0,
    ensures
        ({
            let all = fixedwing::fw_tasks(tick, control_period, log_every);
            &&& forall|i: int, j: int|
                0 <= i < j < all.len() ==> fw_place(#[trigger] all[i]) < fw_place(
                    #[trigger] all[j],
                )
            &&& all.contains(FwTask::MoveAir)
            &&& all.contains(FwTask::Integrate)
            &&& all.contains(FwTask::Control) <==> tick % control_period == 0
            &&& all.contains(FwTask::Log) <==> tick % log_every == 0
        }),
{
    let all = fixedwing::fw_tasks(tick, control_period, log_every);
    assert(all[0] == FwTask::MoveAir);
    if tick % control_period == 0 {
        assert(all[1] == FwTask::Control);
        assert(all[2] == FwTask::Integrate);
    } else {
        assert(all[1] == FwTask::Integrate);
    }
    if tick % log_every == 0 {
        assert(all[all.len() - 1] == FwTask::Log);
    }
}

/// What a step changes: it is counted, the true state is what it came to, the air has moved,
/// and a sample of time, new state, controls and setpoint is logged if one is due. The setup of
/// the run, the faults and the logging stay.
pub proof fn fw_step_takes_over_what_it_came_to(s: FwSimState, step: FwStep)
    requires
        s.wf(),
        s.tick < Tick::MAX,
    ensures
        ({
            let r = s.stepped(step);
            &&& r.tick == s.tick + 1
            &&& r.truth == step.truth
            &&& r.air == s.air.moved(step.air)
            &&& r.control_period == s.control_period && r.limits == s.limits
            &&& r.faults == s.faults && r.log_every == s.log_every && r.cap == s.cap
            &&& s.tick % s.log_every != 0 ==> r.log == s.log
            &&& s.tick % s.log_every == 0 ==> r.log == scheduler::windowed(
                s.log,
                (FwSample {
                    t: step.t,
                    truth: step.truth,
                    controls: r.controls,
                    setpoint: r.setpoint,
                }),
                s.cap,
            )
        }),
{
}

/// The controller runs exactly in the steps that are multiples of its period: then the controls
/// are those it found, within their limits, and a route goes on by the distance of this step.
/// In all other steps controls, mode and setpoint stay.
pub proof fn fw_controller_runs_at_its_rate(s: FwSimState, step: FwStep)
    requires
        s.wf(),
    ensures
        ({
            let r = s.stepped(step);
            let due = s.tick % s.control_period == 0;
            &&& !due ==> r.controls == s.controls && r.mode == s.mode && r.setpoint == s.setpoint
            &&& due ==> r.controls == step.controls.limited(s.limits)
            &&& !(s.mode is Route) ==> r.mode == s.mode && r.setpoint == s.setpoint
            &&& due ==> (s.mode matches FwModeState::Route(g) ==> (r.mode
                matches FwModeState::Route(h) && h.active == g.after(step.distance).active
                && h.completed == g.after(step.distance).completed && r.setpoint == g.after(
                step.distance,
            ).aim().setpoint(g.config, step.setpoint)))
        }),
{
}

/// A setpoint is kept exactly in the step in which a route that holds its course at the end
/// arrives, and it is the setpoint of that step.
pub proof fn arrival_keeps_its_setpoint(s: FwSimState, step: FwStep)
    requires
        s.wf(),
        s.tick % s.control_period == 0,
    ensures
        s.mode matches FwModeState::Route(g) ==> (s.stepped(step).mode matches FwModeState::Route(
            h,
        ) && (g.kept is Some ==> h.kept == g.kept) && (g.kept is None ==> (h.kept is Some
            <==> g.after(step.distance).completed && g.config.terminal
            == TerminalAction::HoldCourse)) && (h.kept matches Some(sp) ==> s.stepped(step).setpoint
            == sp)),
{
}

/// What the controller is asked for: the setpoint as it stands, what the route aims at once it
/// has gone on, or the pilot's stick with or without the fly-by-wire law.
pub proof fn fw_demand_follows_the_mode(s: FwSimState, distance: Real)
    ensures
        s.mode is Setpoint ==> s.demanded(distance) == FwDemand::Setpoint(s.setpoint),
        s.mode matches FwModeState::Route(g) ==> s.demanded(distance) == FwDemand::Route(
            g.after(distance).aim(),
        ),
        s.mode matches FwModeState::Manual { stick, fbw_on } ==> s.demanded(distance)
            == (FwDemand::Manual { stick, fbw_on }),
        s.mode matches FwModeState::Route(g) ==> s.mode.waypoint_index() == g.current_index()
            && s.mode.route_complete() == g.completed,
        !(s.mode is Route) ==> s.mode.waypoint_index() is None && !s.mode.route_complete(),
{
}

/// A route starts where the aircraft is, and may have its first waypoint behind it at once.
pub proof fn fw_route_starts_here(
    s: FwSimState,
    route: Seq<Waypoint>,
    cfg: FwGuidanceConfig,
    distance: Real,
)
    ensures
        ({
            let r = s.with_route(route, cfg, distance);
            &&& r.mode matches FwModeState::Route(g) && g.start == s.truth.position && g.route
                == route && g.config == cfg && g.kept is None && g.active == (if route.len() > 1
                && distance.less(cfg.accept_radius) {
                1int
            } else {
                0
            }) && (g.completed <==> route.len() == 1 && distance.less(cfg.accept_radius))
            &&& (FwSimState { mode: s.mode, ..r }) == s
        }),
{
}

/// A simulation starts in its initial state, holding its setpoint with neutral controls, at
/// step 0, healthy, with nothing logged, and logs every fifth step without a cap until it is
/// told otherwise. A rate of 0 counts as 1.
pub proof fn fw_simulation_starts_as_set_up(
    cfg: FwSimSetup,
    s: FwSimState,
    every: Tick,
    cap: Option<usize>,
)
    ensures
        ({
            let r = FwSimState::start(cfg);
            let z = Real::zero_value();
            &&& r.control_period == cfg.control_period && r.limits == cfg.limits
            &&& r.mode is Setpoint && r.setpoint == cfg.setpoint && r.truth == cfg.initial
            &&& r.controls.aileron == z && r.controls.elevator == z
            &&& r.controls.rudder == z && r.controls.throttle == z
            &&& r.air.cfg == cfg.atmosphere
            &&& !r.faults.engine_out && !r.faults.tail_loss
            &&& r.tick == 0 && r.log.len() == 0 && r.log_every == 5 && r.cap is None
        }),
        ({
            let r = s.with_logging(every, cap);
            &&& every > 0 ==> r.log_every == every
            &&& every == 0 ==> r.log_every == 1
            &&& r.cap == cap
            &&& (FwSimState { log_every: s.log_every, cap: s.cap, ..r }) == s
        }),
{
}

} // verus!
