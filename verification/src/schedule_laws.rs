//! What holds of whole runs of the scheduler.
use vstd::prelude::*;
use crate::messages::{State13, Tick, Vec3};
use crate::number::Real;
use crate::scheduler::{ModeState, Periods, SimState, Step, StepResult, Task};
use crate::scheduler;
use crate::telemetry::TelemetrySample;

verus! {

// ---- rolling windows --------------------------------------------------------

/// A log after entries were added one by one.
pub open spec fn logged<S>(log: Seq<S>, items: Seq<S>, cap: Option<usize>) -> Seq<S>
    decreases items.len(),
{
    if items.len() == 0 {
        log
    } else {
        scheduler::windowed(logged(log, items.drop_last(), cap), items.last(), cap)
    }
}

/// The last `n` entries, or all if there are fewer.
pub open spec fn newest<S>(items: Seq<S>, n: int) -> Seq<S> {
    if items.len() > n {
        items.skip(items.len() - n)
    } else {
        items
    }
}

/// A log with a cap holds exactly the newest entries, as many as the cap allows.
pub proof fn log_keeps_the_newest<S>(items: Seq<S>, cap: usize)
    ensures
        logged(Seq::empty(), items, Some(cap)) == newest(items, cap as int),
    decreases items.len(),
{
    if items.len() == 0 {
        assert(logged(Seq::<S>::empty(), items, Some(cap)) =~= newest(items, cap as int));
    } else {
        let init = items.drop_last();
        log_keeps_the_newest(init, cap);
        let before = newest(init, cap as int);
        let after = scheduler::windowed(before, items.last(), Some(cap));
        assert(after =~= newest(items, cap as int));
    }
}

/// Whenever an entry is added, at most `cap` entries are left, the newest ones: also where
/// the log was longer before the cap was set.
pub proof fn log_never_exceeds_its_cap<S>(log: Seq<S>, s: S, cap: usize)
    ensures
        scheduler::windowed(log, s, Some(cap)).len() <= cap,
        scheduler::windowed(log, s, Some(cap)) == newest(log.push(s), cap as int),
{
}

/// A log without a cap holds every entry.
pub proof fn uncapped_log_keeps_all<S>(items: Seq<S>)
    ensures
        logged(Seq::empty(), items, None) == items,
    decreases items.len(),
{
    if items.len() == 0 {
        assert(logged(Seq::<S>::empty(), items, None) =~= items);
    } else {
        uncapped_log_keeps_all(items.drop_last());
        assert(items.drop_last().push(items.last()) =~= items);
    }
}

// ---- rates ------------------------------------------------------------------

/// How many of the steps before step `n` run a part with the given period.
pub open spec fn runs_before(n: nat, period: nat) -> nat
    decreases n,
{
    if n == 0 {
        0
    } else {
        runs_before((n - 1) as nat, period) + if ((n - 1) as nat) % period == 0 {
            1nat
        } else {
            0
        }
    }
}

/// A part with period `p` runs in the first step and then every `p` steps: in `n`
/// steps `n / p` times, rounded up.
pub proof fn parts_run_at_their_rate(n: nat, period: nat)
    requires
        period > 0,
    ensures
        runs_before(n, period) == (n + period - 1) / period as int,
    decreases n,
{
    if n == 0 {
        assert((period - 1) / period as int == 0) by (nonlinear_arith)
            requires
                period > 0,
        ;
    } else {
        let m = (n - 1) as nat;
        parts_run_at_their_rate(m, period);
        let q = m / period;
        let r = m % period;
        let p = period as int;
        vstd::arithmetic::div_mod::lemma_fundamental_div_mod(m as int, p);
        assert(m == p * q + r && 0 <= r < p) by {
            vstd::arithmetic::div_mod::lemma_mod_bound(m as int, p);
        }
        assert((m + p - 1) / p == q + (if r == 0 {
            0int
        } else {
            1
        })) by (nonlinear_arith)
            requires
                m == p * q + r,
                0 <= r < p,
        ;
        assert((m + p) / p == q + 1) by (nonlinear_arith)
            requires
                m == p * q + r,
                0 <= r < p,
        ;
    }
}

/// Every step moves the air first, and actuates and integrates exactly once.
pub proof fn every_step_integrates(tick: Tick, p: Periods, log_every: Tick)
    requires
        p.wf(),
        log_every > 0,
    ensures
        scheduler::tasks(tick, p, log_every)[0] == Task::MoveAir,
        scheduler::tasks(tick, p, log_every).contains(Task::Actuate),
        scheduler::tasks(tick, p, log_every).contains(Task::Integrate),
        scheduler::tasks(tick, p, log_every).no_duplicates(),
        scheduler::tasks(tick, p, log_every).contains(Task::Control) <==> tick % p.control == 0,
        scheduler::tasks(tick, p, log_every).contains(Task::Log) <==> tick % log_every == 0,
{
    let front = seq![Task::MoveAir] + scheduler::gated(tick, p.imu, Task::PredictImu)
        + scheduler::gated(tick, p.mag, Task::UpdateMag) + scheduler::gated(
        tick,
        p.baro,
        Task::UpdateBaro,
    ) + scheduler::gated(tick, p.gps, Task::UpdateGps);
    let control = scheduler::gated(tick, p.control, Task::Control);
    let log = scheduler::gated(tick, log_every, Task::Log);
    let all = scheduler::tasks(tick, p, log_every);
    assert(all =~= front + control + seq![Task::Actuate, Task::Integrate] + log);
    let k = (front + control).len() as int;
    assert(all[k] == Task::Actuate);
    assert(all[k + 1] == Task::Integrate);
    if tick % p.control == 0 {
        assert(all[front.len() as int] == Task::Control);
    }
    if tick % log_every == 0 {
        assert(all[k + 2] == Task::Log);
    }
}

// ---- whole runs -------------------------------------------------------------

/// The state after a number of steps.
pub open spec fn run(s: SimState, steps: Seq<Step>) -> SimState
    decreases steps.len(),
{
    if steps.len() == 0 {
        s
    } else {
        run(s, steps.drop_last()).stepped(steps.last())
    }
}

/// The sample that a step from state `s` logs if one is due.
pub open spec fn sample_of(s: SimState, step: Step) -> TelemetrySample {
    s.prepared(step).sample(step.t, step.result)
}

/// A run takes as many steps as it is given, and keeps how it is set up.
pub proof fn run_counts_its_steps(s: SimState, steps: Seq<Step>)
    requires
        s.wf(),
        s.tick + steps.len() <= Tick::MAX,
    ensures
        run(s, steps).tick == s.tick + steps.len(),
        run(s, steps).wf(),
        run(s, steps).periods == s.periods,
        run(s, steps).estimator_kind == s.estimator_kind,
        run(s, steps).faults == s.faults,
        run(s, steps).air.cfg == s.air.cfg,
        run(s, steps).log_every == s.log_every,
        run(s, steps).cap == s.cap,
    decreases steps.len(),
{
    if steps.len() > 0 {
        run_counts_its_steps(s, steps.drop_last());
    }
}

/// A run that is split into batches comes to what it comes to in one go: a run of a fixed
/// length on a thread of its own ends where a headless run ends.
pub proof fn batches_make_no_difference(s: SimState, first: Seq<Step>, rest: Seq<Step>)
    ensures
        run(s, first + rest) == run(run(s, first), rest),
    decreases rest.len(),
{
    let all = first + rest;
    if rest.len() == 0 {
        assert(all =~= first);
    } else {
        batches_make_no_difference(s, first, rest.drop_last());
        assert(all.drop_last() =~= first + rest.drop_last());
        assert(all.last() == rest.last());
    }
}

/// Over a whole run a mission keeps its route and goes on through its waypoints, never back
/// and at most one per step, and has arrived for good once it has arrived; an aircraft that holds an attitude goes on holding attitudes.
pub proof fn mission_goes_on_through_its_waypoints(s: SimState, steps: Seq<Step>)
    requires
        s.wf(),
    ensures
        s.mode is Attitude ==> run(s, steps).mode is Attitude,
        s.mode matches ModeState::Position(g) ==> (run(s, steps).mode matches ModeState::Position(
            h,
        ) && h.wf() && h.route == g.route && h.config == g.config && g.active <= h.active
            <= g.active + steps.len() && (g.arrived ==> h.arrived)),
    decreases steps.len(),
{
    if steps.len() > 0 {
        mission_goes_on_through_its_waypoints(s, steps.drop_last());
    }
}

/// A dead rotor gives no thrust in any step, whatever is commanded: neither in the state after
/// it nor in the sample that it logs. The other rotors give what their motors give.
pub proof fn dead_rotor_gives_no_thrust(s: SimState, steps: Seq<Step>, k: int)
    requires
        s.wf(),
        s.tick + steps.len() <= Tick::MAX,
        steps.len() > 0,
        0 <= k < 4,
    ensures
        ({
            let thrust = if s.faults.dead_rotor == Some(k as usize) {
                Real::zero_value()
            } else {
                steps.last().result.motors@[k]
            };
            &&& run(s, steps).motors[k] == thrust
            &&& sample_of(run(s, steps.drop_last()), steps.last()).motors@[k] == thrust
        }),
{
    let before = run(s, steps.drop_last());
    let commanded = steps.last().result.motors;
    run_counts_its_steps(s, steps.drop_last());
    crate::faults::dead_rotor_is_the_only_one(s.faults, commanded@, k);
    let four = s.faults.applied_to_four(commanded);
    let sample = sample_of(before, steps.last());
    assert(sample.motors == four);
    assert(four@[k] == s.faults.applied(commanded@)[k]);
}

/// A sample without what only the simulator knows: the true state and the true bias.
pub open spec fn seen_sample(e: TelemetrySample) -> TelemetrySample {
    TelemetrySample {
        truth: State13::rest_value(),
        true_gyro_bias: Vec3::zero_value(),
        ..e
    }
}

/// A state without what only the simulator knows.
pub open spec fn seen(s: SimState) -> SimState {
    SimState {
        truth: State13::rest_value(),
        log: s.log.map_values(|e: TelemetrySample| seen_sample(e)),
        ..s
    }
}

/// What a step is given and comes to without what only the simulator knows. The estimate,
/// the distances by the estimate, the setpoint and the motors are left.
pub open spec fn seen_step(step: Step) -> Step {
    Step {
        result: StepResult {
            truth: State13::rest_value(),
            true_gyro_bias: Vec3::zero_value(),
            ..step.result
        },
        ..step
    }
}

/// The autopilot never gets the true state: two runs that agree in everything but the true
/// state, and whose steps bring the same measurements and so the same estimates, have the
/// same agenda, mode, demand, setpoint, motors and logged estimates throughout.
pub proof fn autopilot_gets_no_truth(a: SimState, b: SimState, sa: Seq<Step>, sb: Seq<Step>)
    requires
        seen(a) == seen(b),
        sa.len() == sb.len(),
        forall|i: int| 0 <= i < sa.len() ==> seen_step(#[trigger] sa[i]) == seen_step(sb[i]),
    ensures
        seen(run(a, sa)) == seen(run(b, sb)),
        run(a, sa).mode == run(b, sb).mode,
        run(a, sa).setpoint == run(b, sb).setpoint,
        run(a, sa).motors == run(b, sb).motors,
        forall|here: Real, next: Real|
            run(a, sa).demanded(here, next) == #[trigger] run(b, sb).demanded(here, next),
        scheduler::tasks(run(a, sa).tick, run(a, sa).periods, run(a, sa).log_every)
            == scheduler::tasks(run(b, sb).tick, run(b, sb).periods, run(b, sb).log_every),
    decreases sa.len(),
{
    if sa.len() > 0 {
        let (ia, ib) = (sa.drop_last(), sb.drop_last());
        assert forall|i: int| 0 <= i < ia.len() implies seen_step(#[trigger] ia[i]) == seen_step(
            ib[i],
        ) by {
            assert(ia[i] == sa[i] && ib[i] == sb[i]);
        }
        autopilot_gets_no_truth(a, b, ia, ib);
        let (x, y) = (run(a, ia), run(b, ib));
        let (p, q) = (sa.last(), sb.last());
        assert(seen_step(p) == seen_step(q)) by {
            assert(p == sa[sa.len() - 1] && q == sb[sb.len() - 1]);
        }
        seen_after(x, p);
        seen_after(y, q);
    }
}

proof fn seen_after(s: SimState, step: Step)
    ensures
        seen(s.stepped(step)) == seen(s).stepped(seen_step(step)),
{
    let f = |e: TelemetrySample| seen_sample(e);
    let e = sample_of(s, step);
    assert(seen_sample(e) == sample_of(seen(s), seen_step(step)));
    let log = scheduler::windowed(s.log, e, s.cap);
    assert(log.map_values(f) =~= scheduler::windowed(s.log.map_values(f), f(e), s.cap));
    assert(seen(s.stepped(step)).log =~= seen(s).stepped(seen_step(step)).log);
}

/// Step `at` is one of the steps, and `entry` is its sample.
pub open spec fn is_sample_at(
    entry: TelemetrySample,
    s: SimState,
    steps: Seq<Step>,
    at: int,
) -> bool {
    0 <= at < steps.len() && entry == sample_of(run(s, steps.take(at)), steps[at])
}

/// Entry `k` of a log is the sample of step `k * every`.
pub open spec fn holds_every_nth(
    log: Seq<TelemetrySample>,
    s: SimState,
    steps: Seq<Step>,
    every: int,
) -> bool {
    forall|k: int| 0 <= k < log.len() ==> is_sample_at(#[trigger] log[k], s, steps, k * every)
}

/// From the start and without a cap, a run logs the samples of exactly the steps
/// whose number is a multiple of `log_every`, in order.
pub proof fn run_logs_every_nth_step(s: SimState, steps: Seq<Step>)
    requires
        s.wf(),
        s.tick == 0,
        s.log.len() == 0,
        s.cap is None,
        steps.len() <= Tick::MAX,
    ensures
        run(s, steps).log.len() == runs_before(steps.len(), s.log_every as nat),
        holds_every_nth(run(s, steps).log, s, steps, s.log_every as int),
    decreases steps.len(),
{
    let e = s.log_every as int;
    if steps.len() > 0 {
        let init = steps.drop_last();
        run_logs_every_nth_step(s, init);
        run_counts_its_steps(s, init);
        let before = run(s, init).log;
        let after = run(s, steps).log;
        let n = init.len() as int;
        parts_run_at_their_rate(n as nat, e as nat);
        let logged_before = before.len() as int;
        if n % e == 0 {
            assert(logged_before * e == n) by {
                let q = n / e;
                vstd::arithmetic::div_mod::lemma_fundamental_div_mod(n, e);
                assert((n + e - 1) / e == q) by (nonlinear_arith)
                    requires
                        n == e * q,
                        e > 0,
                ;
                assert(q * e == e * q) by (nonlinear_arith);
            }
            assert(after == before.push(sample_of(run(s, init), steps.last())));
        } else {
            assert(after == before);
        }
        assert forall|k: int| 0 <= k < after.len() implies is_sample_at(
            #[trigger] after[k],
            s,
            steps,
            k * e,
        ) by {
            if k < logged_before {
                assert(is_sample_at(before[k], s, init, k * e));
                assert(init.take(k * e) =~= steps.take(k * e));
            } else {
                assert(steps.take(n) =~= init);
            }
        }
    }
}

// ---- what one step does -----------------------------------------------------

/// The place of a task among the others of a step: the air, the sensors with the estimator,
/// the controller on what they came to, the motors, the motion, and last the log.
pub open spec fn place(task: Task) -> int {
    match task {
        Task::MoveAir => 0,
        Task::PredictImu => 1,
        Task::UpdateMag => 2,
        Task::UpdateBaro => 3,
        Task::UpdateGps => 4,
        Task::Control => 5,
        Task::Actuate => 6,
        Task::Integrate => 7,
        Task::Log => 8,
    }
}

/// Each task of a step comes at its place, and runs exactly in the steps that are multiples of
/// its own period.
pub proof fn tasks_come_in_order(tick: Tick, p: Periods, log_every: Tick)
    requires
        p.wf(),
        log_every > 0,
    ensures
        ({
            let all = scheduler::tasks(tick, p, log_every);
            &&& forall|i: int, j: int|
                0 <= i < j < all.len() ==> place(#[trigger] all[i]) < place(#[trigger] all[j])
            &&& all.contains(Task::PredictImu) <==> tick % p.imu == 0
            &&& all.contains(Task::UpdateMag) <==> tick % p.mag == 0
            &&& all.contains(Task::UpdateBaro) <==> tick % p.baro == 0
            &&& all.contains(Task::UpdateGps) <==> tick % p.gps == 0
            &&& all.contains(Task::Control) <==> tick % p.control == 0
            &&& all.contains(Task::Log) <==> tick % log_every == 0
            &&& all.contains(Task::MoveAir)
            &&& all.contains(Task::Actuate)
            &&& all.contains(Task::Integrate)
        }),
{
    let a = seq![Task::MoveAir];
    assert(a[0] == Task::MoveAir);
    assert(in_order(a, 1)) by {
        reveal(in_order);
    }
    let all = scheduler::tasks(tick, p, log_every);
    let b = with_task(a, tick, p.imu, Task::PredictImu);
    let c = with_task(b, tick, p.mag, Task::UpdateMag);
    let d = with_task(c, tick, p.baro, Task::UpdateBaro);
    let e = with_task(d, tick, p.gps, Task::UpdateGps);
    let f = with_task(e, tick, p.control, Task::Control);
    let g = with_task(f, 0, 1, Task::Actuate);
    let h = with_task(g, 0, 1, Task::Integrate);
    let k = with_task(h, tick, log_every, Task::Log);
    one_more_task(a, tick, p.imu, Task::PredictImu);
    one_more_task(b, tick, p.mag, Task::UpdateMag);
    one_more_task(c, tick, p.baro, Task::UpdateBaro);
    one_more_task(d, tick, p.gps, Task::UpdateGps);
    one_more_task(e, tick, p.control, Task::Control);
    one_more_task(f, 0, 1, Task::Actuate);
    one_more_task(g, 0, 1, Task::Integrate);
    one_more_task(h, tick, log_every, Task::Log);
    tasks_one_by_one(tick, p, log_every);
    assert(all == k);
    assert(forall|i: int, j: int|
        0 <= i < j < k.len() ==> place(#[trigger] k[i]) < place(#[trigger] k[j])) by {
        reveal(in_order);
    }
}

/// Whether tasks come in order, all before a place.
#[verifier::opaque]
spec fn in_order(s: Seq<Task>, end: int) -> bool {
    &&& forall|i: int, j: int|
        0 <= i < j < s.len() ==> place(#[trigger] s[i]) < place(#[trigger] s[j])
    &&& forall|i: int| 0 <= i < s.len() ==> place(#[trigger] s[i]) < end
}

/// Some tasks and one more, if it is due.
#[verifier::opaque]
spec fn with_task(s: Seq<Task>, tick: Tick, period: Tick, task: Task) -> Seq<Task> {
    s + scheduler::gated(tick, period, task)
}

proof fn tasks_one_by_one(tick: Tick, p: Periods, log_every: Tick)
    ensures
        ({
            let b = with_task(seq![Task::MoveAir], tick, p.imu, Task::PredictImu);
            let c = with_task(b, tick, p.mag, Task::UpdateMag);
            let d = with_task(c, tick, p.baro, Task::UpdateBaro);
            let e = with_task(d, tick, p.gps, Task::UpdateGps);
            let f = with_task(e, tick, p.control, Task::Control);
            let g = with_task(f, 0, 1, Task::Actuate);
            let h = with_task(g, 0, 1, Task::Integrate);
            scheduler::tasks(tick, p, log_every) == with_task(h, tick, log_every, Task::Log)
        }),
{
    reveal(with_task);
    let f = seq![Task::MoveAir] + scheduler::gated(tick, p.imu, Task::PredictImu)
        + scheduler::gated(tick, p.mag, Task::UpdateMag) + scheduler::gated(
        tick,
        p.baro,
        Task::UpdateBaro,
    ) + scheduler::gated(tick, p.gps, Task::UpdateGps) + scheduler::gated(
        tick,
        p.control,
        Task::Control,
    );
    let two = f + scheduler::gated(0, 1, Task::Actuate) + scheduler::gated(0, 1, Task::Integrate);
    assert(two =~= f + seq![Task::Actuate, Task::Integrate]);
}

proof fn one_more_task(s: Seq<Task>, tick: Tick, period: Tick, task: Task)
    requires
        in_order(s, place(task)),
    ensures
        ({
            let r = with_task(s, tick, period, task);
            &&& in_order(r, place(task) + 1)
            &&& forall|t: Task|
                #![trigger r.contains(t)]
                r.contains(t) <==> s.contains(t) || (t == task && tick % period == 0)
        }),
{
    reveal(in_order);
    reveal(with_task);
    let r = with_task(s, tick, period, task);
    assert forall|t: Task|
        #![trigger r.contains(t)]
        r.contains(t) <==> s.contains(t) || (t == task && tick % period == 0) by {
        if s.contains(t) {
            let k = choose|k: int| 0 <= k < s.len() && s[k] == t;
            assert(r[k] == t);
        }
        if tick % period == 0 {
            assert(r[s.len() as int] == task);
        }
        if r.contains(t) {
            let k = choose|k: int| 0 <= k < r.len() && r[k] == t;
            if k < s.len() {
                assert(s[k] == t);
            }
        }
    }
}

/// A log takes an entry at its end, and with a cap drops from its front whatever the cap has
/// no room for: counted from the end, the entries are those of the longer log.
pub proof fn log_drops_from_the_front<S>(log: Seq<S>, s: S, cap: Option<usize>, back: int)
    ensures
        ({
            let r = scheduler::windowed(log, s, cap);
            &&& cap is None ==> r.len() == log.len() + 1
            &&& cap matches Some(c) ==> r.len() == (if log.len() < c {
                log.len() as int + 1
            } else {
                c as int
            })
            &&& 0 < r.len() ==> r.last() == s
            &&& 0 < back < r.len() ==> r[r.len() - 1 - back] == log[log.len() - back]
        }),
{
}

/// What a step changes: it is counted, the true state is what it came to, the motors give what
/// is left of what they were asked for, the air has moved, and a sample is logged if one is
/// due. The setup of the run, the faults and the logging stay.
pub proof fn step_takes_over_what_it_came_to(s: SimState, step: Step)
    requires
        s.wf(),
        s.tick < Tick::MAX,
    ensures
        ({
            let r = s.stepped(step);
            &&& r.tick == s.tick + 1
            &&& r.truth == step.result.truth
            &&& r.motors == s.faults.applied(step.result.motors@)
            &&& r.air == s.air.moved(step.air)
            &&& r.periods == s.periods && r.estimator_kind == s.estimator_kind
            &&& r.faults == s.faults && r.log_every == s.log_every && r.cap == s.cap
            &&& s.tick % s.log_every != 0 ==> r.log == s.log
            &&& s.tick % s.log_every == 0 ==> r.log == scheduler::windowed(
                s.log,
                sample_of(s, step),
                s.cap,
            )
        }),
{
}

/// The controller runs exactly in the steps that are multiples of its period. Where waypoints
/// are flown, guidance then goes on by the distances of this step and the setpoint is the one
/// that was found; where an attitude is held, and in all other steps, neither changes.
pub proof fn controller_runs_at_its_rate(s: SimState, step: Step)
    requires
        s.wf(),
    ensures
        ({
            let r = s.stepped(step);
            let due = s.tick % s.periods.control == 0;
            &&& !due ==> r.mode == s.mode && r.setpoint == s.setpoint
            &&& s.mode is Attitude ==> r.mode is Attitude && r.setpoint == s.setpoint
            &&& due ==> (s.mode matches ModeState::Position(g) ==> r.mode == ModeState::Position(
                g.after(step.here, step.next),
            ) && r.setpoint == step.setpoint)
        }),
{
}

/// A sample holds what its step came to: the time, the new state, the estimate, the setpoint
/// in force after the controller ran, what the motors gave, and the biases; zero where the
/// estimator has no idea of its bias.
pub proof fn sample_holds_its_step(s: SimState, step: Step)
    requires
        s.wf(),
    ensures
        ({
            let e = sample_of(s, step);
            &&& e.t == step.t
            &&& e.truth == step.result.truth
            &&& e.estimate == step.result.estimate
            &&& e.setpoint == s.stepped(step).setpoint
            &&& e.motors@ == s.stepped(step).motors
            &&& e.true_gyro_bias == step.result.true_gyro_bias
            &&& step.result.est_gyro_bias matches Some(b) ==> e.est_gyro_bias == b
            &&& step.result.est_gyro_bias is None ==> e.est_gyro_bias == Vec3::zero_value()
        }),
{
    assert(s.faults.applied_to_four(step.result.motors)@ =~= s.faults.applied(
        step.result.motors@,
    ));
}

/// What the controller is asked for: the setpoint as it stands where an attitude is held, and
/// where waypoints are flown what guidance asks for once it has gone on.
pub proof fn demand_follows_the_mode(s: SimState, here: Real, next: Real)
    requires
        s.wf(),
    ensures
        s.mode is Attitude ==> s.demanded(here, next) == scheduler::Demand::Attitude(s.setpoint),
        s.mode matches ModeState::Position(g) ==> (s.demanded(here, next)
            matches scheduler::Demand::Position(t) && (g.route.len() > 0 ==> t.position
            == g.route[g.after(here, next).active].position && t.yaw == g.route[g.after(
            here,
            next,
        ).active].yaw)),
        s.mode matches ModeState::Position(g) ==> s.mode.waypoint_index() == Some(
            g.active as usize,
        ) && s.mode.arrived() == g.arrived,
        s.mode is Attitude ==> s.mode.waypoint_index() is None && !s.mode.arrived(),
{
}

/// A simulation starts at rest, level and hovering, holding that attitude, at step 0, healthy,
/// with nothing logged, and logs every step without a cap until it is told otherwise. A rate
/// of 0 counts as 1.
pub proof fn simulation_starts_hovering(
    cfg: scheduler::SimSetup,
    s: SimState,
    every: Tick,
    cap: Option<usize>,
)
    ensures
        ({
            let r = SimState::start(cfg);
            &&& r.periods == cfg.periods && r.estimator_kind == cfg.estimator_kind
            &&& r.mode is Attitude
            &&& r.setpoint.thrust == cfg.hover
            &&& r.setpoint.attitude == r.truth.attitude
            &&& r.truth.position == Vec3::zero_value() && r.truth.velocity == Vec3::zero_value()
            &&& r.truth.angular_rate == Vec3::zero_value()
            &&& r.motors.len() == 4 && forall|i: int|
                0 <= i < 4 ==> (#[trigger] r.motors[i]) == Real::zero_value()
            &&& r.air.cfg == cfg.atmosphere
            &&& r.faults.dead_rotor is None
            &&& r.tick == 0 && r.log.len() == 0 && r.log_every == 1 && r.cap is None
        }),
        ({
            let r = s.with_logging(every, cap);
            &&& every > 0 ==> r.log_every == every
            &&& every == 0 ==> r.log_every == 1
            &&& r.cap == cap
            &&& (SimState { log_every: s.log_every, cap: s.cap, ..r }) == s
        }),
{
}

} // verus!
