use pilotrs::atmosphere::{AirMove, AtmosphereConfig, StormEffect};
use pilotrs::batch::{
    aggregate, all_finite, final_waypoint, mission_completed, seed_sweep, square_mission,
    summarize_default, worker_count, worst, JobQueue, RunErrors, RunMetrics, RunSpec, RunTask,
    Slots,
};
use pilotrs::config::EstimatorKind;
use pilotrs::guidance::{GuidanceConfig, Waypoint};
use pilotrs::messages::{EstState, Setpoint, State13, Vec3};
use pilotrs::number::Real;
use pilotrs::telemetry::TelemetrySample;
use pilotrs::scheduler::{Demand, Periods, Sim, SimSetup, Step, StepResult, Task};

fn r(x: f64) -> Real {
    Real::from_bits(x.to_bits())
}

fn f(x: Real) -> f64 {
    f64::from_bits(x.to_bits())
}

fn v3(x: f64, y: f64, z: f64) -> Vec3 {
    Vec3::new(r(x), r(y), r(z))
}

fn setup() -> SimSetup {
    SimSetup {
        dt: r(0.001),
        periods: Periods { imu: 1, mag: 20, baro: 40, gps: 200, control: 4 },
        estimator_kind: EstimatorKind::Ins,
        hover: r(4.9),
        atmosphere: AtmosphereConfig::calm(),
    }
}

fn specs(n: u64, steps: usize) -> Vec<RunSpec> {
    let task =
        RunTask::Mission { waypoints: square_mission(), guidance: GuidanceConfig::default() };
    seed_sweep(setup(), 7, task, steps, n)
}

fn still_air() -> AirMove {
    let storm = StormEffect { intensity: r(0.0), turbulence: r(0.0) };
    AirMove { time: r(0.0), storm, gust: v3(0.0, 0.0, 0.0) }
}

fn distance(a: Vec3, b: Vec3) -> f64 {
    let (x, y, z) = (f(a.x) - f(b.x), f(a.y) - f(b.y), f(a.z) - f(b.z));
    (x * x + y * y + z * z).sqrt()
}

/// Runs a simulation of a point that flies where it is told to, with an error of the
/// estimate that depends on the seed.
fn run(sim: &mut Sim, seed: u64, steps: usize) {
    for k in 0..steps {
        let mut truth = *sim.truth();
        let (here, next) = sim.ahead();
        let d = |w: Option<Waypoint>| {
            r(w.map(|w| distance(w.position, truth.position)).unwrap_or(0.0))
        };
        let (here, next) = (d(here), d(next));
        let demand = sim.demanded(here, next);
        if let (true, Demand::Position(target)) = (sim.agenda().contains(&Task::Control), demand) {
            if let Some(v) = target.cruise {
                let n = distance(target.position, truth.position);
                let s = f(v) * 0.004 / n;
                let (p, q) = (truth.position, target.position);
                truth.position = v3(
                    f(p.x) + (f(q.x) - f(p.x)) * s,
                    f(p.y) + (f(q.y) - f(p.y)) * s,
                    f(p.z) + (f(q.z) - f(p.z)) * s,
                );
            }
        }
        let mut estimate = EstState::at_rest();
        estimate.position = truth.position;
        estimate.position.x = r(f(truth.position.x) + ((seed as f64) + k as f64).sin() * 0.01);
        sim.step(Step {
            air: still_air(),
            here,
            next,
            setpoint: sim.setpoint(),
            t: r((k + 1) as f64 * 0.001),
            result: StepResult {
                truth,
                estimate,
                motors: [r(1.0); 4],
                true_gyro_bias: v3(0.0, 0.0, 0.0),
                est_gyro_bias: None,
            },
        });
    }
}

fn summarize(spec: &RunSpec, sim: &Sim) -> RunMetrics {
    let samples = &sim.telemetry().samples;
    let positions: Vec<Real> = samples
        .iter()
        .map(|s| r(distance(s.truth.position, s.estimate.position)))
        .collect();
    let ms = positions.iter().map(|e| f(*e) * f(*e)).sum::<f64>() / samples.len().max(1) as f64;
    let last = final_waypoint(&spec.task);
    let errors = RunErrors {
        distance: r(last.map_or(0.0, |w| distance(w.position, sim.truth().position))),
        positions,
        tilts: Vec::new(),
        rms_position: r(ms.sqrt()),
        rms_attitude: r(0.0),
    };
    summarize_default(spec, sim, &errors)
}

fn run_one(spec: &RunSpec) -> RunMetrics {
    let mut sim = spec.build();
    run(&mut sim, spec.seed, spec.steps);
    summarize(spec, &sim)
}

/// Runs all jobs as if `workers` took turns, each handing in its result before it takes
/// the next job; the last worker is the first to finish.
fn run_batch(specs: &Vec<RunSpec>, workers: usize) -> Vec<RunMetrics> {
    if specs.is_empty() {
        return Vec::new();
    }
    let w = worker_count(workers, 4, specs.len());
    let mut queue = JobQueue::new(specs.len());
    let mut slots = Slots::new(specs.len());
    loop {
        let mut taken = Vec::new();
        for _ in 0..w {
            if let Some(i) = queue.claim() {
                taken.push(i);
            }
        }
        if taken.is_empty() {
            break;
        }
        for i in taken.iter().rev() {
            slots.put(*i, run_one(&specs[*i]));
        }
    }
    slots.finish()
}

#[test]
fn parallel_matches_sequential() {
    let s = specs(16, 4000);
    let seq: Vec<RunMetrics> = s.iter().map(run_one).collect();
    for w in [1usize, 2, 8] {
        assert_eq!(seq, run_batch(&s, w), "parallelism W={w} perturbed determinism");
    }
}

#[test]
fn output_order_matches_input_order() {
    let s = specs(20, 2000);
    let m = run_batch(&s, 8);
    for (spec, metric) in s.iter().zip(&m) {
        assert_eq!(spec.seed, metric.seed, "results out of order");
    }
}

#[test]
fn empty_and_single_batches() {
    assert!(run_batch(&Vec::new(), 4).is_empty());
    let one = run_batch(&specs(1, 1000), 4);
    assert_eq!(one.len(), 1);
}

#[test]
fn run_one_matches_inline() {
    let spec = &specs(1, 3000)[0];
    let m = run_one(spec);
    let mut sim = spec.build();
    run(&mut sim, spec.seed, spec.steps);
    assert_eq!(m, summarize(spec, &sim));
}

#[test]
fn aggregate_reports_success() {
    let m = run_batch(&specs(8, 30_000), 0);
    let agg = aggregate(&m);
    assert_eq!(agg.n, 8);
    assert!(agg.success as f64 / agg.n as f64 > 0.99, "missions should complete");
    assert_eq!(agg.diverged, 0);
    assert!(f(agg.worst_final_position_error) < 0.5);
}

#[test]
fn sweep_counts_seeds_up() {
    let task = RunTask::Attitude(Setpoint::level(r(4.9)));
    let s = seed_sweep(setup(), u64::MAX, task, 10, 3);
    let seeds: Vec<u64> = s.iter().map(|x| x.seed).collect();
    assert_eq!(seeds, vec![u64::MAX, 0, 1]);
    assert!(s.iter().all(|x| x.log_every == 10 && x.log_cap.is_none() && x.steps == 10));
    let sim = s[0].build();
    assert_eq!(sim.setpoint(), Setpoint::level(r(4.9)));
    assert_eq!(sim.waypoint_index(), None);
    assert_eq!(mission_completed(&s[0].task, None, false, r(0.0)), None);
    assert!(final_waypoint(&s[0].task).is_none());
}

#[test]
fn workers_are_at_least_one_and_at_most_one_per_job() {
    assert_eq!(worker_count(0, 8, 20), 8);
    assert_eq!(worker_count(0, 8, 3), 3);
    assert_eq!(worker_count(0, 0, 3), 1);
    assert_eq!(worker_count(2, 8, 20), 2);
    assert_eq!(worker_count(50, 8, 20), 20);
}

#[test]
fn each_job_is_taken_once() {
    let mut q = JobQueue::new(3);
    assert_eq!((q.claim(), q.claim(), q.claim()), (Some(0), Some(1), Some(2)));
    assert_eq!((q.claim(), q.claim()), (None, None));
    let mut s: Slots<char> = Slots::new(3);
    s.put(2, 'c');
    s.put(0, 'a');
    s.put(1, 'b');
    assert_eq!(s.finish(), vec!['a', 'b', 'c']);
}

#[test]
fn last_waypoint_must_be_reached() {
    let task =
        RunTask::Mission { waypoints: square_mission(), guidance: GuidanceConfig::default() };
    assert_eq!(mission_completed(&task, Some(4), false, r(0.4)), Some(true));
    assert_eq!(mission_completed(&task, Some(4), false, r(0.5)), Some(false));
    assert_eq!(mission_completed(&task, Some(3), false, r(0.4)), Some(false));
    assert_eq!(mission_completed(&task, None, false, r(0.4)), Some(false));
    // Reached once, it counts, wherever the run ends.
    assert_eq!(mission_completed(&task, Some(4), true, r(70.0)), Some(true));
    assert_eq!(final_waypoint(&task).unwrap().position, v3(0.0, 0.0, -2.0));
    let none = RunTask::Mission { waypoints: Vec::new(), guidance: GuidanceConfig::default() };
    assert_eq!(mission_completed(&none, Some(0), false, r(0.0)), Some(true));
    assert_eq!(mission_completed(&none, None, false, r(0.0)), Some(false));
    assert!(final_waypoint(&none).is_none());
    let corners: Vec<(f64, f64)> =
        square_mission().iter().map(|w| (f(w.position.x), f(w.position.y))).collect();
    assert_eq!(corners, vec![(0.0, 0.0), (5.0, 0.0), (5.0, 5.0), (0.0, 5.0), (0.0, 0.0)]);
}

#[test]
fn a_run_that_never_moved_completes_nothing() {
    let wps = vec![Waypoint::new(v3(0.0, 0.0, -2.0), r(0.0))];
    let task = RunTask::Mission { waypoints: wps, guidance: GuidanceConfig::default() };
    let spec = RunSpec { setup: setup(), seed: 1, task, steps: 0, log_every: 1, log_cap: None };
    let m = run_one(&spec);
    assert_eq!(m.mission_completed, Some(false));
    assert_eq!(m.final_position_error, Some(r(2.0)));
    assert_eq!((m.max_tilt, m.peak_ins_position_error), (r(0.0), r(0.0)));
    assert!(m.finite);
}

#[test]
fn a_run_that_drifts_off_has_completed_its_mission() {
    let wps = vec![Waypoint::new(v3(0.0, 0.0, -2.0), r(0.0))];
    let task = RunTask::Mission { waypoints: wps, guidance: GuidanceConfig::default() };
    let spec = RunSpec { setup: setup(), seed: 1, task, steps: 0, log_every: 1, log_cap: None };
    let mut sim = spec.build();
    let go = |sim: &mut Sim, d: f64| {
        let mut truth = *sim.truth();
        truth.position = v3(0.0, 0.0, d - 2.0);
        let result = StepResult {
            truth,
            estimate: EstState::at_rest(),
            motors: [r(1.0); 4],
            true_gyro_bias: v3(0.0, 0.0, 0.0),
            est_gyro_bias: None,
        };
        for _ in 0..4 {
            let setpoint = sim.setpoint();
            sim.step(Step { air: still_air(), here: r(d), next: r(0.0), setpoint, t: r(0.0), result });
        }
    };
    go(&mut sim, 2.0);
    assert!(!sim.arrived());
    assert_eq!(summarize(&spec, &sim).mission_completed, Some(false));
    go(&mut sim, 0.4);
    assert!(sim.arrived());
    go(&mut sim, 30.0);
    let m = summarize(&spec, &sim);
    assert_eq!((m.mission_completed, m.final_position_error), (Some(true), Some(r(30.0))));
}

#[test]
fn a_mission_without_waypoints_is_complete() {
    let task = RunTask::Mission { waypoints: Vec::new(), guidance: GuidanceConfig::default() };
    let spec = RunSpec { setup: setup(), seed: 1, task, steps: 8, log_every: 1, log_cap: None };
    let m = run_one(&spec);
    assert_eq!((m.mission_completed, m.final_position_error), (Some(true), None));
}

#[test]
fn runs_add_up() {
    let m = RunMetrics {
        seed: 1,
        estimator: EstimatorKind::Ins,
        mission_completed: Some(true),
        final_position_error: Some(r(0.5)),
        rms_ins_position_error: r(0.1),
        rms_attitude_error: r(0.01),
        max_tilt: r(0.2),
        peak_ins_position_error: r(0.3),
        finite: true,
    };
    let failed = RunMetrics {
        mission_completed: Some(false),
        final_position_error: None,
        rms_attitude_error: r(0.02),
        peak_ins_position_error: r(f64::NAN),
        finite: false,
        ..m
    };
    let t = aggregate(&vec![m, failed, RunMetrics { mission_completed: None, ..m }]);
    assert_eq!((t.n, t.success, t.diverged), (3, 1, 1));
    assert_eq!(f(t.worst_rms_attitude_error), 0.02);
    assert_eq!(f(t.worst_final_position_error), 0.5);
    assert_eq!(f(t.worst_peak_ins_position_error), 0.3);
    let none = aggregate(&Vec::new());
    assert_eq!((none.n, none.success, none.diverged), (0, 0, 0));
    assert_eq!(f(worst(&vec![r(-1.0), r(-2.0)])), 0.0);
    assert_eq!(f(worst(&vec![r(1.0), r(3.0), r(2.0)])), 3.0);
}

#[test]
fn divergence_is_noticed() {
    let spec = &specs(1, 40)[0];
    let mut sim = spec.build();
    run(&mut sim, 1, 40);
    let mut samples = sim.telemetry().samples.clone();
    assert_eq!(samples.len(), 4);
    assert!(all_finite(&samples));
    samples[3].estimate.position.y = r(f64::NEG_INFINITY);
    assert!(!all_finite(&samples));
    samples[3].estimate.position.y = r(0.0);
    samples[0].truth = State13::at_rest();
    samples[0].truth.position.z = r(f64::NAN);
    assert!(!all_finite(&samples));
    assert!(all_finite(&Vec::new()));
    let sound = sim.telemetry().samples[1];
    let spoil: [fn(&mut TelemetrySample, Real); 6] = [
        |s, x| s.truth.velocity.x = x,
        |s, x| s.truth.attitude.k = x,
        |s, x| s.truth.angular_rate.y = x,
        |s, x| s.estimate.velocity.z = x,
        |s, x| s.estimate.attitude.w = x,
        |s, x| s.estimate.angular_rate.x = x,
    ];
    for f in spoil {
        let mut bad = sound;
        f(&mut bad, r(f64::INFINITY));
        assert!(!all_finite(&vec![sound, bad]));
        assert!(all_finite(&vec![sound, sound]));
    }
}
