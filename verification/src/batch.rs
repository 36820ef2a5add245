//! Many runs: what each one does, how they are shared out among workers, and what
//! they add up to.
use vstd::prelude::*;
use crate::config::EstimatorKind;
use crate::guidance::{GuidanceConfig, GuidanceState, Waypoint};
use crate::messages::{Quat, Setpoint, Tick, Vec3};
use crate::number::Real;
use crate::schedule_laws;
use crate::scheduler::{ModeState, Sim, SimSetup, SimState, Step};
use crate::telemetry::TelemetrySample;

verus! {

/// What a run does.
#[derive(Debug)]
pub enum RunTask {
    /// Hold a setpoint.
    Attitude(Setpoint),
    /// Fly waypoints.
    Mission { waypoints: Vec<Waypoint>, guidance: GuidanceConfig },
}

/// What a [`RunTask`] stands for.
pub enum TaskState {
    Attitude(Setpoint),
    Mission { route: Seq<Waypoint>, guidance: GuidanceConfig },
}

impl View for RunTask {
    type V = TaskState;

    open spec fn view(&self) -> TaskState {
        match self {
            RunTask::Attitude(sp) => TaskState::Attitude(*sp),
            RunTask::Mission { waypoints, guidance } => TaskState::Mission {
                route: waypoints@,
                guidance: *guidance,
            },
        }
    }
}

impl RunTask {
    /// The same task once more.
    pub fn duplicate(&self) -> (r: RunTask)
        ensures
            r@ == self@,
    {
        match self {
            RunTask::Attitude(sp) => RunTask::Attitude(*sp),
            RunTask::Mission { waypoints, guidance } => {
                let copy = waypoints.clone();
                assert(copy@ =~= waypoints@);
                RunTask::Mission { waypoints: copy, guidance: *guidance }
            },
        }
    }
}

/// One run.
#[derive(Debug)]
pub struct RunSpec {
    pub setup: SimSetup,
    /// Seed of all noise.
    pub seed: u64,
    pub task: RunTask,
    pub steps: usize,
    pub log_every: Tick,
    pub log_cap: Option<usize>,
}

/// The state that a run starts from.
pub open spec fn built(
    setup: SimSetup,
    task: TaskState,
    log_every: Tick,
    cap: Option<usize>,
) -> SimState {
    let s = SimState::start(setup).with_logging(log_every, cap);
    match task {
        TaskState::Attitude(sp) => SimState { setpoint: sp, mode: ModeState::Attitude, ..s },
        TaskState::Mission { route, guidance } => SimState {
            mode: ModeState::Position(GuidanceState::start(route, guidance)),
            ..s
        },
    }
}

impl RunSpec {
    /// A run that can be built: waypoints need an estimator that knows the position.
    pub open spec fn wf(&self) -> bool {
        &&& self.setup.periods.wf()
        &&& self.task is Mission ==> self.setup.estimator_kind == EstimatorKind::Ins
    }

    /// The simulation, before its first step.
    pub fn build(&self) -> (r: Sim)
        requires
            self.wf(),
        ensures
            r@ == built(self.setup, self.task@, self.log_every, self.log_cap),
            r@.wf(),
    {
        let mut s = Sim::new(self.setup);
        s.set_logging(self.log_every, self.log_cap);
        match self.task.duplicate() {
            RunTask::Attitude(sp) => s.set_setpoint(sp),
            RunTask::Mission { waypoints, guidance } => s.set_mission(waypoints, guidance),
        }
        s
    }
}

/// How often a sweep logs.
pub const SWEEP_LOG_EVERY: Tick = 10;

/// The seed of run `i` of a sweep.
pub open spec fn swept_seed(seed: u64, i: int) -> u64 {
    ((seed + i) % 0x1_0000_0000_0000_0000) as u64
}

/// The same run `n` times, with consecutive seeds.
pub fn seed_sweep(setup: SimSetup, seed: u64, task: RunTask, steps: usize, n: u64) -> (r: Vec<
    RunSpec,
>)
    ensures
        r@.len() == n,
        forall|i: int|
            0 <= i < n ==> {
                &&& (#[trigger] r@[i]).setup == setup
                &&& r@[i].seed == swept_seed(seed, i)
                &&& r@[i].task@ == task@
                &&& r@[i].steps == steps
                &&& r@[i].log_every == SWEEP_LOG_EVERY
                &&& r@[i].log_cap == None::<usize>
            },
{
    let mut out: Vec<RunSpec> = Vec::new();
    let mut i: u64 = 0;
    while i < n
        invariant
            i <= n,
            out@.len() == i,
            forall|k: int|
                0 <= k < i ==> {
                    &&& (#[trigger] out@[k]).setup == setup
                    &&& out@[k].seed == swept_seed(seed, k)
                    &&& out@[k].task@ == task@
                    &&& out@[k].steps == steps
                    &&& out@[k].log_every == SWEEP_LOG_EVERY
                    &&& out@[k].log_cap == None::<usize>
                },
        decreases n - i,
    {
        out.push(
            RunSpec {
                setup,
                seed: seed.wrapping_add(i),
                task: task.duplicate(),
                steps,
                log_every: SWEEP_LOG_EVERY,
                log_cap: None,
            },
        );
        i = i + 1;
    }
    out
}

/// No two runs of a sweep share a seed.
pub proof fn sweep_seeds_are_distinct(seed: u64, i: int, j: int)
    requires
        0 <= i < j < 0x1_0000_0000_0000_0000,
    ensures
        swept_seed(seed, i) != swept_seed(seed, j),
{
    let m = 0x1_0000_0000_0000_0000int;
    let a = (seed + i) % m;
    let b = (seed + j) % m;
    if a == b {
        let qa = (seed + i) / m;
        let qb = (seed + j) / m;
        assert(seed + i == m * qa + a && seed + j == m * qb + b);
        assert(j - i == m * (qb - qa)) by (nonlinear_arith)
            requires
                seed + i == m * qa + a,
                seed + j == m * qb + b,
                a == b,
        ;
        assert(false) by (nonlinear_arith)
            requires
                j - i == m * (qb - qa),
                0 < j - i < m,
        ;
    }
}

// ---- sharing out ------------------------------------------------------------

/// How many workers run `n` jobs: as many as asked for (as there are processors, if
/// none are asked for), at least one and at most one per job.
pub fn worker_count(asked: usize, processors: usize, n: usize) -> (r: usize)
    requires
        n > 0,
    ensures
        r == ({
            let w = if asked == 0 {
                processors
            } else {
                asked
            };
            if w < 1 {
                1
            } else if w > n {
                n
            } else {
                w
            }
        }),
{
    let w: usize = if asked == 0 {
        processors
    } else {
        asked
    };
    if w < 1 {
        1
    } else if w > n {
        n
    } else {
        w
    }
}

/// The job that a claim gives when `taken` of `total` jobs are taken.
pub open spec fn claim_given(taken: int, total: int) -> Option<usize> {
    if taken < total {
        Some(taken as usize)
    } else {
        None
    }
}

/// How many jobs are taken after a claim.
pub open spec fn taken_after(taken: int, total: int) -> int {
    if taken < total {
        taken + 1
    } else {
        taken
    }
}

/// The jobs that no worker has taken yet.
#[derive(Debug)]
pub struct JobQueue {
    next: usize,
    n: usize,
}

impl JobQueue {
    /// How many jobs have been taken.
    pub closed spec fn taken(&self) -> int {
        self.next as int
    }

    pub closed spec fn total(&self) -> int {
        self.n as int
    }

    pub open spec fn wf(&self) -> bool {
        0 <= self.taken() <= self.total()
    }

    pub fn new(n: usize) -> (r: JobQueue)
        ensures
            r.wf(),
            r.taken() == 0,
            r.total() == n,
    {
        JobQueue { next: 0, n }
    }

    /// Takes the next job; none if all are taken.
    pub fn claim(&mut self) -> (r: Option<usize>)
        requires
            old(self).wf(),
        ensures
            final(self).wf(),
            final(self).total() == old(self).total(),
            r == claim_given(old(self).taken(), old(self).total()),
            final(self).taken() == taken_after(old(self).taken(), old(self).total()),
    {
        if self.next < self.n {
            let i: usize = self.next;
            self.next = self.next + 1;
            Some(i)
        } else {
            None
        }
    }
}

/// The results of the jobs, each in the place of its job.
#[derive(Debug)]
pub struct Slots<S> {
    slots: Vec<Option<S>>,
}

impl<S> View for Slots<S> {
    type V = Seq<Option<S>>;

    closed spec fn view(&self) -> Seq<Option<S>> {
        self.slots@
    }
}

impl<S> Slots<S> {
    /// Room for `n` results.
    pub fn new(n: usize) -> (r: Slots<S>)
        ensures
            r@ == Seq::new(n as nat, |i: int| None::<S>),
    {
        let mut slots: Vec<Option<S>> = Vec::new();
        let mut i: usize = 0;
        while i < n
            invariant
                i <= n,
                slots@.len() == i,
                forall|k: int| 0 <= k < i ==> #[trigger] slots@[k] == None::<S>,
            decreases n - i,
        {
            slots.push(None);
            i = i + 1;
        }
        let r = Slots { slots };
        assert(r@ =~= Seq::new(n as nat, |i: int| None::<S>));
        r
    }

    /// Puts the result of job `i` in its place.
    pub fn put(&mut self, i: usize, s: S)
        requires
            i < old(self)@.len(),
        ensures
            final(self)@ == old(self)@.update(i as int, Some(s)),
    {
        self.slots.set(i, Some(s));
    }

    /// The results in the order of the jobs, once all are there.
    pub fn finish(self) -> (r: Vec<S>)
        requires
            forall|i: int| 0 <= i < self@.len() ==> (#[trigger] self@[i]) is Some,
        ensures
            r@.len() == self@.len(),
            forall|i: int| 0 <= i < r@.len() ==> self@[i] == Some(#[trigger] r@[i]),
    {
        let ghost all = self@;
        let mut rest = self.slots;
        let mut back: Vec<S> = Vec::new();
        while rest.len() > 0
            invariant
                rest@.len() + back@.len() == all.len(),
                rest@ == all.take(rest@.len() as int),
                forall|i: int| 0 <= i < all.len() ==> (#[trigger] all[i]) is Some,
                forall|i: int|
                    0 <= i < back@.len() ==> all[all.len() - 1 - i] == Some(#[trigger] back@[i]),
            decreases rest.len(),
        {
            let ghost k = rest@.len() as int;
            if let Some(slot) = rest.pop() {
                assert(slot == all[k - 1]);
                if let Some(s) = slot {
                    back.push(s);
                }
            }
            assert(rest@ =~= all.take(rest@.len() as int));
        }
        let mut out: Vec<S> = Vec::new();
        let ghost backwards = back@;
        while back.len() > 0
            invariant
                back@.len() + out@.len() == all.len(),
                backwards.len() == all.len(),
                back@ == backwards.take(back@.len() as int),
                forall|i: int|
                    0 <= i < backwards.len() ==> all[all.len() - 1 - i] == Some(
                        #[trigger] backwards[i],
                    ),
                forall|i: int| 0 <= i < out@.len() ==> all[i] == Some(#[trigger] out@[i]),
            decreases back.len(),
        {
            let ghost k = back@.len() as int;
            if let Some(s) = back.pop() {
                assert(s == backwards[k - 1]);
                assert(all[all.len() - 1 - (k - 1)] == Some(backwards[k - 1]));
                out.push(s);
            }
            assert(back@ =~= backwards.take(back@.len() as int));
        }
        out
    }
}

/// The places after results came in, in any order.
pub open spec fn all_put<S>(slots: Seq<Option<S>>, puts: Seq<(int, S)>) -> Seq<Option<S>>
    decreases puts.len(),
{
    if puts.len() == 0 {
        slots
    } else {
        let p = puts.last();
        all_put(slots, puts.drop_last()).update(p.0, Some(p.1))
    }
}

/// Whether the result of job `i` came in.
pub open spec fn handed_in<S>(puts: Seq<(int, S)>, i: int) -> bool {
    exists|k: int| 0 <= k < puts.len() && (#[trigger] puts[k]).0 == i
}

/// Whatever the order in which jobs finish, the results end up in the order of the
/// jobs: if every job hands in the result that belongs to it, and no other, the
/// outcome is the one of running the jobs in turn.
pub proof fn order_of_finishing_does_not_matter<S>(results: Seq<S>, puts: Seq<(int, S)>)
    requires
        forall|k: int|
            0 <= k < puts.len() ==> 0 <= (#[trigger] puts[k]).0 < results.len() && puts[k].1
                == results[puts[k].0],
        forall|i: int| 0 <= i < results.len() ==> #[trigger] handed_in(puts, i),
    ensures
        all_put(Seq::new(results.len(), |i: int| None::<S>), puts) == Seq::new(
            results.len(),
            |i: int| Some(results[i]),
        ),
{
    let start = Seq::new(results.len(), |i: int| None::<S>);
    put_each(results, puts);
    let done = all_put(start, puts);
    let want = Seq::new(results.len(), |i: int| Some(results[i]));
    assert forall|i: int| 0 <= i < results.len() implies done[i] == want[i] by {
        assert(handed_in(puts, i));
        let k = choose|k: int| 0 <= k < puts.len() && (#[trigger] puts[k]).0 == i;
        assert(puts[k].0 == i);
    }
    assert(done =~= want);
}

proof fn put_each<S>(results: Seq<S>, puts: Seq<(int, S)>)
    requires
        forall|k: int|
            0 <= k < puts.len() ==> 0 <= (#[trigger] puts[k]).0 < results.len() && puts[k].1
                == results[puts[k].0],
    ensures
        all_put(Seq::new(results.len(), |i: int| None::<S>), puts).len() == results.len(),
        forall|k: int|
            0 <= k < puts.len() ==> all_put(Seq::new(results.len(), |i: int| None::<S>), puts)[(
            #[trigger] puts[k]).0] == Some(results[puts[k].0]),
    decreases puts.len(),
{
    if puts.len() > 0 {
        let init = puts.drop_last();
        assert forall|k: int| 0 <= k < init.len() implies 0 <= (#[trigger] init[k]).0
            < results.len() && init[k].1 == results[init[k].0] by {
            assert(init[k] == puts[k]);
        }
        put_each(results, init);
        let start = Seq::new(results.len(), |i: int| None::<S>);
        let last = puts.last();
        assert(puts[puts.len() - 1] == last);
        assert forall|k: int| 0 <= k < puts.len() implies all_put(start, puts)[(
        #[trigger] puts[k]).0] == Some(results[puts[k].0]) by {
            if k < init.len() {
                assert(init[k] == puts[k]);
            }
        }
    }
}

/// What the first `count` claims on a queue of `total` jobs give, whoever makes them, when
/// `taken` are taken already.
pub open spec fn claims(taken: int, total: int, count: nat) -> Seq<Option<usize>>
    decreases count,
{
    if count == 0 {
        seq![]
    } else {
        seq![claim_given(taken, total)] + claims(
            taken_after(taken, total),
            total,
            (count - 1) as nat,
        )
    }
}

proof fn claims_in_turn(taken: int, total: int, count: nat)
    requires
        0 <= taken <= total <= usize::MAX,
    ensures
        claims(taken, total, count).len() == count,
        forall|k: int|
            0 <= k < count ==> #[trigger] claims(taken, total, count)[k] == (if taken + k < total {
                Some((taken + k) as usize)
            } else {
                None
            }),
    decreases count,
{
    if count > 0 {
        let rest = claims(taken_after(taken, total), total, (count - 1) as nat);
        claims_in_turn(taken_after(taken, total), total, (count - 1) as nat);
        let all = claims(taken, total, count);
        assert forall|k: int| 0 <= k < count implies #[trigger] all[k] == (if taken + k < total {
            Some((taken + k) as usize)
        } else {
            None
        }) by {
            if k > 0 {
                assert(all[k] == rest[k - 1]);
            }
        }
    }
}

/// However many workers claim jobs, and for as long as one gets a job, every job is given
/// exactly once, and nothing else is given.
pub proof fn each_job_is_claimed_once(n: usize, count: nat, i: usize)
    requires
        count >= n,
    ensures
        claims(0, n as int, count).len() == count,
        i < n ==> claims(0, n as int, count)[i as int] == Some(i),
        forall|k: int|
            0 <= k < count && #[trigger] claims(0, n as int, count)[k] == Some(i) ==> i < n && k
                == i,
{
    claims_in_turn(0, n as int, count);
}

/// A batch comes to what running its jobs in turn comes to, whatever the number of workers
/// and the order in which they finish. `results` are the results of the jobs in turn. The
/// workers made `count` claims, until no job was left; `hand_ins` says which claims were
/// answered with a result, in the order of finishing, each claim that got a job once.
pub proof fn batch_matches_sequential<S>(results: Seq<S>, count: nat, hand_ins: Seq<int>)
    requires
        results.len() <= usize::MAX,
        count >= results.len(),
        hand_ins.no_duplicates(),
        forall|j: int| #[trigger]
            hand_ins.contains(j) <==> 0 <= j < count && claims(0, results.len() as int, count)[j]
                is Some,
    ensures
        hand_ins.len() == results.len(),
        ({
            let given = claims(0, results.len() as int, count);
            let puts = Seq::new(
                hand_ins.len(),
                |j: int|
                    (given[hand_ins[j]]->0 as int, results[given[hand_ins[j]]->0 as int]),
            );
            all_put(Seq::new(results.len(), |i: int| None::<S>), puts) == Seq::new(
                results.len(),
                |i: int| Some(results[i]),
            )
        }),
{
    let n = results.len() as int;
    let given = claims(0, n, count);
    claims_in_turn(0, n, count);
    let puts = Seq::new(
        hand_ins.len(),
        |j: int| (given[hand_ins[j]]->0 as int, results[given[hand_ins[j]]->0 as int]),
    );
    assert forall|j: int| 0 <= j < hand_ins.len() implies 0 <= (#[trigger] hand_ins[j]) < n
        && given[hand_ins[j]] == Some(hand_ins[j] as usize) by {
        assert(hand_ins.contains(hand_ins[j]));
    }
    assert forall|k: int| 0 <= k < puts.len() implies 0 <= (#[trigger] puts[k]).0 < results.len()
        && puts[k].1 == results[puts[k].0] by {
        assert(0 <= hand_ins[k] < n);
    }
    assert forall|i: int| 0 <= i < results.len() implies #[trigger] handed_in(puts, i) by {
        assert(given[i] == Some(i as usize));
        assert(hand_ins.contains(i));
        let j = choose|j: int| 0 <= j < hand_ins.len() && hand_ins[j] == i;
        assert(puts[j].0 == i);
    }
    order_of_finishing_does_not_matter(results, puts);
    let all = Seq::new(n as nat, |i: int| i);
    assert(hand_ins.to_set() =~= all.to_set()) by {
        assert forall|i: int| hand_ins.contains(i) <==> all.contains(i) by {
            if 0 <= i < n {
                assert(all[i] == i);
                assert(given[i] is Some);
            }
        }
    }
    hand_ins.unique_seq_to_set();
    assert(all.no_duplicates());
    all.unique_seq_to_set();
}

// ---- adding up --------------------------------------------------------------

/// What came of one run.
#[derive(Clone, Copy, Debug, PartialEq, Eq, Structural)]
pub struct RunMetrics {
    pub seed: u64,
    pub estimator: EstimatorKind,
    /// Whether the last waypoint was reached, if waypoints were flown.
    pub mission_completed: Option<bool>,
    /// Distance to the last waypoint at the end.
    pub final_position_error: Option<Real>,
    pub rms_ins_position_error: Real,
    pub rms_attitude_error: Real,
    pub max_tilt: Real,
    pub peak_ins_position_error: Real,
    /// Whether the true and the estimated state stayed finite.
    pub finite: bool,
}

/// The largest of some numbers, at least 0.
pub open spec fn worst_of(values: Seq<Real>) -> Real
    decreases values.len(),
{
    if values.len() == 0 {
        Real::zero_value()
    } else {
        worst_of(values.drop_last()).larger(values.last())
    }
}

/// The largest of some numbers, at least 0.
pub fn worst(values: &Vec<Real>) -> (r: Real)
    ensures
        r == worst_of(values@),
{
    let mut w = Real::zero();
    let mut i: usize = 0;
    assert(values@.take(0) =~= Seq::<Real>::empty());
    while i < values.len()
        invariant
            i <= values.len(),
            w == worst_of(values@.take(i as int)),
        decreases values.len() - i,
    {
        assert(values@.take(i + 1).drop_last() =~= values@.take(i as int));
        w = w.max(values[i]);
        i = i + 1;
    }
    assert(values@.take(values@.len() as int) =~= values@);
    w
}

/// The worst of some numbers is a number that none of them exceeds.
pub proof fn worst_is_not_exceeded(values: Seq<Real>)
    ensures
        worst_of(values).is_number(),
        Real::zero_value().at_most(worst_of(values)),
        forall|i: int|
            0 <= i < values.len() && (#[trigger] values[i]).is_number() ==> values[i].at_most(
                worst_of(values),
            ),
    decreases values.len(),
{
    if values.len() > 0 {
        let init = values.drop_last();
        worst_is_not_exceeded(init);
        let w = worst_of(values);
        assert forall|i: int| 0 <= i < values.len() && (#[trigger] values[i]).is_number() implies values[i].at_most(
            w,
        ) by {
            if i < init.len() {
                assert(init[i] == values[i]);
            }
        }
    }
}

pub open spec fn is_finite_vec(v: Vec3) -> bool {
    v.x.magnitude() < crate::number::INFINITY_BITS && v.y.magnitude() < crate::number::INFINITY_BITS
        && v.z.magnitude() < crate::number::INFINITY_BITS
}

fn finite_vec(v: &Vec3) -> (r: bool)
    ensures
        r == is_finite_vec(*v),
{
    v.x.is_finite() && v.y.is_finite() && v.z.is_finite()
}

pub open spec fn is_finite_quat(q: Quat) -> bool {
    q.w.magnitude() < crate::number::INFINITY_BITS && q.i.magnitude() < crate::number::INFINITY_BITS
        && q.j.magnitude() < crate::number::INFINITY_BITS && q.k.magnitude()
        < crate::number::INFINITY_BITS
}

fn finite_quat(q: &Quat) -> (r: bool)
    ensures
        r == is_finite_quat(*q),
{
    q.w.is_finite() && q.i.is_finite() && q.j.is_finite() && q.k.is_finite()
}

/// Whether every number of the true and of the estimated state of a sample is finite.
pub open spec fn is_finite_sample(s: TelemetrySample) -> bool {
    &&& is_finite_vec(s.truth.position)
    &&& is_finite_vec(s.truth.velocity)
    &&& is_finite_quat(s.truth.attitude)
    &&& is_finite_vec(s.truth.angular_rate)
    &&& is_finite_vec(s.estimate.position)
    &&& is_finite_vec(s.estimate.velocity)
    &&& is_finite_quat(s.estimate.attitude)
    &&& is_finite_vec(s.estimate.angular_rate)
}

fn finite_sample(s: &TelemetrySample) -> (r: bool)
    ensures
        r == is_finite_sample(*s),
{
    finite_vec(&s.truth.position) && finite_vec(&s.truth.velocity) && finite_quat(
        &s.truth.attitude,
    ) && finite_vec(&s.truth.angular_rate) && finite_vec(&s.estimate.position) && finite_vec(
        &s.estimate.velocity,
    ) && finite_quat(&s.estimate.attitude) && finite_vec(&s.estimate.angular_rate)
}

/// Whether all that was logged, true and estimated, is finite.
pub open spec fn is_finite_log(samples: Seq<TelemetrySample>) -> bool {
    forall|i: int| 0 <= i < samples.len() ==> is_finite_sample(#[trigger] samples[i])
}

/// Whether all that was logged, true and estimated, is finite.
pub fn all_finite(samples: &Vec<TelemetrySample>) -> (r: bool)
    ensures
        r == is_finite_log(samples@),
{
    let mut i: usize = 0;
    while i < samples.len()
        invariant
            i <= samples.len(),
            forall|k: int| 0 <= k < i ==> is_finite_sample(#[trigger] samples@[k]),
        decreases samples.len() - i,
    {
        if !finite_sample(&samples[i]) {
            assert(!is_finite_sample(samples@[i as int]));
            return false;
        }
        i = i + 1;
    }
    true
}

/// Whether a run reached its last waypoint; `None` if it flew no waypoints. The last
/// waypoint must be the active one, and have been within the accept radius at some time: when
/// guidance saw that the aircraft had `arrived`, or at the end of the run, at `distance` from
/// it. A mission without waypoints is complete as soon as it is flown.
pub open spec fn completed(
    task: TaskState,
    active: Option<usize>,
    arrived: bool,
    distance: Real,
) -> Option<bool> {
    match task {
        TaskState::Mission { route, guidance } => Some(
            if route.len() == 0 {
                active == Some(0usize)
            } else {
                active == Some((route.len() - 1) as usize) && (arrived || distance.less(
                    guidance.accept_radius,
                ))
            },
        ),
        TaskState::Attitude(_) => None,
    }
}

/// Whether a run reached its last waypoint, which is `distance` away at the end.
pub fn mission_completed(
    task: &RunTask,
    active: Option<usize>,
    arrived: bool,
    distance: Real,
) -> (r: Option<bool>)
    ensures
        r == completed(task@, active, arrived, distance),
{
    match task {
        RunTask::Mission { waypoints, guidance } => {
            let n: usize = waypoints.len();
            let last: usize = if n == 0 {
                0
            } else {
                n - 1
            };
            let on_last = match active {
                Some(i) => i == last,
                None => false,
            };
            Some(on_last && (n == 0 || arrived || distance.lt(guidance.accept_radius)))
        },
        RunTask::Attitude(_) => None,
    }
}

/// The waypoint that a run ends at.
pub fn final_waypoint(task: &RunTask) -> (r: Option<Waypoint>)
    ensures
        r == (match task@ {
            TaskState::Mission { route, .. } => if route.len() == 0 {
                None
            } else {
                Some(route.last())
            },
            TaskState::Attitude(_) => None,
        }),
{
    match task {
        RunTask::Mission { waypoints, .. } => {
            let n: usize = waypoints.len();
            if n == 0 {
                None
            } else {
                Some(waypoints[n - 1])
            }
        },
        RunTask::Attitude(_) => None,
    }
}

/// What a finished run is measured by.
#[derive(Debug)]
pub struct RunErrors {
    /// Distance from the last waypoint at the end.
    pub distance: Real,
    /// Distance between the true and the estimated position, sample by sample.
    pub positions: Vec<Real>,
    /// Tilt, sample by sample.
    pub tilts: Vec<Real>,
    pub rms_position: Real,
    pub rms_attitude: Real,
}

/// Sums up a finished run.
pub fn summarize_default(spec: &RunSpec, sim: &Sim, e: &RunErrors) -> (r: RunMetrics)
    ensures
        r == (RunMetrics {
            seed: spec.seed,
            estimator: spec.setup.estimator_kind,
            mission_completed: completed(
                spec.task@,
                sim@.mode.waypoint_index(),
                sim@.mode.arrived(),
                e.distance,
            ),
            final_position_error: match spec.task@ {
                TaskState::Mission { route, .. } => if route.len() == 0 {
                    None
                } else {
                    Some(e.distance)
                },
                TaskState::Attitude(_) => None,
            },
            rms_ins_position_error: e.rms_position,
            rms_attitude_error: e.rms_attitude,
            max_tilt: worst_of(e.tilts@),
            peak_ins_position_error: worst_of(e.positions@),
            finite: is_finite_log(sim@.log),
        }),
{
    let final_position_error = match final_waypoint(&spec.task) {
        Some(_) => Some(e.distance),
        None => None,
    };
    RunMetrics {
        seed: spec.seed,
        estimator: spec.setup.estimator_kind,
        mission_completed: mission_completed(
            &spec.task,
            sim.waypoint_index(),
            sim.arrived(),
            e.distance,
        ),
        final_position_error,
        rms_ins_position_error: e.rms_position,
        rms_attitude_error: e.rms_attitude,
        max_tilt: worst(&e.tilts),
        peak_ins_position_error: worst(&e.positions),
        finite: all_finite(&sim.telemetry().samples),
    }
}

/// A run has completed its mission exactly if its last waypoint is active and was reached at
/// some time. One that never came within the accept radius has not, nor has one that is still
/// on its way to another waypoint.
pub proof fn mission_completes_at_its_last_waypoint(
    route: Seq<Waypoint>,
    guidance: GuidanceConfig,
    active: Option<usize>,
    arrived: bool,
    distance: Real,
)
    requires
        route.len() <= usize::MAX,
    ensures
        ({
            let done = completed(TaskState::Mission { route, guidance }, active, arrived, distance);
            let near = distance.less(guidance.accept_radius);
            &&& route.len() > 0 && !arrived && !near ==> done == Some(false)
            &&& (active matches Some(k) ==> k + 1 < route.len() ==> done == Some(false))
            &&& route.len() > 0 && active == Some((route.len() - 1) as usize) && (arrived || near)
                ==> done == Some(true)
            &&& route.len() == 0 && active == Some(0usize) ==> done == Some(true)
        }),
{
}

/// What a run that is in a state has come to, at `distance` from its last waypoint.
pub open spec fn completed_in(task: TaskState, s: SimState, distance: Real) -> Option<bool> {
    completed(task, s.mode.waypoint_index(), s.mode.arrived(), distance)
}

/// A mission is completed for good: a run in whose course guidance saw the last waypoint
/// within the accept radius counts as completed, however far the aircraft drifts off after.
/// A mission without waypoints is complete from the start.
pub proof fn completed_mission_stays_completed(
    spec: RunSpec,
    route: Seq<Waypoint>,
    guidance: GuidanceConfig,
    first: Seq<Step>,
    rest: Seq<Step>,
    distance: Real,
)
    requires
        spec.wf(),
        spec.task@ == (TaskState::Mission { route, guidance }),
        route.len() <= usize::MAX,
    ensures
        ({
            let start = built(spec.setup, spec.task@, spec.log_every, spec.log_cap);
            let mid = schedule_laws::run(start, first);
            let end = schedule_laws::run(start, first + rest);
            &&& mid.mode.arrived() ==> completed_in(spec.task@, end, distance) == Some(true)
            &&& route.len() == 0 ==> completed_in(spec.task@, end, distance) == Some(true)
        }),
{
    let start = built(spec.setup, spec.task@, spec.log_every, spec.log_cap);
    let mid = schedule_laws::run(start, first);
    schedule_laws::mission_goes_on_through_its_waypoints(start, first);
    run_stays_wf(start, first);
    schedule_laws::mission_goes_on_through_its_waypoints(mid, rest);
    schedule_laws::batches_make_no_difference(start, first, rest);
}

proof fn run_stays_wf(s: SimState, steps: Seq<Step>)
    requires
        s.wf(),
    ensures
        schedule_laws::run(s, steps).wf(),
    decreases steps.len(),
{
    if steps.len() > 0 {
        run_stays_wf(s, steps.drop_last());
    }
}

/// A run completes its mission in the step in which the controller finds the last waypoint,
/// active, within the accept radius.
pub proof fn reaching_the_last_waypoint_completes(
    s: SimState,
    step: Step,
    route: Seq<Waypoint>,
    guidance: GuidanceConfig,
    distance: Real,
)
    requires
        s.wf(),
        s.controls_now(),
        s.mode matches ModeState::Position(g) && g.route == route && g.config == guidance
            && g.at_last(),
        0 < route.len() <= usize::MAX,
        step.here.less(guidance.accept_radius),
    ensures
        completed_in(TaskState::Mission { route, guidance }, s.stepped(step), distance) == Some(
            true,
        ),
{
}

/// What many runs add up to. The means are left to the caller.
#[derive(Clone, Copy, Debug, PartialEq, Eq, Structural)]
pub struct McTally {
    pub n: usize,
    /// Runs that reached their last waypoint.
    pub success: usize,
    /// Runs that did not stay finite.
    pub diverged: usize,
    pub worst_rms_attitude_error: Real,
    pub worst_final_position_error: Real,
    pub worst_peak_ins_position_error: Real,
}

pub open spec fn final_error(m: RunMetrics) -> Real {
    match m.final_position_error {
        Some(e) => e,
        None => Real::zero_value(),
    }
}

/// What many runs add up to.
pub open spec fn tally(metrics: Seq<RunMetrics>) -> McTally
    decreases metrics.len(),
{
    if metrics.len() == 0 {
        McTally {
            n: 0,
            success: 0,
            diverged: 0,
            worst_rms_attitude_error: Real::zero_value(),
            worst_final_position_error: Real::zero_value(),
            worst_peak_ins_position_error: Real::zero_value(),
        }
    } else {
        let t = tally(metrics.drop_last());
        let m = metrics.last();
        McTally {
            n: (t.n + 1) as usize,
            success: if m.mission_completed == Some(true) {
                (t.success + 1) as usize
            } else {
                t.success
            },
            diverged: if m.finite {
                t.diverged
            } else {
                (t.diverged + 1) as usize
            },
            worst_rms_attitude_error: t.worst_rms_attitude_error.larger(m.rms_attitude_error),
            worst_final_position_error: t.worst_final_position_error.larger(final_error(m)),
            worst_peak_ins_position_error: t.worst_peak_ins_position_error.larger(
                m.peak_ins_position_error,
            ),
        }
    }
}

/// Adds many runs up.
pub fn aggregate(metrics: &Vec<RunMetrics>) -> (r: McTally)
    ensures
        r == tally(metrics@),
{
    let z = Real::zero();
    let mut t = McTally {
        n: 0,
        success: 0,
        diverged: 0,
        worst_rms_attitude_error: z,
        worst_final_position_error: z,
        worst_peak_ins_position_error: z,
    };
    let mut i: usize = 0;
    assert(metrics@.take(0) =~= Seq::<RunMetrics>::empty());
    while i < metrics.len()
        invariant
            i <= metrics.len(),
            z == Real::zero_value(),
            t == tally(metrics@.take(i as int)),
            t.n == i,
            t.success <= i,
            t.diverged <= i,
        decreases metrics.len() - i,
    {
        proof {
            let more = metrics@.take(i + 1);
            assert(more.drop_last() =~= metrics@.take(i as int));
            assert(more.last() == metrics@[i as int]);
        }
        let m = metrics[i];
        t.n = t.n + 1;
        if let Some(done) = m.mission_completed {
            if done {
                t.success = t.success + 1;
            }
        }
        if !m.finite {
            t.diverged = t.diverged + 1;
        }
        let e = match m.final_position_error {
            Some(e) => e,
            None => z,
        };
        t.worst_rms_attitude_error = t.worst_rms_attitude_error.max(m.rms_attitude_error);
        t.worst_final_position_error = t.worst_final_position_error.max(e);
        t.worst_peak_ins_position_error =
        t.worst_peak_ins_position_error.max(m.peak_ins_position_error);
        i = i + 1;
    }
    assert(metrics@.take(metrics@.len() as int) =~= metrics@);
    t
}

/// A tally counts every run once, and successes and failures are among them.
pub proof fn tally_counts_every_run(metrics: Seq<RunMetrics>)
    requires
        metrics.len() <= usize::MAX,
    ensures
        tally(metrics).n == metrics.len(),
        tally(metrics).success <= metrics.len(),
        tally(metrics).diverged <= metrics.len(),
    decreases metrics.len(),
{
    if metrics.len() > 0 {
        tally_counts_every_run(metrics.drop_last());
    }
}

/// A corner of the square at altitude 2, heading north.
pub open spec fn corner(x: u64, y: u64) -> Waypoint {
    Waypoint {
        position: Vec3 {
            x: Real { bits: x },
            y: Real { bits: y },
            z: Real { bits: 0xc000_0000_0000_0000 },
        },
        yaw: Real::zero_value(),
    }
}

fn square_corner(x: u64, y: u64) -> (r: Waypoint)
    ensures
        r == corner(x, y),
{
    Waypoint::new(
        Vec3::new(
            Real::from_bits(x),
            Real::from_bits(y),
            Real::from_bits(0xc000_0000_0000_0000),
        ),
        Real::zero(),
    )
}

/// A square of 5 by 5 at altitude 2, back to the start.
pub fn square_mission() -> (r: Vec<Waypoint>)
    ensures
        r@ == seq![
            corner(0, 0),
            corner(0x4014_0000_0000_0000, 0),
            corner(0x4014_0000_0000_0000, 0x4014_0000_0000_0000),
            corner(0, 0x4014_0000_0000_0000),
            corner(0, 0),
        ],
{
    let side: u64 = 0x4014_0000_0000_0000;
    let mut r: Vec<Waypoint> = Vec::new();
    r.push(square_corner(0, 0));
    r.push(square_corner(side, 0));
    r.push(square_corner(side, side));
    r.push(square_corner(0, side));
    r.push(square_corner(0, 0));
    assert(r@ =~= seq![corner(0, 0), corner(side, 0), corner(side, side), corner(0, side), corner(0, 0)]);
    r
}

/// The seeds of a sweep count up from the first, and start over at 0 behind the largest.
pub proof fn sweep_counts_up(seed: u64, i: int)
    requires
        0 <= i < 0x1_0000_0000_0000_0000,
    ensures
        seed + i <= u64::MAX ==> swept_seed(seed, i) == seed + i,
        seed + i > u64::MAX ==> swept_seed(seed, i) == seed + i - 0x1_0000_0000_0000_0000,
{
    let m = 0x1_0000_0000_0000_0000int;
    if seed + i <= u64::MAX {
        vstd::arithmetic::div_mod::lemma_small_mod((seed + i) as nat, m as nat);
    } else {
        vstd::arithmetic::div_mod::lemma_mod_sub_multiples_vanish(seed + i, m);
        vstd::arithmetic::div_mod::lemma_small_mod((seed + i - m) as nat, m as nat);
    }
}

/// The worst of some numbers is one of them, or 0 if none is larger.
pub proof fn worst_is_one_of_them(values: Seq<Real>)
    ensures
        worst_of(values) == Real::zero_value() || values.contains(worst_of(values)),
    decreases values.len(),
{
    if values.len() > 0 {
        let init = values.drop_last();
        worst_is_one_of_them(init);
        let w = worst_of(init);
        if init.contains(w) {
            let k = choose|k: int| 0 <= k < init.len() && init[k] == w;
            assert(values[k] == w);
        }
        assert(values[values.len() - 1] == values.last());
    }
}

/// A sample is finite exactly if every number of its true and its estimated state is: the
/// numbers that a recording holds behind the time and before the setpoint.
pub proof fn finite_sample_has_finite_numbers(s: TelemetrySample)
    ensures
        is_finite_sample(s) <==> forall|i: int|
            1 <= i < 27 ==> (#[trigger] crate::recording::values(s)[i]).magnitude()
                < crate::number::INFINITY_BITS,
{
    let v = crate::recording::values(s);
    let (t, e) = (s.truth, s.estimate);
    assert(v[1] == t.position.x && v[2] == t.position.y && v[3] == t.position.z);
    assert(v[4] == t.velocity.x && v[5] == t.velocity.y && v[6] == t.velocity.z);
    assert(v[7] == t.attitude.w && v[8] == t.attitude.i && v[9] == t.attitude.j && v[10]
        == t.attitude.k);
    assert(v[11] == t.angular_rate.x && v[12] == t.angular_rate.y && v[13] == t.angular_rate.z);
    assert(v[14] == e.position.x && v[15] == e.position.y && v[16] == e.position.z);
    assert(v[17] == e.velocity.x && v[18] == e.velocity.y && v[19] == e.velocity.z);
    assert(v[20] == e.attitude.w && v[21] == e.attitude.i && v[22] == e.attitude.j && v[23]
        == e.attitude.k);
    assert(v[24] == e.angular_rate.x && v[25] == e.angular_rate.y && v[26] == e.angular_rate.z);
}

/// A log is finite exactly if each of its samples is: one that is not makes the run one that
/// blew up, wherever it stands.
pub proof fn one_sample_can_spoil_a_log(samples: Seq<TelemetrySample>, s: TelemetrySample)
    ensures
        is_finite_log(Seq::empty()),
        is_finite_log(samples.push(s)) <==> is_finite_log(samples) && is_finite_sample(s),
{
    let all = samples.push(s);
    assert(all[samples.len() as int] == s);
    if is_finite_log(all) {
        assert forall|i: int| 0 <= i < samples.len() implies is_finite_sample(
            #[trigger] samples[i],
        ) by {
            assert(all[i] == samples[i]);
        }
    }
}

/// A run whose last waypoint is not the active one has not completed its mission, and one that
/// only holds an attitude has none to complete.
pub proof fn only_missions_are_completed(
    route: Seq<Waypoint>,
    guidance: GuidanceConfig,
    sp: Setpoint,
    active: Option<usize>,
    arrived: bool,
    distance: Real,
)
    requires
        0 < route.len() <= usize::MAX,
    ensures
        active != Some((route.len() - 1) as usize) ==> completed(
            TaskState::Mission { route, guidance },
            active,
            arrived,
            distance,
        ) == Some(false),
        completed(TaskState::Attitude(sp), active, arrived, distance) is None,
{
}

/// A run starts with its own logging, and holds its setpoint or flies its waypoints from the
/// first one on.
pub proof fn run_is_built_for_its_task(
    setup: SimSetup,
    sp: Setpoint,
    route: Seq<Waypoint>,
    guidance: GuidanceConfig,
    log_every: Tick,
    cap: Option<usize>,
)
    requires
        log_every > 0,
    ensures
        ({
            let s = built(setup, TaskState::Attitude(sp), log_every, cap);
            &&& s.mode is Attitude && s.setpoint == sp
            &&& s.log_every == log_every && s.cap == cap && s.tick == 0 && s.log.len() == 0
            &&& s.periods == setup.periods && s.estimator_kind == setup.estimator_kind
        }),
        ({
            let s = built(setup, TaskState::Mission { route, guidance }, log_every, cap);
            &&& s.mode matches ModeState::Position(g) && g.route == route && g.config == guidance
                && g.active == 0 && !g.arrived
            &&& s.setpoint.thrust == setup.hover
            &&& s.log_every == log_every && s.cap == cap && s.tick == 0 && s.log.len() == 0
            &&& s.periods == setup.periods && s.estimator_kind == setup.estimator_kind
        }),
{
}

/// Another run adds one to the count, one to the successes exactly if it completed its mission,
/// and one to the failures exactly if it did not stay finite.
pub proof fn tally_adds_each_run(metrics: Seq<RunMetrics>, m: RunMetrics)
    requires
        metrics.len() < usize::MAX,
    ensures
        ({
            let (before, after) = (tally(metrics), tally(metrics.push(m)));
            &&& after.n == before.n + 1
            &&& m.mission_completed == Some(true) ==> after.success == before.success + 1
            &&& m.mission_completed != Some(true) ==> after.success == before.success
            &&& !m.finite ==> after.diverged == before.diverged + 1
            &&& m.finite ==> after.diverged == before.diverged
        }),
        tally(Seq::empty()).n == 0,
        tally(Seq::empty()).success == 0,
        tally(Seq::empty()).diverged == 0,
{
    assert(metrics.push(m).drop_last() =~= metrics);
    tally_counts_every_run(metrics);
}

/// No run is worse than what a tally calls the worst, in attitude, in its final distance where
/// it has one, and in position at its peak; and each of the three is some run's, or 0.
pub proof fn tally_knows_the_worst(metrics: Seq<RunMetrics>, i: int)
    requires
        0 <= i < metrics.len(),
    ensures
        ({
            let (t, m) = (tally(metrics), metrics[i]);
            &&& m.rms_attitude_error.is_number() ==> m.rms_attitude_error.at_most(
                t.worst_rms_attitude_error,
            )
            &&& m.final_position_error matches Some(e) ==> (e.is_number() ==> e.at_most(
                t.worst_final_position_error,
            ))
            &&& m.peak_ins_position_error.is_number() ==> m.peak_ins_position_error.at_most(
                t.worst_peak_ins_position_error,
            )
        }),
        ({
            let t = tally(metrics);
            let z = Real::zero_value();
            &&& t.worst_rms_attitude_error == z || exists|k: int|
                0 <= k < metrics.len() && (#[trigger] metrics[k]).rms_attitude_error
                    == t.worst_rms_attitude_error
            &&& t.worst_final_position_error == z || exists|k: int|
                0 <= k < metrics.len() && (#[trigger] metrics[k]).final_position_error == Some(
                    t.worst_final_position_error,
                )
            &&& t.worst_peak_ins_position_error == z || exists|k: int|
                0 <= k < metrics.len() && (#[trigger] metrics[k]).peak_ins_position_error
                    == t.worst_peak_ins_position_error
        }),
{
    worst_bounds_each(metrics, i);
    worst_is_some_runs(metrics);
}

proof fn worst_are_numbers(metrics: Seq<RunMetrics>)
    ensures
        tally(metrics).worst_rms_attitude_error.is_number(),
        tally(metrics).worst_final_position_error.is_number(),
        tally(metrics).worst_peak_ins_position_error.is_number(),
    decreases metrics.len(),
{
    if metrics.len() > 0 {
        worst_are_numbers(metrics.drop_last());
    }
}

proof fn worst_bounds_each(metrics: Seq<RunMetrics>, i: int)
    requires
        0 <= i < metrics.len(),
    ensures
        ({
            let (t, m) = (tally(metrics), metrics[i]);
            &&& m.rms_attitude_error.is_number() ==> m.rms_attitude_error.at_most(
                t.worst_rms_attitude_error,
            )
            &&& m.final_position_error matches Some(e) ==> (e.is_number() ==> e.at_most(
                t.worst_final_position_error,
            ))
            &&& m.peak_ins_position_error.is_number() ==> m.peak_ins_position_error.at_most(
                t.worst_peak_ins_position_error,
            )
        }),
    decreases metrics.len(),
{
    let init = metrics.drop_last();
    worst_are_numbers(init);
    if i < init.len() {
        worst_bounds_each(init, i);
        assert(init[i] == metrics[i]);
    }
}

proof fn worst_is_some_runs(metrics: Seq<RunMetrics>)
    ensures
        ({
            let t = tally(metrics);
            let z = Real::zero_value();
            &&& t.worst_rms_attitude_error == z || exists|k: int|
                0 <= k < metrics.len() && (#[trigger] metrics[k]).rms_attitude_error
                    == t.worst_rms_attitude_error
            &&& t.worst_final_position_error == z || exists|k: int|
                0 <= k < metrics.len() && (#[trigger] metrics[k]).final_position_error == Some(
                    t.worst_final_position_error,
                )
            &&& t.worst_peak_ins_position_error == z || exists|k: int|
                0 <= k < metrics.len() && (#[trigger] metrics[k]).peak_ins_position_error
                    == t.worst_peak_ins_position_error
        }),
    decreases metrics.len(),
{
    if metrics.len() > 0 {
        let init = metrics.drop_last();
        worst_is_some_runs(init);
        worst_are_numbers(init);
        let (t, b) = (tally(metrics), tally(init));
        let m = metrics[metrics.len() - 1];
        assert(m == metrics.last());
        if t.worst_rms_attitude_error != m.rms_attitude_error && b.worst_rms_attitude_error
            != Real::zero_value() {
            let k = choose|k: int|
                0 <= k < init.len() && (#[trigger] init[k]).rms_attitude_error
                    == b.worst_rms_attitude_error;
            assert(metrics[k] == init[k]);
        }
        if t.worst_final_position_error == b.worst_final_position_error
            && b.worst_final_position_error != Real::zero_value() {
            let k = choose|k: int|
                0 <= k < init.len() && (#[trigger] init[k]).final_position_error == Some(
                    b.worst_final_position_error,
                );
            assert(metrics[k] == init[k]);
        }
        if t.worst_peak_ins_position_error != m.peak_ins_position_error
            && b.worst_peak_ins_position_error != Real::zero_value() {
            let k = choose|k: int|
                0 <= k < init.len() && (#[trigger] init[k]).peak_ins_position_error
                    == b.worst_peak_ins_position_error;
            assert(metrics[k] == init[k]);
        }
    }
}

/// A corner of the square lies where it is put, two metres up, heading north.
pub proof fn corners_lie_at_altitude_two(x: u64, y: u64)
    ensures
        corner(x, y).position.x.bits == x,
        corner(x, y).position.y.bits == y,
        corner(x, y).position.z == (Real { bits: 0x4000_0000_0000_0000 }).negated(),
        corner(x, y).yaw == Real::zero_value(),
{
}

/// A claim gives the next job that is not taken, and takes it; when all are taken it gives and
/// takes none.
pub proof fn claim_takes_what_it_gives(taken: int, total: int)
    requires
        0 <= taken <= total <= usize::MAX,
    ensures
        taken < total ==> claim_given(taken, total) == Some(taken as usize) && taken_after(
            taken,
            total,
        ) == taken + 1,
        taken == total ==> claim_given(taken, total) is None && taken_after(taken, total) == total,
{
}

/// A result that comes in stands at the place of its job, and leaves the other places as they
/// are.
pub proof fn result_comes_to_its_place<S>(
    slots: Seq<Option<S>>,
    puts: Seq<(int, S)>,
    i: int,
    result: S,
    k: int,
)
    requires
        0 <= i < slots.len(),
        0 <= k < slots.len(),
        forall|j: int| 0 <= j < puts.len() ==> 0 <= (#[trigger] puts[j]).0 < slots.len(),
    ensures
        all_put(slots, Seq::empty()) == slots,
        all_put(slots, puts.push((i, result))).len() == slots.len(),
        all_put(slots, puts.push((i, result)))[i] == Some(result),
        k != i ==> all_put(slots, puts.push((i, result)))[k] == all_put(slots, puts)[k],
{
    assert(puts.push((i, result)).drop_last() =~= puts);
    as_many_places(slots, puts);
}

proof fn as_many_places<S>(slots: Seq<Option<S>>, puts: Seq<(int, S)>)
    requires
        forall|j: int| 0 <= j < puts.len() ==> 0 <= (#[trigger] puts[j]).0 < slots.len(),
    ensures
        all_put(slots, puts).len() == slots.len(),
    decreases puts.len(),
{
    if puts.len() > 0 {
        let init = puts.drop_last();
        assert forall|j: int| 0 <= j < init.len() implies 0 <= (#[trigger] init[j]).0
            < slots.len() by {
            assert(init[j] == puts[j]);
        }
        as_many_places(slots, init);
        assert(puts[puts.len() - 1] == puts.last());
    }
}

} // verus!
