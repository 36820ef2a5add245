//! The limits of the control loops: what winds up no further, what the motors can give.
//!
//! The caller computes sums and products; here they are limited, and it is kept in mind
//! what the next step needs.
use vstd::prelude::*;
use crate::messages::{Quat, Vec3};
use crate::number::Real;

verus! {

/// One channel of proportional, integral and derivative control.
#[derive(Clone, Copy, Debug, PartialEq, Eq, Structural)]
pub struct Pid {
    pub kp: Real,
    pub ki: Real,
    pub kd: Real,
    /// Limit on what the integral contributes.
    pub integral_limit: Real,
    /// Limit on the output, to either side.
    pub output_limit: Real,
    /// The sum of the errors over time.
    pub integral: Real,
    /// The error of the last step; none at the start.
    pub last_error: Option<Real>,
}

impl Pid {
    pub fn new(kp: Real, ki: Real, kd: Real, integral_limit: Real, output_limit: Real) -> (r: Pid)
        ensures
            r == (Pid {
                kp,
                ki,
                kd,
                integral_limit,
                output_limit,
                integral: Real::zero_value(),
                last_error: None,
            }),
    {
        Pid {
            kp,
            ki,
            kd,
            integral_limit,
            output_limit,
            integral: Real::zero(),
            last_error: None,
        }
    }

    /// Forgets the integral and the last error.
    pub open spec fn cleared(self) -> Pid {
        Pid { integral: Real::zero_value(), last_error: None, ..self }
    }

    /// Forgets the integral and the last error.
    pub fn reset(&mut self)
        ensures
            *final(self) == old(self).cleared(),
    {
        self.integral = Real::zero();
        self.last_error = None;
    }

    /// Whether the integral counts, and has to be kept from winding up: its gain is not 0.
    pub open spec fn integrates(self) -> bool {
        Real::zero_value().less(self.ki) || self.ki.less(Real::zero_value())
    }

    pub fn has_integral(&self) -> (r: bool)
        ensures
            r == self.integrates(),
    {
        Real::zero().lt(self.ki) || self.ki.lt(Real::zero())
    }

    /// The state with the integral at `sum`, no further from 0 than `bound`.
    pub open spec fn integrated(self, sum: Real, bound: Real) -> Pid {
        Pid {
            integral: if self.integrates() {
                sum.clamped_to(bound.negated(), bound)
            } else {
                sum
            },
            ..self
        }
    }

    /// Takes over the integral: `sum` is the integral plus the error of this step over
    /// its time, `bound` the integral limit divided by the size of the integral gain.
    pub fn integrate(&mut self, sum: Real, bound: Real)
        requires
            old(self).integrates() ==> bound.negated().at_most(bound),
        ensures
            *final(self) == old(self).integrated(sum, bound),
    {
        if self.has_integral() {
            self.integral = sum.clamp(bound.neg(), bound);
        } else {
            self.integral = sum;
        }
    }

    /// Takes over the error of this step and gives the one of the last; none in the first
    /// step, where there is no derivative.
    pub fn exchange_error(&mut self, error: Real) -> (r: Option<Real>)
        ensures
            r == old(self).last_error,
            *final(self) == (Pid { last_error: Some(error), ..*old(self) }),
    {
        let last = self.last_error;
        self.last_error = Some(error);
        last
    }

    /// The output within its limit.
    pub fn limit(&self, out: Real) -> (r: Real)
        requires
            self.output_limit.negated().at_most(self.output_limit),
        ensures
            r == out.clamped_to(self.output_limit.negated(), self.output_limit),
    {
        out.clamp(self.output_limit.neg(), self.output_limit)
    }
}

/// However long an error lasts, the integral never winds up beyond its bound.
pub proof fn integral_is_bounded(p: Pid, sum: Real, bound: Real)
    requires
        p.integrates(),
        bound.negated().at_most(bound),
        sum.is_number(),
    ensures
        bound.negated().at_most(p.integrated(sum, bound).integral),
        p.integrated(sum, bound).integral.at_most(bound),
{
}

/// A loop that starts over behaves like a new one.
pub proof fn reset_makes_new(p: Pid, sum: Real, bound: Real)
    ensures
        p.integrated(sum, bound).cleared() == p.cleared(),
        p.cleared().cleared() == p.cleared(),
        p.cleared().last_error is None,
{
}

/// A thrust that a motor can give.
pub open spec fn saturated(thrust: Seq<Real>, max_thrust: Real) -> Seq<Real> {
    Seq::new(thrust.len(), |i: int| thrust[i].clamped_to(Real::zero_value(), max_thrust))
}

/// The thrusts that four motors give if asked for these.
pub fn saturate(thrust: &[Real; 4], max_thrust: Real) -> (r: [Real; 4])
    requires
        Real::zero_value().at_most(max_thrust),
    ensures
        r@ == saturated(thrust@, max_thrust),
{
    let z = Real::zero();
    let r = [
        thrust[0].clamp(z, max_thrust),
        thrust[1].clamp(z, max_thrust),
        thrust[2].clamp(z, max_thrust),
        thrust[3].clamp(z, max_thrust),
    ];
    assert(r@ =~= saturated(thrust@, max_thrust));
    r
}

/// Motors pull, and pull no harder than they can.
pub proof fn saturated_thrust_can_be_given(thrust: Seq<Real>, max_thrust: Real, i: int)
    requires
        Real::zero_value().at_most(max_thrust),
        0 <= i < thrust.len(),
        thrust[i].is_number(),
    ensures
        Real::zero_value().at_most(saturated(thrust, max_thrust)[i]),
        saturated(thrust, max_thrust)[i].at_most(max_thrust),
        thrust[i].at_most(max_thrust) && Real::zero_value().at_most(thrust[i])
            ==> saturated(thrust, max_thrust)[i] == thrust[i],
{
}

// ---- attitude and position loops ---------------------------------------------

/// Whether a vector can limit others: none of its parts is negative.
pub open spec fn is_limit(max: Vec3) -> bool {
    &&& max.x.negated().at_most(max.x)
    &&& max.y.negated().at_most(max.y)
    &&& max.z.negated().at_most(max.z)
}

/// The vector with each part limited to either side.
pub open spec fn limited(v: Vec3, max: Vec3) -> Vec3 {
    Vec3 {
        x: v.x.clamped_to(max.x.negated(), max.x),
        y: v.y.clamped_to(max.y.negated(), max.y),
        z: v.z.clamped_to(max.z.negated(), max.z),
    }
}

/// Limits the parts of a vector: rates that are asked for, torques that are given.
pub fn limit_vector(v: Vec3, max: Vec3) -> (r: Vec3)
    requires
        is_limit(max),
    ensures
        r == limited(v, max),
{
    Vec3::new(
        v.x.clamp(max.x.neg(), max.x),
        v.y.clamp(max.y.neg(), max.y),
        v.z.clamp(max.z.neg(), max.z),
    )
}

/// Limits a speed along the vertical, which counts downwards.
pub fn limit_vertical(v: Real, up: Real, down: Real) -> (r: Real)
    requires
        up.negated().at_most(down),
    ensures
        r == v.clamped_to(up.negated(), down),
{
    v.clamp(up.neg(), down)
}

/// Whether a horizontal vector of length `h` is shortened to `max`: whenever it is longer.
pub fn shortens(h: Real, max: Real) -> (r: bool)
    ensures
        r == max.less(h),
{
    max.lt(h)
}

/// Whether a tilt of `theta` is cut to `max`: whenever it is larger. The cut turns about the
/// axis of the tilt, whose length is `axis`. The second answer says whether that axis has no
/// direction, being no longer than 1e-6 (upright or upside down), so that any horizontal axis
/// will do.
pub fn cuts_tilt(theta: Real, max: Real, axis: Real) -> (r: (bool, bool))
    ensures
        r.0 == max.less(theta),
        r.1 == !(Real { bits: 0x3eb0_c6f7_a0b5_ed8d }).less(axis),
{
    (max.lt(theta), !Real::from_bits(0x3eb0_c6f7_a0b5_ed8d).lt(axis))
}

/// The quaternion with the sign of every part changed: the same rotation.
pub open spec fn opposite(q: Quat) -> Quat {
    Quat { w: q.w.negated(), i: q.i.negated(), j: q.j.negated(), k: q.k.negated() }
}

/// Of the two quaternions of a rotation the one that turns the short way round.
pub open spec fn shorter(q: Quat) -> Quat {
    if q.w.less(Real::zero_value()) {
        opposite(q)
    } else {
        q
    }
}

/// Of the two quaternions of a rotation the one that turns the short way round.
pub fn short_way(q: Quat) -> (r: Quat)
    ensures
        r == shorter(q),
{
    if q.w.lt(Real::zero()) {
        Quat { w: q.w.neg(), i: q.i.neg(), j: q.j.neg(), k: q.k.neg() }
    } else {
        q
    }
}

/// What is limited stays within its limits, and what lies within them is not changed.
pub proof fn limited_vector_stays_within(v: Vec3, max: Vec3)
    requires
        is_limit(max),
        v.x.is_number(),
        v.y.is_number(),
        v.z.is_number(),
    ensures
        max.x.negated().at_most(limited(v, max).x) && limited(v, max).x.at_most(max.x),
        max.y.negated().at_most(limited(v, max).y) && limited(v, max).y.at_most(max.y),
        max.z.negated().at_most(limited(v, max).z) && limited(v, max).z.at_most(max.z),
        limited(limited(v, max), max) == limited(v, max),
{
}

/// The short way round is found in one step, is one of the two quaternions of the
/// rotation, and is the same for both unless they turn by exactly half a turn.
pub proof fn short_way_is_unique(q: Quat)
    requires
        q.w.is_number(),
    ensures
        shorter(q) == q || shorter(q) == opposite(q),
        !shorter(q).w.less(Real::zero_value()),
        shorter(shorter(q)) == shorter(q),
        !q.w.same(Real::zero_value()) ==> shorter(opposite(q)) == shorter(q),
{
    assert(opposite(opposite(q)) == q);
}

// ---- motors ------------------------------------------------------------------

/// What the thrusts of four motors come to, row by row: all of them lift, the left ones roll
/// right, the front ones pitch up, and neighbours turn against each other. The motors are
/// front right, rear right, rear left, front left; `d` is how far they sit ahead and aside,
/// `k` the torque that a thrust brings with it.
pub open spec fn allocation_entries(d: Real, k: Real) -> Seq<Real> {
    let one = Real::one_value();
    seq![
        one,
        one,
        one,
        one,
        d.negated(),
        d.negated(),
        d,
        d,
        d,
        d.negated(),
        d.negated(),
        d,
        k,
        k.negated(),
        k,
        k.negated(),
    ]
}

/// Shares out thrust and torque among the motors of a quadrotor.
#[derive(Clone, Copy, Debug, PartialEq, Eq, Structural)]
pub struct XQuadMixer {
    /// How far the motors sit ahead and aside.
    pub offset: Real,
    /// The torque that a thrust brings with it.
    pub yaw_coeff: Real,
    /// The most a motor gives.
    pub max_thrust: Real,
}

impl XQuadMixer {
    pub fn new(offset: Real, yaw_coeff: Real, max_thrust: Real) -> (r: XQuadMixer)
        ensures
            r == (XQuadMixer { offset, yaw_coeff, max_thrust }),
    {
        XQuadMixer { offset, yaw_coeff, max_thrust }
    }

    /// The matrix that takes the thrusts of the motors to thrust and torque, row by row.
    pub fn allocation(&self) -> (r: [Real; 16])
        ensures
            r@ == allocation_entries(self.offset, self.yaw_coeff),
    {
        let (d, k, one) = (self.offset, self.yaw_coeff, Real::one());
        let (dn, kn) = (d.neg(), k.neg());
        let r = [one, one, one, one, dn, dn, d, d, d, dn, dn, d, k, kn, k, kn];
        assert(r@ =~= allocation_entries(self.offset, self.yaw_coeff));
        r
    }

    /// The thrusts that the motors are given; `shares` is what the inverse of the matrix
    /// makes of the thrust and torque asked for.
    pub fn mix(&self, shares: &[Real; 4]) -> (r: [Real; 4])
        requires
            Real::zero_value().at_most(self.max_thrust),
        ensures
            r@ == saturated(shares@, self.max_thrust),
    {
        saturate(shares, self.max_thrust)
    }
}

/// Motors across from each other turn alike and pull to opposite sides.
pub proof fn opposite_motors_balance(d: Real, k: Real, m: int)
    requires
        0 <= m < 2,
    ensures
        allocation_entries(d, k)[12 + m] == allocation_entries(d, k)[12 + m + 2],
        allocation_entries(d, k)[4 + m] == allocation_entries(d, k)[4 + m + 2].negated(),
        allocation_entries(d, k)[8 + m] == allocation_entries(d, k)[8 + m + 2].negated(),
{
    assert(d.negated().negated() == d);
}

/// Four motors whose thrust lags behind what they are asked for.
#[derive(Clone, Copy, Debug, PartialEq, Eq)]
pub struct MotorModel {
    thrust: [Real; 4],
    tau: Real,
    max_thrust: Real,
}

impl MotorModel {
    /// What the motors give.
    pub closed spec fn given(&self) -> Seq<Real> {
        self.thrust@
    }

    /// Time constant of the lag.
    pub closed spec fn lag(&self) -> Real {
        self.tau
    }

    pub closed spec fn most(&self) -> Real {
        self.max_thrust
    }

    /// Motors at rest.
    pub fn new(tau: Real, max_thrust: Real) -> (r: MotorModel)
        ensures
            r.given() == Seq::new(4, |i: int| Real::zero_value()),
            r.lag() == tau,
            r.most() == max_thrust,
    {
        let z = Real::zero();
        let r = MotorModel { thrust: [z, z, z, z], tau, max_thrust };
        assert(r.given() =~= Seq::new(4, |i: int| Real::zero_value()));
        r
    }

    /// Motors at rest that do not lag.
    pub fn ideal(max_thrust: Real) -> (r: MotorModel)
        ensures
            r.given() == Seq::new(4, |i: int| Real::zero_value()),
            r.lag() == Real::zero_value(),
            r.most() == max_thrust,
    {
        MotorModel::new(Real::zero(), max_thrust)
    }

    pub fn thrust(&self) -> (r: [Real; 4])
        ensures
            r@ == self.given(),
    {
        self.thrust
    }

    /// The time constant, if the motors lag.
    pub fn lags(&self) -> (r: Option<Real>)
        ensures
            r == (if self.lag().at_most(Real::zero_value()) {
                None
            } else {
                Some(self.lag())
            }),
    {
        if self.tau.le(Real::zero()) {
            None
        } else {
            Some(self.tau)
        }
    }

    /// The thrusts that the motors head for.
    pub fn targets(&self, command: &[Real; 4]) -> (r: [Real; 4])
        requires
            Real::zero_value().at_most(self.most()),
        ensures
            r@ == saturated(command@, self.most()),
    {
        saturate(command, self.max_thrust)
    }

    /// Takes over the thrusts after a step.
    pub fn update(&mut self, thrust: [Real; 4])
        ensures
            final(self).given() == thrust@,
            final(self).lag() == old(self).lag(),
            final(self).most() == old(self).most(),
    {
        self.thrust = thrust;
    }
}

/// What a motor's thrust brings about follows from where it sits. All motors lift. The left
/// ones roll the aircraft right and the right ones left; the front ones pitch it up and the
/// rear ones down; and the front right and the rear left one turn it right, the other two
/// left. Motors 0 and 3 sit in front, 0 and 1 on the right.
pub proof fn motors_act_by_where_they_sit(d: Real, k: Real, m: int)
    requires
        0 <= m < 4,
    ensures
        allocation_entries(d, k).len() == 16,
        allocation_entries(d, k)[m] == Real::one_value(),
        m == 2 || m == 3 ==> allocation_entries(d, k)[4 + m] == d,
        m == 0 || m == 1 ==> allocation_entries(d, k)[4 + m] == d.negated(),
        m == 0 || m == 3 ==> allocation_entries(d, k)[8 + m] == d,
        m == 1 || m == 2 ==> allocation_entries(d, k)[8 + m] == d.negated(),
        m == 0 || m == 2 ==> allocation_entries(d, k)[12 + m] == k,
        m == 1 || m == 3 ==> allocation_entries(d, k)[12 + m] == k.negated(),
{
}

/// A motor that is asked for more than it can give gives all it can, and one that is asked to
/// push gives nothing; one motor's share does not depend on the others'.
pub proof fn saturation_is_one_sided(thrust: Seq<Real>, max_thrust: Real, i: int)
    requires
        Real::zero_value().at_most(max_thrust),
        0 <= i < thrust.len(),
    ensures
        saturated(thrust, max_thrust).len() == thrust.len(),
        max_thrust.less(thrust[i]) ==> saturated(thrust, max_thrust)[i] == max_thrust,
        thrust[i].less(Real::zero_value()) ==> saturated(thrust, max_thrust)[i]
            == Real::zero_value(),
{
}

/// A vector is limited part by part: a part within its own limit is left as it is, one beyond
/// it comes to the limit on its side.
pub proof fn parts_are_limited_alone(v: Vec3, max: Vec3)
    requires
        is_limit(max),
    ensures
        ({
            let r = limited(v, max);
            &&& max.x.negated().at_most(v.x) && v.x.at_most(max.x) ==> r.x == v.x
            &&& max.x.less(v.x) ==> r.x == max.x
            &&& v.x.less(max.x.negated()) ==> r.x == max.x.negated()
            &&& max.y.negated().at_most(v.y) && v.y.at_most(max.y) ==> r.y == v.y
            &&& max.y.less(v.y) ==> r.y == max.y
            &&& v.y.less(max.y.negated()) ==> r.y == max.y.negated()
            &&& max.z.negated().at_most(v.z) && v.z.at_most(max.z) ==> r.z == v.z
            &&& max.z.less(v.z) ==> r.z == max.z
            &&& v.z.less(max.z.negated()) ==> r.z == max.z.negated()
        }),
{
}

/// Exactly a vector whose parts are at least 0 can limit others.
pub proof fn limits_are_not_negative(max: Vec3)
    ensures
        is_limit(max) <==> Real::zero_value().at_most(max.x) && Real::zero_value().at_most(max.y)
            && Real::zero_value().at_most(max.z),
{
}

/// The integral takes up the whole sum while that lies within the bound, and stops at the
/// bound on the side that the sum runs off to. Without a gain it is not bounded. Nothing else
/// of the loop changes.
pub proof fn integral_follows_the_sum(p: Pid, sum: Real, bound: Real)
    requires
        bound.negated().at_most(bound),
    ensures
        ({
            let r = p.integrated(sum, bound);
            let gain = Real::zero_value().less(p.ki) || p.ki.less(Real::zero_value());
            &&& bound.negated().at_most(sum) && sum.at_most(bound) ==> r.integral == sum
            &&& gain && bound.less(sum) ==> r.integral == bound
            &&& gain && sum.less(bound.negated()) ==> r.integral == bound.negated()
            &&& !gain ==> r.integral == sum
            &&& p.integrates() <==> gain
            &&& r.kp == p.kp && r.ki == p.ki && r.kd == p.kd
            &&& r.integral_limit == p.integral_limit && r.output_limit == p.output_limit
            &&& r.last_error == p.last_error
        }),
{
}

/// A reset forgets the integral and the last error and keeps gains and limits.
pub proof fn reset_keeps_the_tuning(p: Pid)
    ensures
        p.cleared().integral == Real::zero_value(),
        p.cleared().last_error is None,
        p.cleared().kp == p.kp && p.cleared().ki == p.ki && p.cleared().kd == p.kd,
        p.cleared().integral_limit == p.integral_limit,
        p.cleared().output_limit == p.output_limit,
{
}

/// The other quaternion of a rotation has every part negated, and is taken exactly if the
/// scalar part is negative.
pub proof fn short_way_turns_all_parts(q: Quat)
    ensures
        q.w.less(Real::zero_value()) ==> shorter(q).w == q.w.negated() && shorter(q).i
            == q.i.negated() && shorter(q).j == q.j.negated() && shorter(q).k == q.k.negated(),
        !q.w.less(Real::zero_value()) ==> shorter(q) == q,
        opposite(q).w == q.w.negated() && opposite(q).i == q.i.negated(),
        opposite(q).j == q.j.negated() && opposite(q).k == q.k.negated(),
{
}

} // verus!
