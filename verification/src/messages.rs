//! The values that flow between the parts of the simulator.
//!
//! The world frame is NED (north, east, down), the body frame FRD (forward, right,
//! down). An attitude is the quaternion that rotates body vectors into the world.
use vstd::prelude::*;
use crate::number::Real;

verus! {

/// Steps of the physics since the start.
pub type Tick = u64;

/// How many numbers a packed state holds: position, velocity, quaternion, body rate.
pub const STATE_DIM: usize = 13;

#[derive(Clone, Copy, Debug, PartialEq, Eq, Structural)]
pub struct Vec3 {
    pub x: Real,
    pub y: Real,
    pub z: Real,
}

impl Vec3 {
    pub open spec fn zero_value() -> Vec3 {
        Vec3 { x: Real::zero_value(), y: Real::zero_value(), z: Real::zero_value() }
    }

    pub fn new(x: Real, y: Real, z: Real) -> (r: Vec3)
        ensures
            r == (Vec3 { x, y, z }),
    {
        Vec3 { x, y, z }
    }

    pub fn zeros() -> (r: Vec3)
        ensures
            r == Vec3::zero_value(),
    {
        Vec3 { x: Real::zero(), y: Real::zero(), z: Real::zero() }
    }
}

/// A quaternion, scalar part first.
#[derive(Clone, Copy, Debug, PartialEq, Eq, Structural)]
pub struct Quat {
    pub w: Real,
    pub i: Real,
    pub j: Real,
    pub k: Real,
}

impl Quat {
    pub open spec fn identity_value() -> Quat {
        Quat {
            w: Real::one_value(),
            i: Real::zero_value(),
            j: Real::zero_value(),
            k: Real::zero_value(),
        }
    }

    /// No rotation.
    pub fn identity() -> (r: Quat)
        ensures
            r == Quat::identity_value(),
    {
        Quat { w: Real::one(), i: Real::zero(), j: Real::zero(), k: Real::zero() }
    }
}

/// The state of the rigid body.
#[derive(Clone, Copy, Debug, PartialEq, Eq, Structural)]
pub struct State13 {
    /// Position in the world frame.
    pub position: Vec3,
    /// Velocity in the world frame.
    pub velocity: Vec3,
    pub attitude: Quat,
    /// Angular rate in the body frame.
    pub angular_rate: Vec3,
}

/// Three vectors and a quaternion as one run of numbers, in the packed order:
/// `[px py pz | vx vy vz | qw qx qy qz | wx wy wz]`.
pub open spec fn packed(p: Vec3, v: Vec3, q: Quat, w: Vec3) -> Seq<Real> {
    seq![p.x, p.y, p.z, v.x, v.y, v.z, q.w, q.i, q.j, q.k, w.x, w.y, w.z]
}

impl State13 {
    pub open spec fn rest_value() -> State13 {
        State13 {
            position: Vec3::zero_value(),
            velocity: Vec3::zero_value(),
            attitude: Quat::identity_value(),
            angular_rate: Vec3::zero_value(),
        }
    }

    /// At rest at the origin, level.
    pub fn at_rest() -> (r: State13)
        ensures
            r == State13::rest_value(),
    {
        State13 {
            position: Vec3::zeros(),
            velocity: Vec3::zeros(),
            attitude: Quat::identity(),
            angular_rate: Vec3::zeros(),
        }
    }

    /// Packs the state into a flat vector.
    pub fn to_vector(&self) -> (r: [Real; 13])
        ensures
            r@ == packed(self.position, self.velocity, self.attitude, self.angular_rate),
    {
        [
            self.position.x,
            self.position.y,
            self.position.z,
            self.velocity.x,
            self.velocity.y,
            self.velocity.z,
            self.attitude.w,
            self.attitude.i,
            self.attitude.j,
            self.attitude.k,
            self.angular_rate.x,
            self.angular_rate.y,
            self.angular_rate.z,
        ]
    }

    /// Rebuilds a state from a flat vector. An integration step leaves the
    /// quaternion in the vector slightly off unit length; `attitude` is that
    /// quaternion normalized.
    pub fn from_vector(v: &[Real; 13], attitude: Quat) -> (r: State13)
        ensures
            packed(r.position, r.velocity, raw_attitude(v@), r.angular_rate) == v@,
            r.attitude == attitude,
    {
        let r = State13 {
            position: Vec3 { x: v[0], y: v[1], z: v[2] },
            velocity: Vec3 { x: v[3], y: v[4], z: v[5] },
            attitude,
            angular_rate: Vec3 { x: v[10], y: v[11], z: v[12] },
        };
        assert(packed(r.position, r.velocity, raw_attitude(v@), r.angular_rate) =~= v@);
        r
    }
}

impl Default for State13 {
    fn default() -> (r: State13)
        ensures
            r == State13::rest_value(),
    {
        State13::at_rest()
    }
}

/// The quaternion that a packed state holds.
pub open spec fn raw_attitude(v: Seq<Real>) -> Quat {
    Quat { w: v[6], i: v[7], j: v[8], k: v[9] }
}

/// The time derivative of a [`State13`]. Its attitude part is no unit quaternion.
#[derive(Clone, Copy, Debug, PartialEq, Eq, Structural)]
pub struct StateDeriv {
    pub d_position: Vec3,
    pub d_velocity: Vec3,
    pub d_attitude: Quat,
    pub d_angular_rate: Vec3,
}

impl StateDeriv {
    /// Packs the derivative in the order of [`State13::to_vector`].
    pub fn to_vector(&self) -> (r: [Real; 13])
        ensures
            r@ == packed(self.d_position, self.d_velocity, self.d_attitude, self.d_angular_rate),
    {
        [
            self.d_position.x,
            self.d_position.y,
            self.d_position.z,
            self.d_velocity.x,
            self.d_velocity.y,
            self.d_velocity.z,
            self.d_attitude.w,
            self.d_attitude.i,
            self.d_attitude.j,
            self.d_attitude.k,
            self.d_angular_rate.x,
            self.d_angular_rate.y,
            self.d_angular_rate.z,
        ]
    }
}

/// Unpacking what was packed gives the same state back: no number is lost, doubled
/// or moved, provided normalizing left the attitude as it was.
pub proof fn unpacking_undoes_packing(s: State13, r: State13)
    requires
        packed(r.position, r.velocity, s.attitude, r.angular_rate) == packed(
            s.position,
            s.velocity,
            s.attitude,
            s.angular_rate,
        ),
        r.attitude == raw_attitude(packed(s.position, s.velocity, s.attitude, s.angular_rate)),
    ensures
        r == s,
{
    let a = packed(r.position, r.velocity, s.attitude, r.angular_rate);
    let b = packed(s.position, s.velocity, s.attitude, s.angular_rate);
    assert(forall|i: int| 0 <= i < 13 ==> a[i] == b[i]);
    assert(a[0] == b[0] && a[1] == b[1] && a[2] == b[2]);
    assert(a[3] == b[3] && a[4] == b[4] && a[5] == b[5]);
    assert(a[10] == b[10] && a[11] == b[11] && a[12] == b[12]);
}

/// What the estimator believes the state to be.
#[derive(Clone, Copy, Debug, PartialEq, Eq, Structural)]
pub struct EstState {
    pub position: Vec3,
    pub velocity: Vec3,
    pub attitude: Quat,
    pub angular_rate: Vec3,
}

impl EstState {
    pub open spec fn rest_value() -> EstState {
        EstState {
            position: Vec3::zero_value(),
            velocity: Vec3::zero_value(),
            attitude: Quat::identity_value(),
            angular_rate: Vec3::zero_value(),
        }
    }

    /// Level, at the origin, at rest.
    pub fn at_rest() -> (r: EstState)
        ensures
            r == EstState::rest_value(),
    {
        EstState {
            position: Vec3::zeros(),
            velocity: Vec3::zeros(),
            attitude: Quat::identity(),
            angular_rate: Vec3::zeros(),
        }
    }
}

/// What the attitude controller is asked for.
#[derive(Clone, Copy, Debug, PartialEq, Eq, Structural)]
pub struct Setpoint {
    pub attitude: Quat,
    /// Thrust of all motors together.
    pub thrust: Real,
}

impl Setpoint {
    pub open spec fn level_value(thrust: Real) -> Setpoint {
        Setpoint { attitude: Quat::identity_value(), thrust }
    }

    /// Level attitude at the given thrust.
    pub fn level(thrust: Real) -> (r: Setpoint)
        ensures
            r == Setpoint::level_value(thrust),
    {
        Setpoint { attitude: Quat::identity(), thrust }
    }
}

/// Surface angles and throttle of a fixed-wing aircraft.
#[derive(Clone, Copy, Debug, PartialEq, Eq, Structural)]
pub struct FixedWingControls {
    pub aileron: Real,
    pub elevator: Real,
    pub rudder: Real,
    pub throttle: Real,
}

/// How far the surfaces and the throttle can go.
#[derive(Clone, Copy, Debug)]
pub struct ControlLimits {
    pub surface_max: Real,
    /// Smallest and largest throttle.
    pub throttle: (Real, Real),
}

impl ControlLimits {
    /// Limits that leave room: each lower end is at or below its upper end.
    pub open spec fn wf(self) -> bool {
        &&& self.surface_max.negated().at_most(self.surface_max)
        &&& self.throttle.0.at_most(self.throttle.1)
    }
}

impl FixedWingControls {
    pub open spec fn zero_value() -> FixedWingControls {
        FixedWingControls {
            aileron: Real::zero_value(),
            elevator: Real::zero_value(),
            rudder: Real::zero_value(),
            throttle: Real::zero_value(),
        }
    }

    /// Each surface limited to plus or minus the largest angle, the throttle to its
    /// range.
    pub open spec fn limited(self, lim: ControlLimits) -> FixedWingControls {
        let lo = lim.surface_max.negated();
        let hi = lim.surface_max;
        FixedWingControls {
            aileron: self.aileron.clamped_to(lo, hi),
            elevator: self.elevator.clamped_to(lo, hi),
            rudder: self.rudder.clamped_to(lo, hi),
            throttle: self.throttle.clamped_to(lim.throttle.0, lim.throttle.1),
        }
    }

    /// Surfaces neutral, throttle off.
    pub fn zero() -> (r: FixedWingControls)
        ensures
            r == FixedWingControls::zero_value(),
    {
        FixedWingControls {
            aileron: Real::zero(),
            elevator: Real::zero(),
            rudder: Real::zero(),
            throttle: Real::zero(),
        }
    }

    /// Limits the surfaces and the throttle.
    pub fn clamp(self, lim: &ControlLimits) -> (r: FixedWingControls)
        requires
            lim.wf(),
        ensures
            r == self.limited(*lim),
    {
        let lo = lim.surface_max.neg();
        let hi = lim.surface_max;
        FixedWingControls {
            aileron: self.aileron.clamp(lo, hi),
            elevator: self.elevator.clamp(lo, hi),
            rudder: self.rudder.clamp(lo, hi),
            throttle: self.throttle.clamp(lim.throttle.0, lim.throttle.1),
        }
    }
}

/// Limiting controls that are limited already changes nothing.
pub proof fn limiting_controls_is_idempotent(c: FixedWingControls, lim: ControlLimits)
    requires
        lim.wf(),
    ensures
        c.limited(lim).limited(lim) == c.limited(lim),
{
    let lo = lim.surface_max.negated();
    let hi = lim.surface_max;
    if c.aileron.is_number() {
        crate::number::clamp_is_idempotent(c.aileron, lo, hi);
    }
    if c.elevator.is_number() {
        crate::number::clamp_is_idempotent(c.elevator, lo, hi);
    }
    if c.rudder.is_number() {
        crate::number::clamp_is_idempotent(c.rudder, lo, hi);
    }
    if c.throttle.is_number() {
        crate::number::clamp_is_idempotent(c.throttle, lim.throttle.0, lim.throttle.1);
    }
}

/// What a pilot asks for: pitch, roll and yaw in `[-1, 1]`, throttle in `[0, 1]`.
#[derive(Clone, Copy, Debug, PartialEq, Eq, Structural)]
pub struct StickInput {
    /// Positive: nose up.
    pub pitch: Real,
    /// Positive: roll right.
    pub roll: Real,
    /// Positive: nose right.
    pub yaw: Real,
    pub throttle: Real,
}

impl StickInput {
    pub open spec fn neutral_value() -> StickInput {
        StickInput {
            pitch: Real::zero_value(),
            roll: Real::zero_value(),
            yaw: Real::zero_value(),
            throttle: Real::zero_value(),
        }
    }

    /// Every axis within its range.
    pub open spec fn in_range(self) -> StickInput {
        let lo = Real::minus_one_value();
        let hi = Real::one_value();
        StickInput {
            pitch: self.pitch.clamped_to(lo, hi),
            roll: self.roll.clamped_to(lo, hi),
            yaw: self.yaw.clamped_to(lo, hi),
            throttle: self.throttle.clamped_to(Real::zero_value(), hi),
        }
    }

    /// Centred stick, idle throttle.
    pub fn neutral() -> (r: StickInput)
        ensures
            r == StickInput::neutral_value(),
    {
        StickInput {
            pitch: Real::zero(),
            roll: Real::zero(),
            yaw: Real::zero(),
            throttle: Real::zero(),
        }
    }

    /// Limits every axis to its range.
    pub fn clamped(self) -> (r: StickInput)
        ensures
            r == self.in_range(),
    {
        let lo = Real::minus_one();
        let hi = Real::one();
        StickInput {
            pitch: self.pitch.clamp(lo, hi),
            roll: self.roll.clamp(lo, hi),
            yaw: self.yaw.clamp(lo, hi),
            throttle: self.throttle.clamp(Real::zero(), hi),
        }
    }
}

/// A centred stick is within its range, and so is every clamped one.
pub proof fn clamping_a_stick_is_idempotent(s: StickInput)
    ensures
        s.in_range().in_range() == s.in_range(),
        StickInput::neutral_value().in_range() == StickInput::neutral_value(),
{
    let lo = Real::minus_one_value();
    let hi = Real::one_value();
    if s.pitch.is_number() {
        crate::number::clamp_is_idempotent(s.pitch, lo, hi);
    }
    if s.roll.is_number() {
        crate::number::clamp_is_idempotent(s.roll, lo, hi);
    }
    if s.yaw.is_number() {
        crate::number::clamp_is_idempotent(s.yaw, lo, hi);
    }
    if s.throttle.is_number() {
        crate::number::clamp_is_idempotent(s.throttle, Real::zero_value(), hi);
    }
}

/// A packed state holds position, velocity, quaternion and body rate, in this order, each
/// along its own axes.
pub proof fn packed_order(p: Vec3, v: Vec3, q: Quat, w: Vec3)
    ensures
        packed(p, v, q, w).len() == STATE_DIM,
        (Vec3 { x: packed(p, v, q, w)[0], y: packed(p, v, q, w)[1], z: packed(p, v, q, w)[2] })
            == p,
        (Vec3 { x: packed(p, v, q, w)[3], y: packed(p, v, q, w)[4], z: packed(p, v, q, w)[5] })
            == v,
        packed(p, v, q, w)[6] == q.w,
        packed(p, v, q, w)[7] == q.i,
        packed(p, v, q, w)[8] == q.j,
        packed(p, v, q, w)[9] == q.k,
        (Vec3 { x: packed(p, v, q, w)[10], y: packed(p, v, q, w)[11], z: packed(p, v, q, w)[12] })
            == w,
        raw_attitude(packed(p, v, q, w)) == q,
{
}

/// Each surface and the throttle go where they are commanded, as far as their own limits
/// reach: within them nothing changes, beyond them the nearer limit is given.
pub proof fn each_control_has_its_own_limit(c: FixedWingControls, lim: ControlLimits)
    requires
        lim.wf(),
    ensures
        ({
            let (r, hi, lo) = (c.limited(lim), lim.surface_max, lim.surface_max.negated());
            let (idle, full) = lim.throttle;
            &&& lo.at_most(c.aileron) && c.aileron.at_most(hi) ==> r.aileron == c.aileron
            &&& hi.less(c.aileron) ==> r.aileron == hi
            &&& c.aileron.less(lo) ==> r.aileron == lo
            &&& lo.at_most(c.elevator) && c.elevator.at_most(hi) ==> r.elevator == c.elevator
            &&& hi.less(c.elevator) ==> r.elevator == hi
            &&& c.elevator.less(lo) ==> r.elevator == lo
            &&& lo.at_most(c.rudder) && c.rudder.at_most(hi) ==> r.rudder == c.rudder
            &&& hi.less(c.rudder) ==> r.rudder == hi
            &&& c.rudder.less(lo) ==> r.rudder == lo
            &&& idle.at_most(c.throttle) && c.throttle.at_most(full) ==> r.throttle == c.throttle
            &&& full.less(c.throttle) ==> r.throttle == full
            &&& c.throttle.less(idle) ==> r.throttle == idle
        }),
{
}

/// A stick within its range is left as it is, axis by axis; beyond it an axis comes to the
/// nearer end: one to either side, and for the throttle idle or full.
pub proof fn each_axis_has_its_own_range(s: StickInput)
    ensures
        ({
            let (r, lo, hi) = (s.in_range(), Real::one_value().negated(), Real::one_value());
            &&& lo.at_most(s.pitch) && s.pitch.at_most(hi) ==> r.pitch == s.pitch
            &&& hi.less(s.pitch) ==> r.pitch == hi
            &&& s.pitch.less(lo) ==> r.pitch == lo
            &&& lo.at_most(s.roll) && s.roll.at_most(hi) ==> r.roll == s.roll
            &&& hi.less(s.roll) ==> r.roll == hi
            &&& s.roll.less(lo) ==> r.roll == lo
            &&& lo.at_most(s.yaw) && s.yaw.at_most(hi) ==> r.yaw == s.yaw
            &&& hi.less(s.yaw) ==> r.yaw == hi
            &&& s.yaw.less(lo) ==> r.yaw == lo
            &&& Real::zero_value().at_most(s.throttle) && s.throttle.at_most(hi) ==> r.throttle
                == s.throttle
            &&& hi.less(s.throttle) ==> r.throttle == hi
            &&& s.throttle.less(Real::zero_value()) ==> r.throttle == Real::zero_value()
        }),
{
}

/// A stick at rest asks for nothing and controls at rest deflect nothing; a body at rest has no
/// position, velocity or rate, and is not rotated; a level setpoint asks for its thrust alone.
pub proof fn at_rest_all_is_zero(thrust: Real)
    ensures
        ({
            let (z, s, c) = (
                Real::zero_value(),
                StickInput::neutral_value(),
                FixedWingControls::zero_value(),
            );
            &&& s.pitch == z && s.roll == z && s.yaw == z && s.throttle == z
            &&& c.aileron == z && c.elevator == z && c.rudder == z && c.throttle == z
        }),
        ({
            let (z, q) = (Real::zero_value(), Quat::identity_value());
            &&& q.w == Real::one_value() && q.i == z && q.j == z && q.k == z
            &&& Setpoint::level_value(thrust).attitude == q
            &&& Setpoint::level_value(thrust).thrust == thrust
        }),
        ({
            let (o, a, b) = (Vec3::zero_value(), State13::rest_value(), EstState::rest_value());
            &&& o.x.bits == 0 && o.y.bits == 0 && o.z.bits == 0
            &&& a.position == o && a.velocity == o && a.angular_rate == o
            &&& a.attitude == Quat::identity_value()
            &&& b.position == o && b.velocity == o && b.angular_rate == o
            &&& b.attitude == Quat::identity_value()
        }),
{
}

/// Limits may leave a single value: a surface that cannot move, a throttle that is fixed.
pub proof fn limits_may_coincide(l: ControlLimits)
    requires
        l.surface_max == Real::zero_value(),
        l.throttle.0 == l.throttle.1,
        l.throttle.0.is_number(),
    ensures
        l.wf(),
{
}

} // verus!
