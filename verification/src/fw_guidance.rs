//! Flying a route on the sphere: which leg is flown, when the route is complete,
//! and what is done then.
//!
//! Bearings and distances along the sphere are the caller's; here it is decided
//! which of them make up the setpoint.
use vstd::prelude::*;
use crate::guidance::Waypoint;
use crate::messages::Vec3;
use crate::number::Real;

verus! {

/// What the fixed-wing autopilot is asked for.
#[derive(Clone, Copy, Debug, PartialEq, Eq, Structural)]
pub struct FixedWingSetpoint {
    pub airspeed: Real,
    pub altitude: Real,
    pub course: Real,
}

/// What to do once the last waypoint is reached.
#[derive(Clone, Copy, Debug, PartialEq, Eq, Structural)]
pub enum TerminalAction {
    /// Fly on straight, with the course and altitude of the arrival.
    HoldCourse,
    /// Circle the last waypoint; a positive `dir` is clockwise.
    Orbit { radius: Real, dir: Real },
}

#[derive(Clone, Copy, Debug, PartialEq, Eq, Structural)]
pub struct FwGuidanceConfig {
    pub airspeed: Real,
    /// Within this distance along the surface a waypoint counts as reached.
    pub accept_radius: Real,
    /// Angle of approach far from the path.
    pub chi_inf: Real,
    /// How hard the path is approached.
    pub k_path: Real,
    pub terminal: TerminalAction,
}

impl Default for FwGuidanceConfig {
    /// Airspeed 25, radius 120, angle 0.9, gain 0.01, straight on at the end.
    fn default() -> (r: FwGuidanceConfig)
        ensures
            r.airspeed.bits == 0x4039_0000_0000_0000,
            r.accept_radius.bits == 0x405e_0000_0000_0000,
            r.chi_inf.bits == 0x3fec_cccc_cccc_cccd,
            r.k_path.bits == 0x3f84_7ae1_47ae_147b,
            r.terminal == TerminalAction::HoldCourse,
    {
        FwGuidanceConfig {
            airspeed: Real::from_bits(0x4039_0000_0000_0000),
            accept_radius: Real::from_bits(0x405e_0000_0000_0000),
            chi_inf: Real::from_bits(0x3fec_cccc_cccc_cccd),
            k_path: Real::from_bits(0x3f84_7ae1_47ae_147b),
            terminal: TerminalAction::HoldCourse,
        }
    }
}

/// What the setpoint is made of. In each case the airspeed is the configured one.
#[derive(Clone, Copy, Debug, PartialEq, Eq, Structural)]
pub enum Aim {
    /// There is no route: the altitude of the start, due north.
    HoldStart { start: Vec3 },
    /// Along the leg, with the altitude changing along it.
    Leg { origin: Vec3, target: Vec3 },
    /// The route has just ended: the course of the last leg and the altitude of its
    /// end, to be kept with [`FwGuidance::latch`].
    Arrive { origin: Vec3, target: Vec3 },
    /// What was kept.
    Kept(FixedWingSetpoint),
    /// Around a place, at its altitude.
    Orbit { center: Vec3, radius: Real, dir: Real },
}

impl Aim {
    /// The setpoint that this comes to, where `found` holds the altitude and the course that
    /// were found for it. What was kept is kept as it is; without a route the course is due
    /// north.
    pub open spec fn setpoint(self, cfg: FwGuidanceConfig, found: FixedWingSetpoint) -> FixedWingSetpoint {
        match self {
            Aim::Kept(sp) => sp,
            Aim::HoldStart { .. } => FixedWingSetpoint {
                airspeed: cfg.airspeed,
                altitude: found.altitude,
                course: Real::zero_value(),
            },
            _ => FixedWingSetpoint {
                airspeed: cfg.airspeed,
                altitude: found.altitude,
                course: found.course,
            },
        }
    }

    /// Makes the setpoint of the altitude and the course that were found for it.
    pub fn make(self, cfg: FwGuidanceConfig, found: FixedWingSetpoint) -> (r: FixedWingSetpoint)
        ensures
            r == self.setpoint(cfg, found),
    {
        match self {
            Aim::Kept(sp) => sp,
            Aim::HoldStart { .. } => FixedWingSetpoint {
                airspeed: cfg.airspeed,
                altitude: found.altitude,
                course: Real::zero(),
            },
            _ => FixedWingSetpoint {
                airspeed: cfg.airspeed,
                altitude: found.altitude,
                course: found.course,
            },
        }
    }
}

/// What an [`FwGuidance`] stands for.
pub struct FwGuidanceState {
    pub route: Seq<Waypoint>,
    /// Index of the waypoint that is flown to.
    pub active: int,
    /// Where the first leg starts.
    pub start: Vec3,
    pub config: FwGuidanceConfig,
    /// Whether the last waypoint has been reached.
    pub completed: bool,
    /// What is kept after the arrival.
    pub kept: Option<FixedWingSetpoint>,
}

impl FwGuidanceState {
    pub open spec fn wf(self) -> bool {
        &&& 0 <= self.active
        &&& self.active < self.route.len() || self.active == self.route.len() == 0
        &&& self.completed ==> self.active + 1 == self.route.len()
        &&& self.kept is Some ==> self.completed && self.config.terminal
            == TerminalAction::HoldCourse
    }

    pub open spec fn begin(
        route: Seq<Waypoint>,
        start: Vec3,
        config: FwGuidanceConfig,
    ) -> FwGuidanceState {
        FwGuidanceState { route, active: 0, start, config, completed: false, kept: None }
    }

    pub open spec fn current_index(self) -> Option<usize> {
        if self.route.len() == 0 {
            None
        } else {
            Some(self.active as usize)
        }
    }

    /// Where the leg that is flown starts.
    pub open spec fn leg_origin(self) -> Vec3 {
        if self.active == 0 {
            self.start
        } else {
            self.route[self.active - 1].position
        }
    }

    /// The state once the distance to the active waypoint is known.
    pub open spec fn after(self, distance: Real) -> FwGuidanceState {
        if self.route.len() == 0 || !distance.less(self.config.accept_radius) {
            self
        } else if self.active + 1 < self.route.len() {
            FwGuidanceState { active: self.active + 1, ..self }
        } else {
            FwGuidanceState { completed: true, ..self }
        }
    }

    /// What the setpoint is made of.
    pub open spec fn aim(self) -> Aim {
        if self.route.len() == 0 {
            Aim::HoldStart { start: self.start }
        } else {
            let target = self.route[self.active].position;
            if !self.completed {
                Aim::Leg { origin: self.leg_origin(), target }
            } else {
                match self.config.terminal {
                    TerminalAction::HoldCourse => match self.kept {
                        Some(sp) => Aim::Kept(sp),
                        None => Aim::Arrive { origin: self.leg_origin(), target },
                    },
                    TerminalAction::Orbit { radius, dir } => Aim::Orbit {
                        center: target,
                        radius,
                        dir,
                    },
                }
            }
        }
    }
}

/// Follows a route.
#[derive(Debug)]
pub struct FwGuidance {
    waypoints: Vec<Waypoint>,
    idx: usize,
    start: Vec3,
    cfg: FwGuidanceConfig,
    completed: bool,
    terminal_sp: Option<FixedWingSetpoint>,
}

impl View for FwGuidance {
    type V = FwGuidanceState;

    closed spec fn view(&self) -> FwGuidanceState {
        FwGuidanceState {
            route: self.waypoints@,
            active: self.idx as int,
            start: self.start,
            config: self.cfg,
            completed: self.completed,
            kept: self.terminal_sp,
        }
    }
}

impl FwGuidance {
    /// Starts the route at `start`. Without waypoints the altitude of the start is
    /// held, due north.
    pub fn new(waypoints: Vec<Waypoint>, start: Vec3, cfg: FwGuidanceConfig) -> (r: FwGuidance)
        ensures
            r@ == FwGuidanceState::begin(waypoints@, start, cfg),
            r@.wf(),
    {
        FwGuidance { waypoints, idx: 0, start, cfg, completed: false, terminal_sp: None }
    }

    /// The active waypoint; none if there is no route.
    pub fn current_index(&self) -> (r: Option<usize>)
        ensures
            r == self@.current_index(),
    {
        if self.waypoints.len() == 0 {
            None
        } else {
            Some(self.idx)
        }
    }

    /// Whether the active waypoint is the last.
    pub fn on_final(&self) -> (r: bool)
        requires
            self@.wf(),
        ensures
            r == (self@.route.len() > 0 && self@.active + 1 >= self@.route.len()),
    {
        let n: usize = self.waypoints.len();
        n > 0 && self.idx >= n - 1
    }

    /// Whether the last waypoint has been reached.
    pub fn is_complete(&self) -> (r: bool)
        ensures
            r == self@.completed,
    {
        self.completed
    }

    pub fn config(&self) -> (r: FwGuidanceConfig)
        ensures
            r == self@.config,
    {
        self.cfg
    }

    /// The waypoint whose distance [`FwGuidance::update`] wants.
    pub fn target(&self) -> (r: Option<Waypoint>)
        requires
            self@.wf(),
        ensures
            r == (if self@.route.len() == 0 {
                None
            } else {
                Some(self@.route[self@.active])
            }),
    {
        if self.waypoints.len() == 0 {
            None
        } else {
            Some(self.waypoints[self.idx])
        }
    }

    /// Where the leg that is flown starts.
    pub fn leg_origin(&self) -> (r: Vec3)
        requires
            self@.wf(),
        ensures
            r == self@.leg_origin(),
    {
        if self.idx == 0 {
            self.start
        } else {
            self.waypoints[self.idx - 1].position
        }
    }

    /// What the setpoint is made of.
    pub fn aim(&self) -> (r: Aim)
        requires
            self@.wf(),
        ensures
            r == self@.aim(),
    {
        let n: usize = self.waypoints.len();
        if n == 0 {
            return Aim::HoldStart { start: self.start };
        }
        let target = self.waypoints[self.idx].position;
        let origin = self.leg_origin();
        if !self.completed {
            return Aim::Leg { origin, target };
        }
        match self.cfg.terminal {
            TerminalAction::HoldCourse => match self.terminal_sp {
                Some(sp) => Aim::Kept(sp),
                None => Aim::Arrive { origin, target },
            },
            TerminalAction::Orbit { radius, dir } => Aim::Orbit { center: target, radius, dir },
        }
    }

    /// What [`FwGuidance::update`] will say, with nothing changed yet.
    pub fn preview(&self, distance: Real) -> (r: Aim)
        requires
            self@.wf(),
        ensures
            r == self@.after(distance).aim(),
    {
        let n: usize = self.waypoints.len();
        if n == 0 {
            return Aim::HoldStart { start: self.start };
        }
        let reached = distance.lt(self.cfg.accept_radius);
        let on = reached && self.idx < n - 1;
        let completed = self.completed || (reached && !on);
        let idx: usize = if on {
            self.idx + 1
        } else {
            self.idx
        };
        let target = self.waypoints[idx].position;
        let origin = if idx == 0 {
            self.start
        } else {
            self.waypoints[idx - 1].position
        };
        if !completed {
            return Aim::Leg { origin, target };
        }
        match self.cfg.terminal {
            TerminalAction::HoldCourse => match self.terminal_sp {
                Some(sp) => Aim::Kept(sp),
                None => Aim::Arrive { origin, target },
            },
            TerminalAction::Orbit { radius, dir } => Aim::Orbit { center: target, radius, dir },
        }
    }

    /// Goes on to the next leg, or completes the route, if the active waypoint is
    /// within reach, and says what the setpoint is made of then.
    pub fn update(&mut self, distance: Real) -> (r: Aim)
        requires
            old(self)@.wf(),
        ensures
            final(self)@ == old(self)@.after(distance),
            final(self)@.wf(),
            r == final(self)@.aim(),
    {
        let aim = self.preview(distance);
        let n: usize = self.waypoints.len();
        if n > 0 && distance.lt(self.cfg.accept_radius) {
            if self.idx < n - 1 {
                self.idx = self.idx + 1;
            } else {
                self.completed = true;
            }
        }
        aim
    }

    /// Whether the route has ended and the setpoint of the arrival is still to be
    /// kept.
    pub fn arriving(&self) -> (r: bool)
        requires
            self@.wf(),
        ensures
            r == (self@.aim() is Arrive),
    {
        self.completed && self.terminal_sp.is_none() && matches!(
            self.cfg.terminal,
            TerminalAction::HoldCourse
        )
    }

    /// Keeps the setpoint of the arrival.
    pub fn latch(&mut self, sp: FixedWingSetpoint)
        requires
            old(self)@.wf(),
            old(self)@.aim() is Arrive,
        ensures
            final(self)@ == (FwGuidanceState { kept: Some(sp), ..old(self)@ }),
            final(self)@.wf(),
    {
        self.terminal_sp = Some(sp);
    }
}

/// How far along a leg the altitude has come, from 0 at its origin to 1 at its target;
/// none on a leg shorter than 1, where the altitude is that of the target. `share` is the
/// share of the leg that is flown.
pub open spec fn leg_share_value(leg_len: Real, share: Real) -> Option<Real> {
    if leg_len.less(Real::one_value()) {
        None
    } else {
        Some(share.clamped_to(Real::zero_value(), Real::one_value()))
    }
}

/// How far along a leg the altitude has come.
pub fn leg_share(leg_len: Real, share: Real) -> (r: Option<Real>)
    ensures
        r == leg_share_value(leg_len, share),
{
    if leg_len.lt(Real::one()) {
        None
    } else {
        Some(share.clamp(Real::zero(), Real::one()))
    }
}

/// The altitude along a leg stays between those of its ends: beside the leg and beyond it
/// the share is cut off.
pub proof fn leg_share_is_a_share(leg_len: Real, share: Real)
    requires
        share.is_number(),
    ensures
        match leg_share_value(leg_len, share) {
            Some(f) => Real::zero_value().at_most(f) && f.at_most(Real::one_value()),
            None => leg_len.less(Real::one_value()),
        },
{
}

/// A route is flown leg by leg: never back, never past the end, and once complete
/// it stays complete.
pub proof fn route_never_goes_back(g: FwGuidanceState, distance: Real)
    requires
        g.wf(),
    ensures
        g.after(distance).wf(),
        g.active <= g.after(distance).active <= g.active + 1,
        g.completed ==> g.after(distance) == g,
        g.after(distance).route == g.route,
{
}

/// The setpoint that was kept on arrival is the setpoint from then on, wherever the
/// aircraft is.
pub proof fn kept_setpoint_stays(g: FwGuidanceState, distance: Real, sp: FixedWingSetpoint)
    requires
        g.wf(),
        g.kept == Some(sp),
    ensures
        g.after(distance).aim() == Aim::Kept(sp),
        g.after(distance).kept == Some(sp),
{
}

/// A route is complete exactly once its last waypoint has come within reach.
pub proof fn route_completes_at_its_end(g: FwGuidanceState, distance: Real)
    requires
        g.wf(),
        !g.completed,
    ensures
        g.after(distance).completed <==> g.route.len() > 0 && g.active + 1 == g.route.len()
            && distance.less(g.config.accept_radius),
{
}

/// Without waypoints the start is held, for good.
pub proof fn empty_route_holds_start(g: FwGuidanceState, distance: Real)
    requires
        g.wf(),
        g.route.len() == 0,
    ensures
        g.after(distance) == g,
        g.aim() == (Aim::HoldStart { start: g.start }),
        g.current_index() is None,
{
}

/// While a route is not complete its active leg is flown: to the active waypoint, from the one
/// before it, or from where the route began.
pub proof fn leg_ends_at_the_active_waypoint(g: FwGuidanceState)
    requires
        g.wf(),
        g.route.len() > 0,
        !g.completed,
    ensures
        g.active == 0 ==> g.aim() == (Aim::Leg { origin: g.start, target: g.route[0].position }),
        g.active > 0 ==> g.aim() == (Aim::Leg {
            origin: g.route[g.active - 1].position,
            target: g.route[g.active].position,
        }),
{
}

/// The legs join up: where an update goes on to the next waypoint, the new leg starts where
/// the old one was to end.
pub proof fn legs_join_up(g: FwGuidanceState, distance: Real)
    requires
        g.wf(),
        !g.completed,
        g.active + 1 < g.route.len(),
        distance.less(g.config.accept_radius),
    ensures
        g.aim() matches Aim::Leg { target: reached, .. } && (g.after(distance).aim() matches Aim::Leg {
            origin,
            target,
        } && origin == reached && target == g.route[g.active + 1].position),
{
}

/// At the end of a route it is done what the configuration says: the last waypoint is circled
/// as asked for, or the setpoint of the arrival is kept, which is that of the last leg.
pub proof fn route_ends_as_configured(g: FwGuidanceState)
    requires
        g.wf(),
        g.completed,
    ensures
        ({
            let n = g.route.len() as int;
            let last = g.route[n - 1].position;
            match g.config.terminal {
                TerminalAction::Orbit { radius, dir } => g.aim() == (Aim::Orbit {
                    center: last,
                    radius,
                    dir,
                }),
                TerminalAction::HoldCourse => match g.kept {
                    Some(sp) => g.aim() == Aim::Kept(sp),
                    None => g.aim() matches Aim::Arrive { origin, target } && target == last && (
                    n > 1 ==> origin == g.route[n - 2].position) && (n == 1 ==> origin == g.start),
                },
            }
        }),
{
}

/// An update goes on to the next waypoint, or completes the route at the last one, exactly if
/// the active one is within the accept radius, and changes nothing else.
pub proof fn route_goes_on_within_the_radius(g: FwGuidanceState, distance: Real)
    requires
        g.wf(),
        g.route.len() > 0,
    ensures
        ({
            let on = g.after(distance);
            let near = distance.less(g.config.accept_radius);
            &&& near && g.active + 1 < g.route.len() ==> on.active == g.active + 1
            &&& !near || g.active + 1 == g.route.len() ==> on.active == g.active
            &&& on.completed <==> g.completed || (near && g.active + 1 == g.route.len())
            &&& on.route == g.route && on.start == g.start && on.config == g.config
            &&& on.kept == g.kept
        }),
{
}

/// A route begins at its first waypoint, with nothing reached and nothing kept.
pub proof fn route_begins_at_its_first_waypoint(
    route: Seq<Waypoint>,
    start: Vec3,
    config: FwGuidanceConfig,
)
    ensures
        ({
            let g = FwGuidanceState::begin(route, start, config);
            &&& g.route == route && g.start == start && g.config == config
            &&& g.active == 0 && !g.completed && g.kept is None
            &&& g.wf()
            &&& route.len() > 0 ==> g.current_index() == Some(0usize)
            &&& route.len() == 0 ==> g.current_index() is None
        }),
{
}

/// The index that is shown is that of the waypoint flown to.
pub proof fn shown_index_is_the_active_one(g: FwGuidanceState)
    requires
        g.wf(),
        0 < g.route.len() <= usize::MAX,
    ensures
        g.current_index() matches Some(k) && k == g.active,
{
}

/// A setpoint is made of the airspeed of the route and the altitude and course that were
/// found. What was kept is not made anew, and without a route the course is due north.
pub proof fn setpoint_is_made_of_what_was_found(
    aim: Aim,
    cfg: FwGuidanceConfig,
    found: FixedWingSetpoint,
)
    ensures
        aim matches Aim::Kept(sp) ==> aim.setpoint(cfg, found) == sp,
        !(aim is Kept) ==> aim.setpoint(cfg, found).airspeed == cfg.airspeed,
        !(aim is Kept) ==> aim.setpoint(cfg, found).altitude == found.altitude,
        aim is Leg || aim is Arrive || aim is Orbit ==> aim.setpoint(cfg, found).course
            == found.course,
        aim is HoldStart ==> aim.setpoint(cfg, found).course == Real::zero_value(),
{
}

/// The share of a leg counts as it is between its ends; beyond them it is cut off at the nearer
/// end. Only a leg shorter than 1 has none.
pub proof fn leg_share_counts_between_the_ends(leg_len: Real, share: Real)
    ensures
        leg_share_value(leg_len, share) is None <==> leg_len.less(Real::one_value()),
        leg_share_value(leg_len, share) matches Some(f) ==> (Real::zero_value().at_most(share)
            && share.at_most(Real::one_value()) ==> f == share) && (share.less(Real::zero_value())
            ==> f == Real::zero_value()) && (Real::one_value().less(share) ==> f
            == Real::one_value()),
{
}

} // verus!
