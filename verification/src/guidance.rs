//! Flying a list of waypoints: which one is active, and what to do there.
use vstd::prelude::*;
use crate::messages::Vec3;
use crate::number::Real;

verus! {

/// A place to reach and the heading to hold there.
#[derive(Clone, Copy, Debug, PartialEq, Eq, Structural)]
pub struct Waypoint {
    pub position: Vec3,
    pub yaw: Real,
}

impl Waypoint {
    pub fn new(position: Vec3, yaw: Real) -> (r: Waypoint)
        ensures
            r == (Waypoint { position, yaw }),
    {
        Waypoint { position, yaw }
    }

    /// From north, east and altitude (up), with zero yaw.
    pub fn ne_alt(north: Real, east: Real, altitude: Real) -> (r: Waypoint)
        ensures
            r.position == (Vec3 { x: north, y: east, z: altitude.negated() }),
            r.yaw == Real::zero_value(),
    {
        Waypoint { position: Vec3::new(north, east, altitude.neg()), yaw: Real::zero() }
    }
}

#[derive(Clone, Copy, Debug, PartialEq, Eq, Structural)]
pub struct GuidanceConfig {
    /// Within this distance a waypoint counts as reached.
    pub accept_radius: Real,
    /// Speed towards the active waypoint.
    pub cruise_speed: Real,
}

impl Default for GuidanceConfig {
    /// Half a metre, three metres per second.
    fn default() -> (r: GuidanceConfig)
        ensures
            r.accept_radius.bits == 0x3fe0_0000_0000_0000,
            r.cruise_speed.bits == 0x4008_0000_0000_0000,
    {
        GuidanceConfig {
            accept_radius: Real::from_bits(0x3fe0_0000_0000_0000),
            cruise_speed: Real::from_bits(0x4008_0000_0000_0000),
        }
    }
}

/// What the position controller is asked for. The velocity to feed forward has the
/// cruise speed and points at the position, unless it is to be zero.
#[derive(Clone, Copy, Debug, PartialEq, Eq, Structural)]
pub struct GuidanceTarget {
    pub position: Vec3,
    pub yaw: Real,
    /// The speed to feed forward; `None` for a standstill.
    pub cruise: Option<Real>,
}

impl GuidanceTarget {
    pub open spec fn hold_value(position: Vec3, yaw: Real) -> GuidanceTarget {
        GuidanceTarget { position, yaw, cruise: None }
    }

    /// Stay at a place.
    pub fn hold(position: Vec3, yaw: Real) -> (r: GuidanceTarget)
        ensures
            r == GuidanceTarget::hold_value(position, yaw),
    {
        GuidanceTarget { position, yaw, cruise: None }
    }
}

/// A millionth: nearer than this there is no direction to go.
pub open spec fn too_near_value() -> Real {
    Real { bits: 0x3eb0_c6f7_a0b5_ed8d }
}

/// What a [`Guidance`] stands for.
pub struct GuidanceState {
    pub route: Seq<Waypoint>,
    /// Index of the active waypoint.
    pub active: int,
    pub config: GuidanceConfig,
    /// Whether the last waypoint has been reached.
    pub arrived: bool,
}

impl GuidanceState {
    /// The active waypoint is one of the list, and the last one if that has been reached.
    pub open spec fn wf(self) -> bool {
        &&& 0 <= self.active
        &&& self.active < self.route.len() || self.active == self.route.len() == 0
        &&& self.arrived ==> self.active + 1 == self.route.len()
    }

    /// At the start of a route.
    pub open spec fn start(route: Seq<Waypoint>, config: GuidanceConfig) -> GuidanceState {
        GuidanceState { route, active: 0, config, arrived: false }
    }

    /// The waypoint `k` places behind the active one.
    pub open spec fn ahead(self, k: int) -> Option<Waypoint> {
        if self.active + k < self.route.len() {
            Some(self.route[self.active + k])
        } else {
            None
        }
    }

    /// Whether the active waypoint is the last.
    pub open spec fn at_last(self) -> bool {
        self.active + 1 >= self.route.len()
    }

    /// Whether the active waypoint, at a distance, gives way to the next.
    pub open spec fn gives_way(self, distance: Real) -> bool {
        distance.less(self.config.accept_radius) && !self.at_last()
    }

    /// The distance to the waypoint that is active after an update: `here` is the distance
    /// to the active waypoint, `next` the distance to the one behind it.
    pub open spec fn distance_after(self, here: Real, next: Real) -> Real {
        if self.gives_way(here) {
            next
        } else {
            here
        }
    }

    /// The state with the next waypoint active, if the active one, at a distance, gives way.
    pub open spec fn moved_on(self, here: Real) -> GuidanceState {
        if self.gives_way(here) {
            GuidanceState { active: self.active + 1, ..self }
        } else {
            self
        }
    }

    /// The state once the distances are known. That the last waypoint was reached is
    /// remembered.
    pub open spec fn after(self, here: Real, next: Real) -> GuidanceState {
        let on = self.moved_on(here);
        GuidanceState {
            arrived: self.arrived || (self.route.len() > 0 && on.at_last() && self.distance_after(
                here,
                next,
            ).less(self.config.accept_radius)),
            ..on
        }
    }

    /// What is asked for at the active waypoint, at a distance.
    pub open spec fn target(self, distance: Real) -> GuidanceTarget {
        if self.route.len() == 0 {
            GuidanceTarget::hold_value(Vec3::zero_value(), Real::zero_value())
        } else {
            let wp = self.route[self.active];
            GuidanceTarget {
                position: wp.position,
                yaw: wp.yaw,
                cruise: if (self.at_last() && distance.less(self.config.accept_radius))
                    || distance.less(too_near_value()) {
                    None
                } else {
                    Some(self.config.cruise_speed)
                },
            }
        }
    }
}

/// Walks a list of waypoints.
#[derive(Debug)]
pub struct Guidance {
    waypoints: Vec<Waypoint>,
    idx: usize,
    cfg: GuidanceConfig,
    arrived: bool,
}

impl View for Guidance {
    type V = GuidanceState;

    closed spec fn view(&self) -> GuidanceState {
        GuidanceState {
            route: self.waypoints@,
            active: self.idx as int,
            config: self.cfg,
            arrived: self.arrived,
        }
    }
}

impl Guidance {
    /// Starts at the first waypoint. With none, the origin is held.
    pub fn new(waypoints: Vec<Waypoint>, cfg: GuidanceConfig) -> (r: Guidance)
        ensures
            r@ == GuidanceState::start(waypoints@, cfg),
            r@.wf(),
    {
        Guidance { waypoints, idx: 0, cfg, arrived: false }
    }

    pub fn current_index(&self) -> (r: usize)
        ensures
            r == self@.active,
    {
        self.idx
    }

    /// Whether the last waypoint has been reached.
    pub fn arrived(&self) -> (r: bool)
        ensures
            r == self@.arrived,
    {
        self.arrived
    }

    /// The waypoints whose distances [`Guidance::update`] wants: the active one and
    /// the one behind it.
    pub fn ahead(&self) -> (r: (Option<Waypoint>, Option<Waypoint>))
        requires
            self@.wf(),
        ensures
            r == (self@.ahead(0), self@.ahead(1)),
    {
        let n: usize = self.waypoints.len();
        let here = if self.idx < n {
            Some(self.waypoints[self.idx])
        } else {
            None
        };
        let next = if self.idx < n && self.idx + 1 < n {
            Some(self.waypoints[self.idx + 1])
        } else {
            None
        };
        (here, next)
    }

    /// Whether the active waypoint is the last.
    pub fn on_final(&self) -> (r: bool)
        requires
            self@.wf(),
        ensures
            r == self@.at_last(),
    {
        let n: usize = self.waypoints.len();
        n == 0 || self.idx == n - 1
    }

    /// What [`Guidance::update`] will ask for, with nothing changed yet.
    pub fn preview(&self, here: Real, next: Real) -> (r: GuidanceTarget)
        requires
            self@.wf(),
        ensures
            r == self@.after(here, next).target(self@.distance_after(here, next)),
    {
        let n: usize = self.waypoints.len();
        if n == 0 {
            return GuidanceTarget::hold(Vec3::zeros(), Real::zero());
        }
        let on = here.lt(self.cfg.accept_radius) && self.idx < n - 1;
        let (idx, distance): (usize, Real) = if on {
            (self.idx + 1, next)
        } else {
            (self.idx, here)
        };
        let wp = self.waypoints[idx];
        let final_hold = idx == n - 1 && distance.lt(self.cfg.accept_radius);
        let cruise = if final_hold || distance.lt(Real::from_bits(0x3eb0_c6f7_a0b5_ed8d)) {
            None
        } else {
            Some(self.cfg.cruise_speed)
        };
        GuidanceTarget { position: wp.position, yaw: wp.yaw, cruise }
    }

    /// Goes on to the next waypoint if the active one is reached, and says what is
    /// asked for at the one that is active then. `here` is the distance to the
    /// active waypoint, `next` the distance to the one behind it.
    pub fn update(&mut self, here: Real, next: Real) -> (r: GuidanceTarget)
        requires
            old(self)@.wf(),
        ensures
            final(self)@ == old(self)@.after(here, next),
            final(self)@.wf(),
            r == final(self)@.target(old(self)@.distance_after(here, next)),
    {
        let target = self.preview(here, next);
        let n: usize = self.waypoints.len();
        if n > 0 {
            let mut distance = here;
            if here.lt(self.cfg.accept_radius) && self.idx < n - 1 {
                self.idx = self.idx + 1;
                distance = next;
            }
            if self.idx == n - 1 && distance.lt(self.cfg.accept_radius) {
                self.arrived = true;
            }
        }
        target
    }
}

/// One update goes at most one waypoint on, never back and never past the last, and
/// leaves the route as it is.
pub proof fn guidance_never_goes_back(g: GuidanceState, here: Real, next: Real)
    requires
        g.wf(),
    ensures
        g.active <= g.after(here, next).active <= g.active + 1,
        g.after(here, next).wf(),
        g.after(here, next).route == g.route,
        g.at_last() ==> g.after(here, next).active == g.active,
{
}

/// At the last waypoint, within its accept radius, the aircraft stands still, and has arrived.
pub proof fn final_waypoint_is_held(g: GuidanceState, here: Real, next: Real)
    requires
        g.wf(),
        g.at_last(),
        here.less(g.config.accept_radius),
    ensures
        g.after(here, next).active == g.active,
        g.after(here, next).target(here).cruise is None,
        g.route.len() > 0 ==> g.after(here, next).arrived,
{
}

/// Once the aircraft has arrived at the last waypoint it has arrived for good, wherever it
/// drifts; before that it arrives exactly when the last waypoint, active, comes within the
/// accept radius.
pub proof fn arrival_is_remembered(g: GuidanceState, here: Real, next: Real)
    requires
        g.wf(),
    ensures
        g.arrived ==> g.after(here, next) == g,
        !g.arrived ==> (g.after(here, next).arrived <==> g.route.len() > 0 && g.after(
            here,
            next,
        ).at_last() && g.distance_after(here, next).less(g.config.accept_radius)),
{
}

/// Whatever the distance, what is asked for is the place and the heading of the waypoint that
/// is active then.
pub proof fn target_is_the_active_waypoint(g: GuidanceState, here: Real, next: Real, d: Real)
    requires
        g.wf(),
        g.route.len() > 0,
    ensures
        ({
            let on = g.after(here, next);
            &&& on.target(d).position == g.route[on.active].position
            &&& on.target(d).yaw == g.route[on.active].yaw
            &&& g.target(d).position == g.route[g.active].position
            &&& g.target(d).yaw == g.route[g.active].yaw
        }),
{
}

/// The aircraft cruises at the configured speed towards its waypoint, unless it is within the
/// accept radius of the last one or so near that there is no direction to go.
pub proof fn cruise_ends_at_the_last_waypoint(g: GuidanceState, d: Real)
    requires
        g.wf(),
        g.route.len() > 0,
    ensures
        g.active + 1 == g.route.len() && d.less(g.config.accept_radius) ==> g.target(d).cruise
            is None,
        d.less(Real { bits: 0x3eb0_c6f7_a0b5_ed8d }) ==> g.target(d).cruise is None,
        (g.active + 1 < g.route.len() || !d.less(g.config.accept_radius)) && !d.less(
            Real { bits: 0x3eb0_c6f7_a0b5_ed8d },
        ) ==> g.target(d).cruise == Some(g.config.cruise_speed),
{
}

/// Without waypoints the origin is held, heading north, standing still.
pub proof fn empty_route_holds_the_origin(g: GuidanceState, here: Real, next: Real, d: Real)
    requires
        g.wf(),
        g.route.len() == 0,
    ensures
        g.after(here, next) == g,
        g.target(d).position == Vec3::zero_value(),
        g.target(d).yaw == Real::zero_value(),
        g.target(d).cruise is None,
        g.ahead(0) is None && g.ahead(1) is None,
{
}

/// An update goes on to the next waypoint exactly if there is one and the active one is within
/// the accept radius; then the distance that counts is that of the next one. It changes nothing
/// but which waypoint is active and whether the last one has been reached.
pub proof fn update_goes_on_within_the_radius(g: GuidanceState, here: Real, next: Real)
    requires
        g.wf(),
    ensures
        ({
            let on = g.after(here, next);
            let reached = here.less(g.config.accept_radius) && g.active + 1 < g.route.len();
            &&& reached ==> on.active == g.active + 1 && g.distance_after(here, next) == next
            &&& !reached ==> on.active == g.active && g.distance_after(here, next) == here
            &&& on.route == g.route && on.config == g.config
            &&& g.gives_way(here) <==> reached
        }),
{
}

/// The last waypoint has been reached exactly once it was active and within the accept radius,
/// be it that it was active before or has only become so.
pub proof fn arrival_is_within_the_radius(g: GuidanceState, here: Real, next: Real)
    requires
        g.wf(),
    ensures
        ({
            let n = g.route.len();
            let r = g.config.accept_radius;
            let there = g.active + 1 == n && here.less(r);
            let at_once = g.active + 2 == n && here.less(r) && next.less(r);
            g.after(here, next).arrived <==> g.arrived || there || at_once
        }),
{
}

/// A mission starts at its first waypoint, not yet arrived; the waypoints whose distances are
/// asked for are the active one and the one behind it.
pub proof fn mission_starts_at_the_first_waypoint(
    g: GuidanceState,
    route: Seq<Waypoint>,
    config: GuidanceConfig,
)
    requires
        g.wf(),
    ensures
        GuidanceState::start(route, config).route == route,
        GuidanceState::start(route, config).config == config,
        GuidanceState::start(route, config).active == 0,
        !GuidanceState::start(route, config).arrived,
        g.active < g.route.len() ==> g.ahead(0) == Some(g.route[g.active]),
        g.active + 1 < g.route.len() ==> g.ahead(1) == Some(g.route[g.active + 1]),
        g.active + 1 >= g.route.len() ==> g.ahead(1) is None,
        g.at_last() <==> g.active + 1 >= g.route.len(),
{
}

} // verus!
