//! Keeping a fixed-wing aircraft clear of the ground.
//!
//! The layer rewrites the altitude and the course of a setpoint. The caller scans
//! the terrain and adds altitudes and margins up; here it is decided what is flown:
//! climb to clear the terrain ahead, turn away from what cannot be climbed over, and
//! pull up when the ground is too close.
use vstd::prelude::*;
use crate::fw_guidance::FixedWingSetpoint;
use crate::number::Real;

verus! {

#[derive(Clone, Copy, Debug, PartialEq, Eq, Structural)]
pub struct TerrainAvoidConfig {
    /// Height to keep above terrain ahead.
    pub clearance: Real,
    /// Shortest distance that is scanned.
    pub lookahead_min: Real,
    /// Time ahead that is scanned.
    pub lookahead_time: Real,
    /// Distance between two scanned points.
    pub scan_step: Real,
    /// Metres climbed per metre of ground.
    pub max_climb_gradient: Real,
    /// Fastest climb that is commanded.
    pub climb_rate_max: Real,
    /// How fast the command eases back down.
    pub descent_rate: Real,
    /// Height above ground below which a pull-up is forced.
    pub hard_min_agl: Real,
    /// Whether to turn away from terrain that cannot be climbed over.
    pub lateral: bool,
    /// Angle of the side probes.
    pub fan_angle: Real,
    /// Turn to fly if no gap is found.
    pub turn_max: Real,
}

impl Default for TerrainAvoidConfig {
    /// Clearance 80, look-ahead 500 or 60 s, steps of 30, gradient 0.25, climb 8,
    /// descent 3, hard minimum 25, lateral, fan 0.6, turn 0.8.
    fn default() -> (r: TerrainAvoidConfig)
        ensures
            r == (TerrainAvoidConfig {
                clearance: Real { bits: 0x4054_0000_0000_0000 },
                lookahead_min: Real { bits: 0x407f_4000_0000_0000 },
                lookahead_time: Real { bits: 0x404e_0000_0000_0000 },
                scan_step: Real { bits: 0x403e_0000_0000_0000 },
                max_climb_gradient: Real { bits: 0x3fd0_0000_0000_0000 },
                climb_rate_max: Real { bits: 0x4020_0000_0000_0000 },
                descent_rate: Real { bits: 0x4008_0000_0000_0000 },
                hard_min_agl: Real { bits: 0x4039_0000_0000_0000 },
                lateral: true,
                fan_angle: Real { bits: 0x3fe3_3333_3333_3333 },
                turn_max: Real { bits: 0x3fe9_9999_9999_999a },
            }),
    {
        TerrainAvoidConfig {
            clearance: Real::from_bits(0x4054_0000_0000_0000),
            lookahead_min: Real::from_bits(0x407f_4000_0000_0000),
            lookahead_time: Real::from_bits(0x404e_0000_0000_0000),
            scan_step: Real::from_bits(0x403e_0000_0000_0000),
            max_climb_gradient: Real::from_bits(0x3fd0_0000_0000_0000),
            climb_rate_max: Real::from_bits(0x4020_0000_0000_0000),
            descent_rate: Real::from_bits(0x4008_0000_0000_0000),
            hard_min_agl: Real::from_bits(0x4039_0000_0000_0000),
            lateral: true,
            fan_angle: Real::from_bits(0x3fe3_3333_3333_3333),
            turn_max: Real::from_bits(0x3fe9_9999_9999_999a),
        }
    }
}

/// The side that a turn goes to.
#[derive(Clone, Copy, Debug, PartialEq, Eq, Structural)]
pub enum Side {
    Right,
    Left,
}

/// What the caller found out before a setpoint is rewritten.
#[derive(Clone, Copy, Debug, PartialEq, Eq, Structural)]
pub struct Survey {
    /// Distance from the core of the planet.
    pub rho: Real,
    /// Speed over ground.
    pub speed: Real,
    /// Altitude.
    pub alt: Real,
    /// Height above ground.
    pub agl: Real,
    /// The lowest altitude that clears the ground below.
    pub here_floor: Real,
    /// The lowest altitude that clears the terrain along the track. This and the floors
    /// below count only where the layer looks ahead.
    pub track_floor: Real,
    /// The same along the course of the route.
    pub route_floor: Real,
    /// The same to the sides of the track; these count only while no turn is committed to.
    pub left_floor: Real,
    pub right_floor: Real,
    /// The altitude that the floor of a clear route stays below: the present one plus the
    /// hysteresis.
    pub limit: Real,
    /// The altitude from which on a floor is no concern: one metre above the present.
    pub calm_alt: Real,
    /// The altitude to pull up to: the present one plus the clearance.
    pub pull_up: Real,
    /// The last command plus what may be climbed since.
    pub raised: Real,
    /// The last command less what may be descended since.
    pub lowered: Real,
}

/// The headings probed to escape by, from the route outwards to the side turned to.
#[derive(Debug)]
pub struct Fan {
    pub courses: Vec<Real>,
    /// The floor along each of the courses.
    pub floors: Vec<Real>,
    /// The course of a firm turn, if there is nothing to go by.
    pub firm: Real,
}

impl Fan {
    pub open spec fn wf(&self) -> bool {
        self.courses@.len() == self.floors@.len()
    }

    /// The course that an escape stands for.
    pub open spec fn course(&self, e: Escape) -> Real {
        match e {
            Escape::Gap(k) => self.courses@[k as int],
            Escape::Least(k) => self.courses@[k as int],
            Escape::Nowhere => self.firm,
        }
    }
}

/// The highest of a first altitude and some more.
pub open spec fn highest(first: Real, needs: Seq<Real>) -> Real
    decreases needs.len(),
{
    if needs.len() == 0 {
        first
    } else {
        let before = highest(first, needs.drop_last());
        if before.less(needs.last()) {
            needs.last()
        } else {
            before
        }
    }
}

/// The lowest altitude that meets the need at every point of a corridor.
pub fn corridor_floor(first: Real, needs: &Vec<Real>) -> (r: Real)
    ensures
        r == highest(first, needs@),
{
    let mut floor = first;
    let mut i: usize = 0;
    assert(needs@.take(0) =~= Seq::<Real>::empty());
    while i < needs.len()
        invariant
            i <= needs.len(),
            floor == highest(first, needs@.take(i as int)),
        decreases needs.len() - i,
    {
        assert(needs@.take(i + 1).drop_last() =~= needs@.take(i as int));
        if floor.lt(needs[i]) {
            floor = needs[i];
        }
        i = i + 1;
    }
    assert(needs@.take(needs@.len() as int) =~= needs@);
    floor
}

/// A corridor floor is above every need in the corridor, and is one of them.
pub proof fn floor_clears_every_need(first: Real, needs: Seq<Real>)
    requires
        first.is_number(),
    ensures
        highest(first, needs).is_number(),
        first.at_most(highest(first, needs)),
        forall|i: int|
            0 <= i < needs.len() && (#[trigger] needs[i]).is_number() ==> needs[i].at_most(
                highest(first, needs),
            ),
        highest(first, needs) == first || needs.contains(highest(first, needs)),
    decreases needs.len(),
{
    if needs.len() > 0 {
        let init = needs.drop_last();
        floor_clears_every_need(first, init);
        let h = highest(first, needs);
        assert forall|i: int| 0 <= i < needs.len() && (#[trigger] needs[i]).is_number() implies needs[i].at_most(
            h,
        ) by {
            if i < init.len() {
                assert(init[i] == needs[i]);
            }
        }
        if h != first {
            if h == needs.last() {
                assert(needs[needs.len() - 1] == h);
            } else {
                let k = choose|k: int| 0 <= k < init.len() && init[k] == h;
                assert(needs[k] == h);
            }
        }
    }
}

/// Which of the probed headings to fly: the first that is clear, else the one that is
/// blocked least.
#[derive(Clone, Copy, Debug, PartialEq, Eq, Structural)]
pub enum Escape {
    /// A gap at this probe.
    Gap(usize),
    /// No gap; this probe is blocked least.
    Least(usize),
    /// Nothing to go by.
    Nowhere,
}

/// Whether no probe before `end` is clear.
pub open spec fn all_blocked(floors: Seq<Real>, limit: Real, end: int) -> bool {
    forall|i: int| 0 <= i < end ==> !(#[trigger] floors[i]).at_most(limit)
}

/// Probe `k` is the first of the lowest among the probes below infinity.
pub open spec fn is_lowest(floors: Seq<Real>, k: int) -> bool {
    &&& 0 <= k < floors.len()
    &&& floors[k].less(infinity_value())
    &&& forall|i: int| 0 <= i < k ==> !(#[trigger] floors[i]).at_most(floors[k])
    &&& forall|i: int| k <= i < floors.len() ==> !(#[trigger] floors[i]).less(floors[k])
}

pub open spec fn infinity_value() -> Real {
    Real { bits: 0x7ff0_0000_0000_0000 }
}

/// Whether an escape is the right one: the first clear probe; if none is clear, the one that
/// is blocked least; if all are blocked without end, none.
pub open spec fn is_escape(floors: Seq<Real>, limit: Real, e: Escape) -> bool {
    match e {
        Escape::Gap(k) => k < floors.len() && floors[k as int].at_most(limit) && all_blocked(
            floors,
            limit,
            k as int,
        ),
        Escape::Least(k) => all_blocked(floors, limit, floors.len() as int) && is_lowest(
            floors,
            k as int,
        ),
        Escape::Nowhere => all_blocked(floors, limit, floors.len() as int) && forall|i: int|
            0 <= i < floors.len() ==> !(#[trigger] floors[i]).less(infinity_value()),
    }
}

/// There is one right escape at most.
pub proof fn escape_is_unique(floors: Seq<Real>, limit: Real, a: Escape, b: Escape)
    requires
        is_escape(floors, limit, a),
        is_escape(floors, limit, b),
    ensures
        a == b,
{
    match (a, b) {
        (Escape::Gap(j), Escape::Gap(k)) => {
            assert(j < k ==> !floors[j as int].at_most(limit));
            assert(k < j ==> !floors[k as int].at_most(limit));
        },
        (Escape::Least(j), Escape::Least(k)) => {
            if j < k {
                assert(!floors[j as int].at_most(floors[k as int]));
                assert(!floors[k as int].less(floors[j as int]));
            } else if k < j {
                assert(!floors[k as int].at_most(floors[j as int]));
                assert(!floors[j as int].less(floors[k as int]));
            }
        },
        (Escape::Gap(j), _) => {
            assert(floors[j as int].at_most(limit));
        },
        (_, Escape::Gap(k)) => {
            assert(floors[k as int].at_most(limit));
        },
        (Escape::Least(j), _) => {
            assert(floors[j as int].less(infinity_value()));
        },
        (_, Escape::Least(k)) => {
            assert(floors[k as int].less(infinity_value()));
        },
        _ => {},
    }
}

/// Finds the heading to escape by. `floors` are the floors of the probed corridors,
/// from the route outwards; a corridor is clear if its floor is at or below `limit`.
pub fn choose_escape(floors: &Vec<Real>, limit: Real) -> (r: Escape)
    ensures
        is_escape(floors@, limit, r),
{
    let mut best: Option<usize> = None;
    let mut best_floor = Real::from_bits(0x7ff0_0000_0000_0000);
    let mut i: usize = 0;
    while i < floors.len()
        invariant
            i <= floors.len(),
            all_blocked(floors@, limit, i as int),
            best_floor.is_number(),
            best is None ==> best_floor == infinity_value(),
            best matches Some(k) ==> k < i && floors@[k as int] == best_floor && best_floor.less(
                infinity_value(),
            ) && forall|j: int| 0 <= j < k ==> !(#[trigger] floors@[j]).at_most(best_floor),
            forall|j: int| 0 <= j < i ==> !(#[trigger] floors@[j]).less(best_floor),
        decreases floors.len() - i,
    {
        let f = floors[i];
        if f.le(limit) {
            return Escape::Gap(i);
        }
        if f.lt(best_floor) {
            best_floor = f;
            best = Some(i);
        }
        i = i + 1;
    }
    match best {
        Some(k) => Escape::Least(k),
        None => Escape::Nowhere,
    }
}

/// An altitude on its way to a target: no further than `raised` on the way up, no
/// further than `lowered` on the way down.
pub open spec fn limited_step(cur: Real, target: Real, raised: Real, lowered: Real) -> Real {
    if cur.less(target) {
        raised.smaller(target)
    } else {
        lowered.larger(target)
    }
}

/// Moves an altitude towards a target.
pub fn rate_limit(cur: Real, target: Real, raised: Real, lowered: Real) -> (r: Real)
    ensures
        r == limited_step(cur, target, raised, lowered),
{
    if cur.lt(target) {
        raised.min(target)
    } else {
        lowered.max(target)
    }
}

/// A rate-limited altitude never overshoots its target and never moves faster than
/// allowed.
pub proof fn rate_limit_does_not_overshoot(cur: Real, target: Real, raised: Real, lowered: Real)
    requires
        cur.is_number(),
        target.is_number(),
        cur.at_most(raised),
        lowered.at_most(cur),
    ensures
        cur.less(target) ==> cur.at_most(limited_step(cur, target, raised, lowered))
            && limited_step(cur, target, raised, lowered).at_most(target) && limited_step(
            cur,
            target,
            raised,
            lowered,
        ).at_most(raised),
        target.at_most(cur) ==> target.at_most(limited_step(cur, target, raised, lowered))
            && limited_step(cur, target, raised, lowered).at_most(cur) && lowered.at_most(
            limited_step(cur, target, raised, lowered),
        ),
{
}

/// What a [`TerrainAvoid`] stands for.
pub struct AvoidState {
    pub config: TerrainAvoidConfig,
    /// The altitude commanded last.
    pub command: Option<Real>,
    /// The side that a turn is committed to.
    pub turn: Option<Side>,
    /// Whether the layer is at work.
    pub warn: bool,
}

impl AvoidState {
    /// Whether the route runs into terrain that cannot be climbed over.
    pub open spec fn blocked(self, route_floor: Real, limit: Real) -> bool {
        self.config.lateral && limit.less(route_floor)
    }

    /// The side to turn to: the one committed to, else the one with the lower floor.
    pub open spec fn side(self, left: Real, right: Real) -> Side {
        match self.turn {
            Some(s) => s,
            None => if right.at_most(left) {
                Side::Right
            } else {
                Side::Left
            },
        }
    }

    /// Whether the layer has nothing sensible to do: within a metre of the core.
    pub open spec fn passes(s: Survey) -> bool {
        s.rho.less(Real::one_value())
    }

    /// Whether there is a heading to look down: more than a metre per second over ground.
    pub open spec fn looks_ahead(s: Survey) -> bool {
        Real::one_value().less(s.speed)
    }

    /// The lowest altitude that clears the terrain.
    pub open spec fn floor(s: Survey) -> Real {
        if Self::looks_ahead(s) {
            s.track_floor
        } else {
            s.here_floor
        }
    }

    /// The side to turn away to, if the route is blocked.
    pub open spec fn turning(self, s: Survey) -> Option<Side> {
        if Self::looks_ahead(s) && self.blocked(s.route_floor, s.limit) {
            Some(self.side(s.left_floor, s.right_floor))
        } else {
            None
        }
    }

    /// The side committed to afterwards. A clear route lets go of it; without a heading to
    /// look down it is kept.
    pub open spec fn turn_after(self, s: Survey) -> Option<Side> {
        if Self::looks_ahead(s) && self.config.lateral {
            self.turning(s)
        } else {
            self.turn
        }
    }

    /// Whether the layer is at work: turning, climbing for terrain ahead, or pulling up.
    pub open spec fn warns(self, s: Survey) -> bool {
        self.turning(s) is Some || (Self::looks_ahead(s) && s.calm_alt.less(Self::floor(s)))
            || s.agl.less(self.config.hard_min_agl)
    }

    /// The altitude to head for.
    pub open spec fn target(self, route_alt: Real, s: Survey) -> Real {
        let t = route_alt.larger(Self::floor(s));
        if s.agl.less(self.config.hard_min_agl) {
            t.larger(s.pull_up)
        } else {
            t
        }
    }

    /// The altitude commanded last, or the route's at the start.
    pub open spec fn current(self, route_alt: Real) -> Real {
        match self.command {
            Some(c) => c,
            None => route_alt,
        }
    }

    /// The altitude to command.
    pub open spec fn commanded(self, route_alt: Real, s: Survey) -> Real {
        limited_step(self.current(route_alt), self.target(route_alt, s), s.raised, s.lowered)
    }

    /// The state after a setpoint was rewritten.
    pub open spec fn after(self, route_alt: Real, s: Survey) -> AvoidState {
        if Self::passes(s) {
            self
        } else {
            AvoidState {
                command: Some(self.commanded(route_alt, s)),
                turn: self.turn_after(s),
                warn: self.warns(s),
                ..self
            }
        }
    }

    /// The rewritten setpoint. `escape` is the course to turn away by.
    pub open spec fn rewritten(
        self,
        sp: FixedWingSetpoint,
        s: Survey,
        escape: Real,
    ) -> FixedWingSetpoint {
        if Self::passes(s) {
            sp
        } else {
            FixedWingSetpoint {
                airspeed: sp.airspeed,
                altitude: self.commanded(sp.altitude, s),
                course: if self.turning(s) is Some {
                    escape
                } else {
                    sp.course
                },
            }
        }
    }
}

/// The layer that keeps clear of the ground.
#[derive(Clone, Copy, Debug)]
pub struct TerrainAvoid {
    cfg: TerrainAvoidConfig,
    cmd_alt: Option<Real>,
    turn_dir: Option<Side>,
    warn: bool,
}

impl View for TerrainAvoid {
    type V = AvoidState;

    closed spec fn view(&self) -> AvoidState {
        AvoidState {
            config: self.cfg,
            command: self.cmd_alt,
            turn: self.turn_dir,
            warn: self.warn,
        }
    }
}

impl TerrainAvoid {
    pub fn new(cfg: TerrainAvoidConfig) -> (r: TerrainAvoid)
        ensures
            r@ == (AvoidState { config: cfg, command: None, turn: None, warn: false }),
    {
        TerrainAvoid { cfg, cmd_alt: None, turn_dir: None, warn: false }
    }

    pub fn config(&self) -> (r: TerrainAvoidConfig)
        ensures
            r == self@.config,
    {
        self.cfg
    }

    /// Whether the layer is at work.
    pub fn warn(&self) -> (r: bool)
        ensures
            r == self@.warn,
    {
        self.warn
    }

    /// Forgets the last command and any turn.
    pub fn reset(&mut self)
        ensures
            final(self)@ == (AvoidState {
                config: old(self)@.config,
                command: None,
                turn: None,
                warn: false,
            }),
    {
        self.cmd_alt = None;
        self.turn_dir = None;
        self.warn = false;
    }

    /// The altitude that the next command starts from.
    pub fn current(&self, route_alt: Real) -> (r: Real)
        ensures
            r == self@.current(route_alt),
    {
        match self.cmd_alt {
            Some(c) => c,
            None => route_alt,
        }
    }

    /// The fastest climb to command, from the gradient times the ground speed: no
    /// faster than configured, no slower than half a metre per second.
    pub fn climb_rate(&self, wanted: Real) -> (r: Real)
        ensures
            r == wanted.smaller(self@.config.climb_rate_max).larger(
                Real { bits: 0x3fe0_0000_0000_0000 },
            ),
    {
        wanted.min(self.cfg.climb_rate_max).max(Real::from_bits(0x3fe0_0000_0000_0000))
    }

    /// Whether the sides have to be probed before [`TerrainAvoid::steer`] is called.
    pub fn wants_sides(&self, route_floor: Real, limit: Real) -> (r: bool)
        ensures
            r == (self@.blocked(route_floor, limit) && self@.turn is None),
    {
        self.cfg.lateral && limit.lt(route_floor) && self.turn_dir.is_none()
    }

    /// Commits to a side if the route is blocked, and lets go of it once the route is
    /// clear. `route_floor` is the floor along the route, `limit` the altitude that a
    /// clear route stays below, `left` and `right` are the floors to the sides.
    pub fn steer(&mut self, route_floor: Real, limit: Real, left: Real, right: Real) -> (r: Option<
        Side,
    >)
        ensures
            final(self)@ == (AvoidState {
                turn: if !old(self)@.config.lateral {
                    old(self)@.turn
                } else if old(self)@.blocked(route_floor, limit) {
                    Some(old(self)@.side(left, right))
                } else {
                    None
                },
                ..old(self)@
            }),
            r == (if old(self)@.blocked(route_floor, limit) {
                Some(old(self)@.side(left, right))
            } else {
                None
            }),
    {
        if !self.cfg.lateral {
            return None;
        }
        if limit.lt(route_floor) {
            let side = match self.turn_dir {
                Some(s) => s,
                None => if right.le(left) {
                    Side::Right
                } else {
                    Side::Left
                },
            };
            self.turn_dir = Some(side);
            Some(side)
        } else {
            self.turn_dir = None;
            None
        }
    }

    /// Whether the terrain ahead has to be scanned, at this distance from the core and speed
    /// over ground.
    pub fn looks_ahead(rho: Real, speed: Real) -> (r: bool)
        ensures
            r == (!rho.less(Real::one_value()) && Real::one_value().less(speed)),
    {
        !rho.lt(Real::one()) && Real::one().lt(speed)
    }

    /// The side that the fan has to be scanned on before [`TerrainAvoid::adjust`] is called,
    /// if the route is blocked.
    pub fn turning(&self, s: &Survey) -> (r: Option<Side>)
        ensures
            r == self@.turning(*s),
    {
        if Real::one().lt(s.speed) && self.cfg.lateral && s.limit.lt(s.route_floor) {
            match self.turn_dir {
                Some(side) => Some(side),
                None => if s.right_floor.le(s.left_floor) {
                    Some(Side::Right)
                } else {
                    Some(Side::Left)
                },
            }
        } else {
            None
        }
    }

    /// Rewrites a setpoint to keep clear of the ground. Within a metre of the core it passes
    /// through. The fan counts only where the route is blocked: a probe is clear if its floor
    /// is no higher than the aircraft. The airspeed is left alone.
    pub fn adjust(&mut self, sp: FixedWingSetpoint, s: &Survey, fan: &Fan) -> (r: FixedWingSetpoint)
        requires
            fan.wf(),
        ensures
            final(self)@ == old(self)@.after(sp.altitude, *s),
            exists|e: Escape| #[trigger]
                is_escape(fan.floors@, s.alt, e) && r == old(self)@.rewritten(
                    sp,
                    *s,
                    fan.course(e),
                ),
    {
        let e = choose_escape(&fan.floors, s.alt);
        let escape = match e {
            Escape::Gap(k) => fan.courses[k],
            Escape::Least(k) => fan.courses[k],
            Escape::Nowhere => fan.firm,
        };
        if s.rho.lt(Real::one()) {
            return sp;
        }
        let looked = Real::one().lt(s.speed);
        let turning = if looked {
            self.steer(s.route_floor, s.limit, s.left_floor, s.right_floor)
        } else {
            None
        };
        let floor = if looked {
            s.track_floor
        } else {
            s.here_floor
        };
        let mut warn: bool = turning.is_some() || (looked && s.calm_alt.lt(floor));
        let mut target = sp.altitude.max(floor);
        if s.agl.lt(self.cfg.hard_min_agl) {
            target = target.max(s.pull_up);
            warn = true;
        }
        let altitude = rate_limit(self.current(sp.altitude), target, s.raised, s.lowered);
        self.cmd_alt = Some(altitude);
        self.warn = warn;
        let course = match turning {
            Some(_) => escape,
            None => sp.course,
        };
        FixedWingSetpoint { airspeed: sp.airspeed, altitude, course }
    }
}

/// What a rewritten setpoint keeps to: the airspeed is never touched, the course only where
/// the layer may turn, has a heading to look down and warns; too close to the ground it
/// warns; and within a metre of the core nothing happens.
pub proof fn adjusting_keeps_its_word(
    a: AvoidState,
    sp: FixedWingSetpoint,
    s: Survey,
    escape: Real,
)
    ensures
        a.rewritten(sp, s, escape).airspeed == sp.airspeed,
        !a.config.lateral || s.speed.at_most(Real::one_value()) ==> a.rewritten(
            sp,
            s,
            escape,
        ).course == sp.course,
        a.rewritten(sp, s, escape).course != sp.course ==> a.after(sp.altitude, s).warn,
        s.agl.less(a.config.hard_min_agl) && !AvoidState::passes(s) ==> a.after(
            sp.altitude,
            s,
        ).warn,
        AvoidState::passes(s) ==> a.rewritten(sp, s, escape) == sp && a.after(sp.altitude, s) == a,
{
}

/// The altitude headed for is never below the route's, never below the floor, and
/// after a pull-up never below that.
pub proof fn target_clears_terrain(a: AvoidState, route_alt: Real, s: Survey)
    requires
        route_alt.is_number(),
        AvoidState::floor(s).is_number(),
        s.pull_up.is_number(),
    ensures
        route_alt.at_most(a.target(route_alt, s)),
        AvoidState::floor(s).at_most(a.target(route_alt, s)),
        s.agl.less(a.config.hard_min_agl) ==> s.pull_up.at_most(a.target(route_alt, s)),
{
}

/// From one call to the next the commanded altitude climbs no further than `raised` and sinks
/// no further than `lowered`, and once it is no lower than what the route asks for it is never
/// commanded below that. `earlier` and `s` are the surveys of the two calls.
pub proof fn command_is_rate_limited(
    a: AvoidState,
    before: FixedWingSetpoint,
    earlier: Survey,
    sp: FixedWingSetpoint,
    s: Survey,
    turns: (Real, Real),
)
    requires
        !AvoidState::passes(earlier),
        !AvoidState::passes(s),
        sp.altitude.is_number(),
        AvoidState::floor(s).is_number(),
        s.pull_up.is_number(),
        ({
            let cur = a.rewritten(before, earlier, turns.0).altitude;
            s.lowered.at_most(cur) && cur.at_most(s.raised)
        }),
    ensures
        ({
            let cur = a.rewritten(before, earlier, turns.0).altitude;
            let then = a.after(before.altitude, earlier).rewritten(sp, s, turns.1).altitude;
            &&& s.lowered.at_most(then)
            &&& then.at_most(s.raised)
            &&& sp.altitude.at_most(cur) ==> sp.altitude.at_most(then)
        }),
{
    let b = a.after(before.altitude, earlier);
    let cur = a.rewritten(before, earlier, turns.0).altitude;
    assert(b.current(sp.altitude) == cur);
    target_clears_terrain(b, sp.altitude, s);
    rate_limit_does_not_overshoot(cur, b.target(sp.altitude, s), s.raised, s.lowered);
}

/// Once committed, a turn keeps its side for as long as the route is blocked,
/// whatever the sides look like.
pub proof fn turn_keeps_its_side(a: AvoidState, left: Real, right: Real, side: Side)
    requires
        a.turn == Some(side),
    ensures
        a.side(left, right) == side,
{
}

/// The way out that is flown is clear wherever a clear one was probed.
pub proof fn escape_is_clear_if_any_is(floors: Seq<Real>, limit: Real, e: Escape, i: int)
    requires
        is_escape(floors, limit, e),
        0 <= i < floors.len(),
        floors[i].at_most(limit),
    ensures
        e matches Escape::Gap(k) && k <= i && floors[k as int].at_most(limit),
{
}

/// The altitude headed for clears the terrain on the way that is flown: where the aircraft
/// moves over ground, that along its track, however clear the route may be; where it does not,
/// that below it. It is the highest of what the route, the terrain and a pull-up ask for.
pub proof fn target_clears_the_track(a: AvoidState, route_alt: Real, s: Survey)
    requires
        route_alt.is_number(),
        s.track_floor.is_number(),
        s.here_floor.is_number(),
        s.pull_up.is_number(),
    ensures
        ({
            let moving = Real::one_value().less(s.speed);
            let low = s.agl.less(a.config.hard_min_agl);
            let need = if moving {
                s.track_floor
            } else {
                s.here_floor
            };
            let t = a.target(route_alt, s);
            &&& moving ==> s.track_floor.at_most(t)
            &&& !moving ==> s.here_floor.at_most(t)
            &&& route_alt.at_most(t)
            &&& low ==> s.pull_up.at_most(t)
            &&& t == route_alt || t == need || (low && t == s.pull_up)
        }),
{
}

/// The layer warns exactly if it has something to do: the terrain along the track rises above
/// the altitude, the route is blocked and it turns away, or the ground is too close.
pub proof fn warning_has_a_reason(a: AvoidState, route_alt: Real, s: Survey)
    requires
        !s.rho.less(Real::one_value()),
    ensures
        ({
            let moving = Real::one_value().less(s.speed);
            let rising = moving && s.calm_alt.less(s.track_floor);
            let blocked = moving && a.config.lateral && s.limit.less(s.route_floor);
            let low = s.agl.less(a.config.hard_min_agl);
            a.after(route_alt, s).warn <==> rising || blocked || low
        }),
{
}

/// The layer turns away exactly if it may, looks ahead and the route is blocked: to the side
/// that it is committed to, else to the one with the lower floor, and to the right if both are
/// alike. It stays committed while the route is blocked and lets go once it is clear.
pub proof fn turn_goes_to_the_open_side(a: AvoidState, route_alt: Real, s: Survey)
    requires
        !s.rho.less(Real::one_value()),
    ensures
        ({
            let moving = Real::one_value().less(s.speed);
            let blocked = moving && a.config.lateral && s.limit.less(s.route_floor);
            let turn = a.after(route_alt, s).turn;
            &&& a.turning(s) is Some <==> blocked
            &&& blocked ==> turn is Some && turn == a.turning(s)
            &&& blocked && a.turn is Some ==> turn == a.turn
            &&& blocked && a.turn is None && s.left_floor.less(s.right_floor) ==> turn == Some(
                Side::Left,
            )
            &&& blocked && a.turn is None && s.right_floor.at_most(s.left_floor) ==> turn == Some(
                Side::Right,
            )
            &&& moving && a.config.lateral && !blocked ==> turn is None
            &&& !moving || !a.config.lateral ==> turn == a.turn
        }),
{
}

/// The course that is flown is the escape's where the layer turns away, and the route's
/// everywhere else.
pub proof fn course_is_rewritten_only_to_escape(
    a: AvoidState,
    sp: FixedWingSetpoint,
    s: Survey,
    escape: Real,
)
    ensures
        ({
            let blocked = !s.rho.less(Real::one_value()) && Real::one_value().less(s.speed)
                && a.config.lateral && s.limit.less(s.route_floor);
            &&& blocked ==> a.rewritten(sp, s, escape).course == escape
            &&& !blocked ==> a.rewritten(sp, s, escape).course == sp.course
        }),
{
}

/// The commanded altitude moves from the last command, or from the route's at the start,
/// towards the altitude headed for, is what is remembered, and reaches it as soon as the rates
/// allow.
pub proof fn command_moves_towards_the_target(
    a: AvoidState,
    sp: FixedWingSetpoint,
    s: Survey,
    escape: Real,
)
    requires
        !s.rho.less(Real::one_value()),
        a.target(sp.altitude, s).is_number(),
    ensures
        ({
            let cur = match a.command {
                Some(c) => c,
                None => sp.altitude,
            };
            let target = a.target(sp.altitude, s);
            let r = a.rewritten(sp, s, escape).altitude;
            &&& a.after(sp.altitude, s).command == Some(r)
            &&& cur.less(target) && s.raised.less(target) ==> r == s.raised
            &&& cur.less(target) && target.at_most(s.raised) ==> r.same(target)
            &&& target.at_most(cur) && target.less(s.lowered) ==> r == s.lowered
            &&& target.at_most(cur) && s.lowered.at_most(target) ==> r.same(target)
            &&& a.after(sp.altitude, s).config == a.config
        }),
{
}

/// The course of an escape is the one that was probed there; without one a firm turn is flown.
pub proof fn escape_flies_what_was_probed(fan: Fan, k: usize)
    ensures
        fan.course(Escape::Gap(k)) == fan.courses@[k as int],
        fan.course(Escape::Least(k)) == fan.courses@[k as int],
        fan.course(Escape::Nowhere) == fan.firm,
{
}

/// Where no probe is clear the escape is the one that is blocked least: no other has a lower
/// floor, and none nearer to the route has the same. Only where every probe is blocked without
/// end is there none.
pub proof fn blocked_least_is_lowest(floors: Seq<Real>, limit: Real, e: Escape, i: int)
    requires
        is_escape(floors, limit, e),
        0 <= i < floors.len(),
        forall|j: int| 0 <= j < floors.len() ==> !(#[trigger] floors[j]).at_most(limit),
    ensures
        !(e is Gap),
        e matches Escape::Least(k) ==> k < floors.len() && !floors[i].less(floors[k as int]) && (i
            < k ==> !floors[i].at_most(floors[k as int])),
        floors[i].less(Real { bits: 0x7ff0_0000_0000_0000 }) ==> e is Least,
{
}

/// A step up goes no further than `raised`, a step down no further than `lowered`.
pub proof fn step_is_the_nearer_of_two(cur: Real, target: Real, raised: Real, lowered: Real)
    requires
        cur.is_number(),
        target.is_number(),
        raised.is_number(),
        lowered.is_number(),
    ensures
        ({
            let r = limited_step(cur, target, raised, lowered);
            &&& cur.less(target) ==> (r == raised || r == target) && r.at_most(raised) && r.at_most(
                target,
            )
            &&& target.at_most(cur) ==> (r == lowered || r == target) && lowered.at_most(r)
                && target.at_most(r)
        }),
{
}

/// A clear probe means a gap to fly through: the right escape is the first one that is clear.
pub proof fn first_clear_probe_is_taken(floors: Seq<Real>, limit: Real, e: Escape, i: int)
    requires
        is_escape(floors, limit, e),
        0 <= i < floors.len(),
        floors[i].at_most(limit),
    ensures
        e matches Escape::Gap(k) && k <= i && floors[k as int].at_most(limit),
{
}

/// Whatever the probes found, one escape is right.
pub proof fn some_escape_is_right(floors: Seq<Real>, limit: Real) -> (e: Escape)
    requires
        floors.len() <= usize::MAX,
    ensures
        is_escape(floors, limit, e),
    decreases floors.len(),
{
    if floors.len() == 0 {
        Escape::Nowhere
    } else {
        let n = floors.len() - 1;
        let init = floors.drop_last();
        let e = some_escape_is_right(init, limit);
        assert forall|a: int| 0 <= a < n implies init[a] == floors[a] by {}
        match e {
            Escape::Gap(k) => {
                assert forall|a: int| 0 <= a < k implies !(#[trigger] floors[a]).at_most(limit) by {
                    assert(init[a] == floors[a]);
                }
                e
            },
            _ => {
                assert forall|a: int| 0 <= a < n implies !(#[trigger] floors[a]).at_most(limit) by {
                    assert(init[a] == floors[a]);
                }
                if floors[n].at_most(limit) {
                    Escape::Gap(n as usize)
                } else if let Escape::Least(k) = e {
                    if floors[n].less(floors[k as int]) {
                        assert forall|a: int| 0 <= a < n implies !(#[trigger] floors[a]).at_most(
                            floors[n],
                        ) by {
                            assert(init[a] == floors[a]);
                        }
                        Escape::Least(n as usize)
                    } else {
                        assert forall|a: int| 0 <= a < k implies !(#[trigger] floors[a]).at_most(
                            floors[k as int],
                        ) by {
                            assert(init[a] == floors[a]);
                        }
                        assert forall|a: int| k <= a < floors.len() implies !(
                        #[trigger] floors[a]).less(floors[k as int]) by {
                            if a < n {
                                assert(init[a] == floors[a]);
                            }
                        }
                        e
                    }
                } else {
                    assert forall|a: int| 0 <= a < n implies !(#[trigger] floors[a]).less(
                        infinity_value(),
                    ) by {
                        assert(init[a] == floors[a]);
                    }
                    if floors[n].less(infinity_value()) {
                        Escape::Least(n as usize)
                    } else {
                        Escape::Nowhere
                    }
                }
            },
        }
    }
}

} // verus!
