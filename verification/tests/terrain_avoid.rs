use nalgebra::Vector3;
use pilotrs::fw_guidance::FixedWingSetpoint;
use pilotrs::number::Real;
use pilotrs::terrain_avoid::{
    choose_escape, corridor_floor, rate_limit, Escape, Fan, Side, Survey, TerrainAvoid,
    TerrainAvoidConfig,
};

type Vec3 = Vector3<f64>;

const PLANET_RADIUS: f64 = 6371.0;
const LATERAL_HYST: f64 = 5.0;
const PI: f64 = core::f64::consts::PI;

fn r(x: f64) -> Real {
    Real::from_bits(x.to_bits())
}

fn f(x: Real) -> f64 {
    f64::from_bits(x.to_bits())
}

fn geodetic_to_pci(lat: f64, lon: f64, alt: f64) -> Vec3 {
    Vec3::new(lat.cos() * lon.cos(), lat.cos() * lon.sin(), lat.sin()) * (PLANET_RADIUS + alt)
}

fn north_east(p: Vec3) -> (Vec3, Vec3) {
    let up = p.normalize();
    let east = Vec3::z().cross(&up).normalize();
    (up.cross(&east), east)
}

fn wrap_pi(x: f64) -> f64 {
    x.sin().atan2(x.cos())
}

/// A hill on a plain; a peak of 0 leaves the plain.
#[derive(Clone, Copy)]
struct Hill {
    center: Vec3,
    peak: f64,
    sigma: f64,
    base: f64,
}

impl Hill {
    fn elevation(&self, dir: Vec3) -> f64 {
        let c = dir.normalize().dot(&self.center.normalize()).clamp(-1.0, 1.0);
        let arc = c.acos() * PLANET_RADIUS;
        self.base + self.peak * (-(arc * arc) / (2.0 * self.sigma * self.sigma)).exp()
    }
}

fn flat(base: f64) -> Hill {
    Hill { center: Vec3::x(), peak: 0.0, sigma: 1.0, base }
}

#[derive(Clone, Copy)]
struct Craft {
    position: Vec3,
    velocity: Vec3,
}

fn state_at(lat: f64, lon: f64, alt: f64, course: f64, speed: f64) -> Craft {
    let position = geodetic_to_pci(lat, lon, alt);
    let (n, e) = north_east(position);
    Craft { position, velocity: (n * course.cos() + e * course.sin()) * speed }
}

/// The floor of the corridor that leaves on a course.
fn scan(c: &TerrainAvoidConfig, t: &Hill, p: Vec3, course: f64, d_max: f64) -> f64 {
    let phat = p.normalize();
    let (n, e) = north_east(p);
    let dir = n * course.cos() + e * course.sin();
    let mut needs = Vec::new();
    let mut d = f(c.scan_step);
    while d <= d_max + 1e-6 {
        let a = d / PLANET_RADIUS;
        let at = phat * a.cos() + dir * a.sin();
        needs.push(r(t.elevation(at) + f(c.clearance) - f(c.max_climb_gradient) * d));
        d += f(c.scan_step);
    }
    f(corridor_floor(r(t.elevation(phat) + f(c.clearance)), &needs))
}

/// Scans the terrain and has the setpoint rewritten.
fn adjust(
    ta: &mut TerrainAvoid,
    s: &Craft,
    sp: FixedWingSetpoint,
    t: &Hill,
    dt: f64,
) -> FixedWingSetpoint {
    let c = ta.config();
    let p = s.position;
    let phat = p.normalize();
    let alt = p.norm() - PLANET_RADIUS;
    let ground = t.elevation(phat);
    let along = s.velocity - phat * s.velocity.dot(&phat);
    let v = along.norm();
    let cur = f(ta.current(sp.altitude));
    let climb = f(ta.climb_rate(r(f(c.max_climb_gradient) * v)));
    let floor = r(ground + f(c.clearance));
    let mut survey = Survey {
        rho: r(p.norm()),
        speed: r(v),
        alt: r(alt),
        agl: r(alt - ground),
        here_floor: floor,
        track_floor: floor,
        route_floor: floor,
        left_floor: floor,
        right_floor: floor,
        limit: r(alt + LATERAL_HYST),
        calm_alt: r(alt + 1.0),
        pull_up: r(alt + f(c.clearance)),
        raised: r(cur + climb * dt),
        lowered: r(cur - f(c.descent_rate) * dt),
    };
    let route = f(sp.course);
    let mut fan = Fan { courses: Vec::new(), floors: Vec::new(), firm: sp.course };
    if TerrainAvoid::looks_ahead(survey.rho, survey.speed) {
        let (north, east) = north_east(p);
        let track = along.dot(&east).atan2(along.dot(&north));
        let d_max = f(c.lookahead_min).max(f(c.lookahead_time) * v);
        let probe = |course: f64| r(scan(&c, t, p, course, d_max));
        survey.track_floor = probe(track);
        survey.route_floor = probe(route);
        survey.left_floor = probe(track - f(c.fan_angle));
        survey.right_floor = probe(track + f(c.fan_angle));
        if let Some(side) = ta.turning(&survey) {
            let dir = if side == Side::Right { 1.0 } else { -1.0 };
            let step = (f(c.fan_angle) * 0.5).max(0.1);
            let mut a = step;
            while a <= PI {
                fan.courses.push(r(wrap_pi(route + dir * a)));
                fan.floors.push(probe(route + dir * a));
                a += step;
            }
            fan.firm = r(wrap_pi(route + dir * f(c.turn_max)));
        }
    }
    ta.adjust(sp, &survey, &fan)
}

fn sp(alt: f64, course: f64) -> FixedWingSetpoint {
    FixedWingSetpoint { airspeed: r(25.0), altitude: r(alt), course: r(course) }
}

fn cfg() -> TerrainAvoidConfig {
    TerrainAvoidConfig::default()
}

#[test]
fn flat_terrain_passes_through() {
    let mut ta = TerrainAvoid::new(cfg());
    let s = state_at(0.0, 0.0, 300.0, 0.0, 25.0);
    let out = adjust(&mut ta, &s, sp(300.0, 0.0), &flat(-5.0), 0.01);
    assert!((f(out.altitude) - 300.0).abs() < 1e-6, "alt drifted: {}", f(out.altitude));
    assert!((f(out.course) - 0.0).abs() < 1e-9, "course drifted: {}", f(out.course));
    assert!(!ta.warn());
}

#[test]
fn floor_raises_setpoint_over_hill() {
    let mut c = cfg();
    c.lateral = false;
    let mut ta = TerrainAvoid::new(c);
    let center = geodetic_to_pci(400.0 / PLANET_RADIUS, 0.0, 0.0);
    let hill = Hill { center, peak: 150.0, sigma: 150.0, base: -5.0 };
    let s = state_at(0.0, 0.0, 100.0, 0.0, 25.0);
    let mut out = sp(100.0, 0.0);
    for _ in 0..2000 {
        out = adjust(&mut ta, &s, sp(100.0, 0.0), &hill, 0.01);
    }
    assert!(f(out.altitude) > 120.0, "should climb for the hill: {}", f(out.altitude));
    assert!(ta.warn(), "should flag a terrain warning");
}

#[test]
fn command_is_rate_limited() {
    let mut ta = TerrainAvoid::new(cfg());
    let center = geodetic_to_pci(300.0 / PLANET_RADIUS, 0.0, 0.0);
    let wall = Hill { center, peak: 600.0, sigma: 120.0, base: -5.0 };
    let s = state_at(0.0, 0.0, 100.0, 0.0, 25.0);
    let dt = 0.01;
    let max_step = f(cfg().max_climb_gradient) * 25.0 * dt + 1e-9;
    let mut prev = f(adjust(&mut ta, &s, sp(100.0, 0.0), &wall, dt).altitude);
    for _ in 0..100 {
        let now = f(adjust(&mut ta, &s, sp(100.0, 0.0), &wall, dt).altitude);
        assert!(now - prev <= max_step, "altitude jumped {} > {} per gate", now - prev, max_step);
        prev = now;
    }
}

#[test]
fn gpws_forces_climb_when_low() {
    let mut ta = TerrainAvoid::new(cfg());
    let s = state_at(0.0, 0.0, 10.0, 0.0, 25.0);
    let out = adjust(&mut ta, &s, sp(10.0, 0.0), &flat(0.0), 0.01);
    assert!(f(out.altitude) > 10.0, "GPWS should command a climb: {}", f(out.altitude));
    assert!(ta.warn());
}

#[test]
fn lateral_steers_toward_lower_side() {
    let mut ta = TerrainAvoid::new(cfg());
    let center = geodetic_to_pci(300.0 / PLANET_RADIUS, -250.0 / PLANET_RADIUS, 0.0);
    let hill = Hill { center, peak: 800.0, sigma: 180.0, base: -5.0 };
    let s = state_at(0.0, 0.0, 100.0, 0.0, 25.0);
    let out = adjust(&mut ta, &s, sp(100.0, 0.0), &hill, 0.01);
    assert!(
        f(out.course) > 0.05,
        "should steer right (course>0) away from the left hill: {}",
        f(out.course)
    );
    assert!(ta.warn());
}

#[test]
fn terrain_avoid_is_deterministic() {
    let run = || {
        let mut ta = TerrainAvoid::new(cfg());
        let center = geodetic_to_pci(350.0 / PLANET_RADIUS, 0.0, 0.0);
        let hill = Hill { center, peak: 300.0, sigma: 150.0, base: -5.0 };
        let s = state_at(0.0, 0.0, 120.0, 0.0, 25.0);
        let mut last = sp(120.0, 0.0);
        for _ in 0..200 {
            last = adjust(&mut ta, &s, sp(120.0, 0.0), &hill, 0.01);
        }
        (last.altitude, last.course)
    };
    let a = run();
    let b = run();
    assert_eq!(a.0, b.0);
    assert_eq!(a.1, b.1);
}

#[test]
fn highest_need_is_the_floor() {
    let needs = vec![r(3.0), r(9.0), r(-1.0), r(9.0), r(f64::NAN)];
    assert_eq!(f(corridor_floor(r(5.0), &needs)), 9.0);
    assert_eq!(f(corridor_floor(r(10.0), &needs)), 10.0);
    assert_eq!(f(corridor_floor(r(5.0), &Vec::new())), 5.0);
}

#[test]
fn first_gap_or_least_blocked() {
    let floors = vec![r(9.0), r(7.0), r(8.0), r(7.0)];
    assert_eq!(choose_escape(&floors, r(8.0)), Escape::Gap(1));
    assert_eq!(choose_escape(&floors, r(7.0)), Escape::Gap(1));
    assert_eq!(choose_escape(&floors, r(6.0)), Escape::Least(1));
    assert_eq!(choose_escape(&Vec::new(), r(6.0)), Escape::Nowhere);
    let blocked = vec![r(f64::INFINITY), r(f64::NAN)];
    assert_eq!(choose_escape(&blocked, r(6.0)), Escape::Nowhere);
}

#[test]
fn altitude_moves_no_faster_than_allowed() {
    assert_eq!(f(rate_limit(r(10.0), r(20.0), r(11.0), r(9.0))), 11.0);
    assert_eq!(f(rate_limit(r(10.0), r(10.5), r(11.0), r(9.0))), 10.5);
    assert_eq!(f(rate_limit(r(10.0), r(5.0), r(11.0), r(9.0))), 9.0);
    assert_eq!(f(rate_limit(r(10.0), r(9.5), r(11.0), r(9.0))), 9.5);
    let ta = TerrainAvoid::new(cfg());
    assert_eq!(f(ta.climb_rate(r(6.25))), 6.25);
    assert_eq!(f(ta.climb_rate(r(100.0))), 8.0);
    assert_eq!(f(ta.climb_rate(r(0.0))), 0.5);
}

#[test]
fn turn_keeps_its_side_while_blocked() {
    let mut ta = TerrainAvoid::new(cfg());
    assert!(ta.wants_sides(r(200.0), r(105.0)));
    // Ties go right.
    assert_eq!(ta.steer(r(200.0), r(105.0), r(7.0), r(7.0)), Some(Side::Right));
    assert!(!ta.wants_sides(r(200.0), r(105.0)));
    assert_eq!(ta.steer(r(200.0), r(105.0), r(0.0), r(900.0)), Some(Side::Right));
    assert_eq!(ta.steer(r(105.0), r(105.0), r(0.0), r(0.0)), None);
    assert_eq!(ta.steer(r(106.0), r(105.0), r(1.0), r(2.0)), Some(Side::Left));
    ta.reset();
    assert!(ta.wants_sides(r(200.0), r(105.0)));
    let mut c = cfg();
    c.lateral = false;
    let mut ta = TerrainAvoid::new(c);
    assert_eq!(ta.steer(r(200.0), r(105.0), r(1.0), r(2.0)), None);
}

/// A flight at 100 over ground at 10 towards terrain that cannot be climbed over.
fn blocked() -> Survey {
    Survey {
        rho: r(6471.0),
        speed: r(25.0),
        alt: r(100.0),
        agl: r(90.0),
        here_floor: r(90.0),
        track_floor: r(300.0),
        route_floor: r(300.0),
        left_floor: r(200.0),
        right_floor: r(250.0),
        limit: r(105.0),
        calm_alt: r(101.0),
        pull_up: r(180.0),
        raised: r(100.1),
        lowered: r(99.9),
    }
}

fn fan(floors: &[f64]) -> Fan {
    Fan {
        courses: (0..floors.len()).map(|k| r(-0.3 * (k + 1) as f64)).collect(),
        floors: floors.iter().map(|x| r(*x)).collect(),
        firm: r(-0.8),
    }
}

#[test]
fn a_blocked_route_is_left_for_a_clear_heading() {
    let mut ta = TerrainAvoid::new(cfg());
    assert_eq!(ta.turning(&blocked()), Some(Side::Left));
    // A heading is clear if its floor is no higher than the aircraft.
    let out = ta.adjust(sp(100.0, 0.0), &blocked(), &fan(&[300.0, 104.0, 100.0]));
    assert_eq!((f(out.course), f(out.altitude), f(out.airspeed)), (-0.3 * 3.0, 100.1, 25.0));
    assert!(ta.warn());
    let out = ta.adjust(sp(100.0, 0.0), &blocked(), &fan(&[300.0, 104.0, 110.0]));
    assert_eq!(f(out.course), -0.3 * 2.0);
    let out = ta.adjust(sp(100.0, 0.0), &blocked(), &fan(&[]));
    assert_eq!(f(out.course), -0.8);
    // The turn keeps its side, and lets go of it once the route is clear.
    let right = Survey { left_floor: r(900.0), ..blocked() };
    assert_eq!(ta.turning(&right), Some(Side::Left));
    let clear = Survey { route_floor: r(105.0), ..right };
    assert_eq!(f(ta.adjust(sp(100.0, 0.7), &clear, &fan(&[])).course), 0.7);
    assert_eq!(ta.turning(&right), Some(Side::Right));
}

#[test]
fn near_the_core_nothing_is_done() {
    let mut ta = TerrainAvoid::new(cfg());
    let core = Survey { rho: r(0.5), agl: r(-6000.0), ..blocked() };
    assert!(!TerrainAvoid::looks_ahead(core.rho, core.speed));
    assert_eq!(ta.adjust(sp(100.0, 0.2), &core, &fan(&[50.0])), sp(100.0, 0.2));
    assert!(!ta.warn());
    assert_eq!(f(ta.current(r(7.0))), 7.0);
}

#[test]
fn standing_still_there_is_nothing_to_look_at() {
    let mut ta = TerrainAvoid::new(cfg());
    let still = Survey { speed: r(1.0), ..blocked() };
    assert!(!TerrainAvoid::looks_ahead(still.rho, still.speed));
    assert!(TerrainAvoid::looks_ahead(still.rho, r(1.5)));
    assert_eq!(ta.turning(&still), None);
    assert_eq!(ta.adjust(sp(100.0, 0.2), &still, &fan(&[50.0])), sp(100.0, 0.2));
    assert!(!ta.warn());
    // Too close to the ground a climb is forced all the same.
    let low = Survey { agl: r(20.0), ..still };
    assert_eq!(f(ta.adjust(sp(100.0, 0.2), &low, &fan(&[])).altitude), 100.1);
    assert!(ta.warn());
}

#[test]
fn default_tuning() {
    let c = cfg();
    let got = [
        c.clearance,
        c.lookahead_min,
        c.lookahead_time,
        c.scan_step,
        c.max_climb_gradient,
        c.climb_rate_max,
        c.descent_rate,
        c.hard_min_agl,
        c.fan_angle,
        c.turn_max,
    ];
    let want = [80.0, 500.0, 60.0, 30.0, 0.25, 8.0, 3.0, 25.0, 0.6, 0.8];
    for (g, w) in got.iter().zip(want) {
        assert_eq!(f(*g), w);
    }
    assert!(c.lateral);
}
