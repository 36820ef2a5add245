use core::f64::consts::{FRAC_PI_2, PI};
use nalgebra::Vector3;
use pilotrs::fw_guidance::{
    leg_share, Aim, FixedWingSetpoint, FwGuidance, FwGuidanceConfig, TerminalAction,
};
use pilotrs::guidance::Waypoint;
use pilotrs::messages::Vec3;
use pilotrs::number::Real;

const PLANET_RADIUS: f64 = 6371.0;

fn r(x: f64) -> Real {
    Real::from_bits(x.to_bits())
}

fn f(x: Real) -> f64 {
    f64::from_bits(x.to_bits())
}

fn na(v: Vec3) -> Vector3<f64> {
    Vector3::new(f(v.x), f(v.y), f(v.z))
}

/// A waypoint by latitude, longitude and altitude.
fn geodetic(lat: f64, lon: f64, alt: f64) -> Waypoint {
    let rho = PLANET_RADIUS + alt;
    let p = Vec3::new(
        r(rho * lat.cos() * lon.cos()),
        r(rho * lat.cos() * lon.sin()),
        r(rho * lat.sin()),
    );
    Waypoint::new(p, r(0.0))
}

fn altitude_of(p: Vec3) -> f64 {
    na(p).norm() - PLANET_RADIUS
}

fn gc_normal(a: Vec3, b: Vec3) -> Vector3<f64> {
    let c = na(a).cross(&na(b));
    if c.norm() > 1e-9 {
        c / c.norm()
    } else {
        Vector3::zeros()
    }
}

fn gc_course(p: Vec3, n: Vector3<f64>) -> f64 {
    let up = na(p).normalize();
    let north = (Vector3::z() - up * up.z).normalize();
    let east = north.cross(&up);
    let t = n.cross(&up);
    t.dot(&east).atan2(t.dot(&north))
}

fn gc_distance(a: Vec3, b: Vec3) -> f64 {
    PLANET_RADIUS * na(a).normalize().dot(&na(b).normalize()).clamp(-1.0, 1.0).acos()
}

fn wrap_pi(x: f64) -> f64 {
    x.sin().atan2(x.cos())
}

fn leg_course(c: &FwGuidanceConfig, pos: Vec3, origin: Vec3, target: Vec3) -> f64 {
    let n = gc_normal(origin, target);
    if n == Vector3::zeros() {
        let n2 = gc_normal(pos, target);
        return if n2 == Vector3::zeros() { 0.0 } else { gc_course(pos, n2) };
    }
    let off = -PLANET_RADIUS * na(pos).normalize().dot(&n).clamp(-1.0, 1.0).asin();
    gc_course(pos, n) - f(c.chi_inf) * (2.0 / PI) * (f(c.k_path) * off).atan()
}

/// Updates at a position, and finds the setpoint for what to aim at.
fn update(g: &mut FwGuidance, pos: Vec3) -> FixedWingSetpoint {
    let c = g.config();
    let d = g.target().map(|w| gc_distance(pos, w.position)).unwrap_or(0.0);
    let make = |altitude: f64, course: f64| FixedWingSetpoint {
        airspeed: c.airspeed,
        altitude: r(altitude),
        course: r(wrap_pi(course)),
    };
    match g.update(r(d)) {
        Aim::HoldStart { start } => make(altitude_of(start), 0.0),
        Aim::Leg { origin, target } => {
            let len = gc_distance(origin, target);
            let (from, to) = (altitude_of(origin), altitude_of(target));
            let alt = match leg_share(r(len), r(1.0 - gc_distance(pos, target) / len)) {
                Some(share) => from + (to - from) * f(share),
                None => to,
            };
            make(alt, leg_course(&c, pos, origin, target))
        }
        Aim::Arrive { origin, target } => {
            let sp = make(altitude_of(target), leg_course(&c, pos, origin, target));
            g.latch(sp);
            sp
        }
        Aim::Kept(sp) => sp,
        Aim::Orbit { center, radius, dir } => {
            let n = gc_normal(pos, center);
            let to = if n == Vector3::zeros() { 0.0 } else { gc_course(pos, n) };
            let off = (gc_distance(pos, center) - f(radius)) / f(radius).max(1.0);
            make(altitude_of(center), to - f(dir).signum() * (FRAC_PI_2 - off.atan()))
        }
    }
}

fn cfg() -> FwGuidanceConfig {
    FwGuidanceConfig::default()
}

#[test]
fn course_sign_on_sphere() {
    let start = geodetic(0.0, 0.0, 400.0).position;
    let wps = vec![geodetic(0.0, 0.06, 400.0)]; // due-East leg
    let mut g = FwGuidance::new(wps, start, cfg());
    let craft = geodetic(0.005, 0.03, 400.0).position;
    let sp = update(&mut g, craft);
    assert!(
        f(sp.course) > FRAC_PI_2,
        "north of an east leg should steer right (course>π/2): {}",
        f(sp.course)
    );
    assert!((f(sp.altitude) - 400.0).abs() < 1e-6);
    assert!((f(sp.airspeed) - 25.0).abs() < 1e-12);
}

#[test]
fn advances_and_latches_terminal() {
    let start = geodetic(0.0, 0.0, 400.0).position;
    let wp0 = geodetic(0.02, 0.0, 400.0);
    let wp1 = geodetic(0.02, 0.02, 400.0);
    let mut g = FwGuidance::new(vec![wp0, wp1], start, cfg());
    assert_eq!(g.current_index(), Some(0));
    // Sit at wp0 → advance to wp1.
    update(&mut g, wp0.position);
    assert_eq!(g.current_index(), Some(1));
    assert!(!g.is_complete());
    // Sit at wp1 (final) → latch HoldCourse.
    update(&mut g, wp1.position);
    assert!(g.is_complete());
    assert!(g.on_final());
}

#[test]
fn terminal_holds_a_fixed_setpoint() {
    let start = geodetic(0.0, 0.0, 300.0).position;
    let wps = vec![geodetic(0.0, 0.05, 300.0)]; // East leg
    let mut g = FwGuidance::new(wps, start, cfg());
    update(&mut g, geodetic(0.0, 0.05, 300.0).position); // capture final
    let a = update(&mut g, geodetic(0.001, 0.06, 300.0).position);
    let b = update(&mut g, geodetic(-0.002, 0.09, 300.0).position);
    assert_eq!(a, b, "terminal setpoint should be latched/constant");
    assert!((f(a.course) - FRAC_PI_2).abs() < 0.05, "should hold ~East: {}", f(a.course));
}

#[test]
fn leg_altitude_ramps_across_the_leg() {
    let start = geodetic(0.0, 0.0, 100.0).position;
    let wp = geodetic(2000.0 / PLANET_RADIUS, 0.0, 200.0); // 2 km N, climb 100→200
    let mut g = FwGuidance::new(vec![wp], start, cfg());
    // At the start of the leg: near the origin altitude (not the target's).
    let s0 = update(&mut g, start);
    assert!((f(s0.altitude) - 100.0).abs() < 5.0, "start ~100: {}", f(s0.altitude));
    // Halfway along: about midway in altitude.
    let mid = geodetic(1000.0 / PLANET_RADIUS, 0.0, 0.0).position;
    let sm = update(&mut g, mid);
    assert!((f(sm.altitude) - 150.0).abs() < 12.0, "mid ~150: {}", f(sm.altitude));
}

#[test]
fn orbit_terminal_loiters_tangent() {
    let cfg = FwGuidanceConfig {
        terminal: TerminalAction::Orbit { radius: r(150.0), dir: r(1.0) },
        ..FwGuidanceConfig::default()
    };
    let center = geodetic(500.0 / PLANET_RADIUS, 0.0, 200.0);
    let start = geodetic(0.0, 0.0, 200.0).position;
    let mut g = FwGuidance::new(vec![center], start, cfg);
    update(&mut g, center.position); // capture the final waypoint
    assert!(g.is_complete());
    // On the circle, East of the centre: tangent course, centre's altitude.
    let on = geodetic(500.0 / PLANET_RADIUS, 150.0 / PLANET_RADIUS, 200.0).position;
    let sp = update(&mut g, on);
    assert!(
        (f(sp.altitude) - 200.0).abs() < 1.0,
        "orbit holds the centre altitude: {}",
        f(sp.altitude)
    );
    let n = gc_normal(on, center.position);
    let off = wrap_pi(f(sp.course) - gc_course(on, n)).abs();
    assert!(
        (off - FRAC_PI_2).abs() < 0.25,
        "course should be ~tangent (±π/2 off the bearing to centre): {off}"
    );
    // Clockwise: east of the centre, south.
    assert!(f(sp.course).cos() < -0.9);
}

#[test]
fn empty_route_holds_start() {
    let start = geodetic(0.1, -0.2, 150.0).position;
    let mut g = FwGuidance::new(Vec::new(), start, cfg());
    assert_eq!(g.current_index(), None);
    let sp = update(&mut g, geodetic(0.1, -0.2, 160.0).position);
    assert!((f(sp.altitude) - 150.0).abs() < 1e-6);
    assert!(f(sp.course).abs() < 1e-12);
    assert!(!g.on_final() && !g.is_complete());
}

#[test]
fn first_leg_starts_where_the_route_began() {
    let start = geodetic(0.0, 0.0, 100.0).position;
    let a = geodetic(0.05, 0.0, 100.0);
    let b = geodetic(0.1, 0.0, 100.0);
    let mut g = FwGuidance::new(vec![a, b], start, cfg());
    assert_eq!(g.leg_origin(), start);
    assert_eq!(g.update(r(120.0)), Aim::Leg { origin: start, target: a.position });
    assert_eq!(g.update(r(119.9)), Aim::Leg { origin: a.position, target: b.position });
    assert_eq!(g.leg_origin(), a.position);
    assert_eq!(g.update(r(f64::NAN)), Aim::Leg { origin: a.position, target: b.position });
    assert_eq!(g.update(r(0.0)), Aim::Arrive { origin: a.position, target: b.position });
    assert!(g.arriving());
}

#[test]
fn default_route_tuning() {
    let d = cfg();
    assert_eq!(
        (f(d.airspeed), f(d.accept_radius), f(d.chi_inf), f(d.k_path)),
        (25.0, 120.0, 0.9, 0.01)
    );
    assert_eq!(d.terminal, TerminalAction::HoldCourse);
}

#[test]
fn leg_share_is_cut_off_at_the_ends() {
    assert_eq!(leg_share(r(100.0), r(0.25)), Some(r(0.25)));
    assert_eq!(leg_share(r(100.0), r(-0.5)), Some(r(0.0)));
    assert_eq!(leg_share(r(100.0), r(1.5)), Some(r(1.0)));
    assert_eq!(leg_share(r(1.0), r(0.5)), Some(r(0.5)));
    assert_eq!(leg_share(r(0.5), r(0.5)), None);
}
