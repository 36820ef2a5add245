use pilotrs::guidance::{Guidance, GuidanceConfig, GuidanceTarget, Waypoint};
use pilotrs::messages::Vec3;
use pilotrs::number::Real;

fn r(x: f64) -> Real {
    Real::from_bits(x.to_bits())
}

fn f(x: Real) -> f64 {
    f64::from_bits(x.to_bits())
}

fn v3(x: f64, y: f64, z: f64) -> Vec3 {
    Vec3::new(r(x), r(y), r(z))
}

fn distance(a: Vec3, b: Vec3) -> f64 {
    let (x, y, z) = (f(a.x) - f(b.x), f(a.y) - f(b.y), f(a.z) - f(b.z));
    (x * x + y * y + z * z).sqrt()
}

fn mission() -> Guidance {
    let wps = vec![
        Waypoint::new(v3(0.0, 0.0, -2.0), r(0.0)),
        Waypoint::new(v3(5.0, 0.0, -2.0), r(0.0)),
        Waypoint::new(v3(5.0, 5.0, -2.0), r(0.0)),
    ];
    Guidance::new(wps, GuidanceConfig::default())
}

/// Updates with the distances from a position, and finds the velocity to feed forward.
fn update(g: &mut Guidance, p: Vec3) -> (GuidanceTarget, [f64; 3]) {
    let (here, next) = g.ahead();
    let d = |wp: Option<Waypoint>| r(wp.map(|w| distance(w.position, p)).unwrap_or(0.0));
    let t = g.update(d(here), d(next));
    let ff = match t.cruise {
        Some(speed) => {
            let d = distance(t.position, p);
            let k = f(speed) / d;
            [
                (f(t.position.x) - f(p.x)) * k,
                (f(t.position.y) - f(p.y)) * k,
                (f(t.position.z) - f(p.z)) * k,
            ]
        }
        None => [0.0; 3],
    };
    (t, ff)
}

fn norm(v: [f64; 3]) -> f64 {
    (v[0] * v[0] + v[1] * v[1] + v[2] * v[2]).sqrt()
}

#[test]
fn advances_within_radius_but_not_past_last() {
    let mut g = mission();
    assert_eq!(g.current_index(), 0);
    // At wp0 -> advance to 1.
    update(&mut g, v3(0.0, 0.0, -2.0));
    assert_eq!(g.current_index(), 1);
    // At wp1 -> advance to 2 (last).
    update(&mut g, v3(5.0, 0.0, -2.0));
    assert_eq!(g.current_index(), 2);
    // At wp2 (last) -> stays.
    update(&mut g, v3(5.0, 5.0, -2.0));
    assert_eq!(g.current_index(), 2);
    assert!(g.on_final());
}

#[test]
fn feedforward_points_at_active_waypoint() {
    let mut g = mission();
    let (_, ff) = update(&mut g, v3(0.0, 0.0, -2.0)); // reaches wp0, targets wp1 (+x)
    assert_eq!(g.current_index(), 1);
    assert!(ff[0] > 0.0, "ff not toward wp1");
    assert!((norm(ff) - 3.0).abs() < 1e-9, "ff not cruise speed");
}

#[test]
fn final_hold_zeroes_feedforward() {
    let mut g = mission();
    update(&mut g, v3(0.0, 0.0, -2.0));
    update(&mut g, v3(5.0, 0.0, -2.0));
    let (t, ff) = update(&mut g, v3(5.0, 5.0, -2.0)); // at final wp
    assert!(norm(ff) < 1e-9, "ff should be zero at final hold");
    assert!(t.cruise.is_none());
}

#[test]
fn an_arrival_is_remembered() {
    let mut g = mission();
    update(&mut g, v3(0.0, 0.0, -2.0));
    update(&mut g, v3(5.0, 0.0, -2.0));
    assert!(!g.arrived());
    update(&mut g, v3(5.0, 4.7, -2.0));
    assert!(g.arrived());
    update(&mut g, v3(90.0, 0.0, 0.0));
    assert!(g.arrived());
    // The last waypoint can be reached as soon as it is active.
    let mut g = mission();
    g.update(r(0.1), r(5.0));
    g.update(r(0.1), r(0.3));
    assert_eq!((g.current_index(), g.arrived()), (2, true));
}

#[test]
fn no_waypoints_hold_the_origin() {
    let mut g = Guidance::new(Vec::new(), GuidanceConfig::default());
    assert!(g.on_final());
    assert_eq!(g.ahead(), (None, None));
    let t = g.update(r(0.0), r(0.0));
    assert_eq!(t, GuidanceTarget::hold(v3(0.0, 0.0, 0.0), r(0.0)));
    assert_eq!(g.current_index(), 0);
    assert!(!g.arrived());
}

#[test]
fn radius_itself_is_not_within() {
    let mut g = mission();
    g.update(r(0.5), r(5.0));
    assert_eq!(g.current_index(), 0);
    g.update(r(0.499), r(5.0));
    assert_eq!(g.current_index(), 1);
    g.update(r(f64::NAN), r(5.0));
    assert_eq!(g.current_index(), 1);
    // Nearer than a millionth there is no direction, also on the way.
    let mut g = Guidance::new(
        vec![Waypoint::new(v3(1.0, 0.0, 0.0), r(0.5)), Waypoint::new(v3(1.0, 0.0, 0.0), r(0.7))],
        GuidanceConfig { accept_radius: r(0.0), cruise_speed: r(2.0) },
    );
    let t = g.update(r(1e-7), r(3.0));
    assert!(t.cruise.is_none());
    assert_eq!(f(t.yaw), 0.5);
    let t = g.update(r(1e-5), r(3.0));
    assert_eq!(f(t.cruise.unwrap()), 2.0);
}

#[test]
fn waypoint_from_altitude() {
    let w = Waypoint::ne_alt(r(3.0), r(4.0), r(60.0));
    assert_eq!(w.position, v3(3.0, 4.0, -60.0));
    assert_eq!(f(w.yaw), 0.0);
    let d = GuidanceConfig::default();
    assert_eq!((f(d.accept_radius), f(d.cruise_speed)), (0.5, 3.0));
}
