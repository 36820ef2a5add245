use pilotrs::minimap::{
    can_fly, is_active_leg, leg_pieces, nearest_wp, MapView, MinimapActions, Route, RouteEditor, RouteWp,
};
use pilotrs::number::Real;

fn r(x: f64) -> Real {
    Real::from_bits(x.to_bits())
}

fn wp(lat: f64, lon: f64) -> RouteWp {
    RouteWp { lat: r(lat), lon: r(lon) }
}

fn d2(values: &[f64]) -> Vec<Real> {
    values.iter().map(|x| r(*x)).collect()
}

#[test]
fn nearest_point_within_the_limit() {
    assert_eq!(nearest_wp(&d2(&[90.0, 40.0, 40.0, 100.0]), r(81.0)), Some(1));
    assert_eq!(nearest_wp(&d2(&[90.0, 82.0]), r(81.0)), None);
    assert_eq!(nearest_wp(&d2(&[81.0]), r(81.0)), Some(0));
    assert_eq!(nearest_wp(&d2(&[f64::NAN, 3.0]), r(81.0)), Some(1));
    assert_eq!(nearest_wp(&Vec::new(), r(81.0)), None);
}

#[test]
fn clicks_add_and_remove_points() {
    let mut route = Route::default();
    let ed = RouteEditor::new();
    ed.click(&mut route, &Vec::new(), r(81.0), wp(0.1, 0.2), false);
    ed.click(&mut route, &d2(&[500.0]), r(81.0), wp(0.3, 0.4), false);
    assert_eq!(route.wps, vec![wp(0.1, 0.2), wp(0.3, 0.4)]);
    // On a point: nothing is added.
    ed.click(&mut route, &d2(&[500.0, 4.0]), r(81.0), wp(0.5, 0.6), false);
    assert_eq!(route.wps.len(), 2);
    assert_eq!(ed.secondary_click(&mut route, &d2(&[500.0, 400.0]), r(81.0), false), None);
    assert_eq!(ed.secondary_click(&mut route, &d2(&[5.0, 400.0]), r(81.0), false), Some(0));
    assert_eq!(route.wps, vec![wp(0.3, 0.4)]);
}

#[test]
fn a_held_point_is_dragged() {
    let mut route = Route::default();
    route.wps = vec![wp(0.0, 0.0), wp(1.0, 1.0)];
    let mut ed = RouteEditor::new();
    ed.drag_to(&mut route, wp(9.0, 9.0), false);
    assert_eq!(route.wps, vec![wp(0.0, 0.0), wp(1.0, 1.0)]);
    ed.start_drag(&d2(&[900.0, 9.0]), r(81.0), false);
    assert_eq!(ed.dragging(), Some(1));
    ed.drag_to(&mut route, wp(2.0, 2.0), false);
    assert_eq!(route.wps, vec![wp(0.0, 0.0), wp(2.0, 2.0)]);
    ed.stop_drag();
    assert_eq!(ed.dragging(), None);
    ed.start_drag(&d2(&[900.0, 900.0]), r(81.0), false);
    assert_eq!(ed.dragging(), None);
}

#[test]
fn a_replay_leaves_the_points_alone() {
    let mut route = Route::default();
    let wps = vec![wp(0.0, 0.0), wp(1.0, 1.0)];
    route.wps = wps.clone();
    let mut ed = RouteEditor::new();
    ed.start_drag(&d2(&[900.0, 9.0]), r(81.0), false);
    ed.drag_to(&mut route, wp(5.0, 5.0), true);
    ed.click(&mut route, &d2(&[900.0, 900.0]), r(81.0), wp(2.0, 2.0), true);
    assert_eq!(ed.secondary_click(&mut route, &d2(&[900.0, 9.0]), r(81.0), true), None);
    assert_eq!(route.wps, wps);
    ed.start_drag(&d2(&[9.0, 900.0]), r(81.0), true);
    assert_eq!(ed.dragging(), Some(1));
    // The buttons still work.
    ed.remove_last(&mut route);
    assert_eq!(route.wps, wps[..1]);
}

#[test]
fn buttons_shorten_the_route() {
    let mut route = Route::default();
    route.wps = vec![wp(0.0, 0.0), wp(1.0, 1.0), wp(2.0, 2.0)];
    let mut ed = RouteEditor::new();
    ed.start_drag(&d2(&[0.0, 900.0, 900.0]), r(81.0), false);
    ed.remove_last(&mut route);
    assert_eq!(route.wps.len(), 2);
    assert_eq!(ed.dragging(), None);
    ed.clear(&mut route);
    assert!(route.wps.is_empty());
    ed.remove_last(&mut route);
    assert!(route.wps.is_empty());
}

#[test]
fn a_route_needs_a_leg() {
    let mut route = Route::default();
    assert_eq!(f64::from_bits(route.alt_up.to_bits()), 400.0);
    assert_eq!(f64::from_bits(route.cruise.to_bits()), 25.0);
    assert!(!can_fly(&route, false));
    route.wps = vec![wp(0.0, 0.0)];
    assert!(!can_fly(&route, false));
    route.wps.push(wp(1.0, 1.0));
    assert!(can_fly(&route, false));
    assert!(!can_fly(&route, true));
    assert!(is_active_leg(0, Some(1)));
    assert!(!is_active_leg(1, Some(1)));
    assert!(!is_active_leg(0, None));
    let a = MinimapActions::default();
    assert!(!a.fly && !a.clear);
}

#[test]
fn the_map_stays_on_the_world() {
    let mut v = MapView::new();
    assert_eq!(v, MapView { zoom: r(1.0), lon: r(0.0), lat: r(0.0) });
    v.set_zoom(r(40.0));
    assert_eq!(v.zoom, r(32.0));
    v.set_zoom(r(0.5));
    assert_eq!(v.zoom, r(1.0));
    v.set_zoom(r(2.0));
    v.set_center(r(3.0), r(-1.5), r(1.5), r(0.75));
    assert_eq!((v.lon, v.lat, v.zoom), (r(1.5), r(-0.75), r(2.0)));
    v.set_center(r(-0.3), r(0.2), r(1.5), r(0.75));
    assert_eq!((v.lon, v.lat), (r(-0.3), r(0.2)));
}

#[test]
fn legs_are_drawn_in_pieces() {
    assert_eq!((leg_pieces(0), leg_pieces(2), leg_pieces(77)), (2, 2, 77));
    assert_eq!((leg_pieces(256), leg_pieces(1000)), (256, 256));
}
