//! Drawing a route on the map.
//!
//! The caller knows where things are on the screen; here it is decided what a click or
//! a drag does to the route.
use vstd::prelude::*;
use crate::number::Real;

verus! {

/// A point of a route, by latitude and longitude.
#[derive(Clone, Copy, Debug, PartialEq, Eq, Structural)]
pub struct RouteWp {
    pub lat: Real,
    pub lon: Real,
}

/// A route that is being drawn.
#[derive(Debug)]
pub struct Route {
    pub wps: Vec<RouteWp>,
    /// Altitude to fly at.
    pub alt_up: Real,
    /// Speed to fly at.
    pub cruise: Real,
}

impl Default for Route {
    /// No points, altitude 400, speed 25.
    fn default() -> (r: Route)
        ensures
            r.wps@ == Seq::<RouteWp>::empty(),
            r.alt_up.bits == 0x4079_0000_0000_0000,
            r.cruise.bits == 0x4039_0000_0000_0000,
    {
        Route {
            wps: Vec::new(),
            alt_up: Real::from_bits(0x4079_0000_0000_0000),
            cruise: Real::from_bits(0x4039_0000_0000_0000),
        }
    }
}

/// What was asked for with the buttons under the map.
#[derive(Clone, Copy, Debug, PartialEq, Eq, Structural)]
pub struct MinimapActions {
    pub fly: bool,
    pub clear: bool,
}

impl Default for MinimapActions {
    fn default() -> (r: MinimapActions)
        ensures
            r == (MinimapActions { fly: false, clear: false }),
    {
        MinimapActions { fly: false, clear: false }
    }
}

/// Whether entry `k` is the first of the smallest entries, and within the limit.
pub open spec fn is_nearest(d2: Seq<Real>, limit: Real, k: int) -> bool {
    &&& 0 <= k < d2.len()
    &&& d2[k].at_most(limit)
    &&& forall|i: int| 0 <= i < k ==> !(#[trigger] d2[i]).at_most(d2[k])
    &&& forall|i: int| k <= i < d2.len() ==> !(#[trigger] d2[i]).less(d2[k])
}

/// Which point is nearest, if one is within the limit. `d2` are the squared distances
/// of the points; of equally near points the first counts.
pub fn nearest_wp(d2: &Vec<Real>, limit: Real) -> (r: Option<usize>)
    ensures
        match r {
            Some(k) => is_nearest(d2@, limit, k as int),
            None => forall|i: int| 0 <= i < d2@.len() ==> !(#[trigger] d2@[i]).at_most(limit),
        },
{
    let mut best: Option<usize> = None;
    let mut i: usize = 0;
    while i < d2.len()
        invariant
            i <= d2.len(),
            best is None ==> forall|j: int| 0 <= j < i ==> !(#[trigger] d2@[j]).at_most(limit),
            best matches Some(k) ==> k < i && d2@[k as int].at_most(limit) && (forall|j: int|
                0 <= j < k ==> !(#[trigger] d2@[j]).at_most(d2@[k as int])) && (forall|j: int|
                k <= j < i ==> !(#[trigger] d2@[j]).less(d2@[k as int])),
        decreases d2.len() - i,
    {
        if d2[i].le(limit) {
            match best {
                None => {
                    best = Some(i);
                },
                Some(k) => if d2[i].lt(d2[k]) {
                    best = Some(i);
                },
            }
        }
        i = i + 1;
    }
    best
}

/// At most one point is the nearest.
pub proof fn nearest_is_unique(d2: Seq<Real>, limit: Real, a: int, b: int)
    requires
        is_nearest(d2, limit, a),
        is_nearest(d2, limit, b),
    ensures
        a == b,
{
    if a < b {
        assert(!d2[a].at_most(d2[b]));
        assert(!d2[b].less(d2[a]));
    } else if b < a {
        assert(!d2[b].at_most(d2[a]));
        assert(!d2[a].less(d2[b]));
    }
}

/// Whether a point lies under the pointer: one of the squared distances is within the limit.
pub open spec fn is_hit(d2: Seq<Real>, limit: Real) -> bool {
    exists|i: int| 0 <= i < d2.len() && (#[trigger] d2[i]).at_most(limit)
}

/// What is done to the points of a route.
pub enum RouteEdit {
    /// A click on the map, on a point or beside all of them.
    Click { hit: bool, at: RouteWp },
    /// The held point is dragged.
    Drag { held: Option<usize>, at: RouteWp },
    /// The point under the pointer is removed, if there is one.
    Remove { hit: Option<usize> },
    RemoveLast,
    Clear,
}

/// The points of a route after an edit. During a replay nothing is added, moved or picked
/// out; the buttons still work.
pub open spec fn edited(wps: Seq<RouteWp>, edit: RouteEdit, is_replay: bool) -> Seq<RouteWp> {
    match edit {
        RouteEdit::Click { hit, at } => if hit || is_replay {
            wps
        } else {
            wps.push(at)
        },
        RouteEdit::Drag { held: Some(k), at } => if is_replay {
            wps
        } else {
            wps.update(k as int, at)
        },
        RouteEdit::Drag { held: None, .. } => wps,
        RouteEdit::Remove { hit: Some(k) } => if is_replay {
            wps
        } else {
            wps.remove(k as int)
        },
        RouteEdit::Remove { hit: None } => wps,
        RouteEdit::RemoveLast => if wps.len() == 0 {
            wps
        } else {
            wps.drop_last()
        },
        RouteEdit::Clear => Seq::empty(),
    }
}

/// The points of a route after some edits.
pub open spec fn all_edited(
    wps: Seq<RouteWp>,
    edits: Seq<RouteEdit>,
    is_replay: bool,
) -> Seq<RouteWp>
    decreases edits.len(),
{
    if edits.len() == 0 {
        wps
    } else {
        edited(all_edited(wps, edits.drop_last(), is_replay), edits.last(), is_replay)
    }
}

/// Whatever is done during a replay, no point of the route is added or moved: what is left
/// are the first points, as they were.
pub proof fn replay_adds_and_moves_nothing(wps: Seq<RouteWp>, edits: Seq<RouteEdit>)
    ensures
        all_edited(wps, edits, true).len() <= wps.len(),
        all_edited(wps, edits, true) == wps.take(all_edited(wps, edits, true).len() as int),
    decreases edits.len(),
{
    if edits.len() == 0 {
        assert(wps =~= wps.take(wps.len() as int));
    } else {
        replay_adds_and_moves_nothing(wps, edits.drop_last());
        let all = all_edited(wps, edits, true);
        assert(all =~= wps.take(all.len() as int));
    }
}

/// What is being done with the route.
#[derive(Debug)]
pub struct RouteEditor {
    dragging: Option<usize>,
}

impl RouteEditor {
    /// The point that is being moved.
    pub closed spec fn held(&self) -> Option<usize> {
        self.dragging
    }

    pub fn new() -> (r: RouteEditor)
        ensures
            r.held() is None,
    {
        RouteEditor { dragging: None }
    }

    pub fn dragging(&self) -> (r: Option<usize>)
        ensures
            r == self.held(),
    {
        self.dragging
    }

    /// Takes hold of the point under the pointer, if there is one; during a replay what is
    /// held stays as it is.
    pub fn start_drag(&mut self, d2: &Vec<Real>, limit: Real, is_replay: bool)
        ensures
            is_replay ==> *final(self) == *old(self),
            !is_replay ==> match final(self).held() {
                Some(k) => is_nearest(d2@, limit, k as int),
                None => !is_hit(d2@, limit),
            },
    {
        if !is_replay {
            self.dragging = nearest_wp(d2, limit);
        }
    }

    /// Moves the point that is held, unless during a replay.
    pub fn drag_to(&self, route: &mut Route, at: RouteWp, is_replay: bool)
        requires
            !is_replay ==> (self.held() matches Some(k) ==> k < old(route).wps@.len()),
        ensures
            is_replay ==> *final(route) == *old(route),
            final(route).wps@ == edited(
                old(route).wps@,
                (RouteEdit::Drag { held: self.held(), at }),
                is_replay,
            ),
            final(route).alt_up == old(route).alt_up,
            final(route).cruise == old(route).cruise,
    {
        if !is_replay {
            if let Some(k) = self.dragging {
                route.wps.set(k, at);
            }
        }
    }

    /// Lets go.
    pub fn stop_drag(&mut self)
        ensures
            final(self).held() is None,
    {
        self.dragging = None;
    }

    /// Adds a point where the map was clicked, unless there is one already or a replay is
    /// shown. `d2` are the squared distances of the points.
    pub fn click(
        &self,
        route: &mut Route,
        d2: &Vec<Real>,
        limit: Real,
        at: RouteWp,
        is_replay: bool,
    )
        ensures
            is_replay ==> *final(route) == *old(route),
            final(route).wps@ == edited(
                old(route).wps@,
                (RouteEdit::Click { hit: is_hit(d2@, limit), at }),
                is_replay,
            ),
            final(route).alt_up == old(route).alt_up,
            final(route).cruise == old(route).cruise,
    {
        if !is_replay && nearest_wp(d2, limit).is_none() {
            route.wps.push(at);
        }
    }

    /// Removes the point under the pointer, if there is one, and says which; during a replay
    /// none is removed.
    pub fn secondary_click(
        &self,
        route: &mut Route,
        d2: &Vec<Real>,
        limit: Real,
        is_replay: bool,
    ) -> (r: Option<usize>)
        requires
            d2@.len() == old(route).wps@.len(),
        ensures
            is_replay ==> r is None && *final(route) == *old(route),
            !is_replay ==> match r {
                Some(k) => is_nearest(d2@, limit, k as int),
                None => !is_hit(d2@, limit),
            },
            final(route).wps@ == edited(
                old(route).wps@,
                (RouteEdit::Remove { hit: r }),
                is_replay,
            ),
            final(route).alt_up == old(route).alt_up,
            final(route).cruise == old(route).cruise,
    {
        if is_replay {
            return None;
        }
        let hit = nearest_wp(d2, limit);
        if let Some(k) = hit {
            let _gone = route.wps.remove(k);
        }
        hit
    }

    /// Removes the last point.
    pub fn remove_last(&mut self, route: &mut Route)
        ensures
            final(self).held() is None,
            forall|is_replay: bool|
                final(route).wps@ == #[trigger] edited(
                    old(route).wps@,
                    RouteEdit::RemoveLast,
                    is_replay,
                ),
            final(route).alt_up == old(route).alt_up,
            final(route).cruise == old(route).cruise,
    {
        let _gone = route.wps.pop();
        self.dragging = None;
    }

    /// Removes all points.
    pub fn clear(&mut self, route: &mut Route)
        ensures
            final(self).held() is None,
            final(route).wps@ == Seq::<RouteWp>::empty(),
            forall|is_replay: bool|
                final(route).wps@ == #[trigger] edited(
                    old(route).wps@,
                    RouteEdit::Clear,
                    is_replay,
                ),
            final(route).alt_up == old(route).alt_up,
            final(route).cruise == old(route).cruise,
    {
        route.wps.clear();
        self.dragging = None;
    }
}

/// Whether a route can be flown: it has a leg, and nothing is being replayed.
pub fn can_fly(route: &Route, is_replay: bool) -> (r: bool)
    ensures
        r == (route.wps@.len() >= 2 && !is_replay),
{
    route.wps.len() >= 2 && !is_replay
}

/// Whether the leg that ends at point `i + 1` is the one that is flown.
pub fn is_active_leg(i: usize, active: Option<usize>) -> (r: bool)
    requires
        i < usize::MAX,
    ensures
        r == (active == Some((i + 1) as usize)),
{
    match active {
        Some(a) => a == i + 1,
        None => false,
    }
}

/// Where the map looks: how near, and at which point.
#[derive(Clone, Copy, Debug, PartialEq, Eq, Structural)]
pub struct MapView {
    pub zoom: Real,
    pub lon: Real,
    pub lat: Real,
}

impl MapView {
    pub open spec fn world() -> MapView {
        MapView { zoom: Real::one_value(), lon: Real::zero_value(), lat: Real::zero_value() }
    }

    /// A zoom within `[1, 32]`.
    pub open spec fn zoom_value(zoom: Real) -> Real {
        zoom.clamped_to(Real::one_value(), Real { bits: 0x4040_0000_0000_0000 })
    }

    /// The view with its centre at a point, or as near to it as the edges allow.
    pub open spec fn centred(self, lon: Real, lat: Real, lon_limit: Real, lat_limit: Real) -> MapView {
        MapView {
            zoom: self.zoom,
            lon: lon.clamped_to(lon_limit.negated(), lon_limit),
            lat: lat.clamped_to(lat_limit.negated(), lat_limit),
        }
    }

    /// The whole world.
    pub fn new() -> (r: MapView)
        ensures
            r == MapView::world(),
    {
        MapView { zoom: Real::one(), lon: Real::zero(), lat: Real::zero() }
    }

    /// Sets the zoom, within `[1, 32]`.
    pub fn set_zoom(&mut self, zoom: Real)
        ensures
            *final(self) == (MapView { zoom: MapView::zoom_value(zoom), ..*old(self) }),
    {
        self.zoom = zoom.clamp(Real::one(), Real::from_bits(0x4040_0000_0000_0000));
    }

    /// Moves the centre. The limits are what is left of half the world beside half the
    /// window, to the sides and up and down.
    pub fn set_center(&mut self, lon: Real, lat: Real, lon_limit: Real, lat_limit: Real)
        requires
            lon_limit.negated().at_most(lon_limit),
            lat_limit.negated().at_most(lat_limit),
        ensures
            *final(self) == old(self).centred(lon, lat, lon_limit, lat_limit),
    {
        self.lon = lon.clamp(lon_limit.neg(), lon_limit);
        self.lat = lat.clamp(lat_limit.neg(), lat_limit);
    }
}

/// The window never runs off the world, wherever the centre is put.
pub proof fn map_stays_on_the_world(
    v: MapView,
    lon: Real,
    lat: Real,
    lon_limit: Real,
    lat_limit: Real,
)
    requires
        lon_limit.negated().at_most(lon_limit),
        lat_limit.negated().at_most(lat_limit),
        lon.is_number(),
        lat.is_number(),
    ensures
        lon_limit.negated().at_most(v.centred(lon, lat, lon_limit, lat_limit).lon),
        v.centred(lon, lat, lon_limit, lat_limit).lon.at_most(lon_limit),
        lat_limit.negated().at_most(v.centred(lon, lat, lon_limit, lat_limit).lat),
        v.centred(lon, lat, lon_limit, lat_limit).lat.at_most(lat_limit),
        v.centred(lon, lat, lon_limit, lat_limit).zoom == v.zoom,
{
}

/// Into how many pieces a leg is drawn: as many as wanted, at least 2, at most 256.
pub fn leg_pieces(wanted: usize) -> (r: usize)
    ensures
        r == (if wanted < 2 {
            2
        } else if wanted > 256 {
            256
        } else {
            wanted
        }),
{
    if wanted < 2 {
        2
    } else if wanted > 256 {
        256
    } else {
        wanted
    }
}

/// The nearest point is within the limit, and no other is nearer; of equally near ones it is
/// the first.
pub proof fn nearest_has_none_nearer(d2: Seq<Real>, limit: Real, k: int, i: int)
    requires
        is_nearest(d2, limit, k),
        0 <= i < d2.len(),
    ensures
        0 <= k < d2.len(),
        d2[k].at_most(limit),
        !d2[i].less(d2[k]),
        i < k ==> !d2[i].same(d2[k]),
        is_hit(d2, limit),
{
    assert(d2[k].at_most(limit));
}

/// A point is hit exactly if one lies within the limit.
pub proof fn hit_is_within_the_limit(d2: Seq<Real>, limit: Real, i: int)
    requires
        0 <= i < d2.len(),
    ensures
        d2[i].at_most(limit) ==> is_hit(d2, limit),
        !is_hit(d2, limit) ==> !d2[i].at_most(limit),
        !is_hit(Seq::empty(), limit),
{
}

/// A click beside all points adds one at the end, where the map was clicked; a click on a point
/// adds none. Neither moves a point.
pub proof fn click_adds_at_the_end(wps: Seq<RouteWp>, at: RouteWp, i: int)
    requires
        0 <= i < wps.len(),
    ensures
        ({
            let r = edited(wps, (RouteEdit::Click { hit: false, at }), false);
            &&& r.len() == wps.len() + 1
            &&& r[wps.len() as int] == at
            &&& r[i] == wps[i]
        }),
        edited(wps, (RouteEdit::Click { hit: true, at }), false) == wps,
        edited(wps, (RouteEdit::Click { hit: false, at }), true) == wps,
{
}

/// A drag moves the held point to the pointer and no other.
pub proof fn drag_moves_the_held_point(wps: Seq<RouteWp>, k: usize, at: RouteWp, i: int)
    requires
        k < wps.len(),
        0 <= i < wps.len(),
    ensures
        ({
            let r = edited(wps, (RouteEdit::Drag { held: Some(k), at }), false);
            &&& r.len() == wps.len()
            &&& r[k as int] == at
            &&& i != k ==> r[i] == wps[i]
        }),
        edited(wps, (RouteEdit::Drag { held: None, at }), false) == wps,
        edited(wps, (RouteEdit::Drag { held: Some(k), at }), true) == wps,
{
}

/// Removing takes one point out, the one that was hit or the last, and leaves the others in
/// their order; clearing takes out all. The buttons work during a replay too.
pub proof fn removing_takes_one_out(wps: Seq<RouteWp>, k: usize, i: int, is_replay: bool)
    requires
        k < wps.len(),
        0 <= i < wps.len() - 1,
    ensures
        ({
            let r = edited(wps, (RouteEdit::Remove { hit: Some(k) }), false);
            &&& r.len() == wps.len() - 1
            &&& i < k ==> r[i] == wps[i]
            &&& i >= k ==> r[i] == wps[i + 1]
        }),
        edited(wps, (RouteEdit::Remove { hit: None }), false) == wps,
        edited(wps, (RouteEdit::Remove { hit: Some(k) }), true) == wps,
        ({
            let r = edited(wps, RouteEdit::RemoveLast, is_replay);
            &&& r.len() == wps.len() - 1
            &&& r[i] == wps[i]
        }),
        edited(wps, RouteEdit::Clear, is_replay).len() == 0,
        edited(Seq::empty(), RouteEdit::RemoveLast, is_replay).len() == 0,
{
}

/// A zoom between the whole world and thirty-two times is taken as it is, and a centre that
/// leaves the window on the world too; beyond, the nearer limit is. The map opens on the whole
/// world.
pub proof fn map_looks_where_it_is_told(
    v: MapView,
    zoom: Real,
    lon: Real,
    lat: Real,
    lon_limit: Real,
    lat_limit: Real,
)
    requires
        lon_limit.negated().at_most(lon_limit),
        lat_limit.negated().at_most(lat_limit),
    ensures
        ({
            let (z, most) = (MapView::zoom_value(zoom), Real { bits: 0x4040_0000_0000_0000 });
            &&& Real::one_value().at_most(zoom) && zoom.at_most(most) ==> z == zoom
            &&& zoom.less(Real::one_value()) ==> z == Real::one_value()
            &&& most.less(zoom) ==> z == most
        }),
        ({
            let c = v.centred(lon, lat, lon_limit, lat_limit);
            &&& lon_limit.negated().at_most(lon) && lon.at_most(lon_limit) ==> c.lon == lon
            &&& lat_limit.negated().at_most(lat) && lat.at_most(lat_limit) ==> c.lat == lat
            &&& lon_limit.less(lon) ==> c.lon == lon_limit
            &&& lat_limit.less(lat) ==> c.lat == lat_limit
            &&& lon.less(lon_limit.negated()) ==> c.lon == lon_limit.negated()
            &&& lat.less(lat_limit.negated()) ==> c.lat == lat_limit.negated()
        }),
        MapView::world().zoom == Real::one_value(),
        MapView::world().lon == Real::zero_value() && MapView::world().lat == Real::zero_value(),
{
}

/// If a point lies within the limit, one is the nearest.
pub proof fn some_point_is_nearest(d2: Seq<Real>, limit: Real, i: int) -> (k: int)
    requires
        0 <= i < d2.len(),
        d2[i].at_most(limit),
    ensures
        is_nearest(d2, limit, k),
    decreases d2.len(),
{
    let n = d2.len() - 1;
    let init = d2.drop_last();
    if is_hit(init, limit) {
        let j = choose|j: int| 0 <= j < init.len() && (#[trigger] init[j]).at_most(limit);
        let k = some_point_is_nearest(init, limit, j);
        assert forall|a: int| 0 <= a < n implies init[a] == d2[a] by {}
        if d2[n].less(d2[k]) {
            assert forall|a: int| 0 <= a < n implies !(#[trigger] d2[a]).at_most(d2[n]) by {
                assert(init[a] == d2[a]);
            }
            n
        } else {
            assert forall|a: int| 0 <= a < k implies !(#[trigger] d2[a]).at_most(d2[k]) by {
                assert(init[a] == d2[a]);
            }
            assert forall|a: int| k <= a < d2.len() implies !(#[trigger] d2[a]).less(d2[k]) by {
                if a < n {
                    assert(init[a] == d2[a]);
                }
            }
            k
        }
    } else {
        assert forall|a: int| 0 <= a < n implies !(#[trigger] d2[a]).at_most(limit) by {
            assert(init[a] == d2[a]);
        }
        n
    }
}

} // verus!
