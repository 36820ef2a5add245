//! What the viewer shows: one view of whichever aircraft flies, live or recorded.
use vstd::prelude::*;
use crate::engine::Snapshot;
use crate::fwengine::FwSnapshot;
use crate::messages::{FixedWingControls, Quat, Vec3};
use crate::number::Real;
use crate::playback;
use crate::recording::Recording;
use crate::telemetry::TelemetrySample;

verus! {

/// Which aircraft a view shows.
#[derive(Clone, Copy, Debug, PartialEq, Eq, Structural)]
pub enum AircraftKind {
    Quad,
    FixedWing,
}

/// What the viewer shows in one frame.
#[derive(Clone, Copy, Debug, PartialEq, Eq)]
pub struct ViewSnapshot {
    pub t: Real,
    pub kind: AircraftKind,
    pub position: Vec3,
    pub attitude: Quat,
    pub velocity: Vec3,
    pub waypoint_index: Option<usize>,
    /// Thrust of each motor; zeros for a fixed-wing aircraft.
    pub motors: [Real; 4],
    /// The surfaces of a fixed-wing aircraft.
    pub surfaces: Option<FixedWingControls>,
    pub manual: bool,
    pub fbw_on: bool,
    /// Angle of attack; 0 for a quadrotor.
    pub alpha: Real,
    /// Load factor; 0 for a quadrotor.
    pub load_factor: Real,
}

impl ViewSnapshot {
    pub open spec fn of_quad(s: Snapshot) -> ViewSnapshot {
        ViewSnapshot {
            t: s.t,
            kind: AircraftKind::Quad,
            position: s.truth.position,
            attitude: s.truth.attitude,
            velocity: s.truth.velocity,
            waypoint_index: s.waypoint_index,
            motors: s.motors,
            surfaces: None,
            manual: false,
            fbw_on: false,
            alpha: Real::zero_value(),
            load_factor: Real::zero_value(),
        }
    }

    /// Shows a quadrotor.
    pub fn from_quad(s: &Snapshot) -> (r: ViewSnapshot)
        ensures
            r == ViewSnapshot::of_quad(*s),
    {
        ViewSnapshot {
            t: s.t,
            kind: AircraftKind::Quad,
            position: s.truth.position,
            attitude: s.truth.attitude,
            velocity: s.truth.velocity,
            waypoint_index: s.waypoint_index,
            motors: s.motors,
            surfaces: None,
            manual: false,
            fbw_on: false,
            alpha: Real::zero(),
            load_factor: Real::zero(),
        }
    }

    /// Whether the view shows a fixed-wing aircraft as `s` has it.
    pub open spec fn shows_fixedwing(self, s: FwSnapshot) -> bool {
        &&& self.t == s.t
        &&& self.kind == AircraftKind::FixedWing
        &&& self.position == s.truth.position
        &&& self.attitude == s.truth.attitude
        &&& self.velocity == s.truth.velocity
        &&& self.waypoint_index == s.waypoint_index
        &&& self.motors@ == Seq::new(4, |i: int| Real::zero_value())
        &&& self.surfaces == Some(s.controls)
        &&& self.manual == s.manual
        &&& self.fbw_on == s.fbw_on
        &&& self.alpha == s.alpha
        &&& self.load_factor == s.load_factor
    }

    /// Shows a fixed-wing aircraft.
    pub fn from_fixedwing(s: &FwSnapshot) -> (r: ViewSnapshot)
        ensures
            r.shows_fixedwing(*s),
    {
        let z = Real::zero();
        let r = ViewSnapshot {
            t: s.t,
            kind: AircraftKind::FixedWing,
            position: s.truth.position,
            attitude: s.truth.attitude,
            velocity: s.truth.velocity,
            waypoint_index: s.waypoint_index,
            motors: [z, z, z, z],
            surfaces: Some(s.controls),
            manual: s.manual,
            fbw_on: s.fbw_on,
            alpha: s.alpha,
            load_factor: s.load_factor,
        };
        assert(r.motors@ =~= Seq::new(4, |i: int| Real::zero_value()));
        r
    }

    /// Altitude. A quadrotor flies over a plane, `z` down; a fixed-wing aircraft flies
    /// `radial` above the ball.
    pub fn altitude(&self, radial: Real) -> (r: Real)
        ensures
            r == (match self.kind {
                AircraftKind::Quad => self.position.z.negated(),
                AircraftKind::FixedWing => radial,
            }),
    {
        match self.kind {
            AircraftKind::Quad => self.position.z.neg(),
            AircraftKind::FixedWing => radial,
        }
    }

    /// Attitude against the local horizon. A quadrotor's is; a fixed-wing aircraft's is
    /// `turned` into the frame at its position.
    pub fn local_attitude(&self, turned: Quat) -> (r: Quat)
        ensures
            r == (match self.kind {
                AircraftKind::Quad => self.attitude,
                AircraftKind::FixedWing => turned,
            }),
    {
        match self.kind {
            AircraftKind::Quad => self.attitude,
            AircraftKind::FixedWing => turned,
        }
    }

    /// Velocity against the local horizon, found like the attitude.
    pub fn local_velocity(&self, turned: Vec3) -> (r: Vec3)
        ensures
            r == (match self.kind {
                AircraftKind::Quad => self.velocity,
                AircraftKind::FixedWing => turned,
            }),
    {
        match self.kind {
            AircraftKind::Quad => self.velocity,
            AircraftKind::FixedWing => turned,
        }
    }

    /// Course over ground: the direction of the `track`, or the `heading` of an aircraft
    /// that hardly moves, slower than 0.1.
    pub fn course(ground_speed: Real, heading: Real, track: Real) -> (r: Real)
        ensures
            r == (if ground_speed.less(Real { bits: 0x3fb9_9999_9999_999a }) {
                heading
            } else {
                track
            }),
    {
        if ground_speed.lt(Real::from_bits(0x3fb9_9999_9999_999a)) {
            heading
        } else {
            track
        }
    }
}

/// What a [`ReplayState`] stands for.
pub struct ReplayView {
    pub samples: Seq<TelemetrySample>,
    pub t: Real,
    /// Time of the first sample.
    pub t0: Real,
    /// Time of the last sample.
    pub t1: Real,
    pub playing: bool,
    pub speed: Real,
}

impl ReplayView {
    pub open spec fn start(samples: Seq<TelemetrySample>) -> ReplayView {
        let t0 = if samples.len() == 0 {
            Real::zero_value()
        } else {
            samples[0].t
        };
        let t1 = if samples.len() == 0 {
            Real::zero_value()
        } else {
            samples.last().t
        };
        ReplayView { samples, t: t0, t0, t1, playing: true, speed: Real::one_value() }
    }

    /// The state once the playhead has moved on to `moved`: no further than the end,
    /// where playing stops.
    pub open spec fn advanced(self, moved: Real) -> ReplayView {
        if self.playing {
            let t = moved.smaller(self.t1);
            ReplayView { t, playing: !self.t1.at_most(t), ..self }
        } else {
            self
        }
    }

    /// The state with the playhead put to `t`: within the recording, not playing.
    pub open spec fn sought(self, t: Real) -> ReplayView {
        ReplayView { t: t.clamped_to(self.t0, self.t1), playing: false, ..self }
    }
}

/// A recording that is played back.
pub struct ReplayState {
    samples: Vec<TelemetrySample>,
    t: Real,
    t0: Real,
    t1: Real,
    pub playing: bool,
    pub speed: Real,
}

impl View for ReplayState {
    type V = ReplayView;

    closed spec fn view(&self) -> ReplayView {
        ReplayView {
            samples: self.samples@,
            t: self.t,
            t0: self.t0,
            t1: self.t1,
            playing: self.playing,
            speed: self.speed,
        }
    }
}

impl ReplayState {
    /// Plays from the first sample on.
    pub fn new(rec: Recording) -> (r: ReplayState)
        ensures
            r@ == ReplayView::start(rec@),
    {
        let n: usize = rec.samples.len();
        let (t0, t1) = if n == 0 {
            (Real::zero(), Real::zero())
        } else {
            (rec.samples[0].t, rec.samples[n - 1].t)
        };
        ReplayState { samples: rec.samples, t: t0, t0, t1, playing: true, speed: Real::one() }
    }

    /// Moves the playhead on to `moved`, the playhead's time plus the stretch that has
    /// passed.
    pub fn advance(&mut self, moved: Real)
        ensures
            final(self)@ == old(self)@.advanced(moved),
    {
        if self.playing {
            self.t = moved.min(self.t1);
            if self.t1.le(self.t) {
                self.playing = false;
            }
        }
    }

    /// Puts the playhead to `t`, or to the nearer end of the recording.
    pub fn seek(&mut self, t: Real)
        requires
            old(self)@.t0.at_most(old(self)@.t1),
        ensures
            final(self)@ == old(self)@.sought(t),
    {
        self.t = t.clamp(self.t0, self.t1);
        self.playing = false;
    }

    /// Starts or stops playing.
    pub fn toggle(&mut self)
        ensures
            final(self)@ == (ReplayView { playing: !old(self)@.playing, ..old(self)@ }),
    {
        self.playing = !self.playing;
    }

    pub fn time(&self) -> (r: Real)
        ensures
            r == self@.t,
    {
        self.t
    }

    /// The times of the first and the last sample.
    pub fn range(&self) -> (r: (Real, Real))
        ensures
            r == (self@.t0, self@.t1),
    {
        (self.t0, self.t1)
    }

    /// The latest sample at or before the playhead, or the first if all come later;
    /// none without samples.
    pub fn current_quad(&self) -> (r: Option<Snapshot>)
        ensures
            r is None <==> self@.samples.len() == 0,
            playback::in_time_order(self@.samples) && self@.samples.len() > 0 ==> r == Some(
                Snapshot::of_sample(shown(self@.samples, self@.t)),
            ),
            r matches Some(s) ==> exists|k: int|
                0 <= k < self@.samples.len() && s == Snapshot::of_sample(
                    #[trigger] self@.samples[k],
                ),
    {
        let n: usize = self.samples.len();
        if n == 0 {
            return None;
        }
        let count: usize = playback::count_until(&self.samples, self.t);
        proof {
            if playback::in_time_order(self.samples@) {
                playback::cut_gives_latest(self.samples@, self.t, count as int);
            }
        }
        let k: usize = if count == 0 {
            0
        } else {
            count - 1
        };
        let s = Snapshot::from_telemetry_sample(&self.samples[k]);
        assert(s == Snapshot::of_sample(self@.samples[k as int]));
        Some(s)
    }

    /// What the viewer shows at the playhead; `fallback` without samples.
    pub fn frame(&self, fallback: &Snapshot) -> (r: ViewSnapshot)
        ensures
            self@.samples.len() == 0 ==> r == ViewSnapshot::of_quad(*fallback),
            playback::in_time_order(self@.samples) && self@.samples.len() > 0 ==> r
                == ViewSnapshot::of_quad(Snapshot::of_sample(shown(self@.samples, self@.t))),
            r.kind == AircraftKind::Quad,
    {
        match self.current_quad() {
            Some(s) => ViewSnapshot::from_quad(&s),
            None => ViewSnapshot::from_quad(fallback),
        }
    }

    pub fn samples(&self) -> (r: &Vec<TelemetrySample>)
        ensures
            r@ == self@.samples,
    {
        &self.samples
    }
}

/// The sample shown at `t`: the latest at or before it, else the first.
pub open spec fn shown(samples: Seq<TelemetrySample>, t: Real) -> TelemetrySample {
    match playback::latest(samples, t) {
        Some(s) => s,
        None => samples[0],
    }
}

/// Playing never runs past the end, stops there, and does not move while stopped.
pub proof fn playing_stops_at_the_end(r: ReplayView, moved: Real)
    requires
        r.t1.is_number(),
    ensures
        r.playing ==> r.advanced(moved).t.at_most(r.t1),
        r.playing ==> (r.advanced(moved).playing <==> r.advanced(moved).t.less(r.t1)),
        !r.playing ==> r.advanced(moved) == r,
{
}

/// Wherever it is put, the playhead stays within the recording, and playing stops.
pub proof fn seeking_stays_within(r: ReplayView, t: Real)
    requires
        r.t0.at_most(r.t1),
        t.is_number(),
    ensures
        r.t0.at_most(r.sought(t).t),
        r.sought(t).t.at_most(r.t1),
        !r.sought(t).playing,
{
}

/// A later playhead never shows an earlier sample.
pub proof fn later_playhead_shows_later_sample(samples: Seq<TelemetrySample>, a: Real, b: Real)
    requires
        playback::in_time_order(samples),
        samples.len() > 0,
        a.at_most(b),
    ensures
        shown(samples, a).t.at_most(shown(samples, b).t),
{
    latest_is_a_sample(samples, a);
    latest_is_a_sample(samples, b);
    let la = playback::latest(samples, a);
    let lb = playback::latest(samples, b);
    if la is None {
        if let Some(s) = lb {
            let k = choose|k: int| 0 <= k < samples.len() && samples[k] == s;
            assert(samples[0].t.at_most(samples[k].t));
        } else {
            assert(samples[0].t.at_most(samples[0].t));
        }
    } else {
        later_is_no_earlier(samples, a, b);
    }
}

proof fn latest_is_a_sample(samples: Seq<TelemetrySample>, t: Real)
    ensures
        playback::latest(samples, t) matches Some(s) ==> s.t.at_most(t) && exists|k: int|
            0 <= k < samples.len() && samples[k] == s,
    decreases samples.len(),
{
    if samples.len() > 0 {
        if samples.last().t.at_most(t) {
            assert(samples[samples.len() - 1] == samples.last());
        } else {
            let d = samples.drop_last();
            latest_is_a_sample(d, t);
            if let Some(s) = playback::latest(d, t) {
                let k = choose|k: int| 0 <= k < d.len() && d[k] == s;
                assert(samples[k] == s);
            }
        }
    }
}

proof fn later_is_no_earlier(samples: Seq<TelemetrySample>, a: Real, b: Real)
    requires
        playback::in_time_order(samples),
        a.at_most(b),
        playback::latest(samples, a) is Some,
    ensures
        playback::latest(samples, b) is Some,
        playback::latest(samples, a)->0.t.at_most(playback::latest(samples, b)->0.t),
    decreases samples.len(),
{
    let last = samples.last();
    if last.t.at_most(a) {
        assert(last.t.at_most(b));
    } else {
        let d = samples.drop_last();
        assert(playback::in_time_order(d)) by {
            assert forall|i: int, j: int| 0 <= i <= j < d.len() implies (#[trigger] d[i]).t.at_most(
                (#[trigger] d[j]).t,
            ) by {
                assert(samples[i].t.at_most(samples[j].t));
            }
        }
        if last.t.at_most(b) {
            latest_is_a_sample(d, a);
            let s = playback::latest(d, a)->0;
            let k = choose|k: int| 0 <= k < d.len() && d[k] == s;
            assert(samples[k] == s);
            assert(samples[k].t.at_most(samples[samples.len() - 1].t));
        } else {
            later_is_no_earlier(d, a, b);
        }
    }
}

/// Where the viewer's data comes from.
#[derive(Clone, Copy, Debug, PartialEq, Eq, Structural)]
pub enum SourceKind {
    LiveQuad,
    LiveFixedWing,
    Replay,
}

impl SourceKind {
    pub fn is_replay(self) -> (r: bool)
        ensures
            r == (self == SourceKind::Replay),
    {
        matches!(self, SourceKind::Replay)
    }

    pub open spec fn aircraft(self) -> AircraftKind {
        match self {
            SourceKind::LiveFixedWing => AircraftKind::FixedWing,
            _ => AircraftKind::Quad,
        }
    }

    /// The aircraft that the source shows; recordings are of quadrotors.
    pub fn kind(self) -> (r: AircraftKind)
        ensures
            r == self.aircraft(),
    {
        match self {
            SourceKind::LiveQuad => AircraftKind::Quad,
            SourceKind::Replay => AircraftKind::Quad,
            SourceKind::LiveFixedWing => AircraftKind::FixedWing,
        }
    }
}

/// A view of a quadrotor shows its true state and its motors, and neither surfaces nor a pilot;
/// a view of a fixed-wing aircraft shows its true state, its surfaces and its pilot, and motors
/// that stand still.
pub proof fn views_show_the_aircraft(s: Snapshot, w: FwSnapshot, v: ViewSnapshot)
    ensures
        ({
            let q = ViewSnapshot::of_quad(s);
            &&& q.kind is Quad && q.t == s.t && q.position == s.truth.position
            &&& q.attitude == s.truth.attitude && q.velocity == s.truth.velocity
            &&& q.waypoint_index == s.waypoint_index && q.motors == s.motors
            &&& q.surfaces is None && !q.manual && !q.fbw_on
            &&& q.alpha == Real::zero_value() && q.load_factor == Real::zero_value()
        }),
        v.shows_fixedwing(w) ==> {
            &&& v.kind is FixedWing && v.t == w.t && v.position == w.truth.position
            &&& v.attitude == w.truth.attitude && v.velocity == w.truth.velocity
            &&& v.waypoint_index == w.waypoint_index && v.surfaces == Some(w.controls)
            &&& v.manual == w.manual && v.fbw_on == w.fbw_on
            &&& v.alpha == w.alpha && v.load_factor == w.load_factor
            &&& forall|i: int| 0 <= i < 4 ==> (#[trigger] v.motors@[i]) == Real::zero_value()
        },
{
    assert(v.shows_fixedwing(w) ==> forall|i: int|
        0 <= i < 4 ==> (#[trigger] v.motors@[i]) == Seq::new(4, |i: int| Real::zero_value())[i]);
}

/// A replay starts playing at the first sample, at normal speed, and knows the times of its
/// first and its last sample.
pub proof fn replay_starts_at_the_first_sample(samples: Seq<TelemetrySample>)
    ensures
        ({
            let r = ReplayView::start(samples);
            &&& r.samples == samples && r.playing && r.speed == Real::one_value()
            &&& samples.len() > 0 ==> r.t == samples[0].t && r.t0 == samples[0].t && r.t1
                == samples[samples.len() - 1].t
            &&& samples.len() == 0 ==> r.t == Real::zero_value() && r.t0 == Real::zero_value()
                && r.t1 == Real::zero_value()
        }),
{
}

/// Playing takes the playhead to where time has moved it, and at the end of the recording to
/// the end, where it stops. Putting it somewhere takes it there, or to the nearer end. Neither
/// changes the recording or the speed.
pub proof fn playhead_goes_where_it_is_sent(r: ReplayView, t: Real)
    requires
        r.t0.at_most(r.t1),
        t.is_number(),
    ensures
        ({
            let a = r.advanced(t);
            &&& r.playing && t.less(r.t1) ==> a.t == t && a.playing
            &&& r.playing && r.t1.at_most(t) ==> a.t.same(r.t1) && !a.playing
            &&& (ReplayView { t: r.t, playing: r.playing, ..a }) == r
        }),
        ({
            let a = r.sought(t);
            &&& r.t0.at_most(t) && t.at_most(r.t1) ==> a.t == t
            &&& t.less(r.t0) ==> a.t == r.t0
            &&& r.t1.less(t) ==> a.t == r.t1
            &&& (ReplayView { t: r.t, playing: r.playing, ..a }) == r
        }),
{
}

/// What is shown is a sample at or before the playhead that no other such sample comes after;
/// if there is none, the first.
pub proof fn shown_is_the_sample_due(samples: Seq<TelemetrySample>, t: Real, i: int)
    requires
        playback::in_time_order(samples),
        0 <= i < samples.len(),
    ensures
        samples[0].t.at_most(t) ==> shown(samples, t).t.at_most(t),
        samples[i].t.at_most(t) ==> samples[i].t.at_most(shown(samples, t).t),
        !samples[0].t.at_most(t) ==> shown(samples, t) == samples[0],
        samples.contains(shown(samples, t)),
{
    playback::latest_is_the_last_one_due(samples, t, 0);
    playback::latest_is_the_last_one_due(samples, t, i);
    assert(samples[0].t.at_most(samples[i].t));
    if !samples[0].t.at_most(t) {
        if let Some(s) = playback::latest(samples, t) {
            let k = choose|k: int| 0 <= k < samples.len() && samples[k] == s;
            assert(samples[0].t.at_most(samples[k].t));
        }
    }
    assert(samples.contains(samples[0]));
}

/// Only a running fixed-wing simulation shows a fixed-wing aircraft; recordings are of
/// quadrotors.
pub proof fn recordings_are_of_quadrotors(k: SourceKind)
    ensures
        k.aircraft() is FixedWing <==> k is LiveFixedWing,
{
}

} // verus!
