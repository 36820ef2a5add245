//! Playing a recording back by simulated time.
//!
//! Where a playhead moves by a stretch of time, the caller adds the times up and
//! hands the sum over.
use vstd::prelude::*;
use crate::number::Real;
use crate::recording::Recording;
use crate::telemetry::{Telemetry, TelemetrySample};

verus! {

impl Default for Recording {
    fn default() -> (r: Recording)
        ensures
            r@ == Seq::<TelemetrySample>::empty(),
    {
        Recording { samples: Vec::new() }
    }
}

impl Recording {
    /// What a run has logged.
    pub fn from_telemetry(t: Telemetry) -> (r: Recording)
        ensures
            r@ == t@,
    {
        Recording { samples: t.samples }
    }

    pub fn from_samples(samples: Vec<TelemetrySample>) -> (r: Recording)
        ensures
            r@ == samples@,
    {
        Recording { samples }
    }

    pub fn len(&self) -> (r: usize)
        ensures
            r == self@.len(),
    {
        self.samples.len()
    }

    pub fn is_empty(&self) -> (r: bool)
        ensures
            r == (self@.len() == 0),
    {
        self.samples.len() == 0
    }

    /// The times of the first and the last sample: the recording lasts for their
    /// difference. None with fewer than two samples, which last for no time.
    pub fn span(&self) -> (r: Option<(Real, Real)>)
        ensures
            r == (if self@.len() < 2 {
                None
            } else {
                span_of(self@)
            }),
    {
        let n: usize = self.samples.len();
        if n < 2 {
            None
        } else {
            Some((self.samples[0].t, self.samples[n - 1].t))
        }
    }
}

/// The times of the first and the last sample.
pub open spec fn span_of(samples: Seq<TelemetrySample>) -> Option<(Real, Real)> {
    if samples.len() == 0 {
        None
    } else {
        Some((samples[0].t, samples.last().t))
    }
}

/// The samples up to `count` are those at or before `t`: the last one before the
/// cut is, the first one behind it is not.
pub open spec fn cuts_at(samples: Seq<TelemetrySample>, t: Real, count: int) -> bool {
    &&& 0 <= count <= samples.len()
    &&& count > 0 ==> samples[count - 1].t.at_most(t)
    &&& count < samples.len() ==> !samples[count].t.at_most(t)
}

/// Sample times never run backwards.
pub open spec fn in_time_order(samples: Seq<TelemetrySample>) -> bool {
    forall|i: int, j: int|
        0 <= i <= j < samples.len() ==> (#[trigger] samples[i]).t.at_most((#[trigger] samples[j]).t)
}

/// The last sample at or before `t`.
pub open spec fn latest(samples: Seq<TelemetrySample>, t: Real) -> Option<TelemetrySample>
    decreases samples.len(),
{
    if samples.len() == 0 {
        None
    } else if samples.last().t.at_most(t) {
        Some(samples.last())
    } else {
        latest(samples.drop_last(), t)
    }
}

/// How many samples are at or before `t`, by bisection.
pub fn count_until(samples: &Vec<TelemetrySample>, t: Real) -> (count: usize)
    ensures
        cuts_at(samples@, t, count as int),
{
    let mut lo: usize = 0;
    let mut hi: usize = samples.len();
    while lo < hi
        invariant
            lo <= hi <= samples.len(),
            lo > 0 ==> samples@[lo - 1].t.at_most(t),
            hi < samples.len() ==> !samples@[hi as int].t.at_most(t),
        decreases hi - lo,
    {
        let mid: usize = lo + (hi - lo) / 2;
        if samples[mid].t.le(t) {
            lo = mid + 1;
        } else {
            hi = mid;
        }
    }
    lo
}

/// Where times never run backwards, a cut parts the samples at or before `t` from
/// all later ones.
pub proof fn cut_parts_earlier_from_later(samples: Seq<TelemetrySample>, t: Real, count: int)
    requires
        in_time_order(samples),
        cuts_at(samples, t, count),
    ensures
        forall|i: int| 0 <= i < count ==> (#[trigger] samples[i]).t.at_most(t),
        forall|i: int| count <= i < samples.len() ==> !(#[trigger] samples[i]).t.at_most(t),
{
    assert forall|i: int| 0 <= i < count implies (#[trigger] samples[i]).t.at_most(t) by {
        assert(samples[i].t.at_most(samples[count - 1].t));
    }
    assert forall|i: int| count <= i < samples.len() implies !(#[trigger] samples[i]).t.at_most(
        t,
    ) by {
        assert(samples[count].t.at_most(samples[i].t));
    }
}

/// Samples behind the last one at or before `t` do not count.
proof fn latest_ignores_later(samples: Seq<TelemetrySample>, t: Real, count: int)
    requires
        0 <= count <= samples.len(),
        forall|i: int| count <= i < samples.len() ==> !(#[trigger] samples[i]).t.at_most(t),
    ensures
        latest(samples, t) == latest(samples.take(count), t),
    decreases samples.len(),
{
    if count < samples.len() {
        let d = samples.drop_last();
        assert forall|i: int| count <= i < d.len() implies !(#[trigger] d[i]).t.at_most(t) by {
            assert(d[i] == samples[i]);
        }
        latest_ignores_later(d, t, count);
        assert(d.take(count) =~= samples.take(count));
    } else {
        assert(samples.take(count) =~= samples);
    }
}

/// Where times never run backwards, the sample before the cut is the latest.
pub proof fn cut_gives_latest(samples: Seq<TelemetrySample>, t: Real, count: int)
    requires
        in_time_order(samples),
        cuts_at(samples, t, count),
    ensures
        latest(samples, t) == (if count == 0 {
            None
        } else {
            Some(samples[count - 1])
        }),
{
    cut_parts_earlier_from_later(samples, t, count);
    latest_ignores_later(samples, t, count);
    if count > 0 {
        assert(samples.take(count).last() == samples[count - 1]);
    }
}

/// A borrowed sample as a value.
pub open spec fn plain(r: Option<&TelemetrySample>) -> Option<TelemetrySample> {
    match r {
        Some(s) => Some(*s),
        None => None,
    }
}

/// Plays a recording back.
pub struct ReplayPlayer<'a> {
    samples: &'a Vec<TelemetrySample>,
    t: Real,
    speed: Real,
    looping: bool,
}

impl<'a> ReplayPlayer<'a> {
    pub closed spec fn recorded(&self) -> Seq<TelemetrySample> {
        self.samples@
    }

    pub closed spec fn playhead(&self) -> Real {
        self.t
    }

    pub closed spec fn rate(&self) -> Real {
        self.speed
    }

    pub closed spec fn wraps(&self) -> bool {
        self.looping
    }

    /// Where the playhead starts.
    pub open spec fn start_of(samples: Seq<TelemetrySample>) -> Real {
        if samples.len() == 0 {
            Real::zero_value()
        } else {
            samples[0].t
        }
    }

    /// Starts at the first sample, at normal speed, without looping.
    pub fn new(rec: &'a Recording) -> (r: ReplayPlayer<'a>)
        ensures
            r.recorded() == rec@,
            r.playhead() == ReplayPlayer::start_of(rec@),
            r.rate() == Real::one_value(),
            !r.wraps(),
    {
        let t = if rec.samples.len() == 0 {
            Real::zero()
        } else {
            rec.samples[0].t
        };
        ReplayPlayer { samples: &rec.samples, t, speed: Real::one(), looping: false }
    }

    pub fn with_speed(self, s: Real) -> (r: ReplayPlayer<'a>)
        ensures
            r.recorded() == self.recorded(),
            r.playhead() == self.playhead(),
            r.rate() == s,
            r.wraps() == self.wraps(),
    {
        ReplayPlayer { samples: self.samples, t: self.t, speed: s, looping: self.looping }
    }

    pub fn looping(self, on: bool) -> (r: ReplayPlayer<'a>)
        ensures
            r.recorded() == self.recorded(),
            r.playhead() == self.playhead(),
            r.rate() == self.rate(),
            r.wraps() == on,
    {
        ReplayPlayer { samples: self.samples, t: self.t, speed: self.speed, looping: on }
    }

    pub fn len(&self) -> (r: usize)
        ensures
            r == self.recorded().len(),
    {
        self.samples.len()
    }

    pub fn is_empty(&self) -> (r: bool)
        ensures
            r == (self.recorded().len() == 0),
    {
        self.samples.len() == 0
    }

    /// The times of the first and the last sample.
    pub fn span(&self) -> (r: Option<(Real, Real)>)
        ensures
            r == span_of(self.recorded()),
    {
        let n: usize = self.samples.len();
        if n == 0 {
            None
        } else {
            Some((self.samples[0].t, self.samples[n - 1].t))
        }
    }

    /// The times of the first two samples, whose difference is the nominal spacing;
    /// none with fewer than two.
    pub fn first_two(&self) -> (r: Option<(Real, Real)>)
        ensures
            r == (if self.recorded().len() >= 2 {
                Some((self.recorded()[0].t, self.recorded()[1].t))
            } else {
                None
            }),
    {
        if self.samples.len() >= 2 {
            Some((self.samples[0].t, self.samples[1].t))
        } else {
            None
        }
    }

    pub fn time(&self) -> (r: Real)
        ensures
            r == self.playhead(),
    {
        self.t
    }

    pub fn speed(&self) -> (r: Real)
        ensures
            r == self.rate(),
    {
        self.speed
    }

    /// The latest sample at or before `t`; none if all come later. Where times run
    /// backwards, some sample at or before `t`.
    pub fn sample_at(&self, t: Real) -> (r: Option<&'a TelemetrySample>)
        ensures
            in_time_order(self.recorded()) ==> plain(r) == latest(self.recorded(), t),
            r is None ==> self.recorded().len() == 0 || !self.recorded()[0].t.at_most(t),
            r matches Some(s) ==> self.recorded().contains(*s) && s.t.at_most(t),
    {
        let count: usize = count_until(self.samples, t);
        proof {
            if in_time_order(self.samples@) {
                cut_gives_latest(self.samples@, t, count as int);
            }
        }
        if count == 0 {
            None
        } else {
            Some(&self.samples[count - 1])
        }
    }

    /// The sample at the playhead.
    pub fn current(&self) -> (r: Option<&'a TelemetrySample>)
        ensures
            in_time_order(self.recorded()) ==> plain(r) == latest(
                self.recorded(),
                self.playhead(),
            ),
            r is None ==> self.recorded().len() == 0 || !self.recorded()[0].t.at_most(
                self.playhead(),
            ),
            r matches Some(s) ==> self.recorded().contains(*s) && s.t.at_most(self.playhead()),
    {
        self.sample_at(self.t)
    }

    /// Where the playhead stands once it has moved to `moved`: no further than the
    /// end, or, if the recording loops, at `wrapped`, between the first and the last sample.
    pub open spec fn moved_to(
        samples: Seq<TelemetrySample>,
        from: Real,
        moved: Real,
        wrapped: Real,
        looping: bool,
    ) -> Real {
        if samples.len() == 0 {
            from
        } else if samples.last().t.less(moved) {
            if !looping {
                samples.last().t
            } else if samples[0].t.at_most(samples.last().t) {
                wrapped.clamped_to(samples[0].t, samples.last().t)
            } else {
                wrapped
            }
        } else {
            moved
        }
    }

    /// Moves the playhead. `moved` is its time plus the stretch that has passed;
    /// `wrapped` is what remains of `moved` when the recording starts over.
    pub fn advance(&mut self, moved: Real, wrapped: Real)
        ensures
            final(self).recorded() == old(self).recorded(),
            final(self).rate() == old(self).rate(),
            final(self).wraps() == old(self).wraps(),
            final(self).playhead() == ReplayPlayer::moved_to(
                old(self).recorded(),
                old(self).playhead(),
                moved,
                wrapped,
                old(self).wraps(),
            ),
    {
        let n: usize = self.samples.len();
        if n == 0 {
            return ;
        }
        let last = self.samples[n - 1].t;
        self.t = moved;
        if last.lt(moved) {
            let first = self.samples[0].t;
            if !self.looping {
                self.t = last;
            } else if first.le(last) {
                self.t = wrapped.clamp(first, last);
            } else {
                self.t = wrapped;
            }
        }
    }

    /// Puts the playhead at `t`, or at the end of the recording nearer to it.
    pub fn seek(&mut self, t: Real)
        requires
            span_of(old(self).recorded()) matches Some((first, last)) ==> first.at_most(last),
        ensures
            final(self).recorded() == old(self).recorded(),
            final(self).rate() == old(self).rate(),
            final(self).wraps() == old(self).wraps(),
            final(self).playhead() == match span_of(old(self).recorded()) {
                Some((first, last)) => t.clamped_to(first, last),
                None => old(self).playhead(),
            },
    {
        if let Some((first, last)) = self.span() {
            self.t = t.clamp(first, last);
        }
    }

    /// Puts the playhead back to the start.
    pub fn reset(&mut self)
        ensures
            final(self).recorded() == old(self).recorded(),
            final(self).rate() == old(self).rate(),
            final(self).wraps() == old(self).wraps(),
            final(self).playhead() == ReplayPlayer::start_of(old(self).recorded()),
    {
        self.t = if self.samples.len() == 0 {
            Real::zero()
        } else {
            self.samples[0].t
        };
    }

    /// Every sample once, in order.
    pub fn iter_all(&self) -> (r: &'a Vec<TelemetrySample>)
        ensures
            r@ == self.recorded(),
    {
        self.samples
    }
}

/// Moving the playhead on leaves it within the recording: at the end if the recording is over,
/// and between the first and the last sample if it starts over.
pub proof fn playhead_stays_within(
    samples: Seq<TelemetrySample>,
    from: Real,
    moved: Real,
    wrapped: Real,
    looping: bool,
)
    requires
        samples.len() > 0,
        samples[0].t.at_most(samples.last().t),
        samples[0].t.at_most(moved),
        wrapped.is_number(),
    ensures
        ({
            let t = ReplayPlayer::moved_to(samples, from, moved, wrapped, looping);
            samples[0].t.at_most(t) && t.at_most(samples.last().t)
        }),
{
}

/// The latest sample is one at or before the time, and none at or before it comes later; there
/// is none exactly if all samples come after the time.
pub proof fn latest_is_the_last_one_due(samples: Seq<TelemetrySample>, t: Real, i: int)
    requires
        in_time_order(samples),
        0 <= i < samples.len(),
    ensures
        latest(samples, t) matches Some(s) ==> s.t.at_most(t) && samples.contains(s),
        samples[i].t.at_most(t) ==> (latest(samples, t) matches Some(s) && samples[i].t.at_most(
            s.t,
        )),
        latest(samples, t) is None ==> !samples[i].t.at_most(t),
    decreases samples.len(),
{
    let n = samples.len() - 1;
    assert(samples[n] == samples.last());
    assert(samples[i].t.at_most(samples[n].t));
    let init = samples.drop_last();
    if !samples.last().t.at_most(t) {
        assert(in_time_order(init)) by {
            assert forall|a: int, b: int| 0 <= a <= b < init.len() implies (
            #[trigger] init[a]).t.at_most((#[trigger] init[b]).t) by {
                assert(samples[a].t.at_most(samples[b].t));
            }
        }
        if i < n {
            latest_is_the_last_one_due(init, t, i);
            assert(init[i] == samples[i]);
        } else if init.len() > 0 {
            latest_is_the_last_one_due(init, t, 0);
        }
        if let Some(s) = latest(init, t) {
            let k = choose|k: int| 0 <= k < init.len() && init[k] == s;
            assert(samples[k] == s);
        }
    }
}

/// Samples are in order exactly if none comes before the one in front of it.
pub proof fn order_is_a_matter_of_neighbours(samples: Seq<TelemetrySample>, i: int, j: int)
    requires
        in_time_order(samples),
        0 <= i <= j < samples.len(),
    ensures
        samples[i].t.at_most(samples[j].t),
        samples[i].t.is_number(),
{
}

/// A recording spans from its first sample to its last and is played from the first on; without
/// samples it has no span and starts at 0.
pub proof fn span_reaches_from_first_to_last(samples: Seq<TelemetrySample>)
    ensures
        samples.len() == 0 ==> span_of(samples) is None && ReplayPlayer::start_of(samples)
            == Real::zero_value(),
        samples.len() > 0 ==> span_of(samples) == Some(
            (samples[0].t, samples[samples.len() - 1].t),
        ) && ReplayPlayer::start_of(samples) == samples[0].t,
{
}

/// The playhead goes where it is moved to, as long as that is within the recording. Beyond the
/// end it stops there, or starts over if the recording loops.
pub proof fn playhead_stops_or_starts_over(
    samples: Seq<TelemetrySample>,
    from: Real,
    moved: Real,
    wrapped: Real,
)
    requires
        samples.len() > 0,
        samples[0].t.at_most(samples[samples.len() - 1].t),
    ensures
        ({
            let (first, last) = (samples[0].t, samples[samples.len() - 1].t);
            let stop = ReplayPlayer::moved_to(samples, from, moved, wrapped, false);
            let over = ReplayPlayer::moved_to(samples, from, moved, wrapped, true);
            &&& moved.at_most(last) ==> stop == moved && over == moved
            &&& last.less(moved) ==> stop == last
            &&& last.less(moved) && first.at_most(wrapped) && wrapped.at_most(last) ==> over
                == wrapped
        }),
        ReplayPlayer::moved_to(Seq::empty(), from, moved, wrapped, true) == from,
        ReplayPlayer::moved_to(Seq::empty(), from, moved, wrapped, false) == from,
{
}

} // verus!
