//! The pilot's keys: which are held, and which were just pressed.
//!
//! Keys are known by numbers. Those with a meaning have the numbers below; any other
//! number is a key without one.
use std::collections::HashSet;
use vstd::prelude::*;
use crate::messages::StickInput;
use crate::number::Real;

verus! {

pub const KEY_W: u32 = 1;

pub const KEY_S: u32 = 2;

pub const KEY_A: u32 = 3;

pub const KEY_D: u32 = 4;

pub const KEY_Q: u32 = 5;

pub const KEY_E: u32 = 6;

pub const KEY_F: u32 = 7;

pub const KEY_R: u32 = 8;

pub const KEY_UP: u32 = 9;

pub const KEY_DOWN: u32 = 10;

pub const KEY_LEFT: u32 = 11;

pub const KEY_RIGHT: u32 = 12;

/// Keys that modify others.
#[derive(Clone, Copy, Debug, PartialEq, Eq, Structural)]
pub struct Mods {
    pub shift: bool,
    pub ctrl: bool,
}

/// What happens at the keyboard.
#[derive(Clone, Copy, Debug, PartialEq, Eq, Structural)]
pub enum KeyEvent {
    Press(u32, Mods),
    Release(u32, Mods),
    Modifiers(Mods),
}

/// One frame of what the pilot wants.
#[derive(Clone, Copy, Debug, PartialEq, Eq, Structural)]
pub struct PilotInput {
    pub stick: StickInput,
    /// The fly-by-wire switch was pressed.
    pub toggle_fbw: bool,
    /// The reset was pressed.
    pub reset: bool,
}

/// Where a key drives an axis: to one end, to the other, or to the middle if both keys
/// or none are held.
pub open spec fn axis_value(pos: bool, neg: bool) -> Real {
    if pos && !neg {
        Real::one_value()
    } else if neg && !pos {
        Real::minus_one_value()
    } else {
        Real::zero_value()
    }
}

/// Where a pair of keys drives an axis.
pub fn bool_axis(pos: bool, neg: bool) -> (r: Real)
    ensures
        r == axis_value(pos, neg),
{
    if pos && !neg {
        Real::one()
    } else if neg && !pos {
        Real::minus_one()
    } else {
        Real::zero()
    }
}

/// The largest deflection of a gamepad's stick that counts as none: 0.08, as a
/// single-precision number has it.
pub open spec fn deadzone_value() -> Real {
    Real { bits: 0x3fb4_7ae1_4000_0000 }
}

/// The deflection of a gamepad's stick, or 0 if it is too small to count.
pub fn deadzone(v: Real) -> (r: Real)
    ensures
        r == (if v.unsigned().less(deadzone_value()) {
            Real::zero_value()
        } else {
            v
        }),
{
    if v.abs().lt(Real::from_bits(0x3fb4_7ae1_4000_0000)) {
        Real::zero()
    } else {
        v
    }
}

/// Where the keys drive the three axes.
#[derive(Clone, Copy, Debug, PartialEq, Eq, Structural)]
pub struct Targets {
    pub pitch: Real,
    pub roll: Real,
    pub yaw: Real,
}

/// How an axis can move in a frame.
#[derive(Clone, Copy, Debug, PartialEq, Eq, Structural)]
pub struct AxisMove {
    /// The way from where it stands to its target.
    pub gap: Real,
    /// Where it stands one step on, towards its target.
    pub nearer: Real,
}

/// How the axes can move in a frame.
#[derive(Clone, Copy, Debug, PartialEq, Eq, Structural)]
pub struct AxisMoves {
    /// How far an axis moves at most.
    pub step: Real,
    pub pitch: AxisMove,
    pub roll: AxisMove,
    pub yaw: AxisMove,
}

/// What a [`StickSource`] stands for.
pub struct StickState {
    /// The keys that are down.
    pub held: Set<u32>,
    pub mods: Mods,
    /// The axes that the keys drive.
    pub pitch: Real,
    pub roll: Real,
    pub yaw: Real,
    pub throttle: Real,
    /// Pressed and not yet reported.
    pub toggle: bool,
    pub reset: bool,
}

impl StickState {
    pub open spec fn centred(throttle: Real) -> StickState {
        StickState {
            held: Set::empty(),
            mods: Mods { shift: false, ctrl: false },
            pitch: Real::zero_value(),
            roll: Real::zero_value(),
            yaw: Real::zero_value(),
            throttle: throttle.clamped_to(Real::zero_value(), Real::one_value()),
            toggle: false,
            reset: false,
        }
    }

    /// The state after an event. A key that is down already does not count as pressed
    /// when it repeats.
    pub open spec fn after(self, ev: KeyEvent) -> StickState {
        match ev {
            KeyEvent::Press(key, mods) => StickState {
                held: self.held.insert(key),
                mods,
                toggle: self.toggle || (key == KEY_F && !self.held.contains(key)),
                reset: self.reset || (key == KEY_R && !self.held.contains(key)),
                ..self
            },
            KeyEvent::Release(key, mods) => StickState {
                held: self.held.remove(key),
                mods,
                ..self
            },
            KeyEvent::Modifiers(mods) => StickState { mods, ..self },
        }
    }

    /// The state after a number of events.
    pub open spec fn after_all(self, events: Seq<KeyEvent>) -> StickState
        decreases events.len(),
    {
        if events.len() == 0 {
            self
        } else {
            self.after_all(events.drop_last()).after(events.last())
        }
    }

    pub open spec fn targets(self) -> Targets {
        Targets {
            pitch: axis_value(
                self.held.contains(KEY_W) || self.held.contains(KEY_UP),
                self.held.contains(KEY_S) || self.held.contains(KEY_DOWN),
            ),
            roll: axis_value(
                self.held.contains(KEY_D) || self.held.contains(KEY_RIGHT),
                self.held.contains(KEY_A) || self.held.contains(KEY_LEFT),
            ),
            yaw: axis_value(self.held.contains(KEY_E), self.held.contains(KEY_Q)),
        }
    }

    /// Where the axes go in a frame: towards where the held keys drive them.
    pub open spec fn axes_after(self, moves: AxisMoves) -> Targets {
        let to = self.targets();
        Targets {
            pitch: slewed(moves.pitch.gap, moves.step, to.pitch, moves.pitch.nearer),
            roll: slewed(moves.roll.gap, moves.step, to.roll, moves.roll.nearer),
            yaw: slewed(moves.yaw.gap, moves.step, to.yaw, moves.yaw.nearer),
        }
    }

    /// The state after a frame: the axes and the throttle have moved, and what was pressed is
    /// reported.
    pub open spec fn polled(self, moves: AxisMoves, throttle: Real) -> StickState {
        StickState {
            pitch: self.axes_after(moves).pitch,
            roll: self.axes_after(moves).roll,
            yaw: self.axes_after(moves).yaw,
            throttle: throttle.clamped_to(Real::zero_value(), Real::one_value()),
            toggle: false,
            reset: false,
            ..self
        }
    }

    /// What a frame reports. `sum` is the stick with the gamepad's share.
    pub open spec fn reported(self, throttle: Real, sum: Targets) -> PilotInput {
        PilotInput {
            stick: (StickInput {
                pitch: sum.pitch,
                roll: sum.roll,
                yaw: sum.yaw,
                throttle,
            }).in_range(),
            toggle_fbw: self.toggle,
            reset: self.reset,
        }
    }
}

/// Turns key events into a stick.
pub struct StickSource {
    held: HashSet<u32>,
    mods: Mods,
    kb_pitch: Real,
    kb_roll: Real,
    kb_yaw: Real,
    throttle: Real,
    toggle_pending: bool,
    reset_pending: bool,
}

impl View for StickSource {
    type V = StickState;

    closed spec fn view(&self) -> StickState {
        StickState {
            held: self.held@,
            mods: self.mods,
            pitch: self.kb_pitch,
            roll: self.kb_roll,
            yaw: self.kb_yaw,
            throttle: self.throttle,
            toggle: self.toggle_pending,
            reset: self.reset_pending,
        }
    }
}

impl StickSource {
    /// A centred stick with the throttle at `throttle0`, within `[0, 1]`.
    pub fn new(throttle0: Real) -> (r: StickSource)
        ensures
            r@ == StickState::centred(throttle0),
    {
        StickSource {
            held: HashSet::new(),
            mods: Mods { shift: false, ctrl: false },
            kb_pitch: Real::zero(),
            kb_roll: Real::zero(),
            kb_yaw: Real::zero(),
            throttle: throttle0.clamp(Real::zero(), Real::one()),
            toggle_pending: false,
            reset_pending: false,
        }
    }

    /// Takes in one event.
    fn handle_event(&mut self, ev: KeyEvent)
        ensures
            final(self)@ == old(self)@.after(ev),
    {
        broadcast use vstd::std_specs::hash::group_hash_axioms;

        match ev {
            KeyEvent::Press(key, mods) => {
                self.mods = mods;
                if self.held.insert(key) {
                    if key == KEY_F {
                        self.toggle_pending = true;
                    } else if key == KEY_R {
                        self.reset_pending = true;
                    }
                }
            },
            KeyEvent::Release(key, mods) => {
                self.mods = mods;
                let _was_held = self.held.remove(&key);
            },
            KeyEvent::Modifiers(mods) => {
                self.mods = mods;
            },
        }
    }

    /// Takes in the events of a frame, in order.
    pub fn handle_window_events(&mut self, events: &Vec<KeyEvent>)
        ensures
            final(self)@ == old(self)@.after_all(events@),
    {
        let ghost start = self@;
        let mut i: usize = 0;
        assert(events@.take(0) =~= Seq::<KeyEvent>::empty());
        while i < events.len()
            invariant
                i <= events.len(),
                self@ == start.after_all(events@.take(i as int)),
            decreases events.len() - i,
        {
            proof {
                let more = events@.take(i + 1);
                assert(more.drop_last() =~= events@.take(i as int));
                assert(more.last() == events@[i as int]);
            }
            self.handle_event(events[i]);
            i = i + 1;
        }
        assert(events@.take(events@.len() as int) =~= events@);
    }

    fn down(&self, key: u32) -> (r: bool)
        ensures
            r == self@.held.contains(key),
    {
        broadcast use vstd::std_specs::hash::group_hash_axioms;

        self.held.contains(&key)
    }

    /// Where the held keys drive the axes.
    pub fn targets(&self) -> (r: Targets)
        ensures
            r == self@.targets(),
    {
        Targets {
            pitch: bool_axis(
                self.down(KEY_W) || self.down(KEY_UP),
                self.down(KEY_S) || self.down(KEY_DOWN),
            ),
            roll: bool_axis(
                self.down(KEY_D) || self.down(KEY_RIGHT),
                self.down(KEY_A) || self.down(KEY_LEFT),
            ),
            yaw: bool_axis(self.down(KEY_E), self.down(KEY_Q)),
        }
    }

    pub fn mods(&self) -> (r: Mods)
        ensures
            r == self@.mods,
    {
        self.mods
    }

    /// Where the axes stand.
    pub fn axes(&self) -> (r: Targets)
        ensures
            r == (Targets { pitch: self@.pitch, roll: self@.roll, yaw: self@.yaw }),
    {
        Targets { pitch: self.kb_pitch, roll: self.kb_roll, yaw: self.kb_yaw }
    }

    pub fn throttle(&self) -> (r: Real)
        ensures
            r == self@.throttle,
    {
        self.throttle
    }

    /// Notes a press of the gamepad's switches.
    pub fn press_buttons(&mut self, toggle: bool, reset: bool)
        ensures
            final(self)@ == (StickState {
                toggle: old(self)@.toggle || toggle,
                reset: old(self)@.reset || reset,
                ..old(self)@
            }),
    {
        self.toggle_pending = self.toggle_pending || toggle;
        self.reset_pending = self.reset_pending || reset;
    }

    /// Where the axes go in this frame, with nothing changed yet.
    pub fn moved_axes(&self, moves: AxisMoves) -> (r: Targets)
        ensures
            r == self@.axes_after(moves),
    {
        let to = self.targets();
        Targets {
            pitch: slew(moves.pitch.gap, moves.step, to.pitch, moves.pitch.nearer),
            roll: slew(moves.roll.gap, moves.step, to.roll, moves.roll.nearer),
            yaw: slew(moves.yaw.gap, moves.step, to.yaw, moves.yaw.nearer),
        }
    }

    /// Ends a frame. The axes move towards where the held keys drive them, and the throttle
    /// to `throttle`; `sum` is the stick with the gamepad's share. Presses are reported once.
    pub fn poll(&mut self, moves: AxisMoves, throttle: Real, sum: Targets) -> (r: PilotInput)
        ensures
            final(self)@ == old(self)@.polled(moves, throttle),
            r == old(self)@.reported(throttle, sum),
    {
        let axes = self.moved_axes(moves);
        self.kb_pitch = axes.pitch;
        self.kb_roll = axes.roll;
        self.kb_yaw = axes.yaw;
        self.throttle = throttle.clamp(Real::zero(), Real::one());
        let stick = StickInput { pitch: sum.pitch, roll: sum.roll, yaw: sum.yaw, throttle }.clamped();
        let toggle_fbw: bool = self.toggle_pending;
        let reset: bool = self.reset_pending;
        self.toggle_pending = false;
        self.reset_pending = false;
        PilotInput { stick, toggle_fbw, reset }
    }

    /// Centres the stick and puts the throttle to `throttle0`, within `[0, 1]`.
    pub fn recenter(&mut self, throttle0: Real)
        ensures
            final(self)@ == (StickState {
                pitch: Real::zero_value(),
                roll: Real::zero_value(),
                yaw: Real::zero_value(),
                throttle: throttle0.clamped_to(Real::zero_value(), Real::one_value()),
                ..old(self)@
            }),
    {
        self.kb_pitch = Real::zero();
        self.kb_roll = Real::zero();
        self.kb_yaw = Real::zero();
        self.throttle = throttle0.clamp(Real::zero(), Real::one());
    }
}

/// A key that is held down is reported once: repeating the press adds nothing.
pub proof fn repeated_press_counts_once(s: StickState, key: u32, mods: Mods)
    requires
        s.held.contains(key),
    ensures
        s.after(KeyEvent::Press(key, mods)).toggle == s.toggle,
        s.after(KeyEvent::Press(key, mods)).reset == s.reset,
        s.after(KeyEvent::Press(key, mods)).held == s.held,
{
    assert(s.held.insert(key) =~= s.held);
}

/// Releasing a key and pressing it again counts as a press.
pub proof fn fresh_press_counts(s: StickState, mods: Mods)
    ensures
        s.after(KeyEvent::Release(KEY_F, mods)).after(KeyEvent::Press(KEY_F, mods)).toggle,
        s.after(KeyEvent::Release(KEY_R, mods)).after(KeyEvent::Press(KEY_R, mods)).reset,
{
}

/// A press is reported once: a second frame without events in between reports none, whatever
/// the axes do; nor does one in which held keys repeat.
pub proof fn second_poll_reports_no_press(
    s: StickState,
    moves: AxisMoves,
    throttle: Real,
    later: Real,
    sum: Targets,
    key: u32,
    mods: Mods,
)
    ensures
        !s.polled(moves, throttle).reported(later, sum).toggle_fbw,
        !s.polled(moves, throttle).reported(later, sum).reset,
        s.held.contains(key) ==> {
            let repeated = s.polled(moves, throttle).after(KeyEvent::Press(key, mods));
            !repeated.reported(later, sum).toggle_fbw && !repeated.reported(later, sum).reset
        },
{
}

/// Where an axis goes that moves towards a target by at most `step`: onto the target if the
/// `gap` to it is no larger, else to `nearer`, one step on.
pub open spec fn slewed(gap: Real, step: Real, target: Real, nearer: Real) -> Real {
    if gap.unsigned().at_most(step) {
        target
    } else {
        nearer
    }
}

/// Whether a number lies between two others, in either order.
pub open spec fn between(a: Real, x: Real, b: Real) -> bool {
    (a.at_most(x) && x.at_most(b)) || (b.at_most(x) && x.at_most(a))
}

/// An axis moves towards its target and never beyond, one step at a time: onto the target if
/// that is within a step, else exactly one step on. `cur` is where the axis stands, `gap` the
/// way to the target; `nearer`, one step on, lies between. On the target it stays.
pub proof fn slewing_does_not_overshoot(
    cur: Real,
    target: Real,
    gap: Real,
    step: Real,
    nearer: Real,
)
    requires
        cur.is_number(),
        target.is_number(),
        gap.is_number(),
        Real::zero_value().at_most(step),
        step.less(gap.unsigned()) ==> between(cur, nearer, target),
    ensures
        between(cur, slewed(gap, step, target, nearer), target),
        gap.unsigned().at_most(step) ==> slewed(gap, step, target, nearer) == target,
        step.less(gap.unsigned()) ==> slewed(gap, step, target, nearer) == nearer,
        gap.same(Real::zero_value()) ==> slewed(gap, step, target, nearer) == target,
{
}

/// Whether one step on lies between where an axis stands and its target, unless the target is
/// within a step.
pub open spec fn goes_towards(cur: Real, m: AxisMove, step: Real, target: Real) -> bool {
    &&& cur.is_number()
    &&& m.gap.is_number()
    &&& step.less(m.gap.unsigned()) ==> between(cur, m.nearer, target)
}

/// A frame moves each axis towards where the held keys drive it, and never beyond, whichever
/// keys are held.
pub proof fn axes_move_towards_the_keys(s: StickState, moves: AxisMoves, throttle: Real)
    requires
        Real::zero_value().at_most(moves.step),
        goes_towards(s.pitch, moves.pitch, moves.step, s.targets().pitch),
        goes_towards(s.roll, moves.roll, moves.step, s.targets().roll),
        goes_towards(s.yaw, moves.yaw, moves.step, s.targets().yaw),
    ensures
        between(s.pitch, s.polled(moves, throttle).pitch, s.targets().pitch),
        between(s.roll, s.polled(moves, throttle).roll, s.targets().roll),
        between(s.yaw, s.polled(moves, throttle).yaw, s.targets().yaw),
{
}

/// What a frame reports lies within the range of the stick: each axis within one, the
/// throttle between idle and full. So does the throttle that is kept.
pub proof fn reported_stick_is_in_range(
    s: StickState,
    moves: AxisMoves,
    throttle: Real,
    sum: Targets,
)
    requires
        throttle.is_number(),
        sum.pitch.is_number(),
        sum.roll.is_number(),
        sum.yaw.is_number(),
    ensures
        ({
            let stick = s.reported(throttle, sum).stick;
            let (lo, hi) = (Real::minus_one_value(), Real::one_value());
            &&& lo.at_most(stick.pitch) && stick.pitch.at_most(hi)
            &&& lo.at_most(stick.roll) && stick.roll.at_most(hi)
            &&& lo.at_most(stick.yaw) && stick.yaw.at_most(hi)
            &&& Real::zero_value().at_most(stick.throttle) && stick.throttle.at_most(hi)
            &&& s.polled(moves, throttle).throttle == stick.throttle
        }),
{
}

/// Moves an axis towards a target.
pub fn slew(gap: Real, step: Real, target: Real, nearer: Real) -> (r: Real)
    ensures
        r == slewed(gap, step, target, nearer),
{
    if gap.abs().le(step) {
        target
    } else {
        nearer
    }
}

/// Whether a gamepad's throttle stick is deflected far enough to count.
pub fn throttle_counts(v: Real) -> (r: bool)
    ensures
        r == deadzone_value().less(v.unsigned()),
{
    Real::from_bits(0x3fb4_7ae1_4000_0000).lt(v.abs())
}

/// Each axis has its own keys: W or up pitches up, S or down pitches down; D or right rolls
/// right, A or left rolls left; E turns right, Q left. Both ends at once, or neither, leave an
/// axis in the middle.
pub proof fn keys_drive_their_axes(s: StickState)
    ensures
        ({
            let (one, z, t) = (Real::one_value(), Real::zero_value(), s.targets());
            let up = s.held.contains(KEY_W) || s.held.contains(KEY_UP);
            let down = s.held.contains(KEY_S) || s.held.contains(KEY_DOWN);
            let right = s.held.contains(KEY_D) || s.held.contains(KEY_RIGHT);
            let left = s.held.contains(KEY_A) || s.held.contains(KEY_LEFT);
            let (e, q) = (s.held.contains(KEY_E), s.held.contains(KEY_Q));
            &&& up && !down ==> t.pitch == one
            &&& down && !up ==> t.pitch == one.negated()
            &&& up == down ==> t.pitch == z
            &&& right && !left ==> t.roll == one
            &&& left && !right ==> t.roll == one.negated()
            &&& right == left ==> t.roll == z
            &&& e && !q ==> t.yaw == one
            &&& q && !e ==> t.yaw == one.negated()
            &&& e == q ==> t.yaw == z
        }),
        axis_value(true, false) == Real::one_value(),
        axis_value(false, true) == Real::one_value().negated(),
        axis_value(true, true) == Real::zero_value(),
        axis_value(false, false) == Real::zero_value(),
{
}

/// An event changes the key it is about and the modifiers, and nothing of the stick. A press of
/// F or R counts if the key was up.
pub proof fn events_change_their_key(s: StickState, key: u32, other: u32, mods: Mods)
    requires
        other != key,
    ensures
        ({
            let a = s.after(KeyEvent::Press(key, mods));
            &&& a.held.contains(key) && a.held.contains(other) == s.held.contains(other)
            &&& a.mods == mods
            &&& a.toggle <==> s.toggle || (key == KEY_F && !s.held.contains(KEY_F))
            &&& a.reset <==> s.reset || (key == KEY_R && !s.held.contains(KEY_R))
            &&& a.pitch == s.pitch && a.roll == s.roll && a.yaw == s.yaw
            &&& a.throttle == s.throttle
        }),
        ({
            let a = s.after(KeyEvent::Release(key, mods));
            &&& !a.held.contains(key) && a.held.contains(other) == s.held.contains(other)
            &&& a.mods == mods && a.toggle == s.toggle && a.reset == s.reset
            &&& a.pitch == s.pitch && a.roll == s.roll && a.yaw == s.yaw
            &&& a.throttle == s.throttle
        }),
        ({
            let a = s.after(KeyEvent::Modifiers(mods));
            &&& a.held == s.held && a.mods == mods
            &&& a.toggle == s.toggle && a.reset == s.reset
            &&& a.pitch == s.pitch && a.roll == s.roll && a.yaw == s.yaw
            &&& a.throttle == s.throttle
        }),
{
}

/// Events count in their order: some events and then some more come to what all of them come to.
pub proof fn events_count_in_order(s: StickState, first: Seq<KeyEvent>, rest: Seq<KeyEvent>)
    ensures
        s.after_all(first + rest) == s.after_all(first).after_all(rest),
        s.after_all(Seq::empty()) == s,
    decreases rest.len(),
{
    let all = first + rest;
    if rest.len() == 0 {
        assert(all =~= first);
    } else {
        events_count_in_order(s, first, rest.drop_last());
        assert(all.drop_last() =~= first + rest.drop_last());
        assert(all.last() == rest.last());
    }
}

/// A frame keeps the held keys and the modifiers, takes over a throttle between idle and full
/// as it is, and reports a stick within its range as it is, with what was pressed since the last
/// frame.
pub proof fn frame_reports_the_stick(
    s: StickState,
    moves: AxisMoves,
    throttle: Real,
    sum: Targets,
)
    ensures
        s.polled(moves, throttle).held == s.held,
        s.polled(moves, throttle).mods == s.mods,
        Real::zero_value().at_most(throttle) && throttle.at_most(Real::one_value()) ==> s.polled(
            moves,
            throttle,
        ).throttle == throttle && s.reported(throttle, sum).stick.throttle == throttle,
        throttle.less(Real::zero_value()) ==> s.polled(moves, throttle).throttle
            == Real::zero_value(),
        Real::one_value().less(throttle) ==> s.polled(moves, throttle).throttle
            == Real::one_value(),
        ({
            let (lo, hi, p) = (
                Real::one_value().negated(),
                Real::one_value(),
                s.reported(throttle, sum),
            );
            &&& lo.at_most(sum.pitch) && sum.pitch.at_most(hi) ==> p.stick.pitch == sum.pitch
            &&& lo.at_most(sum.roll) && sum.roll.at_most(hi) ==> p.stick.roll == sum.roll
            &&& lo.at_most(sum.yaw) && sum.yaw.at_most(hi) ==> p.stick.yaw == sum.yaw
            &&& p.toggle_fbw == s.toggle && p.reset == s.reset
        }),
{
}

/// Each axis comes onto its own target if that is within a step, and else goes one step on.
pub proof fn axes_move_apart(s: StickState, moves: AxisMoves, throttle: Real)
    ensures
        ({
            let (r, to) = (s.polled(moves, throttle), s.targets());
            let (p, q, y) = (moves.pitch, moves.roll, moves.yaw);
            &&& p.gap.unsigned().at_most(moves.step) ==> r.pitch == to.pitch
            &&& !p.gap.unsigned().at_most(moves.step) ==> r.pitch == p.nearer
            &&& q.gap.unsigned().at_most(moves.step) ==> r.roll == to.roll
            &&& !q.gap.unsigned().at_most(moves.step) ==> r.roll == q.nearer
            &&& y.gap.unsigned().at_most(moves.step) ==> r.yaw == to.yaw
            &&& !y.gap.unsigned().at_most(moves.step) ==> r.yaw == y.nearer
        }),
{
}

/// A stick starts centred, with no key held and nothing pressed, its throttle within range.
pub proof fn stick_starts_centred(throttle: Real, key: u32)
    ensures
        ({
            let (s, z) = (StickState::centred(throttle), Real::zero_value());
            &&& !s.held.contains(key) && !s.mods.shift && !s.mods.ctrl
            &&& s.pitch == z && s.roll == z && s.yaw == z
            &&& !s.toggle && !s.reset
            &&& z.at_most(throttle) && throttle.at_most(Real::one_value()) ==> s.throttle
                == throttle
            &&& throttle.less(z) ==> s.throttle == z
            &&& Real::one_value().less(throttle) ==> s.throttle == Real::one_value()
        }),
{
}

/// A gamepad's stick counts from 0.08 on.
pub proof fn small_deflections_do_not_count()
    ensures
        deadzone_value().bits == 0x3fb4_7ae1_4000_0000,
        Real::zero_value().less(deadzone_value()),
        deadzone_value().less(Real::one_value()),
{
}

} // verus!
