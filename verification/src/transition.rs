//! One animated transition between two brightness levels.
//!
//! A transition is played frame by frame. For each frame the owner of the
//! monitor asks [`Transition::next_frame`] what to do, writes the level to
//! the monitor if told so, and then waits for one frame time. A transition
//! that is not played to its end has simply been preempted:
//! [`Transition::applied`] is the level that the monitor shows at any
//! point, and the level from which the next transition has to start.

use vstd::prelude::*;
use vstd::arithmetic::div_mod::lemma_div_is_ordered;
use vstd::arithmetic::mul::lemma_mul_upper_bound;
use crate::easing::{div_ceil, ease, eased_level, MAX_FRAMES};
use crate::easing::{lemma_ease_is_monotone, lemma_ease_lands_on_target, lemma_ease_starts_at_from};
use crate::level::is_level;

verus! {

/// The number of frames of a transition that lasts `duration_ms`
/// milliseconds on a monitor that shows `refresh_rate_hz` frames a second:
/// the duration in frames, rounded up, and never less than one frame.
pub open spec fn frame_count_spec(duration_ms: int, refresh_rate_hz: int) -> int {
    let frames = div_ceil(duration_ms * refresh_rate_hz, 1000);
    if frames < 1 {
        1
    } else {
        frames
    }
}

/// The time between two frames in whole milliseconds, rounded down.
pub open spec fn frame_time_spec(refresh_rate_hz: int) -> int {
    1000int / refresh_rate_hz
}

/// The number of frames of any transition is at least one and at most
/// [`MAX_FRAMES`].
pub proof fn lemma_frame_count_in_range(duration_ms: int, refresh_rate_hz: int)
    requires
        0 <= duration_ms <= u32::MAX,
        0 <= refresh_rate_hz <= u16::MAX,
    ensures
        1 <= frame_count_spec(duration_ms, refresh_rate_hz) <= MAX_FRAMES,
{
    lemma_mul_upper_bound(duration_ms, 0xffff_ffff, refresh_rate_hz, 0xffff);
    assert(0xffff_ffffint * 0xffffint == 0xfffe_ffff_0001int) by (nonlinear_arith);
    lemma_div_is_ordered(duration_ms * refresh_rate_hz + 999, 0xfffe_ffff_0001int + 999, 1000);
}

/// A transition of no duration has a single frame, whatever the refresh
/// rate.
pub proof fn lemma_zero_duration_is_one_frame(refresh_rate_hz: int)
    ensures
        frame_count_spec(0, refresh_rate_hz) == 1,
{
    assert(0 * refresh_rate_hz == 0);
}

/// Computes the number of frames of a transition. A duration of zero gives
/// a single frame, which jumps straight to the target.
pub fn frame_count(duration_ms: u32, refresh_rate_hz: u16) -> (frames: u64)
    ensures
        frames == frame_count_spec(duration_ms as int, refresh_rate_hz as int),
        1 <= frames <= MAX_FRAMES,
        duration_ms == 0 ==> frames == 1,
{
    let duration: u64 = duration_ms as u64;
    let rate: u64 = refresh_rate_hz as u64;
    proof {
        lemma_frame_count_in_range(duration as int, rate as int);
        lemma_zero_duration_is_one_frame(rate as int);
        lemma_mul_upper_bound(duration as int, 0xffff_ffff, rate as int, 0xffff);
        assert(0xffff_ffffint * 0xffffint == 0xfffe_ffff_0001int) by (nonlinear_arith);
    }
    let frames: u64 = (duration * rate + 999) / 1000;
    if frames < 1 {
        1
    } else {
        frames
    }
}

/// Computes the time to wait between two frames, in milliseconds.
pub fn frame_time_ms(refresh_rate_hz: u16) -> (millis: u64)
    requires
        refresh_rate_hz > 0,
    ensures
        millis == frame_time_spec(refresh_rate_hz as int),
        millis <= 1000,
{
    1000 / (refresh_rate_hz as u64)
}

/// What to do with the monitor for one frame.
#[derive(Clone, Copy, Debug, PartialEq, Eq, Structural)]
pub enum FrameAction {
    /// Write this level to the monitor.
    Apply(u16),
    /// The monitor already shows the level of this frame: write nothing.
    Hold,
}

/// A transition as contracts see it: its two ends, its length in frames and
/// the number of frames played so far.
pub struct TransitionView {
    pub from: int,
    pub to: int,
    pub frames: int,
    pub played: int,
}

impl TransitionView {
    pub open spec fn wf(self) -> bool {
        &&& is_level(self.from)
        &&& is_level(self.to)
        &&& 1 <= self.frames <= MAX_FRAMES
        &&& 0 <= self.played <= self.frames
    }

    /// The level of the given frame.
    pub open spec fn level_at(self, frame: int) -> int {
        eased_level(self.from, self.to, frame, self.frames)
    }

    /// The level that the monitor shows: that of the last frame played, and
    /// the level the transition starts from before the first frame.
    pub open spec fn level(self) -> int {
        self.level_at(self.played)
    }

    /// Whether every frame has been played.
    pub open spec fn is_complete(self) -> bool {
        self.played >= self.frames
    }

    /// What the next frame asks for: nothing once the transition is
    /// complete; else a write of the frame's level, unless the frame before
    /// it had the same level. The first frame has no frame before it and is
    /// always written.
    pub open spec fn next_action(self) -> Option<FrameAction> {
        if self.is_complete() {
            None
        } else {
            let next = self.level_at(self.played + 1);
            if self.played == 0 || next != self.level() {
                Some(FrameAction::Apply(next as u16))
            } else {
                Some(FrameAction::Hold)
            }
        }
    }

    /// The transition after its next frame.
    pub open spec fn advanced(self) -> TransitionView {
        if self.is_complete() {
            self
        } else {
            TransitionView { played: self.played + 1, ..self }
        }
    }

    /// The levels written to the monitor by the first `count` frames, in
    /// order.
    pub open spec fn writes(self, count: int) -> Seq<int>
        decreases count,
    {
        if count <= 0 {
            Seq::empty()
        } else if count == 1 || self.level_at(count) != self.level_at(count - 1) {
            self.writes(count - 1).push(self.level_at(count))
        } else {
            self.writes(count - 1)
        }
    }
}

/// A transition in progress.
#[derive(Clone, Copy, Debug)]
pub struct Transition {
    from: u16,
    to: u16,
    frames: u64,
    played: u64,
    level: u16,
}

impl View for Transition {
    type V = TransitionView;

    closed spec fn view(&self) -> TransitionView {
        TransitionView {
            from: self.from as int,
            to: self.to as int,
            frames: self.frames as int,
            played: self.played as int,
        }
    }
}

impl Transition {
    #[verifier::type_invariant]
    closed spec fn inv(self) -> bool {
        &&& self@.wf()
        &&& self.level == self@.level()
    }

    /// Starts a transition from `from` to `to` that lasts `duration_ms`
    /// milliseconds on a monitor of the given refresh rate. No frame has
    /// been played yet, and the monitor shows `from`.
    pub fn begin(from: u16, to: u16, duration_ms: u32, refresh_rate_hz: u16) -> (transition:
        Transition)
        requires
            is_level(from as int),
            is_level(to as int),
        ensures
            transition@ == (TransitionView {
                from: from as int,
                to: to as int,
                frames: frame_count_spec(duration_ms as int, refresh_rate_hz as int),
                played: 0,
            }),
            transition@.wf(),
            transition@.level() == from,
    {
        let frames = frame_count(duration_ms, refresh_rate_hz);
        proof {
            lemma_ease_starts_at_from(from as int, to as int, frames as int);
        }
        Transition { from, to, frames, played: 0, level: from }
    }

    /// Plays the next frame and says what it asks of the monitor. `None`
    /// means that the transition is complete and nothing was played.
    pub fn next_frame(&mut self) -> (action: Option<FrameAction>)
        ensures
            action == old(self)@.next_action(),
            final(self)@ == old(self)@.advanced(),
            final(self)@.wf(),
            action matches Some(FrameAction::Apply(level)) ==> level == final(self)@.level(),
            action == Some(FrameAction::Hold) ==> final(self)@.level() == old(self)@.level(),
    {
        proof {
            use_type_invariant(&*self);
        }
        if self.played >= self.frames {
            return None;
        }
        let frame: u64 = self.played + 1;
        let next = ease(self.from, self.to, frame, self.frames);
        let action = if self.played == 0 || next != self.level {
            FrameAction::Apply(next)
        } else {
            FrameAction::Hold
        };
        *self = Transition {
            from: self.from,
            to: self.to,
            frames: self.frames,
            played: frame,
            level: next,
        };
        Some(action)
    }

    /// The level that the monitor shows: the last level written, or the
    /// level the transition started from if none was. This is the level to
    /// go on from when the transition is preempted, and it is the target
    /// once the transition is complete.
    pub fn applied(&self) -> (level: u16)
        ensures
            level == self@.level(),
            is_level(level as int),
            self@.is_complete() ==> level == self@.to,
            self@.played == 0 ==> level == self@.from,
            self@.from <= self@.to ==> self@.from <= level <= self@.to,
            self@.from >= self@.to ==> self@.to <= level <= self@.from,
            self@.wf(),
    {
        proof {
            use_type_invariant(self);
            lemma_ease_starts_at_from(self@.from, self@.to, self@.frames);
            lemma_ease_lands_on_target(self@.from, self@.to, self@.frames);
            crate::easing::lemma_ease_never_overshoots(
                self@.from,
                self@.to,
                self@.played,
                self@.frames,
            );
        }
        self.level
    }

    /// Whether every frame has been played.
    pub fn is_complete(&self) -> (complete: bool)
        ensures
            complete == self@.is_complete(),
    {
        self.played >= self.frames
    }

    /// The level that the transition started from.
    pub fn origin(&self) -> (level: u16)
        ensures
            level == self@.from,
    {
        self.from
    }

    /// The level that the transition leads to.
    pub fn target(&self) -> (level: u16)
        ensures
            level == self@.to,
    {
        self.to
    }

    /// The number of frames of the whole transition.
    pub fn frames(&self) -> (frames: u64)
        ensures
            frames == self@.frames,
    {
        self.frames
    }

    /// The number of frames played so far.
    pub fn played(&self) -> (played: u64)
        ensures
            played == self@.played,
    {
        self.played
    }
}

/// Two consecutive frames of the same level cause one write between them:
/// the second of the two adds nothing to what the first frames wrote.
pub proof fn lemma_repeated_level_is_written_once(transition: TransitionView, frame: int)
    requires
        transition.wf(),
        1 <= frame < transition.frames,
        transition.level_at(frame + 1) == transition.level_at(frame),
    ensures
        transition.writes(frame + 1) == transition.writes(frame),
        (TransitionView { played: frame, ..transition }).next_action() == Some(FrameAction::Hold),
{
}

/// What the frames write is what their actions say: an `Apply` adds its
/// level to the writes, a `Hold` adds nothing.
pub proof fn lemma_writes_follow_actions(transition: TransitionView)
    requires
        transition.wf(),
        !transition.is_complete(),
    ensures
        transition.writes(transition.played + 1) == match transition.next_action() {
            Some(FrameAction::Apply(level)) => transition.writes(transition.played).push(
                level as int,
            ),
            _ => transition.writes(transition.played),
        },
{
    crate::easing::lemma_ease_never_overshoots(
        transition.from,
        transition.to,
        transition.played + 1,
        transition.frames,
    );
}

/// The last level written is the level of the last frame played, and the
/// levels written by a rising transition rise strictly, those of a falling
/// one fall strictly: no level is written twice.
pub proof fn lemma_writes_are_ordered(transition: TransitionView, count: int)
    requires
        transition.wf(),
        1 <= count <= transition.frames,
    ensures
        transition.writes(count).len() >= 1,
        transition.writes(count).last() == transition.level_at(count),
        transition.from <= transition.to ==> forall|i: int, j: int|
            0 <= i < j < transition.writes(count).len() ==> transition.writes(count)[i]
                < transition.writes(count)[j],
        transition.from >= transition.to ==> forall|i: int, j: int|
            0 <= i < j < transition.writes(count).len() ==> transition.writes(count)[i]
                > transition.writes(count)[j],
    decreases count,
{
    if count == 1 {
        assert(transition.writes(0) =~= Seq::empty());
        assert(transition.writes(1) =~= seq![transition.level_at(1)]);
    } else {
        lemma_writes_are_ordered(transition, count - 1);
        lemma_ease_is_monotone(
            transition.from,
            transition.to,
            count - 1,
            count,
            transition.frames,
        );
    }
}

/// A transition writes no more often than there are levels on its way,
/// however many frames it has: between two different levels, the number of
/// writes is at most their distance.
pub proof fn lemma_writes_are_few(transition: TransitionView, count: int)
    requires
        transition.wf(),
        1 <= count <= transition.frames,
        transition.from != transition.to,
    ensures
        transition.from < transition.to ==> transition.writes(count).len() <= transition.level_at(
            count,
        ) - transition.from <= transition.to - transition.from,
        transition.from > transition.to ==> transition.writes(count).len() <= transition.from
            - transition.level_at(count) <= transition.from - transition.to,
    decreases count,
{
    crate::easing::lemma_ease_never_overshoots(
        transition.from,
        transition.to,
        count,
        transition.frames,
    );
    if count == 1 {
        assert(transition.writes(0) =~= Seq::empty());
        assert(transition.writes(1) =~= seq![transition.level_at(1)]);
        crate::easing::lemma_ease_leaves_start_at_once(
            transition.from,
            transition.to,
            transition.frames,
        );
    } else {
        lemma_writes_are_few(transition, count - 1);
        lemma_ease_is_monotone(
            transition.from,
            transition.to,
            count - 1,
            count,
            transition.frames,
        );
    }
}

/// A transition played to its end has written its target last.
pub proof fn lemma_complete_transition_shows_target(transition: TransitionView)
    requires
        transition.wf(),
        transition.is_complete(),
    ensures
        transition.level() == transition.to,
        transition.writes(transition.frames).last() == transition.to,
{
    lemma_ease_lands_on_target(transition.from, transition.to, transition.frames);
    lemma_writes_are_ordered(transition, transition.frames);
}

} // verus!
