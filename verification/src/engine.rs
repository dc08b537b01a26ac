//! The transition engine: from knob events to monitor writes.
//!
//! The engine keeps two levels, the one that the monitor shows and the
//! target that the knob has asked for. Every event moves the target by one
//! unit, within the range of levels. Whenever the target differs from what
//! the monitor shows, the engine animates toward it; an event that arrives
//! during an animation preempts it, and the next animation starts from the
//! level that was last written, so that a fast turn of the knob is one
//! continuous animation toward the most recent target.
//!
//! The thread that owns the monitor drives the engine: it hands each event
//! to [`TransitionEngine::on_event`], then plays frames with
//! [`TransitionEngine::next_frame`], writing what each frame asks for and
//! waiting one frame time, until there are no more frames or another event
//! is pending.

use vstd::prelude::*;
use crate::event::KnobAdjustmentEvent;
use crate::level::{clamp_level, clamped, is_level, MAX_BRIGHTNESS, MIN_BRIGHTNESS};
use crate::transition::{frame_count_spec, frame_time_ms, frame_time_spec};
use crate::transition::{FrameAction, Transition, TransitionView};

verus! {

/// The target after one event: one unit up or down, and not past the
/// lowest and highest levels.
pub open spec fn next_target(target: int, event: KnobAdjustmentEvent) -> int {
    clamped(target + event.delta())
}

/// The target after a sequence of events, taken in order.
pub open spec fn target_after(target: int, events: Seq<KnobAdjustmentEvent>) -> int
    decreases events.len(),
{
    if events.len() == 0 {
        target
    } else {
        next_target(target_after(target, events.drop_last()), events.last())
    }
}

/// A request for a transition, made afresh each time the target moves away
/// from what the monitor shows.
#[derive(Clone, Copy, Debug, PartialEq, Eq, Structural)]
pub struct TransitionRequest {
    pub from: u16,
    pub to: u16,
    pub duration_ms: u32,
}

/// One thing that happens to the engine: an event arrives, or a frame is
/// played.
pub enum EngineInput {
    Event(KnobAdjustmentEvent),
    Frame,
}

/// The events among a sequence of inputs, in order.
pub open spec fn events_of(inputs: Seq<EngineInput>) -> Seq<KnobAdjustmentEvent>
    decreases inputs.len(),
{
    if inputs.len() == 0 {
        Seq::empty()
    } else {
        match inputs.last() {
            EngineInput::Event(event) => events_of(inputs.drop_last()).push(event),
            EngineInput::Frame => events_of(inputs.drop_last()),
        }
    }
}

/// The engine as contracts see it.
pub struct EngineView {
    /// The level that the monitor shows.
    pub current: int,
    /// The level that the knob has asked for.
    pub target: int,
    /// The duration of every transition, in milliseconds.
    pub duration_ms: int,
    /// The refresh rate of the monitor.
    pub refresh_rate_hz: int,
    /// The transition in progress, if the engine is animating.
    pub active: Option<TransitionView>,
}

impl EngineView {
    pub open spec fn wf(self) -> bool {
        &&& is_level(self.current)
        &&& is_level(self.target)
        &&& 0 <= self.duration_ms <= u32::MAX
        &&& 1 <= self.refresh_rate_hz <= u16::MAX
        &&& match self.active {
            Some(transition) => {
                &&& transition.wf()
                &&& transition.to == self.target
                &&& transition.level() == self.current
                &&& transition.frames == frame_count_spec(self.duration_ms, self.refresh_rate_hz)
            },
            None => self.current == self.target,
        }
    }

    /// The engine right after start-up: the monitor's reported level,
    /// brought into range, is both what the monitor shows and the target.
    pub open spec fn seeded(reported: int, refresh_rate_hz: int, duration_ms: int) -> EngineView {
        EngineView {
            current: clamped(reported),
            target: clamped(reported),
            duration_ms,
            refresh_rate_hz,
            active: None,
        }
    }

    /// The transition that an event asks for: none when the new target is
    /// what the monitor already shows; else one from what the monitor shows
    /// to the new target.
    pub open spec fn request_for(self, event: KnobAdjustmentEvent) -> Option<TransitionRequest> {
        let target = next_target(self.target, event);
        if target == self.current {
            None
        } else {
            Some(
                TransitionRequest {
                    from: self.current as u16,
                    to: target as u16,
                    duration_ms: self.duration_ms as u32,
                },
            )
        }
    }

    /// The engine after an event. Whatever transition was in progress is
    /// dropped; the one the event asks for starts with no frame played.
    pub open spec fn after_event(self, event: KnobAdjustmentEvent) -> EngineView {
        let target = next_target(self.target, event);
        EngineView {
            target,
            active: if target == self.current {
                None
            } else {
                Some(
                    TransitionView {
                        from: self.current,
                        to: target,
                        frames: frame_count_spec(self.duration_ms, self.refresh_rate_hz),
                        played: 0,
                    },
                )
            },
            ..self
        }
    }

    /// What the next frame asks of the monitor; nothing when the engine is
    /// idle or its transition is complete.
    pub open spec fn frame_action(self) -> Option<FrameAction> {
        match self.active {
            Some(transition) => transition.next_action(),
            None => None,
        }
    }

    /// The engine after its next frame: a complete transition is retired,
    /// an incomplete one advances and the monitor shows the level of the
    /// frame.
    pub open spec fn after_frame(self) -> EngineView {
        match self.active {
            Some(transition) => if transition.is_complete() {
                EngineView { active: None, ..self }
            } else {
                EngineView {
                    current: transition.advanced().level(),
                    active: Some(transition.advanced()),
                    ..self
                }
            },
            None => self,
        }
    }

    /// The engine after one input.
    pub open spec fn after(self, input: EngineInput) -> EngineView {
        match input {
            EngineInput::Event(event) => self.after_event(event),
            EngineInput::Frame => self.after_frame(),
        }
    }

    /// The engine after a sequence of inputs, taken in order.
    pub open spec fn run(self, inputs: Seq<EngineInput>) -> EngineView
        decreases inputs.len(),
    {
        if inputs.len() == 0 {
            self
        } else {
            self.run(inputs.drop_last()).after(inputs.last())
        }
    }

    /// The engine after a number of frames with no event between them.
    pub open spec fn play(self, frames: nat) -> EngineView
        decreases frames,
    {
        if frames == 0 {
            self
        } else {
            self.after_frame().play((frames - 1) as nat)
        }
    }

    /// What a blocking receive hands on: the event that came together with
    /// the request it asks for, or nothing when the queue is closed.
    pub open spec fn taken_for(self, received: Option<KnobAdjustmentEvent>) -> Option<
        (KnobAdjustmentEvent, Option<TransitionRequest>),
    > {
        match received {
            Some(event) => Some((event, self.request_for(event))),
            None => None,
        }
    }

    /// The engine after a blocking receive: moved by the event that came,
    /// and unchanged when the queue is closed.
    pub open spec fn after_received(self, received: Option<KnobAdjustmentEvent>) -> EngineView {
        match received {
            Some(event) => self.after_event(event),
            None => self,
        }
    }

    /// What a look at the queue means for the transition in progress: with
    /// an event waiting the transition is preempted, and the level to go on
    /// from is the one that the monitor shows; with none waiting nothing is
    /// preempted.
    pub open spec fn preempted_by(self, pending: bool) -> Option<u16> {
        if pending {
            Some(self.current as u16)
        } else {
            None
        }
    }

    /// The number of frames that the transition in progress still has to
    /// play.
    pub open spec fn frames_left(self) -> int {
        match self.active {
            Some(transition) => transition.frames - transition.played,
            None => 0,
        }
    }
}

/// The state of the transition engine.
#[derive(Clone, Copy, Debug)]
pub struct TransitionEngine {
    current: u16,
    target: u16,
    duration_ms: u32,
    refresh_rate_hz: u16,
    active: Option<Transition>,
}

impl View for TransitionEngine {
    type V = EngineView;

    closed spec fn view(&self) -> EngineView {
        EngineView {
            current: self.current as int,
            target: self.target as int,
            duration_ms: self.duration_ms as int,
            refresh_rate_hz: self.refresh_rate_hz as int,
            active: match self.active {
                Some(transition) => Some(transition@),
                None => None,
            },
        }
    }
}

impl TransitionEngine {
    #[verifier::type_invariant]
    closed spec fn inv(self) -> bool {
        self@.wf()
    }

    /// Creates the engine at start-up from the level that the monitor
    /// reports, so that the first transition starts from the monitor's true
    /// state.
    pub fn new(reported: u16, refresh_rate_hz: u16, duration_ms: u32) -> (engine: TransitionEngine)
        requires
            refresh_rate_hz > 0,
        ensures
            engine@ == EngineView::seeded(
                reported as int,
                refresh_rate_hz as int,
                duration_ms as int,
            ),
            engine@.wf(),
    {
        let level = clamp_level(reported);
        TransitionEngine { current: level, target: level, duration_ms, refresh_rate_hz, active: None }
    }

    /// Takes one knob event: moves the target and, unless the monitor
    /// already shows the new target, starts a transition toward it from the
    /// level that the monitor shows. A transition in progress is preempted.
    /// The result is the request that the new transition serves.
    pub fn on_event(&mut self, event: KnobAdjustmentEvent) -> (request: Option<TransitionRequest>)
        ensures
            final(self)@ == old(self)@.after_event(event),
            request == old(self)@.request_for(event),
            final(self)@.wf(),
    {
        proof {
            use_type_invariant(&*self);
        }
        let target: u16 = match event {
            KnobAdjustmentEvent::Increment => if self.target < MAX_BRIGHTNESS {
                self.target + 1
            } else {
                MAX_BRIGHTNESS
            },
            KnobAdjustmentEvent::Decrement => if self.target > MIN_BRIGHTNESS {
                self.target - 1
            } else {
                MIN_BRIGHTNESS
            },
        };
        let current = self.current;
        let duration_ms = self.duration_ms;
        let refresh_rate_hz = self.refresh_rate_hz;
        if target == current {
            *self = TransitionEngine { current, target, duration_ms, refresh_rate_hz, active: None };
            None
        } else {
            let transition = Transition::begin(current, target, duration_ms, refresh_rate_hz);
            *self = TransitionEngine {
                current,
                target,
                duration_ms,
                refresh_rate_hz,
                active: Some(transition),
            };
            Some(TransitionRequest { from: current, to: target, duration_ms })
        }
    }

    /// Plays the next frame of the transition in progress and says what it
    /// asks of the monitor. `None` means that there is no frame to play:
    /// the engine is idle, or its transition was complete and is now
    /// retired.
    pub fn next_frame(&mut self) -> (action: Option<FrameAction>)
        ensures
            action == old(self)@.frame_action(),
            final(self)@ == old(self)@.after_frame(),
            final(self)@.wf(),
            action matches Some(FrameAction::Apply(level)) ==> level == final(self)@.current,
            action == Some(FrameAction::Hold) ==> final(self)@.current == old(self)@.current,
            action is None ==> final(self)@.active is None && final(self)@.current == old(
                self,
            )@.current,
    {
        proof {
            use_type_invariant(&*self);
        }
        let current = self.current;
        let target = self.target;
        let duration_ms = self.duration_ms;
        let refresh_rate_hz = self.refresh_rate_hz;
        match self.active {
            None => None,
            Some(transition) => {
                let mut transition = transition;
                let action = transition.next_frame();
                let level = transition.applied();
                let active = if action.is_some() {
                    Some(transition)
                } else {
                    None
                };
                *self = TransitionEngine {
                    current: level,
                    target,
                    duration_ms,
                    refresh_rate_hz,
                    active,
                };
                action
            },
        }
    }

    /// The level that the monitor shows: the last level written, or the
    /// seed if none was. When a transition is preempted, this is the level
    /// that the next one starts from.
    pub fn current(&self) -> (level: u16)
        ensures
            level == self@.current,
            is_level(level as int),
    {
        proof {
            use_type_invariant(self);
        }
        self.current
    }

    /// The level that the knob has asked for.
    pub fn target(&self) -> (level: u16)
        ensures
            level == self@.target,
            is_level(level as int),
    {
        proof {
            use_type_invariant(self);
        }
        self.target
    }

    /// Whether no transition is in progress.
    pub fn is_idle(&self) -> (idle: bool)
        ensures
            idle == (self@.active is None),
    {
        self.active.is_none()
    }

    /// Takes what a blocking receive on the event queue gave back. An event
    /// is handed to [`TransitionEngine::on_event`] and comes back with the
    /// request it asked for. `None`, which a closed queue gives, changes
    /// nothing and is answered with `None`: the engine's loop is over.
    pub fn receive(&mut self, received: Option<KnobAdjustmentEvent>) -> (taken: Option<
        (KnobAdjustmentEvent, Option<TransitionRequest>),
    >)
        ensures
            taken == old(self)@.taken_for(received),
            final(self)@ == old(self)@.after_received(received),
            final(self)@.wf(),
    {
        proof {
            use_type_invariant(&*self);
        }
        match received {
            Some(event) => {
                let request = self.on_event(event);
                Some((event, request))
            },
            None => None,
        }
    }

    /// Decides, for one look at the event queue while a frame time passes,
    /// whether the transition in progress is preempted. `pending` says
    /// whether an event was seen waiting. If one was, the answer is the
    /// level to go on from, which is the last level written and neither the
    /// level the transition started from nor its target; the event itself
    /// stays in the queue for the next receive. If none was, the answer is
    /// `None` and the wait goes on.
    pub fn preempted(&self, pending: bool) -> (baseline: Option<u16>)
        ensures
            baseline == self@.preempted_by(pending),
            baseline matches Some(level) ==> is_level(level as int),
    {
        proof {
            use_type_invariant(self);
        }
        if pending {
            Some(self.current)
        } else {
            None
        }
    }

    /// The time to wait after each frame, in milliseconds.
    pub fn frame_time_ms(&self) -> (millis: u64)
        ensures
            millis == frame_time_spec(self@.refresh_rate_hz),
    {
        proof {
            use_type_invariant(self);
        }
        frame_time_ms(self.refresh_rate_hz)
    }
}

/// Whatever the events, the target stays a level.
pub proof fn lemma_target_stays_in_range(target: int, events: Seq<KnobAdjustmentEvent>)
    requires
        is_level(target),
    ensures
        is_level(target_after(target, events)),
    decreases events.len(),
{
    if events.len() > 0 {
        lemma_target_stays_in_range(target, events.drop_last());
    }
}

/// At the highest level any number of increments changes nothing, and at
/// the lowest level any number of decrements changes nothing.
pub proof fn lemma_edges_are_idempotent(events: Seq<KnobAdjustmentEvent>)
    ensures
        (forall|i: int| 0 <= i < events.len() ==> events[i] == KnobAdjustmentEvent::Increment)
            ==> target_after(MAX_BRIGHTNESS as int, events) == MAX_BRIGHTNESS,
        (forall|i: int| 0 <= i < events.len() ==> events[i] == KnobAdjustmentEvent::Decrement)
            ==> target_after(MIN_BRIGHTNESS as int, events) == MIN_BRIGHTNESS,
    decreases events.len(),
{
    if events.len() > 0 {
        let shorter = events.drop_last();
        assert(forall|i: int| 0 <= i < shorter.len() ==> shorter[i] == events[i]);
        lemma_edges_are_idempotent(shorter);
    }
}

/// Every step of the engine keeps it well formed: the two levels stay in
/// range, and a transition in progress leads to the target and has brought
/// the monitor to the level of its last frame.
pub proof fn lemma_engine_stays_wf(engine: EngineView, event: KnobAdjustmentEvent)
    requires
        engine.wf(),
    ensures
        engine.after_event(event).wf(),
        engine.after_frame().wf(),
        engine.after_event(event).target == next_target(engine.target, event),
        engine.after_frame().target == engine.target,
{
    let frames = frame_count_spec(engine.duration_ms, engine.refresh_rate_hz);
    crate::transition::lemma_frame_count_in_range(engine.duration_ms, engine.refresh_rate_hz);
    crate::easing::lemma_ease_starts_at_from(
        engine.current,
        next_target(engine.target, event),
        frames,
    );
    match engine.active {
        Some(transition) => {
            if transition.is_complete() {
                crate::easing::lemma_ease_lands_on_target(
                    transition.from,
                    transition.to,
                    transition.frames,
                );
            } else {
                crate::easing::lemma_ease_never_overshoots(
                    transition.from,
                    transition.to,
                    transition.played + 1,
                    transition.frames,
                );
            }
        },
        None => {},
    }
}

/// Whatever happens to the engine, in whatever order, the engine stays well
/// formed and its target is the seed moved by the events alone: frames,
/// played or not, have no part in it.
pub proof fn lemma_target_follows_events_alone(engine: EngineView, inputs: Seq<EngineInput>)
    requires
        engine.wf(),
    ensures
        engine.run(inputs).wf(),
        engine.run(inputs).target == target_after(engine.target, events_of(inputs)),
        is_level(engine.run(inputs).target),
        is_level(engine.run(inputs).current),
    decreases inputs.len(),
{
    if inputs.len() > 0 {
        let before = engine.run(inputs.drop_last());
        lemma_target_follows_events_alone(engine, inputs.drop_last());
        match inputs.last() {
            EngineInput::Event(event) => {
                lemma_engine_stays_wf(before, event);
                let events = events_of(inputs.drop_last());
                assert(events.push(event).drop_last() =~= events);
            },
            EngineInput::Frame => {
                lemma_engine_stays_wf(before, KnobAdjustmentEvent::Increment);
            },
        }
    }
}

/// Left alone, the engine arrives: once the frames that are left have been
/// played and the transition is retired, the monitor shows the target and
/// the engine is idle, and more frames change nothing.
pub proof fn lemma_engine_settles_on_target(engine: EngineView, frames: nat)
    requires
        engine.wf(),
        frames > engine.frames_left(),
    ensures
        engine.play(frames).active is None,
        engine.play(frames).current == engine.target,
        engine.play(frames).target == engine.target,
    decreases frames,
{
    lemma_engine_stays_wf(engine, KnobAdjustmentEvent::Increment);
    let next = engine.after_frame();
    if frames > 1 {
        lemma_engine_settles_on_target(next, (frames - 1) as nat);
    } else {
        assert(next.play(0) == next);
    }
}

/// A transition that an event starts begins at the level that the monitor
/// shows at that moment, whatever transition was in progress and however
/// far it had come, and leads to the moved target.
pub proof fn lemma_preemption_continues_from_shown_level(
    engine: EngineView,
    event: KnobAdjustmentEvent,
)
    requires
        engine.wf(),
    ensures
        engine.after_event(event).current == engine.current,
        engine.after_event(event).active matches Some(transition) ==> {
            &&& transition.from == engine.current
            &&& transition.to == next_target(engine.target, event)
            &&& transition.played == 0
            &&& transition.level() == engine.current
        },
        engine.after_event(event).active is None <==> next_target(engine.target, event)
            == engine.current,
{
    lemma_engine_stays_wf(engine, event);
}

} // verus!
