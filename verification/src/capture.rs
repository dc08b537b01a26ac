//! The lifecycle of the input-capture thread.
//!
//! The capture thread registers one low-level hook, installs the handler
//! that turns an interrupt into a wake-up of its own message wait, and then
//! sits in a blocking retrieval loop, forwarding knob events to the event
//! queue. All of that is work only the operating system can do; what the
//! thread does next, given what the last piece of work reported, is decided
//! here.
//!
//! The thread owns a [`CaptureLifecycle`] value. It asks it for the pending
//! [`CaptureAction`], performs that action, reports the result as a
//! [`CaptureEvent`] to [`CaptureLifecycle::step`], and repeats until the
//! pending action is [`CaptureAction::Exit`].

use vstd::prelude::*;
use crate::event::KnobAdjustmentEvent;
use crate::hook::{keyboard_event, keyboard_hook, mouse_event, mouse_hook};
use crate::hook::{WH_KEYBOARD_LL, WH_MOUSE_LL};

verus! {

/// Number of the message that ends a message loop. Posting it to the queue
/// of the capture thread is the only way to wake that thread out of its
/// blocking retrieval call.
pub const WM_QUIT: u32 = 0x0012;

/// Where the knob gestures come from.
#[derive(Clone, Copy, Debug, PartialEq, Eq, Structural)]
pub enum HookSource {
    /// The two dedicated keys of the physical knob.
    Keyboard,
    /// The vertical mouse wheel, standing in for the knob.
    MouseWheel,
}

impl HookSource {
    /// The source that a configuration selects: any emulation setting
    /// selects the mouse wheel, none selects the keyboard.
    pub open spec fn configured_spec(emulate_knob: Option<bool>) -> HookSource {
        match emulate_knob {
            Some(_) => HookSource::MouseWheel,
            None => HookSource::Keyboard,
        }
    }

    /// The identifier of the low-level hook that observes this source.
    pub open spec fn hook_id_spec(self) -> i32 {
        match self {
            HookSource::Keyboard => WH_KEYBOARD_LL,
            HookSource::MouseWheel => WH_MOUSE_LL,
        }
    }

    /// The knob event that one notification of this source stands for.
    /// `data` is the virtual-key code for the keyboard and the mouse data
    /// word for the wheel.
    pub open spec fn classify_spec(self, code: i32, w_param: usize, data: u32) -> Option<
        KnobAdjustmentEvent,
    > {
        match self {
            HookSource::Keyboard => keyboard_event(code, w_param, data),
            HookSource::MouseWheel => mouse_event(code, w_param, data),
        }
    }

    /// Selects the source from the configuration.
    pub fn configured(emulate_knob: Option<bool>) -> (source: HookSource)
        ensures
            source == Self::configured_spec(emulate_knob),
    {
        match emulate_knob {
            Some(_) => HookSource::MouseWheel,
            None => HookSource::Keyboard,
        }
    }

    /// The identifier to register the hook with.
    pub fn hook_id(self) -> (id: i32)
        ensures
            id == self.hook_id_spec(),
    {
        match self {
            HookSource::Keyboard => WH_KEYBOARD_LL,
            HookSource::MouseWheel => WH_MOUSE_LL,
        }
    }

    /// Decides what the hook of this source posts for one notification.
    pub fn classify(self, code: i32, w_param: usize, data: u32) -> (posted: Option<
        KnobAdjustmentEvent,
    >)
        ensures
            posted == self.classify_spec(code, w_param, data),
    {
        match self {
            HookSource::Keyboard => keyboard_hook(code, w_param, data),
            HookSource::MouseWheel => mouse_hook(code, w_param, data),
        }
    }
}

/// Why the interrupt handler could not be installed.
#[derive(Clone, Copy, Debug, PartialEq, Eq, Structural)]
pub enum StopHandlerFault {
    /// The interrupt signal is unknown to the system.
    NoSuchSignal,
    /// The process already has an interrupt handler.
    MultipleHandlers,
    /// The system refused the registration.
    System,
}

/// Why the capture thread ended without being asked to.
#[derive(Clone, Copy, Debug, PartialEq, Eq, Structural)]
pub enum HandlerError {
    /// The hook could not be registered; the value is the system's error
    /// code.
    HookError(i32),
    /// The interrupt handler could not be installed.
    StopHandlerError(StopHandlerFault),
    /// The event queue no longer has a receiver; the value is the event that
    /// could not be delivered.
    TXError(KnobAdjustmentEvent),
}

/// How a capture thread ended: `Finished` after a requested stop, `Failed`
/// with the reason otherwise.
#[derive(Clone, Copy, Debug, PartialEq, Eq, Structural)]
pub enum CaptureOutcome {
    Finished,
    Failed(HandlerError),
}

impl CaptureOutcome {
    pub open spec fn as_result(self) -> Result<(), HandlerError> {
        match self {
            CaptureOutcome::Finished => Ok(()),
            CaptureOutcome::Failed(e) => Err(e),
        }
    }

    /// The outcome as the result that the capture thread returns.
    pub fn into_result(self) -> (r: Result<(), HandlerError>)
        ensures
            r == self.as_result(),
    {
        match self {
            CaptureOutcome::Finished => Ok(()),
            CaptureOutcome::Failed(e) => Err(e),
        }
    }
}

/// What the capture thread has to do next.
#[derive(Clone, Copy, Debug, PartialEq, Eq, Structural)]
pub enum CaptureAction {
    /// Register the low-level hook of the given source.
    RegisterHook(HookSource),
    /// Install the interrupt handler that posts [`WM_QUIT`] to this thread.
    InstallStopHandler,
    /// Block until the next message arrives.
    AwaitMessage,
    /// Send the event into the event queue.
    Forward(KnobAdjustmentEvent),
    /// Unregister the hook.
    Unhook,
    /// Leave the thread with the given outcome.
    Exit(CaptureOutcome),
}

/// What the capture thread reports after performing an action.
#[derive(Clone, Copy, Debug, PartialEq, Eq, Structural)]
pub enum CaptureEvent {
    /// The hook is registered.
    HookRegistered,
    /// The hook could not be registered; the value is the system's error
    /// code.
    HookFailed(i32),
    /// The interrupt handler is installed.
    StopHandlerInstalled,
    /// The interrupt handler could not be installed.
    StopHandlerFailed(StopHandlerFault),
    /// The blocking retrieval returned a message with this number.
    Message(u32),
    /// The blocking retrieval returned because the directed wake-up
    /// arrived.
    Quit,
    /// The event queue took the event.
    Delivered,
    /// The event queue has no receiver left.
    Undelivered,
    /// The hook is unregistered.
    Unhooked,
}

/// The state of the capture thread.
#[derive(Clone, Copy, Debug, PartialEq, Eq, Structural)]
pub enum CaptureLifecycle {
    /// Nothing is registered yet; the hook of the given source is about to
    /// be.
    Starting(HookSource),
    /// The hook is registered; the interrupt handler is about to be
    /// installed.
    Arming,
    /// The thread waits for the next message.
    Running,
    /// A retrieved message was a knob event, which is on its way into the
    /// event queue.
    Forwarding(KnobAdjustmentEvent),
    /// The thread is on its way out and still holds the hook.
    Stopping(CaptureOutcome),
    /// The thread holds nothing and reports the outcome.
    Stopped(CaptureOutcome),
}

impl CaptureLifecycle {
    /// The state in which a capture thread starts.
    pub open spec fn initial(emulate_knob: Option<bool>) -> CaptureLifecycle {
        CaptureLifecycle::Starting(HookSource::configured_spec(emulate_knob))
    }

    /// Whether the thread holds a registered hook in this state.
    pub open spec fn holds_hook(self) -> bool {
        match self {
            CaptureLifecycle::Starting(_) => false,
            CaptureLifecycle::Arming => true,
            CaptureLifecycle::Running => true,
            CaptureLifecycle::Forwarding(_) => true,
            CaptureLifecycle::Stopping(_) => true,
            CaptureLifecycle::Stopped(_) => false,
        }
    }

    /// The action that this state waits for.
    pub open spec fn pending_spec(self) -> CaptureAction {
        match self {
            CaptureLifecycle::Starting(source) => CaptureAction::RegisterHook(source),
            CaptureLifecycle::Arming => CaptureAction::InstallStopHandler,
            CaptureLifecycle::Running => CaptureAction::AwaitMessage,
            CaptureLifecycle::Forwarding(event) => CaptureAction::Forward(event),
            CaptureLifecycle::Stopping(_) => CaptureAction::Unhook,
            CaptureLifecycle::Stopped(outcome) => CaptureAction::Exit(outcome),
        }
    }

    /// The state after a report. A report that does not answer the pending
    /// action changes nothing.
    pub open spec fn next(self, event: CaptureEvent) -> CaptureLifecycle {
        match (self, event) {
            (CaptureLifecycle::Starting(_), CaptureEvent::HookRegistered) => {
                CaptureLifecycle::Arming
            },
            (CaptureLifecycle::Starting(_), CaptureEvent::HookFailed(code)) => {
                CaptureLifecycle::Stopped(CaptureOutcome::Failed(HandlerError::HookError(code)))
            },
            (CaptureLifecycle::Arming, CaptureEvent::StopHandlerInstalled) => {
                CaptureLifecycle::Running
            },
            (CaptureLifecycle::Arming, CaptureEvent::StopHandlerFailed(fault)) => {
                CaptureLifecycle::Stopping(
                    CaptureOutcome::Failed(HandlerError::StopHandlerError(fault)),
                )
            },
            (CaptureLifecycle::Running, CaptureEvent::Message(code)) => {
                match KnobAdjustmentEvent::from_message_spec(code) {
                    Some(knob) => CaptureLifecycle::Forwarding(knob),
                    None => CaptureLifecycle::Running,
                }
            },
            (CaptureLifecycle::Running, CaptureEvent::Quit) => {
                CaptureLifecycle::Stopping(CaptureOutcome::Finished)
            },
            (CaptureLifecycle::Forwarding(_), CaptureEvent::Delivered) => {
                CaptureLifecycle::Running
            },
            (CaptureLifecycle::Forwarding(knob), CaptureEvent::Undelivered) => {
                CaptureLifecycle::Stopping(CaptureOutcome::Failed(HandlerError::TXError(knob)))
            },
            (CaptureLifecycle::Stopping(outcome), CaptureEvent::Unhooked) => {
                CaptureLifecycle::Stopped(outcome)
            },
            _ => self,
        }
    }

    /// The state after a sequence of reports, taken in order.
    pub open spec fn run(self, events: Seq<CaptureEvent>) -> CaptureLifecycle
        decreases events.len(),
    {
        if events.len() == 0 {
            self
        } else {
            self.run(events.drop_last()).next(events.last())
        }
    }

    /// Starts the lifecycle of a capture thread for the configured source.
    pub fn start(emulate_knob: Option<bool>) -> (state: CaptureLifecycle)
        ensures
            state == Self::initial(emulate_knob),
            !state.holds_hook(),
    {
        CaptureLifecycle::Starting(HookSource::configured(emulate_knob))
    }

    /// The action that the thread has to perform in this state.
    pub fn pending(&self) -> (action: CaptureAction)
        ensures
            action == self.pending_spec(),
            action is Exit ==> !self.holds_hook(),
            action is RegisterHook ==> !self.holds_hook(),
            (action is InstallStopHandler || action is AwaitMessage || action is Forward
                || action is Unhook) ==> self.holds_hook(),
    {
        match *self {
            CaptureLifecycle::Starting(source) => CaptureAction::RegisterHook(source),
            CaptureLifecycle::Arming => CaptureAction::InstallStopHandler,
            CaptureLifecycle::Running => CaptureAction::AwaitMessage,
            CaptureLifecycle::Forwarding(event) => CaptureAction::Forward(event),
            CaptureLifecycle::Stopping(_) => CaptureAction::Unhook,
            CaptureLifecycle::Stopped(outcome) => CaptureAction::Exit(outcome),
        }
    }

    /// Moves to the state that follows a report of the thread.
    pub fn step(self, event: CaptureEvent) -> (after: CaptureLifecycle)
        ensures
            after == self.next(event),
    {
        match (self, event) {
            (CaptureLifecycle::Starting(_), CaptureEvent::HookRegistered) => {
                CaptureLifecycle::Arming
            },
            (CaptureLifecycle::Starting(_), CaptureEvent::HookFailed(code)) => {
                CaptureLifecycle::Stopped(CaptureOutcome::Failed(HandlerError::HookError(code)))
            },
            (CaptureLifecycle::Arming, CaptureEvent::StopHandlerInstalled) => {
                CaptureLifecycle::Running
            },
            (CaptureLifecycle::Arming, CaptureEvent::StopHandlerFailed(fault)) => {
                CaptureLifecycle::Stopping(
                    CaptureOutcome::Failed(HandlerError::StopHandlerError(fault)),
                )
            },
            (CaptureLifecycle::Running, CaptureEvent::Message(code)) => {
                match KnobAdjustmentEvent::from_message(code) {
                    Some(knob) => CaptureLifecycle::Forwarding(knob),
                    None => CaptureLifecycle::Running,
                }
            },
            (CaptureLifecycle::Running, CaptureEvent::Quit) => {
                CaptureLifecycle::Stopping(CaptureOutcome::Finished)
            },
            (CaptureLifecycle::Forwarding(_), CaptureEvent::Delivered) => {
                CaptureLifecycle::Running
            },
            (CaptureLifecycle::Forwarding(knob), CaptureEvent::Undelivered) => {
                CaptureLifecycle::Stopping(CaptureOutcome::Failed(HandlerError::TXError(knob)))
            },
            (CaptureLifecycle::Stopping(outcome), CaptureEvent::Unhooked) => {
                CaptureLifecycle::Stopped(outcome)
            },
            (state, _) => state,
        }
    }
}

/// A step changes whether the hook is held only in two places: a successful
/// registration takes it, an unregistration gives it back.
pub proof fn lemma_hook_changes_hands(state: CaptureLifecycle, event: CaptureEvent)
    ensures
        state.next(event).holds_hook() == if state is Starting && event is HookRegistered {
            true
        } else if state is Stopping && event is Unhooked {
            false
        } else {
            state.holds_hook()
        },
{
}

/// An event is put on its way into the queue only for a retrieved message
/// that carries it: one event at most for each message, and none for any
/// other report.
pub proof fn lemma_forward_needs_message(state: CaptureLifecycle, event: CaptureEvent)
    requires
        state.next(event) is Forwarding,
        state.next(event) != state,
    ensures
        state is Running,
        event matches CaptureEvent::Message(code) && KnobAdjustmentEvent::from_message_spec(code)
            == Some(state.next(event)->Forwarding_0),
{
}

/// A requested stop takes two steps: the wake-up makes the running thread
/// unregister its hook, and only then the thread finishes.
pub proof fn lemma_stop_request_unhooks_then_finishes()
    ensures
        CaptureLifecycle::Running.next(CaptureEvent::Quit).pending_spec() == CaptureAction::Unhook,
        CaptureLifecycle::Running.next(CaptureEvent::Quit).next(
            CaptureEvent::Unhooked,
        ).pending_spec() == CaptureAction::Exit(CaptureOutcome::Finished),
{
}

/// A stopped thread stays stopped, with the outcome it stopped with.
pub proof fn lemma_stopped_is_final(state: CaptureLifecycle, events: Seq<CaptureEvent>)
    requires
        state is Stopped,
    ensures
        state.run(events) == state,
    decreases events.len(),
{
    if events.len() > 0 {
        lemma_stopped_is_final(state, events.drop_last());
    }
}

/// A failed registration is not tried again: after the answer to the
/// registration, whatever it was, the lifecycle never asks for another.
pub proof fn lemma_hook_is_registered_once(
    state: CaptureLifecycle,
    events: Seq<CaptureEvent>,
    i: int,
)
    requires
        0 <= i <= events.len(),
        !(state.run(events.take(i)) is Starting),
    ensures
        !(state.run(events) is Starting),
    decreases events.len() - i,
{
    if i == events.len() {
        assert(events.take(i) =~= events);
    } else {
        let longer = events.take(i + 1);
        assert(longer.drop_last() =~= events.take(i));
        lemma_hook_is_registered_once(state, events, i + 1);
    }
}

/// The hook is unregistered before the thread reports that it has
/// terminated: if the hook was held after the first `i` reports and the
/// thread is stopped after all of them, then some later report was the
/// unregistration, accepted while the thread was on its way out.
pub proof fn lemma_hook_released_before_exit(
    state: CaptureLifecycle,
    events: Seq<CaptureEvent>,
    i: int,
) -> (k: int)
    requires
        0 <= i <= events.len(),
        state.run(events.take(i)).holds_hook(),
        state.run(events) is Stopped,
    ensures
        i <= k < events.len(),
        events[k] is Unhooked,
        state.run(events.take(k)) is Stopping,
        state.run(events.take(k + 1)) == state.run(events),
    decreases events.len(),
{
    let n = events.len() as int;
    assert(events.take(n) =~= events);
    assert(i < n);
    let shorter = events.drop_last();
    assert(shorter =~= events.take(n - 1));
    assert(shorter.take(i) =~= events.take(i));
    let before = state.run(shorter);
    if before is Stopped {
        let k = lemma_hook_released_before_exit(state, shorter, i);
        assert(shorter.take(k) =~= events.take(k));
        assert(shorter.take(k + 1) =~= events.take(k + 1));
        k
    } else {
        lemma_hook_is_registered_once(state, shorter, i);
        n - 1
    }
}

} // verus!
