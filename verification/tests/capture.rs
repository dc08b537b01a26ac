use brightness_knob::capture::{
    CaptureAction, CaptureEvent, CaptureLifecycle, CaptureOutcome, HandlerError, HookSource,
    StopHandlerFault,
};
use brightness_knob::event::KnobAdjustmentEvent;
use brightness_knob::shutdown::{ShutdownCoordinator, WakeUp};

fn run(start: CaptureLifecycle, events: &[CaptureEvent]) -> CaptureLifecycle {
    let mut state = start;
    for event in events {
        state = state.step(*event);
    }
    state
}

#[test]
fn a_capture_thread_first_registers_its_hook() {
    assert_eq!(
        CaptureLifecycle::start(None).pending(),
        CaptureAction::RegisterHook(HookSource::Keyboard)
    );
    assert_eq!(
        CaptureLifecycle::start(Some(true)).pending(),
        CaptureAction::RegisterHook(HookSource::MouseWheel)
    );
}

#[test]
fn a_requested_stop_unhooks_and_finishes() {
    let mut state = CaptureLifecycle::start(None);
    state = state.step(CaptureEvent::HookRegistered);
    assert_eq!(state.pending(), CaptureAction::InstallStopHandler);
    state = state.step(CaptureEvent::StopHandlerInstalled);
    assert_eq!(state.pending(), CaptureAction::AwaitMessage);
    state = state.step(CaptureEvent::Message(0x0200));
    assert_eq!(state.pending(), CaptureAction::AwaitMessage);
    state = state.step(CaptureEvent::Quit);
    assert_eq!(state.pending(), CaptureAction::Unhook);
    state = state.step(CaptureEvent::Unhooked);
    assert_eq!(state.pending(), CaptureAction::Exit(CaptureOutcome::Finished));
    assert_eq!(CaptureOutcome::Finished.into_result(), Ok(()));
}

#[test]
fn event_messages_are_forwarded_one_by_one() {
    let running = run(
        CaptureLifecycle::start(None),
        &[CaptureEvent::HookRegistered, CaptureEvent::StopHandlerInstalled],
    );
    let state = running.step(CaptureEvent::Message(0x0500));
    assert_eq!(state.pending(), CaptureAction::Forward(KnobAdjustmentEvent::Increment));
    let state = state.step(CaptureEvent::Delivered);
    assert_eq!(state.pending(), CaptureAction::AwaitMessage);
    let state = state.step(CaptureEvent::Message(0x0502));
    assert_eq!(state.pending(), CaptureAction::Forward(KnobAdjustmentEvent::Decrement));
    let state = state.step(CaptureEvent::Delivered);
    assert_eq!(state, CaptureLifecycle::Running);
}

#[test]
fn a_failed_registration_ends_the_thread_at_once() {
    let state = CaptureLifecycle::start(None).step(CaptureEvent::HookFailed(-2147024891));
    let failure = CaptureOutcome::Failed(HandlerError::HookError(-2147024891));
    assert_eq!(state.pending(), CaptureAction::Exit(failure));
    assert_eq!(failure.into_result(), Err(HandlerError::HookError(-2147024891)));
    assert_eq!(state.step(CaptureEvent::HookRegistered), state);
}

#[test]
fn a_failed_stop_handler_unhooks_before_it_ends_the_thread() {
    let state = run(
        CaptureLifecycle::start(Some(false)),
        &[
            CaptureEvent::HookRegistered,
            CaptureEvent::StopHandlerFailed(StopHandlerFault::MultipleHandlers),
        ],
    );
    assert_eq!(state.pending(), CaptureAction::Unhook);
    let state = state.step(CaptureEvent::Unhooked);
    assert_eq!(
        state.pending(),
        CaptureAction::Exit(CaptureOutcome::Failed(HandlerError::StopHandlerError(
            StopHandlerFault::MultipleHandlers
        )))
    );
}

#[test]
fn a_closed_queue_unhooks_before_it_ends_the_thread() {
    let state = run(
        CaptureLifecycle::start(None),
        &[
            CaptureEvent::HookRegistered,
            CaptureEvent::StopHandlerInstalled,
            CaptureEvent::Message(0x0502),
            CaptureEvent::Undelivered,
        ],
    );
    assert_eq!(state.pending(), CaptureAction::Unhook);
    let state = state.step(CaptureEvent::Unhooked);
    assert_eq!(
        state.pending(),
        CaptureAction::Exit(CaptureOutcome::Failed(HandlerError::TXError(
            KnobAdjustmentEvent::Decrement
        )))
    );
}

#[test]
fn reports_that_answer_nothing_change_nothing() {
    let start = CaptureLifecycle::start(None);
    assert_eq!(start.step(CaptureEvent::Quit), start);
    assert_eq!(start.step(CaptureEvent::Unhooked), start);
    assert_eq!(start.step(CaptureEvent::Message(0x0500)), start);
    let running = run(start, &[CaptureEvent::HookRegistered, CaptureEvent::StopHandlerInstalled]);
    assert_eq!(running.step(CaptureEvent::Unhooked), running);
    assert_eq!(running.step(CaptureEvent::Delivered), running);
    assert_eq!(running.step(CaptureEvent::HookFailed(5)), running);
    let stopping = running.step(CaptureEvent::Quit);
    assert_eq!(stopping.step(CaptureEvent::Message(0x0500)), stopping);
    assert_eq!(stopping.step(CaptureEvent::Quit), stopping);
}

#[test]
fn a_stopped_thread_stays_stopped() {
    let stopped = run(
        CaptureLifecycle::start(None),
        &[
            CaptureEvent::HookRegistered,
            CaptureEvent::StopHandlerInstalled,
            CaptureEvent::Quit,
            CaptureEvent::Unhooked,
        ],
    );
    for event in [
        CaptureEvent::HookRegistered,
        CaptureEvent::HookFailed(1),
        CaptureEvent::StopHandlerInstalled,
        CaptureEvent::StopHandlerFailed(StopHandlerFault::System),
        CaptureEvent::Message(0x0500),
        CaptureEvent::Quit,
        CaptureEvent::Delivered,
        CaptureEvent::Undelivered,
        CaptureEvent::Unhooked,
    ] {
        assert_eq!(stopped.step(event), stopped);
    }
}

#[test]
fn exit_is_never_pending_while_the_hook_is_held() {
    let reports = [
        CaptureEvent::HookRegistered,
        CaptureEvent::HookFailed(7),
        CaptureEvent::StopHandlerInstalled,
        CaptureEvent::StopHandlerFailed(StopHandlerFault::NoSuchSignal),
        CaptureEvent::Message(0x0500),
        CaptureEvent::Message(0x0001),
        CaptureEvent::Quit,
        CaptureEvent::Delivered,
        CaptureEvent::Undelivered,
        CaptureEvent::Unhooked,
    ];
    // Every sequence of four reports, with a count of the hooks held.
    for a in reports {
        for b in reports {
            for c in reports {
                for d in reports {
                    let mut state = CaptureLifecycle::start(None);
                    let mut held = false;
                    for event in [a, b, c, d] {
                        let before = state.pending();
                        state = state.step(event);
                        if matches!(before, CaptureAction::RegisterHook(_))
                            && event == CaptureEvent::HookRegistered
                        {
                            assert!(!held);
                            held = true;
                        }
                        if before == CaptureAction::Unhook && event == CaptureEvent::Unhooked {
                            assert!(held);
                            held = false;
                        }
                        if matches!(state.pending(), CaptureAction::Exit(_)) {
                            assert!(!held);
                        }
                    }
                }
            }
        }
    }
}

#[test]
fn an_interrupt_wakes_the_capture_thread_and_no_other() {
    let coordinator = ShutdownCoordinator::install(4242);
    assert_eq!(coordinator.on_interrupt(), WakeUp { thread_id: 4242, message: 0x0012 });
    assert_eq!(coordinator.on_interrupt(), WakeUp { thread_id: 4242, message: 0x0012 });
    let other = ShutdownCoordinator::install(7);
    assert_eq!(other.on_interrupt().thread_id, 7);
}
