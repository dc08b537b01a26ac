use brightness_knob::capture::{
    CaptureAction, CaptureEvent, CaptureLifecycle, CaptureOutcome, HandlerError,
};
use brightness_knob::engine::{TransitionEngine, TransitionRequest};
use brightness_knob::event::KnobAdjustmentEvent::{self, Decrement, Increment};
use brightness_knob::queue::{forward, has_pending, recv_blocking, send};
use brightness_knob::transition::FrameAction;
use crossbeam_channel::unbounded;

fn running() -> CaptureLifecycle {
    CaptureLifecycle::start(None)
        .step(CaptureEvent::HookRegistered)
        .step(CaptureEvent::StopHandlerInstalled)
}

#[test]
fn sent_events_arrive_in_order() {
    let (tx, rx) = unbounded::<KnobAdjustmentEvent>();
    assert_eq!(send(&tx, Increment), CaptureEvent::Delivered);
    assert_eq!(send(&tx, Decrement), CaptureEvent::Delivered);
    assert_eq!(send(&tx, Decrement), CaptureEvent::Delivered);
    assert_eq!(rx.len(), 3);
    assert_eq!(rx.try_recv(), Ok(Increment));
    assert_eq!(rx.try_recv(), Ok(Decrement));
    assert_eq!(rx.try_recv(), Ok(Decrement));
    assert!(rx.try_recv().is_err());
}

#[test]
fn sending_fails_once_no_receiver_remains() {
    let (tx, rx) = unbounded::<KnobAdjustmentEvent>();
    let second = rx.clone();
    drop(rx);
    assert_eq!(send(&tx, Increment), CaptureEvent::Delivered);
    drop(second);
    assert_eq!(send(&tx, Increment), CaptureEvent::Undelivered);
}

#[test]
fn looking_takes_nothing_out() {
    let (tx, rx) = unbounded::<KnobAdjustmentEvent>();
    let peek = rx.clone();
    assert!(!has_pending(&peek));
    send(&tx, Increment);
    assert!(has_pending(&peek));
    assert!(has_pending(&peek));
    assert!(has_pending(&rx));
    assert_eq!(rx.try_recv(), Ok(Increment));
    assert!(!has_pending(&peek));
}

#[test]
fn forwarding_delivers_the_event_of_the_message() {
    let (tx, rx) = unbounded::<KnobAdjustmentEvent>();
    let state = running().step(CaptureEvent::Message(0x0502));
    let state = forward(state, &tx);
    assert_eq!(state, CaptureLifecycle::Running);
    assert_eq!(rx.try_recv(), Ok(Decrement));
    assert!(rx.try_recv().is_err());
}

#[test]
fn forwarding_into_a_closed_queue_stops_the_capture() {
    let (tx, rx) = unbounded::<KnobAdjustmentEvent>();
    drop(rx);
    let state = running().step(CaptureEvent::Message(0x0500));
    let state = forward(state, &tx);
    assert_eq!(state.pending(), CaptureAction::Unhook);
    let state = state.step(CaptureEvent::Unhooked);
    assert_eq!(
        state.pending(),
        CaptureAction::Exit(CaptureOutcome::Failed(HandlerError::TXError(Increment)))
    );
}

#[test]
fn forwarding_sends_nothing_when_nothing_is_to_be_forwarded() {
    let (tx, rx) = unbounded::<KnobAdjustmentEvent>();
    let state = running();
    assert_eq!(forward(state, &tx), state);
    let start = CaptureLifecycle::start(None);
    assert_eq!(forward(start, &tx), start);
    assert!(rx.is_empty());
}

#[test]
fn received_events_move_the_engine() {
    let (tx, rx) = unbounded::<KnobAdjustmentEvent>();
    let mut engine = TransitionEngine::new(42, 165, 1000);
    send(&tx, Increment);
    send(&tx, Increment);
    send(&tx, Decrement);
    assert_eq!(
        recv_blocking(&mut engine, &rx),
        Some((Increment, Some(TransitionRequest { from: 42, to: 43, duration_ms: 1000 })))
    );
    assert_eq!(
        recv_blocking(&mut engine, &rx),
        Some((Increment, Some(TransitionRequest { from: 42, to: 44, duration_ms: 1000 })))
    );
    assert_eq!(
        recv_blocking(&mut engine, &rx),
        Some((Decrement, Some(TransitionRequest { from: 42, to: 43, duration_ms: 1000 })))
    );
    assert_eq!(engine.target(), 43);
    assert_eq!(engine.current(), 42);
}

#[test]
fn a_closed_queue_ends_the_engine_loop() {
    let (tx, rx) = unbounded::<KnobAdjustmentEvent>();
    let mut engine = TransitionEngine::new(10, 60, 0);
    send(&tx, Increment);
    drop(tx);
    assert!(recv_blocking(&mut engine, &rx).is_some());
    assert_eq!(recv_blocking(&mut engine, &rx), None);
    assert_eq!(engine.target(), 11);
    assert_eq!(recv_blocking(&mut engine, &rx), None);
    assert_eq!(engine.target(), 11);
}

#[test]
fn a_pending_event_preempts_the_transition_in_progress() {
    let (tx, rx) = unbounded::<KnobAdjustmentEvent>();
    let peek = rx.clone();
    let mut engine = TransitionEngine::new(20, 10, 1000);
    let mut writes = Vec::new();
    for _ in 0..10 {
        send(&tx, Increment);
    }
    for _ in 0..10 {
        recv_blocking(&mut engine, &rx);
    }
    let mut frames = 0;
    while !has_pending(&peek) {
        match engine.next_frame() {
            Some(FrameAction::Apply(level)) => writes.push(level),
            Some(FrameAction::Hold) => {}
            None => break,
        }
        frames += 1;
        if frames == 4 {
            send(&tx, Decrement);
        }
    }
    assert_eq!(writes, vec![21, 22, 23]);
    assert_eq!(engine.current(), 23);
    assert_eq!(
        recv_blocking(&mut engine, &rx),
        Some((Decrement, Some(TransitionRequest { from: 23, to: 29, duration_ms: 1000 })))
    );
    drop(tx);
    while let Some(action) = engine.next_frame() {
        if let FrameAction::Apply(level) = action {
            writes.push(level);
        }
    }
    assert_eq!(writes.last(), Some(&29));
    assert_eq!(recv_blocking(&mut engine, &rx), None);
}

#[test]
fn a_long_run_of_events_arrives_in_order() {
    let (tx, rx) = unbounded::<KnobAdjustmentEvent>();
    for index in 0..100 {
        let event = if index % 3 == 0 { Decrement } else { Increment };
        assert_eq!(send(&tx, event), CaptureEvent::Delivered);
    }
    drop(tx);
    let mut engine = TransitionEngine::new(0, 60, 0);
    let mut received = Vec::new();
    while let Some((event, _)) = recv_blocking(&mut engine, &rx) {
        received.push(event);
    }
    assert_eq!(received.len(), 100);
    for (index, event) in received.iter().enumerate() {
        assert_eq!(*event, if index % 3 == 0 { Decrement } else { Increment });
    }
    assert_eq!(engine.target(), 33);
}
