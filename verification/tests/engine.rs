use brightness_knob::engine::{TransitionEngine, TransitionRequest};
use brightness_knob::event::KnobAdjustmentEvent::{Decrement, Increment};
use brightness_knob::transition::FrameAction;

fn settle(engine: &mut TransitionEngine) -> Vec<u16> {
    let mut writes = Vec::new();
    while let Some(action) = engine.next_frame() {
        if let FrameAction::Apply(level) = action {
            writes.push(level);
        }
    }
    writes
}

#[test]
fn the_engine_is_seeded_from_the_monitor() {
    let engine = TransitionEngine::new(42, 165, 1000);
    assert_eq!(engine.current(), 42);
    assert_eq!(engine.target(), 42);
    assert!(engine.is_idle());
    assert_eq!(engine.frame_time_ms(), 6);
}

#[test]
fn the_first_increment_animates_from_the_seed() {
    let mut engine = TransitionEngine::new(42, 165, 1000);
    let request = engine.on_event(Increment);
    assert_eq!(request, Some(TransitionRequest { from: 42, to: 43, duration_ms: 1000 }));
    assert!(!engine.is_idle());
    assert_eq!(engine.current(), 42);
    assert_eq!(engine.target(), 43);
    assert_eq!(settle(&mut engine), vec![43]);
    assert_eq!(engine.current(), 43);
    assert!(engine.is_idle());
}

#[test]
fn a_report_above_the_range_is_seeded_as_the_highest_level() {
    let mut engine = TransitionEngine::new(255, 60, 0);
    assert_eq!(engine.current(), 100);
    assert_eq!(engine.target(), 100);
    assert_eq!(engine.on_event(Increment), None);
    assert_eq!(
        engine.on_event(Decrement),
        Some(TransitionRequest { from: 100, to: 99, duration_ms: 0 })
    );
}

#[test]
fn increments_at_the_ceiling_change_nothing() {
    let mut engine = TransitionEngine::new(100, 60, 1000);
    for _ in 0..5 {
        assert_eq!(engine.on_event(Increment), None);
        assert_eq!(engine.target(), 100);
        assert_eq!(engine.current(), 100);
        assert!(engine.is_idle());
        assert_eq!(engine.next_frame(), None);
    }
}

#[test]
fn decrements_at_the_floor_change_nothing() {
    let mut engine = TransitionEngine::new(0, 60, 1000);
    for _ in 0..5 {
        assert_eq!(engine.on_event(Decrement), None);
        assert_eq!(engine.target(), 0);
        assert_eq!(engine.current(), 0);
        assert!(engine.is_idle());
        assert_eq!(engine.next_frame(), None);
    }
}

#[test]
fn the_target_never_leaves_the_range() {
    let mut engine = TransitionEngine::new(97, 60, 0);
    for _ in 0..10 {
        engine.on_event(Increment);
        assert!(engine.target() <= 100);
    }
    assert_eq!(engine.target(), 100);
    for _ in 0..250 {
        engine.on_event(Decrement);
        assert!(engine.target() <= 100);
    }
    assert_eq!(engine.target(), 0);
    engine.on_event(Increment);
    assert_eq!(engine.target(), 1);
}

#[test]
fn rapid_events_collapse_into_one_target() {
    let mut engine = TransitionEngine::new(30, 165, 1000);
    for step in 1..=50u16 {
        let request = engine.on_event(Increment);
        assert_eq!(
            request,
            Some(TransitionRequest { from: 30, to: 30 + step, duration_ms: 1000 })
        );
    }
    assert_eq!(engine.current(), 30);
    assert_eq!(engine.target(), 80);
    let writes = settle(&mut engine);
    assert_eq!(writes.first(), Some(&31));
    assert_eq!(writes.last(), Some(&80));
    assert_eq!(writes.len(), 50);
    assert_eq!(engine.current(), 80);
}

#[test]
fn a_preempted_engine_goes_on_from_the_level_it_reached() {
    let mut engine = TransitionEngine::new(30, 165, 1000);
    for _ in 0..50 {
        engine.on_event(Increment);
    }
    while engine.current() != 50 {
        assert!(engine.next_frame().is_some());
    }
    assert!(!engine.is_idle());
    assert_eq!(engine.target(), 80);
    let request = engine.on_event(Decrement);
    assert_eq!(engine.current(), 50);
    assert_eq!(engine.target(), 79);
    assert_eq!(request, Some(TransitionRequest { from: 50, to: 79, duration_ms: 1000 }));
    let writes = settle(&mut engine);
    assert_eq!(writes.first(), Some(&51));
    assert_eq!(writes.last(), Some(&79));
    assert_eq!(engine.current(), 79);
}

#[test]
fn an_event_back_to_the_shown_level_starts_nothing() {
    let mut engine = TransitionEngine::new(50, 60, 1000);
    assert!(engine.on_event(Increment).is_some());
    assert_eq!(engine.on_event(Decrement), None);
    assert!(engine.is_idle());
    assert_eq!(engine.target(), 50);
    assert_eq!(engine.current(), 50);
    assert_eq!(engine.next_frame(), None);
}

#[test]
fn a_frame_reports_what_the_monitor_shows_afterwards() {
    let mut engine = TransitionEngine::new(20, 10, 1000);
    for _ in 0..10 {
        engine.on_event(Increment);
    }
    let mut shown = engine.current();
    while let Some(action) = engine.next_frame() {
        match action {
            FrameAction::Apply(level) => {
                assert_ne!(level, shown);
                shown = level;
            }
            FrameAction::Hold => {}
        }
        assert_eq!(engine.current(), shown);
    }
    assert_eq!(shown, 30);
    assert!(engine.is_idle());
}

#[test]
fn without_animation_every_event_is_one_write() {
    let mut engine = TransitionEngine::new(10, 60, 0);
    assert!(engine.on_event(Increment).is_some());
    assert_eq!(engine.next_frame(), Some(FrameAction::Apply(11)));
    assert_eq!(engine.next_frame(), None);
    assert!(engine.on_event(Decrement).is_some());
    assert_eq!(engine.next_frame(), Some(FrameAction::Apply(10)));
    assert_eq!(engine.next_frame(), None);
    assert!(engine.is_idle());
}

#[test]
fn a_received_event_moves_the_engine() {
    let mut engine = TransitionEngine::new(42, 165, 1000);
    assert_eq!(
        engine.receive(Some(Increment)),
        Some((Increment, Some(TransitionRequest { from: 42, to: 43, duration_ms: 1000 })))
    );
    assert_eq!(engine.target(), 43);
    assert_eq!(engine.receive(Some(Decrement)), Some((Decrement, None)));
    assert_eq!(engine.target(), 42);
    assert!(engine.is_idle());
}

#[test]
fn a_closed_queue_leaves_the_engine_as_it_is() {
    let mut engine = TransitionEngine::new(42, 165, 1000);
    engine.receive(Some(Increment));
    assert_eq!(engine.next_frame(), Some(FrameAction::Apply(43)));
    assert_eq!(engine.receive(None), None);
    assert_eq!(engine.target(), 43);
    assert_eq!(engine.current(), 43);
    assert!(!engine.is_idle());
    assert_eq!(engine.next_frame(), Some(FrameAction::Hold));
}

#[test]
fn a_waiting_event_preempts_at_the_level_shown() {
    let mut engine = TransitionEngine::new(30, 165, 1000);
    for _ in 0..50 {
        engine.on_event(Increment);
    }
    assert_eq!(engine.preempted(false), None);
    assert_eq!(engine.preempted(true), Some(30));
    while engine.current() != 50 {
        assert!(engine.next_frame().is_some());
        assert_eq!(engine.preempted(false), None);
    }
    assert_eq!(engine.preempted(true), Some(50));
    assert_eq!(engine.current(), 50);
    assert_eq!(engine.target(), 80);
    assert!(!engine.is_idle());
}
