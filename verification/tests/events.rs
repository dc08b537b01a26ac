use brightness_knob::event::{KnobAdjustmentEvent, DECREMENT_MESSAGE, INCREMENT_MESSAGE};

#[test]
fn message_numbers_are_application_defined() {
    assert_eq!(KnobAdjustmentEvent::Increment.message(), 0x0500);
    assert_eq!(KnobAdjustmentEvent::Decrement.message(), 0x0502);
    assert_eq!(INCREMENT_MESSAGE, 0x0500);
    assert_eq!(DECREMENT_MESSAGE, 0x0502);
}

#[test]
fn message_numbers_decode_to_their_events() {
    assert_eq!(
        KnobAdjustmentEvent::from_message(0x0500),
        Some(KnobAdjustmentEvent::Increment)
    );
    assert_eq!(
        KnobAdjustmentEvent::from_message(0x0502),
        Some(KnobAdjustmentEvent::Decrement)
    );
}

#[test]
fn other_message_numbers_decode_to_nothing() {
    assert_eq!(KnobAdjustmentEvent::from_message(0), None);
    assert_eq!(KnobAdjustmentEvent::from_message(0x0012), None);
    assert_eq!(KnobAdjustmentEvent::from_message(0x0501), None);
    assert_eq!(KnobAdjustmentEvent::from_message(0x0503), None);
    assert_eq!(KnobAdjustmentEvent::from_message(u32::MAX), None);
}

#[test]
fn encoding_then_decoding_gives_the_event_back() {
    for event in [KnobAdjustmentEvent::Increment, KnobAdjustmentEvent::Decrement] {
        assert_eq!(KnobAdjustmentEvent::from_message(event.message()), Some(event));
    }
}
