//! The abstract event vocabulary of the knob.

use vstd::prelude::*;

verus! {

/// Number of the application-defined thread message that carries an
/// `Increment` from the input hook to the message loop.
pub const INCREMENT_MESSAGE: u32 = 0x0500;

/// Number of the application-defined thread message that carries a
/// `Decrement` from the input hook to the message loop.
pub const DECREMENT_MESSAGE: u32 = 0x0502;

/// One pulse of the knob. An event has no payload: its magnitude is always
/// one unit.
#[derive(Clone, Copy, Debug, PartialEq, Eq, Structural)]
pub enum KnobAdjustmentEvent {
    Increment,
    Decrement,
}

impl KnobAdjustmentEvent {
    /// The message number that stands for this event.
    pub open spec fn message_spec(self) -> u32 {
        match self {
            KnobAdjustmentEvent::Increment => INCREMENT_MESSAGE,
            KnobAdjustmentEvent::Decrement => DECREMENT_MESSAGE,
        }
    }

    /// The event that a message number stands for, if any.
    pub open spec fn from_message_spec(code: u32) -> Option<KnobAdjustmentEvent> {
        if code == INCREMENT_MESSAGE {
            Some(KnobAdjustmentEvent::Increment)
        } else if code == DECREMENT_MESSAGE {
            Some(KnobAdjustmentEvent::Decrement)
        } else {
            None
        }
    }

    /// The signed unit by which this event moves a brightness target.
    pub open spec fn delta(self) -> int {
        match self {
            KnobAdjustmentEvent::Increment => 1,
            KnobAdjustmentEvent::Decrement => -1,
        }
    }

    /// Encodes the event as the message number posted to the message loop.
    pub fn message(self) -> (code: u32)
        ensures
            code == self.message_spec(),
            Self::from_message_spec(code) == Some(self),
    {
        match self {
            KnobAdjustmentEvent::Increment => INCREMENT_MESSAGE,
            KnobAdjustmentEvent::Decrement => DECREMENT_MESSAGE,
        }
    }

    /// Decodes a message number taken from the message loop. Every number
    /// other than the two event numbers is some other message and yields
    /// `None`.
    pub fn from_message(code: u32) -> (event: Option<KnobAdjustmentEvent>)
        ensures
            event == Self::from_message_spec(code),
            event matches Some(e) ==> e.message_spec() == code,
    {
        if code == INCREMENT_MESSAGE {
            Some(KnobAdjustmentEvent::Increment)
        } else if code == DECREMENT_MESSAGE {
            Some(KnobAdjustmentEvent::Decrement)
        } else {
            None
        }
    }
}

} // verus!
