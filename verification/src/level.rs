//! Brightness levels.

use vstd::prelude::*;

verus! {

/// The lowest brightness level.
pub const MIN_BRIGHTNESS: u16 = 0;

/// The highest brightness level.
pub const MAX_BRIGHTNESS: u16 = 100;

/// Whether an integer is a brightness level.
pub open spec fn is_level(value: int) -> bool {
    MIN_BRIGHTNESS <= value <= MAX_BRIGHTNESS
}

/// The level nearest to an integer.
pub open spec fn clamped(value: int) -> int {
    if value < MIN_BRIGHTNESS {
        MIN_BRIGHTNESS as int
    } else if value > MAX_BRIGHTNESS {
        MAX_BRIGHTNESS as int
    } else {
        value
    }
}

/// Brings a reported value into the range of levels: a value above the
/// highest level becomes the highest level.
pub fn clamp_level(raw: u16) -> (level: u16)
    ensures
        level == clamped(raw as int),
        is_level(level as int),
{
    if raw > MAX_BRIGHTNESS {
        MAX_BRIGHTNESS
    } else {
        raw
    }
}

} // verus!
