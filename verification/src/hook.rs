//! Classification of raw low-level input notifications.
//!
//! A low-level hook sees every keyboard or mouse notification of the session.
//! The functions here decide, from the plain numbers of one notification,
//! whether it is a knob gesture. They never decide to swallow a
//! notification: whatever they answer, the caller hands the notification on
//! to the next hook unmodified.

use vstd::prelude::*;
use crate::event::KnobAdjustmentEvent;

verus! {

/// Hook code that marks a notification the hook may act on. With any other
/// code the hook has to pass the notification on without looking at it.
pub const HC_ACTION: i32 = 0;

/// Identifier of the low-level keyboard hook.
pub const WH_KEYBOARD_LL: i32 = 13;

/// Identifier of the low-level mouse hook.
pub const WH_MOUSE_LL: i32 = 14;

/// Message number of a key release.
pub const WM_KEYUP: u32 = 0x0101;

/// Message number of a key release while ALT is held.
pub const WM_SYSKEYUP: u32 = 0x0105;

/// Message number of a rotation of the vertical mouse wheel.
pub const WM_MOUSEWHEEL: usize = 0x020A;

/// Virtual key that the knob sends when turned down.
pub const VK_F19: u16 = 0x82;

/// Virtual key that the knob sends when turned up.
pub const VK_F20: u16 = 0x83;

/// The low 32 bits of a message parameter: the message number of a keyboard
/// notification.
pub open spec fn key_state(w_param: usize) -> int {
    w_param as int % 0x1_0000_0000
}

/// The low 16 bits of a virtual-key code.
pub open spec fn key_code(vk_code: u32) -> int {
    vk_code as int % 0x1_0000
}

/// Whether a keyboard message number is one of the two key-release
/// transitions.
pub open spec fn is_key_up(state: int) -> bool {
    state == WM_KEYUP || state == WM_SYSKEYUP
}

/// The knob event that a keyboard notification stands for: the release of
/// one of the two knob keys, seen with the action code. Presses, other keys
/// and other hook codes stand for nothing.
pub open spec fn keyboard_event(code: i32, w_param: usize, vk_code: u32) -> Option<
    KnobAdjustmentEvent,
> {
    if code != HC_ACTION || !is_key_up(key_state(w_param)) {
        None
    } else if key_code(vk_code) == VK_F19 {
        Some(KnobAdjustmentEvent::Decrement)
    } else if key_code(vk_code) == VK_F20 {
        Some(KnobAdjustmentEvent::Increment)
    } else {
        None
    }
}

/// The signed rotation of the wheel: the high-order word of the mouse data,
/// read as a 16-bit two's complement number. Positive means rotated forward,
/// away from the user.
pub open spec fn wheel_delta(mouse_data: u32) -> int {
    let high = mouse_data as int / 0x1_0000;
    if high >= 0x8000 {
        high - 0x1_0000
    } else {
        high
    }
}

/// The knob event that a mouse notification stands for: a wheel rotation
/// seen with the action code is an `Increment` when the rotation is
/// positive and a `Decrement` otherwise. Every other notification stands
/// for nothing.
pub open spec fn mouse_event(code: i32, w_param: usize, mouse_data: u32) -> Option<
    KnobAdjustmentEvent,
> {
    if code != HC_ACTION || w_param != WM_MOUSEWHEEL {
        None
    } else if wheel_delta(mouse_data) > 0 {
        Some(KnobAdjustmentEvent::Increment)
    } else {
        Some(KnobAdjustmentEvent::Decrement)
    }
}

proof fn lemma_low_dword(w: u64)
    ensures
        (w as u32) as int == w as int % 0x1_0000_0000,
{
    assert(w as u32 == w % 0x1_0000_0000) by (bit_vector);
}

proof fn lemma_low_word(v: u32)
    ensures
        (v as u16) as int == v as int % 0x1_0000,
{
    assert(v as u16 == v % 0x1_0000) by (bit_vector);
}

proof fn lemma_high_word(v: u32)
    ensures
        ((v >> 16) & 0xffff) as int == v as int / 0x1_0000,
        0 <= v as int / 0x1_0000 < 0x1_0000,
{
    assert(((v >> 16) & 0xffff) == v / 0x1_0000) by (bit_vector);
    assert(v / 0x1_0000 < 0x1_0000) by (bit_vector);
}

/// Decides what the low-level keyboard hook posts to the message loop for
/// one notification: `code` is the hook code, `w_param` the message
/// parameter that holds the keyboard message number, `vk_code` the
/// virtual-key code of the key.
///
/// The answer is the event to post, or `None` when nothing is posted. In
/// both cases the notification goes on to the next hook.
pub fn keyboard_hook(code: i32, w_param: usize, vk_code: u32) -> (posted: Option<
    KnobAdjustmentEvent,
>)
    ensures
        posted == keyboard_event(code, w_param, vk_code),
{
    if code != HC_ACTION {
        return None;
    }
    proof {
        lemma_low_dword(w_param as u64);
        lemma_low_word(vk_code);
    }
    let wide: u64 = w_param as u64;
    let state: u32 = #[verifier::truncate] (wide as u32);
    if !(state == WM_KEYUP || state == WM_SYSKEYUP) {
        return None;
    }
    let key: u16 = #[verifier::truncate] (vk_code as u16);
    if key == VK_F19 {
        Some(KnobAdjustmentEvent::Decrement)
    } else if key == VK_F20 {
        Some(KnobAdjustmentEvent::Increment)
    } else {
        None
    }
}

/// Decides what the low-level mouse hook posts to the message loop for one
/// notification: `code` is the hook code, `w_param` the message parameter
/// that holds the mouse message number, `mouse_data` the data word of the
/// notification, whose high-order word is the wheel rotation.
///
/// The answer is the event to post, or `None` when nothing is posted. In
/// both cases the notification goes on to the next hook.
pub fn mouse_hook(code: i32, w_param: usize, mouse_data: u32) -> (posted: Option<
    KnobAdjustmentEvent,
>)
    ensures
        posted == mouse_event(code, w_param, mouse_data),
{
    if code != HC_ACTION || w_param != WM_MOUSEWHEEL {
        return None;
    }
    proof {
        lemma_high_word(mouse_data);
    }
    let high: u32 = (mouse_data >> 16) & 0xffff;
    if 0 < high && high < 0x8000 {
        Some(KnobAdjustmentEvent::Increment)
    } else {
        Some(KnobAdjustmentEvent::Decrement)
    }
}

} // verus!
