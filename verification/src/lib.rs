//! Decision logic for a brightness knob: raw input notifications become
//! knob events, knob events move a brightness target, and the target is
//! approached through a frame-stepped, eased, preemptible transition.
//!
//! Nothing here touches the operating system or the monitor. Each component
//! is a function from plain values to plain values, so that the threads that
//! own the input hook and the monitor handle only perform what these
//! functions decide. The one thing the library holds in its own hands is
//! the event queue between the two threads.

pub mod capture;
pub mod easing;
pub mod engine;
pub mod event;
pub mod hook;
pub mod level;
pub mod monitor;
pub mod queue;
pub mod shutdown;
pub mod transition;
