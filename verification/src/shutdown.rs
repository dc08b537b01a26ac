//! Turning an interrupt into a wake-up of the capture thread.
//!
//! The capture thread is parked in a blocking call of the operating system
//! and hears nothing but messages posted to its own queue. The coordinator
//! therefore remembers the identity of that thread from the start, and
//! answers every interrupt with a quit message addressed to it.

use vstd::prelude::*;
use crate::capture::WM_QUIT;

verus! {

/// A message to post to the queue of one thread.
#[derive(Clone, Copy, Debug, PartialEq, Eq, Structural)]
pub struct WakeUp {
    /// The thread to address.
    pub thread_id: u32,
    /// The number of the message.
    pub message: u32,
}

/// The one interrupt handler of the process.
#[derive(Clone, Copy, Debug)]
pub struct ShutdownCoordinator {
    capture_thread: u32,
}

impl ShutdownCoordinator {
    /// The thread that the coordinator wakes.
    pub closed spec fn target(self) -> u32 {
        self.capture_thread
    }

    /// Binds the coordinator to the capture thread. The capture thread calls
    /// this itself, with its own identity, before it starts to wait.
    pub fn install(capture_thread: u32) -> (coordinator: ShutdownCoordinator)
        ensures
            coordinator.target() == capture_thread,
    {
        ShutdownCoordinator { capture_thread }
    }

    /// Answers an interrupt: the wake-up to post is the quit message, and it
    /// goes to the capture thread and to no other.
    pub fn on_interrupt(&self) -> (wake_up: WakeUp)
        ensures
            wake_up == (WakeUp { thread_id: self.target(), message: WM_QUIT }),
    {
        WakeUp { thread_id: self.capture_thread, message: WM_QUIT }
    }
}

} // verus!
