//! The event queue between the capture thread and the engine.
//!
//! The queue is an unbounded channel. The capture thread holds its sending
//! side. The engine's thread holds two handles to its receiving side: one
//! takes events out, in the order in which they were sent, and one only
//! looks whether an event is waiting, so that a transition in progress can
//! notice a newer instruction without consuming it.
//!
//! What a channel holds changes under the hands of other threads, so no
//! contract here says what a receive or a look will find. The contracts say
//! what the library does with whatever is found.

use vstd::prelude::*;
use crossbeam_channel::{Receiver, Sender};
use crate::capture::{CaptureEvent, CaptureLifecycle};
use crate::engine::{TransitionEngine, TransitionRequest};
use crate::event::KnobAdjustmentEvent;

verus! {

/// `crossbeam_channel::Sender`, the sending side of a channel. Nothing is
/// known of what is inside.
#[verifier::external_type_specification]
#[verifier::external_body]
#[verifier::reject_recursive_types(T)]
pub struct ExSender<T>(Sender<T>);

/// `crossbeam_channel::Receiver`, the receiving side of a channel. Nothing
/// is known of what is inside.
#[verifier::external_type_specification]
#[verifier::external_body]
#[verifier::reject_recursive_types(T)]
pub struct ExReceiver<T>(Receiver<T>);

/// Calls `crossbeam_channel::Sender::send` and says whether the channel took
/// the message. On an unbounded channel the call does not block. It fails
/// when every receiver is gone, which is for the other threads to decide:
/// nothing is claimed of the result.
#[verifier::external_body]
fn channel_send(queue: &Sender<KnobAdjustmentEvent>, event: KnobAdjustmentEvent) -> (taken: bool) {
    queue.send(event).is_ok()
}

/// Calls `crossbeam_channel::Receiver::recv`, which blocks until a message
/// arrives or the channel is empty and every sender is gone. The error of
/// the second case becomes `None`. Nothing is claimed of the result.
#[verifier::external_body]
fn channel_recv(queue: &Receiver<KnobAdjustmentEvent>) -> (received: Option<KnobAdjustmentEvent>) {
    match queue.recv() {
        Ok(event) => Some(event),
        Err(_) => None,
    }
}

/// Calls `crossbeam_channel::Receiver::is_empty`, which takes nothing out of
/// the channel. Nothing is claimed of the result.
#[verifier::external_body]
fn channel_is_empty(queue: &Receiver<KnobAdjustmentEvent>) -> (empty: bool) {
    queue.is_empty()
}

/// Sends one event into the queue and says how it went, in the words of the
/// capture lifecycle: `Delivered`, or `Undelivered` when the queue has no
/// receiver left.
pub fn send(queue: &Sender<KnobAdjustmentEvent>, event: KnobAdjustmentEvent) -> (report:
    CaptureEvent)
    ensures
        report == CaptureEvent::Delivered || report == CaptureEvent::Undelivered,
{
    if channel_send(queue, event) {
        CaptureEvent::Delivered
    } else {
        CaptureEvent::Undelivered
    }
}

/// Performs the pending action of a capture thread that is forwarding an
/// event: sends the event into the queue and moves the lifecycle on by the
/// report. In every other state there is nothing to forward and nothing
/// changes.
pub fn forward(state: CaptureLifecycle, queue: &Sender<KnobAdjustmentEvent>) -> (after:
    CaptureLifecycle)
    ensures
        state is Forwarding ==> after == state.next(CaptureEvent::Delivered) || after
            == state.next(CaptureEvent::Undelivered),
        !(state is Forwarding) ==> after == state,
{
    match state {
        CaptureLifecycle::Forwarding(event) => {
            let report = send(queue, event);
            state.step(report)
        },
        _ => state,
    }
}

/// Says whether an event is waiting in the queue, without taking it out.
pub fn has_pending(queue: &Receiver<KnobAdjustmentEvent>) -> (pending: bool) {
    !channel_is_empty(queue)
}

/// Blocks until the next event arrives and hands it to the engine. The
/// answer is what the event asked for, or `None` when the queue is closed:
/// every sender is gone and nothing is left in it. The engine is then
/// unchanged and its thread is free to end.
pub fn recv_blocking(engine: &mut TransitionEngine, queue: &Receiver<KnobAdjustmentEvent>) -> (taken:
    Option<(KnobAdjustmentEvent, Option<TransitionRequest>)>)
    ensures
        match taken {
            Some((event, request)) => {
                &&& taken == old(engine)@.taken_for(Some(event))
                &&& final(engine)@ == old(engine)@.after_received(Some(event))
            },
            None => final(engine)@ == old(engine)@.after_received(None),
        },
        final(engine)@.wf(),
{
    let received = channel_recv(queue);
    engine.receive(received)
}

} // verus!
