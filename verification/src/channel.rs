//! The two queues every provider shares: the bounded output queue of wire
//! frames and the broadcast connection signal.

use vstd::prelude::*;
use crate::frame::Frame;

verus! {

/// `tokio::sync::mpsc::Sender`, the sending half of the bounded output
/// queue. Nothing is known of what it holds.
#[verifier::external_type_specification]
#[verifier::external_body]
#[verifier::reject_recursive_types(T)]
pub struct ExFrameSender<T>(tokio::sync::mpsc::Sender<T>);

/// `tokio::sync::broadcast::Sender`, the sending half of the connection
/// signal. Nothing is known of what it holds.
#[verifier::external_type_specification]
#[verifier::external_body]
#[verifier::reject_recursive_types(T)]
pub struct ExSignalSender<T>(tokio::sync::broadcast::Sender<T>);

/// `tokio::sync::broadcast::Receiver`, one subscription to the connection
/// signal. Nothing is known of what it holds.
#[verifier::external_type_specification]
#[verifier::external_body]
#[verifier::reject_recursive_types(T)]
pub struct ExSignalReceiver<T>(tokio::sync::broadcast::Receiver<T>);

/// Offers one wire frame to the output queue without waiting, through
/// `tokio::sync::mpsc::Sender::try_send`. The answer is `true` when the queue
/// took the frame. Whether it does depends on how full the queue is and on
/// whether its consumer is still there, so nothing is promised of the answer.
#[verifier::external_body]
pub(crate) fn try_send_frame(sender: &tokio::sync::mpsc::Sender<Vec<u8>>, bytes: Vec<u8>) -> (accepted: bool) {
    sender.try_send(bytes).is_ok()
}

/// What one look at the connection signal found.
#[derive(Clone, Copy, Debug, PartialEq, Eq, Structural)]
pub enum Pending {
    /// A value was waiting, and has been taken.
    Value(bool),
    /// Nothing is waiting for now.
    Empty,
    /// Nothing is waiting and nothing will come: every sender is gone.
    Closed,
    /// Values were lost because they were not taken in time; the oldest that
    /// is left is still waiting.
    Lagged,
}

impl Pending {
    /// The value that was taken, if one was.
    pub open spec fn signal(self) -> Option<bool> {
        match self {
            Pending::Value(value) => Some(value),
            _ => None,
        }
    }

    /// Whether another look may find a value at once: one was just taken,
    /// or some are known to be left.
    pub open spec fn more_may_wait(self) -> bool {
        self is Value || self is Lagged
    }

    /// Computes `signal`.
    pub fn value(self) -> (value: Option<bool>)
        ensures
            value == self.signal(),
    {
        match self {
            Pending::Value(value) => Some(value),
            _ => None,
        }
    }

    /// Computes `more_may_wait`.
    pub fn may_hold_more(self) -> (more: bool)
        ensures
            more == self.more_may_wait(),
    {
        match self {
            Pending::Value(_) | Pending::Lagged => true,
            Pending::Empty | Pending::Closed => false,
        }
    }
}

/// Looks once at the connection signal without waiting, through
/// `tokio::sync::broadcast::Receiver::try_recv`, and says which of its four
/// outcomes came: a value, or one of the three errors. What is waiting
/// depends on the sender, so nothing is promised of the answer.
#[verifier::external_body]
pub(crate) fn try_recv_signal(receiver: &mut tokio::sync::broadcast::Receiver<bool>) -> (pending: Pending) {
    match receiver.try_recv() {
        Ok(value) => Pending::Value(value),
        Err(tokio::sync::broadcast::error::TryRecvError::Empty) => Pending::Empty,
        Err(tokio::sync::broadcast::error::TryRecvError::Closed) => Pending::Closed,
        Err(tokio::sync::broadcast::error::TryRecvError::Lagged(_)) => Pending::Lagged,
    }
}

/// A frame that was offered to the output queue, and whether the queue took
/// it. A frame that the queue refused is dropped: it is not offered again.
#[derive(Debug)]
pub struct Delivery {
    pub frame: Frame,
    pub accepted: bool,
}

/// Offers `frame` to the output queue, as its wire bytes, without waiting.
pub fn deliver(sender: &tokio::sync::mpsc::Sender<Vec<u8>>, frame: Frame) -> (delivery: Delivery)
    ensures
        delivery.frame == frame,
{
    let accepted = try_send_frame(sender, frame.to_bytes());
    Delivery { frame, accepted }
}

} // verus!
