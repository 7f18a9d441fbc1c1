//! What an operation on a channel can fail with.
use vstd::prelude::*;

verus! {

/// Error returned from `Receiver::recv_with_timeout`.
#[derive(Clone, Copy, Debug, PartialEq, Eq, Structural)]
pub enum RecvError {
    /// The sender is gone; no further message will arrive.
    Disconnected,
    /// The wait ended with an empty queue.
    Timeout,
}

/// Error returned from `Receiver::try_recv`.
#[derive(Clone, Copy, Debug, PartialEq, Eq, Structural)]
pub enum TryRecvError {
    /// No message waits, but the sender may still send one.
    Empty,
    /// No message waits and the sender is gone.
    Disconnected,
}

/// Error returned from `Receiver::recv`: the sender is gone and every message
/// has been received.
#[derive(Clone, Copy, Debug, PartialEq, Eq, Structural)]
pub struct ClosedError;

/// Error returned from `Sender::send`: the receiver is gone. It carries the
/// message that could not be sent.
#[derive(Debug, PartialEq, Eq)]
pub struct SendError<T>(pub T);

} // verus!
