//! The producer's side: sending a message, and giving up the sending half.
//!
//! Each operation is a value that says what is to be done next. A step is one
//! access to the shared state, so other parties may act between two steps.
use vstd::prelude::*;

use crate::blocker::{CoroutineImpl, Waiter};
use crate::inner::{CellId, ChannelView, InnerQueue};

verus! {

/// Waking whoever waits, after a message was sent or the sender went away.
#[derive(Clone, Copy, Debug, PartialEq, Eq, Structural)]
pub enum WakeOp {
    /// Take the registered waiter, which is then to be woken.
    TakeWaiter,
    /// Take the registered cell of a coroutine that waits with a timer.
    TakeTimed,
    /// Take the coroutine out of this cell, and report what was in it.
    TakeCell(CellId),
    /// Everybody has been woken.
    Done,
}

/// What a step of `op` does to the channel, what is to be done after it, and
/// whom it wakes.
pub open spec fn wake_step<T>(c: ChannelView<T>, op: WakeOp) -> (
    ChannelView<T>,
    WakeOp,
    Option<Waiter>,
) {
    match op {
        WakeOp::TakeWaiter => (ChannelView { waiter: None, ..c }, WakeOp::TakeTimed, c.waiter),
        WakeOp::TakeTimed => (
            ChannelView { timed: None, ..c },
            match c.timed {
                Some(cell) => WakeOp::TakeCell(cell),
                None => WakeOp::Done,
            },
            None,
        ),
        _ => (c, op, None),
    }
}

impl WakeOp {
    /// Whether the next step is an access to the channel.
    pub open spec fn on_channel(self) -> bool {
        self is TakeWaiter || self is TakeTimed
    }

    /// Makes the next access to the channel, and returns whom to wake.
    pub fn step<T>(self, inner: &mut InnerQueue<T>) -> (r: (WakeOp, Option<Waiter>))
        requires
            old(inner).wf(),
            self.on_channel(),
        ensures
            final(inner).wf(),
            (final(inner)@, r.0, r.1) == wake_step(old(inner)@, self),
    {
        match self {
            WakeOp::TakeWaiter => {
                let waiter = match inner.take_waiter() {
                    Some(blocker) => Some(blocker.unpark()),
                    None => None,
                };
                (WakeOp::TakeTimed, waiter)
            },
            WakeOp::TakeTimed => {
                let next = match inner.take_timed() {
                    Some(cell) => WakeOp::TakeCell(cell),
                    None => WakeOp::Done,
                };
                (next, None)
            },
            _ => (self, None),
        }
    }

    /// Goes on after the cell has been emptied: `co` is what was in it, and is
    /// to be scheduled.
    pub fn resume(self, co: Option<CoroutineImpl>) -> (r: (WakeOp, Option<Waiter>))
        requires
            self is TakeCell,
        ensures
            r.0 is Done,
            r.1 == match co {
                Some(co) => Some(Waiter::Coroutine(co)),
                None => None,
            },
    {
        let waiter = match co {
            Some(co) => Some(Waiter::Coroutine(co)),
            None => None,
        };
        (WakeOp::Done, waiter)
    }
}

/// Sending a message.
#[derive(Debug)]
pub enum SendOp<T> {
    /// See whether the receiver is gone.
    Check(T),
    /// Append the message.
    Push(T),
    /// The message is in the queue: wake whoever waits for it.
    Wake(WakeOp),
    /// The receiver is gone; the message was not sent.
    Refused(T),
}

/// What a step of `op` does to the channel, what is to be done after it, and
/// whom it wakes.
pub open spec fn send_step<T>(c: ChannelView<T>, op: SendOp<T>) -> (
    ChannelView<T>,
    SendOp<T>,
    Option<Waiter>,
) {
    match op {
        SendOp::Check(t) => (
            c,
            if c.port_dropped {
                SendOp::Refused(t)
            } else {
                SendOp::Push(t)
            },
            None,
        ),
        SendOp::Push(t) => (
            ChannelView { messages: c.messages.push(t), ..c },
            SendOp::Wake(WakeOp::TakeWaiter),
            None,
        ),
        SendOp::Wake(wake) => {
            let (next, wake, waiter) = wake_step(c, wake);
            (next, SendOp::Wake(wake), waiter)
        },
        SendOp::Refused(_) => (c, op, None),
    }
}

impl<T> SendOp<T> {
    /// Whether the next step is an access to the channel.
    pub open spec fn on_channel(self) -> bool {
        match self {
            SendOp::Wake(wake) => wake.on_channel(),
            SendOp::Refused(_) => false,
            _ => true,
        }
    }

    /// Makes the next access to the channel, and returns whom to wake.
    pub fn step(self, inner: &mut InnerQueue<T>) -> (r: (SendOp<T>, Option<Waiter>))
        requires
            old(inner).wf(),
            self.on_channel(),
        ensures
            final(inner).wf(),
            (final(inner)@, r.0, r.1) == send_step(old(inner)@, self),
    {
        match self {
            SendOp::Check(t) => {
                if inner.port_dropped() {
                    (SendOp::Refused(t), None)
                } else {
                    (SendOp::Push(t), None)
                }
            },
            SendOp::Push(t) => {
                inner.push(t);
                (SendOp::Wake(WakeOp::TakeWaiter), None)
            },
            SendOp::Wake(wake) => {
                let (wake, waiter) = wake.step(inner);
                (SendOp::Wake(wake), waiter)
            },
            SendOp::Refused(t) => (SendOp::Refused(t), None),
        }
    }
}

/// Giving up the sending half.
#[derive(Clone, Copy, Debug, PartialEq, Eq, Structural)]
pub enum DropChanOp {
    /// Record that the sender is gone.
    Close,
    /// The sender is gone: wake whoever waits for it.
    Wake(WakeOp),
}

/// What a step of `op` does to the channel, what is to be done after it, and
/// whom it wakes.
pub open spec fn drop_chan_step<T>(c: ChannelView<T>, op: DropChanOp) -> (
    ChannelView<T>,
    DropChanOp,
    Option<Waiter>,
) {
    match op {
        DropChanOp::Close => (
            ChannelView { channels: 0, ..c },
            DropChanOp::Wake(WakeOp::TakeWaiter),
            None,
        ),
        DropChanOp::Wake(wake) => {
            let (next, wake, waiter) = wake_step(c, wake);
            (next, DropChanOp::Wake(wake), waiter)
        },
    }
}

impl DropChanOp {
    /// Whether the next step is an access to the channel.
    pub open spec fn on_channel(self) -> bool {
        match self {
            DropChanOp::Close => true,
            DropChanOp::Wake(wake) => wake.on_channel(),
        }
    }

    /// Makes the next access to the channel, and returns whom to wake.
    pub fn step<T>(self, inner: &mut InnerQueue<T>) -> (r: (DropChanOp, Option<Waiter>))
        requires
            old(inner).wf(),
            self.on_channel(),
        ensures
            final(inner).wf(),
            (final(inner)@, r.0, r.1) == drop_chan_step(old(inner)@, self),
    {
        match self {
            DropChanOp::Close => {
                inner.close_channels();
                (DropChanOp::Wake(WakeOp::TakeWaiter), None)
            },
            DropChanOp::Wake(wake) => {
                let (wake, waiter) = wake.step(inner);
                (DropChanOp::Wake(wake), waiter)
            },
        }
    }
}

/// Who is to be woken: a waiter, and whoever is kept in a cell.
#[derive(Clone, Copy, Debug, PartialEq, Eq, Structural)]
pub struct Wakeups {
    /// The waiter.
    pub waiter: Option<Waiter>,
    /// The cell.
    pub cell: Option<CellId>,
}

/// The channel after `t` has been sent: it is the last message, and nobody is
/// registered any more.
pub open spec fn after_send<T>(c: ChannelView<T>, t: T) -> ChannelView<T> {
    ChannelView { messages: c.messages.push(t), waiter: None, timed: None, ..c }
}

/// The channel after the sending half has been given up: there is no sender, and
/// nobody is registered any more.
pub open spec fn after_drop_chan<T>(c: ChannelView<T>) -> ChannelView<T> {
    ChannelView { channels: 0, waiter: None, timed: None, ..c }
}

impl<T> InnerQueue<T> {
    /// Takes out everybody that is registered: both places are empty afterwards.
    fn take_all(&mut self) -> (wakeups: Wakeups)
        requires
            old(self).wf(),
        ensures
            final(self).wf(),
            final(self)@ == (ChannelView { waiter: None, timed: None, ..old(self)@ }),
            wakeups == (Wakeups { waiter: old(self)@.waiter, cell: old(self)@.timed }),
    {
        let (op, waiter) = WakeOp::TakeWaiter.step(self);
        let (op, _) = op.step(self);
        let cell = match op {
            WakeOp::TakeCell(cell) => Some(cell),
            _ => None,
        };
        Wakeups { waiter, cell }
    }

    /// Sends a message, with nobody else at the channel meanwhile. If the
    /// receiver is gone the message comes back; otherwise it is appended, and
    /// everybody that was registered is to be woken.
    pub fn send(&mut self, t: T) -> (r: (Result<(), T>, Wakeups))
        requires
            old(self).wf(),
        ensures
            final(self).wf(),
            old(self)@.port_dropped ==> r.0 == Err::<(), T>(t) && r.1 == (Wakeups {
                waiter: None,
                cell: None,
            }) && final(self)@ == old(self)@,
            !old(self)@.port_dropped ==> r.0 == Ok::<(), T>(()) && r.1 == (Wakeups {
                waiter: old(self)@.waiter,
                cell: old(self)@.timed,
            }) && final(self)@ == after_send(old(self)@, t),
            final(self)@.port_dropped == old(self)@.port_dropped,
            final(self)@.channels == old(self)@.channels,
    {
        let (op, _) = SendOp::Check(t).step(self);
        match op {
            SendOp::Refused(t) => (Err(t), Wakeups { waiter: None, cell: None }),
            op => {
                op.step(self);
                (Ok(()), self.take_all())
            },
        }
    }

    /// Gives up the sending half, with nobody else at the channel meanwhile:
    /// there is no sender any more, and everybody that was registered is to be
    /// woken.
    pub fn drop_chan(&mut self) -> (wakeups: Wakeups)
        requires
            old(self).wf(),
        ensures
            final(self).wf(),
            final(self)@ == after_drop_chan(old(self)@),
            final(self)@.channels == 0,
            final(self)@.messages == old(self)@.messages,
            wakeups == (Wakeups { waiter: old(self)@.waiter, cell: old(self)@.timed }),
    {
        DropChanOp::Close.step(self);
        self.take_all()
    }
}

} // verus!
