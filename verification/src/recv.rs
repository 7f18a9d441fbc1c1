//! The consumer's side: receiving without and with a wait, and giving up the
//! receiving half.
//!
//! Each operation is a value that says what is to be done next. A step is one
//! access to the shared state, so other parties may act between two steps.
use vstd::prelude::*;

use crate::blocker::{Blocker, Thread, Waiter};
use crate::error::{ClosedError, TryRecvError};
use crate::inner::{ChannelView, InnerQueue};
use crate::timeout::Timeout;

verus! {

/// Receiving without a wait.
#[derive(Clone, Copy, Debug, PartialEq, Eq, Structural)]
pub enum TryOp {
    /// Take the oldest message.
    FirstPop,
    /// There was none: see whether there is still a sender.
    CheckChannels,
    /// There is no sender any more, but one may have sent a message before it
    /// went away: take the oldest message.
    LastPop,
}

/// What comes after a step of a `TryOp`.
#[derive(Debug)]
pub enum TryStep<T> {
    /// This is to be done next.
    Next(TryOp),
    /// The operation is over.
    Done(Result<T, TryRecvError>),
}

/// What a step of `op` does to the channel, and what comes after it.
pub open spec fn try_step<T>(c: ChannelView<T>, op: TryOp) -> (ChannelView<T>, TryStep<T>) {
    match op {
        TryOp::FirstPop => if c.messages.len() > 0 {
            (c.popped(), TryStep::Done(Ok(c.messages[0])))
        } else {
            (c, TryStep::Next(TryOp::CheckChannels))
        },
        TryOp::CheckChannels => if c.channels > 0 {
            (c, TryStep::Done(Err(TryRecvError::Empty)))
        } else {
            (c, TryStep::Next(TryOp::LastPop))
        },
        TryOp::LastPop => if c.messages.len() > 0 {
            (c.popped(), TryStep::Done(Ok(c.messages[0])))
        } else {
            (c, TryStep::Done(Err(TryRecvError::Disconnected)))
        },
    }
}

impl TryOp {
    /// How many steps there are to come at most.
    pub open spec fn rank(self) -> nat {
        match self {
            TryOp::FirstPop => 3,
            TryOp::CheckChannels => 2,
            TryOp::LastPop => 1,
        }
    }

    /// Makes the next access to the channel.
    pub fn step<T>(self, inner: &mut InnerQueue<T>) -> (next: TryStep<T>)
        requires
            old(inner).wf(),
        ensures
            final(inner).wf(),
            (final(inner)@, next) == try_step(old(inner)@, self),
    {
        match self {
            TryOp::FirstPop => match inner.pop() {
                Some(data) => TryStep::Done(Ok(data)),
                None => TryStep::Next(TryOp::CheckChannels),
            },
            TryOp::CheckChannels => if inner.channels() > 0 {
                TryStep::Done(Err(TryRecvError::Empty))
            } else {
                TryStep::Next(TryOp::LastPop)
            },
            TryOp::LastPop => match inner.pop() {
                Some(data) => TryStep::Done(Ok(data)),
                None => TryStep::Done(Err(TryRecvError::Disconnected)),
            },
        }
    }
}

/// What a receive without a wait returns, with nobody else at the channel
/// meanwhile.
pub open spec fn try_recv_result<T>(c: ChannelView<T>) -> Result<T, TryRecvError> {
    if c.messages.len() > 0 {
        Ok(c.messages[0])
    } else if c.channels > 0 {
        Err(TryRecvError::Empty)
    } else {
        Err(TryRecvError::Disconnected)
    }
}

/// The channel after a receive without a wait: a message that was received is
/// gone from it.
pub open spec fn after_try_recv<T>(c: ChannelView<T>) -> ChannelView<T> {
    if c.messages.len() > 0 {
        c.popped()
    } else {
        c
    }
}

/// What a receive that may wait returns when it does not have to.
pub open spec fn recv_result<T>(c: ChannelView<T>) -> Result<T, ClosedError> {
    if c.messages.len() > 0 {
        Ok(c.messages[0])
    } else {
        Err(ClosedError)
    }
}

/// Whether a receiver has to wait: nothing was sent, but there is still a
/// sender.
pub open spec fn is_open_and_empty<T>(c: ChannelView<T>) -> bool {
    c.messages.len() == 0 && c.channels > 0
}

/// Where a receiver runs, and so how it waits.
#[derive(Clone, Copy, Debug, PartialEq, Eq, Structural)]
pub enum Context {
    /// In a coroutine, which waits by yielding to the scheduler.
    Coroutine,
    /// In this thread, which waits by parking.
    Thread(Thread),
}

/// Receiving with one wait at most.
#[derive(Debug)]
pub enum RecvOp<T> {
    /// Try to receive.
    FirstTry(Context, TryOp),
    /// There was nothing: register this thread as the waiter.
    Register(Thread),
    /// Try again: what came before the thread was registered wakes nobody.
    SecondTry(Thread, TryOp),
    /// The second try was decisive: forget the waiter, then return this.
    Unregister(Result<T, TryRecvError>),
    /// Park this thread.
    Parked(Thread),
    /// Yield to the scheduler, which registers the coroutine.
    Yielded,
    /// Yield once more as long as the scheduler is not done with the
    /// registration.
    AwaitKernel,
    /// Try a last time after the wait.
    LastTry(TryOp),
    /// The operation is over.
    Done(Result<T, TryRecvError>),
}

/// What a step of `op` does to the channel, and what is to be done after it.
pub open spec fn recv_step<T>(c: ChannelView<T>, op: RecvOp<T>) -> (ChannelView<T>, RecvOp<T>) {
    match op {
        RecvOp::FirstTry(context, op) => match try_step(c, op) {
            (c, TryStep::Next(op)) => (c, RecvOp::FirstTry(context, op)),
            (c, TryStep::Done(Err(TryRecvError::Empty))) => (
                c,
                match context {
                    Context::Coroutine => RecvOp::Yielded,
                    Context::Thread(thread) => RecvOp::Register(thread),
                },
            ),
            (c, TryStep::Done(data)) => (c, RecvOp::Done(data)),
        },
        RecvOp::Register(thread) => (
            ChannelView { waiter: Some(Waiter::Thread(thread)), ..c },
            RecvOp::SecondTry(thread, TryOp::FirstPop),
        ),
        RecvOp::SecondTry(thread, op) => match try_step(c, op) {
            (c, TryStep::Next(op)) => (c, RecvOp::SecondTry(thread, op)),
            (c, TryStep::Done(Err(TryRecvError::Empty))) => (c, RecvOp::Parked(thread)),
            (c, TryStep::Done(data)) => (c, RecvOp::Unregister(data)),
        },
        RecvOp::Unregister(data) => (ChannelView { waiter: None, ..c }, RecvOp::Done(data)),
        RecvOp::LastTry(op) => match try_step(c, op) {
            (c, TryStep::Next(op)) => (c, RecvOp::LastTry(op)),
            (c, TryStep::Done(data)) => (c, RecvOp::Done(data)),
        },
        _ => (c, op),
    }
}

/// The channel, and what is to be done, once `op` has made all its accesses up
/// to a wait or its end with nobody else at the channel meanwhile.
pub open spec fn recv_run<T>(c: ChannelView<T>, op: RecvOp<T>) -> (ChannelView<T>, RecvOp<T>)
    decreases op.rank(),
{
    if op.on_channel() {
        let (c, op) = recv_step(c, op);
        recv_run(c, op)
    } else {
        (c, op)
    }
}

/// Whether `op` can make all its accesses up to a wait or its end, with nobody
/// else at the channel meanwhile, without a coroutine being forgotten.
pub open spec fn recv_runs<T>(c: ChannelView<T>, op: RecvOp<T>) -> bool
    decreases op.rank(),
{
    op.on_channel() ==> {
        &&& op.forgets_waiter() ==> !c.coroutine_waits()
        &&& recv_runs(recv_step(c, op).0, recv_step(c, op).1)
    }
}

/// What is to be done after a wait of `op` is over; `wait_kernel` says whether
/// the scheduler is still at the registration.
pub open spec fn recv_resume<T>(op: RecvOp<T>, wait_kernel: bool) -> RecvOp<T> {
    match op {
        RecvOp::Parked(_) => RecvOp::LastTry(TryOp::FirstPop),
        RecvOp::Yielded => RecvOp::AwaitKernel,
        RecvOp::AwaitKernel if !wait_kernel => RecvOp::LastTry(TryOp::FirstPop),
        _ => op,
    }
}

impl<T> RecvOp<T> {
    /// Whether the next step is an access to the channel.
    pub open spec fn on_channel(self) -> bool {
        !self.waits() && !(self is Done)
    }

    /// Whether the next step is to wait.
    pub open spec fn waits(self) -> bool {
        self is Parked || self is Yielded || self is AwaitKernel
    }

    /// How many accesses there are to come at most before a wait or the end.
    pub open spec fn rank(self) -> nat {
        match self {
            RecvOp::FirstTry(_, op) => 9 + op.rank(),
            RecvOp::Register(_) => 8,
            RecvOp::SecondTry(_, op) => 4 + op.rank(),
            RecvOp::Unregister(_) => 4,
            RecvOp::LastTry(op) => op.rank(),
            _ => 0,
        }
    }

    /// Whether the next step forgets the registered waiter.
    pub open spec fn forgets_waiter(self) -> bool {
        self is Register || self is Unregister
    }

    /// Makes the next access to the channel.
    pub fn step(self, inner: &mut InnerQueue<T>) -> (next: RecvOp<T>)
        requires
            old(inner).wf(),
            self.on_channel(),
            self.forgets_waiter() ==> !old(inner)@.coroutine_waits(),
        ensures
            final(inner).wf(),
            (final(inner)@, next) == recv_step(old(inner)@, self),
    {
        match self {
            RecvOp::FirstTry(context, op) => match op.step(inner) {
                TryStep::Next(op) => RecvOp::FirstTry(context, op),
                TryStep::Done(Err(TryRecvError::Empty)) => match context {
                    Context::Coroutine => RecvOp::Yielded,
                    Context::Thread(thread) => RecvOp::Register(thread),
                },
                TryStep::Done(data) => RecvOp::Done(data),
            },
            RecvOp::Register(thread) => {
                inner.store_waiter(Blocker::new_thread(thread));
                RecvOp::SecondTry(thread, TryOp::FirstPop)
            },
            RecvOp::SecondTry(thread, op) => match op.step(inner) {
                TryStep::Next(op) => RecvOp::SecondTry(thread, op),
                TryStep::Done(Err(TryRecvError::Empty)) => RecvOp::Parked(thread),
                TryStep::Done(data) => RecvOp::Unregister(data),
            },
            RecvOp::Unregister(data) => {
                inner.clear_waiter();
                RecvOp::Done(data)
            },
            RecvOp::LastTry(op) => match op.step(inner) {
                TryStep::Next(op) => RecvOp::LastTry(op),
                TryStep::Done(data) => RecvOp::Done(data),
            },
            op => op,
        }
    }

    /// Makes all accesses up to a wait or the end.
    fn run(self, inner: &mut InnerQueue<T>) -> (op: RecvOp<T>)
        requires
            old(inner).wf(),
            recv_runs(old(inner)@, self),
        ensures
            final(inner).wf(),
            (final(inner)@, op) == recv_run(old(inner)@, self),
    {
        let mut op = self;
        loop
            invariant
                inner.wf(),
                recv_runs(inner@, op),
                recv_run(inner@, op) == recv_run(old(inner)@, self),
            decreases op.rank(),
        {
            match op {
                RecvOp::Parked(_) | RecvOp::Yielded | RecvOp::AwaitKernel | RecvOp::Done(_) => {
                    return op;
                },
                _ => {},
            }
            op = op.step(inner);
        }
    }

    /// Goes on after a wait; `wait_kernel` says whether the scheduler is still
    /// at the registration.
    pub fn resume(self, wait_kernel: bool) -> (next: RecvOp<T>)
        requires
            self.waits(),
        ensures
            next == recv_resume(self, wait_kernel),
    {
        match self {
            RecvOp::Parked(_) => RecvOp::LastTry(TryOp::FirstPop),
            RecvOp::Yielded => RecvOp::AwaitKernel,
            RecvOp::AwaitKernel => if wait_kernel {
                RecvOp::AwaitKernel
            } else {
                RecvOp::LastTry(TryOp::FirstPop)
            },
            op => op,
        }
    }
}

/// Giving up the receiving half.
#[derive(Clone, Copy, Debug, PartialEq, Eq, Structural)]
pub enum DropPortOp {
    /// Record that the receiver is gone.
    Close,
    /// Throw the oldest message away, until there is none.
    Drain,
    /// The operation is over.
    Done,
}

/// What a step of `op` does to the channel, what is to be done after it, and
/// which message is thrown away.
pub open spec fn drop_port_step<T>(c: ChannelView<T>, op: DropPortOp) -> (
    ChannelView<T>,
    DropPortOp,
    Option<T>,
) {
    match op {
        DropPortOp::Close => (ChannelView { port_dropped: true, ..c }, DropPortOp::Drain, None),
        DropPortOp::Drain => if c.messages.len() > 0 {
            (c.popped(), DropPortOp::Drain, Some(c.messages[0]))
        } else {
            (c, DropPortOp::Done, None)
        },
        DropPortOp::Done => (c, op, None),
    }
}

impl DropPortOp {
    /// Makes the next access to the channel, and returns the message that is
    /// thrown away: it is the caller who ends its life.
    pub fn step<T>(self, inner: &mut InnerQueue<T>) -> (r: (DropPortOp, Option<T>))
        requires
            old(inner).wf(),
        ensures
            final(inner).wf(),
            (final(inner)@, r.0, r.1) == drop_port_step(old(inner)@, self),
    {
        match self {
            DropPortOp::Close => {
                inner.close_port();
                (DropPortOp::Drain, None)
            },
            DropPortOp::Drain => match inner.pop() {
                Some(message) => (DropPortOp::Drain, Some(message)),
                None => (DropPortOp::Done, None),
            },
            DropPortOp::Done => (DropPortOp::Done, None),
        }
    }
}

/// How far an operation that may wait has come.
#[derive(Debug)]
pub enum Progress<R, W> {
    /// It is over, with this result.
    Ready(R),
    /// It waits in this way before it goes on.
    Wait(W),
    /// It is over: its coroutine was canceled, which is to be propagated.
    Canceled,
}

/// How a receiver waits.
#[derive(Clone, Copy, Debug, PartialEq, Eq, Structural)]
pub enum Wait {
    /// The thread parks until it is unparked.
    Park,
    /// The thread parks until it is unparked, for this time at most.
    ParkTimeout(Timeout),
    /// The coroutine yields to the scheduler, which registers it.
    Yield,
    /// The coroutine yields to the scheduler, which sets a timer to this time
    /// and registers it.
    YieldTimeout(Timeout),
}

impl<T> InnerQueue<T> {
    /// Receives without a wait, with nobody else at the channel meanwhile.
    pub fn try_recv(&mut self) -> (data: Result<T, TryRecvError>)
        requires
            old(self).wf(),
        ensures
            final(self).wf(),
            data == try_recv_result(old(self)@),
            final(self)@ == after_try_recv(old(self)@),
    {
        let mut op = TryOp::FirstPop;
        loop
            invariant
                self.wf(),
                self@ == old(self)@,
                op is FirstPop || self@.messages.len() == 0,
                op is LastPop ==> self@.channels == 0,
            decreases op.rank(),
        {
            match op.step(self) {
                TryStep::Done(data) => return data,
                TryStep::Next(next) => op = next,
            }
        }
    }

    /// Begins to receive with a wait, with nobody else at the channel
    /// meanwhile. Where there is nothing to receive but still a sender, a
    /// thread is registered as the waiter and parks, and a coroutine yields.
    /// After the wait, `try_recv` ends the receive.
    pub fn recv(&mut self, context: Context) -> (progress: Progress<Result<T, TryRecvError>, Wait>)
        requires
            old(self).wf(),
            context is Thread && is_open_and_empty(old(self)@) ==> !old(self)@.coroutine_waits(),
        ensures
            final(self).wf(),
            !is_open_and_empty(old(self)@) ==> {
                &&& progress == Progress::<Result<T, TryRecvError>, Wait>::Ready(
                    try_recv_result(old(self)@),
                )
                &&& final(self)@ == after_try_recv(old(self)@)
            },
            is_open_and_empty(old(self)@) ==> match context {
                Context::Coroutine => {
                    &&& progress == Progress::<Result<T, TryRecvError>, Wait>::Wait(Wait::Yield)
                    &&& final(self)@ == old(self)@
                },
                Context::Thread(thread) => {
                    &&& progress == Progress::<Result<T, TryRecvError>, Wait>::Wait(Wait::Park)
                    &&& final(self)@ == (ChannelView {
                        waiter: Some(Waiter::Thread(thread)),
                        ..old(self)@
                    })
                },
            },
    {
        proof {
            reveal_with_fuel(recv_run, 9);
            reveal_with_fuel(recv_runs, 9);
        }
        match RecvOp::FirstTry(context, TryOp::FirstPop).run(self) {
            RecvOp::Done(data) => Progress::Ready(data),
            RecvOp::Parked(_) => Progress::Wait(Wait::Park),
            _ => Progress::Wait(Wait::Yield),
        }
    }

    /// Gives up the receiving half, with nobody else at the channel meanwhile:
    /// the receiver is gone, and so is every message.
    pub fn drop_port(&mut self)
        requires
            old(self).wf(),
        ensures
            final(self).wf(),
            final(self)@ == (ChannelView {
                messages: Seq::<T>::empty(),
                port_dropped: true,
                ..old(self)@
            }),
    {
        let (mut op, _) = DropPortOp::Close.step(self);
        loop
            invariant_except_break
                self.wf(),
                op is Drain,
                self@ == (ChannelView {
                    messages: self@.messages,
                    port_dropped: true,
                    ..old(self)@
                }),
            ensures
                self.wf(),
                self@ == (ChannelView {
                    messages: Seq::<T>::empty(),
                    port_dropped: true,
                    ..old(self)@
                }),
            decreases self@.messages.len(),
        {
            let (next, _) = op.step(self);
            op = next;
            if let DropPortOp::Done = op {
                break;
            }
        }
    }
}

} // verus!
