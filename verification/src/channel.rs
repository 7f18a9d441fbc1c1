//! The two halves of a channel.
//!
//! A half says who may do what; the state that both halves share is handed to
//! each call. The calls here run with nobody else at the channel meanwhile. Where
//! both halves are in use at once, their operations are run step by step instead,
//! see [`SendOp`](crate::send::SendOp), [`RecvOp`](crate::recv::RecvOp) and
//! [`TimedOp`](crate::timeout::TimedOp).
use core::marker::PhantomData;
use vstd::prelude::*;

use crate::blocker::{Thread, Waiter};
use crate::error::{ClosedError, RecvError, SendError, TryRecvError};
use crate::inner::{new_channel, ChannelView, InnerQueue};
use crate::recv::{
    after_try_recv, is_open_and_empty, recv_result, try_recv_result, Context, Progress, TryOp, Wait,
};
use crate::send::{after_drop_chan, after_send, Wakeups};
use crate::timeout::{
    decisive, last_try_result, timed_run, timed_runs, timed_thread_run, TimedCoOp, TimedOp,
    TimedThreadOp, Timeout,
};

verus! {

/// The sending half of a channel. There is one.
pub struct Sender<T> {
    marker: PhantomData<T>,
}

/// The receiving half of a channel. There is one.
pub struct Receiver<T> {
    marker: PhantomData<T>,
}

/// A new channel: its two halves, and the state that they share.
pub fn channel<T>() -> (r: (Sender<T>, Receiver<T>, InnerQueue<T>))
    ensures
        r.2.wf(),
        r.2@ == new_channel::<T>(),
{
    (Sender { marker: PhantomData }, Receiver { marker: PhantomData }, InnerQueue::new())
}

impl<T> Sender<T> {
    /// Sends a message. If the receiver is gone the message comes back in the
    /// error; otherwise it is appended, and everybody that was registered is to
    /// be woken.
    pub fn send(&self, inner: &mut InnerQueue<T>, t: T) -> (r: (
        Result<(), SendError<T>>,
        Wakeups,
    ))
        requires
            old(inner).wf(),
        ensures
            final(inner).wf(),
            old(inner)@.port_dropped ==> r.0 == Err::<(), SendError<T>>(SendError(t)) && r.1 == (
            Wakeups { waiter: None, cell: None }) && final(inner)@ == old(inner)@,
            !old(inner)@.port_dropped ==> r.0 == Ok::<(), SendError<T>>(()) && r.1 == (Wakeups {
                waiter: old(inner)@.waiter,
                cell: old(inner)@.timed,
            }) && final(inner)@ == after_send(old(inner)@, t),
            final(inner)@.port_dropped == old(inner)@.port_dropped,
            final(inner)@.channels == old(inner)@.channels,
    {
        match inner.send(t) {
            (Ok(()), wakeups) => (Ok(()), wakeups),
            (Err(t), wakeups) => (Err(SendError(t)), wakeups),
        }
    }

    /// How the half is shown to a programmer.
    pub fn fmt(&self) -> (text: String)
        ensures
            text@ == "Sender { .. }"@,
    {
        "Sender { .. }".to_owned()
    }

    /// Gives the sending half up: everybody that was registered is to be woken.
    pub fn drop(self, inner: &mut InnerQueue<T>) -> (wakeups: Wakeups)
        requires
            old(inner).wf(),
        ensures
            final(inner).wf(),
            final(inner)@ == after_drop_chan(old(inner)@),
            final(inner)@.channels == 0,
            final(inner)@.messages == old(inner)@.messages,
            wakeups == (Wakeups { waiter: old(inner)@.waiter, cell: old(inner)@.timed }),
    {
        inner.drop_chan()
    }
}

/// What `Receiver::recv` returns when the channel gave this result: with
/// [`TryRecvError::Empty`] nothing yet, it receives once more.
pub open spec fn settled<T>(data: Result<T, TryRecvError>) -> Option<Result<T, ClosedError>> {
    match data {
        Ok(t) => Some(Ok(t)),
        Err(TryRecvError::Disconnected) => Some(Err(ClosedError)),
        Err(TryRecvError::Empty) => None,
    }
}

impl<T> Receiver<T> {
    /// Receives without a wait.
    pub fn try_recv(&self, inner: &mut InnerQueue<T>) -> (data: Result<T, TryRecvError>)
        requires
            old(inner).wf(),
        ensures
            final(inner).wf(),
            data == try_recv_result(old(inner)@),
            final(inner)@ == after_try_recv(old(inner)@),
    {
        inner.try_recv()
    }

    /// What a receive that may wait returns when the channel gave `data`, or
    /// `None` where it has to receive once more.
    pub fn settle(&self, data: Result<T, TryRecvError>) -> (r: Option<Result<T, ClosedError>>)
        ensures
            r == settled(data),
    {
        match data {
            Ok(t) => Some(Ok(t)),
            Err(TryRecvError::Disconnected) => Some(Err(ClosedError)),
            Err(TryRecvError::Empty) => None,
        }
    }

    /// Receives, and waits where there is nothing to receive but still a sender.
    /// The call says how to wait, and is repeated after the wait.
    pub fn recv(&self, inner: &mut InnerQueue<T>, context: Context) -> (progress: Progress<
        Result<T, ClosedError>,
        Wait,
    >)
        requires
            old(inner).wf(),
            context is Thread && is_open_and_empty(old(inner)@) ==> !old(
                inner,
            )@.coroutine_waits(),
        ensures
            final(inner).wf(),
            !is_open_and_empty(old(inner)@) ==> {
                &&& progress == Progress::<Result<T, ClosedError>, Wait>::Ready(
                    recv_result(old(inner)@),
                )
                &&& final(inner)@ == after_try_recv(old(inner)@)
            },
            is_open_and_empty(old(inner)@) ==> match context {
                Context::Coroutine => {
                    &&& progress == Progress::<Result<T, ClosedError>, Wait>::Wait(Wait::Yield)
                    &&& final(inner)@ == old(inner)@
                },
                Context::Thread(thread) => {
                    &&& progress == Progress::<Result<T, ClosedError>, Wait>::Wait(Wait::Park)
                    &&& final(inner)@ == (ChannelView {
                        waiter: Some(Waiter::Thread(thread)),
                        ..old(inner)@
                    })
                },
            },
    {
        match inner.recv(context) {
            Progress::Ready(Ok(t)) => Progress::Ready(Ok(t)),
            Progress::Ready(Err(_)) => Progress::Ready(Err(ClosedError)),
            Progress::Wait(wait) => Progress::Wait(wait),
            Progress::Canceled => Progress::Canceled,
        }
    }

    /// Receives, and waits for a limited time where there is nothing to receive
    /// but still a sender. Without time to wait that is a timeout at once;
    /// otherwise a thread is registered as the waiter and parks, and a coroutine
    /// yields. After the wait, the receive goes on with
    /// `recv_with_timeout_thread_resumed` or `recv_with_timeout_co_resumed`.
    pub fn recv_with_timeout(
        &self,
        inner: &mut InnerQueue<T>,
        context: Context,
        timeout: Timeout,
    ) -> (progress: Progress<Result<T, RecvError>, Wait>)
        requires
            old(inner).wf(),
            context is Thread && is_open_and_empty(old(inner)@) && !timeout.spec_is_zero() ==> !old(
                inner,
            )@.coroutine_waits(),
        ensures
            final(inner).wf(),
            !is_open_and_empty(old(inner)@) ==> {
                &&& progress == Progress::<Result<T, RecvError>, Wait>::Ready(
                    decisive(try_recv_result(old(inner)@)),
                )
                &&& final(inner)@ == after_try_recv(old(inner)@)
            },
            timeout.spec_is_zero() ==> {
                &&& progress == Progress::<Result<T, RecvError>, Wait>::Ready(
                    last_try_result(try_recv_result(old(inner)@)),
                )
                &&& final(inner)@ == after_try_recv(old(inner)@)
            },
            is_open_and_empty(old(inner)@) && !timeout.spec_is_zero() ==> match context {
                Context::Coroutine => {
                    &&& progress == Progress::<Result<T, RecvError>, Wait>::Wait(
                        Wait::YieldTimeout(timeout),
                    )
                    &&& final(inner)@ == old(inner)@
                },
                Context::Thread(thread) => {
                    &&& progress == Progress::<Result<T, RecvError>, Wait>::Wait(
                        Wait::ParkTimeout(timeout),
                    )
                    &&& final(inner)@ == (ChannelView {
                        waiter: Some(Waiter::Thread(thread)),
                        ..old(inner)@
                    })
                },
            },
    {
        proof {
            reveal_with_fuel(timed_run, 9);
            reveal_with_fuel(timed_runs, 9);
        }
        match TimedOp::QuickTry(context, timeout, TryOp::FirstPop).run(inner) {
            TimedOp::Done(data) => Progress::Ready(data),
            TimedOp::Co(TimedCoOp::Done(data)) => Progress::Ready(data),
            TimedOp::Thread(TimedThreadOp::Done(data)) => Progress::Ready(data),
            TimedOp::Co(_) => Progress::Wait(Wait::YieldTimeout(timeout)),
            _ => Progress::Wait(Wait::ParkTimeout(timeout)),
        }
    }

    /// Begins to receive in a thread with a wait of limited time, after a first
    /// try that found nothing. The thread is registered as the waiter and parks,
    /// unless there is something to receive or no sender by now.
    pub fn recv_with_timeout_thread(
        &self,
        inner: &mut InnerQueue<T>,
        thread: Thread,
        timeout: Timeout,
    ) -> (progress: Progress<Result<T, RecvError>, Wait>)
        requires
            old(inner).wf(),
            !old(inner)@.coroutine_waits(),
        ensures
            final(inner).wf(),
            is_open_and_empty(old(inner)@) ==> {
                &&& progress == Progress::<Result<T, RecvError>, Wait>::Wait(
                    Wait::ParkTimeout(timeout),
                )
                &&& final(inner)@ == (ChannelView {
                    waiter: Some(Waiter::Thread(thread)),
                    ..old(inner)@
                })
            },
            !is_open_and_empty(old(inner)@) ==> {
                &&& progress == Progress::<Result<T, RecvError>, Wait>::Ready(
                    decisive(try_recv_result(old(inner)@)),
                )
                &&& final(inner)@ == (ChannelView { waiter: None, ..after_try_recv(old(inner)@) })
            },
    {
        proof {
            reveal_with_fuel(timed_thread_run, 6);
        }
        match TimedThreadOp::Register(thread, timeout).run(inner) {
            TimedThreadOp::Done(data) => Progress::Ready(data),
            _ => Progress::Wait(Wait::ParkTimeout(timeout)),
        }
    }

    /// Goes on with a receive in a thread with a wait of limited time, after the
    /// wait; this much of the time is left. Where there is nothing to receive but
    /// still a sender, the receive is over if the time is; if not, the thread
    /// parks for the rest of it.
    pub fn recv_with_timeout_thread_resumed(
        &self,
        inner: &mut InnerQueue<T>,
        thread: Thread,
        left: Timeout,
    ) -> (progress: Progress<Result<T, RecvError>, Wait>)
        requires
            old(inner).wf(),
            !old(inner)@.coroutine_waits(),
        ensures
            final(inner).wf(),
            !is_open_and_empty(old(inner)@) ==> {
                &&& progress == Progress::<Result<T, RecvError>, Wait>::Ready(
                    decisive(try_recv_result(old(inner)@)),
                )
                &&& final(inner)@ == (ChannelView { waiter: None, ..after_try_recv(old(inner)@) })
            },
            is_open_and_empty(old(inner)@) && left.spec_is_zero() ==> {
                &&& progress == Progress::<Result<T, RecvError>, Wait>::Ready(
                    Err(RecvError::Timeout),
                )
                &&& final(inner)@ == (ChannelView { waiter: None, ..old(inner)@ })
            },
            is_open_and_empty(old(inner)@) && !left.spec_is_zero() ==> {
                &&& progress == Progress::<Result<T, RecvError>, Wait>::Wait(
                    Wait::ParkTimeout(left),
                )
                &&& final(inner)@ == (ChannelView {
                    waiter: Some(Waiter::Thread(thread)),
                    ..old(inner)@
                })
            },
    {
        proof {
            reveal_with_fuel(timed_thread_run, 6);
        }
        match TimedThreadOp::Parked(thread, left).resume(left).run(inner) {
            TimedThreadOp::Done(data) => Progress::Ready(data),
            _ => Progress::Wait(Wait::ParkTimeout(left)),
        }
    }

    /// The messages as they come, until the sender is gone and every message has
    /// been received.
    pub fn iter(&self) -> (iter: Iter<'_, T>)
        ensures
            iter.rx() == self,
    {
        Iter { rx: self }
    }

    /// The messages that wait.
    pub fn try_iter(&self) -> (iter: TryIter<'_, T>)
        ensures
            iter.rx() == self,
    {
        TryIter { rx: self }
    }

    /// The messages as they come, until the sender is gone and every message has
    /// been received.
    pub fn into_iter(self) -> (iter: IntoIter<T>)
        ensures
            iter.rx() == self,
    {
        IntoIter { rx: self }
    }

    /// How the half is shown to a programmer.
    pub fn fmt(&self) -> (text: String)
        ensures
            text@ == "Receiver { .. }"@,
    {
        "Receiver { .. }".to_owned()
    }

    /// Gives the receiving half up: the messages that wait are thrown away.
    pub fn drop(self, inner: &mut InnerQueue<T>)
        requires
            old(inner).wf(),
        ensures
            final(inner).wf(),
            final(inner)@ == (ChannelView {
                messages: Seq::<T>::empty(),
                port_dropped: true,
                ..old(inner)@
            }),
    {
        inner.drop_port()
    }
}

/// The messages as they come; see [`Receiver::iter`].
pub struct Iter<'a, T> {
    rx: &'a Receiver<T>,
}

/// The messages that wait; see [`Receiver::try_iter`].
pub struct TryIter<'a, T> {
    rx: &'a Receiver<T>,
}

/// The messages as they come; see [`Receiver::into_iter`].
pub struct IntoIter<T> {
    rx: Receiver<T>,
}

/// How far an iterator over the messages as they come gets on the channel `c`:
/// `item` comes or the iteration waits, and the channel is then `after`.
pub open spec fn next_item<T>(
    c: ChannelView<T>,
    context: Context,
    progress: Progress<Option<T>, Wait>,
    after: ChannelView<T>,
) -> bool {
    if c.messages.len() > 0 {
        &&& progress == Progress::<Option<T>, Wait>::Ready(Some(c.messages[0]))
        &&& after == c.popped()
    } else if c.channels == 0 {
        &&& progress == Progress::<Option<T>, Wait>::Ready(None)
        &&& after == c
    } else {
        match context {
            Context::Coroutine => {
                &&& progress == Progress::<Option<T>, Wait>::Wait(Wait::Yield)
                &&& after == c
            },
            Context::Thread(thread) => {
                &&& progress == Progress::<Option<T>, Wait>::Wait(Wait::Park)
                &&& after == (ChannelView { waiter: Some(Waiter::Thread(thread)), ..c })
            },
        }
    }
}

impl<'a, T> Iter<'a, T> {
    /// The half that the messages are received with.
    pub closed spec fn rx(&self) -> &'a Receiver<T> {
        self.rx
    }

    /// The next message. The call says how to wait for it, and is repeated after
    /// the wait.
    pub fn next(&mut self, inner: &mut InnerQueue<T>, context: Context) -> (progress: Progress<
        Option<T>,
        Wait,
    >)
        requires
            old(inner).wf(),
            context is Thread && is_open_and_empty(old(inner)@) ==> !old(
                inner,
            )@.coroutine_waits(),
        ensures
            final(inner).wf(),
            final(self).rx() == old(self).rx(),
            next_item(old(inner)@, context, progress, final(inner)@),
            old(inner)@.messages.len() > 0 ==> {
                &&& progress == Progress::<Option<T>, Wait>::Ready(
                    Some(old(inner)@.messages[0]),
                )
                &&& final(inner)@.messages == old(inner)@.messages.skip(1)
            },
            progress == Progress::<Option<T>, Wait>::Ready(None) <==> old(
                inner,
            )@.messages.len() == 0 && old(inner)@.channels == 0,
    {
        match self.rx.recv(inner, context) {
            Progress::Ready(data) => Progress::Ready(data.ok()),
            Progress::Wait(wait) => Progress::Wait(wait),
            Progress::Canceled => Progress::Canceled,
        }
    }
}

impl<'a, T> TryIter<'a, T> {
    /// The half that the messages are received with.
    pub closed spec fn rx(&self) -> &'a Receiver<T> {
        self.rx
    }

    /// The next message that waits.
    pub fn next(&mut self, inner: &mut InnerQueue<T>) -> (item: Option<T>)
        requires
            old(inner).wf(),
        ensures
            final(inner).wf(),
            final(self).rx() == old(self).rx(),
            item == if old(inner)@.messages.len() > 0 {
                Some(old(inner)@.messages[0])
            } else {
                None
            },
            final(inner)@ == after_try_recv(old(inner)@),
    {
        self.rx.try_recv(inner).ok()
    }
}

impl<T> IntoIter<T> {
    /// The half that the messages are received with.
    pub closed spec fn rx(&self) -> Receiver<T> {
        self.rx
    }

    /// The next message. The call says how to wait for it, and is repeated after
    /// the wait.
    pub fn next(&mut self, inner: &mut InnerQueue<T>, context: Context) -> (progress: Progress<
        Option<T>,
        Wait,
    >)
        requires
            old(inner).wf(),
            context is Thread && is_open_and_empty(old(inner)@) ==> !old(
                inner,
            )@.coroutine_waits(),
        ensures
            final(inner).wf(),
            final(self).rx() == old(self).rx(),
            next_item(old(inner)@, context, progress, final(inner)@),
            old(inner)@.messages.len() > 0 ==> {
                &&& progress == Progress::<Option<T>, Wait>::Ready(
                    Some(old(inner)@.messages[0]),
                )
                &&& final(inner)@.messages == old(inner)@.messages.skip(1)
            },
            progress == Progress::<Option<T>, Wait>::Ready(None) <==> old(
                inner,
            )@.messages.len() == 0 && old(inner)@.channels == 0,
    {
        match self.rx.recv(inner, context) {
            Progress::Ready(data) => Progress::Ready(data.ok()),
            Progress::Wait(wait) => Progress::Wait(wait),
            Progress::Canceled => Progress::Canceled,
        }
    }

    /// Gives the receiving half up: the messages that wait are thrown away.
    pub fn drop(self, inner: &mut InnerQueue<T>)
        requires
            old(inner).wf(),
        ensures
            final(inner).wf(),
            final(inner)@ == (ChannelView {
                messages: Seq::<T>::empty(),
                port_dropped: true,
                ..old(inner)@
            }),
    {
        self.rx.drop(inner)
    }
}

} // verus!
