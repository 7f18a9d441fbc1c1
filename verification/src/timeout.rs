//! Receiving with a wait of limited time.
use vstd::prelude::*;

use crate::blocker::{Blocker, Thread, Waiter};
use crate::error::{RecvError, TryRecvError};
use crate::inner::{CellId, ChannelView, InnerQueue};
use crate::park::{DropGuard, Park};
use crate::recv::{
    after_try_recv, is_open_and_empty, try_recv_result, try_step, Context, Progress, TryOp, TryStep,
    Wait,
};

verus! {

/// The longest time to wait.
#[derive(Clone, Copy, Debug, PartialEq, Eq, Structural)]
pub struct Timeout {
    /// Whole seconds.
    pub secs: u64,
    /// Nanoseconds on top of them.
    pub nanos: u32,
}

impl Timeout {
    /// The time in nanoseconds.
    pub open spec fn total(self) -> nat {
        self.secs as nat * 1_000_000_000 + self.nanos as nat
    }

    /// Whether there is no time to wait at all.
    pub open spec fn spec_is_zero(self) -> bool {
        self.secs == 0 && self.nanos == 0
    }

    /// Whether there is no time to wait at all.
    pub fn is_zero(self) -> (zero: bool)
        ensures
            zero == self.spec_is_zero(),
    {
        self.secs == 0 && self.nanos == 0
    }
}

/// How a coroutine's wait of limited time ended.
#[derive(Clone, Copy, Debug, PartialEq, Eq, Structural)]
pub enum WaitEnd {
    /// The timer ended it: the time is over.
    TimedOut,
    /// The coroutine was canceled.
    Canceled,
    /// Somebody woke the coroutine; this much of the time is left.
    Woken(Timeout),
}

/// Receiving in a coroutine with a wait of limited time.
#[derive(Debug)]
pub enum TimedCoOp<T> {
    /// Try to receive.
    FirstTry(Timeout, TryOp),
    /// There was nothing: yield to the scheduler, which sets a timer and
    /// registers the coroutine.
    Yielded(Timeout),
    /// Yield once more as long as the scheduler is not done with the
    /// registration.
    AwaitKernel(WaitEnd),
    /// Forget the cell in which the coroutine was kept.
    Clear(WaitEnd),
    /// Try once more after the wait. Where there is nothing, the operation is
    /// over if the time is, and waits again if it is not.
    LastTry(WaitEnd, TryOp),
    /// The operation is over.
    Done(Result<T, RecvError>),
    /// The operation is over: the coroutine was canceled.
    Canceled,
}

/// What a receive returns when it was tried with this result and does not try
/// again.
pub open spec fn decisive<T>(data: Result<T, TryRecvError>) -> Result<T, RecvError> {
    match data {
        Ok(t) => Ok(t),
        Err(_) => Err(RecvError::Disconnected),
    }
}

/// The same, computed.
fn decide<T>(data: Result<T, TryRecvError>) -> (r: Result<T, RecvError>)
    ensures
        r == decisive(data),
{
    match data {
        Ok(t) => Ok(t),
        Err(_) => Err(RecvError::Disconnected),
    }
}

/// What a step of `op` does to the channel, and what is to be done after it.
pub open spec fn timed_co_step<T>(c: ChannelView<T>, op: TimedCoOp<T>) -> (
    ChannelView<T>,
    TimedCoOp<T>,
) {
    match op {
        TimedCoOp::FirstTry(timeout, op) => match try_step(c, op) {
            (c, TryStep::Next(op)) => (c, TimedCoOp::FirstTry(timeout, op)),
            (c, TryStep::Done(Err(TryRecvError::Empty))) => (c, TimedCoOp::Yielded(timeout)),
            (c, TryStep::Done(data)) => (c, TimedCoOp::Done(decisive(data))),
        },
        TimedCoOp::Clear(end) => (
            ChannelView { timed: None, ..c },
            if end is Canceled {
                TimedCoOp::Canceled
            } else {
                TimedCoOp::LastTry(end, TryOp::FirstPop)
            },
        ),
        TimedCoOp::LastTry(end, op) => match try_step(c, op) {
            (c, TryStep::Next(op)) => (c, TimedCoOp::LastTry(end, op)),
            (c, TryStep::Done(Err(TryRecvError::Empty))) => (c, after_fruitless_wait(end)),
            (c, TryStep::Done(data)) => (c, TimedCoOp::Done(decisive(data))),
        },
        _ => (c, op),
    }
}

/// What is to be done when there is nothing to receive after a wait that ended
/// like this.
pub open spec fn after_fruitless_wait<T>(end: WaitEnd) -> TimedCoOp<T> {
    match end {
        WaitEnd::TimedOut => TimedCoOp::Done(Err(RecvError::Timeout)),
        WaitEnd::Canceled => TimedCoOp::Canceled,
        WaitEnd::Woken(left) => TimedCoOp::Yielded(left),
    }
}

/// What is to be done after the wait of `op` ended like this.
pub open spec fn timed_co_resume<T>(op: TimedCoOp<T>, end: WaitEnd) -> TimedCoOp<T> {
    match op {
        TimedCoOp::Yielded(_) => TimedCoOp::AwaitKernel(end),
        _ => op,
    }
}

/// What is to be done after a look at whether the scheduler is still at the
/// registration.
pub open spec fn timed_co_kernel<T>(op: TimedCoOp<T>, wait_kernel: bool) -> TimedCoOp<T> {
    match op {
        TimedCoOp::AwaitKernel(end) if !wait_kernel => TimedCoOp::Clear(end),
        _ => op,
    }
}

/// The channel, and what is to be done, once `op` has made all its accesses up
/// to a wait or its end with nobody else at the channel meanwhile.
pub open spec fn timed_co_run<T>(c: ChannelView<T>, op: TimedCoOp<T>) -> (
    ChannelView<T>,
    TimedCoOp<T>,
)
    decreases op.rank(),
{
    if op.on_channel() {
        let (c, op) = timed_co_step(c, op);
        timed_co_run(c, op)
    } else {
        (c, op)
    }
}

impl<T> TimedCoOp<T> {
    /// Whether the next step is an access to the channel.
    pub open spec fn on_channel(self) -> bool {
        self is FirstTry || self is Clear || self is LastTry
    }

    /// How many accesses there are to come at most before a wait or the end.
    pub open spec fn rank(self) -> nat {
        match self {
            TimedCoOp::FirstTry(_, op) => op.rank(),
            TimedCoOp::Clear(_) => 4,
            TimedCoOp::LastTry(_, op) => op.rank(),
            _ => 0,
        }
    }

    /// Makes the next access to the channel.
    pub fn step(self, inner: &mut InnerQueue<T>) -> (next: TimedCoOp<T>)
        requires
            old(inner).wf(),
            self.on_channel(),
        ensures
            final(inner).wf(),
            (final(inner)@, next) == timed_co_step(old(inner)@, self),
    {
        match self {
            TimedCoOp::FirstTry(timeout, op) => match op.step(inner) {
                TryStep::Next(op) => TimedCoOp::FirstTry(timeout, op),
                TryStep::Done(Err(TryRecvError::Empty)) => TimedCoOp::Yielded(timeout),
                TryStep::Done(data) => TimedCoOp::Done(decide(data)),
            },
            TimedCoOp::Clear(end) => {
                inner.take_timed();
                match end {
                    WaitEnd::Canceled => TimedCoOp::Canceled,
                    end => TimedCoOp::LastTry(end, TryOp::FirstPop),
                }
            },
            TimedCoOp::LastTry(end, op) => match op.step(inner) {
                TryStep::Next(op) => TimedCoOp::LastTry(end, op),
                TryStep::Done(Err(TryRecvError::Empty)) => match end {
                    WaitEnd::TimedOut => TimedCoOp::Done(Err(RecvError::Timeout)),
                    WaitEnd::Canceled => TimedCoOp::Canceled,
                    WaitEnd::Woken(left) => TimedCoOp::Yielded(left),
                },
                TryStep::Done(data) => TimedCoOp::Done(decide(data)),
            },
            op => op,
        }
    }

    /// Goes on after the wait, which ended like this.
    pub fn resume(self, end: WaitEnd) -> (next: TimedCoOp<T>)
        requires
            self is Yielded,
        ensures
            next == timed_co_resume(self, end),
    {
        TimedCoOp::AwaitKernel(end)
    }

    /// Goes on after a look at whether the scheduler is still at the
    /// registration.
    pub fn kernel_seen(self, wait_kernel: bool) -> (next: TimedCoOp<T>)
        requires
            self is AwaitKernel,
        ensures
            next == timed_co_kernel(self, wait_kernel),
    {
        match self {
            TimedCoOp::AwaitKernel(end) => if wait_kernel {
                TimedCoOp::AwaitKernel(end)
            } else {
                TimedCoOp::Clear(end)
            },
            op => op,
        }
    }

    /// Makes all accesses up to a wait or the end.
    pub(crate) fn run(self, inner: &mut InnerQueue<T>) -> (op: TimedCoOp<T>)
        requires
            old(inner).wf(),
        ensures
            final(inner).wf(),
            (final(inner)@, op) == timed_co_run(old(inner)@, self),
    {
        let mut op = self;
        loop
            invariant
                inner.wf(),
                timed_co_run(inner@, op) == timed_co_run(old(inner)@, self),
            decreases op.rank(),
        {
            match op {
                TimedCoOp::FirstTry(_, _) | TimedCoOp::Clear(_) | TimedCoOp::LastTry(_, _) => {
                    op = op.step(inner);
                },
                _ => {
                    return op;
                },
            }
        }
    }
}

/// Receiving in a thread with a wait of limited time.
#[derive(Debug)]
pub enum TimedThreadOp<T> {
    /// Register this thread as the waiter.
    Register(Thread, Timeout),
    /// Try to receive: what came before the thread was registered wakes nobody.
    SecondTry(Thread, Timeout, TryOp),
    /// The try was decisive: forget the waiter, then return this.
    Unregister(Result<T, RecvError>),
    /// Park this thread for the time given.
    Parked(Thread, Timeout),
    /// Try a last time: the time is over.
    LastTry(TryOp),
    /// The operation is over.
    Done(Result<T, RecvError>),
}

/// What a step of `op` does to the channel, and what is to be done after it.
pub open spec fn timed_thread_step<T>(c: ChannelView<T>, op: TimedThreadOp<T>) -> (
    ChannelView<T>,
    TimedThreadOp<T>,
) {
    match op {
        TimedThreadOp::Register(thread, timeout) => (
            ChannelView { waiter: Some(Waiter::Thread(thread)), ..c },
            TimedThreadOp::SecondTry(thread, timeout, TryOp::FirstPop),
        ),
        TimedThreadOp::SecondTry(thread, timeout, op) => match try_step(c, op) {
            (c, TryStep::Next(op)) => (c, TimedThreadOp::SecondTry(thread, timeout, op)),
            (c, TryStep::Done(Err(TryRecvError::Empty))) => (
                c,
                TimedThreadOp::Parked(thread, timeout),
            ),
            (c, TryStep::Done(data)) => (c, TimedThreadOp::Unregister(decisive(data))),
        },
        TimedThreadOp::Unregister(data) => (
            ChannelView { waiter: None, ..c },
            TimedThreadOp::Done(data),
        ),
        TimedThreadOp::LastTry(op) => match try_step(c, op) {
            (c, TryStep::Next(op)) => (c, TimedThreadOp::LastTry(op)),
            (c, TryStep::Done(data)) => (c, TimedThreadOp::Unregister(last_try_result(data))),
        },
        _ => (c, op),
    }
}

/// What a receive with a wait of limited time returns when its time is over and
/// its last try had this result.
pub open spec fn last_try_result<T>(data: Result<T, TryRecvError>) -> Result<T, RecvError> {
    match data {
        Ok(t) => Ok(t),
        Err(TryRecvError::Disconnected) => Err(RecvError::Disconnected),
        Err(TryRecvError::Empty) => Err(RecvError::Timeout),
    }
}

/// What is to be done after the wait of `op`, when this much of the time is left.
pub open spec fn timed_thread_resume<T>(op: TimedThreadOp<T>, left: Timeout) -> TimedThreadOp<T> {
    match op {
        TimedThreadOp::Parked(thread, _) => if left.spec_is_zero() {
            TimedThreadOp::LastTry(TryOp::FirstPop)
        } else {
            TimedThreadOp::Register(thread, left)
        },
        _ => op,
    }
}

/// The channel, and what is to be done, once `op` has made all its accesses up
/// to a wait or its end with nobody else at the channel meanwhile.
pub open spec fn timed_thread_run<T>(c: ChannelView<T>, op: TimedThreadOp<T>) -> (
    ChannelView<T>,
    TimedThreadOp<T>,
)
    decreases op.rank(),
{
    if op.on_channel() {
        let (c, op) = timed_thread_step(c, op);
        timed_thread_run(c, op)
    } else {
        (c, op)
    }
}

impl<T> TimedThreadOp<T> {
    /// Whether the next step is an access to the channel.
    pub open spec fn on_channel(self) -> bool {
        !(self is Parked) && !(self is Done)
    }

    /// How many accesses there are to come at most before a wait or the end.
    pub open spec fn rank(self) -> nat {
        match self {
            TimedThreadOp::Register(_, _) => 8,
            TimedThreadOp::SecondTry(_, _, op) => 4 + op.rank(),
            TimedThreadOp::Unregister(_) => 4,
            TimedThreadOp::LastTry(op) => 4 + op.rank(),
            _ => 0,
        }
    }

    /// Whether the next step forgets the registered waiter.
    pub open spec fn forgets_waiter(self) -> bool {
        self is Register || self is Unregister
    }

    /// Makes the next access to the channel.
    pub fn step(self, inner: &mut InnerQueue<T>) -> (next: TimedThreadOp<T>)
        requires
            old(inner).wf(),
            self.on_channel(),
            self.forgets_waiter() ==> !old(inner)@.coroutine_waits(),
        ensures
            final(inner).wf(),
            (final(inner)@, next) == timed_thread_step(old(inner)@, self),
    {
        match self {
            TimedThreadOp::Register(thread, timeout) => {
                inner.store_waiter(Blocker::new_thread(thread));
                TimedThreadOp::SecondTry(thread, timeout, TryOp::FirstPop)
            },
            TimedThreadOp::SecondTry(thread, timeout, op) => match op.step(inner) {
                TryStep::Next(op) => TimedThreadOp::SecondTry(thread, timeout, op),
                TryStep::Done(Err(TryRecvError::Empty)) => TimedThreadOp::Parked(thread, timeout),
                TryStep::Done(data) => TimedThreadOp::Unregister(decide(data)),
            },
            TimedThreadOp::Unregister(data) => {
                inner.clear_waiter();
                TimedThreadOp::Done(data)
            },
            TimedThreadOp::LastTry(op) => match op.step(inner) {
                TryStep::Next(op) => TimedThreadOp::LastTry(op),
                TryStep::Done(Ok(t)) => TimedThreadOp::Unregister(Ok(t)),
                TryStep::Done(Err(TryRecvError::Disconnected)) => TimedThreadOp::Unregister(
                    Err(RecvError::Disconnected),
                ),
                TryStep::Done(Err(TryRecvError::Empty)) => TimedThreadOp::Unregister(
                    Err(RecvError::Timeout),
                ),
            },
            op => op,
        }
    }

    /// Goes on after the wait; this much of the time is left. Once the time is
    /// over the thread tries a last time; before, it begins again, as a thread
    /// may go on without a cause.
    pub fn resume(self, left: Timeout) -> (next: TimedThreadOp<T>)
        requires
            self is Parked,
        ensures
            next == timed_thread_resume(self, left),
    {
        match self {
            TimedThreadOp::Parked(thread, _) => if left.is_zero() {
                TimedThreadOp::LastTry(TryOp::FirstPop)
            } else {
                TimedThreadOp::Register(thread, left)
            },
            op => op,
        }
    }

    /// Makes all accesses up to a wait or the end.
    pub(crate) fn run(self, inner: &mut InnerQueue<T>) -> (op: TimedThreadOp<T>)
        requires
            old(inner).wf(),
            !old(inner)@.coroutine_waits(),
        ensures
            final(inner).wf(),
            (final(inner)@, op) == timed_thread_run(old(inner)@, self),
    {
        let mut op = self;
        loop
            invariant
                inner.wf(),
                !inner@.coroutine_waits(),
                timed_thread_run(inner@, op) == timed_thread_run(old(inner)@, self),
            decreases op.rank(),
        {
            match op {
                TimedThreadOp::Parked(_, _) | TimedThreadOp::Done(_) => {
                    return op;
                },
                _ => {},
            }
            op = op.step(inner);
        }
    }
}

/// Receiving with a wait of limited time, wherever the receiver runs.
#[derive(Debug)]
pub enum TimedOp<T> {
    /// Try to receive.
    QuickTry(Context, Timeout, TryOp),
    /// There was nothing: go on as a coroutine.
    Co(TimedCoOp<T>),
    /// There was nothing: go on as a thread.
    Thread(TimedThreadOp<T>),
    /// The operation is over.
    Done(Result<T, RecvError>),
}

/// What is to be done when a first try to receive found nothing: without time to
/// wait the operation is over.
pub open spec fn start_wait<T>(context: Context, timeout: Timeout) -> TimedOp<T> {
    if timeout.spec_is_zero() {
        TimedOp::Done(Err(RecvError::Timeout))
    } else {
        match context {
            Context::Coroutine => TimedOp::Co(TimedCoOp::FirstTry(timeout, TryOp::FirstPop)),
            Context::Thread(thread) => TimedOp::Thread(TimedThreadOp::Register(thread, timeout)),
        }
    }
}

/// What a step of `op` does to the channel, and what is to be done after it.
pub open spec fn timed_step<T>(c: ChannelView<T>, op: TimedOp<T>) -> (ChannelView<T>, TimedOp<T>) {
    match op {
        TimedOp::QuickTry(context, timeout, op) => match try_step(c, op) {
            (c, TryStep::Next(op)) => (c, TimedOp::QuickTry(context, timeout, op)),
            (c, TryStep::Done(Err(TryRecvError::Empty))) => (c, start_wait(context, timeout)),
            (c, TryStep::Done(data)) => (c, TimedOp::Done(decisive(data))),
        },
        TimedOp::Co(op) => {
            let (c, op) = timed_co_step(c, op);
            (c, TimedOp::Co(op))
        },
        TimedOp::Thread(op) => {
            let (c, op) = timed_thread_step(c, op);
            (c, TimedOp::Thread(op))
        },
        TimedOp::Done(_) => (c, op),
    }
}

/// The channel, and what is to be done, once `op` has made all its accesses up
/// to a wait or its end with nobody else at the channel meanwhile.
pub open spec fn timed_run<T>(c: ChannelView<T>, op: TimedOp<T>) -> (ChannelView<T>, TimedOp<T>)
    decreases op.rank(),
{
    if op.on_channel() {
        let (c, op) = timed_step(c, op);
        timed_run(c, op)
    } else {
        (c, op)
    }
}

/// Whether `op` can make all its accesses up to a wait or its end, with nobody
/// else at the channel meanwhile, without a coroutine being forgotten.
pub open spec fn timed_runs<T>(c: ChannelView<T>, op: TimedOp<T>) -> bool
    decreases op.rank(),
{
    op.on_channel() ==> {
        &&& op.forgets_waiter() ==> !c.coroutine_waits()
        &&& timed_runs(timed_step(c, op).0, timed_step(c, op).1)
    }
}

/// What is to be done after the wait of `op` ended like this. A thread's wait
/// ends when its time is over or when somebody wakes it, never by a cancel.
pub open spec fn timed_resume<T>(op: TimedOp<T>, end: WaitEnd) -> TimedOp<T> {
    match op {
        TimedOp::Co(op) => TimedOp::Co(timed_co_resume(op, end)),
        TimedOp::Thread(op) => TimedOp::Thread(
            timed_thread_resume(
                op,
                match end {
                    WaitEnd::Woken(left) => left,
                    _ => Timeout { secs: 0, nanos: 0 },
                },
            ),
        ),
        _ => op,
    }
}

/// What is to be done after a look at whether the scheduler is still at the
/// registration.
pub open spec fn timed_kernel<T>(op: TimedOp<T>, wait_kernel: bool) -> TimedOp<T> {
    match op {
        TimedOp::Co(op) => TimedOp::Co(timed_co_kernel(op, wait_kernel)),
        _ => op,
    }
}

impl<T> TimedOp<T> {
    /// Whether the next step is an access to the channel.
    pub open spec fn on_channel(self) -> bool {
        match self {
            TimedOp::QuickTry(_, _, _) => true,
            TimedOp::Co(op) => op.on_channel(),
            TimedOp::Thread(op) => op.on_channel(),
            TimedOp::Done(_) => false,
        }
    }

    /// How many accesses there are to come at most before a wait or the end.
    pub open spec fn rank(self) -> nat {
        match self {
            TimedOp::QuickTry(_, _, op) => 8 + op.rank(),
            TimedOp::Co(op) => op.rank(),
            TimedOp::Thread(op) => op.rank(),
            TimedOp::Done(_) => 0,
        }
    }

    /// The result, once the operation is over.
    pub open spec fn outcome(self) -> Option<Result<T, RecvError>> {
        match self {
            TimedOp::Co(TimedCoOp::Done(data)) => Some(data),
            TimedOp::Thread(TimedThreadOp::Done(data)) => Some(data),
            TimedOp::Done(data) => Some(data),
            _ => None,
        }
    }

    /// The time that a wait to come may take.
    pub open spec fn time_left(self) -> Option<Timeout> {
        match self {
            TimedOp::QuickTry(_, timeout, _) => Some(timeout),
            TimedOp::Co(TimedCoOp::FirstTry(timeout, _)) => Some(timeout),
            TimedOp::Co(TimedCoOp::Yielded(timeout)) => Some(timeout),
            TimedOp::Co(TimedCoOp::AwaitKernel(WaitEnd::Woken(left))) => Some(left),
            TimedOp::Co(TimedCoOp::Clear(WaitEnd::Woken(left))) => Some(left),
            TimedOp::Co(TimedCoOp::LastTry(WaitEnd::Woken(left), _)) => Some(left),
            _ => None,
        }
    }

    /// Whether no further wait is to come because the time is over.
    pub open spec fn time_is_over(self) -> bool {
        match self {
            TimedOp::Co(TimedCoOp::AwaitKernel(end)) => end is TimedOut,
            TimedOp::Co(TimedCoOp::Clear(end)) => end is TimedOut,
            TimedOp::Co(TimedCoOp::LastTry(end, _)) => end is TimedOut,
            TimedOp::Thread(TimedThreadOp::LastTry(_)) => true,
            _ => self.gives_up(),
        }
    }

    /// Whether the operation is to return a timeout, or has done so.
    pub open spec fn gives_up(self) -> bool {
        match self {
            TimedOp::Thread(TimedThreadOp::Unregister(data)) => data == Err::<T, _>(
                RecvError::Timeout,
            ),
            _ => self.outcome() == Some(Err::<T, _>(RecvError::Timeout)),
        }
    }

    /// Whether a cancel ends the operation, or has ended it.
    pub open spec fn ends_canceled(self) -> bool {
        match self {
            TimedOp::Co(TimedCoOp::AwaitKernel(end)) => end is Canceled,
            TimedOp::Co(TimedCoOp::Clear(end)) => end is Canceled,
            TimedOp::Co(TimedCoOp::LastTry(end, _)) => end is Canceled,
            TimedOp::Co(TimedCoOp::Canceled) => true,
            _ => false,
        }
    }

    /// Whether a cancel has ended the operation.
    pub open spec fn is_canceled(self) -> bool {
        self matches TimedOp::Co(op) && op is Canceled
    }

    /// Whether the next step is to wait.
    pub open spec fn waits(self) -> bool {
        match self {
            TimedOp::Co(op) => op is Yielded,
            TimedOp::Thread(op) => op is Parked,
            _ => false,
        }
    }

    /// Whether the next step forgets the registered waiter.
    pub open spec fn forgets_waiter(self) -> bool {
        self matches TimedOp::Thread(op) && op.forgets_waiter()
    }

    /// Makes the next access to the channel.
    pub fn step(self, inner: &mut InnerQueue<T>) -> (next: TimedOp<T>)
        requires
            old(inner).wf(),
            self.on_channel(),
            self.forgets_waiter() ==> !old(inner)@.coroutine_waits(),
        ensures
            final(inner).wf(),
            (final(inner)@, next) == timed_step(old(inner)@, self),
    {
        match self {
            TimedOp::QuickTry(context, timeout, op) => match op.step(inner) {
                TryStep::Next(op) => TimedOp::QuickTry(context, timeout, op),
                TryStep::Done(Err(TryRecvError::Empty)) => if timeout.is_zero() {
                    TimedOp::Done(Err(RecvError::Timeout))
                } else {
                    match context {
                        Context::Coroutine => TimedOp::Co(
                            TimedCoOp::FirstTry(timeout, TryOp::FirstPop),
                        ),
                        Context::Thread(thread) => TimedOp::Thread(
                            TimedThreadOp::Register(thread, timeout),
                        ),
                    }
                },
                TryStep::Done(data) => TimedOp::Done(decide(data)),
            },
            TimedOp::Co(op) => TimedOp::Co(op.step(inner)),
            TimedOp::Thread(op) => TimedOp::Thread(op.step(inner)),
            op => op,
        }
    }

    /// Makes all accesses up to a wait or the end.
    pub(crate) fn run(self, inner: &mut InnerQueue<T>) -> (op: TimedOp<T>)
        requires
            old(inner).wf(),
            timed_runs(old(inner)@, self),
        ensures
            final(inner).wf(),
            (final(inner)@, op) == timed_run(old(inner)@, self),
    {
        let mut op = self;
        loop
            invariant
                inner.wf(),
                timed_runs(inner@, op),
                timed_run(inner@, op) == timed_run(old(inner)@, self),
            decreases op.rank(),
        {
            match op {
                TimedOp::Done(_) => {
                    return op;
                },
                TimedOp::Co(
                    TimedCoOp::Yielded(_)
                    | TimedCoOp::AwaitKernel(_)
                    | TimedCoOp::Done(_)
                    | TimedCoOp::Canceled,
                ) => {
                    return op;
                },
                TimedOp::Thread(TimedThreadOp::Parked(_, _) | TimedThreadOp::Done(_)) => {
                    return op;
                },
                _ => {},
            }
            op = op.step(inner);
        }
    }

    /// Goes on after the wait, which ended like this. No cancel ends a thread's
    /// wait.
    pub fn resume(self, end: WaitEnd) -> (next: TimedOp<T>)
        requires
            self.waits(),
            self is Thread ==> !(end is Canceled),
        ensures
            next == timed_resume(self, end),
    {
        match self {
            TimedOp::Co(op) => TimedOp::Co(op.resume(end)),
            TimedOp::Thread(op) => {
                let left = match end {
                    WaitEnd::Woken(left) => left,
                    _ => Timeout { secs: 0, nanos: 0 },
                };
                TimedOp::Thread(op.resume(left))
            },
            op => op,
        }
    }

    /// Goes on after a look at whether the scheduler is still at the
    /// registration.
    pub fn kernel_seen(self, wait_kernel: bool) -> (next: TimedOp<T>)
        requires
            self matches TimedOp::Co(op) && op is AwaitKernel,
        ensures
            next == timed_kernel(self, wait_kernel),
    {
        match self {
            TimedOp::Co(op) => TimedOp::Co(op.kernel_seen(wait_kernel)),
            op => op,
        }
    }
}

/// Registering a coroutine that has yielded in a receive with a wait of limited
/// time. The coroutine is already in its cell, and does not leave its wait
/// before the registration is over.
#[derive(Clone, Copy, Debug, PartialEq, Eq, Structural)]
pub enum SubscribeOp {
    /// Set a timer to this time that wakes what is in the cell.
    AddTimer(Timeout, CellId),
    /// Register the cell.
    Store(CellId),
    /// Have a cancel of the coroutine wake what is in the cell.
    SetCancel(CellId),
    /// See whether the coroutine was canceled before.
    CheckCancel(CellId),
    /// It was: cancel it once more, as the first time woke nobody.
    Cancel(CellId),
    /// See whether a message came in before the cell was registered: it woke
    /// nobody.
    Recheck(CellId),
    /// See whether the sender went away before the cell was registered: that
    /// woke nobody.
    RecheckChannels(CellId),
    /// There is a cause to go on: take the registered cell back, unless somebody
    /// else wakes what is in it already.
    TakeBack(CellId),
    /// Take the coroutine out of the cell and run it at once.
    Run(CellId),
    /// End the scheduler's use of the wait.
    Release,
    /// The operation is over.
    Done,
}

/// What a step of `op` does to the channel, and what is to be done after it.
pub open spec fn subscribe_step<T>(c: ChannelView<T>, op: SubscribeOp) -> (
    ChannelView<T>,
    SubscribeOp,
) {
    match op {
        SubscribeOp::Store(cell) => (
            ChannelView { timed: Some(cell), ..c },
            SubscribeOp::SetCancel(cell),
        ),
        SubscribeOp::Recheck(cell) => (
            c,
            if c.messages.len() > 0 {
                SubscribeOp::TakeBack(cell)
            } else {
                SubscribeOp::RecheckChannels(cell)
            },
        ),
        SubscribeOp::RecheckChannels(cell) => (
            c,
            if c.channels > 0 {
                SubscribeOp::Release
            } else {
                SubscribeOp::TakeBack(cell)
            },
        ),
        SubscribeOp::TakeBack(cell) => (
            ChannelView { timed: None, ..c },
            if c.timed is Some {
                SubscribeOp::Run(cell)
            } else {
                SubscribeOp::Release
            },
        ),
        _ => (c, op),
    }
}

/// What is to be done after a step of `op` that is no access to the channel;
/// `canceled` says whether the coroutine has been canceled.
pub open spec fn subscribe_next(op: SubscribeOp, canceled: bool) -> SubscribeOp {
    match op {
        SubscribeOp::AddTimer(_, cell) => SubscribeOp::Store(cell),
        SubscribeOp::SetCancel(cell) => SubscribeOp::CheckCancel(cell),
        SubscribeOp::CheckCancel(cell) => if canceled {
            SubscribeOp::Cancel(cell)
        } else {
            SubscribeOp::Recheck(cell)
        },
        SubscribeOp::Cancel(cell) => SubscribeOp::Recheck(cell),
        SubscribeOp::Run(_) => SubscribeOp::Release,
        SubscribeOp::Release => SubscribeOp::Done,
        _ => op,
    }
}

impl SubscribeOp {
    /// Whether the next step is an access to the channel.
    pub open spec fn on_channel(self) -> bool {
        self is Store || self is Recheck || self is RecheckChannels || self is TakeBack
    }

    /// Makes the next access to the channel.
    pub fn step<T>(self, inner: &mut InnerQueue<T>) -> (next: SubscribeOp)
        requires
            old(inner).wf(),
            self.on_channel(),
        ensures
            final(inner).wf(),
            (final(inner)@, next) == subscribe_step(old(inner)@, self),
    {
        match self {
            SubscribeOp::Store(cell) => {
                inner.store_timed(cell);
                SubscribeOp::SetCancel(cell)
            },
            SubscribeOp::Recheck(cell) => if !inner.is_empty() {
                SubscribeOp::TakeBack(cell)
            } else {
                SubscribeOp::RecheckChannels(cell)
            },
            SubscribeOp::RecheckChannels(cell) => if inner.channels() > 0 {
                SubscribeOp::Release
            } else {
                SubscribeOp::TakeBack(cell)
            },
            SubscribeOp::TakeBack(cell) => match inner.take_timed() {
                Some(_) => SubscribeOp::Run(cell),
                None => SubscribeOp::Release,
            },
            op => op,
        }
    }

    /// Goes on after a step that is no access to the channel; `canceled` says
    /// whether the coroutine has been canceled.
    pub fn resume(self, canceled: bool) -> (next: SubscribeOp)
        requires
            !self.on_channel(),
            !(self is Release),
        ensures
            next == subscribe_next(self, canceled),
    {
        match self {
            SubscribeOp::AddTimer(_, cell) => SubscribeOp::Store(cell),
            SubscribeOp::SetCancel(cell) => SubscribeOp::CheckCancel(cell),
            SubscribeOp::CheckCancel(cell) => if canceled {
                SubscribeOp::Cancel(cell)
            } else {
                SubscribeOp::Recheck(cell)
            },
            SubscribeOp::Cancel(cell) => SubscribeOp::Recheck(cell),
            SubscribeOp::Run(_) => SubscribeOp::Release,
            op => op,
        }
    }

    /// Ends the scheduler's use of the wait.
    pub fn release(self, guard: DropGuard) -> (r: (SubscribeOp, Park))
        requires
            self is Release,
        ensures
            r.0 == subscribe_next(self, false),
            !r.1.wait_kernel(),
    {
        (SubscribeOp::Done, guard.drop())
    }
}

/// A coroutine's wait of limited time.
#[derive(Clone, Copy, Debug, PartialEq, Eq, Structural)]
pub struct RecvTimeoutSource {
    /// The longest time to wait.
    pub timeout: Timeout,
}

/// What the scheduler does for a wait of limited time, besides the registration.
#[derive(Clone, Copy, Debug, PartialEq, Eq, Structural)]
pub struct Subscription {
    /// The time that the timer is set to.
    pub timer: Timeout,
    /// The cell that the timer and a cancel are to empty.
    pub cell: CellId,
    /// Whether the coroutine is to be canceled at once.
    pub cancel: bool,
    /// Whether what is then in the cell is to run at once.
    pub run: bool,
}

impl RecvTimeoutSource {
    /// Registers the cell of the coroutine that has yielded, with nobody else at
    /// the channel meanwhile. The timer is set, and a coroutine that was
    /// canceled before is to be canceled at once. If a message waits, or there
    /// is no sender, the cell is not registered, but the coroutine is to run at
    /// once.
    pub fn subscribe<T>(self, inner: &mut InnerQueue<T>, cell: CellId, canceled: bool) -> (r:
        Subscription)
        requires
            old(inner).wf(),
        ensures
            final(inner).wf(),
            final(inner)@ == (ChannelView {
                timed: if is_open_and_empty(old(inner)@) {
                    Some(cell)
                } else {
                    None
                },
                ..old(inner)@
            }),
            r == (Subscription {
                timer: self.timeout,
                cell,
                cancel: canceled,
                run: !is_open_and_empty(old(inner)@),
            }),
    {
        let op = SubscribeOp::AddTimer(self.timeout, cell).resume(canceled);
        let op = op.step(inner);
        let op = op.resume(canceled).resume(canceled);
        let (op, cancel) = match op {
            SubscribeOp::Cancel(_) => (op.resume(canceled), true),
            op => (op, false),
        };
        let op = op.step(inner);
        let op = match op {
            SubscribeOp::RecheckChannels(_) => op.step(inner),
            op => op,
        };
        let op = match op {
            SubscribeOp::TakeBack(_) => op.step(inner),
            op => op,
        };
        let run = match op {
            SubscribeOp::Run(_) => true,
            _ => false,
        };
        Subscription { timer: self.timeout, cell, cancel, run }
    }
}

impl<T> InnerQueue<T> {
    /// Begins to receive in a coroutine with a wait of limited time, with nobody
    /// else at the channel meanwhile. Where there is nothing to receive but
    /// still a sender, the coroutine yields.
    pub fn recv_with_timeout_co(&mut self, timeout: Timeout) -> (progress: Progress<
        Result<T, RecvError>,
        Wait,
    >)
        requires
            old(self).wf(),
        ensures
            final(self).wf(),
            final(self)@ == after_try_recv(old(self)@),
            progress == if is_open_and_empty(old(self)@) {
                Progress::<Result<T, RecvError>, Wait>::Wait(Wait::YieldTimeout(timeout))
            } else {
                Progress::<Result<T, RecvError>, Wait>::Ready(
                    decisive(try_recv_result(old(self)@)),
                )
            },
    {
        proof {
            reveal_with_fuel(timed_co_run, 4);
        }
        match TimedCoOp::FirstTry(timeout, TryOp::FirstPop).run(self) {
            TimedCoOp::Done(data) => Progress::Ready(data),
            _ => Progress::Wait(Wait::YieldTimeout(timeout)),
        }
    }

    /// Goes on with a receive in a coroutine with a wait of limited time, after a
    /// wait that ended like this, with nobody else at the channel meanwhile. A
    /// cancel ends the receive, and nothing is received. Otherwise, where there
    /// is nothing to receive but still a sender, the receive is over if the time
    /// is, and waits for the rest of it if not.
    pub fn recv_with_timeout_co_resumed(&mut self, end: WaitEnd) -> (progress: Progress<
        Result<T, RecvError>,
        Wait,
    >)
        requires
            old(self).wf(),
        ensures
            final(self).wf(),
            final(self)@ == (ChannelView {
                timed: None,
                ..(if end is Canceled {
                    old(self)@
                } else {
                    after_try_recv(old(self)@)
                })
            }),
            end is Canceled ==> progress == Progress::<Result<T, RecvError>, Wait>::Canceled,
            !(end is Canceled) && !is_open_and_empty(old(self)@) ==> progress == Progress::<
                Result<T, RecvError>,
                Wait,
            >::Ready(decisive(try_recv_result(old(self)@))),
            is_open_and_empty(old(self)@) ==> match end {
                WaitEnd::TimedOut => progress == Progress::<Result<T, RecvError>, Wait>::Ready(
                    Err(RecvError::Timeout),
                ),
                WaitEnd::Canceled => true,
                WaitEnd::Woken(left) => progress == Progress::<Result<T, RecvError>, Wait>::Wait(
                    Wait::YieldTimeout(left),
                ),
            },
    {
        proof {
            reveal_with_fuel(timed_co_run, 5);
        }
        match TimedCoOp::Clear(end).run(self) {
            TimedCoOp::Done(data) => Progress::Ready(data),
            TimedCoOp::Yielded(left) => Progress::Wait(Wait::YieldTimeout(left)),
            _ => Progress::Canceled,
        }
    }
}

} // verus!
