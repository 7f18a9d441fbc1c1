//! Everybody at one channel at once.
//!
//! The producer, the consumer and the scheduler act on the channel one access at
//! a time, in any order. [`System`] is the state of all of them, [`Step`] one act
//! of one of them; the accesses are those of the operations that the two halves
//! and the scheduler run.
use vstd::prelude::*;

use crate::blocker::{CoroutineImpl, Thread, Waiter};
use crate::error::TryRecvError;
use crate::inner::{new_channel, CellId, ChannelView};
use crate::park::{park_step, ParkOp};
use crate::recv::{
    drop_port_step, recv_resume, recv_step, try_step, Context, DropPortOp, RecvOp, TryOp, TryStep,
};
use crate::send::{drop_chan_step, send_step, DropChanOp, SendOp, WakeOp};
use crate::timeout::{
    subscribe_next, subscribe_step, timed_kernel, timed_resume, timed_step, SubscribeOp, TimedCoOp,
    TimedOp, TimedThreadOp, Timeout, WaitEnd,
};

verus! {

/// What the producer is at.
pub enum Producer<T> {
    /// Nothing.
    Idle,
    /// Sending a message.
    Sending(SendOp<T>),
    /// Giving up the sending half.
    Dropping(DropChanOp),
    /// The sending half is gone.
    Gone,
}

/// What the consumer is at.
pub enum Consumer<T> {
    /// Nothing.
    Idle,
    /// Receiving without a wait.
    Trying(TryOp),
    /// A receive without a wait is over, with this result.
    Tried(Result<T, TryRecvError>),
    /// Receiving.
    Receiving(RecvOp<T>),
    /// Receiving with a wait of limited time.
    Timed(TimedOp<T>),
    /// Giving up the receiving half.
    Dropping(DropPortOp),
    /// The receiving half is gone.
    Gone,
}

/// The state of everybody at a channel.
#[verifier::ext_equal]
pub struct System<T> {
    /// The channel.
    pub chan: ChannelView<T>,
    /// The producer.
    pub producer: Producer<T>,
    /// Whom the producer has taken out to wake and not yet woken.
    pub waking: Option<Waiter>,
    /// The consumer.
    pub consumer: Consumer<T>,
    /// The consumer's coroutine, while it is suspended.
    pub suspended: Option<CoroutineImpl>,
    /// The coroutine that the scheduler has been given to run.
    pub runnable: Option<CoroutineImpl>,
    /// The threads that have been unparked since they parked last.
    pub tokens: Set<Thread>,
    /// The registration of a coroutine that has yielded in a receive.
    pub kernel: Option<ParkOp>,
    /// Whether the scheduler still uses the consumer's wait.
    pub wait_kernel: bool,
    /// Whether there was a sender when the coroutine was registered last.
    pub open_at_store: bool,
    /// The registration for a wait of limited time, and the cell.
    pub subscribing: Option<(CellId, SubscribeOp)>,
    /// The cell that holds a coroutine, and the coroutine.
    pub held: Option<(CellId, CoroutineImpl)>,
    /// The time, in nanoseconds.
    pub now: nat,
    /// When the time of the latest receive with a wait of limited time is over.
    pub deadline: nat,
    /// Where the consumer's latest receive with a wait runs.
    pub context: Context,
    /// The time that the latest receive with a wait of limited time was started
    /// with, or the time left that it was last told of.
    pub limit: Timeout,
    /// The cells that timers are set for, and when each timer is due.
    pub timers: Map<CellId, nat>,
    /// Whether the timer ended the latest wait of limited time.
    pub timed_out: bool,
    /// Whether the coroutine has been canceled since the latest wait of limited
    /// time began.
    pub canceled: bool,
    /// How many messages had been sent when the consumer last looked and found
    /// none waiting.
    pub sent_at_look: nat,
    /// Whether there was a sender when the consumer last looked.
    pub open_at_look: bool,
    /// The messages that were sent, from the first on.
    pub sent: Seq<T>,
    /// The messages that the consumer was given, from the first on.
    pub received: Seq<T>,
    /// The messages that were thrown away with the receiving half.
    pub discarded: Seq<T>,
}

/// One act.
pub enum Step<T> {
    /// The producer begins to send a message.
    StartSend(T),
    /// The producer begins to give its half up.
    StartDropChan,
    /// The producer makes its next access to the channel.
    ProducerAccess,
    /// The producer wakes whom it has taken out.
    ProducerWake,
    /// The producer takes the coroutine out of a cell.
    ProducerCell,
    /// The producer ends its operation.
    ProducerEnd,
    /// The consumer begins to receive without a wait.
    StartTry,
    /// The consumer begins to receive.
    StartRecv(Context),
    /// The consumer begins to receive with a wait of limited time.
    StartTimed(Context, Timeout),
    /// The consumer begins to give its half up.
    StartDropPort,
    /// The consumer makes its next access to the channel.
    ConsumerAccess,
    /// The consumer's thread goes on after it parked, with or without a cause.
    /// If it waits for a limited time, it sees this much of it left.
    Unparked(Timeout),
    /// The consumer's coroutine yields in a receive.
    Suspend(CoroutineImpl),
    /// The consumer's coroutine yields in a receive with a wait of limited time,
    /// and is put into a new cell.
    SuspendTimed(CoroutineImpl, CellId),
    /// The scheduler resumes the consumer's coroutine. If it waits for a limited
    /// time, it sees this much of it left.
    Resume(Timeout),
    /// The consumer sees whether the scheduler is done with its wait.
    ConsumerKernel,
    /// The consumer ends its operation.
    ConsumerEnd,
    /// The scheduler makes the next access to register a coroutine.
    KernelAccess,
    /// The scheduler ends its use of the consumer's wait.
    KernelRelease,
    /// The scheduler goes on to register a cell; the flag says whether the
    /// coroutine has been canceled.
    Subscribe(bool),
    /// The timer for this cell fires.
    TimerFires(CellId),
    /// Somebody cancels the coroutine, which wakes what is in this cell.
    Cancel(CellId),
    /// So many nanoseconds go by.
    Tick(nat),
}

/// A new channel, with nobody at it.
pub open spec fn initial<T>() -> System<T> {
    System {
        chan: new_channel(),
        producer: Producer::Idle,
        waking: None,
        consumer: Consumer::Idle,
        suspended: None,
        runnable: None,
        tokens: Set::empty(),
        kernel: None,
        wait_kernel: false,
        open_at_store: false,
        subscribing: None,
        held: None,
        now: 0,
        deadline: 0,
        context: Context::Coroutine,
        limit: Timeout { secs: 0, nanos: 0 },
        timers: Map::empty(),
        timed_out: false,
        canceled: false,
        sent_at_look: 0,
        open_at_look: false,
        sent: Seq::empty(),
        received: Seq::empty(),
        discarded: Seq::empty(),
    }
}

impl<T> Producer<T> {
    /// Whether the next step is an access to the channel.
    pub open spec fn on_channel(self) -> bool {
        match self {
            Producer::Sending(op) => op.on_channel(),
            Producer::Dropping(op) => op.on_channel(),
            _ => false,
        }
    }

    /// The waking that the producer is at.
    pub open spec fn wake_op(self) -> Option<WakeOp> {
        match self {
            Producer::Sending(SendOp::Wake(op)) => Some(op),
            Producer::Dropping(DropChanOp::Wake(op)) => Some(op),
            _ => None,
        }
    }

    /// The producer, when the waking that it is at has come to `op`.
    pub open spec fn with_wake_op(self, op: WakeOp) -> Self {
        match self {
            Producer::Sending(_) => Producer::Sending(SendOp::Wake(op)),
            _ => Producer::Dropping(DropChanOp::Wake(op)),
        }
    }
}

impl<T> Consumer<T> {
    /// Whether the next step is an access to the channel.
    pub open spec fn on_channel(self) -> bool {
        match self {
            Consumer::Trying(_) => true,
            Consumer::Receiving(op) => op.on_channel(),
            Consumer::Timed(op) => op.on_channel(),
            Consumer::Dropping(op) => !(op is Done),
            _ => false,
        }
    }

    /// Whether the next step forgets the registered waiter.
    pub open spec fn forgets_waiter(self) -> bool {
        match self {
            Consumer::Receiving(op) => op.forgets_waiter(),
            Consumer::Timed(op) => op.forgets_waiter(),
            _ => false,
        }
    }

    /// The try to receive that the consumer is at.
    pub open spec fn try_op(self) -> Option<TryOp> {
        match self {
            Consumer::Trying(op) => Some(op),
            Consumer::Receiving(RecvOp::FirstTry(_, op)) => Some(op),
            Consumer::Receiving(RecvOp::SecondTry(_, op)) => Some(op),
            Consumer::Receiving(RecvOp::LastTry(op)) => Some(op),
            Consumer::Timed(TimedOp::QuickTry(_, _, op)) => Some(op),
            Consumer::Timed(TimedOp::Co(TimedCoOp::FirstTry(_, op))) => Some(op),
            Consumer::Timed(TimedOp::Co(TimedCoOp::LastTry(_, op))) => Some(op),
            Consumer::Timed(TimedOp::Thread(TimedThreadOp::SecondTry(_, _, op))) => Some(op),
            Consumer::Timed(TimedOp::Thread(TimedThreadOp::LastTry(op))) => Some(op),
            _ => None,
        }
    }

    /// The thread that is parked.
    pub open spec fn parked(self) -> Option<Thread> {
        match self {
            Consumer::Receiving(RecvOp::Parked(thread)) => Some(thread),
            Consumer::Timed(TimedOp::Thread(TimedThreadOp::Parked(thread, _))) => Some(thread),
            _ => None,
        }
    }

    /// The thread that has registered itself and counts on being woken.
    pub open spec fn registered(self) -> Option<Thread> {
        match self {
            Consumer::Receiving(RecvOp::SecondTry(thread, _)) => Some(thread),
            Consumer::Timed(TimedOp::Thread(TimedThreadOp::SecondTry(thread, _, _))) => Some(
                thread,
            ),
            _ => self.parked(),
        }
    }

    /// The message that the consumer has taken out and not yet been given.
    pub open spec fn in_hand(self) -> Seq<T> {
        match self {
            Consumer::Tried(Ok(t)) => seq![t],
            Consumer::Receiving(RecvOp::Unregister(Ok(t))) => seq![t],
            Consumer::Receiving(RecvOp::Done(Ok(t))) => seq![t],
            Consumer::Timed(TimedOp::Thread(TimedThreadOp::Unregister(Ok(t)))) => seq![t],
            Consumer::Timed(op) => match op.outcome() {
                Some(Ok(t)) => seq![t],
                _ => Seq::empty(),
            },
            _ => Seq::empty(),
        }
    }

    /// Whether the consumer's operation has come to an end.
    pub open spec fn is_done(self) -> bool {
        match self {
            Consumer::Tried(_) => true,
            Consumer::Receiving(op) => op is Done,
            Consumer::Timed(op) => op.outcome() is Some || op.is_canceled(),
            Consumer::Dropping(op) => op is Done,
            _ => false,
        }
    }

    /// Whether the consumer waits for the scheduler to be done with its wait.
    pub open spec fn awaits_kernel(self) -> bool {
        match self {
            Consumer::Receiving(op) => op is AwaitKernel,
            Consumer::Timed(TimedOp::Co(op)) => op is AwaitKernel,
            _ => false,
        }
    }

    /// Whether the receiver is gone, or the consumer has recorded that it goes.
    pub open spec fn has_closed(self) -> bool {
        match self {
            Consumer::Dropping(op) => !(op is Close),
            Consumer::Gone => true,
            _ => false,
        }
    }

    /// Whether the consumer yields in a receive with a wait of limited time.
    pub open spec fn is_timed_yield(self) -> bool {
        self matches Consumer::Timed(TimedOp::Co(TimedCoOp::Yielded(_)))
    }
}

impl<T> System<T> {
    /// Whether `step` can be taken.
    pub open spec fn enables(self, step: Step<T>) -> bool {
        match step {
            Step::StartSend(_) => self.producer is Idle,
            Step::StartDropChan => self.producer is Idle,
            Step::ProducerAccess => self.producer.on_channel() && self.waking is None,
            Step::ProducerWake => self.waking is Some,
            Step::ProducerCell => self.producer.wake_op() matches Some(WakeOp::TakeCell(_))
                && self.waking is None,
            Step::ProducerEnd => {
                &&& self.waking is None
                &&& self.producer.wake_op() == Some(WakeOp::Done)
                    || self.producer matches Producer::Sending(SendOp::Refused(_))
            },
            Step::StartTry => self.consumer is Idle,
            Step::StartRecv(_) => self.consumer is Idle,
            Step::StartTimed(_, _) => self.consumer is Idle,
            Step::StartDropPort => self.consumer is Idle,
            Step::ConsumerAccess => self.consumer.on_channel(),
            Step::Unparked(left) => self.consumer.parked() is Some && self.covers(left),
            Step::Suspend(_) => {
                &&& self.consumer matches Consumer::Receiving(RecvOp::Yielded)
                &&& self.suspended is None
            },
            Step::SuspendTimed(_, cell) => {
                &&& self.consumer.is_timed_yield()
                &&& self.suspended is None
                &&& self.is_new_cell(cell)
            },
            Step::Resume(left) => {
                &&& self.suspended is Some
                &&& self.runnable == self.suspended
                &&& self.covers(left)
            },
            Step::ConsumerKernel => self.consumer.awaits_kernel(),
            Step::ConsumerEnd => self.consumer.is_done(),
            Step::KernelAccess => self.kernel matches Some(op) && op.on_channel(),
            Step::KernelRelease => self.kernel == Some(ParkOp::Release),
            Step::Subscribe(_) => self.subscribing is Some,
            Step::TimerFires(cell) => self.timers.dom().contains(cell) && self.timers[cell]
                <= self.now,
            Step::Cancel(_) => true,
            Step::Tick(_) => true,
        }
    }

    /// Whether a receive with a wait of limited time that is under way has no
    /// more time left than this. A clock that is read never tells less than is
    /// left.
    pub open spec fn covers(self, left: Timeout) -> bool {
        self.consumer is Timed ==> self.now + left.total() >= self.deadline
    }

    /// How the coroutine's wait of limited time has ended, when it sees this much
    /// of the time left.
    pub open spec fn wait_end(self, left: Timeout) -> WaitEnd {
        if self.canceled {
            WaitEnd::Canceled
        } else if self.timed_out {
            WaitEnd::TimedOut
        } else {
            WaitEnd::Woken(left)
        }
    }

    /// Whether nobody knows `cell` yet.
    pub open spec fn is_new_cell(self, cell: CellId) -> bool {
        &&& !self.timers.dom().contains(cell)
        &&& self.chan.timed != Some(cell)
        &&& self.producer.wake_op() != Some(WakeOp::TakeCell(cell))
    }

    /// Where a coroutine can be that somebody is to wake or to run, or is about
    /// to register: who is there, place by place.
    pub open spec fn places(self) -> Seq<Option<Waiter>> {
        seq![
            self.chan.waiter,
            self.waking,
            match self.runnable {
                Some(co) => Some(Waiter::Coroutine(co)),
                None => None,
            },
            match self.held {
                Some((_, co)) => Some(Waiter::Coroutine(co)),
                None => None,
            },
            match self.kernel {
                Some(ParkOp::Store(co)) => Some(Waiter::Coroutine(co)),
                _ => None,
            },
        ]
    }

    /// Whether there is a coroutine in place number `place`.
    pub open spec fn coroutine_at(self, place: int) -> bool {
        &&& 0 <= place < self.places().len()
        &&& self.places()[place] matches Some(Waiter::Coroutine(_))
    }

    /// What is in `cell`.
    pub open spec fn content(self, cell: CellId) -> Option<CoroutineImpl> {
        match self.held {
            Some((held, co)) if held == cell => Some(co),
            _ => None,
        }
    }

    /// The state after `cell` has been emptied.
    pub open spec fn emptied(self, cell: CellId) -> Self {
        System {
            held: if self.content(cell) is Some {
                None
            } else {
                self.held
            },
            ..self
        }
    }
}

impl<T> System<T> {
    /// The state after the producer's next access to the channel.
    pub open spec fn after_producer_access(self) -> Self {
        match self.producer {
            Producer::Sending(op) => {
                let (chan, next, waking) = send_step(self.chan, op);
                System {
                    chan,
                    producer: Producer::Sending(next),
                    waking,
                    sent: match op {
                        SendOp::Push(t) => self.sent.push(t),
                        _ => self.sent,
                    },
                    ..self
                }
            },
            Producer::Dropping(op) => {
                let (chan, next, waking) = drop_chan_step(self.chan, op);
                System { chan, producer: Producer::Dropping(next), waking, ..self }
            },
            _ => self,
        }
    }

    /// The state after the producer has woken whom it had taken out.
    pub open spec fn after_producer_wake(self) -> Self {
        match self.waking {
            Some(Waiter::Coroutine(co)) => System { waking: None, runnable: Some(co), ..self },
            Some(Waiter::Thread(thread)) => System {
                waking: None,
                tokens: self.tokens.insert(thread),
                ..self
            },
            None => self,
        }
    }

    /// The state after the producer has emptied a cell.
    pub open spec fn after_producer_cell(self) -> Self {
        match self.producer.wake_op() {
            Some(WakeOp::TakeCell(cell)) => System {
                producer: self.producer.with_wake_op(WakeOp::Done),
                waking: match self.content(cell) {
                    Some(co) => Some(Waiter::Coroutine(co)),
                    None => None,
                },
                ..self.emptied(cell)
            },
            _ => self,
        }
    }

    /// The state with what the consumer sees at its next access to the channel.
    pub open spec fn after_look(self) -> Self {
        System {
            sent_at_look: match self.consumer.try_op() {
                Some(TryOp::FirstPop) if self.chan.messages.len() == 0 => self.sent.len(),
                _ => self.sent_at_look,
            },
            open_at_look: match self.consumer.try_op() {
                Some(TryOp::CheckChannels) => self.chan.channels > 0,
                _ => self.open_at_look,
            },
            ..self
        }
    }

    /// The state after the consumer's next access to the channel.
    pub open spec fn after_consumer_access(self) -> Self {
        match self.consumer {
            Consumer::Trying(op) => match try_step(self.chan, op) {
                (chan, TryStep::Next(op)) => System {
                    chan,
                    consumer: Consumer::Trying(op),
                    ..self
                },
                (chan, TryStep::Done(data)) => System {
                    chan,
                    consumer: Consumer::Tried(data),
                    ..self
                },
            },
            Consumer::Receiving(op) => {
                let (chan, next) = recv_step(self.chan, op);
                System { chan, consumer: Consumer::Receiving(next), ..self }
            },
            Consumer::Timed(op) => {
                let (chan, next) = timed_step(self.chan, op);
                System { chan, consumer: Consumer::Timed(next), ..self }
            },
            Consumer::Dropping(op) => {
                let (chan, next, message) = drop_port_step(self.chan, op);
                System {
                    chan,
                    consumer: Consumer::Dropping(next),
                    discarded: match message {
                        Some(message) => self.discarded.push(message),
                        None => self.discarded,
                    },
                    ..self
                }
            },
            _ => self,
        }
    }

    /// The state after the consumer goes on after its wait, which ended like
    /// this.
    pub open spec fn after_wait(self, end: WaitEnd) -> Self {
        System {
            consumer: match self.consumer {
                Consumer::Receiving(op) => Consumer::Receiving(recv_resume(op, true)),
                Consumer::Timed(op) => Consumer::Timed(timed_resume(op, end)),
                consumer => consumer,
            },
            ..self
        }
    }

    /// The state after the consumer has seen whether the scheduler is done with
    /// its wait.
    pub open spec fn after_consumer_kernel(self) -> Self {
        System {
            consumer: match self.consumer {
                Consumer::Receiving(op) => Consumer::Receiving(recv_resume(op, self.wait_kernel)),
                Consumer::Timed(op) => Consumer::Timed(timed_kernel(op, self.wait_kernel)),
                consumer => consumer,
            },
            ..self
        }
    }

    /// The state after the scheduler's next access to register a coroutine.
    pub open spec fn after_kernel_access(self) -> Self {
        match self.kernel {
            Some(op) => {
                let (chan, next, run) = park_step(self.chan, op);
                System {
                    chan,
                    kernel: Some(next),
                    runnable: match run {
                        Some(Waiter::Coroutine(co)) => Some(co),
                        _ => self.runnable,
                    },
                    open_at_store: if op is Store {
                        self.chan.channels > 0
                    } else {
                        self.open_at_store
                    },
                    ..self
                }
            },
            None => self,
        }
    }

    /// The state after somebody has emptied `cell` and given what was in it to
    /// the scheduler.
    pub open spec fn after_cell_wake(self, cell: CellId) -> Self {
        System {
            runnable: match self.content(cell) {
                Some(co) => Some(co),
                None => self.runnable,
            },
            ..self.emptied(cell)
        }
    }

    /// The state after the coroutine has been canceled, and what was in `cell`
    /// has been given to the scheduler.
    pub open spec fn after_cancel(self, cell: CellId) -> Self {
        System { canceled: true, ..self.after_cell_wake(cell) }
    }

    /// The state after the next step to register a cell.
    pub open spec fn after_subscribe(self, canceled: bool) -> Self {
        match self.subscribing {
            Some((cell, op)) => if op.on_channel() {
                let (chan, next) = subscribe_step(self.chan, op);
                System { chan, subscribing: Some((cell, next)), ..self }
            } else {
                let s = System { subscribing: Some((cell, subscribe_next(op, canceled))), ..self };
                match op {
                    SubscribeOp::AddTimer(timeout, cell) => System {
                        timers: s.timers.insert(cell, s.now + timeout.total()),
                        ..s
                    },
                    SubscribeOp::Cancel(cell) => s.after_cancel(cell),
                    SubscribeOp::Run(cell) => s.after_cell_wake(cell),
                    SubscribeOp::Release => System { subscribing: None, wait_kernel: false, ..s },
                    _ => s,
                }
            },
            None => self,
        }
    }

    /// The state after `step`.
    pub open spec fn after(self, step: Step<T>) -> Self {
        match step {
            Step::StartSend(t) => System {
                producer: Producer::Sending(SendOp::Check(t)),
                ..self
            },
            Step::StartDropChan => System {
                producer: Producer::Dropping(DropChanOp::Close),
                ..self
            },
            Step::ProducerAccess => self.after_producer_access(),
            Step::ProducerWake => self.after_producer_wake(),
            Step::ProducerCell => self.after_producer_cell(),
            Step::ProducerEnd => System {
                producer: if self.producer is Dropping {
                    Producer::Gone
                } else {
                    Producer::Idle
                },
                ..self
            },
            Step::StartTry => System { consumer: Consumer::Trying(TryOp::FirstPop), ..self },
            Step::StartRecv(context) => System {
                consumer: Consumer::Receiving(RecvOp::FirstTry(context, TryOp::FirstPop)),
                context,
                ..self
            },
            Step::StartTimed(context, timeout) => System {
                consumer: Consumer::Timed(TimedOp::QuickTry(context, timeout, TryOp::FirstPop)),
                deadline: self.now + timeout.total(),
                context,
                limit: timeout,
                ..self
            },
            Step::StartDropPort => System {
                consumer: Consumer::Dropping(DropPortOp::Close),
                ..self
            },
            Step::ConsumerAccess => self.after_look().after_consumer_access(),
            Step::Unparked(left) => System {
                tokens: match self.consumer.parked() {
                    Some(thread) => self.tokens.remove(thread),
                    None => self.tokens,
                },
                limit: left,
                ..self.after_wait(WaitEnd::Woken(left))
            },
            Step::Suspend(co) => System {
                suspended: Some(co),
                kernel: Some(ParkOp::Store(co)),
                wait_kernel: true,
                ..self
            },
            Step::SuspendTimed(co, cell) => System {
                suspended: Some(co),
                held: Some((cell, co)),
                subscribing: match self.consumer {
                    Consumer::Timed(TimedOp::Co(TimedCoOp::Yielded(timeout))) =>
                        Some((cell, SubscribeOp::AddTimer(timeout, cell))),
                    _ => self.subscribing,
                },
                wait_kernel: true,
                timed_out: false,
                canceled: false,
                ..self
            },
            Step::Resume(left) => System {
                suspended: None,
                runnable: None,
                limit: left,
                ..self.after_wait(self.wait_end(left))
            },
            Step::ConsumerKernel => self.after_consumer_kernel(),
            Step::ConsumerEnd => System {
                received: self.received + self.consumer.in_hand(),
                consumer: if self.consumer is Dropping {
                    Consumer::Gone
                } else {
                    Consumer::Idle
                },
                ..self
            },
            Step::KernelAccess => self.after_kernel_access(),
            Step::KernelRelease => System { kernel: None, wait_kernel: false, ..self },
            Step::Subscribe(canceled) => self.after_subscribe(canceled),
            Step::TimerFires(cell) => System {
                timers: self.timers.remove(cell),
                timed_out: self.timed_out || self.content(cell) is Some,
                ..self.after_cell_wake(cell)
            },
            Step::Cancel(cell) => self.after_cancel(cell),
            Step::Tick(nanos) => System { now: self.now + nanos, ..self },
        }
    }
}

/// The state after these steps from the initial one.
pub open spec fn reached<T>(steps: Seq<Step<T>>) -> System<T>
    decreases steps.len(),
{
    if steps.len() == 0 {
        initial()
    } else {
        reached(steps.drop_last()).after(steps.last())
    }
}

/// Whether each of these steps can be taken in its turn.
pub open spec fn can_happen<T>(steps: Seq<Step<T>>) -> bool
    decreases steps.len(),
{
    steps.len() > 0 ==> {
        &&& can_happen(steps.drop_last())
        &&& reached(steps.drop_last()).enables(steps.last())
    }
}

} // verus!
