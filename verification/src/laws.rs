//! What holds of a channel however its users' accesses fall in time.
use vstd::prelude::*;

use crate::blocker::{CoroutineImpl, Thread, Waiter};
use crate::error::{ClosedError, RecvError, TryRecvError};
use crate::inner::{new_channel, CellId, ChannelView};
use crate::park::ParkOp;
use crate::recv::{
    after_try_recv, is_open_and_empty, recv_result, try_recv_result, Context, RecvOp, TryOp,
};
use crate::send::{after_drop_chan, after_send, DropChanOp, SendOp, WakeOp};
use crate::system::{can_happen, initial, reached, Consumer, Producer, Step, System};
use crate::timeout::{
    decisive, last_try_result, SubscribeOp, TimedCoOp, TimedOp, TimedThreadOp, Timeout,
    WaitEnd,
};

verus! {

/// Every message that was sent is in one place, and their order is kept.
spec fn messages_kept<T>(s: System<T>) -> bool {
    &&& s.sent == s.received + s.consumer.in_hand() + s.discarded + s.chan.messages
    &&& !(s.consumer is Dropping || s.consumer is Gone) ==> s.discarded.len() == 0
}

/// The channel knows whether its two halves are still there.
spec fn halves_known<T>(s: System<T>) -> bool {
    &&& s.chan.channels == if s.producer is Gone || s.producer matches Producer::Dropping(
        DropChanOp::Wake(_),
    ) {
        0usize
    } else {
        1usize
    }
    &&& s.chan.port_dropped == s.consumer.has_closed()
    &&& s.producer matches Producer::Sending(SendOp::Refused(_)) ==> s.chan.port_dropped
}

/// Whether the consumer has found the sender gone and nothing left to receive.
pub open spec fn found_closed<T>(consumer: Consumer<T>) -> bool {
    match consumer {
        Consumer::Receiving(RecvOp::Unregister(Err(TryRecvError::Disconnected))) => true,
        Consumer::Receiving(RecvOp::Done(Err(TryRecvError::Disconnected))) => true,
        Consumer::Timed(TimedOp::Thread(TimedThreadOp::Unregister(Err(RecvError::Disconnected)))) =>
            true,
        Consumer::Timed(TimedOp::Thread(TimedThreadOp::Done(Err(RecvError::Disconnected)))) => true,
        Consumer::Timed(TimedOp::Done(Err(RecvError::Disconnected))) => true,
        Consumer::Timed(TimedOp::Co(TimedCoOp::Done(Err(RecvError::Disconnected)))) => true,
        Consumer::Tried(Err(TryRecvError::Disconnected)) => true,
        _ => false,
    }
}

/// The consumer finds the sender gone only when it is, and nothing is left.
spec fn closed_for_good<T>(s: System<T>) -> bool {
    &&& s.consumer.try_op() == Some(TryOp::LastPop) ==> s.chan.channels == 0
    &&& found_closed(s.consumer) ==> s.chan.channels == 0 && s.chan.messages.len() == 0
}

spec fn count(b: bool) -> int {
    if b {
        1
    } else {
        0
    }
}

/// A suspended coroutine is in one place, and only a suspended one is in any.
spec fn coroutine_kept<T>(s: System<T>) -> bool {
    &&& s.chan.waiter matches Some(Waiter::Coroutine(co)) ==> s.suspended == Some(co)
    &&& s.waking matches Some(Waiter::Coroutine(co)) ==> s.suspended == Some(co)
    &&& s.runnable matches Some(co) ==> s.suspended == Some(co)
    &&& s.held matches Some((_, co)) ==> s.suspended == Some(co)
    &&& s.kernel matches Some(ParkOp::Store(co)) ==> s.suspended == Some(co)
    &&& count(s.chan.coroutine_waits()) + count(s.waking matches Some(Waiter::Coroutine(_))) + count(s.runnable is Some) + count(s.held is Some) + count(
        s.kernel matches Some(ParkOp::Store(_)),
    ) == count(s.suspended is Some)
}

/// Which parts of the state go together.
spec fn phases_fit<T>(s: System<T>) -> bool {
    let yielded = s.consumer == Consumer::<T>::Receiving(RecvOp::Yielded);
    &&& s.suspended is Some ==> yielded || s.consumer.is_timed_yield()
    &&& s.held is Some ==> s.consumer.is_timed_yield()
    &&& s.chan.coroutine_waits() ==> yielded
    &&& s.waking is Some ==> s.producer.wake_op() is Some && s.producer.wake_op() != Some(
        WakeOp::TakeWaiter,
    )
    &&& s.wait_kernel == (s.kernel is Some || s.subscribing is Some)
    &&& s.kernel matches Some(op) ==> {
        &&& s.subscribing is None
        &&& op != ParkOp::Done
        &&& (yielded && s.suspended is Some) || s.consumer == Consumer::<T>::Receiving(
            RecvOp::AwaitKernel,
        )
        &&& op is Store ==> yielded
        &&& !(op is Store) ==> !(s.chan.waiter matches Some(Waiter::Thread(_)))
    }
}

/// A thread that counts on being woken is woken when there is a cause.
spec fn thread_safe<T>(s: System<T>) -> bool {
    s.consumer.registered() matches Some(thread) ==> {
        let waiter = Some(Waiter::Thread(thread));
        &&& s.chan.waiter == waiter || s.waking == waiter || s.tokens.contains(thread)
        &&& s.chan.waiter == waiter && s.consumer.try_op() != Some(TryOp::FirstPop)
            ==> s.chan.messages.len() == 0 || s.producer == Producer::<T>::Sending(
            SendOp::Wake(WakeOp::TakeWaiter),
        )
        &&& s.chan.waiter == waiter && s.consumer.parked() is Some ==> s.chan.channels > 0
            || s.producer == Producer::<T>::Dropping(DropChanOp::Wake(WakeOp::TakeWaiter))
    }
}

/// A coroutine that is registered is woken when there is a cause.
spec fn coroutine_safe<T>(s: System<T>) -> bool {
    s.chan.coroutine_waits() ==> {
        &&& !(s.kernel matches Some(op) && op.on_channel()) ==> s.chan.messages.len() == 0
            || s.producer == Producer::<T>::Sending(SendOp::Wake(WakeOp::TakeWaiter))
        &&& s.open_at_store ==> s.chan.channels > 0 || s.producer == Producer::<T>::Dropping(
            DropChanOp::Wake(WakeOp::TakeWaiter),
        )
    }
}

/// The cell that a registration is about.
spec fn subject(op: SubscribeOp) -> Option<CellId> {
    match op {
        SubscribeOp::AddTimer(_, cell) => Some(cell),
        SubscribeOp::Store(cell) => Some(cell),
        SubscribeOp::SetCancel(cell) => Some(cell),
        SubscribeOp::CheckCancel(cell) => Some(cell),
        SubscribeOp::Cancel(cell) => Some(cell),
        SubscribeOp::Recheck(cell) => Some(cell),
        SubscribeOp::RecheckChannels(cell) => Some(cell),
        SubscribeOp::TakeBack(cell) => Some(cell),
        SubscribeOp::Run(cell) => Some(cell),
        _ => None,
    }
}

/// A cell is registered for the wait that is under way, and for no other.
spec fn registrations_fit<T>(s: System<T>) -> bool {
    let suspended = s.consumer.is_timed_yield() && s.suspended is Some;
    let awaiting = s.consumer matches Consumer::Timed(TimedOp::Co(TimedCoOp::AwaitKernel(_)));
    let clearing = s.consumer matches Consumer::Timed(TimedOp::Co(TimedCoOp::Clear(_)));
    &&& s.chan.timed is Some ==> suspended || awaiting || clearing
    &&& s.subscribing matches Some((cell, op)) ==> {
        &&& suspended || awaiting
        &&& !(op is Done)
        &&& subject(op) matches Some(other) ==> other == cell
        &&& s.chan.timed matches Some(other) ==> other == cell
        &&& op is AddTimer || op is Store ==> s.chan.timed is None
    }
}

/// A coroutine in a cell has a timer, and is woken when there is a cause.
spec fn timed_safe<T>(s: System<T>) -> bool {
    let looked = s.subscribing matches Some((_, op)) ==> op is RecheckChannels || op is Release;
    let looked_twice = s.subscribing matches Some((_, op)) ==> op is Release;
    s.held matches Some((cell, _)) ==> {
        &&& s.subscribing matches Some((other, _)) ==> other == cell
        &&& s.timers.dom().contains(cell) || (s.subscribing matches Some((_, op))
            && op is AddTimer)
        &&& {
            ||| s.chan.timed == Some(cell)
            ||| s.producer.wake_op() == Some(WakeOp::TakeCell(cell))
            ||| s.subscribing matches Some((_, op)) && (op is AddTimer || op is Store || op is Run)
        }
        &&& s.chan.timed is Some && looked ==> {
            ||| s.chan.messages.len() == 0
            ||| s.producer == Producer::<T>::Sending(SendOp::Wake(WakeOp::TakeWaiter))
            ||| s.producer == Producer::<T>::Sending(SendOp::Wake(WakeOp::TakeTimed))
        }
        &&& s.chan.timed is Some && looked_twice ==> {
            ||| s.chan.channels > 0
            ||| s.producer == Producer::<T>::Dropping(DropChanOp::Wake(WakeOp::TakeWaiter))
            ||| s.producer == Producer::<T>::Dropping(DropChanOp::Wake(WakeOp::TakeTimed))
        }
    }
}

/// No receive gives up before its time is over.
spec fn time_kept<T>(s: System<T>) -> bool {
    &&& s.consumer matches Consumer::Timed(op) ==> {
        &&& op.time_left() matches Some(left) ==> s.now + left.total() >= s.deadline
        &&& op.time_is_over() ==> s.now >= s.deadline
        &&& op.ends_canceled() ==> s.canceled
    }
    &&& s.consumer.is_timed_yield() && s.suspended is Some && s.timed_out ==> s.now >= s.deadline
    &&& s.held matches Some((cell, _)) ==> {
        s.timers.dom().contains(cell) ==> s.timers[cell] >= s.deadline
    }
    &&& s.subscribing matches Some((_, SubscribeOp::AddTimer(timeout, _))) ==> s.now
        + timeout.total() >= s.deadline
}

/// A receive gives up only when it has found nothing to receive and a sender.
spec fn looks_kept<T>(s: System<T>) -> bool {
    &&& s.consumer.try_op() == Some(TryOp::CheckChannels) ==> s.sent_at_look == s.received.len()
    &&& s.consumer matches Consumer::Timed(op) ==> {
        op.gives_up() ==> s.sent_at_look == s.received.len() && s.open_at_look
    }
}

/// A receive waits where it runs, and for the time that it was told.
spec fn as_asked<T>(s: System<T>) -> bool {
    &&& match s.consumer {
        Consumer::Receiving(RecvOp::FirstTry(context, _)) => context == s.context,
        Consumer::Receiving(RecvOp::Register(thread)) => s.context == Context::Thread(thread),
        Consumer::Receiving(RecvOp::SecondTry(thread, _)) => s.context == Context::Thread(thread),
        Consumer::Receiving(RecvOp::Parked(thread)) => s.context == Context::Thread(thread),
        Consumer::Receiving(RecvOp::Yielded) => s.context is Coroutine,
        Consumer::Timed(TimedOp::QuickTry(context, timeout, _)) => context == s.context && timeout
            == s.limit,
        Consumer::Timed(TimedOp::Co(op)) => s.context is Coroutine && match op {
            TimedCoOp::FirstTry(timeout, _) => timeout == s.limit,
            TimedCoOp::Yielded(timeout) => timeout == s.limit,
            TimedCoOp::AwaitKernel(WaitEnd::Woken(left)) => left == s.limit,
            TimedCoOp::Clear(WaitEnd::Woken(left)) => left == s.limit,
            TimedCoOp::LastTry(WaitEnd::Woken(left), _) => left == s.limit,
            _ => true,
        },
        Consumer::Timed(TimedOp::Thread(op)) => match op {
            TimedThreadOp::Register(thread, timeout) => s.context == Context::Thread(thread)
                && timeout == s.limit,
            TimedThreadOp::SecondTry(thread, timeout, _) => s.context == Context::Thread(thread)
                && timeout == s.limit,
            TimedThreadOp::Parked(thread, timeout) => s.context == Context::Thread(thread)
                && timeout == s.limit,
            _ => s.context is Thread,
        },
        _ => true,
    }
    &&& s.suspended is Some ==> {
        s.subscribing matches Some((_, SubscribeOp::AddTimer(timeout, _))) ==> timeout == s.limit
    }
    &&& s.held matches Some((cell, _)) ==> {
        s.timers.dom().contains(cell) ==> s.timers[cell] <= s.now + s.limit.total()
    }
}

spec fn inv<T>(s: System<T>) -> bool {
    &&& messages_kept(s)
    &&& halves_known(s)
    &&& closed_for_good(s)
    &&& coroutine_kept(s)
    &&& phases_fit(s)
    &&& thread_safe(s)
    &&& coroutine_safe(s)
    &&& registrations_fit(s)
    &&& timed_safe(s)
    &&& time_kept(s)
    &&& looks_kept(s)
    &&& as_asked(s)
}

proof fn lemma_initial<T>()
    ensures
        inv(initial::<T>()),
{
    assert(initial::<T>().sent =~= initial::<T>().received + initial::<T>().consumer.in_hand()
        + initial::<T>().discarded + initial::<T>().chan.messages);
}

proof fn lemma_start_send<T>(s: System<T>, t: T)
    requires
        inv(s),
        s.enables(Step::StartSend(t)),
    ensures
        inv(s.after(Step::StartSend(t))),
{
}

proof fn lemma_start_drop_chan<T>(s: System<T>)
    requires
        inv(s),
        s.enables(Step::StartDropChan),
    ensures
        inv(s.after(Step::StartDropChan)),
{
}

proof fn lemma_producer_access<T>(s: System<T>)
    requires
        inv(s),
        s.enables(Step::ProducerAccess),
    ensures
        inv(s.after(Step::ProducerAccess)),
{
    let after = s.after(Step::ProducerAccess);
    assert(messages_kept(after)) by {
        assert(after.sent =~= after.received + after.consumer.in_hand() + after.discarded
            + after.chan.messages);
    }
}

proof fn lemma_producer_wake<T>(s: System<T>)
    requires
        inv(s),
        s.enables(Step::ProducerWake),
    ensures
        inv(s.after(Step::ProducerWake)),
{
}

proof fn lemma_producer_cell<T>(s: System<T>)
    requires
        inv(s),
        s.enables(Step::ProducerCell),
    ensures
        inv(s.after(Step::ProducerCell)),
{
}

proof fn lemma_producer_end<T>(s: System<T>)
    requires
        inv(s),
        s.enables(Step::ProducerEnd),
    ensures
        inv(s.after(Step::ProducerEnd)),
{
}

proof fn lemma_start_try<T>(s: System<T>)
    requires
        inv(s),
        s.enables(Step::StartTry),
    ensures
        inv(s.after(Step::StartTry)),
{
}

proof fn lemma_start_recv<T>(s: System<T>, context: Context)
    requires
        inv(s),
        s.enables(Step::StartRecv(context)),
    ensures
        inv(s.after(Step::StartRecv(context))),
{
}

proof fn lemma_start_timed<T>(s: System<T>, context: Context, timeout: Timeout)
    requires
        inv(s),
        s.enables(Step::StartTimed(context, timeout)),
    ensures
        inv(s.after(Step::StartTimed(context, timeout))),
{
}

proof fn lemma_start_drop_port<T>(s: System<T>)
    requires
        inv(s),
        s.enables(Step::StartDropPort),
    ensures
        inv(s.after(Step::StartDropPort)),
{
}

proof fn lemma_try_access<T>(s: System<T>)
    requires
        inv(s),
        s.enables(Step::ConsumerAccess),
        s.consumer is Trying,
    ensures
        inv(s.after(Step::ConsumerAccess)),
{
    let after = s.after(Step::ConsumerAccess);
    assert(messages_kept(after)) by {
        assert(after.sent =~= after.received + after.consumer.in_hand() + after.discarded
            + after.chan.messages);
    }
}

proof fn lemma_recv_access<T>(s: System<T>)
    requires
        inv(s),
        s.enables(Step::ConsumerAccess),
        s.consumer is Receiving,
    ensures
        inv(s.after(Step::ConsumerAccess)),
{
    let after = s.after(Step::ConsumerAccess);
    assert(messages_kept(after)) by {
        assert(after.sent =~= after.received + after.consumer.in_hand() + after.discarded
            + after.chan.messages);
    }
}

proof fn lemma_timed_access<T>(s: System<T>)
    requires
        inv(s),
        s.enables(Step::ConsumerAccess),
        s.consumer is Timed,
    ensures
        inv(s.after(Step::ConsumerAccess)),
{
    let after = s.after(Step::ConsumerAccess);
    assert(messages_kept(after)) by {
        assert(after.sent =~= after.received + after.consumer.in_hand() + after.discarded
            + after.chan.messages);
    }
}

proof fn lemma_drop_port_access<T>(s: System<T>)
    requires
        inv(s),
        s.enables(Step::ConsumerAccess),
        s.consumer is Dropping,
    ensures
        inv(s.after(Step::ConsumerAccess)),
{
    let after = s.after(Step::ConsumerAccess);
    assert(messages_kept(after)) by {
        assert(after.sent =~= after.received + after.consumer.in_hand() + after.discarded
            + after.chan.messages);
    }
}

proof fn lemma_unparked<T>(s: System<T>, left: Timeout)
    requires
        inv(s),
        s.enables(Step::Unparked(left)),
    ensures
        inv(s.after(Step::Unparked(left))),
{
}

proof fn lemma_suspend<T>(s: System<T>, co: CoroutineImpl)
    requires
        inv(s),
        s.enables(Step::Suspend(co)),
    ensures
        inv(s.after(Step::Suspend(co))),
{
}

proof fn lemma_suspend_timed<T>(s: System<T>, co: CoroutineImpl, cell: CellId)
    requires
        inv(s),
        s.enables(Step::SuspendTimed(co, cell)),
    ensures
        inv(s.after(Step::SuspendTimed(co, cell))),
{
}

proof fn lemma_resume<T>(s: System<T>, left: Timeout)
    requires
        inv(s),
        s.enables(Step::Resume(left)),
    ensures
        inv(s.after(Step::Resume(left))),
{
}

proof fn lemma_consumer_kernel<T>(s: System<T>)
    requires
        inv(s),
        s.enables(Step::ConsumerKernel),
    ensures
        inv(s.after(Step::ConsumerKernel)),
{
}

proof fn lemma_consumer_end<T>(s: System<T>)
    requires
        inv(s),
        s.enables(Step::ConsumerEnd),
    ensures
        inv(s.after(Step::ConsumerEnd)),
{
    let after = s.after(Step::ConsumerEnd);
    assert(messages_kept(after)) by {
        assert(after.sent =~= after.received + after.consumer.in_hand() + after.discarded
            + after.chan.messages);
    }
}

proof fn lemma_kernel_access<T>(s: System<T>)
    requires
        inv(s),
        s.enables(Step::KernelAccess),
    ensures
        inv(s.after(Step::KernelAccess)),
{
}

proof fn lemma_kernel_release<T>(s: System<T>)
    requires
        inv(s),
        s.enables(Step::KernelRelease),
    ensures
        inv(s.after(Step::KernelRelease)),
{
}

proof fn lemma_subscribe<T>(s: System<T>, canceled: bool)
    requires
        inv(s),
        s.enables(Step::Subscribe(canceled)),
    ensures
        inv(s.after(Step::Subscribe(canceled))),
{
}

proof fn lemma_timer_fires<T>(s: System<T>, cell: CellId)
    requires
        inv(s),
        s.enables(Step::TimerFires(cell)),
    ensures
        inv(s.after(Step::TimerFires(cell))),
{
}

proof fn lemma_cancel<T>(s: System<T>, cell: CellId)
    requires
        inv(s),
        s.enables(Step::Cancel(cell)),
    ensures
        inv(s.after(Step::Cancel(cell))),
{
}

proof fn lemma_tick<T>(s: System<T>, nanos: nat)
    requires
        inv(s),
        s.enables(Step::Tick(nanos)),
    ensures
        inv(s.after(Step::Tick(nanos))),
{
}

proof fn lemma_step<T>(s: System<T>, step: Step<T>)
    requires
        inv(s),
        s.enables(step),
    ensures
        inv(s.after(step)),
{
    match step {
        Step::StartSend(t) => lemma_start_send(s, t),
        Step::StartDropChan => lemma_start_drop_chan(s),
        Step::ProducerAccess => lemma_producer_access(s),
        Step::ProducerWake => lemma_producer_wake(s),
        Step::ProducerCell => lemma_producer_cell(s),
        Step::ProducerEnd => lemma_producer_end(s),
        Step::StartTry => lemma_start_try(s),
        Step::StartRecv(context) => lemma_start_recv(s, context),
        Step::StartTimed(context, timeout) => lemma_start_timed(s, context, timeout),
        Step::StartDropPort => lemma_start_drop_port(s),
        Step::ConsumerAccess => {
            if s.consumer is Trying {
                lemma_try_access(s);
            } else if s.consumer is Receiving {
                lemma_recv_access(s);
            } else if s.consumer is Timed {
                lemma_timed_access(s);
            } else {
                lemma_drop_port_access(s);
            }
        },
        Step::Unparked(left) => lemma_unparked(s, left),
        Step::Suspend(co) => lemma_suspend(s, co),
        Step::SuspendTimed(co, cell) => lemma_suspend_timed(s, co, cell),
        Step::Resume(left) => lemma_resume(s, left),
        Step::ConsumerKernel => lemma_consumer_kernel(s),
        Step::ConsumerEnd => lemma_consumer_end(s),
        Step::KernelAccess => lemma_kernel_access(s),
        Step::KernelRelease => lemma_kernel_release(s),
        Step::Subscribe(canceled) => lemma_subscribe(s, canceled),
        Step::TimerFires(cell) => lemma_timer_fires(s, cell),
        Step::Cancel(cell) => lemma_cancel(s, cell),
        Step::Tick(nanos) => lemma_tick(s, nanos),
    }
}

proof fn lemma_reached<T>(steps: Seq<Step<T>>)
    requires
        can_happen(steps),
    ensures
        inv(reached(steps)),
    decreases steps.len(),
{
    if steps.len() == 0 {
        lemma_initial::<T>();
    } else {
        lemma_reached(steps.drop_last());
        lemma_step(reached(steps.drop_last()), steps.last());
    }
}

/// The consumer is given the messages in the order in which they were sent, each
/// once. What was sent and not yet received waits in the channel, apart from one
/// message that the consumer may have in hand, which is the next in that order,
/// and from what was thrown away with the receiving half; while that half is
/// there nothing is thrown away.
pub proof fn law_messages_in_order<T>(steps: Seq<Step<T>>)
    requires
        can_happen(steps),
    ensures
        ({
            let s = reached(steps);
            &&& s.sent == s.received + s.consumer.in_hand() + s.discarded + s.chan.messages
            &&& s.received.is_prefix_of(s.sent)
            &&& s.consumer.in_hand().len() > 0 ==> s.consumer.in_hand()[0]
                == s.sent[s.received.len() as int]
            &&& !(s.consumer is Dropping || s.consumer is Gone) ==> s.discarded.len() == 0
        }),
{
    lemma_reached(steps);
    let s = reached(steps);
    assert(s.sent.subrange(0, s.received.len() as int) =~= s.received);
}

/// A message is refused only when the receiver is gone.
pub proof fn law_refused_only_without_receiver<T>(steps: Seq<Step<T>>, t: T)
    requires
        can_happen(steps),
        reached(steps).producer == Producer::Sending(SendOp::Refused(t)),
    ensures
        reached(steps).consumer is Dropping || reached(steps).consumer is Gone,
{
    lemma_reached(steps);
}

/// Once the receiver is gone, or has begun to go, every message is refused: it
/// comes back to the producer, and the channel is left as it was.
pub proof fn law_refused_without_receiver<T>(steps: Seq<Step<T>>, t: T)
    requires
        can_happen(steps),
        reached(steps).consumer.has_closed(),
        reached(steps).producer == Producer::Sending(SendOp::Check(t)),
    ensures
        ({
            let s = reached(steps);
            let after = s.after(Step::ProducerAccess);
            &&& s.enables(Step::ProducerAccess)
            &&& after.producer == Producer::Sending(SendOp::Refused(t))
            &&& after.chan == s.chan
            &&& after.sent == s.sent
        }),
{
    lemma_reached(steps);
}

/// The consumer finds the sender gone only when the producer gives up its half or
/// has done so, and every message that was sent has been received.
pub proof fn law_closed_means_all_received<T>(steps: Seq<Step<T>>)
    requires
        can_happen(steps),
        found_closed(reached(steps).consumer),
    ensures
        reached(steps).producer is Dropping || reached(steps).producer is Gone,
        reached(steps).received == reached(steps).sent,
{
    lemma_reached(steps);
    let s = reached(steps);
    assert(s.received =~= s.sent);
}

/// Once the consumer has found the sender gone, nothing is sent any more and
/// nothing is left to receive, whatever happens next.
pub proof fn law_closed_is_final<T>(steps: Seq<Step<T>>, more: Seq<Step<T>>)
    requires
        can_happen(steps + more),
        can_happen(steps),
        found_closed(reached(steps).consumer),
    ensures
        reached(steps + more).sent == reached(steps).sent,
        reached(steps + more).chan.channels == 0,
        reached(steps + more).chan.messages.len() == 0,
    decreases more.len(),
{
    if more.len() == 0 {
        assert(steps + more =~= steps);
        lemma_reached(steps);
    } else {
        assert((steps + more).drop_last() =~= steps + more.drop_last());
        law_closed_is_final(steps, more.drop_last());
        lemma_reached(steps + more.drop_last());
        lemma_reached(steps + more);
    }
}

/// A thread that is parked and has not been unparked has no cause to go on,
/// unless the producer is about to unpark it: nothing waits to be received, and
/// there is still a sender.
pub proof fn law_thread_never_sleeps_through<T>(steps: Seq<Step<T>>, thread: Thread)
    requires
        can_happen(steps),
        reached(steps).consumer.parked() == Some(thread),
        !reached(steps).tokens.contains(thread),
    ensures
        ({
            let s = reached(steps);
            ||| is_open_and_empty(s.chan)
            ||| s.waking == Some(Waiter::Thread(thread))
            ||| s.chan.waiter == Some(Waiter::Thread(thread)) && s.producer.wake_op() == Some(
                WakeOp::TakeWaiter,
            )
        }),
{
    lemma_reached(steps);
}

/// A coroutine that has yielded in a receive and is not to run has no cause to go
/// on, unless the producer is about to wake it or the scheduler is not done with
/// its registration: nothing waits to be received, and if there was a sender when
/// it was registered there still is one.
pub proof fn law_coroutine_never_sleeps_through<T>(steps: Seq<Step<T>>, co: CoroutineImpl)
    requires
        can_happen(steps),
        reached(steps).consumer == Consumer::<T>::Receiving(RecvOp::Yielded),
        reached(steps).suspended == Some(co),
        reached(steps).runnable is None,
    ensures
        ({
            let s = reached(steps);
            ||| s.chan.messages.len() == 0 && (s.open_at_store ==> s.chan.channels > 0)
            ||| s.waking == Some(Waiter::Coroutine(co))
            ||| s.chan.waiter == Some(Waiter::Coroutine(co)) && s.producer.wake_op() == Some(
                WakeOp::TakeWaiter,
            )
            ||| s.kernel matches Some(op) && op.on_channel()
        }),
{
    lemma_reached(steps);
}

/// A suspended coroutine is in one place, from which it can be woken once: it is
/// registered, or about to be, or in a cell, or with the producer that wakes it,
/// or with the scheduler that runs it. A coroutine that runs is in none of them,
/// so nobody runs it twice.
pub proof fn law_coroutine_in_one_place<T>(steps: Seq<Step<T>>)
    requires
        can_happen(steps),
    ensures
        ({
            let s = reached(steps);
            &&& forall|i: int| #[trigger]
                s.coroutine_at(i) ==> s.suspended is Some && s.places()[i] == Some(
                    Waiter::Coroutine(s.suspended->0),
                )
            &&& forall|i: int, j: int| #[trigger]
                s.coroutine_at(i) && #[trigger] s.coroutine_at(j) ==> i == j
            &&& s.suspended is Some ==> exists|i: int| s.coroutine_at(i)
        }),
{
    lemma_reached(steps);
    let s = reached(steps);
    assert(s.coroutine_at(0) == s.chan.coroutine_waits());
    assert(s.coroutine_at(1) == (s.waking matches Some(Waiter::Coroutine(_))));
    assert(s.coroutine_at(2) == (s.runnable is Some));
    assert(s.coroutine_at(3) == (s.held is Some));
    assert(s.coroutine_at(4) == (s.kernel matches Some(ParkOp::Store(_))));
}

/// No access finds the channel in a state that it cannot be made in: the consumer
/// never forgets a registered coroutine, and the scheduler registers one only
/// where none is registered and takes back nothing but a coroutine.
pub proof fn law_no_coroutine_forgotten<T>(steps: Seq<Step<T>>)
    requires
        can_happen(steps),
    ensures
        reached(steps).consumer.forgets_waiter() ==> !reached(steps).chan.coroutine_waits(),
        reached(steps).kernel matches Some(op) ==> op.fits(reached(steps).chan),
{
    lemma_reached(steps);
}

/// While the scheduler uses the wait of a coroutine, the coroutine does not leave
/// that wait. It is kept from leaving only as long as the scheduler does so.
pub proof fn law_wait_outlasts_scheduler<T>(steps: Seq<Step<T>>)
    requires
        can_happen(steps),
    ensures
        ({
            let s = reached(steps);
            &&& s.kernel is Some ==> {
                &&& s.wait_kernel
                &&& s.consumer == Consumer::<T>::Receiving(RecvOp::Yielded) || s.consumer
                    == Consumer::<T>::Receiving(RecvOp::AwaitKernel)
            }
            &&& s.subscribing is Some ==> {
                &&& s.wait_kernel
                &&& s.consumer.is_timed_yield() || (s.consumer is Timed
                    && s.consumer.awaits_kernel())
            }
            &&& s.wait_kernel ==> s.kernel is Some || s.subscribing is Some
        }),
{
    lemma_reached(steps);
}

/// A registration displaces no other: when a cell is registered for a wait of
/// limited time, none is registered.
pub proof fn law_registration_displaces_none<T>(steps: Seq<Step<T>>, cell: CellId)
    requires
        can_happen(steps),
        reached(steps).subscribing == Some((cell, SubscribeOp::Store(cell))),
    ensures
        reached(steps).chan.timed is None,
{
    lemma_reached(steps);
}

/// A coroutine that waits for a limited time has a timer, or the scheduler is
/// about to set it: no such wait lasts for ever.
pub proof fn law_timed_wait_has_timer<T>(steps: Seq<Step<T>>, cell: CellId, co: CoroutineImpl)
    requires
        can_happen(steps),
        reached(steps).held == Some((cell, co)),
    ensures
        reached(steps).timers.dom().contains(cell) || (reached(steps).subscribing matches Some(
            (_, SubscribeOp::AddTimer(_, c)),
        ) && c == cell),
{
    lemma_reached(steps);
}

/// A coroutine that waits for a limited time has no cause to go on, unless the
/// producer is about to take it out of its cell or the scheduler is not done with
/// its registration: nothing waits to be received, and there is a sender.
pub proof fn law_timed_coroutine_never_sleeps_through<T>(
    steps: Seq<Step<T>>,
    cell: CellId,
    co: CoroutineImpl,
)
    requires
        can_happen(steps),
        reached(steps).held == Some((cell, co)),
    ensures
        ({
            let s = reached(steps);
            ||| is_open_and_empty(s.chan)
            ||| s.chan.timed == Some(cell) && s.producer.wake_op() == Some(WakeOp::TakeWaiter)
            ||| s.chan.timed == Some(cell) && s.producer.wake_op() == Some(WakeOp::TakeTimed)
            ||| s.producer.wake_op() == Some(WakeOp::TakeCell(cell))
            ||| s.subscribing matches Some((_, op)) && !(op is Release)
        }),
{
    lemma_reached(steps);
}

/// A coroutine that is suspended in a wait of limited time and has a cause to go
/// on is with the scheduler, to be run, once the producer and the registration
/// are done: it does not wait for its timer.
pub proof fn law_timed_coroutine_with_cause_is_run<T>(steps: Seq<Step<T>>, co: CoroutineImpl)
    requires
        can_happen(steps),
        reached(steps).consumer.is_timed_yield(),
        reached(steps).suspended == Some(co),
        !is_open_and_empty(reached(steps).chan),
        reached(steps).subscribing is None,
        reached(steps).producer is Idle || reached(steps).producer is Gone,
        reached(steps).waking is None,
    ensures
        reached(steps).runnable == Some(co),
{
    lemma_reached(steps);
}

/// A timer that outlives its wait wakes nobody: it finds its cell empty, and
/// then changes nothing but that it is gone.
pub proof fn law_stale_timer_is_harmless<T>(steps: Seq<Step<T>>, cell: CellId)
    requires
        can_happen(steps),
        reached(steps).timers.dom().contains(cell),
        reached(steps).suspended is None || reached(steps).held is None
            || (reached(steps).held->0).0 != cell,
    ensures
        reached(steps).content(cell) is None,
        reached(steps).after(Step::TimerFires(cell)) == (System {
            timers: reached(steps).timers.remove(cell),
            ..reached(steps)
        }),
{
    lemma_reached(steps);
}

/// Nobody schedules a coroutine on behalf of a wait that is over: while the
/// consumer's coroutine runs, whatever happens but that it yields leaves nothing
/// to run and nobody but a thread to wake.
pub proof fn law_finished_wait_wakes_nobody<T>(steps: Seq<Step<T>>, step: Step<T>)
    requires
        can_happen(steps),
        reached(steps).suspended is None,
        reached(steps).enables(step),
        !(step is Suspend),
        !(step is SuspendTimed),
    ensures
        reached(steps).after(step).runnable is None,
        !(reached(steps).after(step).waking matches Some(Waiter::Coroutine(_))),
{
    lemma_reached(steps);
    lemma_step(reached(steps), step);
}

/// A thread that receives with a wait of limited time parks for the time that the
/// receive was started with, or for the time left that it was last told of; and
/// it is the thread that receives which parks.
pub proof fn law_thread_parks_as_asked<T>(steps: Seq<Step<T>>, thread: Thread, timeout: Timeout)
    requires
        can_happen(steps),
        reached(steps).consumer == Consumer::<T>::Timed(
            TimedOp::Thread(TimedThreadOp::Parked(thread, timeout)),
        ),
    ensures
        timeout == reached(steps).limit,
        reached(steps).context == Context::Thread(thread),
{
    lemma_reached(steps);
}

/// A coroutine that receives with a wait of limited time yields for the time that
/// the receive was started with, or for the time left that it was last told of.
pub proof fn law_coroutine_yields_as_asked<T>(steps: Seq<Step<T>>, timeout: Timeout)
    requires
        can_happen(steps),
        reached(steps).consumer == Consumer::<T>::Timed(TimedOp::Co(TimedCoOp::Yielded(timeout))),
    ensures
        timeout == reached(steps).limit,
        reached(steps).context is Coroutine,
{
    lemma_reached(steps);
}

/// The timer of a coroutine that waits for a limited time is due no later than
/// was asked for, and not before the time of the receive is over.
pub proof fn law_timer_is_due_as_asked<T>(steps: Seq<Step<T>>, cell: CellId, co: CoroutineImpl)
    requires
        can_happen(steps),
        reached(steps).held == Some((cell, co)),
        reached(steps).timers.dom().contains(cell),
    ensures
        reached(steps).timers[cell] <= reached(steps).now + reached(steps).limit.total(),
        reached(steps).timers[cell] >= reached(steps).deadline,
{
    lemma_reached(steps);
}

/// A receive without a time limit waits where it runs: a coroutine yields, and
/// the thread that receives is the one that parks.
pub proof fn law_receive_waits_where_it_runs<T>(steps: Seq<Step<T>>, thread: Thread)
    requires
        can_happen(steps),
    ensures
        reached(steps).consumer == Consumer::<T>::Receiving(RecvOp::Parked(thread))
            ==> reached(steps).context == Context::Thread(thread),
        reached(steps).consumer == Consumer::<T>::Receiving(RecvOp::Yielded) ==> reached(
            steps,
        ).context is Coroutine,
{
    lemma_reached(steps);
}

/// A coroutine that is resumed after its timer fired, and was not canceled, is at
/// the end of its time, whatever time it had asked for.
pub proof fn law_fired_timer_is_told<T>(steps: Seq<Step<T>>, timeout: Timeout, left: Timeout)
    requires
        can_happen(steps),
        reached(steps).consumer == Consumer::<T>::Timed(TimedOp::Co(TimedCoOp::Yielded(timeout))),
        reached(steps).timed_out,
        !reached(steps).canceled,
        reached(steps).enables(Step::Resume(left)),
    ensures
        reached(steps).after(Step::Resume(left)).consumer == Consumer::<T>::Timed(
            TimedOp::Co(TimedCoOp::AwaitKernel(WaitEnd::TimedOut)),
        ),
        reached(steps).after(Step::Resume(left)).now >= reached(steps).deadline,
{
    lemma_reached(steps);
}

/// Whether the consumer is at a receive whose time is over, or at its end.
pub open spec fn is_past_its_time<T>(consumer: Consumer<T>) -> bool {
    match consumer {
        Consumer::Timed(TimedOp::Co(TimedCoOp::AwaitKernel(WaitEnd::TimedOut))) => true,
        Consumer::Timed(TimedOp::Co(TimedCoOp::Clear(WaitEnd::TimedOut))) => true,
        Consumer::Timed(TimedOp::Co(TimedCoOp::LastTry(WaitEnd::TimedOut, _))) => true,
        Consumer::Timed(TimedOp::Co(TimedCoOp::Done(_))) => true,
        Consumer::Timed(TimedOp::Thread(TimedThreadOp::LastTry(_))) => true,
        Consumer::Timed(TimedOp::Thread(TimedThreadOp::Unregister(_))) => true,
        Consumer::Timed(TimedOp::Thread(TimedThreadOp::Done(_))) => true,
        _ => false,
    }
}

/// A receive whose time is over makes no further wait: whatever happens next, it
/// stays past its time until it ends.
pub proof fn law_no_wait_past_its_time<T>(steps: Seq<Step<T>>, step: Step<T>)
    requires
        can_happen(steps),
        is_past_its_time(reached(steps).consumer),
        reached(steps).enables(step),
    ensures
        is_past_its_time(reached(steps).after(step).consumer) || (step is ConsumerEnd && reached(
            steps,
        ).after(step).consumer is Idle),
{
    lemma_reached(steps);
}

/// A receive with a wait of limited time reports a timeout only after its time
/// was over, in a thread as in a coroutine.
pub proof fn law_timeout_only_after_deadline<T>(steps: Seq<Step<T>>, op: TimedOp<T>)
    requires
        can_happen(steps),
        reached(steps).consumer == Consumer::Timed(op),
        op.outcome() == Some(Err::<T, _>(RecvError::Timeout)),
    ensures
        reached(steps).now >= reached(steps).deadline,
{
    lemma_reached(steps);
}

/// A receive with a wait of limited time reports a timeout only if it has found
/// nothing to receive and a sender: of the messages that had been sent at its
/// last look none was left, and none is lost.
pub proof fn law_timeout_only_when_open_and_empty<T>(steps: Seq<Step<T>>, op: TimedOp<T>)
    requires
        can_happen(steps),
        reached(steps).consumer == Consumer::Timed(op),
        op.outcome() == Some(Err::<T, _>(RecvError::Timeout)),
    ensures
        ({
            let s = reached(steps);
            &&& s.open_at_look
            &&& s.received == s.sent.take(s.sent_at_look as int)
            &&& s.sent == s.received + s.chan.messages
        }),
{
    lemma_reached(steps);
    let s = reached(steps);
    assert(s.sent =~= s.received + s.chan.messages);
    assert(s.received =~= s.sent.take(s.sent_at_look as int));
}

/// A receive with a wait of limited time ends as canceled only if its coroutine
/// was canceled.
pub proof fn law_canceled_only_by_cancel<T>(steps: Seq<Step<T>>, op: TimedOp<T>)
    requires
        can_happen(steps),
        reached(steps).consumer == Consumer::Timed(op),
        op.is_canceled(),
    ensures
        reached(steps).canceled,
{
    lemma_reached(steps);
}

/// A cancel is propagated: a coroutine that was canceled in a wait of limited
/// time and is resumed receives nothing. It forgets its cell, once the scheduler
/// is done with its wait, and ends as canceled.
pub proof fn law_cancel_is_propagated<T>(steps: Seq<Step<T>>, left: Timeout)
    requires
        can_happen(steps),
        reached(steps).consumer.is_timed_yield(),
        reached(steps).canceled,
        reached(steps).enables(Step::Resume(left)),
    ensures
        ({
            let resumed = reached(steps).after(Step::Resume(left));
            let freed = System { wait_kernel: false, ..resumed }.after(Step::ConsumerKernel);
            let ended = freed.after(Step::ConsumerAccess);
            &&& resumed.enables(Step::ConsumerKernel)
            &&& freed.enables(Step::ConsumerAccess)
            &&& ended.consumer == Consumer::<T>::Timed(TimedOp::Co(TimedCoOp::Canceled))
            &&& ended.chan.messages == resumed.chan.messages
            &&& ended.enables(Step::ConsumerEnd)
            &&& ended.after(Step::ConsumerEnd).received == resumed.received
        }),
{
    let ended = System { wait_kernel: false, ..reached(steps).after(Step::Resume(left)) }.after(
        Step::ConsumerKernel,
    ).after(Step::ConsumerAccess);
    assert(ended.consumer.in_hand() =~= Seq::<T>::empty());
}

/// A message is accepted as long as the receiver has not begun to go: it becomes
/// the last message that was sent.
pub proof fn law_accepted_with_receiver<T>(steps: Seq<Step<T>>, t: T)
    requires
        can_happen(steps),
        !reached(steps).consumer.has_closed(),
        reached(steps).producer == Producer::Sending(SendOp::Check(t)),
    ensures
        ({
            let s = reached(steps);
            let checked = s.after(Step::ProducerAccess);
            let pushed = checked.after(Step::ProducerAccess);
            &&& s.enables(Step::ProducerAccess)
            &&& checked.enables(Step::ProducerAccess)
            &&& pushed.sent == s.sent.push(t)
            &&& pushed.chan.messages == s.chan.messages.push(t)
        }),
{
    lemma_reached(steps);
}

/// As long as nothing was sent and the sender has not begun to go, there is
/// nothing to receive.
pub proof fn law_empty_until_sent<T>(steps: Seq<Step<T>>)
    requires
        can_happen(steps),
        reached(steps).sent.len() == 0,
        !(reached(steps).producer is Dropping),
        !(reached(steps).producer is Gone),
    ensures
        try_recv_result(reached(steps).chan) == Err::<T, _>(TryRecvError::Empty),
{
    lemma_reached(steps);
}

/// A parked thread that has a cause to go on is unparked by what the producer
/// does next, unless it has been already.
pub proof fn law_parked_thread_is_unparked<T>(steps: Seq<Step<T>>, thread: Thread)
    requires
        can_happen(steps),
        reached(steps).consumer.parked() == Some(thread),
        !reached(steps).tokens.contains(thread),
        !is_open_and_empty(reached(steps).chan),
    ensures
        ({
            let s = reached(steps);
            let taken = s.after(Step::ProducerAccess);
            ||| {
                &&& s.enables(Step::ProducerWake)
                &&& s.after(Step::ProducerWake).tokens.contains(thread)
            }
            ||| {
                &&& s.enables(Step::ProducerAccess)
                &&& taken.enables(Step::ProducerWake)
                &&& taken.after(Step::ProducerWake).tokens.contains(thread)
            }
        }),
{
    lemma_reached(steps);
}

/// A cause to go on stays: once a message waits or the sender is gone, nothing
/// but the consumer's own access can change that.
pub proof fn law_cause_stays<T>(steps: Seq<Step<T>>, step: Step<T>)
    requires
        can_happen(steps),
        reached(steps).enables(step),
        !is_open_and_empty(reached(steps).chan),
        !(step is ConsumerAccess),
    ensures
        !is_open_and_empty(reached(steps).after(step).chan),
{
    lemma_reached(steps);
}

/// A receive that timed out leaves the channel open and empty. The next message
/// is accepted, and the next receive, however long it may wait, returns it.
pub proof fn law_late_message_is_received_next<T>(c: ChannelView<T>, t: T)
    requires
        is_open_and_empty(c),
        !c.port_dropped,
    ensures
        ({
            let sent = after_send(c, t);
            &&& !is_open_and_empty(sent)
            &&& decisive(try_recv_result(sent)) == Ok::<T, RecvError>(t)
            &&& last_try_result(try_recv_result(sent)) == Ok::<T, RecvError>(t)
            &&& is_open_and_empty(after_try_recv(sent))
        }),
{
}

/// The channel after these messages have been sent, one after the other.
pub open spec fn after_sends<T>(c: ChannelView<T>, messages: Seq<T>) -> ChannelView<T>
    decreases messages.len(),
{
    if messages.len() == 0 {
        c
    } else {
        after_send(after_sends(c, messages.drop_last()), messages.last())
    }
}

/// The channel after so many receives, none of which had to wait.
pub open spec fn after_receives<T>(c: ChannelView<T>, n: nat) -> ChannelView<T>
    decreases n,
{
    if n == 0 {
        c
    } else {
        after_try_recv(after_receives(c, (n - 1) as nat))
    }
}

proof fn lemma_after_sends<T>(c: ChannelView<T>, messages: Seq<T>)
    ensures
        after_sends(c, messages).messages == c.messages + messages,
        after_sends(c, messages).channels == c.channels,
    decreases messages.len(),
{
    if messages.len() > 0 {
        lemma_after_sends(c, messages.drop_last());
        assert((c.messages + messages.drop_last()).push(messages.last()) =~= c.messages + messages);
    } else {
        assert(c.messages + messages =~= c.messages);
    }
}

proof fn lemma_after_receives<T>(c: ChannelView<T>, n: nat)
    requires
        n <= c.messages.len(),
    ensures
        after_receives(c, n).messages == c.messages.skip(n as int),
        after_receives(c, n).channels == c.channels,
    decreases n,
{
    if n > 0 {
        lemma_after_receives(c, (n - 1) as nat);
        assert(c.messages.skip(n - 1).drop_first() =~= c.messages.skip(n as int));
    } else {
        assert(c.messages.skip(0) =~= c.messages);
    }
}

/// All that is sent before the sender is given up is received, each message once
/// and in order; the receive after the last of them finds the channel closed.
pub proof fn law_sent_is_received_then_closed<T>(messages: Seq<T>, n: nat)
    requires
        n <= messages.len(),
    ensures
        ({
            let closed = after_drop_chan(after_sends(new_channel(), messages));
            let c = after_receives(closed, n);
            &&& !is_open_and_empty(c)
            &&& recv_result(c) == if n < messages.len() {
                Ok::<T, ClosedError>(messages[n as int])
            } else {
                Err::<T, ClosedError>(ClosedError)
            }
        }),
{
    let closed = after_drop_chan(after_sends(new_channel(), messages));
    lemma_after_sends(new_channel(), messages);
    assert(closed.messages =~= messages);
    lemma_after_receives(closed, n);
}

} // verus!
