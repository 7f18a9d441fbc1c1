//! What the single calls and the steps of the operations do to a channel, said of
//! its messages, its registrations and its two halves one by one.
use vstd::prelude::*;

use crate::blocker::{is_aligned, CoroutineImpl, Thread, Waiter};
use crate::channel::{next_item, settled};
use crate::error::{ClosedError, RecvError, TryRecvError};
use crate::inner::{new_channel, CellId, ChannelView};
use crate::park::{park_step, ParkOp};
use crate::recv::{
    after_try_recv, drop_port_step, is_open_and_empty, recv_result, recv_resume, recv_step,
    try_recv_result, try_step, Context, DropPortOp, Progress, RecvOp, TryOp, TryStep, Wait,
};
use crate::send::{
    after_drop_chan, after_send, drop_chan_step, send_step, wake_step, DropChanOp, SendOp, WakeOp,
};
use crate::timeout::{
    after_fruitless_wait, decisive, last_try_result, start_wait, subscribe_next, subscribe_step,
    timed_co_kernel, timed_co_resume, timed_co_step, timed_kernel, timed_resume, timed_step,
    timed_thread_resume, timed_thread_step, SubscribeOp, TimedCoOp, TimedOp, TimedThreadOp,
    Timeout, WaitEnd,
};

verus! {

/// Whether the two channels differ in their messages at most.
pub open spec fn same_but_messages<T>(a: ChannelView<T>, b: ChannelView<T>) -> bool {
    &&& a.waiter == b.waiter
    &&& a.timed == b.timed
    &&& a.channels == b.channels
    &&& a.port_dropped == b.port_dropped
}

/// Whether the two channels differ in who is registered at most.
pub open spec fn same_but_registrations<T>(a: ChannelView<T>, b: ChannelView<T>) -> bool {
    &&& a.messages == b.messages
    &&& a.channels == b.channels
    &&& a.port_dropped == b.port_dropped
}

/// An address can be packed if it is even and not null.
pub proof fn law_aligned_is_even(raw: usize)
    ensures
        is_aligned(raw) <==> raw > 0 && raw % 2 == 0,
{
    assert(raw & 1 == raw % 2) by (bit_vector);
}

/// There is no time to wait only if there is not a nanosecond.
pub proof fn law_zero_is_no_nanosecond(timeout: Timeout)
    ensures
        timeout.spec_is_zero() <==> timeout.secs == 0 && timeout.nanos == 0,
        timeout.spec_is_zero() <==> timeout.total() == 0,
        timeout.total() == 1_000_000_000 * timeout.secs + timeout.nanos,
{
}

/// A new channel has its sender and its receiver; nothing was sent on it and
/// nobody is registered.
pub proof fn law_new_channel<T>()
    ensures
        new_channel::<T>().messages.len() == 0,
        new_channel::<T>().waiter is None,
        new_channel::<T>().timed is None,
        new_channel::<T>().channels == 1,
        !new_channel::<T>().port_dropped,
{
}

/// A channel has a coroutine registered if its waiter is one.
pub proof fn law_coroutine_waits<T>(c: ChannelView<T>)
    ensures
        c.coroutine_waits() <==> c.waiter is Some && c.waiter->0 is Coroutine,
{
}

/// To take the front message out leaves all others in their order, and changes
/// nothing else.
pub proof fn law_popped_leaves_the_rest<T>(c: ChannelView<T>)
    requires
        c.messages.len() > 0,
    ensures
        seq![c.messages[0]] + c.popped().messages == c.messages,
        c.popped().waiter == c.waiter,
        c.popped().timed == c.timed,
        c.popped().channels == c.channels,
        c.popped().port_dropped == c.port_dropped,
{
    assert(seq![c.messages[0]] + c.popped().messages =~= c.messages);
}

/// A receiver has to wait exactly if no message waits and there is a sender.
pub proof fn law_open_and_empty<T>(c: ChannelView<T>)
    ensures
        is_open_and_empty(c) <==> c.messages.len() == 0 && c.channels != 0,
{
}

/// A send appends its message, and leaves both halves as present as they were,
/// whoever was registered. Afterwards nobody is registered.
pub proof fn law_send_keeps_the_halves<T>(c: ChannelView<T>, t: T)
    ensures
        after_send(c, t).messages == c.messages + seq![t],
        after_send(c, t).port_dropped == c.port_dropped,
        after_send(c, t).channels == c.channels,
        after_send(c, t).waiter is None,
        after_send(c, t).timed is None,
{
    assert(after_send(c, t).messages =~= c.messages + seq![t]);
}

/// After a message was accepted the next one is accepted too, and both wait in
/// the order in which they were sent, behind all that waited before.
pub proof fn law_sends_add_up<T>(c: ChannelView<T>, first: T, second: T)
    requires
        !c.port_dropped,
    ensures
        send_step(after_send(c, first), SendOp::Check(second)).1 == SendOp::Push(second),
        after_send(after_send(c, first), second).messages == c.messages + seq![first, second],
        !after_send(after_send(c, first), second).port_dropped,
{
    assert(after_send(after_send(c, first), second).messages =~= c.messages + seq![
        first,
        second,
    ]);
}

/// A message that is sent on a channel on which nothing waits is received next,
/// and then the channel is as empty as before, with the same halves.
pub proof fn law_sent_is_received<T>(c: ChannelView<T>, t: T)
    requires
        c.messages.len() == 0,
    ensures
        try_recv_result(after_send(c, t)) == Ok::<T, TryRecvError>(t),
        after_try_recv(after_send(c, t)).messages.len() == 0,
        after_try_recv(after_send(c, t)).channels == c.channels,
        after_try_recv(after_send(c, t)).port_dropped == c.port_dropped,
{
}

/// A send that is made as one call does what its steps do: after the look at the
/// receiver, the message is appended, and the waiter and the cell are taken out.
pub proof fn law_send_is_its_steps<T>(c: ChannelView<T>, t: T)
    requires
        !c.port_dropped,
    ensures
        ({
            let (c1, op1, woken1) = send_step(c, SendOp::Check(t));
            let (c2, op2, woken2) = send_step(c1, op1);
            let (c3, op3, woken3) = send_step(c2, op2);
            let (c4, op4, woken4) = send_step(c3, op3);
            &&& c4 == after_send(c, t)
            &&& woken1 is None && woken2 is None && woken3 == c.waiter && woken4 is None
            &&& op4 == match c.timed {
                Some(cell) => SendOp::<T>::Wake(WakeOp::TakeCell(cell)),
                None => SendOp::<T>::Wake(WakeOp::Done),
            }
        }),
{
}

/// A send that finds the receiver gone gives its message back; it goes on
/// exactly if the receiver is there. The look changes nothing and wakes nobody.
pub proof fn law_send_looks_first<T>(c: ChannelView<T>, t: T)
    ensures
        send_step(c, SendOp::Check(t)).0 == c,
        c.port_dropped ==> send_step(c, SendOp::Check(t)).1 == SendOp::Refused(t),
        !c.port_dropped ==> send_step(c, SendOp::Check(t)).1 == SendOp::Push(t),
        send_step(c, SendOp::Check(t)).2 is None,
{
}

/// The step that appends a message appends that one, changes nothing else, wakes
/// nobody yet, and goes on to wake everybody.
pub proof fn law_send_appends<T>(c: ChannelView<T>, t: T)
    ensures
        send_step(c, SendOp::Push(t)).0.messages == c.messages + seq![t],
        send_step(c, SendOp::Push(t)).0.waiter == c.waiter,
        send_step(c, SendOp::Push(t)).0.timed == c.timed,
        send_step(c, SendOp::Push(t)).0.channels == c.channels,
        send_step(c, SendOp::Push(t)).0.port_dropped == c.port_dropped,
        send_step(c, SendOp::Push(t)).1 == SendOp::<T>::Wake(WakeOp::TakeWaiter),
        send_step(c, SendOp::Push(t)).2 is None,
{
    assert(send_step(c, SendOp::Push(t)).0.messages =~= c.messages + seq![t]);
}

/// Waking takes out the waiter that is registered, whoever it is, to wake that
/// one; then it takes out the cell that is registered, to wake who is in that
/// one. Messages and halves are left alone.
pub proof fn law_waking_finds_everybody<T>(c: ChannelView<T>)
    ensures
        ({
            let (c1, op1, woken1) = wake_step(c, WakeOp::TakeWaiter);
            &&& woken1 == c.waiter
            &&& c1.waiter is None
            &&& c1.timed == c.timed
            &&& same_but_registrations(c1, c)
            &&& op1 == WakeOp::TakeTimed
        }),
        ({
            let (c2, op2, woken2) = wake_step(c, WakeOp::TakeTimed);
            &&& woken2 is None
            &&& c2.timed is None
            &&& c2.waiter == c.waiter
            &&& same_but_registrations(c2, c)
            &&& op2 == WakeOp::Done <==> c.timed is None
            &&& forall|cell: CellId| op2 == WakeOp::TakeCell(cell) <==> c.timed == Some(cell)
        }),
{
}

/// After the message was appended, a send wakes as waking does.
pub proof fn law_send_wakes<T>(c: ChannelView<T>, op: WakeOp)
    ensures
        send_step(c, SendOp::Wake(op)).0 == wake_step(c, op).0,
        send_step(c, SendOp::Wake(op)).1 == SendOp::<T>::Wake(wake_step(c, op).1),
        send_step(c, SendOp::Wake(op)).2 == wake_step(c, op).2,
{
}

/// Which steps of the producer are accesses to the channel: all but emptying a
/// cell and what comes after the end.
pub proof fn law_producer_accesses<T>(t: T, wake: WakeOp)
    ensures
        SendOp::Check(t).on_channel(),
        SendOp::Push(t).on_channel(),
        !SendOp::Refused(t).on_channel(),
        SendOp::<T>::Wake(wake).on_channel() <==> wake == WakeOp::TakeWaiter || wake
            == WakeOp::TakeTimed,
        DropChanOp::Close.on_channel(),
        DropChanOp::Wake(wake).on_channel() <==> wake == WakeOp::TakeWaiter || wake
            == WakeOp::TakeTimed,
        wake.on_channel() <==> wake == WakeOp::TakeWaiter || wake == WakeOp::TakeTimed,
{
}

/// After the sending half is given up there is no sender, from every state of the
/// channel and whoever is registered. No receive has to wait any more: one that
/// finds no message finds the channel closed. The messages are left, and so is
/// the receiver; nobody is registered.
pub proof fn law_drop_chan_closes<T>(c: ChannelView<T>)
    ensures
        after_drop_chan(c).channels == 0,
        !is_open_and_empty(after_drop_chan(c)),
        after_drop_chan(c).messages == c.messages,
        after_drop_chan(c).port_dropped == c.port_dropped,
        after_drop_chan(c).waiter is None,
        after_drop_chan(c).timed is None,
        c.messages.len() == 0 ==> try_recv_result(after_drop_chan(c)) == Err::<T, _>(
            TryRecvError::Disconnected,
        ) && recv_result(after_drop_chan(c)) == Err::<T, _>(ClosedError),
        c.messages.len() > 0 ==> try_recv_result(after_drop_chan(c)) == Ok::<T, TryRecvError>(
            c.messages[0],
        ),
{
}

/// To give up the sending half in one call does what its steps do.
pub proof fn law_drop_chan_is_its_steps<T>(c: ChannelView<T>)
    ensures
        ({
            let (c1, op1, woken1) = drop_chan_step(c, DropChanOp::Close);
            let (c2, op2, woken2) = drop_chan_step(c1, op1);
            let (c3, op3, woken3) = drop_chan_step(c2, op2);
            &&& c3 == after_drop_chan(c)
            &&& woken1 is None && woken2 == c.waiter && woken3 is None
            &&& op3 == match c.timed {
                Some(cell) => DropChanOp::Wake(WakeOp::TakeCell(cell)),
                None => DropChanOp::Wake(WakeOp::Done),
            }
        }),
{
}

/// The step that records the loss of the sender changes nothing else and wakes
/// nobody yet; then everybody is woken as by a send.
pub proof fn law_drop_chan_steps<T>(c: ChannelView<T>, op: WakeOp)
    ensures
        ({
            let (c1, op1, woken1) = drop_chan_step(c, DropChanOp::Close);
            &&& c1.channels == 0
            &&& c1.messages == c.messages
            &&& c1.waiter == c.waiter
            &&& c1.timed == c.timed
            &&& c1.port_dropped == c.port_dropped
            &&& op1 == DropChanOp::Wake(WakeOp::TakeWaiter)
            &&& woken1 is None
        }),
        drop_chan_step(c, DropChanOp::Wake(op)).0 == wake_step(c, op).0,
        drop_chan_step(c, DropChanOp::Wake(op)).1 == DropChanOp::Wake(wake_step(c, op).1),
        drop_chan_step(c, DropChanOp::Wake(op)).2 == wake_step(c, op).2,
{
}

/// A receive without a wait returns the oldest message if there is one. It says
/// that there is none yet exactly if there is a sender, and that there will be
/// none exactly if there is not.
pub proof fn law_try_recv_tells_the_state<T>(c: ChannelView<T>)
    ensures
        c.messages.len() > 0 ==> try_recv_result(c) == Ok::<T, TryRecvError>(c.messages[0]),
        try_recv_result(c) is Ok <==> c.messages.len() > 0,
        try_recv_result(c) == Err::<T, _>(TryRecvError::Empty) <==> c.messages.len() == 0
            && c.channels > 0,
        try_recv_result(c) == Err::<T, _>(TryRecvError::Disconnected) <==> c.messages.len() == 0
            && c.channels == 0,
{
}

/// A receive without a wait takes out the message that it returns and no other,
/// and changes nothing else.
pub proof fn law_try_recv_takes_what_it_returns<T>(c: ChannelView<T>)
    ensures
        match try_recv_result(c) {
            Ok(t) => seq![t] + after_try_recv(c).messages == c.messages,
            Err(_) => after_try_recv(c).messages == c.messages,
        },
        after_try_recv(c).waiter == c.waiter,
        after_try_recv(c).timed == c.timed,
        after_try_recv(c).channels == c.channels,
        after_try_recv(c).port_dropped == c.port_dropped,
{
    if c.messages.len() > 0 {
        assert(seq![c.messages[0]] + after_try_recv(c).messages =~= c.messages);
    }
}

/// A try in steps, whatever the channel is at each of them: the first look takes
/// the oldest message if there is one. Otherwise the second tells whether there
/// is a sender, and only if there is none a third look takes the oldest message
/// or finds the channel closed.
pub proof fn law_try_steps<T>(c: ChannelView<T>)
    ensures
        forall|op: TryOp| #[trigger]
            try_step(c, op).1 matches TryStep::Done(Ok(t)) ==> {
                &&& c.messages.len() > 0
                &&& t == c.messages[0]
                &&& seq![t] + try_step(c, op).0.messages == c.messages
                &&& same_but_messages(try_step(c, op).0, c)
            },
        forall|op: TryOp| !((#[trigger] try_step(c, op)).1 matches TryStep::Done(Ok(_)))
            ==> try_step(c, op).0 == c,
        c.messages.len() > 0 ==> try_step(c, TryOp::FirstPop).1 matches TryStep::Done(Ok(_)),
        c.messages.len() == 0 ==> try_step(c, TryOp::FirstPop).1 == TryStep::<T>::Next(
            TryOp::CheckChannels,
        ),
        c.channels > 0 ==> try_step(c, TryOp::CheckChannels).1 == TryStep::<T>::Done(
            Err(TryRecvError::Empty),
        ),
        c.channels == 0 ==> try_step(c, TryOp::CheckChannels).1 == TryStep::<T>::Next(
            TryOp::LastPop,
        ),
        c.messages.len() > 0 ==> try_step(c, TryOp::LastPop).1 matches TryStep::Done(Ok(_)),
        c.messages.len() == 0 ==> try_step(c, TryOp::LastPop).1 == TryStep::<T>::Done(
            Err(TryRecvError::Disconnected),
        ),
{
    if c.messages.len() > 0 {
        assert(seq![c.messages[0]] + c.messages.drop_first() =~= c.messages);
    }
}

/// A receive without a wait in one call does what its steps do.
pub proof fn law_try_recv_is_its_steps<T>(c: ChannelView<T>)
    ensures
        ({
            let first = try_step(c, TryOp::FirstPop);
            let second = try_step(c, TryOp::CheckChannels);
            let third = try_step(c, TryOp::LastPop);
            ||| first == (after_try_recv(c), TryStep::Done(try_recv_result(c)))
            ||| {
                &&& first == (c, TryStep::<T>::Next(TryOp::CheckChannels))
                &&& second == (after_try_recv(c), TryStep::Done(try_recv_result(c)))
            }
            ||| {
                &&& first == (c, TryStep::<T>::Next(TryOp::CheckChannels))
                &&& second == (c, TryStep::<T>::Next(TryOp::LastPop))
                &&& third == (after_try_recv(c), TryStep::Done(try_recv_result(c)))
            }
        }),
{
}

/// A receive that does not have to wait returns the oldest message, and reports
/// the channel closed exactly if there is none.
pub proof fn law_recv_result<T>(c: ChannelView<T>)
    ensures
        c.messages.len() > 0 ==> recv_result(c) == Ok::<T, ClosedError>(c.messages[0]),
        recv_result(c) == Err::<T, _>(ClosedError) <==> c.messages.len() == 0,
{
}

/// A receive settles on a message or on the loss of the sender, as the channel
/// gave it; as long as the channel is only empty it settles on nothing.
pub proof fn law_settled<T>(data: Result<T, TryRecvError>)
    ensures
        data matches Ok(t) ==> settled(data) == Some(Ok::<T, ClosedError>(t)),
        data == Err::<T, _>(TryRecvError::Disconnected) <==> settled(data) == Some(
            Err::<T, _>(ClosedError),
        ),
        data == Err::<T, _>(TryRecvError::Empty) <==> settled(data) is None,
{
}

/// The first try of a receive returns what it decided; where the channel is open
/// and empty, a coroutine yields, and a thread goes on to register itself.
pub proof fn law_recv_first_try<T>(c: ChannelView<T>, context: Context, op: TryOp, thread: Thread)
    ensures
        recv_step(c, RecvOp::FirstTry(context, op)).0 == try_step(c, op).0,
        match try_step(c, op).1 {
            TryStep::Next(next) => recv_step(c, RecvOp::FirstTry(context, op)).1 == RecvOp::<
                T,
            >::FirstTry(context, next),
            TryStep::Done(Err(TryRecvError::Empty)) => {
                &&& recv_step(c, RecvOp::FirstTry(Context::Coroutine, op)).1
                    == RecvOp::<T>::Yielded
                &&& recv_step(c, RecvOp::FirstTry(Context::Thread(thread), op)).1
                    == RecvOp::<T>::Register(thread)
            },
            TryStep::Done(data) => recv_step(c, RecvOp::FirstTry(context, op)).1 == RecvOp::Done(
                data,
            ),
        },
{
}

/// A thread registers itself, changes nothing else, and then tries again. The
/// second try returns what it decided, after the thread has unregistered; where
/// the channel is open and empty, that thread parks.
pub proof fn law_recv_registers<T>(c: ChannelView<T>, thread: Thread, op: TryOp)
    ensures
        ({
            let (c1, op1) = recv_step(c, RecvOp::Register(thread));
            &&& c1.waiter == Some(Waiter::Thread(thread))
            &&& c1.timed == c.timed
            &&& same_but_registrations(c1, c)
            &&& op1 == RecvOp::<T>::SecondTry(thread, TryOp::FirstPop)
        }),
        recv_step(c, RecvOp::SecondTry(thread, op)).0 == try_step(c, op).0,
        recv_step(c, RecvOp::SecondTry(thread, op)).1 == match try_step(c, op).1 {
            TryStep::Next(next) => RecvOp::<T>::SecondTry(thread, next),
            TryStep::Done(Err(TryRecvError::Empty)) => RecvOp::Parked(thread),
            TryStep::Done(data) => RecvOp::Unregister(data),
        },
        forall|data: Result<T, TryRecvError>|
            ({
                let (c2, op2) = #[trigger] recv_step(c, RecvOp::Unregister(data));
                &&& c2.waiter is None
                &&& c2.timed == c.timed
                &&& same_but_registrations(c2, c)
                &&& op2 == RecvOp::Done(data)
            }),
{
}

/// After its wait a thread tries a last time; a coroutine does so once the
/// scheduler is done with its wait, and not before. What that try says is
/// returned.
pub proof fn law_recv_after_the_wait<T>(c: ChannelView<T>, thread: Thread, flag: bool, op: TryOp)
    ensures
        recv_resume(RecvOp::<T>::Parked(thread), flag) == RecvOp::<T>::LastTry(TryOp::FirstPop),
        recv_resume(RecvOp::<T>::Yielded, flag) == RecvOp::<T>::AwaitKernel,
        recv_resume(RecvOp::<T>::AwaitKernel, true) == RecvOp::<T>::AwaitKernel,
        recv_resume(RecvOp::<T>::AwaitKernel, false) == RecvOp::<T>::LastTry(TryOp::FirstPop),
        recv_step(c, RecvOp::LastTry(op)).0 == try_step(c, op).0,
        recv_step(c, RecvOp::LastTry(op)).1 == match try_step(c, op).1 {
            TryStep::Next(next) => RecvOp::<T>::LastTry(next),
            TryStep::Done(data) => RecvOp::Done(data),
        },
{
}

/// Which steps of a receive are accesses, which are waits, and which forget the
/// registered waiter.
pub proof fn law_recv_accesses<T>(op: RecvOp<T>)
    ensures
        op.waits() <==> op is Parked || op is Yielded || op is AwaitKernel,
        op.on_channel() <==> op is FirstTry || op is Register || op is SecondTry
            || op is Unregister || op is LastTry,
        op.forgets_waiter() <==> op is Register || op is Unregister,
{
}

/// An iterator's next agrees with the receive, in every context: wherever a
/// message waits the item is the oldest one and it alone leaves the channel, and
/// the iteration ends exactly if no message waits and there is no sender.
pub proof fn law_next_is_the_oldest<T>(
    c: ChannelView<T>,
    context: Context,
    progress: Progress<Option<T>, Wait>,
    after: ChannelView<T>,
)
    requires
        next_item(c, context, progress, after),
    ensures
        c.messages.len() > 0 ==> {
            &&& progress == Progress::<Option<T>, Wait>::Ready(Some(c.messages[0]))
            &&& seq![c.messages[0]] + after.messages == c.messages
            &&& same_but_messages(after, c)
        },
        progress == Progress::<Option<T>, Wait>::Ready(None) <==> c.messages.len() == 0
            && c.channels == 0,
        progress is Ready <==> !(c.messages.len() == 0 && c.channels > 0),
        !(progress is Canceled),
        c.messages.len() == 0 && c.channels == 0 ==> after == c,
        progress is Wait ==> {
            &&& same_but_registrations(after, c)
            &&& after.timed == c.timed
            &&& match context {
                Context::Coroutine => {
                    &&& progress == Progress::<Option<T>, Wait>::Wait(Wait::Yield)
                    &&& after.waiter == c.waiter
                },
                Context::Thread(thread) => {
                    &&& progress == Progress::<Option<T>, Wait>::Wait(Wait::Park)
                    &&& after.waiter == Some(Waiter::Thread(thread))
                },
            }
        },
{
    if c.messages.len() > 0 {
        assert(seq![c.messages[0]] + after.messages =~= c.messages);
    }
}

/// What a context waits for does not change what comes: two iterators on the same
/// channel, in whatever contexts, come to the same item.
pub proof fn law_next_is_the_same_everywhere<T>(
    c: ChannelView<T>,
    here: Context,
    there: Context,
    item_here: Option<T>,
    item_there: Progress<Option<T>, Wait>,
    after_here: ChannelView<T>,
    after_there: ChannelView<T>,
)
    requires
        next_item(c, here, Progress::Ready(item_here), after_here),
        next_item(c, there, item_there, after_there),
    ensures
        item_there == Progress::<Option<T>, Wait>::Ready(item_here),
        after_here == after_there,
        item_here == recv_result(c).ok(),
        after_here == after_try_recv(c),
{
}

/// Giving up the receiving half records that the receiver is gone, and then
/// throws away the oldest message at each step until there is none. Nothing else
/// is changed, and the receiver stays gone.
pub proof fn law_drop_port_steps<T>(c: ChannelView<T>)
    ensures
        ({
            let (c1, op1, message1) = drop_port_step(c, DropPortOp::Close);
            &&& c1.port_dropped
            &&& c1.messages == c.messages
            &&& c1.waiter == c.waiter
            &&& c1.timed == c.timed
            &&& c1.channels == c.channels
            &&& op1 == DropPortOp::Drain
            &&& message1 is None
        }),
        ({
            let (c2, op2, message2) = drop_port_step(c, DropPortOp::Drain);
            &&& same_but_messages(c2, c)
            &&& match message2 {
                Some(t) => seq![t] + c2.messages == c.messages && op2 == DropPortOp::Drain,
                None => c.messages.len() == 0 && c2.messages.len() == 0 && op2
                    == DropPortOp::Done,
            }
        }),
        drop_port_step(c, DropPortOp::Done) == (c, DropPortOp::Done, None::<T>),
{
    if c.messages.len() > 0 {
        assert(seq![c.messages[0]] + c.messages.drop_first() =~= c.messages);
    }
}

/// The registration of a coroutine in a receive: it registers that coroutine and
/// then looks for a message. If there is one, whoever is registered is taken
/// back to be run; otherwise nobody is. Messages and halves are left alone.
pub proof fn law_park_steps<T>(c: ChannelView<T>, co: CoroutineImpl)
    ensures
        forall|op: ParkOp| same_but_registrations((#[trigger] park_step(c, op)).0, c),
        forall|op: ParkOp| (#[trigger] park_step(c, op)).0.timed == c.timed,
        park_step(c, ParkOp::Store(co)).0.waiter == Some(Waiter::Coroutine(co)),
        park_step(c, ParkOp::Store(co)).1 == ParkOp::Recheck,
        park_step(c, ParkOp::Store(co)).2 is None,
        park_step(c, ParkOp::Recheck).0.waiter == c.waiter,
        park_step(c, ParkOp::Recheck).1 == ParkOp::TakeBack <==> c.messages.len() > 0,
        park_step(c, ParkOp::Recheck).1 == ParkOp::Release <==> c.messages.len() == 0,
        park_step(c, ParkOp::Recheck).2 is None,
        park_step(c, ParkOp::TakeBack).0.waiter is None,
        park_step(c, ParkOp::TakeBack).1 == ParkOp::Release,
        park_step(c, ParkOp::TakeBack).2 == c.waiter,
{
}

/// Which steps of that registration are accesses, and which state each needs.
pub proof fn law_park_accesses<T>(c: ChannelView<T>, op: ParkOp)
    ensures
        op.on_channel() <==> op is Store || op == ParkOp::Recheck || op == ParkOp::TakeBack,
        op.fits(c) <==> match c.waiter {
            None => true,
            Some(Waiter::Coroutine(_)) => !(op is Store),
            Some(Waiter::Thread(_)) => op != ParkOp::TakeBack,
        },
{
}

/// A message that was received is returned, whatever the time. Without one, the
/// loss of the sender is told from the end of the time.
pub proof fn law_timed_results<T>(t: T)
    ensures
        decisive(Ok::<T, TryRecvError>(t)) == Ok::<T, RecvError>(t),
        last_try_result(Ok::<T, TryRecvError>(t)) == Ok::<T, RecvError>(t),
        decisive(Err::<T, _>(TryRecvError::Disconnected)) == Err::<T, _>(RecvError::Disconnected),
        last_try_result(Err::<T, _>(TryRecvError::Disconnected)) == Err::<T, _>(
            RecvError::Disconnected,
        ),
        last_try_result(Err::<T, _>(TryRecvError::Empty)) == Err::<T, _>(RecvError::Timeout),
{
}

/// The first try of a receive with a wait of limited time returns what it
/// decided. Where the channel is open and empty, the receive is over without time
/// to wait; otherwise it goes on in its context, with the time that it was given.
pub proof fn law_timed_first_try<T>(
    c: ChannelView<T>,
    context: Context,
    timeout: Timeout,
    op: TryOp,
    thread: Thread,
)
    ensures
        timed_step(c, TimedOp::QuickTry(context, timeout, op)).0 == try_step(c, op).0,
        timed_step(c, TimedOp::QuickTry(context, timeout, op)).1 == match try_step(c, op).1 {
            TryStep::Next(next) => TimedOp::<T>::QuickTry(context, timeout, next),
            TryStep::Done(Ok(t)) => TimedOp::Done(Ok(t)),
            TryStep::Done(Err(TryRecvError::Disconnected)) => TimedOp::Done(
                Err(RecvError::Disconnected),
            ),
            TryStep::Done(Err(TryRecvError::Empty)) => start_wait(context, timeout),
        },
        start_wait::<T>(context, timeout) == TimedOp::<T>::Done(Err(RecvError::Timeout))
            <==> timeout.secs == 0 && timeout.nanos == 0,
        timeout.secs > 0 || timeout.nanos > 0 ==> {
            &&& start_wait::<T>(Context::Coroutine, timeout) == TimedOp::<T>::Co(
                TimedCoOp::FirstTry(timeout, TryOp::FirstPop),
            )
            &&& start_wait::<T>(Context::Thread(thread), timeout) == TimedOp::<T>::Thread(
                TimedThreadOp::Register(thread, timeout),
            )
        },
{
}

/// As a coroutine or as a thread, a receive with a wait of limited time does what
/// those do. How its wait ended is told to it as it is; a thread is told how much
/// time is left, which is none once its time is over.
pub proof fn law_timed_goes_on<T>(
    c: ChannelView<T>,
    co: TimedCoOp<T>,
    thread: TimedThreadOp<T>,
    end: WaitEnd,
    flag: bool,
)
    ensures
        timed_step(c, TimedOp::Co(co)).0 == timed_co_step(c, co).0,
        timed_step(c, TimedOp::Co(co)).1 == TimedOp::Co(timed_co_step(c, co).1),
        timed_step(c, TimedOp::Thread(thread)).0 == timed_thread_step(c, thread).0,
        timed_step(c, TimedOp::Thread(thread)).1 == TimedOp::Thread(timed_thread_step(c, thread).1),
        timed_resume(TimedOp::Co(co), end) == TimedOp::Co(timed_co_resume(co, end)),
        forall|left: Timeout| #[trigger]
            timed_resume(TimedOp::Thread(thread), WaitEnd::Woken(left)) == TimedOp::Thread(
                timed_thread_resume(thread, left),
            ),
        timed_resume(TimedOp::Thread(thread), WaitEnd::TimedOut) == TimedOp::Thread(
            timed_thread_resume(thread, Timeout { secs: 0, nanos: 0 }),
        ),
        timed_kernel(TimedOp::Co(co), flag) == TimedOp::Co(timed_co_kernel(co, flag)),
{
}

/// A coroutine's first try with a wait of limited time returns what it decided;
/// where the channel is open and empty, it yields for the time that it was given.
pub proof fn law_timed_coroutine_yields<T>(c: ChannelView<T>, timeout: Timeout, op: TryOp)
    ensures
        timed_co_step(c, TimedCoOp::FirstTry(timeout, op)).0 == try_step(c, op).0,
        timed_co_step(c, TimedCoOp::FirstTry(timeout, op)).1 == match try_step(c, op).1 {
            TryStep::Next(next) => TimedCoOp::<T>::FirstTry(timeout, next),
            TryStep::Done(Ok(t)) => TimedCoOp::Done(Ok(t)),
            TryStep::Done(Err(TryRecvError::Disconnected)) => TimedCoOp::Done(
                Err(RecvError::Disconnected),
            ),
            TryStep::Done(Err(TryRecvError::Empty)) => TimedCoOp::Yielded(timeout),
        },
{
}

/// How a coroutine's wait ended is kept as it is until the scheduler is done with
/// it, whatever time was asked for. Then the cell is forgotten, and nothing else
/// is changed.
pub proof fn law_wait_end_is_kept<T>(c: ChannelView<T>, timeout: Timeout, end: WaitEnd)
    ensures
        timed_co_resume(TimedCoOp::<T>::Yielded(timeout), end) == TimedCoOp::<T>::AwaitKernel(end),
        timed_co_kernel(TimedCoOp::<T>::AwaitKernel(end), true) == TimedCoOp::<T>::AwaitKernel(end),
        timed_co_kernel(TimedCoOp::<T>::AwaitKernel(end), false) == TimedCoOp::<T>::Clear(end),
        ({
            let (c1, op1) = timed_co_step(c, TimedCoOp::Clear(end));
            &&& c1.timed is None
            &&& c1.waiter == c.waiter
            &&& same_but_registrations(c1, c)
            &&& end == WaitEnd::Canceled ==> op1 == TimedCoOp::<T>::Canceled
            &&& end != WaitEnd::Canceled ==> op1 == TimedCoOp::<T>::LastTry(end, TryOp::FirstPop)
        }),
{
}

/// After its wait a coroutine returns what the try decided. Where the channel is
/// open and empty, the receive times out if the timer ended the wait, and waits
/// for the rest of the time if somebody woke the coroutine.
pub proof fn law_timed_coroutine_after_the_wait<T>(c: ChannelView<T>, end: WaitEnd, op: TryOp)
    ensures
        timed_co_step(c, TimedCoOp::LastTry(end, op)).0 == try_step(c, op).0,
        timed_co_step(c, TimedCoOp::LastTry(end, op)).1 == match try_step(c, op).1 {
            TryStep::Next(next) => TimedCoOp::<T>::LastTry(end, next),
            TryStep::Done(Ok(t)) => TimedCoOp::Done(Ok(t)),
            TryStep::Done(Err(TryRecvError::Disconnected)) => TimedCoOp::Done(
                Err(RecvError::Disconnected),
            ),
            TryStep::Done(Err(TryRecvError::Empty)) => match end {
                WaitEnd::TimedOut => TimedCoOp::Done(Err(RecvError::Timeout)),
                WaitEnd::Canceled => TimedCoOp::Canceled,
                WaitEnd::Woken(left) => TimedCoOp::Yielded(left),
            },
        },
        after_fruitless_wait::<T>(WaitEnd::TimedOut) == TimedCoOp::<T>::Done(
            Err(RecvError::Timeout),
        ),
{
}

/// A receive whose coroutine goes on because its timer fired does not wait again,
/// whatever time was asked for and whatever the channel is at each access: it
/// returns the oldest message if there is one when it looks; else it times out if
/// there is a sender; else it returns a message that came in between, or the loss
/// of the sender.
pub proof fn law_fired_timer_ends_the_receive<T>(
    timeout: Timeout,
    at_clear: ChannelView<T>,
    at_first: ChannelView<T>,
    at_second: ChannelView<T>,
    at_third: ChannelView<T>,
)
    ensures
        ({
            let resumed = timed_resume(
                TimedOp::<T>::Co(TimedCoOp::Yielded(timeout)),
                WaitEnd::TimedOut,
            );
            let freed = timed_kernel(resumed, false);
            let cleared = timed_step(at_clear, freed).1;
            let first = timed_step(at_first, cleared).1;
            let second = timed_step(at_second, first).1;
            let third = timed_step(at_third, second).1;
            if at_first.messages.len() > 0 {
                first == TimedOp::Co(TimedCoOp::Done(Ok::<T, RecvError>(at_first.messages[0])))
            } else if at_second.channels > 0 {
                second == TimedOp::Co(TimedCoOp::Done(Err::<T, _>(RecvError::Timeout)))
            } else if at_third.messages.len() > 0 {
                third == TimedOp::Co(TimedCoOp::Done(Ok::<T, RecvError>(at_third.messages[0])))
            } else {
                third == TimedOp::Co(TimedCoOp::Done(Err::<T, _>(RecvError::Disconnected)))
            }
        }),
{
}

/// A receive in a thread whose time is over does not wait again, whatever time it
/// parked for and whatever the channel is at each access: it returns as a
/// coroutine does whose timer fired, after the thread has unregistered.
pub proof fn law_elapsed_time_ends_the_receive<T>(
    thread: Thread,
    timeout: Timeout,
    at_first: ChannelView<T>,
    at_second: ChannelView<T>,
    at_third: ChannelView<T>,
    at_end: ChannelView<T>,
)
    ensures
        ({
            let parked = TimedOp::<T>::Thread(TimedThreadOp::Parked(thread, timeout));
            let resumed = timed_resume(parked, WaitEnd::TimedOut);
            let first = timed_step(at_first, resumed).1;
            let second = timed_step(at_second, first).1;
            let third = timed_step(at_third, second).1;
            let (last, data) = if at_first.messages.len() > 0 {
                (first, Ok::<T, RecvError>(at_first.messages[0]))
            } else if at_second.channels > 0 {
                (second, Err(RecvError::Timeout))
            } else if at_third.messages.len() > 0 {
                (third, Ok(at_third.messages[0]))
            } else {
                (third, Err(RecvError::Disconnected))
            };
            &&& last == TimedOp::Thread(TimedThreadOp::Unregister(data))
            &&& timed_step(at_end, last).1 == TimedOp::Thread(TimedThreadOp::Done(data))
            &&& timed_step(at_end, last).0.waiter is None
            &&& timed_resume(
                parked,
                WaitEnd::Woken(Timeout { secs: 0, nanos: 0 }),
            ) == resumed
        }),
{
}

/// A thread registers itself, changes nothing else, and tries. It returns what
/// the try decided, after it has unregistered; where the channel is open and
/// empty, that thread parks for the time that it was given.
pub proof fn law_timed_thread_parks<T>(
    c: ChannelView<T>,
    thread: Thread,
    timeout: Timeout,
    op: TryOp,
)
    ensures
        ({
            let (c1, op1) = timed_thread_step(c, TimedThreadOp::Register(thread, timeout));
            &&& c1.waiter == Some(Waiter::Thread(thread))
            &&& c1.timed == c.timed
            &&& same_but_registrations(c1, c)
            &&& op1 == TimedThreadOp::<T>::SecondTry(thread, timeout, TryOp::FirstPop)
        }),
        timed_thread_step(c, TimedThreadOp::SecondTry(thread, timeout, op)).0 == try_step(c, op).0,
        timed_thread_step(c, TimedThreadOp::SecondTry(thread, timeout, op)).1 == match try_step(
            c,
            op,
        ).1 {
            TryStep::Next(next) => TimedThreadOp::<T>::SecondTry(thread, timeout, next),
            TryStep::Done(Ok(t)) => TimedThreadOp::Unregister(Ok(t)),
            TryStep::Done(Err(TryRecvError::Disconnected)) => TimedThreadOp::Unregister(
                Err(RecvError::Disconnected),
            ),
            TryStep::Done(Err(TryRecvError::Empty)) => TimedThreadOp::Parked(thread, timeout),
        },
        forall|data: Result<T, RecvError>|
            ({
                let (c2, op2) = #[trigger] timed_thread_step(c, TimedThreadOp::Unregister(data));
                &&& c2.waiter is None
                &&& c2.timed == c.timed
                &&& same_but_registrations(c2, c)
                &&& op2 == TimedThreadOp::Done(data)
            }),
{
}

/// After a park a thread whose time is over tries a last time, and gives up only
/// where the channel is open and empty; a thread that has time left begins again
/// with just that time.
pub proof fn law_timed_thread_after_the_wait<T>(
    c: ChannelView<T>,
    thread: Thread,
    timeout: Timeout,
    left: Timeout,
    op: TryOp,
)
    ensures
        left.secs == 0 && left.nanos == 0 ==> timed_thread_resume(
            TimedThreadOp::<T>::Parked(thread, timeout),
            left,
        ) == TimedThreadOp::<T>::LastTry(TryOp::FirstPop),
        left.secs > 0 || left.nanos > 0 ==> timed_thread_resume(
            TimedThreadOp::<T>::Parked(thread, timeout),
            left,
        ) == TimedThreadOp::<T>::Register(thread, left),
        timed_thread_step(c, TimedThreadOp::LastTry(op)).0 == try_step(c, op).0,
        timed_thread_step(c, TimedThreadOp::LastTry(op)).1 == match try_step(c, op).1 {
            TryStep::Next(next) => TimedThreadOp::<T>::LastTry(next),
            TryStep::Done(Ok(t)) => TimedThreadOp::Unregister(Ok(t)),
            TryStep::Done(Err(TryRecvError::Disconnected)) => TimedThreadOp::Unregister(
                Err(RecvError::Disconnected),
            ),
            TryStep::Done(Err(TryRecvError::Empty)) => TimedThreadOp::Unregister(
                Err(RecvError::Timeout),
            ),
        },
{
}

/// Which steps of a receive with a wait of limited time are accesses, which are
/// waits, and which forget the registered waiter.
pub proof fn law_timed_accesses<T>(co: TimedCoOp<T>, thread: TimedThreadOp<T>, op: TimedOp<T>)
    ensures
        co.on_channel() <==> co is FirstTry || co is Clear || co is LastTry,
        thread.on_channel() <==> thread is Register || thread is SecondTry || thread is Unregister
            || thread is LastTry,
        thread.forgets_waiter() <==> thread is Register || thread is Unregister,
        op.on_channel() <==> match op {
            TimedOp::QuickTry(_, _, _) => true,
            TimedOp::Co(co) => co is FirstTry || co is Clear || co is LastTry,
            TimedOp::Thread(thread) => !(thread is Parked) && !(thread is Done),
            TimedOp::Done(_) => false,
        },
        op.waits() <==> match op {
            TimedOp::Co(co) => co is Yielded,
            TimedOp::Thread(thread) => thread is Parked,
            _ => false,
        },
        op.forgets_waiter() <==> match op {
            TimedOp::Thread(thread) => thread is Register || thread is Unregister,
            _ => false,
        },
{
}

/// The registration of a cell goes through its steps in order: the timer is set,
/// the cell is registered, a cancel is told of it, a cancel that came before is
/// made up for, and then the channel is looked at, messages first.
pub proof fn law_subscribe_order(timeout: Timeout, cell: CellId, canceled: bool)
    ensures
        subscribe_next(SubscribeOp::AddTimer(timeout, cell), canceled) == SubscribeOp::Store(cell),
        subscribe_next(SubscribeOp::SetCancel(cell), canceled) == SubscribeOp::CheckCancel(cell),
        subscribe_next(SubscribeOp::CheckCancel(cell), true) == SubscribeOp::Cancel(cell),
        subscribe_next(SubscribeOp::CheckCancel(cell), false) == SubscribeOp::Recheck(cell),
        subscribe_next(SubscribeOp::Cancel(cell), canceled) == SubscribeOp::Recheck(cell),
        subscribe_next(SubscribeOp::Run(cell), canceled) == SubscribeOp::Release,
        subscribe_next(SubscribeOp::Release, canceled) == SubscribeOp::Done,
        subscribe_next(SubscribeOp::Done, canceled) == SubscribeOp::Done,
{
}

/// The accesses of the registration: the cell is registered; a message that waits
/// or the loss of the sender has it taken back, and what is in it is run unless
/// somebody else has taken it out before. Nothing else is changed.
pub proof fn law_subscribe_accesses<T>(c: ChannelView<T>, cell: CellId)
    ensures
        forall|op: SubscribeOp| same_but_registrations((#[trigger] subscribe_step(c, op)).0, c),
        forall|op: SubscribeOp| (#[trigger] subscribe_step(c, op)).0.waiter == c.waiter,
        subscribe_step(c, SubscribeOp::Store(cell)).0.timed == Some(cell),
        subscribe_step(c, SubscribeOp::Store(cell)).1 == SubscribeOp::SetCancel(cell),
        subscribe_step(c, SubscribeOp::Recheck(cell)).0.timed == c.timed,
        subscribe_step(c, SubscribeOp::Recheck(cell)).1 == if c.messages.len() == 0 {
            SubscribeOp::RecheckChannels(cell)
        } else {
            SubscribeOp::TakeBack(cell)
        },
        subscribe_step(c, SubscribeOp::RecheckChannels(cell)).0.timed == c.timed,
        subscribe_step(c, SubscribeOp::RecheckChannels(cell)).1 == if c.channels == 0 {
            SubscribeOp::TakeBack(cell)
        } else {
            SubscribeOp::Release
        },
        subscribe_step(c, SubscribeOp::TakeBack(cell)).0.timed is None,
        subscribe_step(c, SubscribeOp::TakeBack(cell)).1 == match c.timed {
            Some(_) => SubscribeOp::Run(cell),
            None => SubscribeOp::Release,
        },
{
}

/// Which steps of that registration are accesses to the channel.
pub proof fn law_subscribe_on_channel(op: SubscribeOp)
    ensures
        op.on_channel() <==> op is Store || op is Recheck || op is RecheckChannels
            || op is TakeBack,
{
}

} // verus!
