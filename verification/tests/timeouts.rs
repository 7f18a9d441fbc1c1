//! Receiving with a wait of limited time.
use std::time::Duration;

use spsc::blocker::{CoroutineImpl, Thread, Waiter};
use spsc::channel::{channel, Receiver};
use spsc::error::RecvError;
use spsc::inner::{CellId, InnerQueue};
use spsc::park::Park;
use spsc::recv::{Context, Progress, TryOp, Wait};
use spsc::send::{DropChanOp, SendOp, WakeOp};
use spsc::slot::AtomicOption;
use spsc::timeout::{
    RecvTimeoutSource, SubscribeOp, Subscription, TimedCoOp, TimedOp, TimedThreadOp, Timeout,
    WaitEnd,
};

const CELL: CellId = CellId { addr: 0x3000 };

fn timeout(d: Duration) -> Timeout {
    Timeout {
        secs: d.as_secs(),
        nanos: d.subsec_nanos(),
    }
}

fn duration(t: Timeout) -> Duration {
    Duration::new(t.secs, t.nanos)
}

fn co() -> CoroutineImpl {
    CoroutineImpl::from_raw(0x2000).unwrap()
}

fn thread() -> Thread {
    Thread::from_raw(0x1000).unwrap()
}

fn ready<R>(progress: Progress<R, Wait>) -> R {
    match progress {
        Progress::Ready(r) => r,
        Progress::Wait(wait) => panic!("waits: {wait:?}"),
        Progress::Canceled => panic!("canceled"),
    }
}

/// How the receive waits.
fn wait<R>(progress: Progress<R, Wait>) -> Wait {
    match progress {
        Progress::Wait(wait) => wait,
        _ => panic!("does not wait"),
    }
}

const OVER: Timeout = Timeout { secs: 0, nanos: 0 };

/// Receives in a coroutine on a channel that stays silent: the result, and how
/// long the timer was set to.
fn silent_co(rx: &Receiver<i32>, inner: &mut InnerQueue<i32>, d: Duration) -> (Result<i32, RecvError>, Duration) {
    match rx.recv_with_timeout(inner, Context::Coroutine, timeout(d)) {
        Progress::Ready(data) => (data, Duration::ZERO),
        Progress::Wait(Wait::YieldTimeout(timeout)) => {
            let subscription = RecvTimeoutSource { timeout }.subscribe(inner, CELL, false);
            let elapsed = duration(subscription.timer);
            assert!(!subscription.run);
            (ready(inner.recv_with_timeout_co_resumed(WaitEnd::TimedOut)), elapsed)
        }
        progress => panic!("{progress:?}"),
    }
}

/// Receives in a thread on a channel that stays silent: the result, and how long
/// the thread parked.
fn silent_thread(rx: &Receiver<i32>, inner: &mut InnerQueue<i32>, d: Duration) -> (Result<i32, RecvError>, Duration) {
    match rx.recv_with_timeout(inner, Context::Thread(thread()), timeout(d)) {
        Progress::Ready(data) => (data, Duration::ZERO),
        Progress::Wait(Wait::ParkTimeout(timeout)) => {
            let elapsed = duration(timeout);
            (ready(rx.recv_with_timeout_thread_resumed(inner, thread(), OVER)), elapsed)
        }
        progress => panic!("{progress:?}"),
    }
}

#[test]
fn recv_with_timeout_immediate_data() {
    let (tx, rx, mut inner) = channel::<i32>();
    tx.send(&mut inner, 42).0.unwrap();
    let result = ready(rx.recv_with_timeout(
        &mut inner,
        Context::Coroutine,
        timeout(Duration::from_secs(5)),
    ));
    assert_eq!(result, Ok(42));
}

#[test]
fn recv_with_timeout_timer_wins() {
    let (_tx, rx, mut inner) = channel::<i32>();
    let (result, elapsed) = silent_co(&rx, &mut inner, Duration::from_millis(50));
    assert_eq!(result, Err(RecvError::Timeout));
    assert!(elapsed >= Duration::from_millis(40));
    assert!(elapsed < Duration::from_millis(200));
}

#[test]
fn recv_with_timeout_data_before_timeout() {
    let (tx, rx, mut inner) = channel::<i32>();
    let five = timeout(Duration::from_secs(5));
    match rx.recv_with_timeout(&mut inner, Context::Coroutine, five) {
        Progress::Wait(Wait::YieldTimeout(timeout)) => {
            RecvTimeoutSource { timeout }.subscribe(&mut inner, CELL, false)
        }
        progress => panic!("{progress:?}"),
    };
    let (sent, wakeups) = tx.send(&mut inner, 99);
    sent.unwrap();
    assert_eq!(wakeups.cell, Some(CELL));
    let result = ready(inner.recv_with_timeout_co_resumed(WaitEnd::Woken(five)));
    assert_eq!(result, Ok(99));
}

#[test]
fn recv_with_timeout_disconnect() {
    let (tx, rx, mut inner) = channel::<i32>();
    tx.drop(&mut inner);
    let result = ready(rx.recv_with_timeout(
        &mut inner,
        Context::Coroutine,
        timeout(Duration::from_secs(5)),
    ));
    assert_eq!(result, Err(RecvError::Disconnected));
}

#[test]
fn recv_with_timeout_short_timeout() {
    let (_tx, rx, mut inner) = channel::<i32>();
    let (result, elapsed) = silent_co(&rx, &mut inner, Duration::from_millis(5));
    assert_eq!(result, Err(RecvError::Timeout));
    assert!(elapsed < Duration::from_millis(100));
}

#[test]
fn recv_with_timeout_repeated() {
    let (tx, rx, mut inner) = channel::<i32>();
    // First: timeout
    assert_eq!(
        silent_co(&rx, &mut inner, Duration::from_millis(10)).0,
        Err(RecvError::Timeout)
    );
    // Second: data arrives
    tx.send(&mut inner, 1).0.unwrap();
    assert_eq!(silent_co(&rx, &mut inner, Duration::from_secs(5)).0, Ok(1));
    // Third: timeout again
    assert_eq!(
        silent_co(&rx, &mut inner, Duration::from_millis(10)).0,
        Err(RecvError::Timeout)
    );
}

#[test]
fn recv_with_timeout_multiple_senders() {
    let (tx1, rx, mut inner1) = channel::<i32>();
    let (tx2, _rx2, mut inner2) = channel::<i32>();
    let (tx3, _rx3, mut inner3) = channel::<i32>();
    let five = timeout(Duration::from_secs(5));
    assert!(matches!(
        rx.recv_with_timeout(&mut inner1, Context::Coroutine, five),
        Progress::Wait(Wait::YieldTimeout(_))
    ));
    RecvTimeoutSource { timeout: five }.subscribe(&mut inner1, CELL, false);
    assert_eq!(tx3.send(&mut inner3, 3).1.cell, None);
    assert_eq!(tx1.send(&mut inner1, 1).1.cell, Some(CELL));
    assert_eq!(tx2.send(&mut inner2, 2).1.cell, None);
    assert!(ready(inner1.recv_with_timeout_co_resumed(WaitEnd::Woken(five))).is_ok());
}

#[test]
fn recv_with_timeout_thread_immediate_data() {
    let (tx, rx, mut inner) = channel::<i32>();
    tx.send(&mut inner, 42).0.unwrap();
    let (result, _) = silent_thread(&rx, &mut inner, Duration::from_secs(5));
    assert_eq!(result, Ok(42));
}

#[test]
fn recv_with_timeout_thread_timer_wins() {
    let (_tx, rx, mut inner) = channel::<i32>();
    let (result, elapsed) = silent_thread(&rx, &mut inner, Duration::from_millis(50));
    assert_eq!(result, Err(RecvError::Timeout));
    assert!(elapsed >= Duration::from_millis(40));
    assert!(elapsed < Duration::from_millis(200));
}

#[test]
fn recv_with_timeout_thread_data_before_timeout() {
    let (tx, rx, mut inner) = channel::<i32>();
    let five = timeout(Duration::from_secs(5));
    assert!(matches!(
        rx.recv_with_timeout(&mut inner, Context::Thread(thread()), five),
        Progress::Wait(Wait::ParkTimeout(_))
    ));
    let (sent, wakeups) = tx.send(&mut inner, 99);
    sent.unwrap();
    assert_eq!(wakeups.waiter, Some(Waiter::Thread(thread())));
    assert_eq!(
        ready(rx.recv_with_timeout_thread_resumed(&mut inner, thread(), five)),
        Ok(99)
    );
}

#[test]
fn recv_with_timeout_thread_disconnect() {
    let (tx, rx, mut inner) = channel::<i32>();
    tx.drop(&mut inner);
    let (result, _) = silent_thread(&rx, &mut inner, Duration::from_secs(5));
    assert_eq!(result, Err(RecvError::Disconnected));
}

#[test]
fn zero_timeout_does_not_wait() {
    let (tx, rx, mut inner) = channel::<i32>();
    for context in [Context::Coroutine, Context::Thread(thread())] {
        let zero = timeout(Duration::ZERO);
        assert_eq!(
            ready(rx.recv_with_timeout(&mut inner, context, zero)),
            Err(RecvError::Timeout)
        );
        assert_eq!(inner.waiter(), None);
        tx.send(&mut inner, 6).0.unwrap();
        assert_eq!(ready(rx.recv_with_timeout(&mut inner, context, zero)), Ok(6));
    }
    tx.drop(&mut inner);
    assert_eq!(
        ready(rx.recv_with_timeout(&mut inner, Context::Coroutine, timeout(Duration::ZERO))),
        Err(RecvError::Disconnected)
    );
}

#[test]
fn disconnect_during_the_wait_is_no_timeout() {
    let (tx, rx, mut inner) = channel::<i32>();
    let one = timeout(Duration::from_secs(1));
    assert!(matches!(
        rx.recv_with_timeout(&mut inner, Context::Thread(thread()), one),
        Progress::Wait(_)
    ));
    let wakeups = tx.drop(&mut inner);
    assert_eq!(wakeups.waiter, Some(Waiter::Thread(thread())));
    assert_eq!(
        ready(rx.recv_with_timeout_thread_resumed(&mut inner, thread(), one)),
        Err(RecvError::Disconnected)
    );

    let (tx, rx, mut inner) = channel::<i32>();
    assert!(matches!(
        rx.recv_with_timeout(&mut inner, Context::Coroutine, one),
        Progress::Wait(_)
    ));
    RecvTimeoutSource { timeout: one }.subscribe(&mut inner, CELL, false);
    assert_eq!(tx.drop(&mut inner).cell, Some(CELL));
    assert_eq!(
        ready(inner.recv_with_timeout_co_resumed(WaitEnd::TimedOut)),
        Err(RecvError::Disconnected)
    );
}

#[test]
fn message_beats_the_timer() {
    let (tx, rx, mut inner) = channel::<i32>();
    let one = timeout(Duration::from_secs(1));
    assert!(matches!(
        rx.recv_with_timeout(&mut inner, Context::Coroutine, one),
        Progress::Wait(_)
    ));
    RecvTimeoutSource { timeout: one }.subscribe(&mut inner, CELL, false);
    // The timer fires, and a message comes before the coroutine goes on.
    tx.send(&mut inner, 7).0.unwrap();
    assert_eq!(ready(inner.recv_with_timeout_co_resumed(WaitEnd::TimedOut)), Ok(7));
}

/// A coroutine that is woken without a cause waits for the rest of its time.
#[test]
fn wakeup_without_a_cause() {
    let (_tx, _rx, mut inner) = channel::<i32>();
    let left = timeout(Duration::from_millis(30));
    SubscribeOp::Store(CELL).step(&mut inner);
    assert_eq!(
        wait(inner.recv_with_timeout_co_resumed(WaitEnd::Woken(left))),
        Wait::YieldTimeout(left)
    );
    assert_eq!(
        ready(inner.recv_with_timeout_co_resumed(WaitEnd::TimedOut)),
        Err(RecvError::Timeout)
    );
}

/// A send that had appended its message before the wait began wakes the
/// coroutine without a cause: the sender is not reported lost.
#[test]
fn late_wakeup_is_no_disconnect() {
    let (tx, rx, mut inner) = channel::<i32>();
    let five = timeout(Duration::from_secs(5));
    let mut op = SendOp::Check(1);
    for _ in 0..2 {
        op = op.step(&mut inner).0;
    }
    assert_eq!(ready(rx.recv_with_timeout(&mut inner, Context::Coroutine, five)), Ok(1));
    assert_eq!(
        wait(rx.recv_with_timeout(&mut inner, Context::Coroutine, five)),
        Wait::YieldTimeout(five)
    );
    assert!(!RecvTimeoutSource { timeout: five }.subscribe(&mut inner, CELL, false).run);
    for _ in 0..2 {
        op = op.step(&mut inner).0;
    }
    assert!(matches!(op, SendOp::Wake(WakeOp::TakeCell(CELL))));
    let left = timeout(Duration::from_secs(4));
    assert_eq!(
        wait(inner.recv_with_timeout_co_resumed(WaitEnd::Woken(left))),
        Wait::YieldTimeout(left)
    );
    assert!(!RecvTimeoutSource { timeout: left }.subscribe(&mut inner, CELL, false).run);
    assert_eq!(tx.send(&mut inner, 2).1.cell, Some(CELL));
    assert_eq!(ready(inner.recv_with_timeout_co_resumed(WaitEnd::Woken(left))), Ok(2));
}

/// A canceled coroutine receives nothing.
#[test]
fn canceled_receive() {
    let (tx, rx, mut inner) = channel::<i32>();
    let five = timeout(Duration::from_secs(5));
    wait(rx.recv_with_timeout(&mut inner, Context::Coroutine, five));
    RecvTimeoutSource { timeout: five }.subscribe(&mut inner, CELL, false);
    assert!(matches!(
        inner.recv_with_timeout_co_resumed(WaitEnd::Canceled),
        Progress::Canceled
    ));
    // Its cell is not registered any more.
    assert_eq!(tx.send(&mut inner, 8).1.cell, None);
    assert!(matches!(
        inner.recv_with_timeout_co_resumed(WaitEnd::Canceled),
        Progress::Canceled
    ));
    assert_eq!(inner.try_recv(), Ok(8));
}

/// A message that comes after the last look and before the registration is
/// noticed by the registration, and so is the loss of the sender.
#[test]
fn message_before_the_registration() {
    let (tx, rx, mut inner) = channel::<i32>();
    let five = timeout(Duration::from_secs(5));
    wait(rx.recv_with_timeout(&mut inner, Context::Coroutine, five));
    assert_eq!(tx.send(&mut inner, 5).1.cell, None);
    let subscription = RecvTimeoutSource { timeout: five }.subscribe(&mut inner, CELL, false);
    assert!(subscription.run);
    assert_eq!(ready(inner.recv_with_timeout_co_resumed(WaitEnd::Woken(five))), Ok(5));

    wait(rx.recv_with_timeout(&mut inner, Context::Coroutine, five));
    assert_eq!(tx.drop(&mut inner).cell, None);
    let subscription = RecvTimeoutSource { timeout: five }.subscribe(&mut inner, CELL, false);
    assert!(subscription.run);
    assert_eq!(
        ready(inner.recv_with_timeout_co_resumed(WaitEnd::Woken(five))),
        Err(RecvError::Disconnected)
    );
}

#[test]
fn late_message_is_received_next() {
    let (tx, rx, mut inner) = channel::<i32>();
    let (result, _) = silent_thread(&rx, &mut inner, Duration::from_millis(1));
    assert_eq!(result, Err(RecvError::Timeout));
    // The thread is not registered any more.
    assert_eq!(tx.send(&mut inner, 3).1.waiter, None);
    assert_eq!(ready(rx.recv(&mut inner, Context::Thread(thread()))), Ok(3));
}

/// A thread whose park ends too early parks for the rest of its time.
#[test]
fn early_unpark_is_no_timeout() {
    let (tx, rx, mut inner) = channel::<i32>();
    let (result, _) = silent_thread(&rx, &mut inner, Duration::from_millis(10));
    assert_eq!(result, Err(RecvError::Timeout));
    tx.send(&mut inner, 1).0.unwrap();
    let five = timeout(Duration::from_secs(5));
    let here = Context::Thread(thread());
    assert_eq!(ready(rx.recv_with_timeout(&mut inner, here, five)), Ok(1));
    assert_eq!(
        wait(rx.recv_with_timeout(&mut inner, here, five)),
        Wait::ParkTimeout(five)
    );
    let left = timeout(Duration::from_millis(4999));
    assert_eq!(
        wait(rx.recv_with_timeout_thread_resumed(&mut inner, thread(), left)),
        Wait::ParkTimeout(left)
    );
    assert_eq!(
        tx.send(&mut inner, 99).1.waiter,
        Some(Waiter::Thread(thread()))
    );
    assert_eq!(
        ready(rx.recv_with_timeout_thread_resumed(&mut inner, thread(), left)),
        Ok(99)
    );
    assert_eq!(inner.waiter(), None);
}

#[test]
fn parts_of_a_timed_receive() {
    let (tx, rx, mut inner) = channel::<i32>();
    let one = timeout(Duration::from_secs(1));
    assert!(matches!(
        inner.recv_with_timeout_co(one),
        Progress::Wait(Wait::YieldTimeout(t)) if t == one
    ));
    assert!(matches!(
        rx.recv_with_timeout_thread(&mut inner, thread(), one),
        Progress::Wait(Wait::ParkTimeout(t)) if t == one
    ));
    tx.send(&mut inner, 1).0.unwrap();
    tx.send(&mut inner, 2).0.unwrap();
    assert_eq!(ready(inner.recv_with_timeout_co(one)), Ok(1));
    assert_eq!(
        ready(rx.recv_with_timeout_thread(&mut inner, thread(), one)),
        Ok(2)
    );
    assert_eq!(inner.waiter(), None);
    tx.drop(&mut inner);
    assert_eq!(
        ready(inner.recv_with_timeout_co(one)),
        Err(RecvError::Disconnected)
    );
    assert_eq!(
        ready(rx.recv_with_timeout_thread(&mut inner, thread(), one)),
        Err(RecvError::Disconnected)
    );
}

#[test]
fn subscription_of_a_canceled_coroutine() {
    let mut inner = InnerQueue::<i32>::new();
    let one = timeout(Duration::from_secs(1));
    assert_eq!(
        RecvTimeoutSource { timeout: one }.subscribe(&mut inner, CELL, true),
        Subscription {
            timer: one,
            cell: CELL,
            cancel: true,
            run: false
        }
    );
    let op = SubscribeOp::AddTimer(one, CELL).resume(false);
    assert_eq!(op, SubscribeOp::Store(CELL));
    let op = op.step(&mut inner);
    assert_eq!(op, SubscribeOp::SetCancel(CELL));
    let op = op.resume(false);
    assert_eq!(op, SubscribeOp::CheckCancel(CELL));
    assert_eq!(op.resume(true), SubscribeOp::Cancel(CELL));
    assert_eq!(op.resume(false), SubscribeOp::Recheck(CELL));
    assert_eq!(SubscribeOp::Cancel(CELL).resume(false), SubscribeOp::Recheck(CELL));
}

/// The registration, step by step: what it sees decides whether the coroutine is
/// run at once.
#[test]
fn registration_step_by_step() {
    let mut inner = InnerQueue::<i32>::new();
    SubscribeOp::Store(CELL).step(&mut inner);
    let op = SubscribeOp::Recheck(CELL).step(&mut inner);
    assert_eq!(op, SubscribeOp::RecheckChannels(CELL));
    assert_eq!(op.step(&mut inner), SubscribeOp::Release);
    let guard = Park::new().delay_drop();
    let (op, park) = SubscribeOp::Release.release(guard);
    assert_eq!(op, SubscribeOp::Done);
    assert_eq!(park.drop(), None);

    // The sender goes away and finds the cell: nothing is left to take back.
    let wakeups = inner.drop_chan();
    assert_eq!(wakeups.cell, Some(CELL));
    let op = SubscribeOp::RecheckChannels(CELL).step(&mut inner);
    assert_eq!(op, SubscribeOp::TakeBack(CELL));
    assert_eq!(op.step(&mut inner), SubscribeOp::Release);

    // The cell is still registered: it is taken back.
    SubscribeOp::Store(CELL).step(&mut inner);
    let op = SubscribeOp::TakeBack(CELL).step(&mut inner);
    assert_eq!(op, SubscribeOp::Run(CELL));
    assert_eq!(op.resume(false), SubscribeOp::Release);
}

/// The timer and the sender both go for the coroutine in the cell, in either
/// order: one of them gets it.
#[test]
fn one_wakeup_for_timer_and_sender() {
    for timer_first in [false, true] {
        let mut inner = InnerQueue::<i32>::new();
        let mut cell = AtomicOption::some(co());
        SubscribeOp::Store(CELL).step(&mut inner);
        let mut woken = 0;
        if timer_first && cell.take().is_some() {
            woken += 1;
        }
        let mut op = SendOp::Check(1);
        for _ in 0..4 {
            op = op.step(&mut inner).0;
        }
        let wake = match op {
            SendOp::Wake(wake) => wake,
            op => panic!("{op:?}"),
        };
        assert_eq!(wake, WakeOp::TakeCell(CELL));
        let (wake, waiter) = wake.resume(cell.take());
        assert_eq!(wake, WakeOp::Done);
        if timer_first {
            assert_eq!(waiter, None);
        } else {
            assert_eq!(waiter, Some(Waiter::Coroutine(co())));
            woken += 1;
        }
        if cell.take().is_some() {
            woken += 1;
        }
        assert_eq!(woken, 1);
    }
}

/// The sender goes away while a coroutine waits in a cell.
#[test]
fn loss_of_the_sender_empties_the_cell() {
    let mut inner = InnerQueue::<i32>::new();
    SubscribeOp::Store(CELL).step(&mut inner);
    let (op, _) = DropChanOp::Close.step(&mut inner);
    let (op, waiter) = op.step(&mut inner);
    assert_eq!(waiter, None);
    let (op, _) = op.step(&mut inner);
    assert_eq!(op, DropChanOp::Wake(WakeOp::TakeCell(CELL)));
}

/// A timed receive in a thread, step by step, with a message that comes right
/// after the thread has registered itself.
#[test]
fn message_between_registration_and_second_try() {
    let mut inner = InnerQueue::<i32>::new();
    let one = timeout(Duration::from_secs(1));
    let mut op = TimedOp::QuickTry(Context::Thread(thread()), one, TryOp::FirstPop);
    for _ in 0..3 {
        op = op.step(&mut inner);
    }
    assert!(matches!(op, TimedOp::Thread(TimedThreadOp::SecondTry(_, _, TryOp::FirstPop))));
    assert_eq!(inner.send(4).1.waiter, Some(Waiter::Thread(thread())));
    op = op.step(&mut inner);
    assert!(matches!(op, TimedOp::Thread(TimedThreadOp::Unregister(Ok(4)))));
    op = op.step(&mut inner);
    assert!(matches!(op, TimedOp::Thread(TimedThreadOp::Done(Ok(4)))));
}

/// A timed receive in a coroutine, step by step, up to the timeout.
#[test]
fn timed_receive_in_a_coroutine_step_by_step() {
    let mut inner = InnerQueue::<i32>::new();
    let one = timeout(Duration::from_secs(1));
    let mut op = TimedOp::QuickTry(Context::Coroutine, one, TryOp::FirstPop);
    for _ in 0..4 {
        op = op.step(&mut inner);
    }
    assert!(matches!(op, TimedOp::Co(TimedCoOp::Yielded(t)) if t == one));
    op = op.resume(WaitEnd::TimedOut);
    op = op.kernel_seen(true);
    assert!(matches!(op, TimedOp::Co(TimedCoOp::AwaitKernel(WaitEnd::TimedOut))));
    op = op.kernel_seen(false);
    for _ in 0..3 {
        op = op.step(&mut inner);
    }
    assert!(matches!(
        op,
        TimedOp::Co(TimedCoOp::Done(Err(RecvError::Timeout)))
    ));
}

/// A timed receive in a thread, step by step: it goes on without a cause, parks
/// again, and gives up when its time is over.
#[test]
fn timed_receive_in_a_thread_step_by_step() {
    let mut inner = InnerQueue::<i32>::new();
    let one = timeout(Duration::from_secs(1));
    let half = timeout(Duration::from_millis(500));
    let mut op = TimedOp::QuickTry(Context::Thread(thread()), one, TryOp::FirstPop);
    while !matches!(op, TimedOp::Thread(TimedThreadOp::Parked(_, _))) {
        op = op.step(&mut inner);
    }
    op = op.resume(WaitEnd::Woken(half));
    assert!(matches!(op, TimedOp::Thread(TimedThreadOp::Register(_, left)) if left == half));
    while !matches!(op, TimedOp::Thread(TimedThreadOp::Parked(_, _))) {
        op = op.step(&mut inner);
    }
    assert_eq!(inner.waiter(), Some(Waiter::Thread(thread())));
    op = op.resume(WaitEnd::TimedOut);
    for _ in 0..3 {
        op = op.step(&mut inner);
    }
    assert!(matches!(
        op,
        TimedOp::Thread(TimedThreadOp::Done(Err(RecvError::Timeout)))
    ));
    assert_eq!(inner.waiter(), None);
}
