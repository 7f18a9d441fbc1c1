//! Both halves of a channel in use at once: the operations are run step by step,
//! in many orders.
use std::collections::HashSet;

use spsc::blocker::{CoroutineImpl, Thread, Waiter};
use spsc::error::TryRecvError;
use spsc::inner::InnerQueue;
use spsc::park::{DropGuard, Park, ParkOp};
use spsc::recv::{Context, DropPortOp, RecvOp, TryOp, TryStep};
use spsc::send::{DropChanOp, SendOp, WakeOp};

const ADDRESS: usize = 0x1000;

fn thread() -> Thread {
    Thread::from_raw(ADDRESS).unwrap()
}

fn co() -> CoroutineImpl {
    CoroutineImpl::from_raw(ADDRESS).unwrap()
}

/// A channel, and who has been woken.
struct Net<T> {
    inner: InnerQueue<T>,
    woken: HashSet<usize>,
}

impl<T> Net<T> {
    fn new() -> Self {
        Net {
            inner: InnerQueue::new(),
            woken: HashSet::new(),
        }
    }

    fn wake(&mut self, waiter: Option<Waiter>) {
        let woken = match waiter {
            Some(Waiter::Thread(thread)) => {
                self.woken.insert(thread.into_raw());
                true
            }
            // A coroutine must not be scheduled twice.
            Some(Waiter::Coroutine(co)) => self.woken.insert(co.into_raw()),
            None => true,
        };
        assert!(woken);
    }
}

/// The producer: it sends messages one after the other, and gives its half up at
/// the end if it is told to.
struct Tx<T> {
    messages: Vec<T>,
    sending: Option<SendOp<T>>,
    dropping: Option<DropChanOp>,
    gives_up: bool,
    refused: bool,
}

impl<T> Tx<T> {
    fn new(mut messages: Vec<T>, gives_up: bool) -> Self {
        messages.reverse();
        Tx {
            messages,
            sending: None,
            dropping: None,
            gives_up,
            refused: false,
        }
    }

    /// Takes one step; `false` says that there is nothing left to do.
    fn step(&mut self, net: &mut Net<T>) -> bool {
        if let Some(op) = self.dropping {
            if op == DropChanOp::Wake(WakeOp::Done) {
                return false;
            }
            let (next, waiter) = op.step(&mut net.inner);
            net.wake(waiter);
            self.dropping = Some(next);
            return true;
        }
        match self.sending.take() {
            Some(SendOp::Wake(WakeOp::Done)) => true,
            Some(SendOp::Refused(_)) => {
                self.refused = true;
                self.messages.clear();
                true
            }
            Some(op) => {
                let (next, waiter) = op.step(&mut net.inner);
                net.wake(waiter);
                self.sending = Some(next);
                true
            }
            None => match self.messages.pop() {
                Some(t) => {
                    self.sending = Some(SendOp::Check(t));
                    true
                }
                None if self.gives_up => {
                    self.dropping = Some(DropChanOp::Close);
                    true
                }
                None => false,
            },
        }
    }
}

/// The consumer: it receives until it has enough or finds the sender gone.
struct Rx<T> {
    context: Context,
    op: Option<RecvOp<T>>,
    park: Park,
    suspended: bool,
    received: Vec<T>,
    enough: usize,
    closed: bool,
}

/// The scheduler at the registration of a coroutine.
struct Kernel {
    op: ParkOp,
    guard: Option<DropGuard>,
}

impl Kernel {
    /// Takes one step; `false` says that there is nothing to do.
    fn step<T>(&mut self, net: &mut Net<T>, park: &mut Park) -> bool {
        match self.op {
            ParkOp::Done => false,
            ParkOp::Release => {
                let (op, released) = self.op.release(self.guard.take().unwrap());
                self.op = op;
                *park = released;
                true
            }
            op => {
                let (op, run) = op.step(&mut net.inner);
                self.op = op;
                net.wake(run.map(Waiter::Coroutine));
                true
            }
        }
    }
}

impl<T> Rx<T> {
    fn new(context: Context, enough: usize) -> Self {
        Rx {
            context,
            op: None,
            park: Park::new(),
            suspended: false,
            received: Vec::new(),
            enough,
            closed: false,
        }
    }

    fn is_done(&self) -> bool {
        self.closed || self.received.len() >= self.enough
    }

    /// Takes one step; `false` says that the consumer is asleep or has nothing
    /// left to do.
    fn step(&mut self, net: &mut Net<T>, kernel: &mut Kernel) -> bool {
        if self.is_done() {
            return false;
        }
        match self.op.take() {
            None => self.op = Some(RecvOp::FirstTry(self.context, TryOp::FirstPop)),
            Some(RecvOp::Done(Ok(t))) => self.received.push(t),
            Some(RecvOp::Done(Err(TryRecvError::Disconnected))) => self.closed = true,
            Some(RecvOp::Done(Err(TryRecvError::Empty))) => {}
            Some(RecvOp::Parked(thread)) => {
                if !net.woken.remove(&thread.into_raw()) {
                    self.op = Some(RecvOp::Parked(thread));
                    return false;
                }
                self.op = Some(RecvOp::Parked(thread).resume(false));
            }
            Some(RecvOp::Yielded) if !self.suspended => {
                self.suspended = true;
                self.park = Park::new();
                kernel.op = ParkOp::Store(co());
                kernel.guard = Some(self.park.delay_drop());
                self.op = Some(RecvOp::Yielded);
            }
            Some(RecvOp::Yielded) => {
                if !net.woken.remove(&ADDRESS) {
                    self.op = Some(RecvOp::Yielded);
                    return false;
                }
                self.suspended = false;
                self.op = Some(RecvOp::Yielded.resume(true));
            }
            Some(RecvOp::AwaitKernel) => {
                let wait_kernel = self.park.drop().is_some();
                self.op = Some(RecvOp::AwaitKernel.resume(wait_kernel));
                return !wait_kernel;
            }
            Some(op) => {
                if matches!(op, RecvOp::Register(_) | RecvOp::Unregister(_)) {
                    assert!(!matches!(
                        net.inner.waiter(),
                        Some(Waiter::Coroutine(_))
                    ));
                }
                self.op = Some(op.step(&mut net.inner));
            }
        }
        true
    }
}

/// Runs producer, consumer and scheduler. `order` says who is to act, step by
/// step, as long as it lasts; then they take turns. Ends when nobody can act.
fn run<T>(order: &[u8], tx: &mut Tx<T>, rx: &mut Rx<T>) {
    let mut net = Net::new();
    let mut kernel = Kernel {
        op: ParkOp::Done,
        guard: None,
    };
    let mut idle: usize = 0;
    let mut tick: usize = 0;
    while idle < 3 {
        let who = match order.get(tick) {
            Some(who) => *who,
            None => (tick % 3) as u8,
        };
        let acted = match who {
            0 => tx.step(&mut net),
            1 => rx.step(&mut net, &mut kernel),
            _ => kernel.step(&mut net, &mut rx.park),
        };
        if acted {
            idle = 0;
        } else if tick >= order.len() {
            idle += 1;
        }
        tick += 1;
    }
}

/// All orders of `len` steps between `parties` parties.
fn orders(parties: u8, len: u32) -> Vec<Vec<u8>> {
    let mut all = vec![vec![]];
    for _ in 0..len {
        let mut longer = Vec::new();
        for order in &all {
            for who in 0..parties {
                let mut order = order.clone();
                order.push(who);
                longer.push(order);
            }
        }
        all = longer;
    }
    all
}

#[test]
fn smoke_threads() {
    let mut tx = Tx::new(vec![1], true);
    let mut rx = Rx::new(Context::Thread(thread()), 1);
    run(&[1, 1, 1, 1, 1, 1, 1], &mut tx, &mut rx);
    assert_eq!(rx.received, vec![1]);
}

#[test]
fn smoke_coroutine() {
    // The sender is a coroutine; the receiver is the thread outside.
    let mut tx = Tx::new(vec![1], true);
    let mut rx = Rx::new(Context::Thread(thread()), 1);
    run(&[], &mut tx, &mut rx);
    assert_eq!(rx.received, vec![1]);
}

#[test]
fn chan_gone_concurrent() {
    for order in orders(2, 10) {
        let mut tx = Tx::new(vec![1, 1], true);
        let mut rx = Rx::new(Context::Thread(thread()), usize::MAX);
        run(&order, &mut tx, &mut rx);
        assert!(rx.closed);
        assert_eq!(rx.received, vec![1, 1]);
    }
}

/// A thread that receives sleeps through no message and no loss of the sender.
#[test]
fn thread_wakes_in_every_order() {
    for order in orders(2, 14) {
        let mut tx = Tx::new(vec![7, 8], true);
        let mut rx = Rx::new(Context::Thread(thread()), usize::MAX);
        run(&order, &mut tx, &mut rx);
        assert!(rx.closed, "{order:?}");
        assert_eq!(rx.received, vec![7, 8], "{order:?}");
    }
}

/// A coroutine that receives sleeps through no message.
#[test]
fn coroutine_wakes_in_every_order() {
    for order in orders(3, 10) {
        let mut tx = Tx::new(vec![7, 8], false);
        let mut rx = Rx::new(Context::Coroutine, 2);
        run(&order, &mut tx, &mut rx);
        assert_eq!(rx.received, vec![7, 8], "{order:?}");
    }
}

/// A coroutine that is registered when the sender goes away is woken.
#[test]
fn coroutine_wakes_when_the_sender_goes() {
    let mut tx = Tx::<i32>::new(vec![], true);
    let mut rx = Rx::new(Context::Coroutine, usize::MAX);
    run(&[1, 1, 1, 1, 2, 2, 2], &mut tx, &mut rx);
    assert!(rx.closed);
}

#[test]
fn stress() {
    let mut tx = Tx::new(vec![1; 10000], true);
    let mut rx = Rx::new(Context::Thread(thread()), 10000);
    run(&[], &mut tx, &mut rx);
    assert_eq!(rx.received, vec![1; 10000]);
}

#[test]
fn send_from_outside_runtime() {
    let mut tx1 = Tx::new(vec![()], false);
    let mut rx1 = Rx::new(Context::Thread(thread()), 1);
    run(&[], &mut tx1, &mut rx1);
    assert_eq!(rx1.received, vec![()]);
    let mut tx2 = Tx::new(vec![1; 40], false);
    let mut rx2 = Rx::new(Context::Coroutine, 40);
    run(&[], &mut tx2, &mut rx2);
    assert_eq!(rx2.received, vec![1; 40]);
}

#[test]
fn recv_from_outside_runtime() {
    let mut tx = Tx::new(vec![1; 40], false);
    let mut rx = Rx::new(Context::Thread(thread()), 40);
    run(&[], &mut tx, &mut rx);
    assert_eq!(rx.received, vec![1; 40]);
}

#[test]
fn stream_send_recv_stress() {
    let mut tx = Tx::new((0..10).map(Box::new).collect(), false);
    let mut rx = Rx::new(Context::Thread(thread()), 10);
    run(&[], &mut tx, &mut rx);
    for (i, received) in rx.received.iter().enumerate() {
        assert!(**received == i as i32);
    }
    assert_eq!(rx.received.len(), 10);
}

#[test]
fn oneshot_multi_task_recv_then_send() {
    for order in orders(2, 10) {
        let mut tx = Tx::new(vec![Box::new(10)], false);
        let mut rx = Rx::new(Context::Thread(thread()), 1);
        run(&order, &mut tx, &mut rx);
        assert!(*rx.received[0] == 10);
    }
}

#[test]
fn oneshot_multi_task_recv_then_close() {
    for order in orders(2, 10) {
        let mut tx = Tx::<Box<i32>>::new(vec![], true);
        let mut rx = Rx::new(Context::Thread(thread()), 1);
        run(&order, &mut tx, &mut rx);
        assert!(rx.closed);
        assert!(rx.received.is_empty());
    }
}

#[test]
fn port_gone_concurrent1() {
    // The receiver is a coroutine that waits for one message and gives its half
    // up; the sender sends until it is refused. First the order says who acts,
    // then they take turns.
    for order in orders(3, 9) {
        let mut net = Net::<i32>::new();
        let mut kernel = Kernel {
            op: ParkOp::Done,
            guard: None,
        };
        let mut rx = Rx::new(Context::Coroutine, 1);
        let mut dropping = DropPortOp::Close;
        let mut sending = SendOp::Check(1);
        let mut tick: usize = 0;
        let refused = loop {
            let who = match order.get(tick) {
                Some(who) => *who,
                None => (tick % 3) as u8,
            };
            tick += 1;
            assert!(tick < 1000, "{order:?}");
            match who {
                0 => {
                    sending = match sending {
                        SendOp::Refused(t) => break t,
                        SendOp::Wake(WakeOp::Done) => SendOp::Check(1),
                        op => {
                            let (next, waiter) = op.step(&mut net.inner);
                            net.wake(waiter);
                            next
                        }
                    }
                }
                1 if rx.is_done() => dropping = dropping.step(&mut net.inner).0,
                1 => {
                    rx.step(&mut net, &mut kernel);
                }
                _ => {
                    kernel.step(&mut net, &mut rx.park);
                }
            }
        };
        assert_eq!(refused, 1);
        assert_eq!(rx.received, vec![1], "{order:?}");
        assert!(dropping != DropPortOp::Close);
        while dropping != DropPortOp::Done {
            dropping = dropping.step(&mut net.inner).0;
        }
        assert_eq!(net.inner.send(2).0, Err(2));
    }
}

/// A message that is appended between the check and the end of the receiving
/// half counts as sent.
#[test]
fn message_sent_while_the_receiver_goes() {
    let mut inner = InnerQueue::<i32>::new();
    let (op, _) = SendOp::Check(5).step(&mut inner);
    inner.drop_port();
    let (op, _) = op.step(&mut inner);
    let (op, _) = op.step(&mut inner);
    let (op, _) = op.step(&mut inner);
    assert!(matches!(op, SendOp::Wake(WakeOp::Done)));
    assert_eq!(inner.send(6).0, Err(6));
}

/// A message that comes between the first look and the look at the senders is
/// found by the last look.
#[test]
fn last_look_finds_the_message() {
    let mut inner = InnerQueue::<i32>::new();
    let op = match TryOp::FirstPop.step(&mut inner) {
        TryStep::Next(op) => op,
        TryStep::Done(data) => panic!("{data:?}"),
    };
    assert!(inner.send(9).0.is_ok());
    inner.drop_chan();
    let op = match op.step(&mut inner) {
        TryStep::Next(op) => op,
        TryStep::Done(data) => panic!("{data:?}"),
    };
    assert_eq!(op, TryOp::LastPop);
    assert!(matches!(op.step(&mut inner), TryStep::Done(Ok(9))));
}

#[test]
fn try_recv_states() {
    let mut inner = InnerQueue::<i32>::new();
    assert_eq!(inner.try_recv(), Err(TryRecvError::Empty));
    assert!(inner.send(1).0.is_ok());
    assert_eq!(inner.try_recv(), Ok(1));
    assert_eq!(inner.try_recv(), Err(TryRecvError::Empty));
    inner.drop_chan();
    assert_eq!(inner.try_recv(), Err(TryRecvError::Disconnected));
}

#[test]
fn test_nested_recv_iter() {
    let mut tx = Tx::new(vec![3, 1, 2], true);
    let mut rx = Rx::new(Context::Thread(thread()), usize::MAX);
    run(&[], &mut tx, &mut rx);
    assert!(rx.closed);
    assert_eq!(rx.received.iter().sum::<i32>(), 6);
}

#[test]
fn destroy_upgraded_shared_port_when_sender_still_active() {
    let mut inner = InnerQueue::<()>::new();
    // The receiver has gone to sleep.
    let mut op = RecvOp::FirstTry(Context::Thread(thread()), TryOp::FirstPop);
    while !matches!(op, RecvOp::Parked(_)) {
        op = op.step(&mut inner);
    }
    let (sent, wakeups) = inner.send(());
    sent.unwrap();
    assert_eq!(wakeups.waiter, Some(Waiter::Thread(thread())));
    op = op.resume(false).step(&mut inner);
    assert!(matches!(op, RecvOp::Done(Ok(()))));
    inner.drop_port();
    assert!(inner.send(()).0.is_err());
}

#[test]
fn port_gone_concurrent() {
    // The receiver is a thread that takes one message and gives its half up; the
    // sender sends until it is refused. The two act in turn, from every start.
    for head_start in 0..20 {
        let mut inner = InnerQueue::<i32>::new();
        let mut receiving = Some(RecvOp::FirstTry(Context::Thread(thread()), TryOp::FirstPop));
        let mut dropping = DropPortOp::Close;
        let mut sending = SendOp::Check(1);
        let mut tick = 0;
        let refused = loop {
            tick += 1;
            if tick > head_start {
                match receiving.take() {
                    Some(RecvOp::Done(Err(TryRecvError::Empty))) => {
                        let context = Context::Thread(thread());
                        receiving = Some(RecvOp::FirstTry(context, TryOp::FirstPop));
                    }
                    Some(RecvOp::Done(data)) => assert_eq!(data, Ok(1)),
                    Some(RecvOp::Parked(thread)) => {
                        receiving = Some(RecvOp::Parked(thread).resume(false));
                    }
                    Some(op) => receiving = Some(op.step(&mut inner)),
                    None => dropping = dropping.step(&mut inner).0,
                }
            }
            sending = match sending {
                SendOp::Refused(t) => break t,
                SendOp::Wake(WakeOp::Done) => SendOp::Check(1),
                op => op.step(&mut inner).0,
            };
        };
        assert_eq!(refused, 1);
    }
}

#[test]
fn no_runtime() {
    let mut tx1 = Tx::new(vec![1], true);
    let mut rx1 = Rx::new(Context::Thread(thread()), 1);
    run(&[], &mut tx1, &mut rx1);
    assert_eq!(rx1.received, vec![1]);
    let mut tx2 = Tx::new(vec![2], true);
    let mut rx2 = Rx::new(Context::Coroutine, 1);
    run(&[1, 1, 1, 1, 2, 2, 2], &mut tx2, &mut rx2);
    assert_eq!(rx2.received, vec![2]);
}

#[test]
fn oneshot_multi_thread_close_stress() {
    for order in orders(2, 6) {
        let mut inner = InnerQueue::<i32>::new();
        let mut port = DropPortOp::Close;
        let mut chan = DropChanOp::Close;
        for who in order.into_iter().chain([0, 0, 0, 0, 1, 1]) {
            if who == 1 {
                port = port.step(&mut inner).0;
            } else if chan != DropChanOp::Wake(WakeOp::Done) {
                chan = chan.step(&mut inner).0;
            }
        }
        assert_eq!(port, DropPortOp::Done);
        assert_eq!(chan, DropChanOp::Wake(WakeOp::Done));
        assert_eq!(inner.try_recv(), Err(TryRecvError::Disconnected));
        assert_eq!(inner.send(1).0, Err(1));
    }
}

#[test]
fn oneshot_multi_thread_send_close_stress() {
    for order in orders(2, 8) {
        let mut inner = InnerQueue::<i32>::new();
        let mut port = DropPortOp::Close;
        let mut closed_at_check = false;
        let mut op = SendOp::Check(1);
        for who in order.into_iter().chain([0, 0, 0, 0, 1, 1, 1]) {
            if who == 1 {
                port = port.step(&mut inner).0;
                continue;
            }
            op = match op {
                SendOp::Check(t) => {
                    closed_at_check = port != DropPortOp::Close;
                    SendOp::Check(t).step(&mut inner).0
                }
                SendOp::Refused(t) => SendOp::Refused(t),
                SendOp::Wake(WakeOp::Done) => SendOp::Wake(WakeOp::Done),
                op => op.step(&mut inner).0,
            };
        }
        assert_eq!(port, DropPortOp::Done);
        // The sender is refused if the receiver was gone when it looked.
        match op {
            SendOp::Refused(t) => assert!(closed_at_check && t == 1),
            SendOp::Wake(WakeOp::Done) => assert!(!closed_at_check),
            op => panic!("{op:?}"),
        }
    }
}

#[test]
fn oneshot_multi_thread_recv_close_stress() {
    for order in orders(2, 12) {
        let mut tx = Tx::<i32>::new(vec![], true);
        let mut rx = Rx::new(Context::Thread(thread()), 1);
        run(&order, &mut tx, &mut rx);
        assert!(rx.closed);
    }
}

#[test]
fn oneshot_multi_thread_send_recv_stress() {
    for order in orders(2, 12) {
        let mut tx = Tx::<Box<isize>>::new(vec![Box::new(10)], true);
        let mut rx = Rx::new(Context::Thread(thread()), 1);
        run(&order, &mut tx, &mut rx);
        assert!(*rx.received[0] == 10);
    }
}

/// Once the receiver has found the sender gone it finds it gone for ever.
#[test]
fn closed_is_final() {
    let mut inner = InnerQueue::<i32>::new();
    assert!(inner.send(4).0.is_ok());
    inner.drop_chan();
    assert_eq!(inner.try_recv(), Ok(4));
    for _ in 0..3 {
        assert_eq!(inner.try_recv(), Err(TryRecvError::Disconnected));
    }
}

/// The messages that are thrown away with the receiving half come out one by one.
#[test]
fn discarded_messages_come_out() {
    let mut inner = InnerQueue::<i32>::new();
    assert!(inner.send(1).0.is_ok());
    assert!(inner.send(2).0.is_ok());
    assert_eq!(DropPortOp::Close.step(&mut inner), (DropPortOp::Drain, None));
    // A message is refused as soon as the receiver has begun to go.
    assert_eq!(inner.send(3).0, Err(3));
    assert_eq!(DropPortOp::Drain.step(&mut inner), (DropPortOp::Drain, Some(1)));
    assert_eq!(DropPortOp::Drain.step(&mut inner), (DropPortOp::Drain, Some(2)));
    assert_eq!(DropPortOp::Drain.step(&mut inner), (DropPortOp::Done, None));
}
