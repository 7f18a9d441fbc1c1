//! Timed receives in a coroutine, with producer, consumer, scheduler and timer
//! acting step by step, in many orders.
use std::collections::HashMap;

use spsc::blocker::{CoroutineImpl, Waiter};
use spsc::error::RecvError;
use spsc::inner::{CellId, InnerQueue};
use spsc::park::{DropGuard, Park};
use spsc::recv::{Context, TryOp};
use spsc::send::{DropChanOp, SendOp, WakeOp};
use spsc::timeout::{SubscribeOp, TimedCoOp, TimedOp, Timeout, WaitEnd};

const LONG: Timeout = Timeout { secs: 5, nanos: 0 };

fn co() -> CoroutineImpl {
    CoroutineImpl::from_raw(0x2000).unwrap()
}

struct World {
    inner: InnerQueue<i32>,
    /// What is in each cell.
    cells: HashMap<usize, CoroutineImpl>,
    timers: Vec<CellId>,
    runnable: bool,
    timed_out: bool,
    // The producer.
    to_send: Vec<i32>,
    sending: Option<SendOp<i32>>,
    dropping: Option<DropChanOp>,
    // The consumer.
    op: Option<TimedOp<i32>>,
    suspended: bool,
    next_cell: usize,
    park: Park,
    results: Vec<Result<i32, RecvError>>,
    // The scheduler.
    subscribing: SubscribeOp,
    guard: Option<DropGuard>,
}

impl World {
    fn new(mut to_send: Vec<i32>) -> Self {
        to_send.reverse();
        World {
            inner: InnerQueue::new(),
            cells: HashMap::new(),
            timers: Vec::new(),
            runnable: false,
            timed_out: false,
            to_send,
            sending: None,
            dropping: None,
            op: None,
            suspended: false,
            next_cell: 0,
            park: Park::new(),
            results: Vec::new(),
            subscribing: SubscribeOp::Done,
            guard: None,
        }
    }

    fn schedule(&mut self, co: Option<CoroutineImpl>) {
        if co.is_some() {
            // Nobody schedules the coroutine twice, or while it runs.
            assert!(self.suspended && !self.runnable);
            self.runnable = true;
        }
    }

    fn wake(&mut self, op: WakeOp) -> WakeOp {
        let (next, waiter) = match op {
            WakeOp::TakeCell(cell) => op.resume(self.cells.remove(&cell.addr)),
            WakeOp::Done => (op, None),
            op => op.step(&mut self.inner),
        };
        match waiter {
            Some(Waiter::Coroutine(co)) => self.schedule(Some(co)),
            Some(Waiter::Thread(_)) => panic!("there is no thread"),
            None => {}
        }
        next
    }

    fn producer(&mut self) -> bool {
        if let Some(op) = self.dropping {
            self.dropping = Some(match op {
                DropChanOp::Wake(WakeOp::Done) => return false,
                DropChanOp::Wake(op) => DropChanOp::Wake(self.wake(op)),
                op => op.step(&mut self.inner).0,
            });
            return true;
        }
        match self.sending.take() {
            None => match self.to_send.pop() {
                Some(t) => self.sending = Some(SendOp::Check(t)),
                None => self.dropping = Some(DropChanOp::Close),
            },
            Some(SendOp::Wake(WakeOp::Done)) => {}
            Some(SendOp::Wake(op)) => self.sending = Some(SendOp::Wake(self.wake(op))),
            Some(op) => self.sending = Some(op.step(&mut self.inner).0),
        }
        true
    }

    fn is_closed(&self) -> bool {
        self.results.last() == Some(&Err(RecvError::Disconnected))
    }

    fn consumer(&mut self) -> bool {
        if self.is_closed() {
            return false;
        }
        match self.op.take() {
            None => {
                self.op = Some(TimedOp::QuickTry(Context::Coroutine, LONG, TryOp::FirstPop));
            }
            Some(TimedOp::Done(data)) | Some(TimedOp::Co(TimedCoOp::Done(data))) => {
                self.results.push(data);
            }
            Some(TimedOp::Co(TimedCoOp::Yielded(timeout))) => {
                let op = TimedOp::Co(TimedCoOp::Yielded(timeout));
                if self.runnable {
                    self.runnable = false;
                    self.suspended = false;
                    let end = if self.timed_out {
                        WaitEnd::TimedOut
                    } else {
                        WaitEnd::Woken(LONG)
                    };
                    self.op = Some(op.resume(end));
                } else {
                    self.op = Some(op);
                    if self.suspended {
                        return false;
                    }
                    // The scheduler is done with the wait before.
                    assert_eq!(self.subscribing, SubscribeOp::Done);
                    self.suspended = true;
                    self.timed_out = false;
                    self.next_cell += 1;
                    let cell = CellId { addr: self.next_cell };
                    self.cells.insert(cell.addr, co());
                    self.park = Park::new();
                    self.guard = Some(self.park.delay_drop());
                    self.subscribing = SubscribeOp::AddTimer(timeout, cell);
                }
            }
            Some(TimedOp::Co(TimedCoOp::AwaitKernel(end))) => {
                let wait_kernel = self.park.drop().is_some();
                let op = TimedOp::Co(TimedCoOp::AwaitKernel(end));
                self.op = Some(op.kernel_seen(wait_kernel));
                return !wait_kernel;
            }
            Some(op) => self.op = Some(op.step(&mut self.inner)),
        }
        true
    }

    fn scheduler(&mut self) -> bool {
        let op = self.subscribing;
        self.subscribing = match op {
            SubscribeOp::Done => return false,
            SubscribeOp::Release => {
                let (op, park) = op.release(self.guard.take().unwrap());
                self.park = park;
                op
            }
            SubscribeOp::AddTimer(_, cell) => {
                self.timers.push(cell);
                op.resume(false)
            }
            SubscribeOp::Run(cell) => {
                let co = self.cells.remove(&cell.addr);
                self.schedule(co);
                op.resume(false)
            }
            SubscribeOp::SetCancel(_) | SubscribeOp::CheckCancel(_) => op.resume(false),
            op => op.step(&mut self.inner),
        };
        true
    }

    /// The oldest timer fires.
    fn timer(&mut self) -> bool {
        if self.timers.is_empty() {
            return false;
        }
        let cell = self.timers.remove(0);
        let co = self.cells.remove(&cell.addr);
        self.timed_out = self.timed_out || co.is_some();
        self.schedule(co);
        true
    }

    /// Runs in this order as long as it lasts; then producer, consumer and
    /// scheduler take turns until nobody can act.
    fn run(&mut self, order: &[u8]) {
        for who in order {
            match who {
                0 => self.producer(),
                1 => self.consumer(),
                2 => self.scheduler(),
                _ => self.timer(),
            };
        }
        while self.producer() | self.consumer() | self.scheduler() {}
    }
}

/// Calls `run` with all orders of `len` acts of `parties` parties.
fn for_all_orders(parties: u8, len: usize, run: impl Fn(&[u8])) {
    let mut order = vec![0u8; len];
    loop {
        run(&order);
        let mut i = 0;
        while i < len && order[i] == parties - 1 {
            order[i] = 0;
            i += 1;
        }
        if i == len {
            return;
        }
        order[i] += 1;
    }
}

/// Without a timer that fires, every message comes, and then the loss of the
/// sender: no wakeup is lost, and neither is reported otherwise.
#[test]
fn timed_coroutine_wakes_in_every_order() {
    for_all_orders(3, 10, |order| {
        // The consumer is about to wait.
        let mut world = World::new(vec![7]);
        for _ in 0..5 {
            world.consumer();
        }
        world.run(order);
        assert_eq!(
            world.results,
            vec![Ok(7), Err(RecvError::Disconnected)],
            "{order:?}"
        );
    });
}

/// From the beginning, with two messages.
#[test]
fn timed_coroutine_receives_all_in_every_order() {
    for_all_orders(3, 11, |order| {
        let mut world = World::new(vec![7, 8]);
        world.run(order);
        assert_eq!(
            world.results,
            vec![Ok(7), Ok(8), Err(RecvError::Disconnected)],
            "{order:?}"
        );
    });
}

/// With timers that fire at any moment: a timeout comes in between, but nothing
/// is lost.
#[test]
fn timers_lose_nothing_in_every_order() {
    for_all_orders(4, 9, |order| {
        let mut world = World::new(vec![7]);
        for _ in 0..6 {
            world.consumer();
        }
        world.run(order);
        let fired = order.iter().filter(|who| **who == 3).count();
        let timeouts = world
            .results
            .iter()
            .filter(|data| **data == Err(RecvError::Timeout))
            .count();
        assert!(timeouts <= fired, "{order:?}");
        world.results.retain(|data| *data != Err(RecvError::Timeout));
        assert_eq!(
            world.results,
            vec![Ok(7), Err(RecvError::Disconnected)],
            "{order:?}"
        );
    });
}

/// Once the producer and the registration are done, a coroutine that waits and
/// has a cause to go on is to be run; the scheduler does not use its wait any
/// more.
#[test]
fn coroutine_with_cause_is_run() {
    for_all_orders(2, 11, |order| {
        let mut world = World::new(vec![7]);
        while !world.suspended {
            world.consumer();
        }
        for who in order {
            if *who == 0 {
                world.producer();
            } else {
                world.scheduler();
            }
        }
        while world.producer() | world.scheduler() {}
        assert!(world.suspended && world.runnable, "{order:?}");
        assert_eq!(world.park.drop(), None);
    });
}
