//! How a coroutine that yields in a receive is registered as the waiter.
use vstd::prelude::*;

use crate::blocker::{Blocker, CoroutineImpl, Waiter};
use crate::inner::{ChannelView, InnerQueue};

verus! {

/// A coroutine's wait in a receive. It lives on the coroutine's stack while the
/// scheduler works on it, so it must outlast the scheduler's use of it even if
/// the coroutine is resumed before.
#[derive(Clone, Copy, Debug, PartialEq, Eq, Structural)]
pub struct Park {
    wait_kernel: bool,
}

impl Park {
    /// Whether the scheduler still uses the wait.
    pub closed spec fn wait_kernel(self) -> bool {
        self.wait_kernel
    }

    /// A wait that the scheduler has yet to take care of.
    pub fn new() -> (park: Park)
        ensures
            park.wait_kernel(),
    {
        Park { wait_kernel: true }
    }

    /// Puts the wait under a guard, whose end ends the scheduler's use of it.
    pub fn delay_drop(self) -> (guard: DropGuard)
        ensures
            guard.park() == self,
    {
        DropGuard { park: self }
    }

    /// Ends the wait, if the scheduler is done with it. If not, the wait comes
    /// back: yield, and try once more.
    pub fn drop(self) -> (park: Option<Park>)
        ensures
            park == if self.wait_kernel() {
                Some(self)
            } else {
                None
            },
    {
        if self.wait_kernel {
            Some(self)
        } else {
            None
        }
    }
}

/// A [`Park`] that the scheduler uses.
#[derive(Debug)]
pub struct DropGuard {
    park: Park,
}

impl DropGuard {
    /// The wait under the guard.
    pub closed spec fn park(&self) -> Park {
        self.park
    }

    /// Ends the scheduler's use of the wait.
    pub fn drop(self) -> (park: Park)
        ensures
            !park.wait_kernel(),
    {
        Park { wait_kernel: false }
    }
}

/// Registering a coroutine that has yielded in a receive.
#[derive(Clone, Copy, Debug, PartialEq, Eq, Structural)]
pub enum ParkOp {
    /// Register the coroutine as the waiter.
    Store(CoroutineImpl),
    /// See whether a message came in before: it woke nobody.
    Recheck,
    /// There is a message: take the waiter back, and run it unless somebody
    /// else wakes it already.
    TakeBack,
    /// End the scheduler's use of the wait.
    Release,
    /// The operation is over.
    Done,
}

/// What a step of `op` does to the channel, what is to be done after it, and
/// which coroutine is to run at once.
pub open spec fn park_step<T>(c: ChannelView<T>, op: ParkOp) -> (
    ChannelView<T>,
    ParkOp,
    Option<Waiter>,
) {
    match op {
        ParkOp::Store(co) => (
            ChannelView { waiter: Some(Waiter::Coroutine(co)), ..c },
            ParkOp::Recheck,
            None,
        ),
        ParkOp::Recheck => (
            c,
            if c.messages.len() > 0 {
                ParkOp::TakeBack
            } else {
                ParkOp::Release
            },
            None,
        ),
        ParkOp::TakeBack => (ChannelView { waiter: None, ..c }, ParkOp::Release, c.waiter),
        _ => (c, op, None),
    }
}

impl ParkOp {
    /// Whether the next step is an access to the channel.
    pub open spec fn on_channel(self) -> bool {
        self is Store || self is Recheck || self is TakeBack
    }

    /// Whether the next step can be made on `c`: a registration finds no other
    /// coroutine registered, and what is taken back is a coroutine.
    pub open spec fn fits<T>(self, c: ChannelView<T>) -> bool {
        &&& self is Store ==> !c.coroutine_waits()
        &&& self is TakeBack ==> c.waiter is None || c.coroutine_waits()
    }

    /// Makes the next access to the channel, and returns which coroutine is to
    /// run at once.
    pub fn step<T>(self, inner: &mut InnerQueue<T>) -> (r: (ParkOp, Option<CoroutineImpl>))
        requires
            old(inner).wf(),
            self.on_channel(),
            self.fits(old(inner)@),
        ensures
            final(inner).wf(),
            final(inner)@ == park_step(old(inner)@, self).0,
            r.0 == park_step(old(inner)@, self).1,
            park_step(old(inner)@, self).2 == match r.1 {
                Some(co) => Some(Waiter::Coroutine(co)),
                None => None,
            },
    {
        match self {
            ParkOp::Store(co) => {
                inner.store_waiter(Blocker::new_coroutine(co));
                (ParkOp::Recheck, None)
            },
            ParkOp::Recheck => if !inner.is_empty() {
                (ParkOp::TakeBack, None)
            } else {
                (ParkOp::Release, None)
            },
            ParkOp::TakeBack => {
                let co = match inner.take_waiter() {
                    Some(blocker) => Some(blocker.into_coroutine()),
                    None => None,
                };
                (ParkOp::Release, co)
            },
            op => (op, None),
        }
    }

    /// Ends the scheduler's use of the wait.
    pub fn release(self, guard: DropGuard) -> (r: (ParkOp, Park))
        requires
            self is Release,
        ensures
            r.0 is Done,
            !r.1.wait_kernel(),
    {
        (ParkOp::Done, guard.drop())
    }
}

impl Park {
    /// Registers the coroutine `co` that has yielded, with nobody else at the
    /// channel meanwhile. If a message waits the coroutine is not registered,
    /// but is to run at once. Either way the scheduler is done with the wait.
    pub fn subscribe<T>(self, inner: &mut InnerQueue<T>, co: CoroutineImpl) -> (r: (
        Park,
        Option<CoroutineImpl>,
    ))
        requires
            old(inner).wf(),
            !old(inner)@.coroutine_waits(),
        ensures
            final(inner).wf(),
            !r.0.wait_kernel(),
            old(inner)@.messages.len() > 0 ==> r.1 == Some(co) && final(inner)@ == (ChannelView {
                waiter: None,
                ..old(inner)@
            }),
            old(inner)@.messages.len() == 0 ==> r.1 is None && final(inner)@ == (ChannelView {
                waiter: Some(Waiter::Coroutine(co)),
                ..old(inner)@
            }),
    {
        let guard = self.delay_drop();
        let (op, _) = ParkOp::Store(co).step(inner);
        let (op, _) = op.step(inner);
        let (op, run) = match op {
            ParkOp::TakeBack => op.step(inner),
            op => (op, None),
        };
        let (_, park) = op.release(guard);
        (park, run)
    }
}

} // verus!
