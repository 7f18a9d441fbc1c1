//! The state that the two halves of a channel share.
use vstd::prelude::*;

use crate::blocker::{Blocker, Waiter};
use crate::fifo::Fifo;
use crate::slot::AtomicOption;

verus! {

/// The address of the cell in which a coroutine is kept while it waits with a
/// timer. The timer, the cancel handle and the channel all know the cell;
/// whichever takes the coroutine out first wakes it.
#[derive(Clone, Copy, Debug, PartialEq, Eq, Structural)]
pub struct CellId {
    /// The address.
    pub addr: usize,
}

/// The state of a channel at one moment.
#[verifier::ext_equal]
pub struct ChannelView<T> {
    /// The messages that were sent and not yet received, the oldest in front.
    pub messages: Seq<T>,
    /// Who is to be woken by the next send or by the loss of the sender.
    pub waiter: Option<Waiter>,
    /// The cell of the coroutine that waits with a timer.
    pub timed: Option<CellId>,
    /// The number of senders.
    pub channels: usize,
    /// Whether the receiver is gone.
    pub port_dropped: bool,
}

impl<T> ChannelView<T> {
    /// The state after the front message has been taken out.
    pub open spec fn popped(self) -> Self {
        ChannelView { messages: self.messages.drop_first(), ..self }
    }

    /// Whether a coroutine is registered as the waiter.
    pub open spec fn coroutine_waits(self) -> bool {
        self.waiter matches Some(Waiter::Coroutine(_))
    }
}

/// The state of a new channel: one sender, one receiver, nothing sent and nobody
/// waiting.
pub open spec fn new_channel<T>() -> ChannelView<T> {
    ChannelView {
        messages: Seq::empty(),
        waiter: None,
        timed: None,
        channels: 1,
        port_dropped: false,
    }
}

/// The state that the two halves of a channel share. Every method is one access
/// that other parties see as a whole.
pub struct InnerQueue<T> {
    queue: Fifo<T>,
    wait_co: AtomicOption<Blocker>,
    timeout_wait: AtomicOption<CellId>,
    channels: usize,
    port_dropped: bool,
}

impl<T> View for InnerQueue<T> {
    type V = ChannelView<T>;

    closed spec fn view(&self) -> ChannelView<T> {
        ChannelView {
            messages: self.queue@,
            waiter: match self.wait_co@ {
                Some(blocker) => Some(blocker@),
                None => None,
            },
            timed: self.timeout_wait@,
            channels: self.channels,
            port_dropped: self.port_dropped,
        }
    }
}

impl<T> InnerQueue<T> {
    /// The message queue is well-formed.
    pub closed spec fn wf(&self) -> bool {
        self.queue.wf()
    }

    /// The state of a new channel.
    pub fn new() -> (inner: InnerQueue<T>)
        ensures
            inner.wf(),
            inner@ == new_channel::<T>(),
    {
        InnerQueue {
            queue: Fifo::new(),
            wait_co: AtomicOption::none(),
            timeout_wait: AtomicOption::none(),
            channels: 1,
            port_dropped: false,
        }
    }

    /// The registered waiter, which stays registered.
    pub fn waiter(&self) -> (waiter: Option<Waiter>)
        ensures
            waiter == self@.waiter,
    {
        match self.wait_co.get() {
            Some(blocker) => Some(blocker.waiter()),
            None => None,
        }
    }

    /// Appends a message.
    pub(crate) fn push(&mut self, t: T)
        requires
            old(self).wf(),
        ensures
            final(self).wf(),
            final(self)@ == (ChannelView { messages: old(self)@.messages.push(t), ..old(self)@ }),
    {
        self.queue.push(t);
    }

    /// Takes the oldest message out.
    pub(crate) fn pop(&mut self) -> (t: Option<T>)
        requires
            old(self).wf(),
        ensures
            final(self).wf(),
            old(self)@.messages.len() == 0 ==> t is None && final(self)@ == old(self)@,
            old(self)@.messages.len() > 0 ==> t == Some(old(self)@.messages[0]) && final(self)@
                == old(self)@.popped(),
    {
        self.queue.pop()
    }

    /// Whether no message waits.
    pub(crate) fn is_empty(&self) -> (empty: bool)
        ensures
            empty == (self@.messages.len() == 0),
    {
        self.queue.is_empty()
    }

    /// The number of senders.
    pub(crate) fn channels(&self) -> (channels: usize)
        ensures
            channels == self@.channels,
    {
        self.channels
    }

    /// Records that the sender is gone.
    pub(crate) fn close_channels(&mut self)
        requires
            old(self).wf(),
        ensures
            final(self).wf(),
            final(self)@ == (ChannelView { channels: 0, ..old(self)@ }),
    {
        self.channels = 0;
    }

    /// Whether the receiver is gone.
    pub(crate) fn port_dropped(&self) -> (dropped: bool)
        ensures
            dropped == self@.port_dropped,
    {
        self.port_dropped
    }

    /// Records that the receiver is gone.
    pub(crate) fn close_port(&mut self)
        requires
            old(self).wf(),
        ensures
            final(self).wf(),
            final(self)@ == (ChannelView { port_dropped: true, ..old(self)@ }),
    {
        self.port_dropped = true;
    }

    /// Registers the waiter. One that was registered before is forgotten, which
    /// must not happen to a coroutine.
    pub(crate) fn store_waiter(&mut self, blocker: Blocker)
        requires
            old(self).wf(),
            !old(self)@.coroutine_waits(),
        ensures
            final(self).wf(),
            final(self)@ == (ChannelView { waiter: Some(blocker@), ..old(self)@ }),
    {
        if let Some(stale) = self.wait_co.store(blocker) {
            stale.drop();
        }
    }

    /// Takes the registered waiter out.
    pub(crate) fn take_waiter(&mut self) -> (blocker: Option<Blocker>)
        requires
            old(self).wf(),
        ensures
            final(self).wf(),
            final(self)@ == (ChannelView { waiter: None, ..old(self)@ }),
            match blocker {
                Some(blocker) => old(self)@.waiter == Some(blocker@),
                None => old(self)@.waiter is None,
            },
    {
        self.wait_co.take()
    }

    /// Forgets the registered waiter, which must not happen to a coroutine.
    pub(crate) fn clear_waiter(&mut self)
        requires
            old(self).wf(),
            !old(self)@.coroutine_waits(),
        ensures
            final(self).wf(),
            final(self)@ == (ChannelView { waiter: None, ..old(self)@ }),
    {
        if let Some(stale) = self.wait_co.take() {
            stale.drop();
        }
    }

    /// Registers the cell of a coroutine that waits with a timer.
    pub(crate) fn store_timed(&mut self, cell: CellId)
        requires
            old(self).wf(),
        ensures
            final(self).wf(),
            final(self)@ == (ChannelView { timed: Some(cell), ..old(self)@ }),
    {
        self.timeout_wait.store(cell);
    }

    /// Takes the registered cell out.
    pub(crate) fn take_timed(&mut self) -> (cell: Option<CellId>)
        requires
            old(self).wf(),
        ensures
            final(self).wf(),
            final(self)@ == (ChannelView { timed: None, ..old(self)@ }),
            cell == old(self)@.timed,
    {
        self.timeout_wait.take()
    }
}

} // verus!
