//! The message store of a channel: a first-in, first-out queue of any payload.
//!
//! The order of the messages is kept by a [`may_queue::spsc::Queue`] of slot
//! numbers; the payloads wait in the slots.
use may_queue::spsc::Queue;
use vstd::prelude::*;

verus! {

/// The single-producer, single-consumer block queue of the `may_queue` crate.
#[verifier::external_type_specification]
#[verifier::external_body]
#[verifier::reject_recursive_types(T)]
pub struct ExQueue<T>(Queue<T>);

/// The values that wait in `queue`, the one to be popped next in front.
pub uninterp spec fn queue_contents(queue: Queue<usize>) -> Seq<usize>;

/// `may_queue::spsc::Queue::new`: the new queue holds nothing.
#[verifier::external_body]
fn queue_new() -> (queue: Queue<usize>)
    ensures
        queue_contents(queue) == Seq::<usize>::empty(),
{
    Queue::new()
}

/// `may_queue::spsc::Queue::push`, on a queue that nobody else uses meanwhile:
/// the value is appended behind all that wait.
#[verifier::external_body]
fn queue_push(queue: &mut Queue<usize>, value: usize)
    ensures
        queue_contents(*final(queue)) == queue_contents(*old(queue)).push(value),
{
    queue.push(value)
}

/// `may_queue::spsc::Queue::pop`, on a queue that nobody else uses meanwhile:
/// the front value leaves the queue and is returned; `None` says that there was
/// none.
#[verifier::external_body]
fn queue_pop(queue: &mut Queue<usize>) -> (value: Option<usize>)
    ensures
        queue_contents(*old(queue)).len() == 0 ==> value is None && queue_contents(*final(queue))
            == queue_contents(*old(queue)),
        queue_contents(*old(queue)).len() > 0 ==> value == Some(queue_contents(*old(queue))[0])
            && queue_contents(*final(queue)) == queue_contents(*old(queue)).drop_first(),
{
    queue.pop()
}

/// `may_queue::spsc::Queue::is_empty`, on a queue that nobody else uses
/// meanwhile: whether no value waits.
#[verifier::external_body]
fn queue_is_empty(queue: &Queue<usize>) -> (empty: bool)
    ensures
        empty == (queue_contents(*queue).len() == 0),
{
    queue.is_empty()
}

/// A first-in, first-out queue of payloads.
///
/// A payload waits in one of the `slots`; `order` holds the numbers of the taken
/// slots in the order in which their payloads came, `free` those of the others.
pub struct Fifo<T> {
    order: Queue<usize>,
    slots: Vec<Option<T>>,
    free: Vec<usize>,
}

impl<T> View for Fifo<T> {
    type V = Seq<T>;

    /// The payloads, the one to be popped next in front.
    closed spec fn view(&self) -> Seq<T> {
        let order = queue_contents(self.order);
        Seq::new(order.len(), |i: int| self.slots@[order[i] as int]->0)
    }
}

impl<T> Fifo<T> {
    /// Every slot is either taken and in `order`, or empty and in `free`, and
    /// stands there once.
    pub closed spec fn wf(&self) -> bool {
        let order = queue_contents(self.order);
        &&& order.no_duplicates()
        &&& self.free@.no_duplicates()
        &&& forall|i: int|
            0 <= i < order.len() ==> (#[trigger] order[i]) < self.slots@.len()
                && self.slots@[order[i] as int] is Some
        &&& forall|i: int|
            0 <= i < self.free@.len() ==> (#[trigger] self.free@[i]) < self.slots@.len()
                && self.slots@[self.free@[i] as int] is None
        &&& forall|slot: usize|
            slot < self.slots@.len() ==> order.contains(slot) || #[trigger] self.free@.contains(
                slot,
            )
    }

    /// An empty queue.
    pub fn new() -> (fifo: Self)
        ensures
            fifo.wf(),
            fifo@ == Seq::<T>::empty(),
    {
        Fifo { order: queue_new(), slots: Vec::new(), free: Vec::new() }
    }

    /// Appends `payload` behind all that wait.
    pub fn push(&mut self, payload: T)
        requires
            old(self).wf(),
        ensures
            final(self).wf(),
            final(self)@ == old(self)@.push(payload),
    {
        let ghost order = queue_contents(self.order);
        let slot: usize = match self.free.pop() {
            Some(slot) => {
                proof {
                    assert(old(self).free@[self.free@.len() as int] == slot);
                }
                self.slots.set(slot, Some(payload));
                slot
            },
            None => {
                self.slots.push(Some(payload));
                self.slots.len() - 1
            },
        };
        queue_push(&mut self.order, slot);
        proof {
            assert(!order.contains(slot));
            assert forall|other: usize| other < self.slots@.len() implies order.push(slot).contains(
                other,
            ) || #[trigger] self.free@.contains(other) by {
                if other == slot {
                    assert(order.push(slot)[order.len() as int] == other);
                } else if order.contains(other) {
                    let i = order.index_of(other);
                    assert(order.push(slot)[i] == other);
                } else {
                    assert(old(self).free@.contains(other));
                    let i = old(self).free@.index_of(other);
                    assert(self.free@[i] == other);
                }
            }
            assert(self@ =~= old(self)@.push(payload));
        }
    }

    /// Removes and returns the front payload, if there is one.
    pub fn pop(&mut self) -> (payload: Option<T>)
        requires
            old(self).wf(),
        ensures
            final(self).wf(),
            old(self)@.len() == 0 ==> payload is None && final(self)@ == old(self)@,
            old(self)@.len() > 0 ==> payload == Some(old(self)@[0]) && final(self)@
                == old(self)@.drop_first(),
    {
        let ghost order = queue_contents(self.order);
        match queue_pop(&mut self.order) {
            Some(slot) => {
                let payload = self.slots[slot].take();
                self.free.push(slot);
                proof {
                    assert(order[0] == slot);
                    assert(order.contains(slot));
                    assert forall|other: usize|
                        other < self.slots@.len() implies order.drop_first().contains(other)
                        || #[trigger] self.free@.contains(other) by {
                        if other == slot {
                            assert(self.free@[old(self).free@.len() as int] == other);
                        } else if order.contains(other) {
                            let i = order.index_of(other);
                            assert(order.drop_first()[i - 1] == other);
                        } else {
                            assert(old(self).free@.contains(other));
                            let i = old(self).free@.index_of(other);
                            assert(self.free@[i] == other);
                        }
                    }
                    assert(self@ =~= old(self)@.drop_first());
                }
                payload
            },
            None => None,
        }
    }

    /// Whether nothing waits.
    pub fn is_empty(&self) -> (empty: bool)
        ensures
            empty == (self@.len() == 0),
    {
        queue_is_empty(&self.order)
    }
}

} // verus!
