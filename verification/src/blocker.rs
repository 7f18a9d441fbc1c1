//! Who waits on a channel, and how a waiter is packed into one word.
use vstd::prelude::*;

verus! {

/// The address of a suspended coroutine.
///
/// Coroutines are word-aligned heap objects, so the address is even and not
/// null.
#[derive(Clone, Copy, Debug, PartialEq, Eq, Structural)]
pub struct CoroutineImpl {
    raw: usize,
}

impl View for CoroutineImpl {
    type V = usize;

    closed spec fn view(&self) -> usize {
        self.raw
    }
}

impl CoroutineImpl {
    #[verifier::type_invariant]
    spec fn wf(&self) -> bool {
        is_aligned(self.raw)
    }

    /// The coroutine at `raw`, if that can be the address of one.
    pub fn from_raw(raw: usize) -> (co: Option<CoroutineImpl>)
        ensures
            co is Some <==> is_aligned(raw),
            co matches Some(co) ==> co@ == raw,
    {
        if raw != 0 && raw & 1 == 0 {
            Some(CoroutineImpl { raw })
        } else {
            None
        }
    }

    /// The address of the coroutine.
    pub fn into_raw(self) -> (raw: usize)
        ensures
            raw == self@,
            is_aligned(raw),
    {
        proof {
            use_type_invariant(&self);
        }
        self.raw
    }
}

/// The address of a boxed thread handle, which is even and not null.
#[derive(Clone, Copy, Debug, PartialEq, Eq, Structural)]
pub struct Thread {
    raw: usize,
}

impl View for Thread {
    type V = usize;

    closed spec fn view(&self) -> usize {
        self.raw
    }
}

impl Thread {
    #[verifier::type_invariant]
    spec fn wf(&self) -> bool {
        is_aligned(self.raw)
    }

    /// The thread handle at `raw`, if that can be the address of one.
    pub fn from_raw(raw: usize) -> (thread: Option<Thread>)
        ensures
            thread is Some <==> is_aligned(raw),
            thread matches Some(thread) ==> thread@ == raw,
    {
        if raw != 0 && raw & 1 == 0 {
            Some(Thread { raw })
        } else {
            None
        }
    }

    /// The address of the thread handle.
    pub fn into_raw(self) -> (raw: usize)
        ensures
            raw == self@,
            is_aligned(raw),
    {
        proof {
            use_type_invariant(&self);
        }
        self.raw
    }
}

/// Whether `raw` can be the address of a heap object that is at least two bytes
/// aligned.
pub open spec fn is_aligned(raw: usize) -> bool {
    raw != 0 && raw & 1 == 0
}

/// One that waits to be woken.
#[derive(Clone, Copy, Debug, PartialEq, Eq, Structural)]
pub enum Waiter {
    /// A suspended coroutine, woken by handing it to the scheduler.
    Coroutine(CoroutineImpl),
    /// A thread, woken by unparking it.
    Thread(Thread),
}

/// A waiter in one word: its address, with the lowest bit set for a thread.
#[derive(Debug)]
pub struct Blocker {
    handle: usize,
}

impl View for Blocker {
    type V = Waiter;

    closed spec fn view(&self) -> Waiter {
        if self.handle & 1 == 0 {
            Waiter::Coroutine(CoroutineImpl { raw: self.handle })
        } else {
            Waiter::Thread(Thread { raw: self.handle & !1 })
        }
    }
}

impl Blocker {
    #[verifier::type_invariant]
    spec fn wf(&self) -> bool {
        self.handle & !1 != 0
    }

    /// The word.
    pub closed spec fn word(&self) -> usize {
        self.handle
    }

    /// Packs a coroutine.
    pub fn new_coroutine(co: CoroutineImpl) -> (blocker: Blocker)
        ensures
            blocker@ == Waiter::Coroutine(co),
            blocker.word() == co@,
    {
        proof {
            use_type_invariant(&co);
            let raw = co.raw;
            assert(raw != 0 && raw & 1 == 0 ==> raw & !1 != 0) by (bit_vector);
        }
        Blocker { handle: co.raw }
    }

    /// Packs a thread.
    pub fn new_thread(thread: Thread) -> (blocker: Blocker)
        ensures
            blocker@ == Waiter::Thread(thread),
            blocker.word() == thread@ | 1,
    {
        let raw: usize = thread.raw;
        proof {
            use_type_invariant(&thread);
            assert(raw != 0 && raw & 1 == 0 ==> (raw | 1) & !1 == raw && (raw | 1) & 1 == 1)
                by (bit_vector);
        }
        Blocker { handle: raw | 1 }
    }

    /// Unpacks a coroutine.
    pub fn into_coroutine(self) -> (co: CoroutineImpl)
        requires
            self@ is Coroutine,
        ensures
            self@ == Waiter::Coroutine(co),
    {
        let handle: usize = self.handle;
        proof {
            use_type_invariant(&self);
            assert(handle & !1 != 0 ==> handle != 0) by (bit_vector);
        }
        CoroutineImpl { raw: handle }
    }

    /// Unpacks a thread.
    pub fn into_thread(self) -> (thread: Thread)
        requires
            self@ is Thread,
        ensures
            self@ == Waiter::Thread(thread),
    {
        let handle: usize = self.handle;
        proof {
            use_type_invariant(&self);
            assert((handle & !1) & 1 == 0) by (bit_vector);
        }
        Thread { raw: handle & !1 }
    }

    /// Unpacks the waiter that is to be woken: a coroutine goes to the
    /// scheduler, a thread is unparked.
    pub fn unpark(self) -> (waiter: Waiter)
        ensures
            waiter == self@,
    {
        if self.handle & 1 == 0 {
            Waiter::Coroutine(self.into_coroutine())
        } else {
            Waiter::Thread(self.into_thread())
        }
    }

    /// The waiter, which stays packed.
    pub fn waiter(&self) -> (waiter: Waiter)
        ensures
            waiter == self@,
    {
        proof {
            use_type_invariant(self);
        }
        Blocker { handle: self.handle }.unpark()
    }

    /// Gives up a blocker that nobody is to wake through any more, and returns
    /// the thread handle that goes with it. A coroutine would never run again,
    /// so its blocker must not be dropped.
    pub fn drop(self) -> (thread: Thread)
        requires
            self@ is Thread,
        ensures
            self@ == Waiter::Thread(thread),
    {
        self.into_thread()
    }
}

/// The word tells who waits: its lowest bit tells a thread from a coroutine, and
/// two waiters with the same word are the same.
pub proof fn law_word_tells_waiter(a: Blocker, b: Blocker)
    ensures
        a@ is Coroutine <==> a.word() & 1 == 0,
        a.word() == b.word() ==> a@ == b@,
{
}

} // verus!
