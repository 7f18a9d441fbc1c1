//! Waiters and the words that they are packed into.
use spsc::blocker::{Blocker, CoroutineImpl, Thread, Waiter};

#[test]
fn only_aligned_addresses() {
    assert!(CoroutineImpl::from_raw(0).is_none());
    assert!(CoroutineImpl::from_raw(3).is_none());
    assert!(Thread::from_raw(0).is_none());
    assert!(Thread::from_raw(0x1001).is_none());
    assert_eq!(CoroutineImpl::from_raw(2).unwrap().into_raw(), 2);
    assert_eq!(Thread::from_raw(usize::MAX - 1).unwrap().into_raw(), usize::MAX - 1);
}

#[test]
fn coroutine_goes_in_and_out() {
    let co = CoroutineImpl::from_raw(0x2000).unwrap();
    assert_eq!(Blocker::new_coroutine(co).into_coroutine(), co);
    assert_eq!(Blocker::new_coroutine(co).unpark(), Waiter::Coroutine(co));
    assert_eq!(Blocker::new_coroutine(co).waiter(), Waiter::Coroutine(co));
}

#[test]
fn thread_goes_in_and_out() {
    let thread = Thread::from_raw(0x2000).unwrap();
    assert_eq!(Blocker::new_thread(thread).into_thread(), thread);
    assert_eq!(Blocker::new_thread(thread).unpark(), Waiter::Thread(thread));
    assert_eq!(Blocker::new_thread(thread).waiter(), Waiter::Thread(thread));
    assert_eq!(Blocker::new_thread(thread).drop(), thread);
}

#[test]
fn same_address_different_waiters() {
    let co = CoroutineImpl::from_raw(0x40).unwrap();
    let thread = Thread::from_raw(0x40).unwrap();
    assert_ne!(
        Blocker::new_coroutine(co).unpark(),
        Blocker::new_thread(thread).unpark()
    );
}
