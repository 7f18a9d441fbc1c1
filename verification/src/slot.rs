//! A place that holds at most one value.
use vstd::prelude::*;

verus! {

/// A place that holds at most one value; whoever takes the value out is the
/// only one to get it.
#[derive(Debug)]
pub struct AtomicOption<T> {
    inner: Option<T>,
}

impl<T> View for AtomicOption<T> {
    type V = Option<T>;

    closed spec fn view(&self) -> Option<T> {
        self.inner
    }
}

impl<T> AtomicOption<T> {
    /// An empty place.
    pub fn none() -> (slot: Self)
        ensures
            slot@ == None::<T>,
    {
        AtomicOption { inner: None }
    }

    /// A place that holds `value`.
    pub fn some(value: T) -> (slot: Self)
        ensures
            slot@ == Some(value),
    {
        AtomicOption { inner: Some(value) }
    }

    /// Puts `value` in and hands back what it displaced.
    pub fn store(&mut self, value: T) -> (displaced: Option<T>)
        ensures
            final(self)@ == Some(value),
            displaced == old(self)@,
    {
        let displaced = self.inner.take();
        self.inner = Some(value);
        displaced
    }

    /// The value, which stays where it is.
    pub fn get(&self) -> (value: Option<&T>)
        ensures
            value == match self@ {
                Some(value) => Some(&value),
                None => None,
            },
    {
        self.inner.as_ref()
    }

    /// Takes the value out.
    pub fn take(&mut self) -> (value: Option<T>)
        ensures
            final(self)@ == None::<T>,
            value == old(self)@,
    {
        self.inner.take()
    }
}

} // verus!
