//! Deferred computations: values that become available when polled.
use vstd::prelude::*;

verus! {

/// The outcome of one poll of a deferred computation.
#[derive(Debug)]
pub enum Poll<T> {
    Ready(T),
    Pending,
}

/// A computation whose output is obtained by polling it until it is ready.
pub trait Deferred: Sized {
    type Output;

    /// What the next poll of this computation yields.
    spec fn next_poll(&self) -> Poll<Self::Output>;

    fn poll(&mut self) -> (r: Poll<Self::Output>)
        ensures
            r == old(self).next_poll(),
    ;
}

/// A computation that is already resolved: its first poll yields the value.
#[derive(Debug)]
pub struct Ready<T> {
    pub value: Option<T>,
}

impl<T> Deferred for Ready<T> {
    type Output = T;

    open spec fn next_poll(&self) -> Poll<T> {
        match self.value {
            Some(v) => Poll::Ready(v),
            None => Poll::Pending,
        }
    }

    fn poll(&mut self) -> (r: Poll<T>)
        ensures
            final(self).value is None,
    {
        match self.value.take() {
            Some(v) => Poll::Ready(v),
            None => Poll::Pending,
        }
    }
}

/// A computation that resolves to `v` on its first poll.
pub fn ready<T>(v: T) -> (r: Ready<T>)
    ensures
        r.value == Some(v),
{
    Ready { value: Some(v) }
}

impl<T> Ready<T> {
    /// The resolved value, if it has not been taken by a poll.
    pub fn into_inner(self) -> (r: Option<T>)
        ensures
            r == self.value,
    {
        self.value
    }
}

} // verus!
