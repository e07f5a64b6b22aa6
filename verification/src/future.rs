//! The suspension adapter: a poll-driven unit of work around a non-blocking
//! operation.
//!
//! The unit owns the operation and nothing else. It performs no waiting of
//! its own: an external scheduler polls it, each poll invokes the wrapped
//! operation exactly once, and the unit reports either the resolved result
//! or that it is not yet complete.

use vstd::prelude::*;

use crate::Error;
use crate::operation::Operation;

verus! {

/// The report a suspension unit makes when polled.
#[derive(Clone, Copy, PartialEq, Eq, Debug)]
pub enum Poll<T> {
    /// The wrapped operation resolved with this result; the unit is complete
    /// and must not be polled again.
    Ready(T),
    /// The wrapped operation made no progress; the scheduler may poll again
    /// at its own discretion.
    Pending,
}

/// The report a poll makes for a given outcome of the wrapped operation: a
/// success or a permanent error completes the unit, the retry signal leaves
/// it pending.
pub open spec fn poll_report<T, E>(r: Result<T, Error<E>>) -> Poll<Result<T, E>> {
    match r {
        Ok(v) => Poll::Ready(Ok(v)),
        Err(Error::Other(e)) => Poll::Ready(Err(e)),
        Err(Error::WouldBlock) => Poll::Pending,
    }
}

/// A non-blocking operation wrapped into a schedulable unit of work.
///
/// Constructed with [`NbFuture::from`]; the wrapped operation has not run
/// when the unit is constructed.
pub struct NbFuture<Op: Operation> {
    /// The wrapped operation, in its current state.
    pub gen: Op,
}

impl<Op: Operation> NbFuture<Op> {
    /// Polls the unit once: invokes the wrapped operation exactly once and
    /// reports whether it resolved.
    ///
    /// After a `Poll::Ready` report the unit is complete and must not be
    /// polled again; dropping it before completion simply stops future
    /// polls.
    pub fn poll(&mut self) -> (r: Poll<Result<Op::Item, Op::Error>>)
        ensures
            final(self).gen == old(self).gen.step(),
            r == poll_report(old(self).gen.outcome()),
    {
        let res = self.gen.invoke();
        match res {
            Ok(v) => Poll::Ready(Ok(v)),
            Err(Error::Other(e)) => Poll::Ready(Err(e)),
            Err(Error::WouldBlock) => Poll::Pending,
        }
    }
}

impl<Op: Operation> From<Op> for NbFuture<Op> {
    fn from(gen: Op) -> NbFuture<Op> {
        NbFuture { gen }
    }
}

impl<Op: Operation> vstd::std_specs::convert::FromSpecImpl<Op> for NbFuture<Op> {
    open spec fn obeys_from_spec() -> bool {
        true
    }

    open spec fn from_spec(v: Op) -> NbFuture<Op> {
        NbFuture { gen: v }
    }
}

} // verus!
