//! Minimal primitives for non-blocking operations.
//!
//! A non-blocking operation reports one of three outcomes on every
//! invocation: it succeeded, it failed permanently, or it made no progress
//! and must be invoked again later. The third outcome is the distinguished
//! error value [`Error::WouldBlock`]; it is a control signal, not a failure,
//! and is consumed by the adapters in [`block`] and [`future`] rather than
//! surfaced to the caller.

pub mod block;
pub mod future;
pub mod io;
pub mod laws;
pub mod mock;
pub mod operation;

pub use crate::block::{block, block_while};
pub use crate::future::{NbFuture, Poll};

use vstd::prelude::*;

verus! {

/// A non-blocking error.
///
/// The main use of this enum is to add a `WouldBlock` variant to an existing
/// error enum: an operation returns `Result<T, Error<E>>`, where `E` is its
/// own permanent-error type.
#[derive(Clone, Copy, PartialEq, Eq, PartialOrd, Ord, Hash, Debug)]
pub enum Error<E> {
    /// A different kind of error: the operation failed permanently.
    Other(E),
    /// This operation requires blocking behavior to complete; retry later.
    WouldBlock,
}

impl<E> Error<E> {
    /// Maps an `Error<E>` to `Error<T>` by applying a function to a contained
    /// `Error::Other` value, leaving an `Error::WouldBlock` value untouched.
    pub fn map<T, F: FnOnce(E) -> T>(self, op: F) -> (r: Error<T>)
        requires
            self matches Error::Other(e) ==> call_requires(op, (e,)),
        ensures
            self is WouldBlock ==> r is WouldBlock,
            self matches Error::Other(e) ==> (r matches Error::Other(t) && call_ensures(
                op,
                (e,),
                t,
            )),
    {
        match self {
            Error::Other(e) => Error::Other(op(e)),
            Error::WouldBlock => Error::WouldBlock,
        }
    }
}

impl<E> From<E> for Error<E> {
    fn from(error: E) -> Error<E> {
        Error::Other(error)
    }
}

impl<E> vstd::std_specs::convert::FromSpecImpl<E> for Error<E> {
    open spec fn obeys_from_spec() -> bool {
        true
    }

    open spec fn from_spec(v: E) -> Error<E> {
        Error::Other(v)
    }
}

/// Re-types the error of a non-blocking outcome by applying a function to a
/// contained `Error::Other` value, leaving `Ok` values and `Error::WouldBlock`
/// untouched. In particular the retry signal is never turned into a failure,
/// and a success is returned exactly as it was.
pub fn map_error<T, E, E2, F: FnOnce(E) -> E2>(outcome: Result<T, Error<E>>, op: F) -> (r: Result<
    T,
    Error<E2>,
>)
    requires
        outcome matches Err(Error::Other(e)) ==> call_requires(op, (e,)),
    ensures
        outcome matches Ok(v) ==> r == Ok::<T, Error<E2>>(v),
        outcome matches Err(Error::WouldBlock) ==> r == Err::<T, Error<E2>>(Error::WouldBlock),
        outcome matches Err(Error::Other(e)) ==> (r matches Err(Error::Other(e2))
            && call_ensures(op, (e,), e2)),
{
    match outcome {
        Ok(v) => Ok(v),
        Err(e) => Err(e.map(op)),
    }
}

} // verus!
