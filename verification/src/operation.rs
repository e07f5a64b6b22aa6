//! The model of a non-blocking operation.
//!
//! An operation is a state machine: every invocation produces an outcome
//! determined by the current state and advances the state by one step. The
//! spec functions here describe the trajectory an operation follows when an
//! adapter invokes it repeatedly, so that each adapter can state exactly how
//! many invocations it performs and what it returns.

use vstd::prelude::*;

use crate::Error;

verus! {

/// A non-blocking operation.
///
/// Each invocation returns `Ok(v)` on completion, `Err(Error::Other(e))` on
/// permanent failure, or `Err(Error::WouldBlock)` when no progress was made
/// and the operation must be invoked again later.
///
/// The two spec functions form the mathematical model of the operation:
/// `outcome` is the result the next invocation will report and `step` is the
/// state the operation moves to when invoked once. `invoke` must behave
/// exactly as this model says.
pub trait Operation: Sized {
    /// The value produced on completion.
    type Item;

    /// An enumeration of possible permanent errors.
    ///
    /// May be `core::convert::Infallible` for operations that can only ever
    /// succeed or ask to be retried.
    type Error;

    /// The outcome the next invocation will report, as a function of the
    /// current state.
    spec fn outcome(&self) -> Result<Self::Item, Error<Self::Error>>;

    /// The state after one invocation.
    spec fn step(&self) -> Self;

    /// Invokes the operation once.
    fn invoke(&mut self) -> (r: Result<Self::Item, Error<Self::Error>>)
        ensures
            r == old(self).outcome(),
            *final(self) == old(self).step(),
    ;
}

/// A continuation predicate for the conditional-retry adapter.
///
/// The predicate is re-evaluated on every retry and may depend on mutable
/// state of its own (a deadline, a retry budget), so it is modeled the same
/// way as an operation: `holds` is the value the next evaluation will report
/// and `step` is the state after one evaluation.
pub trait Condition: Sized {
    /// The value the next evaluation will report.
    spec fn holds(&self) -> bool;

    /// The state after one evaluation.
    spec fn step(&self) -> Self;

    /// Evaluates the predicate once.
    fn eval(&mut self) -> (b: bool)
        ensures
            b == old(self).holds(),
            *final(self) == old(self).step(),
    ;
}

/// Whether an outcome is the retry signal.
pub open spec fn is_retry<T, E>(r: Result<T, Error<E>>) -> bool {
    r == Err::<T, Error<E>>(Error::WouldBlock)
}

/// Turns a resolved (non-retry) outcome into a plain result, as the adapters
/// report it: a success stays a success and a permanent error is propagated
/// verbatim, stripped of the non-blocking wrapper.
pub open spec fn settle<T, E>(r: Result<T, Error<E>>) -> Result<T, E>
    recommends
        !is_retry(r),
{
    match r {
        Ok(v) => Ok(v),
        Err(Error::Other(e)) => Err(e),
        Err(Error::WouldBlock) => vstd::pervasive::arbitrary(),
    }
}

/// The state of an operation after `n` invocations.
pub open spec fn after_calls<Op: Operation>(op: Op, n: nat) -> Op
    decreases n,
{
    if n == 0 {
        op
    } else {
        after_calls(op, (n - 1) as nat).step()
    }
}

/// The state of a condition after `n` evaluations.
pub open spec fn after_evals<C: Condition>(c: C, n: nat) -> C
    decreases n,
{
    if n == 0 {
        c
    } else {
        after_evals(c, (n - 1) as nat).step()
    }
}

/// The operation reports the retry signal on its first `k` invocations and
/// resolves (succeeds or fails permanently) on invocation `k`.
pub open spec fn resolves_at<Op: Operation>(op: Op, k: nat) -> bool {
    &&& forall|j: nat| j < k ==> is_retry((#[trigger] after_calls(op, j)).outcome())
    &&& !is_retry(after_calls(op, k).outcome())
}

/// The operation eventually resolves.
pub open spec fn resolves<Op: Operation>(op: Op) -> bool {
    exists|k: nat| resolves_at(op, k)
}

/// The number of retries the operation reports before resolving; meaningful
/// only when the operation resolves at all.
pub open spec fn resolution_steps<Op: Operation>(op: Op) -> nat {
    choose|k: nat| resolves_at(op, k)
}

/// An operation resolves after at most one number of retries.
pub proof fn lemma_resolves_at_unique<Op: Operation>(op: Op, k1: nat, k2: nat)
    requires
        resolves_at(op, k1),
        resolves_at(op, k2),
    ensures
        k1 == k2,
{
    if k1 < k2 {
        assert(is_retry(after_calls(op, k1).outcome()));
    }
    if k2 < k1 {
        assert(is_retry(after_calls(op, k2).outcome()));
    }
}

/// If the operation resolves after `k` retries, then `k` is its resolution
/// step count.
pub proof fn lemma_resolution_steps<Op: Operation>(op: Op, k: nat)
    requires
        resolves_at(op, k),
    ensures
        resolves(op),
        resolution_steps(op) == k,
{
    assert(resolves(op));
    lemma_resolves_at_unique(op, k, resolution_steps(op));
}

} // verus!
