//! Laws the adapters obey, stated once over the operation model.
//!
//! Each adapter's own contract speaks of the round in which its loop stops
//! ([`resolution_steps`], [`stop_round`]). The lemmas here compute that
//! round from direct facts about an operation's outcomes, so that a caller
//! who knows how the operation behaves can read off what every adapter
//! returns and exactly how many invocations it makes.

use vstd::prelude::*;

use crate::Error;
use crate::block::{keeps_going, lemma_stop_round, stop_round, stops, stops_at};
use crate::future::{Poll, poll_report};
use crate::operation::{
    Condition, Operation, after_calls, after_evals, is_retry, lemma_resolution_steps,
    resolution_steps, resolves, settle,
};

verus! {

/// An operation that succeeds on its first invocation is not invoked a
/// second time by any adapter, and every adapter reports the success value.
///
/// With the contract of [`crate::block::block`] this says the adapter
/// invokes the operation exactly once and returns `Ok(v)`; with the contract
/// of [`crate::block::block_while`], that it stops in its first round
/// without evaluating the predicate and returns `Ok(v)`; with the contract
/// of [`crate::future::NbFuture::poll`], that the first poll reports
/// completion with `Ok(v)`.
pub proof fn lemma_immediate_success<Op: Operation, C: Condition>(op: Op, c: C, v: Op::Item)
    requires
        op.outcome() == Ok::<Op::Item, Error<Op::Error>>(v),
    ensures
        resolves(op),
        resolution_steps(op) == 0,
        after_calls(op, 0) == op,
        after_calls(op, 1) == op.step(),
        settle(op.outcome()) == Ok::<Op::Item, Op::Error>(v),
        stops(op, c),
        stop_round(op, c) == 0,
        !is_retry(op.outcome()),
        after_evals(c, 0) == c,
        poll_report(op.outcome()) == Poll::Ready(Ok::<Op::Item, Op::Error>(v)),
{
    assert(crate::operation::resolves_at(op, 0));
    lemma_resolution_steps(op, 0);
    assert(stops_at(op, c, 0));
    lemma_stop_round(op, c, 0);
}

/// An operation that fails permanently on its first invocation is not
/// invoked again by any adapter, its error is propagated verbatim, and it is
/// never treated as the retry signal.
///
/// With the adapters' contracts this says: the immediate-retry adapter
/// invokes the operation exactly once and returns `Err(e)`; the
/// conditional-retry adapter stops in its first round without evaluating the
/// predicate and returns `Err(Error::Other(e))`, never the give-up report;
/// the first poll of a suspension unit reports completion with `Err(e)`,
/// not `Poll::Pending`.
pub proof fn lemma_immediate_failure<Op: Operation, C: Condition>(op: Op, c: C, e: Op::Error)
    requires
        op.outcome() == Err::<Op::Item, Error<Op::Error>>(Error::Other(e)),
    ensures
        resolves(op),
        resolution_steps(op) == 0,
        after_calls(op, 0) == op,
        after_calls(op, 1) == op.step(),
        settle(op.outcome()) == Err::<Op::Item, Op::Error>(e),
        stops(op, c),
        stop_round(op, c) == 0,
        !is_retry(op.outcome()),
        after_evals(c, 0) == c,
        poll_report(op.outcome()) == Poll::Ready(Err::<Op::Item, Op::Error>(e)),
{
    assert(crate::operation::resolves_at(op, 0));
    lemma_resolution_steps(op, 0);
    assert(stops_at(op, c, 0));
    lemma_stop_round(op, c, 0);
}

/// An operation that reports the retry signal on its first `k` invocations
/// and then succeeds resolves after exactly `k` retries: with the contract
/// of [`crate::block::block`], the adapter invokes it exactly `k + 1` times
/// and returns `Ok(v)`.
pub proof fn lemma_retries_then_success<Op: Operation>(op: Op, k: nat, v: Op::Item)
    requires
        forall|j: nat| j < k ==> is_retry((#[trigger] after_calls(op, j)).outcome()),
        after_calls(op, k).outcome() == Ok::<Op::Item, Error<Op::Error>>(v),
    ensures
        resolves(op),
        resolution_steps(op) == k,
        settle(after_calls(op, k).outcome()) == Ok::<Op::Item, Op::Error>(v),
{
    assert(crate::operation::resolves_at(op, k));
    lemma_resolution_steps(op, k);
}

/// If the continuation predicate gives out in round `i` while the operation
/// has reported nothing but the retry signal, the conditional-retry adapter
/// gives up in that round: with the contract of
/// [`crate::block::block_while`], it reports `Err(Error::WouldBlock)`, has
/// invoked the operation exactly `i + 1` times — once per predicate
/// evaluation — and evaluates the predicate never again after it came out
/// false.
pub proof fn lemma_gives_up<Op: Operation, C: Condition>(op: Op, c: C, i: nat)
    requires
        forall|j: nat| j <= i ==> is_retry((#[trigger] after_calls(op, j)).outcome()),
        forall|j: nat| j < i ==> (#[trigger] after_evals(c, j)).holds(),
        !after_evals(c, i).holds(),
    ensures
        stops(op, c),
        stop_round(op, c) == i,
        is_retry(after_calls(op, i).outcome()),
{
    assert forall|j: nat| j < i implies #[trigger] keeps_going(op, c, j) by {
        assert(is_retry(after_calls(op, j).outcome()));
    }
    assert(!keeps_going(op, c, i));
    assert(stops_at(op, c, i));
    lemma_stop_round(op, c, i);
}

} // verus!
