//! Blocking adapters: spin until a non-blocking operation resolves.

use vstd::prelude::*;

use crate::Error;
use crate::operation::{
    Condition, Operation, after_calls, after_evals, is_retry, lemma_resolution_steps,
    resolution_steps, resolves, resolves_at, settle,
};

verus! {

/// Turns a non-blocking operation into a blocking one.
///
/// The operation is invoked repeatedly, immediately and with no delay, until
/// it no longer reports `Error::WouldBlock`. The first resolved outcome is
/// returned with the non-blocking wrapper stripped: `Ok(v)` for a success,
/// `Err(e)` for a permanent error.
///
/// The caller must show that the operation eventually resolves: on an
/// operation that reports the retry signal forever this adapter would spin
/// forever, and a verified function proves its own termination.
///
/// The contract pins the loop down exactly: the operation is invoked once
/// per retry it reports plus once for the resolving invocation, and the
/// result is the resolving outcome itself.
pub fn block<Op: Operation>(op: &mut Op) -> (r: Result<Op::Item, Op::Error>)
    requires
        resolves(*old(op)),
    ensures
        resolves_at(*old(op), resolution_steps(*old(op))),
        *final(op) == after_calls(*old(op), resolution_steps(*old(op)) + 1),
        r == settle(after_calls(*old(op), resolution_steps(*old(op))).outcome()),
{
    let ghost mut i: nat = 0;
    proof {
        assert(resolves_at(*old(op), resolution_steps(*old(op))));
    }
    loop
        invariant
            *op == after_calls(*old(op), i),
            forall|j: nat| j < i ==> is_retry((#[trigger] after_calls(*old(op), j)).outcome()),
            resolves_at(*old(op), resolution_steps(*old(op))),
            i <= resolution_steps(*old(op)),
        decreases resolution_steps(*old(op)) - i,
    {
        let res = op.invoke();
        match res {
            Ok(v) => {
                proof {
                    lemma_resolution_steps(*old(op), i);
                }
                return Ok(v);
            },
            Err(Error::Other(e)) => {
                proof {
                    lemma_resolution_steps(*old(op), i);
                }
                return Err(e);
            },
            Err(Error::WouldBlock) => {
                proof {
                    assert(is_retry(after_calls(*old(op), i).outcome()));
                    i = i + 1;
                }
            },
        }
    }
}

/// Round `j` of the conditional-retry loop goes on to another round: the
/// operation reports the retry signal and the continuation predicate then
/// evaluates to true.
pub open spec fn keeps_going<Op: Operation, C: Condition>(op: Op, c: C, j: nat) -> bool {
    is_retry(after_calls(op, j).outcome()) && after_evals(c, j).holds()
}

/// The conditional-retry loop runs exactly `i + 1` rounds: every round
/// before `i` goes on, and round `i` stops, either because the operation
/// resolved or because the predicate gave out.
pub open spec fn stops_at<Op: Operation, C: Condition>(op: Op, c: C, i: nat) -> bool {
    &&& forall|j: nat| j < i ==> #[trigger] keeps_going(op, c, j)
    &&& !keeps_going(op, c, i)
}

/// The conditional-retry loop stops in some round: the operation resolves,
/// or the predicate gives out first.
pub open spec fn stops<Op: Operation, C: Condition>(op: Op, c: C) -> bool {
    exists|i: nat| stops_at(op, c, i)
}

/// The round in which the conditional-retry loop stops; meaningful only when
/// it stops at all.
pub open spec fn stop_round<Op: Operation, C: Condition>(op: Op, c: C) -> nat {
    choose|i: nat| stops_at(op, c, i)
}

/// The conditional-retry loop stops in at most one round.
pub proof fn lemma_stops_at_unique<Op: Operation, C: Condition>(op: Op, c: C, i1: nat, i2: nat)
    requires
        stops_at(op, c, i1),
        stops_at(op, c, i2),
    ensures
        i1 == i2,
{
    if i1 < i2 {
        assert(keeps_going(op, c, i1));
    }
    if i2 < i1 {
        assert(keeps_going(op, c, i2));
    }
}

/// If the conditional-retry loop stops in round `i`, then `i` is its stop
/// round.
pub proof fn lemma_stop_round<Op: Operation, C: Condition>(op: Op, c: C, i: nat)
    requires
        stops_at(op, c, i),
    ensures
        stop_round(op, c) == i,
{
    lemma_stops_at_unique(op, c, i, stop_round(op, c));
}

/// Turns a non-blocking operation into a blocking one bounded by a
/// continuation predicate.
///
/// Behaves like [`block`], except that whenever the operation reports
/// `Error::WouldBlock` the predicate is evaluated afresh: if it is true the
/// loop goes on, and if it is false the adapter gives up and reports
/// `Err(Error::WouldBlock)` to the caller — a third outcome, distinct from
/// success and from permanent failure. The retry signal thus reaches the
/// caller only to say that the predicate gave out while the operation was
/// still unresolved.
///
/// The caller must show that the loop stops in some round — that the
/// operation eventually resolves or the predicate eventually gives out —
/// since a verified function proves its own termination.
///
/// The contract pins the rounds down exactly: in every round the operation
/// is invoked once; the predicate is evaluated once per round whose
/// invocation reported a retry, and never after it has evaluated to false.
pub fn block_while<Op: Operation, C: Condition>(op: &mut Op, c: &mut C) -> (r: Result<
    Op::Item,
    Error<Op::Error>,
>)
    requires
        stops(*old(op), *old(c)),
    ensures
        ({
            let i = stop_round(*old(op), *old(c));
            &&& stops_at(*old(op), *old(c), i)
            &&& *final(op) == after_calls(*old(op), i + 1)
            &&& if is_retry(after_calls(*old(op), i).outcome()) {
                &&& r == Err::<Op::Item, Error<Op::Error>>(Error::WouldBlock)
                &&& !after_evals(*old(c), i).holds()
                &&& *final(c) == after_evals(*old(c), i + 1)
            } else {
                &&& r == after_calls(*old(op), i).outcome()
                &&& *final(c) == after_evals(*old(c), i)
            }
        }),
{
    let ghost mut i: nat = 0;
    proof {
        assert(stops_at(*old(op), *old(c), stop_round(*old(op), *old(c))));
    }
    loop
        invariant
            *op == after_calls(*old(op), i),
            *c == after_evals(*old(c), i),
            forall|j: nat| j < i ==> #[trigger] keeps_going(*old(op), *old(c), j),
            stops_at(*old(op), *old(c), stop_round(*old(op), *old(c))),
            i <= stop_round(*old(op), *old(c)),
        decreases stop_round(*old(op), *old(c)) - i,
    {
        let res = op.invoke();
        match res {
            Ok(v) => {
                proof {
                    lemma_stop_round(*old(op), *old(c), i);
                }
                return Ok(v);
            },
            Err(Error::Other(e)) => {
                proof {
                    lemma_stop_round(*old(op), *old(c), i);
                }
                return Err(Error::Other(e));
            },
            Err(Error::WouldBlock) => {
                if c.eval() {
                    proof {
                        assert(keeps_going(*old(op), *old(c), i));
                        i = i + 1;
                    }
                } else {
                    proof {
                        lemma_stop_round(*old(op), *old(c), i);
                    }
                    return Err(Error::WouldBlock);
                }
            },
        }
    }
}

} // verus!
