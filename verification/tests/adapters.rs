use nb::Error;
use nb::block::{block, block_while};
use nb::future::{NbFuture, Poll};
use nb::mock::{CounterOp, RetryBudget, ScriptedOp};

#[test]
fn block_returns_an_immediate_success_after_one_invocation() {
    let mut op = ScriptedOp { script: vec![Ok(5)], pos: 0 };
    assert_eq!(block(&mut op), Ok(5));
    assert_eq!(op.pos, 1);
}

#[test]
fn block_returns_an_immediate_failure_after_one_invocation() {
    let mut op = ScriptedOp { script: vec![Err(Error::Other(7))], pos: 0 };
    assert_eq!(block(&mut op), Err(7));
    assert_eq!(op.pos, 1);
}

#[test]
fn block_retries_until_success() {
    let mut op = ScriptedOp {
        script: vec![
            Err(Error::WouldBlock),
            Err(Error::WouldBlock),
            Ok(9),
        ],
        pos: 0,
    };
    assert_eq!(block(&mut op), Ok(9));
    assert_eq!(op.pos, 3);
}

#[test]
fn block_retries_until_failure() {
    let mut op = ScriptedOp {
        script: vec![Err(Error::WouldBlock), Err(Error::Other(3))],
        pos: 0,
    };
    assert_eq!(block(&mut op), Err(3));
    assert_eq!(op.pos, 2);
}

#[test]
fn block_drives_a_counter_to_readiness() {
    let mut op = CounterOp { count: 0, threshold: 3, value: 42 };
    assert_eq!(block(&mut op), Ok(42));
    assert_eq!(op.count, 3);
}

#[test]
fn block_makes_exactly_one_invocation_per_retry_plus_one() {
    let mut op = ScriptedOp {
        script: vec![
            Err(Error::WouldBlock),
            Err(Error::WouldBlock),
            Err(Error::WouldBlock),
            Ok(42),
        ],
        pos: 0,
    };
    assert_eq!(block(&mut op), Ok(42));
    assert_eq!(op.pos, 4);
}

#[test]
fn block_while_returns_an_immediate_success_without_consulting_the_predicate() {
    let mut op = ScriptedOp { script: vec![Ok(5)], pos: 0 };
    let mut budget = RetryBudget { remaining: 5 };
    assert_eq!(block_while(&mut op, &mut budget), Ok(5));
    assert_eq!(op.pos, 1);
    assert_eq!(budget.remaining, 5);
}

#[test]
fn block_while_returns_an_immediate_failure_without_consulting_the_predicate() {
    let mut op = ScriptedOp { script: vec![Err(Error::Other(7))], pos: 0 };
    let mut budget = RetryBudget { remaining: 5 };
    assert_eq!(block_while(&mut op, &mut budget), Err(Error::Other(7)));
    assert_eq!(op.pos, 1);
    assert_eq!(budget.remaining, 5);
}

#[test]
fn block_while_retries_while_the_predicate_holds() {
    let mut op = ScriptedOp {
        script: vec![Err(Error::WouldBlock), Ok(5)],
        pos: 0,
    };
    let mut budget = RetryBudget { remaining: 3 };
    assert_eq!(block_while(&mut op, &mut budget), Ok(5));
    assert_eq!(op.pos, 2);
    assert_eq!(budget.remaining, 2);
}

#[test]
fn block_while_gives_up_once_the_predicate_fails() {
    let mut op = ScriptedOp {
        script: vec![
            Err(Error::WouldBlock),
            Err(Error::WouldBlock),
            Err(Error::WouldBlock),
            Err(Error::WouldBlock),
        ],
        pos: 0,
    };
    let mut budget = RetryBudget { remaining: 2 };
    assert_eq!(block_while(&mut op, &mut budget), Err(Error::WouldBlock));
    // one invocation per predicate evaluation, none after the false one
    assert_eq!(op.pos, 3);
    assert_eq!(budget.remaining, 0);
}

#[test]
fn poll_reports_an_immediate_success_on_the_first_poll() {
    let op = ScriptedOp { script: vec![Ok(5)], pos: 0 };
    let mut unit = NbFuture::from(op);
    assert_eq!(unit.poll(), Poll::Ready(Ok(5)));
    assert_eq!(unit.gen.pos, 1);
}

#[test]
fn poll_reports_an_immediate_failure_on_the_first_poll() {
    let op = ScriptedOp { script: vec![Err(Error::Other(7))], pos: 0 };
    let mut unit = NbFuture::from(op);
    assert_eq!(unit.poll(), Poll::Ready(Err(7)));
}

#[test]
fn poll_reports_pending_while_the_operation_retries() {
    let op = CounterOp { count: 0, threshold: 1, value: 7 };
    let mut unit = NbFuture::from(op);
    assert_eq!(unit.poll(), Poll::Pending);
    assert_eq!(unit.gen.count, 1);
    assert_eq!(unit.poll(), Poll::Ready(Ok(7)));
}

#[test]
fn poll_of_a_ready_unit_completes_at_once() {
    let op = CounterOp { count: 3, threshold: 3, value: 42 };
    let mut unit = NbFuture::from(op);
    assert_eq!(unit.poll(), Poll::Ready(Ok(42)));
}
