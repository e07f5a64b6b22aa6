//! Ready-made operations and conditions with fully determined behavior.
//!
//! These stand in for the hardware flag polls and deadline checks a real
//! caller would wrap: a counter that becomes ready after a fixed number of
//! invocations, an operation that replays a fixed script of outcomes, and a
//! continuation predicate that grants a fixed retry budget. They are handy
//! as test doubles and as worked examples of the [`Operation`] and
//! [`Condition`] contracts.

use vstd::prelude::*;

use crate::Error;
use crate::operation::{Condition, Operation};

verus! {

/// An operation that reports the retry signal while an internal counter is
/// below a threshold, incrementing the counter each time, and succeeds with
/// a fixed value on every invocation made once the counter has reached the
/// threshold.
#[derive(Clone, Copy, PartialEq, Eq, Debug)]
pub struct CounterOp {
    /// How many retry invocations have been made so far; never exceeds
    /// `threshold`.
    pub count: u32,
    /// The number of invocations that report the retry signal before the
    /// operation becomes ready.
    pub threshold: u32,
    /// The value the operation succeeds with once ready.
    pub value: u32,
}

impl Operation for CounterOp {
    type Item = u32;

    type Error = core::convert::Infallible;

    open spec fn outcome(&self) -> Result<u32, Error<core::convert::Infallible>> {
        if self.count < self.threshold {
            Err(Error::WouldBlock)
        } else {
            Ok(self.value)
        }
    }

    open spec fn step(&self) -> CounterOp {
        if self.count < self.threshold {
            CounterOp { count: (self.count + 1) as u32, threshold: self.threshold, value: self.value }
        } else {
            *self
        }
    }

    fn invoke(&mut self) -> (r: Result<u32, Error<core::convert::Infallible>>) {
        if self.count < self.threshold {
            self.count = self.count + 1;
            Err(Error::WouldBlock)
        } else {
            Ok(self.value)
        }
    }
}

/// An operation that replays a fixed script of outcomes: invocation `n`
/// reports the `n`-th scripted outcome, and once the script is exhausted
/// every further invocation reports the retry signal.
pub struct ScriptedOp {
    /// The outcomes to report, in order.
    pub script: Vec<Result<u32, Error<u8>>>,
    /// How many invocations have been made so far; never exceeds the script
    /// length.
    pub pos: usize,
}

impl Operation for ScriptedOp {
    type Item = u32;

    type Error = u8;

    open spec fn outcome(&self) -> Result<u32, Error<u8>> {
        if self.pos < self.script.len() {
            self.script[self.pos as int]
        } else {
            Err(Error::WouldBlock)
        }
    }

    open spec fn step(&self) -> ScriptedOp {
        if self.pos < self.script.len() {
            ScriptedOp { script: self.script, pos: (self.pos + 1) as usize }
        } else {
            ScriptedOp { script: self.script, pos: self.pos }
        }
    }

    fn invoke(&mut self) -> (r: Result<u32, Error<u8>>) {
        if self.pos < self.script.len() {
            let out = self.script[self.pos];
            self.pos = self.pos + 1;
            out
        } else {
            Err(Error::WouldBlock)
        }
    }
}

/// A continuation predicate that grants a fixed budget of retries: it
/// evaluates to true as long as the budget is not spent, and spends one unit
/// per evaluation.
#[derive(Clone, Copy, PartialEq, Eq, Debug)]
pub struct RetryBudget {
    /// How many more evaluations will come out true.
    pub remaining: u32,
}

impl Condition for RetryBudget {
    open spec fn holds(&self) -> bool {
        self.remaining > 0
    }

    open spec fn step(&self) -> RetryBudget {
        if self.remaining > 0 {
            RetryBudget { remaining: (self.remaining - 1) as u32 }
        } else {
            RetryBudget { remaining: self.remaining }
        }
    }

    fn eval(&mut self) -> (b: bool) {
        if self.remaining > 0 {
            self.remaining = self.remaining - 1;
            true
        } else {
            false
        }
    }
}

} // verus!
