//! A counter actor: a closed set of order-sensitive operations on an `i64`
//! total. This is the crate's own `Action` implementation; the test suite
//! drives a whole mailbox through it.

use vstd::prelude::*;

use crate::action::Action;
use crate::errors::ActorError;

verus! {

/// One operation on the counter, answered with the total it leaves behind.
#[derive(Clone, Copy, Debug, PartialEq, Eq, Structural)]
pub enum CounterAction {
    /// Add `n` to the total and answer the new total.
    Add(i64),
    /// Subtract `n` from the total and answer the new total.
    Subtract(i64),
    /// Answer the current total, leaving it unchanged.
    Get,
}

/// What invoking a counter operation can fail with: the counter's own
/// overflow, or a structural mailbox failure folded in via `From`.
#[derive(Clone, Copy, Debug, PartialEq, Eq, Structural)]
pub enum CounterError {
    /// The new total would leave the range of `i64`; the counter is unchanged.
    Overflow,
    /// The mailbox failed structurally before an answer could be produced.
    Mailbox(ActorError),
}

impl From<ActorError> for CounterError {
    fn from(e: ActorError) -> Self {
        CounterError::Mailbox(e)
    }
}

impl vstd::std_specs::convert::FromSpecImpl<ActorError> for CounterError {
    open spec fn obeys_from_spec() -> bool {
        true
    }

    open spec fn from_spec(e: ActorError) -> Self {
        CounterError::Mailbox(e)
    }
}

impl Action for CounterAction {
    type State = i64;

    type Result = i64;

    type Error = CounterError;

    open spec fn act_spec(self, s: i64) -> (i64, Result<i64, CounterError>) {
        match self {
            CounterAction::Add(n) => if i64::MIN <= s + n <= i64::MAX {
                ((s + n) as i64, Ok((s + n) as i64))
            } else {
                (s, Err(CounterError::Overflow))
            },
            CounterAction::Subtract(n) => if i64::MIN <= s - n <= i64::MAX {
                ((s - n) as i64, Ok((s - n) as i64))
            } else {
                (s, Err(CounterError::Overflow))
            },
            CounterAction::Get => (s, Ok(s)),
        }
    }

    fn act(self, s: &mut i64) -> (r: Result<i64, CounterError>) {
        match self {
            CounterAction::Add(n) => match (*s).checked_add(n) {
                Some(v) => {
                    *s = v;
                    Ok(v)
                },
                None => Err(CounterError::Overflow),
            },
            CounterAction::Subtract(n) => match (*s).checked_sub(n) {
                Some(v) => {
                    *s = v;
                    Ok(v)
                },
                None => Err(CounterError::Overflow),
            },
            CounterAction::Get => Ok(*s),
        }
    }
}

} // verus!
