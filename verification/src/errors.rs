//! The two structural mailbox failures, kept distinct from user-domain
//! errors: a failed submission and a lost reply.

use vstd::prelude::*;

verus! {

/// A structural failure of the mailbox itself, as opposed to an error
/// produced by an action's own transform.
#[derive(Clone, Copy, Debug, PartialEq, Eq, Structural)]
pub enum ActorError {
    /// The mailbox queue could not accept the action (the consumer side is
    /// already gone). The action never ran.
    InvokeError,
    /// The reply channel was destroyed before delivering an answer. The
    /// action may or may not have run; callers cannot tell these apart.
    WaitError,
}

/// A failed mailbox submission is `InvokeError`, whatever message the
/// queue handed back: the consumer side is gone and the action never ran.
impl<T> From<futures_channel::mpsc::TrySendError<T>> for ActorError {
    fn from(_from: futures_channel::mpsc::TrySendError<T>) -> Self {
        ActorError::InvokeError
    }
}

impl<T> vstd::std_specs::convert::FromSpecImpl<futures_channel::mpsc::TrySendError<T>> for ActorError {
    open spec fn obeys_from_spec() -> bool {
        true
    }

    open spec fn from_spec(_from: futures_channel::mpsc::TrySendError<T>) -> Self {
        ActorError::InvokeError
    }
}

/// A reply channel canceled before delivering an answer is `WaitError`:
/// the action may or may not have run, and callers cannot tell the two
/// apart from this error alone.
impl From<futures_channel::oneshot::Canceled> for ActorError {
    fn from(_from: futures_channel::oneshot::Canceled) -> Self {
        ActorError::WaitError
    }
}

impl vstd::std_specs::convert::FromSpecImpl<futures_channel::oneshot::Canceled> for ActorError {
    open spec fn obeys_from_spec() -> bool {
        true
    }

    open spec fn from_spec(_from: futures_channel::oneshot::Canceled) -> Self {
        ActorError::WaitError
    }
}

impl ActorError {
    /// A short description of the failure, for callers that display errors.
    pub fn message(&self) -> (r: &'static str)
        ensures
            *self == ActorError::InvokeError ==> r@ == "Cannot send message to actor"@,
            *self == ActorError::WaitError ==> r@ == "Cannot wait for an answer"@,
    {
        match self {
            ActorError::InvokeError => "Cannot send message to actor",
            ActorError::WaitError => "Cannot wait for an answer",
        }
    }
}

} // verus!
