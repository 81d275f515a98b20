//! The cloneable, thread-safe handle through which arbitrarily many
//! concurrent callers submit actions into the mailbox and await their
//! individual replies.

use vstd::prelude::*;

use crate::errors::ActorError;

verus! {

/// What an invocation finally resolves to: the action's own result, or an
/// error — the action's own, or a structural one folded in by the caller's
/// `From` mapping.
pub type ActResult<R, E> = Result<R, E>;

/// The receiving end of one invocation's reply channel; awaiting it is the
/// only suspension an invocation involves.
pub type ReplyReceiver<R, E> = futures_channel::oneshot::Receiver<Result<R, E>>;

/// The consuming end of the mailbox queue: the runtime loop dequeues
/// `(action, reply sender)` pairs from it until no producer is left.
pub type MailboxReceiver<A, R, E> = futures_channel::mpsc::UnboundedReceiver<
    (A, futures_channel::oneshot::Sender<Result<R, E>>),
>;

type ActorSenderInner<A, R, E> = futures_channel::mpsc::UnboundedSender<
    (A, futures_channel::oneshot::Sender<Result<R, E>>),
>;

/// A cloneable capability to enqueue actions into one mailbox. It carries
/// no state of its own beyond the queue handle; all clones address the same
/// runtime loop and the same owned state.
#[derive(Debug)]
#[verifier::reject_recursive_types(A)]
#[verifier::reject_recursive_types(R)]
#[verifier::reject_recursive_types(E)]
pub struct ActorSender<A, R, E>(ActorSenderInner<A, R, E>);

impl<A, R, E> Clone for ActorSender<A, R, E> {
    /// Constant-time: shares the same mailbox, never creates a new one.
    fn clone(&self) -> Self {
        ActorSender(self.0.clone())
    }
}

/// Create a mailbox: the handle callers clone and share, and the receiving
/// end the runtime loop consumes. The embedder schedules the loop onto its
/// execution context; building the pair itself involves no suspension.
pub fn mailbox<A, R, E>() -> (ActorSender<A, R, E>, MailboxReceiver<A, R, E>) {
    let (tx, rx) = futures_channel::mpsc::unbounded();
    (ActorSender(tx), rx)
}

impl<A, R, E> ActorSender<A, R, E> {
    /// Submit one action, moved in, pairing it with a fresh one-shot reply
    /// channel. Returns without suspending:
    ///
    /// - `Ok(receiver)`: the enqueue has committed, so the action will be
    ///   applied even if the receiver is dropped without ever being awaited
    ///   (fire-and-forget); awaiting it yields the action's own outcome, or
    ///   `Canceled` when the runtime exited between dequeue and reply.
    /// - `Err(InvokeError)`: the mailbox no longer accepts submissions (the
    ///   runtime loop is already gone); the action never ran, and this is
    ///   the only structural failure the submission path can produce.
    pub fn invoke(&self, action: A) -> (r: Result<ReplyReceiver<R, E>, ActorError>)
        ensures
            r matches Err(e) ==> e == ActorError::InvokeError,
    {
        let (tx, rx) = futures_channel::oneshot::channel();
        match self.0.unbounded_send((action, tx)) {
            Ok(()) => Ok(rx),
            Err(e) => Err(ActorError::from(e)),
        }
    }
}

/// Classify what awaiting the reply receiver produced. A delivered outcome
/// — the action's own result or its own error — passes through verbatim,
/// untouched by the mailbox layer; a canceled channel (the runtime loop was
/// destroyed before answering; the action may or may not have run) becomes
/// exactly `WaitError`.
pub fn settle_reply<R, E>(
    received: Result<Result<R, E>, futures_channel::oneshot::Canceled>,
) -> (r: Result<Result<R, E>, ActorError>)
    ensures
        received matches Ok(outcome) ==> r == Ok::<Result<R, E>, ActorError>(outcome),
        received matches Err(_) ==> r == Err::<Result<R, E>, ActorError>(ActorError::WaitError),
{
    match received {
        Ok(outcome) => Ok(outcome),
        Err(c) => Err(ActorError::from(c)),
    }
}

/// Fold a structural failure into the caller's own error type, through the
/// `From` mapping the caller supplies; a delivered outcome — success or
/// user-domain error alike — is returned untouched.
pub fn into_act_result<R, E: From<ActorError>>(
    settled: Result<Result<R, E>, ActorError>,
) -> (r: ActResult<R, E>)
    ensures
        settled matches Ok(outcome) ==> r == outcome,
        settled matches Err(a) ==> (<E as vstd::std_specs::convert::FromSpec<
            ActorError,
        >>::obeys_from_spec() ==> r == Err::<R, E>(
            <E as vstd::std_specs::convert::FromSpec<ActorError>>::from_spec(a),
        )),
{
    match settled {
        Ok(outcome) => outcome,
        Err(a) => Err(E::from(a)),
    }
}

} // verus!
