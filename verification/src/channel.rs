//! Trusted boundary around `futures_channel`: the multi-producer queue that
//! carries submissions to the runtime loop, and the per-invocation one-shot
//! channel that carries a reply back to its caller.
//!
//! Both channels are shared between concurrently running parties, so what a
//! call returns depends on the other side's progress; each contract states
//! only what holds of every outcome.

use vstd::prelude::*;

verus! {

#[verifier::external_type_specification]
#[verifier::external_body]
#[verifier::reject_recursive_types(T)]
pub struct ExUnboundedSender<T>(futures_channel::mpsc::UnboundedSender<T>);

#[verifier::external_type_specification]
#[verifier::external_body]
#[verifier::reject_recursive_types(T)]
pub struct ExUnboundedReceiver<T>(futures_channel::mpsc::UnboundedReceiver<T>);

#[verifier::external_type_specification]
#[verifier::external_body]
#[verifier::reject_recursive_types(T)]
pub struct ExTrySendError<T>(futures_channel::mpsc::TrySendError<T>);

#[verifier::external_type_specification]
#[verifier::external_body]
#[verifier::reject_recursive_types(T)]
pub struct ExOneshotSender<T>(futures_channel::oneshot::Sender<T>);

#[verifier::external_type_specification]
#[verifier::external_body]
#[verifier::reject_recursive_types(T)]
pub struct ExOneshotReceiver<T>(futures_channel::oneshot::Receiver<T>);

#[verifier::external_type_specification]
#[verifier::external_body]
pub struct ExCanceled(futures_channel::oneshot::Canceled);

/// Relies on futures_channel::mpsc::unbounded: returns the two ends of a
/// fresh multi-producer, single-consumer queue. What either end later
/// accepts or yields depends on the other end's fate, so nothing is promised
/// of the pair itself.
pub assume_specification<T>[ futures_channel::mpsc::unbounded::<T> ]() -> (r: (
    futures_channel::mpsc::UnboundedSender<T>,
    futures_channel::mpsc::UnboundedReceiver<T>,
));

/// Relies on futures_channel::mpsc::UnboundedSender::unbounded_send:
/// enqueues the message, or fails when the receiving end is already gone.
/// Which of the two happens depends on the consumer's fate at call time, so
/// neither outcome can be promised.
pub assume_specification<T>[ futures_channel::mpsc::UnboundedSender::<T>::unbounded_send ](
    tx: &futures_channel::mpsc::UnboundedSender<T>,
    msg: T,
) -> Result<(), futures_channel::mpsc::TrySendError<T>>;

/// Relies on futures_channel::mpsc::UnboundedSender's Clone impl: a clone
/// addresses the same queue, so this is how a handle is shared.
pub assume_specification<T>[ <futures_channel::mpsc::UnboundedSender<T> as Clone>::clone ](
    tx: &futures_channel::mpsc::UnboundedSender<T>,
) -> futures_channel::mpsc::UnboundedSender<T>;

/// Relies on futures_channel::oneshot::channel: returns the two ends of a
/// fresh single-producer, single-consumer, one-shot channel.
pub assume_specification<T>[ futures_channel::oneshot::channel::<T> ]() -> (r: (
    futures_channel::oneshot::Sender<T>,
    futures_channel::oneshot::Receiver<T>,
));

/// Relies on futures_channel::oneshot::Sender::send: enqueues the value for
/// the receiver, returning `Ok(())`; or, when the receiving end was already
/// dropped, hands the value back unchanged as `Err(t)`.
pub assume_specification<T>[ futures_channel::oneshot::Sender::<T>::send ](
    tx: futures_channel::oneshot::Sender<T>,
    t: T,
) -> (r: Result<(), T>)
    ensures
        r matches Err(v) ==> v == t,
;

} // verus!
