//! The one-shot cancellation channel that links a stream handle to its
//! cleanup task.
use vstd::prelude::*;

verus! {

#[verifier::external_type_specification]
#[verifier::external_body]
#[verifier::reject_recursive_types(T)]
pub struct ExSender<T>(tokio::sync::oneshot::Sender<T>);

#[verifier::external_type_specification]
#[verifier::external_body]
#[verifier::reject_recursive_types(T)]
pub struct ExReceiver<T>(tokio::sync::oneshot::Receiver<T>);

#[verifier::external_type_specification]
#[verifier::external_body]
pub struct ExRecvError(tokio::sync::oneshot::error::RecvError);

/// Relies on `tokio::sync::oneshot::channel`: a fresh sender and receiver of
/// one channel. Nothing about the pair is visible to the proofs.
pub assume_specification<T>[ tokio::sync::oneshot::channel::<T> ]() -> (
    tokio::sync::oneshot::Sender<T>,
    tokio::sync::oneshot::Receiver<T>,
);

/// Relies on `tokio::sync::oneshot::Sender::send`: when the receiver is gone
/// the value comes back unchanged in `Err`.
pub assume_specification<T>[ tokio::sync::oneshot::Sender::<T>::send ](
    tx: tokio::sync::oneshot::Sender<T>,
    t: T,
) -> (r: Result<(), T>)
    ensures
        r is Err ==> r->Err_0 == t,
;

/// tokio's `TryRecvError` is a plain enum of two unit variants (`Empty`,
/// `Closed`); they are visible here so that verified code can tell them apart.
#[verifier::external_type_specification]
pub struct ExTryRecvError(tokio::sync::oneshot::error::TryRecvError);

/// Relies on `tokio::sync::oneshot::Receiver::try_recv`: the value if one was
/// sent, `Empty` while the sender is still there, `Closed` once it has gone.
/// Which of these comes depends on the other end, so nothing is promised.
pub assume_specification<T>[ tokio::sync::oneshot::Receiver::<T>::try_recv ](
    rx: &mut tokio::sync::oneshot::Receiver<T>,
) -> Result<T, tokio::sync::oneshot::error::TryRecvError>;

/// Opens the cancellation channel of one stream: the sender goes into the
/// stream handle, the receiver to the cleanup task.
pub fn cancellation_channel() -> (r: (
    tokio::sync::oneshot::Sender<()>,
    tokio::sync::oneshot::Receiver<()>,
)) {
    tokio::sync::oneshot::channel::<()>()
}

} // verus!
