//! Calls into other crates and into parts of the standard library that the
//! verifier has no specification for. The contracts in this file are taken
//! on trust: each one restates what the called function documents.

use tokio::sync::oneshot::error::RecvError;
use tokio::sync::oneshot::Receiver;
use tokio::sync::oneshot::Sender;
use vstd::prelude::*;

verus! {

/// The sending half of tokio's one-shot channel, carried through as it is.
#[verifier::external_type_specification]
#[verifier::external_body]
#[verifier::reject_recursive_types(T)]
pub struct ExSender<T>(Sender<T>);

/// The receiving half of tokio's one-shot channel, carried through as it is.
#[verifier::external_type_specification]
#[verifier::external_body]
#[verifier::reject_recursive_types(T)]
pub struct ExReceiver<T>(Receiver<T>);

/// What awaiting the receiving half gives where the sending half is gone.
#[verifier::external_type_specification]
#[verifier::external_body]
pub struct ExRecvError(RecvError);

/// `tokio::sync::oneshot::channel` returns the two halves of a new channel.
/// Nothing is claimed about them.
pub assume_specification<T>[ tokio::sync::oneshot::channel::<T> ]() -> (halves: (
    Sender<T>,
    Receiver<T>,
));

/// `Sender::send` hands the value over or gives it back. Which of the two
/// happens depends on whether the receiving half is still there, so nothing
/// is claimed about the result.
pub assume_specification<T>[ Sender::<T>::send ](sender: Sender<T>, value: T) -> (outcome: Result<
    (),
    T,
>);

/// The number of `hyper::StatusCode::NOT_IMPLEMENTED`, read with `as_u16`.
/// The constant is declared as 501 and `as_u16` returns the declared number.
#[verifier::external_body]
pub(crate) fn not_implemented_status() -> (code: u16)
    ensures
        code == 501,
{
    hyper::StatusCode::NOT_IMPLEMENTED.as_u16()
}

/// `==` of `str`: two string slices are equal exactly when they hold the
/// same characters in the same order.
#[verifier::external_body]
pub(crate) fn same_text(left: &str, right: &str) -> (same: bool)
    ensures
        same == (left@ == right@),
{
    left == right
}

} // verus!
