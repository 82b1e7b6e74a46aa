use vstd::prelude::*;
use futures::sync::oneshot::Sender;
use crate::error::Outcome;

verus! {

/// The sending half of a oneshot channel of futures 0.1: the single-use
/// completion notifier of a request.
#[verifier::external_type_specification]
#[verifier::external_body]
#[verifier::reject_recursive_types(T)]
pub struct ExSender<T>(futures::sync::oneshot::Sender<T>);

/// Relies on futures::sync::oneshot::Sender::send: it consumes the sender and
/// hands `outcome` to the receiver, returning `Err` when the receiver is
/// already gone. Whether it is gone depends on the other end, so nothing is
/// promised of the result.
#[verifier::external_body]
pub(crate) fn send_outcome(notifier: Sender<Outcome>, outcome: Outcome) -> (delivered: bool) {
    notifier.send(outcome).is_ok()
}

} // verus!
