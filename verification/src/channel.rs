//! The outbound response channel, taken on trust.
//!
//! A request's responses travel over a standard multi-producer channel.
//! Delivery depends on the receiving end, so nothing is promised of a
//! send beyond the shape of its outcome; every decision about *whether*
//! to send is made by verified code before these wrappers are reached.

use std::sync::mpsc::Sender;
use vstd::prelude::*;
use crate::response::{DispatchError, Response};

verus! {

#[verifier::external_type_specification]
#[verifier::external_body]
#[verifier::reject_recursive_types(T)]
pub struct ExSender<T>(Sender<T>);

/// Relies on `std::sync::mpsc::Sender::send`: a non-blocking enqueue that
/// fails exactly when the receiving end has been dropped. Which outcome
/// occurs depends on the receiver, so no more is stated of the result.
#[verifier::external_body]
pub(crate) fn send_response(sender: &Sender<Response>, msg: Response) -> Result<(), DispatchError> {
    match sender.send(msg) {
        Ok(()) => Ok(()),
        Err(_) => Err(DispatchError::ChannelClosed),
    }
}

/// Relies on `std::sync::mpsc::Sender::clone`: the clone feeds the same
/// receiving end as the original.
#[verifier::external_body]
pub(crate) fn clone_sender(sender: &Sender<Response>) -> Sender<Response> {
    sender.clone()
}

} // verus!
