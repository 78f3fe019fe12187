//! The calls into `std::sync::mpsc` and `std::sync::Arc` that the senders make.
//!
//! Each function here is trusted, not proved: its doc comment says
//! what its contract claims of the `std` function that it calls.
use std::sync::mpsc::{Receiver, Sender};
use std::sync::Arc;
use vstd::prelude::*;

verus! {

/// The sending half of a `std` channel, held as an opaque value.
#[verifier::external_type_specification]
#[verifier::external_body]
#[verifier::reject_recursive_types(T)]
pub struct ExStdSender<T>(Sender<T>);

/// The receiving half of a `std` channel, held as an opaque value.
#[verifier::external_type_specification]
#[verifier::external_body]
#[verifier::reject_recursive_types(T)]
pub struct ExStdReceiver<T>(Receiver<T>);

/// Calls `std::sync::mpsc::channel`. Nothing is claimed of the two halves
/// beyond their types: the channel's state is not modelled.
#[verifier::external_body]
pub(crate) fn std_channel<T>() -> (Sender<T>, Receiver<T>) {
    std::sync::mpsc::channel()
}

/// Calls `std::sync::mpsc::Sender::send`, which never blocks. `std` hands
/// the value back inside its `SendError` when the receiving half has been
/// dropped; this wrapper returns that value as `Err(value)`. Whether the
/// receiver is still there is decided outside the program, so the contract
/// states only what holds of both outcomes: a value handed back is the value
/// that was sent.
#[verifier::external_body]
pub(crate) fn std_send<T>(sender: &Sender<T>, value: T) -> (r: Result<(), T>)
    ensures
        r matches Err(back) ==> back == value,
{
    match sender.send(value) {
        Ok(()) => Ok(()),
        Err(e) => Err(e.0),
    }
}

/// Calls `Clone::clone` on a `std::sync::mpsc::Sender`, which gives another
/// handle on the same channel, sending exactly as the original does. A
/// `Sender` is opaque here; the contract claims the clone equal to the
/// original, since nothing of a `Sender` but its channel can be observed.
#[verifier::external_body]
pub(crate) fn std_sender_clone<T>(sender: &Sender<T>) -> (r: Sender<T>)
    ensures
        r == *sender,
{
    sender.clone()
}

/// Calls `Clone::clone` on an `Arc`, which returns another pointer to the
/// same allocation: the result shares the value of the original.
#[verifier::external_body]
pub(crate) fn arc_share<F>(a: &Arc<F>) -> (r: Arc<F>)
    ensures
        *r == **a,
{
    a.clone()
}

} // verus!
