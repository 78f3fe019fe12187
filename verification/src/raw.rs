//! The sender that ends in a `std` channel, and `channel`, which makes one.
use crate::sender::{err_only_if_lost, CloneAlike, ExtSender, TransformableSender};
use crate::std_channel::{std_channel, std_send, std_sender_clone};
use std::sync::mpsc::{Receiver, Sender};
use vstd::prelude::*;

verus! {

/// Creates a new asynchronous channel, returning the sender/receiver halves.
/// All data sent on the sender will become available on the receiver, and no
/// send will block the calling thread (this channel has an "infinite buffer").
///
/// The receiver is `std`'s own; the sender holds the `std` sender that was
/// made with it, and behaves as it does, except that its error value is `()`.
pub fn channel<T>() -> (r: (RawSender<T>, Receiver<T>)) where T: Send + 'static
    ensures
        std_pair(r.0.std_sender_view(), r.1),
{
    let (tx, rx) = std_channel();
    (RawSender { std_sender: tx }, rx)
}

/// `tx` and `rx` may be the two halves that one call of
/// `std::sync::mpsc::channel` made.
pub closed spec fn std_pair<T>(tx: Sender<T>, rx: Receiver<T>) -> bool {
    call_ensures(std_channel::<T>, (), (tx, rx))
}

/// `res` may be what `std::sync::mpsc::Sender::send` returns when `sender`
/// is asked to send `value`: `Ok` if the value went into the channel, `Err`
/// with the value back if the receiver was gone.
pub closed spec fn std_sends<T>(sender: Sender<T>, value: T, res: Result<(), T>) -> bool {
    call_ensures(std_send::<T>, (&sender, value), res)
}

/// An implementation of `ExtSender` directly on top of
/// `std::sync::mpsc::Sender` and with the same performance.
#[verifier::reject_recursive_types(T)]
pub struct RawSender<T> where T: Send + 'static {
    std_sender: Sender<T>,
}

impl<T> RawSender<T> where T: Send + 'static {
    /// The `std` sender that this sender hands its values to.
    pub closed spec fn std_sender_view(&self) -> Sender<T> {
        self.std_sender
    }
}

impl<T> ExtSender<T> for RawSender<T> where T: Send + 'static {
    /// One hand-over: `msg` itself is handed to this sender's `std` sender;
    /// the hand-over is accepted, and the send succeeds, exactly when `std`
    /// returns `Ok`.
    open spec fn sends(&self, msg: T, handovers: Seq<bool>, res: Result<(), ()>) -> bool {
        &&& handovers.len() == 1
        &&& exists|std_res: Result<(), T>|
            std_sends(self.std_sender_view(), msg, std_res) && (handovers[0] <==> std_res is Ok) && (
            res is Ok <==> std_res is Ok)
    }

    /// Any value can be handed to a `std` sender.
    open spec fn accepts(&self, msg: T) -> bool {
        true
    }

    /// Lets the wrapped `Sender` send the value. Discards error values.
    fn send(&self, t: T) -> (r: Result<(), ()>) {
        let ghost msg = t;
        let std_res = std_send(&self.std_sender, t);
        assert(std_sends(self.std_sender_view(), msg, std_res));
        match std_res {
            Ok(()) => {
                let ghost h = seq![true];
                assert(self.sends(msg, h, Ok(())) && err_only_if_lost(h, Ok(())));
                Ok(())
            },
            Err(_) => {
                let ghost h = seq![false];
                assert(self.sends(msg, h, Err(())));
                assert(err_only_if_lost(h, Err(())));
                Err(())
            },
        }
    }
}

impl<T> Clone for RawSender<T> where T: Send + 'static {
    /// Another sender holding the same `std` sender; it sends as this one
    /// does.
    fn clone(&self) -> (r: Self)
        ensures
            r.std_sender_view() == self.std_sender_view(),
            forall|t: T, h: Seq<bool>, res: Result<(), ()>| r.sends(t, h, res) == self.sends(t, h, res),
            forall|t: T| r.accepts(t) == self.accepts(t),
    {
        RawSender { std_sender: std_sender_clone(&self.std_sender) }
    }
}

impl<T> CloneAlike<T> for RawSender<T> where T: Send + 'static {
    proof fn lemma_clone_sends_alike(&self, copy: &Self) {
        assert(call_ensures(<RawSender<T> as Clone>::clone, (self,), *copy));
    }
}

impl<T> TransformableSender<T> for RawSender<T> where T: Send + 'static {
}

impl<T> RawSender<T> where
    T: Send + 'static,
 {
    /// A clone of this sender, boxed as a trait object; it sends as this
    /// sender does. A function that returns a trait object carries no
    /// contract, so this one states none.
    pub fn internal_clone(&self) -> Box<dyn ExtSender<T>> {
        let copy: Box<dyn ExtSender<T>> = Box::new(self.clone());
        copy
    }
}

} // verus!
