//! A boxed trait object is itself a sender.
use crate::sender::ExtSender;
use vstd::prelude::*;

verus! {

/// A trait object for an `ExtSender`: it sends as the sender inside does.
impl<T> ExtSender<T> for Box<dyn ExtSender<T>> where T: Send + 'static {
    open spec fn sends(&self, msg: T, handovers: Seq<bool>, res: Result<(), ()>) -> bool {
        (**self).sends(msg, handovers, res)
    }

    open spec fn accepts(&self, msg: T) -> bool {
        (**self).accepts(msg)
    }

    fn send(&self, t: T) -> (r: Result<(), ()>) {
        (**self).send(t)
    }
}

} // verus!
