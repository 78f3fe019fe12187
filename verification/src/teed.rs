//! The sender that `tee` derives.
use crate::sender::{both_failed, err_only_if_lost, none_accepted, CloneAlike, ExtSender, TransformableSender};
use std::marker::PhantomData;
use vstd::prelude::*;

verus! {

/// What sending the pair `msg` through a `tee` of `left` and `right` may end
/// in: the first half is sent on `left` and the second on `right`; the
/// hand-overs are those of both, listed left first, and the send fails only
/// if both parts failed.
pub open spec fn tee_sends<S1, S2, V1, V2>(
    left: S1,
    right: S2,
    msg: (V1, V2),
    handovers: Seq<bool>,
    res: Result<(), ()>,
) -> bool where
    S1: ExtSender<V1>,
    S2: ExtSender<V2>,
    V1: Send + 'static,
    V2: Send + 'static,
 {
    exists|h1: Seq<bool>, r1: Result<(), ()>, h2: Seq<bool>, r2: Result<(), ()>|
        #![trigger left.sends(msg.0, h1, r1), right.sends(msg.1, h2, r2)]
        left.sends(msg.0, h1, r1) && right.sends(msg.1, h2, r2) && handovers == h1 + h2 && res
            == both_failed(r1, r2)
}

/// An `ExtSender` obtained from a call to method `tee`.
#[verifier::reject_recursive_types(S1)]
#[verifier::reject_recursive_types(S2)]
#[verifier::reject_recursive_types(V1)]
#[verifier::reject_recursive_types(V2)]
pub struct TeedSender<S1, S2, V1, V2> where
    S1: ExtSender<V1> + Sized,
    S2: ExtSender<V2> + Sized,
    V1: Send + 'static,
    V2: Send + 'static,
 {
    left: S1,
    right: S2,
    phantom: PhantomData<(V1, V2)>,
}

impl<S1, S2, V1, V2> TeedSender<S1, S2, V1, V2> where
    S1: ExtSender<V1> + Sized,
    S2: ExtSender<V2> + Sized,
    V1: Send + 'static,
    V2: Send + 'static,
 {
    /// The sender that sends the first half of a pair on `left` and the
    /// second on `right`.
    pub(crate) fn new(left: S1, right: S2) -> (r: Self)
        ensures
            forall|msg: (V1, V2), h: Seq<bool>, res: Result<(), ()>|
                r.sends(msg, h, res) <==> tee_sends(left, right, msg, h, res),
            forall|msg: (V1, V2)| r.accepts(msg) <==> left.accepts(msg.0) && right.accepts(msg.1),
    {
        TeedSender { left, right, phantom: PhantomData }
    }
}

impl<S1, S2, V1, V2> ExtSender<(V1, V2)> for TeedSender<S1, S2, V1, V2> where
    S1: ExtSender<V1> + Sized,
    S2: ExtSender<V2> + Sized,
    V1: Send + 'static,
    V2: Send + 'static,
 {
    closed spec fn sends(&self, msg: (V1, V2), handovers: Seq<bool>, res: Result<(), ()>) -> bool {
        tee_sends(self.left, self.right, msg, handovers, res)
    }

    closed spec fn accepts(&self, msg: (V1, V2)) -> bool {
        self.left.accepts(msg.0) && self.right.accepts(msg.1)
    }

    fn send(&self, t: (V1, V2)) -> (r: Result<(), ()>) {
        let ghost msg = t;
        let (left, right) = t;
        let r1 = self.left.send(left);
        let r2 = self.right.send(right);
        let ghost h1 = choose|h: Seq<bool>| self.left.sends(left, h, r1) && err_only_if_lost(h, r1);
        let ghost h2 = choose|h: Seq<bool>| self.right.sends(right, h, r2) && err_only_if_lost(h, r2);
        let r = match (r1, r2) {
            (Err(()), Err(())) => Err(()),
            _ => Ok(()),
        };
        proof {
            let h = h1 + h2;
            assert(r == both_failed(r1, r2));
            assert(self.left.sends(msg.0, h1, r1) && self.right.sends(msg.1, h2, r2));
            assert(self.sends(msg, h, r));
            if r is Err {
                assert(none_accepted(h1) && none_accepted(h2));
                assert forall|i: int| 0 <= i < h.len() implies !h[i] by {
                    if i < h1.len() {
                        assert(h[i] == h1[i]);
                    } else {
                        assert(h[i] == h2[i - h1.len()]);
                    }
                }
            }
            assert(err_only_if_lost(h, r));
        }
        r
    }
}

impl<S1, S2, V1, V2> Clone for TeedSender<S1, S2, V1, V2> where
    S1: ExtSender<V1> + TransformableSender<V1> + Sized,
    S2: ExtSender<V2> + TransformableSender<V2> + Sized,
    V1: Send + 'static,
    V2: Send + 'static,
 {
    /// Another sender in front of clones of both senders; it sends as this
    /// one does.
    fn clone(&self) -> (r: Self)
        ensures
            forall|msg: (V1, V2), h: Seq<bool>, res: Result<(), ()>|
                r.sends(msg, h, res) == self.sends(msg, h, res),
            forall|msg: (V1, V2)| r.accepts(msg) == self.accepts(msg),
    {
        let left = self.left.clone();
        let right = self.right.clone();
        proof {
            self.left.lemma_clone_sends_alike(&left);
            self.right.lemma_clone_sends_alike(&right);
        }
        let r = TeedSender { left, right, phantom: PhantomData };
        assert forall|msg: (V1, V2), h: Seq<bool>, res: Result<(), ()>|
            r.sends(msg, h, res) == self.sends(msg, h, res) by {
            if r.sends(msg, h, res) {
                let (h1, r1, h2, r2) = choose|h1: Seq<bool>, r1: Result<(), ()>, h2: Seq<bool>, r2: Result<(), ()>|
                    r.left.sends(msg.0, h1, r1) && r.right.sends(msg.1, h2, r2) && h == h1 + h2
                        && res == both_failed(r1, r2);
                assert(self.left.sends(msg.0, h1, r1) && self.right.sends(msg.1, h2, r2));
            }
            if self.sends(msg, h, res) {
                let (h1, r1, h2, r2) = choose|h1: Seq<bool>, r1: Result<(), ()>, h2: Seq<bool>, r2: Result<(), ()>|
                    self.left.sends(msg.0, h1, r1) && self.right.sends(msg.1, h2, r2) && h == h1 + h2
                        && res == both_failed(r1, r2);
                assert(r.left.sends(msg.0, h1, r1) && r.right.sends(msg.1, h2, r2));
            }
        }
        r
    }
}

impl<S1, S2, V1, V2> CloneAlike<(V1, V2)> for TeedSender<S1, S2, V1, V2> where
    S1: ExtSender<V1> + TransformableSender<V1> + Sized,
    S2: ExtSender<V2> + TransformableSender<V2> + Sized,
    V1: Send + 'static,
    V2: Send + 'static,
 {
    proof fn lemma_clone_sends_alike(&self, copy: &Self) {
        assert(call_ensures(<TeedSender<S1, S2, V1, V2> as Clone>::clone, (self,), *copy));
    }
}

impl<S1, S2, V1, V2> TeedSender<S1, S2, V1, V2> where
    S1: ExtSender<V1> + TransformableSender<V1> + Sized,
    S2: ExtSender<V2> + TransformableSender<V2> + Sized,
    V1: Send + 'static,
    V2: Send + 'static,
 {
    /// A clone of this sender, boxed as a trait object; it sends as this
    /// sender does. A function that returns a trait object carries no
    /// contract, so this one states none.
    pub fn internal_clone(&self) -> Box<dyn ExtSender<(V1, V2)>> {
        let copy: Box<dyn ExtSender<(V1, V2)>> = Box::new(self.clone());
        copy
    }
}

} // verus!
