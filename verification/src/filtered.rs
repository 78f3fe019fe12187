//! The sender that `filter` derives.
use crate::sender::{dropped, err_only_if_lost, CloneAlike, ExtSender, TransformableSender};
use crate::std_channel::arc_share;
use std::marker::PhantomData;
use std::sync::Arc;
use vstd::prelude::*;

verus! {

/// An `ExtSender` obtained from a call to method `filter`.
#[verifier::reject_recursive_types(F)]
#[verifier::reject_recursive_types(T)]
#[verifier::reject_recursive_types(W)]
pub struct FilteredSender<F, T, W> where
    F: Fn(&T) -> bool + Sync + Send + 'static,
    T: Send + 'static,
    W: ExtSender<T> + Sized,
 {
    wrapped: W,
    filter: Arc<F>,
    phantom: PhantomData<T>,
}

impl<F, T, W> FilteredSender<F, T, W> where
    F: Fn(&T) -> bool + Sync + Send + 'static,
    T: Send + 'static,
    W: ExtSender<T> + Sized,
 {
    /// The sender that passes on to `wrapped` the values that `f` keeps.
    pub(crate) fn new(wrapped: W, f: F) -> (r: Self)
        ensures
            forall|t: T|
                r.accepts(t) <==> f.requires((&t,)) && forall|keep: bool|
                    #![trigger f.ensures((&t,), keep)]
                    f.ensures((&t,), keep) && keep ==> wrapped.accepts(t),
            forall|t: T, h: Seq<bool>, res: Result<(), ()>|
                r.sends(t, h, res) <==> exists|keep: bool|
                    f.ensures((&t,), keep) && if keep {
                        wrapped.sends(t, h, res)
                    } else {
                        dropped(h, res)
                    },
    {
        let filter = Arc::new(f);
        let r = FilteredSender { wrapped, filter, phantom: PhantomData };
        assert forall|t: T, h: Seq<bool>, res: Result<(), ()>|
            r.sends(t, h, res) <==> exists|keep: bool|
                f.ensures((&t,), keep) && if keep {
                    wrapped.sends(t, h, res)
                } else {
                    dropped(h, res)
                } by {
            if r.sends(t, h, res) {
                let keep = choose|keep: bool|
                    (*r.filter).ensures((&t,), keep) && if keep {
                        r.wrapped.sends(t, h, res)
                    } else {
                        dropped(h, res)
                    };
                assert(f.ensures((&t,), keep));
            }
            if exists|keep: bool|
                f.ensures((&t,), keep) && if keep {
                    wrapped.sends(t, h, res)
                } else {
                    dropped(h, res)
                } {
                let keep = choose|keep: bool|
                    f.ensures((&t,), keep) && if keep {
                        wrapped.sends(t, h, res)
                    } else {
                        dropped(h, res)
                    };
                assert((*r.filter).ensures((&t,), keep));
            }
        }
        r
    }
}

impl<F, T, W> ExtSender<T> for FilteredSender<F, T, W> where
    F: Fn(&T) -> bool + Sync + Send + 'static,
    T: Send + 'static,
    W: ExtSender<T> + Sized,
 {
    closed spec fn sends(&self, msg: T, handovers: Seq<bool>, res: Result<(), ()>) -> bool {
        exists|keep: bool|
            (*self.filter).ensures((&msg,), keep) && if keep {
                self.wrapped.sends(msg, handovers, res)
            } else {
                dropped(handovers, res)
            }
    }

    closed spec fn accepts(&self, msg: T) -> bool {
        (*self.filter).requires((&msg,)) && forall|keep: bool|
            #![trigger (*self.filter).ensures((&msg,), keep)]
            (*self.filter).ensures((&msg,), keep) && keep ==> self.wrapped.accepts(msg)
    }

    fn send(&self, t: T) -> (r: Result<(), ()>) {
        let keep = (*self.filter)(&t);
        if keep {
            let r = self.wrapped.send(t);
            let ghost h = choose|h: Seq<bool>| self.wrapped.sends(t, h, r) && err_only_if_lost(h, r);
            assert(self.sends(t, h, r) && err_only_if_lost(h, r));
            r
        } else {
            let ghost h = Seq::<bool>::empty();
            assert(self.sends(t, h, Ok(())) && err_only_if_lost(h, Ok(())));
            Ok(())
        }
    }
}

impl<F, T, W> Clone for FilteredSender<F, T, W> where
    F: Fn(&T) -> bool + Sync + Send + 'static,
    T: Send + 'static,
    W: ExtSender<T> + TransformableSender<T> + Sized,
 {
    /// Another sender with the same filter in front of a clone of the
    /// wrapped sender; it sends as this one does.
    fn clone(&self) -> (r: Self)
        ensures
            forall|t: T, h: Seq<bool>, res: Result<(), ()>| r.sends(t, h, res) == self.sends(t, h, res),
            forall|t: T| r.accepts(t) == self.accepts(t),
    {
        let wrapped = self.wrapped.clone();
        proof {
            self.wrapped.lemma_clone_sends_alike(&wrapped);
        }
        let r = FilteredSender { wrapped, filter: arc_share(&self.filter), phantom: PhantomData };
        assert forall|t: T, h: Seq<bool>, res: Result<(), ()>|
            r.sends(t, h, res) == self.sends(t, h, res) by {
            if r.sends(t, h, res) {
                let keep = choose|keep: bool|
                    (*r.filter).ensures((&t,), keep) && if keep {
                        r.wrapped.sends(t, h, res)
                    } else {
                        dropped(h, res)
                    };
                assert((*self.filter).ensures((&t,), keep));
            }
            if self.sends(t, h, res) {
                let keep = choose|keep: bool|
                    (*self.filter).ensures((&t,), keep) && if keep {
                        self.wrapped.sends(t, h, res)
                    } else {
                        dropped(h, res)
                    };
                assert((*r.filter).ensures((&t,), keep));
            }
        }
        r
    }
}

impl<F, T, W> CloneAlike<T> for FilteredSender<F, T, W> where
    F: Fn(&T) -> bool + Sync + Send + 'static,
    T: Send + 'static,
    W: ExtSender<T> + TransformableSender<T> + Sized,
 {
    proof fn lemma_clone_sends_alike(&self, copy: &Self) {
        assert(call_ensures(<FilteredSender<F, T, W> as Clone>::clone, (self,), *copy));
    }
}

impl<F, T, W> TransformableSender<T> for FilteredSender<F, T, W> where
    F: Fn(&T) -> bool + Sync + Send + 'static,
    T: Send + 'static,
    W: ExtSender<T> + TransformableSender<T> + Sized,
 {
}

impl<F, T, W> FilteredSender<F, T, W> where
    F: Fn(&T) -> bool + Sync + Send + 'static,
    T: Send + 'static,
    W: ExtSender<T> + TransformableSender<T> + Sized,
 {
    /// A clone of this sender, boxed as a trait object; it sends as this
    /// sender does. A function that returns a trait object carries no
    /// contract, so this one states none.
    pub fn internal_clone(&self) -> Box<dyn ExtSender<T>> {
        let copy: Box<dyn ExtSender<T>> = Box::new(self.clone());
        copy
    }
}

} // verus!
