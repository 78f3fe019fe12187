//! The sender that `filter_map` derives.
use crate::sender::{dropped, err_only_if_lost, CloneAlike, ExtSender, TransformableSender};
use crate::std_channel::arc_share;
use std::marker::PhantomData;
use std::sync::Arc;
use vstd::prelude::*;

verus! {

/// What sending `msg` through a `filter_map` sender with transformation `f`
/// in front of `wrapped` may end in: `f` gives `None`, and nothing is sent;
/// or it gives `Some(v)`, and `v` is sent on `wrapped`.
pub open spec fn filter_map_sends<F, T, V, W>(
    f: F,
    wrapped: W,
    msg: T,
    handovers: Seq<bool>,
    res: Result<(), ()>,
) -> bool where F: Fn(T) -> Option<V>, W: ExtSender<V>, T: Send + 'static, V: Send + 'static {
    exists|out: Option<V>|
        f.ensures((msg,), out) && match out {
            None => dropped(handovers, res),
            Some(v) => wrapped.sends(v, handovers, res),
        }
}

/// An `ExtSender` obtained from a call to method `filter_map`.
#[verifier::reject_recursive_types(F)]
#[verifier::reject_recursive_types(T)]
#[verifier::reject_recursive_types(V)]
#[verifier::reject_recursive_types(W)]
pub struct FilterMappedSender<F, T, V, W> where
    W: ExtSender<V> + Sized,
    F: Fn(T) -> Option<V> + Sync + Send + 'static,
    T: Send + 'static,
    V: Send + 'static,
 {
    wrapped: W,
    transformer: Arc<F>,
    phantom: PhantomData<(T, V)>,
}

impl<F, T, V, W> FilterMappedSender<F, T, V, W> where
    W: ExtSender<V> + Sized,
    F: Fn(T) -> Option<V> + Sync + Send + 'static,
    T: Send + 'static,
    V: Send + 'static,
 {
    /// The sender that sends on `wrapped` the values that `f` gives, and
    /// nothing where it gives `None`.
    pub(crate) fn new(wrapped: W, f: F) -> (r: Self)
        ensures
            forall|t: T, h: Seq<bool>, res: Result<(), ()>|
                r.sends(t, h, res) <==> filter_map_sends(f, wrapped, t, h, res),
            forall|t: T|
                r.accepts(t) <==> f.requires((t,)) && forall|v: V|
                    #![trigger f.ensures((t,), Some(v))]
                    f.ensures((t,), Some(v)) ==> wrapped.accepts(v),
    {
        let transformer = Arc::new(f);
        FilterMappedSender { wrapped, transformer, phantom: PhantomData }
    }
}

impl<F, T, V, W> ExtSender<T> for FilterMappedSender<F, T, V, W> where
    W: ExtSender<V> + Sized,
    F: Fn(T) -> Option<V> + Sync + Send + 'static,
    T: Send + 'static,
    V: Send + 'static,
 {
    closed spec fn sends(&self, msg: T, handovers: Seq<bool>, res: Result<(), ()>) -> bool {
        filter_map_sends(*self.transformer, self.wrapped, msg, handovers, res)
    }

    closed spec fn accepts(&self, msg: T) -> bool {
        (*self.transformer).requires((msg,)) && forall|v: V|
            #![trigger (*self.transformer).ensures((msg,), Some(v))]
            (*self.transformer).ensures((msg,), Some(v)) ==> self.wrapped.accepts(v)
    }

    fn send(&self, t: T) -> (r: Result<(), ()>) {
        let ghost msg = t;
        let out = (*self.transformer)(t);
        match out {
            None => {
                let ghost h = Seq::<bool>::empty();
                assert(self.sends(msg, h, Ok(())) && err_only_if_lost(h, Ok(())));
                Ok(())
            },
            Some(t2) => {
                let r = self.wrapped.send(t2);
                let ghost h = choose|h: Seq<bool>|
                    self.wrapped.sends(t2, h, r) && err_only_if_lost(h, r);
                assert(self.sends(msg, h, r) && err_only_if_lost(h, r));
                r
            },
        }
    }
}

impl<F, T, V, W> Clone for FilterMappedSender<F, T, V, W> where
    W: ExtSender<V> + TransformableSender<V> + Sized,
    F: Fn(T) -> Option<V> + Sync + Send + 'static,
    T: Send + 'static,
    V: Send + 'static,
 {
    /// Another sender with the same transformation in front of a clone of
    /// the wrapped sender; it sends as this one does.
    fn clone(&self) -> (r: Self)
        ensures
            forall|t: T, h: Seq<bool>, res: Result<(), ()>| r.sends(t, h, res) == self.sends(t, h, res),
            forall|t: T| r.accepts(t) == self.accepts(t),
    {
        let wrapped = self.wrapped.clone();
        proof {
            self.wrapped.lemma_clone_sends_alike(&wrapped);
        }
        let r = FilterMappedSender {
            wrapped,
            transformer: arc_share(&self.transformer),
            phantom: PhantomData,
        };
        assert forall|t: T, h: Seq<bool>, res: Result<(), ()>|
            r.sends(t, h, res) == self.sends(t, h, res) by {
            if r.sends(t, h, res) {
                let out = choose|out: Option<V>|
                    (*r.transformer).ensures((t,), out) && match out {
                        None => dropped(h, res),
                        Some(v) => r.wrapped.sends(v, h, res),
                    };
                assert((*self.transformer).ensures((t,), out));
            }
            if self.sends(t, h, res) {
                let out = choose|out: Option<V>|
                    (*self.transformer).ensures((t,), out) && match out {
                        None => dropped(h, res),
                        Some(v) => self.wrapped.sends(v, h, res),
                    };
                assert((*r.transformer).ensures((t,), out));
            }
        }
        r
    }
}

impl<F, T, V, W> CloneAlike<T> for FilterMappedSender<F, T, V, W> where
    W: ExtSender<V> + TransformableSender<V> + Sized,
    F: Fn(T) -> Option<V> + Sync + Send + 'static,
    T: Send + 'static,
    V: Send + 'static,
 {
    proof fn lemma_clone_sends_alike(&self, copy: &Self) {
        assert(call_ensures(<FilterMappedSender<F, T, V, W> as Clone>::clone, (self,), *copy));
    }
}

impl<F, T, V, W> TransformableSender<T> for FilterMappedSender<F, T, V, W> where
    W: ExtSender<V> + TransformableSender<V> + Sized,
    F: Fn(T) -> Option<V> + Sync + Send + 'static,
    T: Send + 'static,
    V: Send + 'static,
 {
}

impl<F, T, V, W> FilterMappedSender<F, T, V, W> where
    W: ExtSender<V> + TransformableSender<V> + Sized,
    F: Fn(T) -> Option<V> + Sync + Send + 'static,
    T: Send + 'static,
    V: Send + 'static,
 {
    /// A clone of this sender, boxed as a trait object; it sends as this
    /// sender does. A function that returns a trait object carries no
    /// contract, so this one states none.
    pub fn internal_clone(&self) -> Box<dyn ExtSender<T>> {
        let copy: Box<dyn ExtSender<T>> = Box::new(self.clone());
        copy
    }
}

} // verus!
