//! The sender that `map` derives.
use crate::sender::{CloneAlike, ExtSender, TransformableSender};
use crate::std_channel::arc_share;
use std::marker::PhantomData;
use std::sync::Arc;
use vstd::prelude::*;

verus! {

/// An `ExtSender` obtained from a call to method `map`.
#[verifier::reject_recursive_types(F)]
#[verifier::reject_recursive_types(T)]
#[verifier::reject_recursive_types(V)]
#[verifier::reject_recursive_types(W)]
pub struct MappedSender<F, T, V, W> where
    W: ExtSender<V> + Sized,
    F: Fn(T) -> V + Sync + Send + 'static,
    T: Send + 'static,
    V: Send + 'static,
 {
    wrapped: W,
    transformer: Arc<F>,
    phantom: PhantomData<(T, V)>,
}

impl<F, T, V, W> MappedSender<F, T, V, W> where
    W: ExtSender<V> + Sized,
    F: Fn(T) -> V + Sync + Send + 'static,
    T: Send + 'static,
    V: Send + 'static,
 {
    /// The sender that sends `f`'s results on `wrapped`.
    pub(crate) fn new(wrapped: W, f: F) -> (r: Self)
        ensures
            forall|t: T, h: Seq<bool>, res: Result<(), ()>|
                r.sends(t, h, res) <==> exists|v: V| f.ensures((t,), v) && wrapped.sends(v, h, res),
            forall|t: T|
                r.accepts(t) <==> f.requires((t,)) && forall|v: V|
                    #![trigger f.ensures((t,), v)]
                    f.ensures((t,), v) ==> wrapped.accepts(v),
    {
        let transformer = Arc::new(f);
        assert(*transformer == f);
        let r = MappedSender { wrapped, transformer, phantom: PhantomData };
        assert forall|t: T, h: Seq<bool>, res: Result<(), ()>|
            r.sends(t, h, res) <==> exists|v: V| f.ensures((t,), v) && wrapped.sends(v, h, res) by {
            assert(*r.transformer == f);
            assert(r.wrapped == wrapped);
            if r.sends(t, h, res) {
                let v = choose|v: V| (*r.transformer).ensures((t,), v) && r.wrapped.sends(v, h, res);
                assert(f.ensures((t,), v) && wrapped.sends(v, h, res));
            }
            if exists|v: V| f.ensures((t,), v) && wrapped.sends(v, h, res) {
                let v = choose|v: V| f.ensures((t,), v) && wrapped.sends(v, h, res);
                assert((*r.transformer).ensures((t,), v));
            }
        }
        r
    }
}

impl<F, T, V, W> ExtSender<T> for MappedSender<F, T, V, W> where
    W: ExtSender<V> + Sized,
    F: Fn(T) -> V + Sync + Send + 'static,
    T: Send + 'static,
    V: Send + 'static,
 {
    closed spec fn sends(&self, msg: T, handovers: Seq<bool>, res: Result<(), ()>) -> bool {
        exists|v: V| (*self.transformer).ensures((msg,), v) && self.wrapped.sends(v, handovers, res)
    }

    closed spec fn accepts(&self, msg: T) -> bool {
        (*self.transformer).requires((msg,)) && forall|v: V|
            #![trigger (*self.transformer).ensures((msg,), v)]
            (*self.transformer).ensures((msg,), v) ==> self.wrapped.accepts(v)
    }

    fn send(&self, t: T) -> (r: Result<(), ()>) {
        let v = (*self.transformer)(t);
        self.wrapped.send(v)
    }
}

} // verus!

verus! {

impl<F, T, V, W> Clone for MappedSender<F, T, V, W> where
    W: ExtSender<V> + TransformableSender<V> + Sized,
    F: Fn(T) -> V + Sync + Send + 'static,
    T: Send + 'static,
    V: Send + 'static,
 {
    /// Another sender with the same transformation in front of a clone of
    /// the wrapped sender; it sends as this one does.
    fn clone(&self) -> (r: Self)
        ensures
            forall|t: T, h: Seq<bool>, res: Result<(), ()>| r.sends(t, h, res) == self.sends(t, h, res),
            forall|t: T| r.accepts(t) == self.accepts(t),
    {
        let wrapped = self.wrapped.clone();
        proof {
            self.wrapped.lemma_clone_sends_alike(&wrapped);
        }
        let r = MappedSender { wrapped, transformer: arc_share(&self.transformer), phantom: PhantomData };
        assert forall|t: T, h: Seq<bool>, res: Result<(), ()>|
            r.sends(t, h, res) == self.sends(t, h, res) by {
            if r.sends(t, h, res) {
                let v = choose|v: V| (*r.transformer).ensures((t,), v) && r.wrapped.sends(v, h, res);
                assert((*self.transformer).ensures((t,), v) && self.wrapped.sends(v, h, res));
            }
            if self.sends(t, h, res) {
                let v = choose|v: V| (*self.transformer).ensures((t,), v) && self.wrapped.sends(v, h, res);
                assert((*r.transformer).ensures((t,), v) && r.wrapped.sends(v, h, res));
            }
        }
        r
    }
}

impl<F, T, V, W> CloneAlike<T> for MappedSender<F, T, V, W> where
    W: ExtSender<V> + TransformableSender<V> + Sized,
    F: Fn(T) -> V + Sync + Send + 'static,
    T: Send + 'static,
    V: Send + 'static,
 {
    proof fn lemma_clone_sends_alike(&self, copy: &Self) {
        assert(call_ensures(<MappedSender<F, T, V, W> as Clone>::clone, (self,), *copy));
    }
}

impl<F, T, V, W> TransformableSender<T> for MappedSender<F, T, V, W> where
    W: ExtSender<V> + TransformableSender<V> + Sized,
    F: Fn(T) -> V + Sync + Send + 'static,
    T: Send + 'static,
    V: Send + 'static,
 {
}

impl<F, T, V, W> MappedSender<F, T, V, W> where
    W: ExtSender<V> + TransformableSender<V> + Sized,
    F: Fn(T) -> V + Sync + Send + 'static,
    T: Send + 'static,
    V: Send + 'static,
 {
    /// A clone of this sender, boxed as a trait object; it sends as this
    /// sender does. A function that returns a trait object carries no
    /// contract, so this one states none.
    pub fn internal_clone(&self) -> Box<dyn ExtSender<T>> {
        let copy: Box<dyn ExtSender<T>> = Box::new(self.clone());
        copy
    }
}

} // verus!
