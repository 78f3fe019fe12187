//! The traits of the library: `ExtSender`, what every sender does;
//! `CloneAlike`, the senders whose clones send as they do; and
//! `TransformableSender`, the ways to derive a new sender from one.
use crate::filter_mapped::{filter_map_sends, FilterMappedSender};
use crate::filtered::FilteredSender;
use crate::mapped::MappedSender;
use crate::teed::{tee_sends, TeedSender};
use vstd::prelude::*;

verus! {

/// No hand-over in `handovers` was accepted by its channel.
pub open spec fn none_accepted(handovers: Seq<bool>) -> bool {
    forall|i: int| 0 <= i < handovers.len() ==> !handovers[i]
}

/// What a send promises of its result: `Err` only when the value was handed
/// over at least once and no channel accepted it, so that it will never be
/// received.
pub open spec fn err_only_if_lost(handovers: Seq<bool>, res: Result<(), ()>) -> bool {
    res is Err ==> handovers.len() > 0 && none_accepted(handovers)
}

/// Nothing was handed over, and the send succeeded: what a sender does with
/// a value that it discards.
pub open spec fn dropped(handovers: Seq<bool>, res: Result<(), ()>) -> bool {
    handovers.len() == 0 && res is Ok
}

/// The result of a send that is split between two senders: `Err` only when
/// both parts failed.
pub open spec fn both_failed(left: Result<(), ()>, right: Result<(), ()>) -> Result<(), ()> {
    if left is Err && right is Err {
        Err(())
    } else {
        Ok(())
    }
}

/// The sending half of a channel, possibly with a transformation in front of
/// the `std` sender that it ends in.
pub trait ExtSender<T>: Send + 'static where T: Send + 'static {
    /// Sending `msg` may end in the hand-overs `handovers` to the `std`
    /// senders behind this sender (`true` for each that its channel
    /// accepted), and return `res`. For a `RawSender` the relation names the
    /// value and the `std` sender it is handed to; a derived sender's relation
    /// is that of the sender it was derived from, on the transformed value.
    spec fn sends(&self, msg: T, handovers: Seq<bool>, res: Result<(), ()>) -> bool;

    /// `msg` can be sent without panicking: every closure in front of the
    /// `std` sender can be called on what reaches it.
    spec fn accepts(&self, msg: T) -> bool;

    /// Attempts to send a value on this channel. It never blocks.
    ///
    /// `Err` means that the value will never be received; `Ok` does not mean
    /// that it will be: the receiver may hang up right after the call.
    fn send(&self, t: T) -> (r: Result<(), ()>)
        requires
            self.accepts(t),
        ensures
            exists|h: Seq<bool>| self.sends(t, h, r) && err_only_if_lost(h, r),
    ;
}

/// The senders whose clones send as they do.
pub trait CloneAlike<V>: ExtSender<V> + Clone where V: Send + 'static {
    /// A clone behaves as the sender it was cloned from.
    proof fn lemma_clone_sends_alike(&self, copy: &Self)
        requires
            call_ensures(Self::clone, (self,), *copy),
        ensures
            forall|msg: V, h: Seq<bool>, res: Result<(), ()>|
                copy.sends(msg, h, res) == self.sends(msg, h, res),
            forall|msg: V| copy.accepts(msg) == self.accepts(msg),
    ;
}

/// The senders from which other senders can be derived: each derived sender
/// hands its values, transformed, to the same `std` senders as the sender it
/// was derived from.
pub trait TransformableSender<V>: ExtSender<V> + CloneAlike<V> + Clone + Send + 'static where
    V: Send + 'static,
 {
    /// Derives a sender that applies `f` to each value before sending the
    /// result on this sender.
    fn map<F, T>(&self, f: F) -> (r: MappedSender<F, T, V, Self>) where
        Self: Sized,
        F: Fn(T) -> V + Sync + Send + 'static,
        T: Send + 'static,
        V: Send + 'static,

        ensures
            forall|t: T, h: Seq<bool>, res: Result<(), ()>|
                r.sends(t, h, res) <==> exists|v: V| f.ensures((t,), v) && self.sends(v, h, res),
            forall|t: T|
                r.accepts(t) <==> f.requires((t,)) && forall|v: V|
                    #![trigger f.ensures((t,), v)]
                    f.ensures((t,), v) ==> self.accepts(v),
    {
        let wrapped = self.clone();
        proof {
            self.lemma_clone_sends_alike(&wrapped);
        }
        MappedSender::new(wrapped, f)
    }

    /// Derives a sender that passes on to this sender only the values that
    /// `f` keeps, and discards the others.
    fn filter<F>(&self, f: F) -> (r: FilteredSender<F, V, Self>) where
        Self: Sized,
        F: Fn(&V) -> bool + Sync + Send + 'static,

        ensures
            forall|v: V|
                r.accepts(v) <==> f.requires((&v,)) && forall|keep: bool|
                    #![trigger f.ensures((&v,), keep)]
                    f.ensures((&v,), keep) && keep ==> self.accepts(v),
            forall|v: V, h: Seq<bool>, res: Result<(), ()>|
                r.sends(v, h, res) <==> exists|keep: bool|
                    f.ensures((&v,), keep) && if keep {
                        self.sends(v, h, res)
                    } else {
                        dropped(h, res)
                    },
    {
        let wrapped = self.clone();
        proof {
            self.lemma_clone_sends_alike(&wrapped);
        }
        FilteredSender::new(wrapped, f)
    }

    /// Derives a sender that applies `f` to each value and sends on this
    /// sender the values that `f` gives, discarding the value where `f`
    /// gives `None`: `map` and `filter` in one.
    fn filter_map<F, T>(&self, f: F) -> (r: FilterMappedSender<F, T, V, Self>) where
        Self: Sized,
        F: Fn(T) -> Option<V> + Sync + Send + 'static,
        T: Send + 'static,

        ensures
            forall|t: T, h: Seq<bool>, res: Result<(), ()>|
                r.sends(t, h, res) <==> filter_map_sends(f, *self, t, h, res),
            forall|t: T|
                r.accepts(t) <==> f.requires((t,)) && forall|v: V|
                    #![trigger f.ensures((t,), Some(v))]
                    f.ensures((t,), Some(v)) ==> self.accepts(v),
    {
        let wrapped = self.clone();
        proof {
            self.lemma_clone_sends_alike(&wrapped);
        }
        let r = FilterMappedSender::new(wrapped, f);
        assert forall|t: T, h: Seq<bool>, res: Result<(), ()>|
            filter_map_sends(f, wrapped, t, h, res) == filter_map_sends(f, *self, t, h, res) by {
            if filter_map_sends(f, wrapped, t, h, res) {
                let out = choose|out: Option<V>|
                    f.ensures((t,), out) && match out {
                        None => dropped(h, res),
                        Some(v) => wrapped.sends(v, h, res),
                    };
                assert(f.ensures((t,), out));
            }
            if filter_map_sends(f, *self, t, h, res) {
                let out = choose|out: Option<V>|
                    f.ensures((t,), out) && match out {
                        None => dropped(h, res),
                        Some(v) => self.sends(v, h, res),
                    };
                assert(f.ensures((t,), out));
            }
        }
        r
    }

    /// Derives a sender of pairs: the first half of each pair is sent on this
    /// sender, the second on `other` (the hand-overs are listed left half
    /// first). The send fails only if both parts do.
    fn tee<S, W>(&self, other: &S) -> (r: TeedSender<Self, S, V, W>) where
        Self: Sized,
        S: ExtSender<W> + CloneAlike<W>,
        W: Send + 'static,

        ensures
            forall|msg: (V, W), h: Seq<bool>, res: Result<(), ()>|
                r.sends(msg, h, res) <==> tee_sends(*self, *other, msg, h, res),
            forall|msg: (V, W)| r.accepts(msg) <==> self.accepts(msg.0) && other.accepts(msg.1),
    {
        let left = self.clone();
        let right = other.clone();
        proof {
            self.lemma_clone_sends_alike(&left);
            other.lemma_clone_sends_alike(&right);
        }
        let r = TeedSender::new(left, right);
        assert forall|msg: (V, W), h: Seq<bool>, res: Result<(), ()>|
            tee_sends(left, right, msg, h, res) == tee_sends(*self, *other, msg, h, res) by {
            if tee_sends(left, right, msg, h, res) {
                let (h1, r1, h2, r2) = choose|h1: Seq<bool>, r1: Result<(), ()>, h2: Seq<bool>, r2: Result<(), ()>|
                    left.sends(msg.0, h1, r1) && right.sends(msg.1, h2, r2) && h == h1 + h2
                        && res == both_failed(r1, r2);
                assert(self.sends(msg.0, h1, r1) && other.sends(msg.1, h2, r2));
            }
            if tee_sends(*self, *other, msg, h, res) {
                let (h1, r1, h2, r2) = choose|h1: Seq<bool>, r1: Result<(), ()>, h2: Seq<bool>, r2: Result<(), ()>|
                    self.sends(msg.0, h1, r1) && other.sends(msg.1, h2, r2) && h == h1 + h2
                        && res == both_failed(r1, r2);
                assert(left.sends(msg.0, h1, r1) && right.sends(msg.1, h2, r2));
            }
        }
        r
    }
}

} // verus!
