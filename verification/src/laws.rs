//! Laws that relate senders derived from one another.
use crate::filter_mapped::filter_map_sends;
use crate::sender::{dropped, ExtSender};
use vstd::prelude::*;

verus! {

/// Chaining `map`s applies the transformation added last first: a sender
/// `outer` derived by `map(g)` from a sender `inner` that was derived by
/// `map(f)` from `tx` sends `f(g(t))` on `tx`.
pub proof fn lemma_map_then_map<S, I, O, F, G, T, U, V>(tx: S, inner: I, outer: O, f: F, g: G) where
    S: ExtSender<V>,
    I: ExtSender<U>,
    O: ExtSender<T>,
    F: Fn(U) -> V,
    G: Fn(T) -> U,
    T: Send + 'static,
    U: Send + 'static,
    V: Send + 'static,

    requires
        forall|u: U, h: Seq<bool>, res: Result<(), ()>|
            inner.sends(u, h, res) <==> exists|v: V| f.ensures((u,), v) && tx.sends(v, h, res),
        forall|t: T, h: Seq<bool>, res: Result<(), ()>|
            outer.sends(t, h, res) <==> exists|u: U| g.ensures((t,), u) && inner.sends(u, h, res),
    ensures
        forall|t: T, h: Seq<bool>, res: Result<(), ()>|
            outer.sends(t, h, res) <==> exists|u: U, v: V|
                g.ensures((t,), u) && f.ensures((u,), v) && tx.sends(v, h, res),
{
    assert forall|t: T, h: Seq<bool>, res: Result<(), ()>|
        outer.sends(t, h, res) <==> exists|u: U, v: V|
            g.ensures((t,), u) && f.ensures((u,), v) && tx.sends(v, h, res) by {
        if outer.sends(t, h, res) {
            let u = choose|u: U| g.ensures((t,), u) && inner.sends(u, h, res);
            let v = choose|v: V| f.ensures((u,), v) && tx.sends(v, h, res);
            assert(g.ensures((t,), u) && f.ensures((u,), v) && tx.sends(v, h, res));
        }
        if exists|u: U, v: V| g.ensures((t,), u) && f.ensures((u,), v) && tx.sends(v, h, res) {
            let (u, v) = choose|u: U, v: V|
                g.ensures((t,), u) && f.ensures((u,), v) && tx.sends(v, h, res);
            assert(inner.sends(u, h, res));
        }
    }
}

/// `filter_map` combines `map` and `filter`: where `fm` gives `Some(g(t))`
/// for the values `t` that `p` keeps and `None` for the others, each outcome
/// of sending `t` through `tx.filter_map(fm)` is one of sending it through
/// the sender that filters with `p` in front of `tx.map(g)`.
pub proof fn lemma_filter_map_is_map_then_filter<S, M, P, Q, G, H, K, T, V>(
    tx: S,
    mapped: M,
    filtered: P,
    filter_mapped: Q,
    g: G,
    p: H,
    fm: K,
) where
    S: ExtSender<V>,
    M: ExtSender<T>,
    P: ExtSender<T>,
    Q: ExtSender<T>,
    G: Fn(T) -> V,
    H: Fn(&T) -> bool,
    K: Fn(T) -> Option<V>,
    T: Send + 'static,
    V: Send + 'static,

    requires
        forall|t: T, h: Seq<bool>, res: Result<(), ()>|
            mapped.sends(t, h, res) <==> exists|v: V| g.ensures((t,), v) && tx.sends(v, h, res),
        forall|t: T, h: Seq<bool>, res: Result<(), ()>|
            filtered.sends(t, h, res) <==> exists|keep: bool|
                p.ensures((&t,), keep) && if keep {
                    mapped.sends(t, h, res)
                } else {
                    dropped(h, res)
                },
        forall|t: T, h: Seq<bool>, res: Result<(), ()>|
            filter_mapped.sends(t, h, res) <==> filter_map_sends(fm, tx, t, h, res),
        forall|t: T, out: Option<V>|
            fm.ensures((t,), out) ==> exists|keep: bool|
                p.ensures((&t,), keep) && if keep {
                    exists|v: V| g.ensures((t,), v) && out == Some(v)
                } else {
                    out is None
                },
    ensures
        forall|t: T, h: Seq<bool>, res: Result<(), ()>|
            filter_mapped.sends(t, h, res) ==> filtered.sends(t, h, res),
{
    assert forall|t: T, h: Seq<bool>, res: Result<(), ()>|
        filter_mapped.sends(t, h, res) implies filtered.sends(t, h, res) by {
        let out = choose|out: Option<V>|
            fm.ensures((t,), out) && match out {
                None => dropped(h, res),
                Some(v) => tx.sends(v, h, res),
            };
        let keep = choose|keep: bool|
            p.ensures((&t,), keep) && if keep {
                exists|v: V| g.ensures((t,), v) && out == Some(v)
            } else {
                out is None
            };
        if keep {
            let v = choose|v: V| g.ensures((t,), v) && out == Some(v);
            assert(mapped.sends(t, h, res));
        }
    }
}

/// Mapping with a closure that returns its argument changes nothing: each
/// outcome of sending `t` through `tx.map(f)` is one of sending `t` itself
/// through `tx`.
pub proof fn lemma_map_identity<S, M, F, V>(tx: S, mapped: M, f: F) where
    S: ExtSender<V>,
    M: ExtSender<V>,
    F: Fn(V) -> V,
    V: Send + 'static,

    requires
        forall|t: V, h: Seq<bool>, res: Result<(), ()>|
            mapped.sends(t, h, res) <==> exists|v: V| f.ensures((t,), v) && tx.sends(v, h, res),
        forall|x: V, y: V| f.ensures((x,), y) ==> y == x,
    ensures
        forall|t: V, h: Seq<bool>, res: Result<(), ()>| mapped.sends(t, h, res) ==> tx.sends(t, h, res),
{
    assert forall|t: V, h: Seq<bool>, res: Result<(), ()>| mapped.sends(t, h, res) implies tx.sends(
        t,
        h,
        res,
    ) by {
        let v = choose|v: V| f.ensures((t,), v) && tx.sends(v, h, res);
        assert(v == t);
    }
}

/// `filter_map` with a closure that always gives `Some(g(t))` sends as
/// `map(g)`: each outcome of sending `t` through `tx.filter_map(fm)` is one of
/// sending it through `tx.map(g)`.
pub proof fn lemma_filter_map_some_is_map<S, M, Q, G, K, T, V>(
    tx: S,
    mapped: M,
    filter_mapped: Q,
    g: G,
    fm: K,
) where
    S: ExtSender<V>,
    M: ExtSender<T>,
    Q: ExtSender<T>,
    G: Fn(T) -> V,
    K: Fn(T) -> Option<V>,
    T: Send + 'static,
    V: Send + 'static,

    requires
        forall|t: T, h: Seq<bool>, res: Result<(), ()>|
            mapped.sends(t, h, res) <==> exists|v: V| g.ensures((t,), v) && tx.sends(v, h, res),
        forall|t: T, h: Seq<bool>, res: Result<(), ()>|
            filter_mapped.sends(t, h, res) <==> filter_map_sends(fm, tx, t, h, res),
        forall|t: T, out: Option<V>|
            fm.ensures((t,), out) ==> exists|v: V| g.ensures((t,), v) && out == Some(v),
    ensures
        forall|t: T, h: Seq<bool>, res: Result<(), ()>|
            filter_mapped.sends(t, h, res) ==> mapped.sends(t, h, res),
{
    assert forall|t: T, h: Seq<bool>, res: Result<(), ()>|
        filter_mapped.sends(t, h, res) implies mapped.sends(t, h, res) by {
        let out = choose|out: Option<V>|
            fm.ensures((t,), out) && match out {
                None => dropped(h, res),
                Some(v) => tx.sends(v, h, res),
            };
        let v = choose|v: V| g.ensures((t,), v) && out == Some(v);
        assert(tx.sends(v, h, res));
    }
}

/// `filter_map` with a closure that gives `Some(t)` for the values `t` that
/// `p` keeps and `None` for the others sends as `filter(p)`: each outcome of
/// sending `t` through `tx.filter_map(fm)` is one of sending it through
/// `tx.filter(p)`.
pub proof fn lemma_filter_map_guard_is_filter<S, P, Q, H, K, T>(
    tx: S,
    filtered: P,
    filter_mapped: Q,
    p: H,
    fm: K,
) where
    S: ExtSender<T>,
    P: ExtSender<T>,
    Q: ExtSender<T>,
    H: Fn(&T) -> bool,
    K: Fn(T) -> Option<T>,
    T: Send + 'static,

    requires
        forall|t: T, h: Seq<bool>, res: Result<(), ()>|
            filtered.sends(t, h, res) <==> exists|keep: bool|
                p.ensures((&t,), keep) && if keep {
                    tx.sends(t, h, res)
                } else {
                    dropped(h, res)
                },
        forall|t: T, h: Seq<bool>, res: Result<(), ()>|
            filter_mapped.sends(t, h, res) <==> filter_map_sends(fm, tx, t, h, res),
        forall|t: T, out: Option<T>|
            fm.ensures((t,), out) ==> exists|keep: bool|
                p.ensures((&t,), keep) && if keep {
                    out == Some(t)
                } else {
                    out is None
                },
    ensures
        forall|t: T, h: Seq<bool>, res: Result<(), ()>|
            filter_mapped.sends(t, h, res) ==> filtered.sends(t, h, res),
{
    assert forall|t: T, h: Seq<bool>, res: Result<(), ()>|
        filter_mapped.sends(t, h, res) implies filtered.sends(t, h, res) by {
        let out = choose|out: Option<T>|
            fm.ensures((t,), out) && match out {
                None => dropped(h, res),
                Some(v) => tx.sends(v, h, res),
            };
        let keep = choose|keep: bool|
            p.ensures((&t,), keep) && if keep {
                out == Some(t)
            } else {
                out is None
            };
        assert(p.ensures((&t,), keep));
    }
}

} // verus!
