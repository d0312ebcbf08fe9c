//! Mapping over the value inside a container, keeping the container's shape.
use vstd::prelude::*;

use crate::hkt::HKT;

verus! {

/// A container whose held value can be transformed in place: an `A` inside
/// becomes a `B`, and a container holding nothing (or an error) is carried
/// over unchanged.
pub trait Functor<A, B>: HKT<A, B> + Sized {
    /// `pre` holds of the value held, if there is one.
    spec fn held_satisfies(&self, pre: spec_fn(A) -> bool) -> bool;

    /// `r` has the shape of `self`, and where `self` holds an `a`, `r` holds
    /// a `b` with `rel(a, b)`.
    spec fn maps_to(&self, r: <Self as HKT<A, B>>::Target, rel: spec_fn(A, B) -> bool) -> bool;

    fn fmap<F: FnOnce(A) -> B>(self, f: F) -> (r: <Self as HKT<A, B>>::Target)
        requires
            self.held_satisfies(|a: A| f.requires((a,))),
        ensures
            self.maps_to(r, |a: A, b: B| f.ensures((a,), b)),
    ;
}

impl<A, B> Functor<A, B> for Option<A> {
    open spec fn held_satisfies(&self, pre: spec_fn(A) -> bool) -> bool {
        match self {
            Some(a) => pre(*a),
            None => true,
        }
    }

    open spec fn maps_to(&self, r: Option<B>, rel: spec_fn(A, B) -> bool) -> bool {
        match (self, r) {
            (Some(a), Some(b)) => rel(*a, b),
            (None, None) => true,
            _ => false,
        }
    }

    fn fmap<F: FnOnce(A) -> B>(self, f: F) -> (r: Option<B>) {
        self.map(f)
    }
}

impl<A, B, E> Functor<A, B> for Result<A, E> {
    open spec fn held_satisfies(&self, pre: spec_fn(A) -> bool) -> bool {
        match self {
            Ok(a) => pre(*a),
            Err(_) => true,
        }
    }

    open spec fn maps_to(&self, r: Result<B, E>, rel: spec_fn(A, B) -> bool) -> bool {
        match (self, r) {
            (Ok(a), Ok(b)) => rel(*a, b),
            (Err(e), Err(e2)) => *e == e2,
            _ => false,
        }
    }

    fn fmap<F: FnOnce(A) -> B>(self, f: F) -> (r: Result<B, E>) {
        self.map(f)
    }
}

/// Identity law for `Option`: mapping with a transformation that gives back
/// its argument leaves the value as it was.
pub proof fn lemma_option_fmap_identity<A>(x: Option<A>, r: Option<A>, rel: spec_fn(A, A) -> bool)
    requires
        forall|a: A, b: A| #[trigger] rel(a, b) ==> b == a,
        <Option<A> as Functor<A, A>>::maps_to(&x, r, rel),
    ensures
        r == x,
{
}

/// Composition law for `Option`: mapping with `f` and then with `g` gives
/// what mapping once with "`f`, then `g`" gives.
pub proof fn lemma_option_fmap_composition<A, B, C>(
    x: Option<A>,
    y: Option<B>,
    z: Option<C>,
    w: Option<C>,
    f: spec_fn(A) -> B,
    g: spec_fn(B) -> C,
    rel_f: spec_fn(A, B) -> bool,
    rel_g: spec_fn(B, C) -> bool,
    rel_gf: spec_fn(A, C) -> bool,
)
    requires
        forall|a: A, b: B| #[trigger] rel_f(a, b) ==> b == f(a),
        forall|b: B, c: C| #[trigger] rel_g(b, c) ==> c == g(b),
        forall|a: A, c: C| #[trigger] rel_gf(a, c) ==> c == g(f(a)),
        <Option<A> as Functor<A, B>>::maps_to(&x, y, rel_f),
        <Option<B> as Functor<B, C>>::maps_to(&y, z, rel_g),
        <Option<A> as Functor<A, C>>::maps_to(&x, w, rel_gf),
    ensures
        z == w,
{
}

/// Identity law for `Result`: mapping with a transformation that gives back
/// its argument leaves the value as it was.
pub proof fn lemma_result_fmap_identity<A, E>(
    x: Result<A, E>,
    r: Result<A, E>,
    rel: spec_fn(A, A) -> bool,
)
    requires
        forall|a: A, b: A| #[trigger] rel(a, b) ==> b == a,
        <Result<A, E> as Functor<A, A>>::maps_to(&x, r, rel),
    ensures
        r == x,
{
}

/// Composition law for `Result`: mapping with `f` and then with `g` gives
/// what mapping once with "`f`, then `g`" gives.
pub proof fn lemma_result_fmap_composition<A, B, C, E>(
    x: Result<A, E>,
    y: Result<B, E>,
    z: Result<C, E>,
    w: Result<C, E>,
    f: spec_fn(A) -> B,
    g: spec_fn(B) -> C,
    rel_f: spec_fn(A, B) -> bool,
    rel_g: spec_fn(B, C) -> bool,
    rel_gf: spec_fn(A, C) -> bool,
)
    requires
        forall|a: A, b: B| #[trigger] rel_f(a, b) ==> b == f(a),
        forall|b: B, c: C| #[trigger] rel_g(b, c) ==> c == g(b),
        forall|a: A, c: C| #[trigger] rel_gf(a, c) ==> c == g(f(a)),
        <Result<A, E> as Functor<A, B>>::maps_to(&x, y, rel_f),
        <Result<B, E> as Functor<B, C>>::maps_to(&y, z, rel_g),
        <Result<A, E> as Functor<A, C>>::maps_to(&x, w, rel_gf),
    ensures
        z == w,
{
}

} // verus!
