//! Combinable values with a neutral element, and the wrappers that give a
//! plain value one particular way of combining.
use std::marker::PhantomData;

use vstd::prelude::*;

use crate::integer::Integer;
use crate::semigroup::{combine_all, fold_models, foldable, models, Semigroup};

pub mod all;
pub mod any;
pub mod first;
pub mod last;
pub mod max;
pub mod min;
pub mod product;
pub mod sum;

pub use self::all::All;
pub use self::any::Any;
pub use self::first::First;
pub use self::last::Last;
pub use self::max::Max;
pub use self::min::Min;
pub use self::product::Product;
pub use self::sum::Sum;

verus! {

/// A [`Semigroup`] with a neutral element: `empty()` combined with any `x`,
/// on either side, gives `x` back.
pub trait Monoid: Semigroup {
    /// The model of the neutral element.
    spec fn identity() -> Self::Model;

    /// The neutral element is a two-sided identity for combining.
    proof fn lemma_identity(x: Self)
        ensures
            Self::combinable(Self::identity(), x.model()),
            Self::op(Self::identity(), x.model()) == x.model(),
            Self::combinable(x.model(), Self::identity()),
            Self::op(x.model(), Self::identity()) == x.model(),
    ;

    fn empty() -> (r: Self)
        ensures
            r.model() == Self::identity(),
    ;
}

/// Combines all of `values`, from the left, starting from the neutral
/// element; an empty `values` gives the neutral element.
pub fn reduce<T: Monoid>(values: Vec<T>) -> (r: T)
    requires
        foldable::<T>(T::identity(), models(values@)),
    ensures
        r.model() == fold_models::<T>(T::identity(), models(values@)),
{
    combine_all(T::empty(), values)
}

/// `None` is neutral.
impl<T: Semigroup> Monoid for Option<T> {
    open spec fn identity() -> Option<T::Model> {
        None
    }

    proof fn lemma_identity(x: Self) {
    }

    fn empty() -> (r: Self) {
        None
    }
}

/// The empty string is neutral.
impl Monoid for String {
    open spec fn identity() -> Seq<char> {
        Seq::empty()
    }

    proof fn lemma_identity(x: Self) {
        assert(Seq::<char>::empty() + x@ =~= x@);
        assert(x@ + Seq::<char>::empty() =~= x@);
    }

    fn empty() -> (r: Self) {
        String::new()
    }
}

/// The empty vector is neutral.
impl<T> Monoid for Vec<T> {
    open spec fn identity() -> Seq<T> {
        Seq::empty()
    }

    proof fn lemma_identity(x: Self) {
        assert(Seq::<T>::empty() + x@ =~= x@);
        assert(x@ + Seq::<T>::empty() =~= x@);
    }

    fn empty() -> (r: Self) {
        Vec::new()
    }
}

/// The pair of neutral elements is neutral.
impl<A: Monoid, B: Monoid> Monoid for (A, B) {
    open spec fn identity() -> (A::Model, B::Model) {
        (A::identity(), B::identity())
    }

    proof fn lemma_identity(x: Self) {
        A::lemma_identity(x.0);
        B::lemma_identity(x.1);
    }

    fn empty() -> (r: Self) {
        (A::empty(), B::empty())
    }
}

impl<T> Monoid for PhantomData<T> {
    open spec fn identity() -> () {
        ()
    }

    proof fn lemma_identity(x: Self) {
    }

    fn empty() -> (r: Self) {
        PhantomData
    }
}

/// Zero is neutral for addition.
impl<T: Integer> Monoid for T {
    open spec fn identity() -> int {
        0
    }

    proof fn lemma_identity(x: Self) {
        T::lemma_in_range(x);
    }

    fn empty() -> (r: Self) {
        T::zero()
    }
}

} // verus!
