//! Combining by multiplication.
use std::cmp::Ordering;

use vstd::prelude::*;
use vstd::std_specs::cmp::{PartialEqSpec, PartialEqSpecImpl, PartialOrdSpec, PartialOrdSpecImpl};
use vstd::std_specs::convert::FromSpecImpl;
use vstd::arithmetic::mul::lemma_mul_is_associative;

use crate::integer::{fits, Integer};
use crate::monoid::Monoid;
use crate::semigroup::Semigroup;

verus! {

/// Combines by multiplying the wrapped integers; one is neutral.
#[derive(Debug, Clone, Copy, PartialEq, Eq, PartialOrd, Ord, Hash)]
pub struct Product<T>(pub T);

impl<T: Integer> Semigroup for Product<T> {
    type Model = int;

    open spec fn model(&self) -> int {
        self.0.value()
    }

    open spec fn combinable(a: int, b: int) -> bool {
        fits::<T>(a * b)
    }

    open spec fn op(a: int, b: int) -> int {
        a * b
    }

    proof fn lemma_associative(x: Self, y: Self, z: Self) {
        lemma_mul_is_associative(x.0.value(), y.0.value(), z.0.value());
    }

    fn combine(self, rhs: Self) -> (r: Self) {
        Product(self.0.times(rhs.0))
    }
}

impl<T: Integer> Monoid for Product<T> {
    open spec fn identity() -> int {
        1
    }

    proof fn lemma_identity(x: Self) {
        T::lemma_in_range(x.0);
    }

    fn empty() -> (r: Self) {
        Product(T::unity())
    }
}

impl<T: Integer> Default for Product<T> {
    fn default() -> (r: Self)
        ensures
            r.0.value() == 1,
    {
        Product(T::unity())
    }
}

impl<T: PartialEq> PartialEq<T> for Product<T> {
    fn eq(&self, other: &T) -> (r: bool) {
        self.0 == *other
    }
}

impl<T: PartialEq> PartialEqSpecImpl<T> for Product<T> {
    open spec fn obeys_eq_spec() -> bool {
        T::obeys_eq_spec()
    }

    open spec fn eq_spec(&self, other: &T) -> bool {
        self.0.eq_spec(other)
    }
}

impl<T: PartialOrd> PartialOrd<T> for Product<T> {
    fn partial_cmp(&self, other: &T) -> (r: Option<Ordering>) {
        self.0.partial_cmp(other)
    }
}

impl<T: PartialOrd> PartialOrdSpecImpl<T> for Product<T> {
    open spec fn obeys_partial_cmp_spec() -> bool {
        T::obeys_partial_cmp_spec()
    }

    open spec fn partial_cmp_spec(&self, other: &T) -> Option<Ordering> {
        self.0.partial_cmp_spec(other)
    }
}

impl<T> From<T> for Product<T> {
    fn from(value: T) -> (r: Self) {
        Product(value)
    }
}

impl<T> FromSpecImpl<T> for Product<T> {
    open spec fn obeys_from_spec() -> bool {
        true
    }

    open spec fn from_spec(v: T) -> Self {
        Product(v)
    }
}

} // verus!
