//! Combining by addition.
use std::cmp::Ordering;

use vstd::prelude::*;
use vstd::std_specs::cmp::{PartialEqSpec, PartialEqSpecImpl, PartialOrdSpec, PartialOrdSpecImpl};
use vstd::std_specs::convert::FromSpecImpl;

use crate::integer::{fits, Integer};
use crate::monoid::Monoid;
use crate::semigroup::{fold_models, models, Semigroup};

verus! {

/// Combines by adding the wrapped integers; zero is neutral.
#[derive(Debug, Clone, Copy, PartialEq, Eq, PartialOrd, Ord, Hash)]
pub struct Sum<T>(pub T);

impl<T: Integer> Semigroup for Sum<T> {
    type Model = int;

    open spec fn model(&self) -> int {
        self.0.value()
    }

    open spec fn combinable(a: int, b: int) -> bool {
        fits::<T>(a + b)
    }

    open spec fn op(a: int, b: int) -> int {
        a + b
    }

    proof fn lemma_associative(x: Self, y: Self, z: Self) {
    }

    fn combine(self, rhs: Self) -> (r: Self) {
        Sum(self.0.plus(rhs.0))
    }
}

impl<T: Integer> Monoid for Sum<T> {
    open spec fn identity() -> int {
        0
    }

    proof fn lemma_identity(x: Self) {
        T::lemma_in_range(x.0);
    }

    fn empty() -> (r: Self) {
        Sum(T::zero())
    }
}

impl<T: Integer> Default for Sum<T> {
    fn default() -> (r: Self)
        ensures
            r.0.value() == 0,
    {
        Sum(T::zero())
    }
}

impl<T: PartialEq> PartialEq<T> for Sum<T> {
    fn eq(&self, other: &T) -> (r: bool) {
        self.0 == *other
    }
}

impl<T: PartialEq> PartialEqSpecImpl<T> for Sum<T> {
    open spec fn obeys_eq_spec() -> bool {
        T::obeys_eq_spec()
    }

    open spec fn eq_spec(&self, other: &T) -> bool {
        self.0.eq_spec(other)
    }
}

impl<T: PartialOrd> PartialOrd<T> for Sum<T> {
    fn partial_cmp(&self, other: &T) -> (r: Option<Ordering>) {
        self.0.partial_cmp(other)
    }
}

impl<T: PartialOrd> PartialOrdSpecImpl<T> for Sum<T> {
    open spec fn obeys_partial_cmp_spec() -> bool {
        T::obeys_partial_cmp_spec()
    }

    open spec fn partial_cmp_spec(&self, other: &T) -> Option<Ordering> {
        self.0.partial_cmp_spec(other)
    }
}

impl<T> From<T> for Sum<T> {
    fn from(value: T) -> (r: Self) {
        Sum(value)
    }
}

impl<T> FromSpecImpl<T> for Sum<T> {
    open spec fn obeys_from_spec() -> bool {
        true
    }

    open spec fn from_spec(v: T) -> Self {
        Sum(v)
    }
}

} // verus!

verus! {

/// The arithmetic sum of `s`.
pub open spec fn sum_of(s: Seq<int>) -> int
    decreases s.len(),
{
    if s.len() == 0 {
        0
    } else {
        sum_of(s.drop_last()) + s.last()
    }
}

/// Reducing a sequence with `Sum`, starting from zero, gives the arithmetic
/// sum of the wrapped values.
pub proof fn lemma_fold_is_sum<T: Integer>(s: Seq<Sum<T>>)
    ensures
        fold_models::<Sum<T>>(0, models(s)) == sum_of(models(s)),
    decreases s.len(),
{
    if s.len() > 0 {
        lemma_fold_is_sum::<T>(s.drop_last());
        assert(models(s).drop_last() =~= models(s.drop_last()));
    }
}

} // verus!
