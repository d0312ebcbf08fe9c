//! Combining by taking the larger value.
use std::cmp::Ordering;

use vstd::prelude::*;
use vstd::std_specs::cmp::{PartialEqSpec, PartialEqSpecImpl, PartialOrdSpec, PartialOrdSpecImpl};
use vstd::std_specs::convert::FromSpecImpl;

use crate::integer::Integer;
use crate::monoid::Monoid;
use crate::semigroup::{fold_models, models, Semigroup};

verus! {

/// Keeps the larger of the wrapped integers; the type's smallest value is neutral.
#[derive(Debug, Clone, Copy, PartialEq, Eq, PartialOrd, Ord, Hash)]
pub struct Max<T>(pub T);

impl<T: Integer> Semigroup for Max<T> {
    type Model = int;

    open spec fn model(&self) -> int {
        self.0.value()
    }

    open spec fn combinable(a: int, b: int) -> bool {
        true
    }

    open spec fn op(a: int, b: int) -> int {
        if b < a {
            a
        } else {
            b
        }
    }

    proof fn lemma_associative(x: Self, y: Self, z: Self) {
    }

    fn combine(self, rhs: Self) -> (r: Self) {
        if rhs.0.less_than(&self.0) {
            self
        } else {
            rhs
        }
    }
}

impl<T: Integer> Monoid for Max<T> {
    open spec fn identity() -> int {
        T::lowest()
    }

    proof fn lemma_identity(x: Self) {
        T::lemma_in_range(x.0);
    }

    fn empty() -> (r: Self) {
        Max(T::smallest())
    }
}

impl<T: Integer> Default for Max<T> {
    fn default() -> (r: Self)
        ensures
            r.0.value() == T::lowest(),
    {
        Max(T::smallest())
    }
}

impl<T: PartialEq> PartialEq<T> for Max<T> {
    fn eq(&self, other: &T) -> (r: bool) {
        self.0 == *other
    }
}

impl<T: PartialEq> PartialEqSpecImpl<T> for Max<T> {
    open spec fn obeys_eq_spec() -> bool {
        T::obeys_eq_spec()
    }

    open spec fn eq_spec(&self, other: &T) -> bool {
        self.0.eq_spec(other)
    }
}

impl<T: PartialOrd> PartialOrd<T> for Max<T> {
    fn partial_cmp(&self, other: &T) -> (r: Option<Ordering>) {
        self.0.partial_cmp(other)
    }
}

impl<T: PartialOrd> PartialOrdSpecImpl<T> for Max<T> {
    open spec fn obeys_partial_cmp_spec() -> bool {
        T::obeys_partial_cmp_spec()
    }

    open spec fn partial_cmp_spec(&self, other: &T) -> Option<Ordering> {
        self.0.partial_cmp_spec(other)
    }
}

impl<T> From<T> for Max<T> {
    fn from(value: T) -> (r: Self) {
        Max(value)
    }
}

impl<T> FromSpecImpl<T> for Max<T> {
    open spec fn obeys_from_spec() -> bool {
        true
    }

    open spec fn from_spec(v: T) -> Self {
        Max(v)
    }
}

} // verus!

verus! {

/// Reducing a sequence with `Max`, starting from the neutral element, gives
/// the greatest wrapped value, or the type's smallest value when there is
/// none.
pub proof fn lemma_fold_is_greatest<T: Integer>(s: Seq<Max<T>>)
    ensures
        s.len() == 0 ==> fold_models::<Max<T>>(T::lowest(), models(s)) == T::lowest(),
        forall|i: int|
            0 <= i < s.len() ==> #[trigger] s[i].0.value() <= fold_models::<Max<T>>(T::lowest(), models(s)),
        fold_models::<Max<T>>(T::lowest(), models(s)) == T::lowest() || exists|i: int|
            0 <= i < s.len() && fold_models::<Max<T>>(T::lowest(), models(s)) == #[trigger] s[i].0.value(),
    decreases s.len(),
{
    if s.len() > 0 {
        let t = s.drop_last();
        lemma_fold_is_greatest::<T>(t);
        assert(models(s).drop_last() =~= models(t));
        T::lemma_in_range(s.last().0);
        let r = fold_models::<Max<T>>(T::lowest(), models(s));
        if r != T::lowest() && r != s.last().0.value() {
            let i = choose|i: int| 0 <= i < t.len() && fold_models::<Max<T>>(T::lowest(), models(t)) == #[trigger] t[i].0.value();
            assert(r == s[i].0.value());
        }
        assert forall|i: int| 0 <= i < s.len() implies #[trigger] s[i].0.value() <= r by {
            if i < t.len() {
                assert(s[i] == t[i]);
            }
        }
    }
}

} // verus!
