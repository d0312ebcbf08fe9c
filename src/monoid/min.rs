//! Combining by taking the smaller value.
use std::cmp::Ordering;

use vstd::prelude::*;
use vstd::std_specs::cmp::{PartialEqSpec, PartialEqSpecImpl, PartialOrdSpec, PartialOrdSpecImpl};
use vstd::std_specs::convert::FromSpecImpl;

use crate::integer::Integer;
use crate::monoid::Monoid;
use crate::semigroup::{fold_models, models, Semigroup};

verus! {

/// Keeps the smaller of the wrapped integers; the type's largest value is neutral.
#[derive(Debug, Clone, Copy, PartialEq, Eq, PartialOrd, Ord, Hash)]
pub struct Min<T>(pub T);

impl<T: Integer> Semigroup for Min<T> {
    type Model = int;

    open spec fn model(&self) -> int {
        self.0.value()
    }

    open spec fn combinable(a: int, b: int) -> bool {
        true
    }

    open spec fn op(a: int, b: int) -> int {
        if b < a {
            b
        } else {
            a
        }
    }

    proof fn lemma_associative(x: Self, y: Self, z: Self) {
    }

    fn combine(self, rhs: Self) -> (r: Self) {
        if rhs.0.less_than(&self.0) {
            rhs
        } else {
            self
        }
    }
}

impl<T: Integer> Monoid for Min<T> {
    open spec fn identity() -> int {
        T::highest()
    }

    proof fn lemma_identity(x: Self) {
        T::lemma_in_range(x.0);
    }

    fn empty() -> (r: Self) {
        Min(T::largest())
    }
}

impl<T: Integer> Default for Min<T> {
    fn default() -> (r: Self)
        ensures
            r.0.value() == T::highest(),
    {
        Min(T::largest())
    }
}

impl<T: PartialEq> PartialEq<T> for Min<T> {
    fn eq(&self, other: &T) -> (r: bool) {
        self.0 == *other
    }
}

impl<T: PartialEq> PartialEqSpecImpl<T> for Min<T> {
    open spec fn obeys_eq_spec() -> bool {
        T::obeys_eq_spec()
    }

    open spec fn eq_spec(&self, other: &T) -> bool {
        self.0.eq_spec(other)
    }
}

impl<T: PartialOrd> PartialOrd<T> for Min<T> {
    fn partial_cmp(&self, other: &T) -> (r: Option<Ordering>) {
        self.0.partial_cmp(other)
    }
}

impl<T: PartialOrd> PartialOrdSpecImpl<T> for Min<T> {
    open spec fn obeys_partial_cmp_spec() -> bool {
        T::obeys_partial_cmp_spec()
    }

    open spec fn partial_cmp_spec(&self, other: &T) -> Option<Ordering> {
        self.0.partial_cmp_spec(other)
    }
}

impl<T> From<T> for Min<T> {
    fn from(value: T) -> (r: Self) {
        Min(value)
    }
}

impl<T> FromSpecImpl<T> for Min<T> {
    open spec fn obeys_from_spec() -> bool {
        true
    }

    open spec fn from_spec(v: T) -> Self {
        Min(v)
    }
}

} // verus!

verus! {

/// Reducing a sequence with `Min`, starting from the neutral element, gives
/// the least wrapped value, or the type's largest value when there is none.
pub proof fn lemma_fold_is_least<T: Integer>(s: Seq<Min<T>>)
    ensures
        s.len() == 0 ==> fold_models::<Min<T>>(T::highest(), models(s)) == T::highest(),
        forall|i: int|
            0 <= i < s.len() ==> fold_models::<Min<T>>(T::highest(), models(s)) <= #[trigger] s[i].0.value(),
        fold_models::<Min<T>>(T::highest(), models(s)) == T::highest() || exists|i: int|
            0 <= i < s.len() && fold_models::<Min<T>>(T::highest(), models(s)) == #[trigger] s[i].0.value(),
    decreases s.len(),
{
    if s.len() > 0 {
        let t = s.drop_last();
        lemma_fold_is_least::<T>(t);
        assert(models(s).drop_last() =~= models(t));
        T::lemma_in_range(s.last().0);
        let r = fold_models::<Min<T>>(T::highest(), models(s));
        if r != T::highest() && r != s.last().0.value() {
            let i = choose|i: int| 0 <= i < t.len() && fold_models::<Min<T>>(T::highest(), models(t)) == #[trigger] t[i].0.value();
            assert(r == s[i].0.value());
        }
        assert forall|i: int| 0 <= i < s.len() implies r <= #[trigger] s[i].0.value() by {
            if i < t.len() {
                assert(s[i] == t[i]);
            }
        }
    }
}

} // verus!
