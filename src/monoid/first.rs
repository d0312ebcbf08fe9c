//! Keeping the first value seen.
use vstd::prelude::*;
use vstd::std_specs::convert::FromSpecImpl;

use crate::monoid::Monoid;
use crate::semigroup::{fold_models, models, Semigroup};

verus! {

/// Keeps the left-hand value if there is one, else the right-hand one; `First(None)` is neutral.
#[derive(Debug, Clone, Copy, PartialEq, Eq, PartialOrd, Ord, Hash)]
pub struct First<T>(pub Option<T>);

impl<T> Semigroup for First<T> {
    type Model = Option<T>;

    open spec fn model(&self) -> Option<T> {
        self.0
    }

    open spec fn combinable(a: Option<T>, b: Option<T>) -> bool {
        true
    }

    open spec fn op(a: Option<T>, b: Option<T>) -> Option<T> {
        match a {
            Some(_) => a,
            None => b,
        }
    }

    proof fn lemma_associative(x: Self, y: Self, z: Self) {
    }

    fn combine(self, rhs: Self) -> (r: Self) {
        match self.0 {
            Some(_) => self,
            None => rhs,
        }
    }
}

/// Nothing seen is neutral.
impl<T> Monoid for First<T> {
    open spec fn identity() -> Option<T> {
        None
    }

    proof fn lemma_identity(x: Self) {
    }

    fn empty() -> (r: Self) {
        First(None)
    }
}

impl<T> Default for First<T> {
    fn default() -> (r: Self)
        ensures
            r.0 is None,
    {
        First(None)
    }
}

impl<T> From<T> for First<T> {
    fn from(value: T) -> (r: Self) {
        First(Some(value))
    }
}

impl<T> FromSpecImpl<T> for First<T> {
    open spec fn obeys_from_spec() -> bool {
        true
    }

    open spec fn from_spec(v: T) -> Self {
        First(Some(v))
    }
}

impl<T> From<Option<T>> for First<T> {
    fn from(value: Option<T>) -> (r: Self) {
        First(value)
    }
}

impl<T> FromSpecImpl<Option<T>> for First<T> {
    open spec fn obeys_from_spec() -> bool {
        true
    }

    open spec fn from_spec(v: Option<T>) -> Self {
        First(v)
    }
}

impl<T> From<First<T>> for Option<T> {
    fn from(value: First<T>) -> (r: Self) {
        value.0
    }
}

impl<T> FromSpecImpl<First<T>> for Option<T> {
    open spec fn obeys_from_spec() -> bool {
        true
    }

    open spec fn from_spec(v: First<T>) -> Self {
        v.0
    }
}

} // verus!

verus! {

/// Reducing a sequence with `First`, starting from the neutral element, gives
/// the first value present, or nothing when none is.
pub proof fn lemma_fold_is_first_present<T>(s: Seq<First<T>>)
    ensures
        match fold_models::<First<T>>(None, models(s)) {
            Some(v) => exists|i: int|
                0 <= i < s.len() && #[trigger] s[i].0 == Some(v) && forall|j: int|
                    0 <= j < i ==> (#[trigger] s[j].0) is None,
            None => forall|i: int| 0 <= i < s.len() ==> (#[trigger] s[i].0) is None,
        },
    decreases s.len(),
{
    if s.len() > 0 {
        let t = s.drop_last();
        lemma_fold_is_first_present::<T>(t);
        assert(models(s).drop_last() =~= models(t));
        let n = s.len() - 1;
        match fold_models::<First<T>>(None, models(t)) {
            Some(v) => {
                let i = choose|i: int|
                    0 <= i < t.len() && #[trigger] t[i].0 == Some(v) && forall|j: int|
                        0 <= j < i ==> (#[trigger] t[j].0) is None;
                assert(s[i] == t[i]);
                assert forall|j: int| 0 <= j < i implies (#[trigger] s[j].0) is None by {
                    assert(s[j] == t[j]);
                }
            },
            None => {
                assert forall|j: int| 0 <= j < n implies (#[trigger] s[j].0) is None by {
                    assert(s[j] == t[j]);
                }
            },
        }
    }
}

} // verus!
