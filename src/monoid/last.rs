//! Keeping the last value seen.
use vstd::prelude::*;
use vstd::std_specs::convert::FromSpecImpl;

use crate::monoid::Monoid;
use crate::semigroup::{fold_models, models, Semigroup};

verus! {

/// Keeps the right-hand value if there is one, else the left-hand one; `Last(None)` is neutral.
#[derive(Debug, Clone, Copy, PartialEq, Eq, PartialOrd, Ord, Hash)]
pub struct Last<T>(pub Option<T>);

impl<T> Semigroup for Last<T> {
    type Model = Option<T>;

    open spec fn model(&self) -> Option<T> {
        self.0
    }

    open spec fn combinable(a: Option<T>, b: Option<T>) -> bool {
        true
    }

    open spec fn op(a: Option<T>, b: Option<T>) -> Option<T> {
        match b {
            Some(_) => b,
            None => a,
        }
    }

    proof fn lemma_associative(x: Self, y: Self, z: Self) {
    }

    fn combine(self, rhs: Self) -> (r: Self) {
        match rhs.0 {
            Some(_) => rhs,
            None => self,
        }
    }
}

/// Nothing seen is neutral.
impl<T> Monoid for Last<T> {
    open spec fn identity() -> Option<T> {
        None
    }

    proof fn lemma_identity(x: Self) {
    }

    fn empty() -> (r: Self) {
        Last(None)
    }
}

impl<T> Default for Last<T> {
    fn default() -> (r: Self)
        ensures
            r.0 is None,
    {
        Last(None)
    }
}

impl<T> From<T> for Last<T> {
    fn from(value: T) -> (r: Self) {
        Last(Some(value))
    }
}

impl<T> FromSpecImpl<T> for Last<T> {
    open spec fn obeys_from_spec() -> bool {
        true
    }

    open spec fn from_spec(v: T) -> Self {
        Last(Some(v))
    }
}

impl<T> From<Option<T>> for Last<T> {
    fn from(value: Option<T>) -> (r: Self) {
        Last(value)
    }
}

impl<T> FromSpecImpl<Option<T>> for Last<T> {
    open spec fn obeys_from_spec() -> bool {
        true
    }

    open spec fn from_spec(v: Option<T>) -> Self {
        Last(v)
    }
}

impl<T> From<Last<T>> for Option<T> {
    fn from(value: Last<T>) -> (r: Self) {
        value.0
    }
}

impl<T> FromSpecImpl<Last<T>> for Option<T> {
    open spec fn obeys_from_spec() -> bool {
        true
    }

    open spec fn from_spec(v: Last<T>) -> Self {
        v.0
    }
}

} // verus!

verus! {

/// Reducing a sequence with `Last`, starting from the neutral element, gives
/// the last value present, or nothing when none is.
pub proof fn lemma_fold_is_last_present<T>(s: Seq<Last<T>>)
    ensures
        match fold_models::<Last<T>>(None, models(s)) {
            Some(v) => exists|i: int|
                0 <= i < s.len() && #[trigger] s[i].0 == Some(v) && forall|j: int|
                    i < j < s.len() ==> (#[trigger] s[j].0) is None,
            None => forall|i: int| 0 <= i < s.len() ==> (#[trigger] s[i].0) is None,
        },
    decreases s.len(),
{
    if s.len() > 0 {
        let t = s.drop_last();
        lemma_fold_is_last_present::<T>(t);
        assert(models(s).drop_last() =~= models(t));
        let n = s.len() - 1;
        if s[n].0 is None {
            match fold_models::<Last<T>>(None, models(t)) {
                Some(v) => {
                    let i = choose|i: int|
                        0 <= i < t.len() && #[trigger] t[i].0 == Some(v) && forall|j: int|
                            i < j < t.len() ==> (#[trigger] t[j].0) is None;
                    assert(s[i] == t[i]);
                    assert forall|j: int| i < j < s.len() implies (#[trigger] s[j].0) is None by {
                        if j < n {
                            assert(s[j] == t[j]);
                        }
                    }
                },
                None => {
                    assert forall|j: int| 0 <= j < s.len() implies (#[trigger] s[j].0) is None by {
                        if j < n {
                            assert(s[j] == t[j]);
                        }
                    }
                },
            }
        }
    }
}

} // verus!
