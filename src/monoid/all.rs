//! Combining by logical and.
use std::cmp::Ordering;

use vstd::prelude::*;
use vstd::std_specs::cmp::{PartialOrdSpecImpl, PartialEqSpecImpl};
use vstd::std_specs::convert::FromSpecImpl;

use crate::monoid::Monoid;
use crate::semigroup::{fold_models, models, Semigroup};

verus! {

/// Combines by logical and; `All(true)` is neutral.
#[derive(Debug, Clone, Copy, PartialEq, Eq, PartialOrd, Ord, Hash)]
pub struct All(pub bool);

impl Semigroup for All {
    type Model = bool;

    open spec fn model(&self) -> bool {
        self.0
    }

    open spec fn combinable(a: bool, b: bool) -> bool {
        true
    }

    open spec fn op(a: bool, b: bool) -> bool {
        a && b
    }

    proof fn lemma_associative(x: Self, y: Self, z: Self) {
    }

    fn combine(self, rhs: Self) -> (r: Self) {
        All(self.0 && rhs.0)
    }
}

impl Monoid for All {
    open spec fn identity() -> bool {
        true
    }

    proof fn lemma_identity(x: Self) {
    }

    fn empty() -> (r: Self) {
        All(true)
    }
}

impl Default for All {
    fn default() -> (r: Self)
        ensures
            r.0 == true,
    {
        All(true)
    }
}

impl PartialEq<bool> for All {
    fn eq(&self, other: &bool) -> (r: bool) {
        self.0 == *other
    }
}

impl PartialEqSpecImpl<bool> for All {
    open spec fn obeys_eq_spec() -> bool {
        true
    }

    open spec fn eq_spec(&self, other: &bool) -> bool {
        self.0 == *other
    }
}

impl PartialOrd<bool> for All {
    fn partial_cmp(&self, other: &bool) -> (r: Option<Ordering>) {
        if self.0 == *other {
            Some(Ordering::Equal)
        } else if !self.0 {
            Some(Ordering::Less)
        } else {
            Some(Ordering::Greater)
        }
    }
}

impl PartialOrdSpecImpl<bool> for All {
    open spec fn obeys_partial_cmp_spec() -> bool {
        true
    }

    open spec fn partial_cmp_spec(&self, other: &bool) -> Option<Ordering> {
        if self.0 == *other {
            Some(Ordering::Equal)
        } else if !self.0 {
            Some(Ordering::Less)
        } else {
            Some(Ordering::Greater)
        }
    }
}

impl From<bool> for All {
    fn from(value: bool) -> (r: Self) {
        All(value)
    }
}

impl FromSpecImpl<bool> for All {
    open spec fn obeys_from_spec() -> bool {
        true
    }

    open spec fn from_spec(v: bool) -> Self {
        All(v)
    }
}

} // verus!

verus! {

/// Reducing a sequence with `All`, starting from the neutral element, gives
/// whether every wrapped value is true.
pub proof fn lemma_fold_is_every(s: Seq<All>)
    ensures
        fold_models::<All>(true, models(s)) == forall|i: int| 0 <= i < s.len() ==> (#[trigger] s[i]).0,
    decreases s.len(),
{
    if s.len() > 0 {
        let t = s.drop_last();
        let n = s.len() - 1;
        lemma_fold_is_every(t);
        assert(models(s).drop_last() =~= models(t));
        if fold_models::<All>(true, models(s)) {
            assert forall|i: int| 0 <= i < s.len() implies (#[trigger] s[i]).0 by {
                if i < n {
                    assert(s[i] == t[i]);
                }
            }
        } else if s[n].0 {
            let i = choose|i: int| 0 <= i < t.len() && !(#[trigger] t[i]).0;
            assert(s[i] == t[i]);
        }
    }
}

} // verus!
