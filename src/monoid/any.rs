//! Combining by logical or.
use std::cmp::Ordering;

use vstd::prelude::*;
use vstd::std_specs::cmp::{PartialOrdSpecImpl, PartialEqSpecImpl};
use vstd::std_specs::convert::FromSpecImpl;

use crate::monoid::Monoid;
use crate::semigroup::{fold_models, models, Semigroup};

verus! {

/// Combines by logical or; `Any(false)` is neutral.
#[derive(Debug, Clone, Copy, PartialEq, Eq, PartialOrd, Ord, Hash)]
pub struct Any(pub bool);

impl Semigroup for Any {
    type Model = bool;

    open spec fn model(&self) -> bool {
        self.0
    }

    open spec fn combinable(a: bool, b: bool) -> bool {
        true
    }

    open spec fn op(a: bool, b: bool) -> bool {
        a || b
    }

    proof fn lemma_associative(x: Self, y: Self, z: Self) {
    }

    fn combine(self, rhs: Self) -> (r: Self) {
        Any(self.0 || rhs.0)
    }
}

impl Monoid for Any {
    open spec fn identity() -> bool {
        false
    }

    proof fn lemma_identity(x: Self) {
    }

    fn empty() -> (r: Self) {
        Any(false)
    }
}

impl Default for Any {
    fn default() -> (r: Self)
        ensures
            r.0 == false,
    {
        Any(false)
    }
}

impl PartialEq<bool> for Any {
    fn eq(&self, other: &bool) -> (r: bool) {
        self.0 == *other
    }
}

impl PartialEqSpecImpl<bool> for Any {
    open spec fn obeys_eq_spec() -> bool {
        true
    }

    open spec fn eq_spec(&self, other: &bool) -> bool {
        self.0 == *other
    }
}

impl PartialOrd<bool> for Any {
    fn partial_cmp(&self, other: &bool) -> (r: Option<Ordering>) {
        if self.0 == *other {
            Some(Ordering::Equal)
        } else if !self.0 {
            Some(Ordering::Less)
        } else {
            Some(Ordering::Greater)
        }
    }
}

impl PartialOrdSpecImpl<bool> for Any {
    open spec fn obeys_partial_cmp_spec() -> bool {
        true
    }

    open spec fn partial_cmp_spec(&self, other: &bool) -> Option<Ordering> {
        if self.0 == *other {
            Some(Ordering::Equal)
        } else if !self.0 {
            Some(Ordering::Less)
        } else {
            Some(Ordering::Greater)
        }
    }
}

impl From<bool> for Any {
    fn from(value: bool) -> (r: Self) {
        Any(value)
    }
}

impl FromSpecImpl<bool> for Any {
    open spec fn obeys_from_spec() -> bool {
        true
    }

    open spec fn from_spec(v: bool) -> Self {
        Any(v)
    }
}

} // verus!

verus! {

/// Reducing a sequence with `Any`, starting from the neutral element, gives
/// whether some wrapped value is true.
pub proof fn lemma_fold_is_some(s: Seq<Any>)
    ensures
        fold_models::<Any>(false, models(s)) == exists|i: int| 0 <= i < s.len() && (#[trigger] s[i]).0,
    decreases s.len(),
{
    if s.len() > 0 {
        let t = s.drop_last();
        let n = s.len() - 1;
        lemma_fold_is_some(t);
        assert(models(s).drop_last() =~= models(t));
        if !fold_models::<Any>(false, models(s)) {
            assert forall|i: int| 0 <= i < s.len() implies !(#[trigger] s[i]).0 by {
                if i < n {
                    assert(s[i] == t[i]);
                }
            }
        } else if !s[n].0 {
            let i = choose|i: int| 0 <= i < t.len() && (#[trigger] t[i]).0;
            assert(s[i] == t[i]);
        }
    }
}

} // verus!
