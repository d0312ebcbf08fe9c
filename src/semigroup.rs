//! Values with an associative way of combining two of them into one.
use std::cmp::Ordering;
use std::marker::PhantomData;

use vstd::prelude::*;

use crate::integer::{fits, Integer};

verus! {

/// A type whose values combine two at a time, associatively.
///
/// Combining is described over an abstract `Model` of the values. `combine`
/// may demand `combinable` of its operands: that is false only where the
/// arithmetic of a wrapped integer type would overflow.
pub trait Semigroup: Sized {
    /// The abstract value that combining works on.
    type Model;

    spec fn model(&self) -> Self::Model;

    /// Whether operands with these models can be combined.
    spec fn combinable(a: Self::Model, b: Self::Model) -> bool;

    /// The model of the combination of operands with models `a` and `b`.
    spec fn op(a: Self::Model, b: Self::Model) -> Self::Model;

    /// Combining is associative: `(x . y) . z` and `x . (y . z)` agree
    /// wherever both groupings can be computed.
    proof fn lemma_associative(x: Self, y: Self, z: Self)
        requires
            Self::combinable(x.model(), y.model()),
            Self::combinable(Self::op(x.model(), y.model()), z.model()),
            Self::combinable(y.model(), z.model()),
            Self::combinable(x.model(), Self::op(y.model(), z.model())),
        ensures
            Self::op(Self::op(x.model(), y.model()), z.model()) == Self::op(
                x.model(),
                Self::op(y.model(), z.model()),
            ),
    ;

    fn combine(self, rhs: Self) -> (r: Self)
        requires
            Self::combinable(self.model(), rhs.model()),
        ensures
            r.model() == Self::op(self.model(), rhs.model()),
    ;
}

/// The models of a sequence of values.
pub open spec fn models<T: Semigroup>(s: Seq<T>) -> Seq<T::Model> {
    s.map_values(|t: T| t.model())
}

/// The model of combining `acc` with each of `s` in turn, from the left.
pub open spec fn fold_models<T: Semigroup>(acc: T::Model, s: Seq<T::Model>) -> T::Model {
    s.fold_left(acc, |a: T::Model, m: T::Model| T::op(a, m))
}

/// Every step of that fold can be computed.
pub open spec fn foldable<T: Semigroup>(acc: T::Model, s: Seq<T::Model>) -> bool {
    forall|i: int| 0 <= i < s.len() ==> T::combinable(#[trigger] fold_models::<T>(acc, s.take(i)), s[i])
}

/// Combines `init` with each of `values` in turn, from the left:
/// `init.combine(values[0]).combine(values[1])...`.
pub fn combine_all<T: Semigroup>(init: T, values: Vec<T>) -> (r: T)
    requires
        foldable::<T>(init.model(), models(values@)),
    ensures
        r.model() == fold_models::<T>(init.model(), models(values@)),
{
    let ghost s = models(values@);
    let ghost m0 = init.model();
    let mut acc = init;
    for v in it: values.into_iter()
        invariant
            it.seq() == values@,
            s == models(values@),
            foldable::<T>(m0, s),
            acc.model() == fold_models::<T>(m0, s.take(it.index() as int)),
    {
        let ghost i = it.index() as int;
        proof {
            assert(s.take(i + 1).drop_last() =~= s.take(i));
        }
        acc = acc.combine(v);
    }
    proof {
        assert(s.take(s.len() as int) =~= s);
    }
    acc
}

/// Two present values are combined; otherwise whichever is present is kept.
impl<T: Semigroup> Semigroup for Option<T> {
    type Model = Option<T::Model>;

    open spec fn model(&self) -> Option<T::Model> {
        match self {
            Some(t) => Some(t.model()),
            None => None,
        }
    }

    open spec fn combinable(a: Option<T::Model>, b: Option<T::Model>) -> bool {
        match (a, b) {
            (Some(x), Some(y)) => T::combinable(x, y),
            _ => true,
        }
    }

    open spec fn op(a: Option<T::Model>, b: Option<T::Model>) -> Option<T::Model> {
        match (a, b) {
            (Some(x), Some(y)) => Some(T::op(x, y)),
            (Some(x), None) => Some(x),
            (None, _) => b,
        }
    }

    proof fn lemma_associative(x: Self, y: Self, z: Self) {
        if let (Some(a), Some(b), Some(c)) = (x, y, z) {
            T::lemma_associative(a, b, c);
        }
    }

    fn combine(self, rhs: Self) -> (r: Self) {
        match (self, rhs) {
            (Some(left), Some(right)) => Some(left.combine(right)),
            (Some(left), None) => Some(left),
            (None, right) => right,
        }
    }
}

/// The first `Ok` wins; of two errors the second is kept.
impl<T, E> Semigroup for Result<T, E> {
    type Model = Result<T, E>;

    open spec fn model(&self) -> Result<T, E> {
        *self
    }

    open spec fn combinable(a: Result<T, E>, b: Result<T, E>) -> bool {
        true
    }

    open spec fn op(a: Result<T, E>, b: Result<T, E>) -> Result<T, E> {
        match a {
            Err(_) => b,
            Ok(_) => a,
        }
    }

    proof fn lemma_associative(x: Self, y: Self, z: Self) {
    }

    fn combine(self, rhs: Self) -> (r: Self) {
        match self {
            Err(_) => rhs,
            Ok(_) => self,
        }
    }
}

/// Lexicographic: the first comparison that is not `Equal` decides.
impl Semigroup for Ordering {
    type Model = Ordering;

    open spec fn model(&self) -> Ordering {
        *self
    }

    open spec fn combinable(a: Ordering, b: Ordering) -> bool {
        true
    }

    open spec fn op(a: Ordering, b: Ordering) -> Ordering {
        match a {
            Ordering::Equal => b,
            _ => a,
        }
    }

    proof fn lemma_associative(x: Self, y: Self, z: Self) {
    }

    fn combine(self, rhs: Self) -> (r: Self) {
        match self {
            Ordering::Less => Ordering::Less,
            Ordering::Equal => rhs,
            Ordering::Greater => Ordering::Greater,
        }
    }
}

/// Concatenation.
impl Semigroup for String {
    type Model = Seq<char>;

    open spec fn model(&self) -> Seq<char> {
        self@
    }

    open spec fn combinable(a: Seq<char>, b: Seq<char>) -> bool {
        true
    }

    open spec fn op(a: Seq<char>, b: Seq<char>) -> Seq<char> {
        a + b
    }

    proof fn lemma_associative(x: Self, y: Self, z: Self) {
        assert(x@ + y@ + z@ =~= x@ + (y@ + z@));
    }

    fn combine(self, rhs: Self) -> (r: Self) {
        self.concat(rhs.as_str())
    }
}

/// Concatenation.
impl<T> Semigroup for Vec<T> {
    type Model = Seq<T>;

    open spec fn model(&self) -> Seq<T> {
        self@
    }

    open spec fn combinable(a: Seq<T>, b: Seq<T>) -> bool {
        true
    }

    open spec fn op(a: Seq<T>, b: Seq<T>) -> Seq<T> {
        a + b
    }

    proof fn lemma_associative(x: Self, y: Self, z: Self) {
        assert(x@ + y@ + z@ =~= x@ + (y@ + z@));
    }

    fn combine(self, rhs: Self) -> (r: Self) {
        let mut left = self;
        let mut right = rhs;
        left.append(&mut right);
        left
    }
}

/// Field by field: a record of two combinable parts combines each part.
impl<A: Semigroup, B: Semigroup> Semigroup for (A, B) {
    type Model = (A::Model, B::Model);

    open spec fn model(&self) -> (A::Model, B::Model) {
        (self.0.model(), self.1.model())
    }

    open spec fn combinable(a: (A::Model, B::Model), b: (A::Model, B::Model)) -> bool {
        A::combinable(a.0, b.0) && B::combinable(a.1, b.1)
    }

    open spec fn op(a: (A::Model, B::Model), b: (A::Model, B::Model)) -> (A::Model, B::Model) {
        (A::op(a.0, b.0), B::op(a.1, b.1))
    }

    proof fn lemma_associative(x: Self, y: Self, z: Self) {
        A::lemma_associative(x.0, y.0, z.0);
        B::lemma_associative(x.1, y.1, z.1);
    }

    fn combine(self, rhs: Self) -> (r: Self) {
        let (a0, b0) = self;
        let (a1, b1) = rhs;
        (a0.combine(a1), b0.combine(b1))
    }
}

/// Nothing to combine.
impl<T> Semigroup for PhantomData<T> {
    type Model = ();

    open spec fn model(&self) -> () {
        ()
    }

    open spec fn combinable(a: (), b: ()) -> bool {
        true
    }

    open spec fn op(a: (), b: ()) -> () {
        ()
    }

    proof fn lemma_associative(x: Self, y: Self, z: Self) {
    }

    fn combine(self, rhs: Self) -> (r: Self) {
        self
    }
}

/// Addition, defined where the sum is representable.
impl<T: Integer> Semigroup for T {
    type Model = int;

    open spec fn model(&self) -> int {
        self.value()
    }

    open spec fn combinable(a: int, b: int) -> bool {
        fits::<T>(a + b)
    }

    open spec fn op(a: int, b: int) -> int {
        a + b
    }

    proof fn lemma_associative(x: Self, y: Self, z: Self) {
    }

    fn combine(self, rhs: Self) -> (r: Self) {
        self.plus(rhs)
    }
}

} // verus!
