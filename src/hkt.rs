//! Naming "the same container, holding another element type".
use vstd::prelude::*;

verus! {

/// `Self` is a container holding an `A`; `Target` is the container of the
/// same shape holding a `B` instead.
pub trait HKT<A, B> {
    type Target;
}

impl<A, B> HKT<A, B> for Option<A> {
    type Target = Option<B>;
}

/// The error type stays as it is.
impl<A, B, E> HKT<A, B> for Result<A, E> {
    type Target = Result<B, E>;
}

} // verus!
