//! Algebraic building blocks: values that combine associatively
//! ([`Semigroup`]), combinable values with a neutral element ([`Monoid`]),
//! wrappers that give a plain value one particular way of combining, and
//! mapping inside `Option` and `Result` ([`Functor`]).
//!
//! Every `combine` is specified over an abstract model of its operands, and
//! each instance proves associativity (and, for monoids, the identity laws)
//! against that model.
pub mod functor;
pub mod hkt;
pub mod integer;
pub mod monoid;
pub mod prelude;
pub mod semigroup;

pub use functor::Functor;
pub use hkt::HKT;
pub use integer::Integer;
pub use monoid::{All, Any, First, Last, Max, Min, Monoid, Product, Sum};
pub use semigroup::Semigroup;
