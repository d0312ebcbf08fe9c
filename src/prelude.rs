//! The traits and wrappers that most users want in scope.
pub use crate::monoid::{All, Any, First, Last, Max, Min, Monoid, Product, Sum};
pub use crate::semigroup::Semigroup;
