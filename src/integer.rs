//! The fixed-width integer types, as seen by the numeric wrappers.
use vstd::prelude::*;

verus! {

/// A fixed-width integer: a mathematical value within the type's bounds,
/// with exact arithmetic wherever the result stays within them.
pub trait Integer: Sized + Copy {
    /// The mathematical value.
    spec fn value(self) -> int;

    /// The smallest representable value.
    spec fn lowest() -> int;

    /// The largest representable value.
    spec fn highest() -> int;

    /// Every value lies within the bounds, and the bounds take in zero and one.
    proof fn lemma_in_range(x: Self)
        ensures
            Self::lowest() <= x.value() <= Self::highest(),
            Self::lowest() <= 0,
            1 <= Self::highest(),
    ;

    /// The additive identity.
    fn zero() -> (r: Self)
        ensures
            r.value() == 0,
    ;

    /// The multiplicative identity.
    fn unity() -> (r: Self)
        ensures
            r.value() == 1,
    ;

    /// The smallest representable value.
    fn smallest() -> (r: Self)
        ensures
            r.value() == Self::lowest(),
    ;

    /// The largest representable value.
    fn largest() -> (r: Self)
        ensures
            r.value() == Self::highest(),
    ;

    /// Exact addition; the sum must be representable.
    fn plus(self, rhs: Self) -> (r: Self)
        requires
            Self::lowest() <= self.value() + rhs.value() <= Self::highest(),
        ensures
            r.value() == self.value() + rhs.value(),
    ;

    /// Exact multiplication; the product must be representable.
    fn times(self, rhs: Self) -> (r: Self)
        requires
            Self::lowest() <= self.value() * rhs.value() <= Self::highest(),
        ensures
            r.value() == self.value() * rhs.value(),
    ;

    /// Whether `self` is strictly less than `rhs`.
    fn less_than(&self, rhs: &Self) -> (r: bool)
        ensures
            r == (self.value() < rhs.value()),
    ;
}

/// Whether `v` is representable in `T`.
pub open spec fn fits<T: Integer>(v: int) -> bool {
    T::lowest() <= v <= T::highest()
}

/// Relies on `<u8 as num_traits::Bounded>::min_value` returning `u8::MIN`:
/// the neutral element of `Max<u8>`.
pub assume_specification[ <u8 as num_traits::Bounded>::min_value ]() -> (r: u8)
    ensures
        r == u8::MIN,
;

/// Relies on `<u8 as num_traits::Bounded>::max_value` returning `u8::MAX`:
/// the neutral element of `Min<u8>`.
pub assume_specification[ <u8 as num_traits::Bounded>::max_value ]() -> (r: u8)
    ensures
        r == u8::MAX,
;

/// Relies on `<u8 as num_traits::One>::one` returning `1`:
/// the neutral element of `Product<u8>`.
pub assume_specification[ <u8 as num_traits::One>::one ]() -> (r: u8)
    ensures
        r == 1,
;

impl Integer for u8 {
    open spec fn value(self) -> int {
        self as int
    }

    open spec fn lowest() -> int {
        u8::MIN as int
    }

    open spec fn highest() -> int {
        u8::MAX as int
    }

    proof fn lemma_in_range(x: Self) {
    }

    fn zero() -> (r: Self) {
        0
    }

    fn unity() -> (r: Self) {
        <u8 as num_traits::One>::one()
    }

    fn smallest() -> (r: Self) {
        <u8 as num_traits::Bounded>::min_value()
    }

    fn largest() -> (r: Self) {
        <u8 as num_traits::Bounded>::max_value()
    }

    fn plus(self, rhs: Self) -> (r: Self) {
        self + rhs
    }

    fn times(self, rhs: Self) -> (r: Self) {
        self * rhs
    }

    fn less_than(&self, rhs: &Self) -> (r: bool) {
        *self < *rhs
    }
}

/// Relies on `<u16 as num_traits::Bounded>::min_value` returning `u16::MIN`:
/// the neutral element of `Max<u16>`.
pub assume_specification[ <u16 as num_traits::Bounded>::min_value ]() -> (r: u16)
    ensures
        r == u16::MIN,
;

/// Relies on `<u16 as num_traits::Bounded>::max_value` returning `u16::MAX`:
/// the neutral element of `Min<u16>`.
pub assume_specification[ <u16 as num_traits::Bounded>::max_value ]() -> (r: u16)
    ensures
        r == u16::MAX,
;

/// Relies on `<u16 as num_traits::One>::one` returning `1`:
/// the neutral element of `Product<u16>`.
pub assume_specification[ <u16 as num_traits::One>::one ]() -> (r: u16)
    ensures
        r == 1,
;

impl Integer for u16 {
    open spec fn value(self) -> int {
        self as int
    }

    open spec fn lowest() -> int {
        u16::MIN as int
    }

    open spec fn highest() -> int {
        u16::MAX as int
    }

    proof fn lemma_in_range(x: Self) {
    }

    fn zero() -> (r: Self) {
        0
    }

    fn unity() -> (r: Self) {
        <u16 as num_traits::One>::one()
    }

    fn smallest() -> (r: Self) {
        <u16 as num_traits::Bounded>::min_value()
    }

    fn largest() -> (r: Self) {
        <u16 as num_traits::Bounded>::max_value()
    }

    fn plus(self, rhs: Self) -> (r: Self) {
        self + rhs
    }

    fn times(self, rhs: Self) -> (r: Self) {
        self * rhs
    }

    fn less_than(&self, rhs: &Self) -> (r: bool) {
        *self < *rhs
    }
}

/// Relies on `<u32 as num_traits::Bounded>::min_value` returning `u32::MIN`:
/// the neutral element of `Max<u32>`.
pub assume_specification[ <u32 as num_traits::Bounded>::min_value ]() -> (r: u32)
    ensures
        r == u32::MIN,
;

/// Relies on `<u32 as num_traits::Bounded>::max_value` returning `u32::MAX`:
/// the neutral element of `Min<u32>`.
pub assume_specification[ <u32 as num_traits::Bounded>::max_value ]() -> (r: u32)
    ensures
        r == u32::MAX,
;

/// Relies on `<u32 as num_traits::One>::one` returning `1`:
/// the neutral element of `Product<u32>`.
pub assume_specification[ <u32 as num_traits::One>::one ]() -> (r: u32)
    ensures
        r == 1,
;

impl Integer for u32 {
    open spec fn value(self) -> int {
        self as int
    }

    open spec fn lowest() -> int {
        u32::MIN as int
    }

    open spec fn highest() -> int {
        u32::MAX as int
    }

    proof fn lemma_in_range(x: Self) {
    }

    fn zero() -> (r: Self) {
        0
    }

    fn unity() -> (r: Self) {
        <u32 as num_traits::One>::one()
    }

    fn smallest() -> (r: Self) {
        <u32 as num_traits::Bounded>::min_value()
    }

    fn largest() -> (r: Self) {
        <u32 as num_traits::Bounded>::max_value()
    }

    fn plus(self, rhs: Self) -> (r: Self) {
        self + rhs
    }

    fn times(self, rhs: Self) -> (r: Self) {
        self * rhs
    }

    fn less_than(&self, rhs: &Self) -> (r: bool) {
        *self < *rhs
    }
}

/// Relies on `<u64 as num_traits::Bounded>::min_value` returning `u64::MIN`:
/// the neutral element of `Max<u64>`.
pub assume_specification[ <u64 as num_traits::Bounded>::min_value ]() -> (r: u64)
    ensures
        r == u64::MIN,
;

/// Relies on `<u64 as num_traits::Bounded>::max_value` returning `u64::MAX`:
/// the neutral element of `Min<u64>`.
pub assume_specification[ <u64 as num_traits::Bounded>::max_value ]() -> (r: u64)
    ensures
        r == u64::MAX,
;

/// Relies on `<u64 as num_traits::One>::one` returning `1`:
/// the neutral element of `Product<u64>`.
pub assume_specification[ <u64 as num_traits::One>::one ]() -> (r: u64)
    ensures
        r == 1,
;

impl Integer for u64 {
    open spec fn value(self) -> int {
        self as int
    }

    open spec fn lowest() -> int {
        u64::MIN as int
    }

    open spec fn highest() -> int {
        u64::MAX as int
    }

    proof fn lemma_in_range(x: Self) {
    }

    fn zero() -> (r: Self) {
        0
    }

    fn unity() -> (r: Self) {
        <u64 as num_traits::One>::one()
    }

    fn smallest() -> (r: Self) {
        <u64 as num_traits::Bounded>::min_value()
    }

    fn largest() -> (r: Self) {
        <u64 as num_traits::Bounded>::max_value()
    }

    fn plus(self, rhs: Self) -> (r: Self) {
        self + rhs
    }

    fn times(self, rhs: Self) -> (r: Self) {
        self * rhs
    }

    fn less_than(&self, rhs: &Self) -> (r: bool) {
        *self < *rhs
    }
}

/// Relies on `<u128 as num_traits::Bounded>::min_value` returning `u128::MIN`:
/// the neutral element of `Max<u128>`.
pub assume_specification[ <u128 as num_traits::Bounded>::min_value ]() -> (r: u128)
    ensures
        r == u128::MIN,
;

/// Relies on `<u128 as num_traits::Bounded>::max_value` returning `u128::MAX`:
/// the neutral element of `Min<u128>`.
pub assume_specification[ <u128 as num_traits::Bounded>::max_value ]() -> (r: u128)
    ensures
        r == u128::MAX,
;

/// Relies on `<u128 as num_traits::One>::one` returning `1`:
/// the neutral element of `Product<u128>`.
pub assume_specification[ <u128 as num_traits::One>::one ]() -> (r: u128)
    ensures
        r == 1,
;

impl Integer for u128 {
    open spec fn value(self) -> int {
        self as int
    }

    open spec fn lowest() -> int {
        u128::MIN as int
    }

    open spec fn highest() -> int {
        u128::MAX as int
    }

    proof fn lemma_in_range(x: Self) {
    }

    fn zero() -> (r: Self) {
        0
    }

    fn unity() -> (r: Self) {
        <u128 as num_traits::One>::one()
    }

    fn smallest() -> (r: Self) {
        <u128 as num_traits::Bounded>::min_value()
    }

    fn largest() -> (r: Self) {
        <u128 as num_traits::Bounded>::max_value()
    }

    fn plus(self, rhs: Self) -> (r: Self) {
        self + rhs
    }

    fn times(self, rhs: Self) -> (r: Self) {
        self * rhs
    }

    fn less_than(&self, rhs: &Self) -> (r: bool) {
        *self < *rhs
    }
}

/// Relies on `<usize as num_traits::Bounded>::min_value` returning `usize::MIN`:
/// the neutral element of `Max<usize>`.
pub assume_specification[ <usize as num_traits::Bounded>::min_value ]() -> (r: usize)
    ensures
        r == usize::MIN,
;

/// Relies on `<usize as num_traits::Bounded>::max_value` returning `usize::MAX`:
/// the neutral element of `Min<usize>`.
pub assume_specification[ <usize as num_traits::Bounded>::max_value ]() -> (r: usize)
    ensures
        r == usize::MAX,
;

/// Relies on `<usize as num_traits::One>::one` returning `1`:
/// the neutral element of `Product<usize>`.
pub assume_specification[ <usize as num_traits::One>::one ]() -> (r: usize)
    ensures
        r == 1,
;

impl Integer for usize {
    open spec fn value(self) -> int {
        self as int
    }

    open spec fn lowest() -> int {
        usize::MIN as int
    }

    open spec fn highest() -> int {
        usize::MAX as int
    }

    proof fn lemma_in_range(x: Self) {
    }

    fn zero() -> (r: Self) {
        0
    }

    fn unity() -> (r: Self) {
        <usize as num_traits::One>::one()
    }

    fn smallest() -> (r: Self) {
        <usize as num_traits::Bounded>::min_value()
    }

    fn largest() -> (r: Self) {
        <usize as num_traits::Bounded>::max_value()
    }

    fn plus(self, rhs: Self) -> (r: Self) {
        self + rhs
    }

    fn times(self, rhs: Self) -> (r: Self) {
        self * rhs
    }

    fn less_than(&self, rhs: &Self) -> (r: bool) {
        *self < *rhs
    }
}

/// Relies on `<i8 as num_traits::Bounded>::min_value` returning `i8::MIN`:
/// the neutral element of `Max<i8>`.
pub assume_specification[ <i8 as num_traits::Bounded>::min_value ]() -> (r: i8)
    ensures
        r == i8::MIN,
;

/// Relies on `<i8 as num_traits::Bounded>::max_value` returning `i8::MAX`:
/// the neutral element of `Min<i8>`.
pub assume_specification[ <i8 as num_traits::Bounded>::max_value ]() -> (r: i8)
    ensures
        r == i8::MAX,
;

/// Relies on `<i8 as num_traits::One>::one` returning `1`:
/// the neutral element of `Product<i8>`.
pub assume_specification[ <i8 as num_traits::One>::one ]() -> (r: i8)
    ensures
        r == 1,
;

impl Integer for i8 {
    open spec fn value(self) -> int {
        self as int
    }

    open spec fn lowest() -> int {
        i8::MIN as int
    }

    open spec fn highest() -> int {
        i8::MAX as int
    }

    proof fn lemma_in_range(x: Self) {
    }

    fn zero() -> (r: Self) {
        0
    }

    fn unity() -> (r: Self) {
        <i8 as num_traits::One>::one()
    }

    fn smallest() -> (r: Self) {
        <i8 as num_traits::Bounded>::min_value()
    }

    fn largest() -> (r: Self) {
        <i8 as num_traits::Bounded>::max_value()
    }

    fn plus(self, rhs: Self) -> (r: Self) {
        self + rhs
    }

    fn times(self, rhs: Self) -> (r: Self) {
        self * rhs
    }

    fn less_than(&self, rhs: &Self) -> (r: bool) {
        *self < *rhs
    }
}

/// Relies on `<i16 as num_traits::Bounded>::min_value` returning `i16::MIN`:
/// the neutral element of `Max<i16>`.
pub assume_specification[ <i16 as num_traits::Bounded>::min_value ]() -> (r: i16)
    ensures
        r == i16::MIN,
;

/// Relies on `<i16 as num_traits::Bounded>::max_value` returning `i16::MAX`:
/// the neutral element of `Min<i16>`.
pub assume_specification[ <i16 as num_traits::Bounded>::max_value ]() -> (r: i16)
    ensures
        r == i16::MAX,
;

/// Relies on `<i16 as num_traits::One>::one` returning `1`:
/// the neutral element of `Product<i16>`.
pub assume_specification[ <i16 as num_traits::One>::one ]() -> (r: i16)
    ensures
        r == 1,
;

impl Integer for i16 {
    open spec fn value(self) -> int {
        self as int
    }

    open spec fn lowest() -> int {
        i16::MIN as int
    }

    open spec fn highest() -> int {
        i16::MAX as int
    }

    proof fn lemma_in_range(x: Self) {
    }

    fn zero() -> (r: Self) {
        0
    }

    fn unity() -> (r: Self) {
        <i16 as num_traits::One>::one()
    }

    fn smallest() -> (r: Self) {
        <i16 as num_traits::Bounded>::min_value()
    }

    fn largest() -> (r: Self) {
        <i16 as num_traits::Bounded>::max_value()
    }

    fn plus(self, rhs: Self) -> (r: Self) {
        self + rhs
    }

    fn times(self, rhs: Self) -> (r: Self) {
        self * rhs
    }

    fn less_than(&self, rhs: &Self) -> (r: bool) {
        *self < *rhs
    }
}

/// Relies on `<i32 as num_traits::Bounded>::min_value` returning `i32::MIN`:
/// the neutral element of `Max<i32>`.
pub assume_specification[ <i32 as num_traits::Bounded>::min_value ]() -> (r: i32)
    ensures
        r == i32::MIN,
;

/// Relies on `<i32 as num_traits::Bounded>::max_value` returning `i32::MAX`:
/// the neutral element of `Min<i32>`.
pub assume_specification[ <i32 as num_traits::Bounded>::max_value ]() -> (r: i32)
    ensures
        r == i32::MAX,
;

/// Relies on `<i32 as num_traits::One>::one` returning `1`:
/// the neutral element of `Product<i32>`.
pub assume_specification[ <i32 as num_traits::One>::one ]() -> (r: i32)
    ensures
        r == 1,
;

impl Integer for i32 {
    open spec fn value(self) -> int {
        self as int
    }

    open spec fn lowest() -> int {
        i32::MIN as int
    }

    open spec fn highest() -> int {
        i32::MAX as int
    }

    proof fn lemma_in_range(x: Self) {
    }

    fn zero() -> (r: Self) {
        0
    }

    fn unity() -> (r: Self) {
        <i32 as num_traits::One>::one()
    }

    fn smallest() -> (r: Self) {
        <i32 as num_traits::Bounded>::min_value()
    }

    fn largest() -> (r: Self) {
        <i32 as num_traits::Bounded>::max_value()
    }

    fn plus(self, rhs: Self) -> (r: Self) {
        self + rhs
    }

    fn times(self, rhs: Self) -> (r: Self) {
        self * rhs
    }

    fn less_than(&self, rhs: &Self) -> (r: bool) {
        *self < *rhs
    }
}

/// Relies on `<i64 as num_traits::Bounded>::min_value` returning `i64::MIN`:
/// the neutral element of `Max<i64>`.
pub assume_specification[ <i64 as num_traits::Bounded>::min_value ]() -> (r: i64)
    ensures
        r == i64::MIN,
;

/// Relies on `<i64 as num_traits::Bounded>::max_value` returning `i64::MAX`:
/// the neutral element of `Min<i64>`.
pub assume_specification[ <i64 as num_traits::Bounded>::max_value ]() -> (r: i64)
    ensures
        r == i64::MAX,
;

/// Relies on `<i64 as num_traits::One>::one` returning `1`:
/// the neutral element of `Product<i64>`.
pub assume_specification[ <i64 as num_traits::One>::one ]() -> (r: i64)
    ensures
        r == 1,
;

impl Integer for i64 {
    open spec fn value(self) -> int {
        self as int
    }

    open spec fn lowest() -> int {
        i64::MIN as int
    }

    open spec fn highest() -> int {
        i64::MAX as int
    }

    proof fn lemma_in_range(x: Self) {
    }

    fn zero() -> (r: Self) {
        0
    }

    fn unity() -> (r: Self) {
        <i64 as num_traits::One>::one()
    }

    fn smallest() -> (r: Self) {
        <i64 as num_traits::Bounded>::min_value()
    }

    fn largest() -> (r: Self) {
        <i64 as num_traits::Bounded>::max_value()
    }

    fn plus(self, rhs: Self) -> (r: Self) {
        self + rhs
    }

    fn times(self, rhs: Self) -> (r: Self) {
        self * rhs
    }

    fn less_than(&self, rhs: &Self) -> (r: bool) {
        *self < *rhs
    }
}

/// Relies on `<i128 as num_traits::Bounded>::min_value` returning `i128::MIN`:
/// the neutral element of `Max<i128>`.
pub assume_specification[ <i128 as num_traits::Bounded>::min_value ]() -> (r: i128)
    ensures
        r == i128::MIN,
;

/// Relies on `<i128 as num_traits::Bounded>::max_value` returning `i128::MAX`:
/// the neutral element of `Min<i128>`.
pub assume_specification[ <i128 as num_traits::Bounded>::max_value ]() -> (r: i128)
    ensures
        r == i128::MAX,
;

/// Relies on `<i128 as num_traits::One>::one` returning `1`:
/// the neutral element of `Product<i128>`.
pub assume_specification[ <i128 as num_traits::One>::one ]() -> (r: i128)
    ensures
        r == 1,
;

impl Integer for i128 {
    open spec fn value(self) -> int {
        self as int
    }

    open spec fn lowest() -> int {
        i128::MIN as int
    }

    open spec fn highest() -> int {
        i128::MAX as int
    }

    proof fn lemma_in_range(x: Self) {
    }

    fn zero() -> (r: Self) {
        0
    }

    fn unity() -> (r: Self) {
        <i128 as num_traits::One>::one()
    }

    fn smallest() -> (r: Self) {
        <i128 as num_traits::Bounded>::min_value()
    }

    fn largest() -> (r: Self) {
        <i128 as num_traits::Bounded>::max_value()
    }

    fn plus(self, rhs: Self) -> (r: Self) {
        self + rhs
    }

    fn times(self, rhs: Self) -> (r: Self) {
        self * rhs
    }

    fn less_than(&self, rhs: &Self) -> (r: bool) {
        *self < *rhs
    }
}

/// Relies on `<isize as num_traits::Bounded>::min_value` returning `isize::MIN`:
/// the neutral element of `Max<isize>`.
pub assume_specification[ <isize as num_traits::Bounded>::min_value ]() -> (r: isize)
    ensures
        r == isize::MIN,
;

/// Relies on `<isize as num_traits::Bounded>::max_value` returning `isize::MAX`:
/// the neutral element of `Min<isize>`.
pub assume_specification[ <isize as num_traits::Bounded>::max_value ]() -> (r: isize)
    ensures
        r == isize::MAX,
;

/// Relies on `<isize as num_traits::One>::one` returning `1`:
/// the neutral element of `Product<isize>`.
pub assume_specification[ <isize as num_traits::One>::one ]() -> (r: isize)
    ensures
        r == 1,
;

impl Integer for isize {
    open spec fn value(self) -> int {
        self as int
    }

    open spec fn lowest() -> int {
        isize::MIN as int
    }

    open spec fn highest() -> int {
        isize::MAX as int
    }

    proof fn lemma_in_range(x: Self) {
    }

    fn zero() -> (r: Self) {
        0
    }

    fn unity() -> (r: Self) {
        <isize as num_traits::One>::one()
    }

    fn smallest() -> (r: Self) {
        <isize as num_traits::Bounded>::min_value()
    }

    fn largest() -> (r: Self) {
        <isize as num_traits::Bounded>::max_value()
    }

    fn plus(self, rhs: Self) -> (r: Self) {
        self + rhs
    }

    fn times(self, rhs: Self) -> (r: Self) {
        self * rhs
    }

    fn less_than(&self, rhs: &Self) -> (r: bool) {
        *self < *rhs
    }
}

} // verus!
