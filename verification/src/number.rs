//! The numbers the filter computes with.
use crate::arith::{div_raw, mul_raw, Format};
use vstd::prelude::*;

verus! {

/// A binary fixed-point number type that can represent one.
///
/// The view of a value is its raw integer; `format()` says how raw values are
/// read. The arithmetic methods are defined only where the exact result, as
/// `arith` states it, is representable: outside of that, fixed-point
/// arithmetic overflows.
pub trait FixedPoint: Copy + View<V = int> {
    /// The format shared by all values of the type.
    spec fn format() -> Format;

    /// The format is usable.
    proof fn lemma_format()
        ensures
            Self::format().valid(),
    ;

    /// Every value is within the format's range.
    proof fn lemma_in_range(self)
        ensures
            Self::format().holds(self@),
    ;

    /// A value is determined by its raw integer.
    proof fn lemma_raw_determines(self, other: Self)
        requires
            self@ == other@,
        ensures
            self == other,
    ;

    /// Whether the type represents negative numbers.
    fn is_signed() -> (r: bool)
        ensures
            r == Self::format().signed(),
    ;

    /// The number zero.
    fn zero() -> (r: Self)
        ensures
            r@ == 0,
    ;

    /// The number one.
    fn one() -> (r: Self)
        ensures
            r@ == Self::format().scale,
    ;

    /// Whether the number is below zero.
    fn is_negative(self) -> (r: bool)
        ensures
            r == (self@ < 0),
    ;

    /// Whether the number is at least `rhs`.
    fn ge(self, rhs: Self) -> (r: bool)
        ensures
            r == (self@ >= rhs@),
    ;

    /// The sum.
    fn add(self, rhs: Self) -> (r: Self)
        requires
            Self::format().holds(self@ + rhs@),
        ensures
            r@ == self@ + rhs@,
    ;

    /// The difference.
    fn sub(self, rhs: Self) -> (r: Self)
        requires
            Self::format().holds(self@ - rhs@),
        ensures
            r@ == self@ - rhs@,
    ;

    /// The product, rounded down.
    fn mul(self, rhs: Self) -> (r: Self)
        requires
            Self::format().holds(mul_raw(self@, rhs@, Self::format().scale)),
        ensures
            r@ == mul_raw(self@, rhs@, Self::format().scale),
    ;

    /// The quotient, rounded toward zero.
    fn div(self, rhs: Self) -> (r: Self)
        requires
            rhs@ != 0,
            Self::format().holds(div_raw(self@, rhs@, Self::format().scale)),
        ensures
            r@ == div_raw(self@, rhs@, Self::format().scale),
    ;
}

} // verus!
