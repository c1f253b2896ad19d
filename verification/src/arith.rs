//! The arithmetic of binary fixed-point numbers, stated on their raw values.
//!
//! A fixed-point number with `frac_bits` fractional bits stands for
//! `raw / 2^frac_bits`, where `raw` is the integer it is stored as. Everything
//! in this crate is specified on those raw integers.
use vstd::arithmetic::div_mod::{lemma_fundamental_div_mod, lemma_mod_bound};
use vstd::arithmetic::power2::pow2;
use vstd::prelude::*;

verus! {

/// A fixed-point format: how many fractional bits a raw value has, the raw
/// value of the number one, and the range of raw values the representation
/// holds.
pub struct Format {
    pub frac_bits: nat,
    pub scale: int,
    pub min: int,
    pub max: int,
}

impl Format {
    /// Whether negative numbers are representable.
    pub open spec fn signed(self) -> bool {
        self.min < 0
    }

    /// Whether `raw` is representable.
    pub open spec fn holds(self, raw: int) -> bool {
        self.min <= raw <= self.max
    }

    /// A format is usable when one is two to the number of fractional bits
    /// and is representable, and the range is that of an unsigned or of a
    /// two's-complement integer.
    pub open spec fn valid(self) -> bool {
        &&& self.scale == pow2(self.frac_bits)
        &&& 0 < self.scale <= self.max
        &&& (self.min == 0 || self.min == -self.max - 1)
    }
}

/// The absolute value of a raw value.
pub open spec fn magnitude(raw: int) -> int {
    if raw < 0 {
        -raw
    } else {
        raw
    }
}

/// The distance between two raw values.
pub open spec fn distance(a: int, b: int) -> int {
    magnitude(a - b)
}

/// Integer quotient rounded toward zero, as machine division rounds.
pub open spec fn quotient_toward_zero(n: int, d: int) -> int
    recommends
        d != 0,
{
    if n >= 0 {
        if d > 0 {
            n / d
        } else {
            -(n / (-d))
        }
    } else {
        if d > 0 {
            -((-n) / d)
        } else {
            (-n) / (-d)
        }
    }
}

/// The raw value of a fixed-point product: the exact product rounded down to
/// a multiple of the smallest representable step.
pub open spec fn mul_raw(a: int, b: int, scale: int) -> int
    recommends
        scale > 0,
{
    (a * b) / scale
}

/// The raw value of a fixed-point quotient: the exact quotient rounded toward
/// zero to a multiple of the smallest representable step.
pub open spec fn div_raw(a: int, b: int, scale: int) -> int
    recommends
        scale > 0,
        b != 0,
{
    quotient_toward_zero(a * scale, b)
}

/// Flooring division brackets the dividend between two multiples of the
/// divisor.
pub proof fn lemma_floor_brackets(n: int, d: int)
    requires
        d > 0,
    ensures
        (n / d) * d <= n < (n / d) * d + d,
{
    lemma_fundamental_div_mod(n, d);
    lemma_mod_bound(n, d);
    assert((n / d) * d == d * (n / d)) by (nonlinear_arith);
}

/// Multiplying by a factor between zero and one never grows a non-negative
/// value, and never makes it negative.
pub proof fn lemma_mul_raw_shrinks(factor: int, value: int, scale: int)
    requires
        scale > 0,
        0 <= factor <= scale,
        0 <= value,
    ensures
        0 <= mul_raw(factor, value, scale) <= value,
{
    let product = factor * value;
    let q = product / scale;
    lemma_floor_brackets(product, scale);
    assert(0 <= product <= scale * value) by (nonlinear_arith)
        requires
            0 <= factor <= scale,
            0 <= value,
            product == factor * value,
    ;
    assert(q >= 0) by (nonlinear_arith)
        requires
            q * scale + scale > product,
            product >= 0,
            scale > 0,
    ;
    assert(q <= value) by (nonlinear_arith)
        requires
            q * scale <= product,
            product <= scale * value,
            scale > 0,
    ;
}

/// The quotient of a non-negative part by a positive whole that contains it
/// lies between zero and one, and is the exact quotient rounded down.
pub proof fn lemma_div_raw_is_fraction(part: int, whole: int, scale: int)
    requires
        scale > 0,
        0 <= part <= whole,
        0 < whole,
    ensures
        0 <= div_raw(part, whole, scale) <= scale,
        div_raw(part, whole, scale) * whole <= part * scale,
        part * scale < div_raw(part, whole, scale) * whole + whole,
{
    let n = part * scale;
    let q = n / whole;
    assert(0 <= n <= whole * scale) by (nonlinear_arith)
        requires
            0 <= part <= whole,
            scale > 0,
            n == part * scale,
    ;
    assert(div_raw(part, whole, scale) == q);
    lemma_floor_brackets(n, whole);
    assert(q >= 0) by (nonlinear_arith)
        requires
            q * whole + whole > n,
            n >= 0,
            whole > 0,
    ;
    assert(q <= scale) by (nonlinear_arith)
        requires
            q * whole <= n,
            n <= whole * scale,
            whole > 0,
    ;
}

} // verus!
