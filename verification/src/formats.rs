//! The fixed-point types the filter is offered for.
//!
//! Each type stores the raw integer of a number, as the `fixed` crate's type
//! of the same name does, and has its arithmetic done by that type. A number
//! of the `fixed` crate and one of this module with the same raw value
//! (`to_bits`, `from_bits`) are the same number.
//!
//! The four arithmetic functions of each type are the crate's boundary to
//! `fixed`: their contracts are taken from its source, not proved. Each
//! leaves out the operands on which the outside operator overflows or divides
//! by zero, where it panics or wraps depending on how it was built.
use crate::arith::{div_raw, mul_raw, Format};
use crate::number::FixedPoint;
use vstd::arithmetic::power2::lemma2_to64;
use vstd::prelude::*;

verus! {

/// A signed number with 8 integer and 24 fractional bits.
#[derive(Clone, Copy, Debug, PartialEq, Eq, Structural)]
pub struct I8F24 {
    bits: i32,
}

impl View for I8F24 {
    type V = int;

    closed spec fn view(&self) -> int {
        self.bits as int
    }
}

impl I8F24 {
    /// The number with the given raw value.
    pub fn from_bits(bits: i32) -> (r: Self)
        ensures
            r@ == bits,
    {
        I8F24 { bits }
    }

    /// The raw value.
    pub fn to_bits(self) -> (r: i32)
        ensures
            r == self@,
    {
        self.bits
    }
}

/// The operator `+` of `fixed::types::I8F24`, that is `Add::add` of
/// `fixed::FixedI32`. It adds the raw values as `i32`, so the result is
/// their sum where the sum fits.
#[verifier::external_body]
fn i8f24_add(a: i32, b: i32) -> (r: i32)
    requires
        i32::MIN <= a + b <= i32::MAX,
    ensures
        r == a + b,
{
    (fixed::types::I8F24::from_bits(a) + fixed::types::I8F24::from_bits(b)).to_bits()
}

/// The operator `-` of `fixed::types::I8F24`, that is `Sub::sub` of
/// `fixed::FixedI32`. It subtracts the raw values as `i32`, so the result
/// is their difference where the difference fits.
#[verifier::external_body]
fn i8f24_sub(a: i32, b: i32) -> (r: i32)
    requires
        i32::MIN <= a - b <= i32::MAX,
    ensures
        r == a - b,
{
    (fixed::types::I8F24::from_bits(a) - fixed::types::I8F24::from_bits(b)).to_bits()
}

/// The operator `*` of `fixed::types::I8F24`, that is `Mul::mul` of
/// `fixed::FixedI32` at 24 fractional bits. It multiplies the raw values
/// in `i64` and shifts the product right by 24 bits, which rounds down;
/// it reports an overflow exactly where the shifted product does not fit in
/// `i32`.
#[verifier::external_body]
fn i8f24_mul(a: i32, b: i32) -> (r: i32)
    requires
        i32::MIN <= mul_raw(a as int, b as int, 0x100_0000) <= i32::MAX,
    ensures
        r == mul_raw(a as int, b as int, 0x100_0000),
{
    (fixed::types::I8F24::from_bits(a) * fixed::types::I8F24::from_bits(b)).to_bits()
}

/// The operator `/` of `fixed::types::I8F24`, that is `Div::div` of
/// `fixed::FixedI32` at 24 fractional bits. It shifts the dividend's raw
/// value left by 24 bits in `i64` and divides it by the divisor's, which
/// rounds toward zero; it panics on a zero divisor and reports an overflow
/// exactly where the quotient does not fit in `i32`.
#[verifier::external_body]
fn i8f24_div(a: i32, b: i32) -> (r: i32)
    requires
        b != 0,
        i32::MIN <= div_raw(a as int, b as int, 0x100_0000) <= i32::MAX,
    ensures
        r == div_raw(a as int, b as int, 0x100_0000),
{
    (fixed::types::I8F24::from_bits(a) / fixed::types::I8F24::from_bits(b)).to_bits()
}

impl FixedPoint for I8F24 {
    open spec fn format() -> Format {
        Format { frac_bits: 24, scale: 0x100_0000, min: -0x8000_0000, max: 0x7fff_ffff }
    }

    proof fn lemma_format() {
        lemma2_to64();
    }

    proof fn lemma_in_range(self) {
    }

    proof fn lemma_raw_determines(self, other: Self) {
    }

    fn is_signed() -> (r: bool) {
        true
    }

    fn zero() -> (r: Self) {
        I8F24 { bits: 0 }
    }

    fn one() -> (r: Self) {
        I8F24 { bits: 0x100_0000 }
    }

    fn is_negative(self) -> (r: bool) {
        self.bits < 0
    }

    fn ge(self, rhs: Self) -> (r: bool) {
        self.bits >= rhs.bits
    }

    fn add(self, rhs: Self) -> (r: Self) {
        I8F24 { bits: i8f24_add(self.bits, rhs.bits) }
    }

    fn sub(self, rhs: Self) -> (r: Self) {
        I8F24 { bits: i8f24_sub(self.bits, rhs.bits) }
    }

    fn mul(self, rhs: Self) -> (r: Self) {
        I8F24 { bits: i8f24_mul(self.bits, rhs.bits) }
    }

    fn div(self, rhs: Self) -> (r: Self) {
        I8F24 { bits: i8f24_div(self.bits, rhs.bits) }
    }
}

/// A signed number with 16 integer and 16 fractional bits.
#[derive(Clone, Copy, Debug, PartialEq, Eq, Structural)]
pub struct I16F16 {
    bits: i32,
}

impl View for I16F16 {
    type V = int;

    closed spec fn view(&self) -> int {
        self.bits as int
    }
}

impl I16F16 {
    /// The number with the given raw value.
    pub fn from_bits(bits: i32) -> (r: Self)
        ensures
            r@ == bits,
    {
        I16F16 { bits }
    }

    /// The raw value.
    pub fn to_bits(self) -> (r: i32)
        ensures
            r == self@,
    {
        self.bits
    }
}

/// The operator `+` of `fixed::types::I16F16`, that is `Add::add` of
/// `fixed::FixedI32`. It adds the raw values as `i32`, so the result is
/// their sum where the sum fits.
#[verifier::external_body]
fn i16f16_add(a: i32, b: i32) -> (r: i32)
    requires
        i32::MIN <= a + b <= i32::MAX,
    ensures
        r == a + b,
{
    (fixed::types::I16F16::from_bits(a) + fixed::types::I16F16::from_bits(b)).to_bits()
}

/// The operator `-` of `fixed::types::I16F16`, that is `Sub::sub` of
/// `fixed::FixedI32`. It subtracts the raw values as `i32`, so the result
/// is their difference where the difference fits.
#[verifier::external_body]
fn i16f16_sub(a: i32, b: i32) -> (r: i32)
    requires
        i32::MIN <= a - b <= i32::MAX,
    ensures
        r == a - b,
{
    (fixed::types::I16F16::from_bits(a) - fixed::types::I16F16::from_bits(b)).to_bits()
}

/// The operator `*` of `fixed::types::I16F16`, that is `Mul::mul` of
/// `fixed::FixedI32` at 16 fractional bits. It multiplies the raw values
/// in `i64` and shifts the product right by 16 bits, which rounds down;
/// it reports an overflow exactly where the shifted product does not fit in
/// `i32`.
#[verifier::external_body]
fn i16f16_mul(a: i32, b: i32) -> (r: i32)
    requires
        i32::MIN <= mul_raw(a as int, b as int, 0x1_0000) <= i32::MAX,
    ensures
        r == mul_raw(a as int, b as int, 0x1_0000),
{
    (fixed::types::I16F16::from_bits(a) * fixed::types::I16F16::from_bits(b)).to_bits()
}

/// The operator `/` of `fixed::types::I16F16`, that is `Div::div` of
/// `fixed::FixedI32` at 16 fractional bits. It shifts the dividend's raw
/// value left by 16 bits in `i64` and divides it by the divisor's, which
/// rounds toward zero; it panics on a zero divisor and reports an overflow
/// exactly where the quotient does not fit in `i32`.
#[verifier::external_body]
fn i16f16_div(a: i32, b: i32) -> (r: i32)
    requires
        b != 0,
        i32::MIN <= div_raw(a as int, b as int, 0x1_0000) <= i32::MAX,
    ensures
        r == div_raw(a as int, b as int, 0x1_0000),
{
    (fixed::types::I16F16::from_bits(a) / fixed::types::I16F16::from_bits(b)).to_bits()
}

impl FixedPoint for I16F16 {
    open spec fn format() -> Format {
        Format { frac_bits: 16, scale: 0x1_0000, min: -0x8000_0000, max: 0x7fff_ffff }
    }

    proof fn lemma_format() {
        lemma2_to64();
    }

    proof fn lemma_in_range(self) {
    }

    proof fn lemma_raw_determines(self, other: Self) {
    }

    fn is_signed() -> (r: bool) {
        true
    }

    fn zero() -> (r: Self) {
        I16F16 { bits: 0 }
    }

    fn one() -> (r: Self) {
        I16F16 { bits: 0x1_0000 }
    }

    fn is_negative(self) -> (r: bool) {
        self.bits < 0
    }

    fn ge(self, rhs: Self) -> (r: bool) {
        self.bits >= rhs.bits
    }

    fn add(self, rhs: Self) -> (r: Self) {
        I16F16 { bits: i16f16_add(self.bits, rhs.bits) }
    }

    fn sub(self, rhs: Self) -> (r: Self) {
        I16F16 { bits: i16f16_sub(self.bits, rhs.bits) }
    }

    fn mul(self, rhs: Self) -> (r: Self) {
        I16F16 { bits: i16f16_mul(self.bits, rhs.bits) }
    }

    fn div(self, rhs: Self) -> (r: Self) {
        I16F16 { bits: i16f16_div(self.bits, rhs.bits) }
    }
}

/// An unsigned number with 32 integer and 32 fractional bits.
#[derive(Clone, Copy, Debug, PartialEq, Eq, Structural)]
pub struct U32F32 {
    bits: u64,
}

impl View for U32F32 {
    type V = int;

    closed spec fn view(&self) -> int {
        self.bits as int
    }
}

impl U32F32 {
    /// The number with the given raw value.
    pub fn from_bits(bits: u64) -> (r: Self)
        ensures
            r@ == bits,
    {
        U32F32 { bits }
    }

    /// The raw value.
    pub fn to_bits(self) -> (r: u64)
        ensures
            r == self@,
    {
        self.bits
    }
}

/// The operator `+` of `fixed::types::U32F32`, that is `Add::add` of
/// `fixed::FixedU64`. It adds the raw values as `u64`, so the result is
/// their sum where the sum fits.
#[verifier::external_body]
fn u32f32_add(a: u64, b: u64) -> (r: u64)
    requires
        u64::MIN <= a + b <= u64::MAX,
    ensures
        r == a + b,
{
    (fixed::types::U32F32::from_bits(a) + fixed::types::U32F32::from_bits(b)).to_bits()
}

/// The operator `-` of `fixed::types::U32F32`, that is `Sub::sub` of
/// `fixed::FixedU64`. It subtracts the raw values as `u64`, so the result
/// is their difference where the difference fits.
#[verifier::external_body]
fn u32f32_sub(a: u64, b: u64) -> (r: u64)
    requires
        u64::MIN <= a - b <= u64::MAX,
    ensures
        r == a - b,
{
    (fixed::types::U32F32::from_bits(a) - fixed::types::U32F32::from_bits(b)).to_bits()
}

/// The operator `*` of `fixed::types::U32F32`, that is `Mul::mul` of
/// `fixed::FixedU64` at 32 fractional bits. It multiplies the raw values
/// in `u128` and shifts the product right by 32 bits, which rounds down;
/// it reports an overflow exactly where the shifted product does not fit in
/// `u64`.
#[verifier::external_body]
fn u32f32_mul(a: u64, b: u64) -> (r: u64)
    requires
        u64::MIN <= mul_raw(a as int, b as int, 0x1_0000_0000) <= u64::MAX,
    ensures
        r == mul_raw(a as int, b as int, 0x1_0000_0000),
{
    (fixed::types::U32F32::from_bits(a) * fixed::types::U32F32::from_bits(b)).to_bits()
}

/// The operator `/` of `fixed::types::U32F32`, that is `Div::div` of
/// `fixed::FixedU64` at 32 fractional bits. It shifts the dividend's raw
/// value left by 32 bits in `u128` and divides it by the divisor's, which
/// rounds down; it panics on a zero divisor and reports an overflow
/// exactly where the quotient does not fit in `u64`.
#[verifier::external_body]
fn u32f32_div(a: u64, b: u64) -> (r: u64)
    requires
        b != 0,
        u64::MIN <= div_raw(a as int, b as int, 0x1_0000_0000) <= u64::MAX,
    ensures
        r == div_raw(a as int, b as int, 0x1_0000_0000),
{
    (fixed::types::U32F32::from_bits(a) / fixed::types::U32F32::from_bits(b)).to_bits()
}

impl FixedPoint for U32F32 {
    open spec fn format() -> Format {
        Format { frac_bits: 32, scale: 0x1_0000_0000, min: 0, max: 0xffff_ffff_ffff_ffff }
    }

    proof fn lemma_format() {
        lemma2_to64();
    }

    proof fn lemma_in_range(self) {
    }

    proof fn lemma_raw_determines(self, other: Self) {
    }

    fn is_signed() -> (r: bool) {
        false
    }

    fn zero() -> (r: Self) {
        U32F32 { bits: 0 }
    }

    fn one() -> (r: Self) {
        U32F32 { bits: 0x1_0000_0000 }
    }

    fn is_negative(self) -> (r: bool) {
        false
    }

    fn ge(self, rhs: Self) -> (r: bool) {
        self.bits >= rhs.bits
    }

    fn add(self, rhs: Self) -> (r: Self) {
        U32F32 { bits: u32f32_add(self.bits, rhs.bits) }
    }

    fn sub(self, rhs: Self) -> (r: Self) {
        U32F32 { bits: u32f32_sub(self.bits, rhs.bits) }
    }

    fn mul(self, rhs: Self) -> (r: Self) {
        U32F32 { bits: u32f32_mul(self.bits, rhs.bits) }
    }

    fn div(self, rhs: Self) -> (r: Self) {
        U32F32 { bits: u32f32_div(self.bits, rhs.bits) }
    }
}

} // verus!
