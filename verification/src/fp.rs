//! Arithmetic on binary64 bit patterns, through a software floating-point
//! library.
//!
//! Each operation is deterministic: the result bits are a function of the
//! operand bits alone, the same in every process and on every machine. The
//! full IEEE 754 semantics would take pages to state, so each operation's
//! result is only given a name here; the engine's contracts are exact over
//! those names, and the tests hold them against hardware doubles.

use vstd::prelude::*;
use rustc_apfloat::Float;
use rustc_apfloat::ieee::Double;

verus! {

/// The bits of the IEEE 754 binary64 sum of the values `a` and `b` encode.
pub uninterp spec fn add_bits_spec(a: u64, b: u64) -> u64;

/// The bits of the binary64 difference of the values `a` and `b` encode.
pub uninterp spec fn sub_bits_spec(a: u64, b: u64) -> u64;

/// The bits of the binary64 product of the values `a` and `b` encode.
pub uninterp spec fn mul_bits_spec(a: u64, b: u64) -> u64;

/// The bits of the binary64 quotient of the values `a` and `b` encode.
pub uninterp spec fn div_bits_spec(a: u64, b: u64) -> u64;

/// The bits of the binary64 value nearest to the integer `v`.
pub uninterp spec fn from_u64_spec(v: u64) -> u64;

/// Relies on rustc_apfloat::ieee::Double's `Add` (Float::add_r, rounding
/// to nearest even): IEEE 754 binary64 addition on the operand bits.
#[verifier::external_body]
pub(crate) fn add_bits(a: u64, b: u64) -> (r: u64)
    ensures
        r == add_bits_spec(a, b),
{
    (Double::from_bits(a as u128) + Double::from_bits(b as u128)).value.to_bits() as u64
}

/// Relies on rustc_apfloat::ieee::Double's `Sub` (Float::sub_r, rounding
/// to nearest even): IEEE 754 binary64 subtraction on the operand bits.
#[verifier::external_body]
pub(crate) fn sub_bits(a: u64, b: u64) -> (r: u64)
    ensures
        r == sub_bits_spec(a, b),
{
    (Double::from_bits(a as u128) - Double::from_bits(b as u128)).value.to_bits() as u64
}

/// Relies on rustc_apfloat::ieee::Double's `Mul` (Float::mul_r, rounding
/// to nearest even): IEEE 754 binary64 multiplication on the operand bits.
#[verifier::external_body]
pub(crate) fn mul_bits(a: u64, b: u64) -> (r: u64)
    ensures
        r == mul_bits_spec(a, b),
{
    (Double::from_bits(a as u128) * Double::from_bits(b as u128)).value.to_bits() as u64
}

/// Relies on rustc_apfloat::ieee::Double's `Div` (Float::div_r, rounding
/// to nearest even): IEEE 754 binary64 division on the operand bits.
#[verifier::external_body]
pub(crate) fn div_bits(a: u64, b: u64) -> (r: u64)
    ensures
        r == div_bits_spec(a, b),
{
    (Double::from_bits(a as u128) / Double::from_bits(b as u128)).value.to_bits() as u64
}

/// Relies on rustc_apfloat Float::from_u128 (rounding to nearest even):
/// the binary64 value nearest to the given integer.
#[verifier::external_body]
pub(crate) fn from_u64(v: u64) -> (r: u64)
    ensures
        r == from_u64_spec(v),
{
    Double::from_u128(v as u128).value.to_bits() as u64
}

} // verus!
