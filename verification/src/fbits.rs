//! The numeric ground layer of the plotting engine.
//!
//! Every scalar the engine computes with is an IEEE 754 binary64 value,
//! carried everywhere as its 64-bit pattern (`u64`). The arithmetic itself is
//! done by outside libraries: `rustc_apfloat` for the rounded field
//! operations, comparison and decimal parsing; `twofloat` for the sine,
//! cosine, tangent and exponential, computed in double-double precision and
//! rounded; and `libm` for the logarithm, power and square root. Each
//! operation's result is named by an uninterpreted spec function of the
//! operand bits, which is sound because every one of these operations is a
//! pure function of its operand bit patterns: all three libraries are
//! deterministic software implementations.
use vstd::prelude::*;

use rustc_apfloat::Float;
use rustc_apfloat::ieee::Double;
use twofloat::TwoFloat;

verus! {

/// Bit pattern of +0.0.
pub const ZERO_BITS: u64 = 0;

/// Bit pattern of 1.0.
pub const ONE_BITS: u64 = 0x3FF0000000000000;

/// Bit pattern of the circle constant pi.
pub const PI_BITS: u64 = 0x400921FB54442D18;

/// Bit pattern of Euler's number.
pub const EULER_BITS: u64 = 0x4005BF0A8B145769;

/// Bit pattern of the most negative finite binary64 value, returned by the
/// evaluator as the sentinel for an unknown operator tag.
pub const SENTINEL_BITS: u64 = 0xFFEFFFFFFFFFFFFF;

/// The sum, under round-to-nearest-even, of the values with the given bit patterns.
pub uninterp spec fn add_bits(a: u64, b: u64) -> u64;

/// The difference, under round-to-nearest-even, of the values with the given bit patterns.
pub uninterp spec fn sub_bits(a: u64, b: u64) -> u64;

/// The product, under round-to-nearest-even, of the values with the given bit patterns.
pub uninterp spec fn mul_bits(a: u64, b: u64) -> u64;

/// The quotient, under round-to-nearest-even, of the values with the given bit patterns.
pub uninterp spec fn div_bits(a: u64, b: u64) -> u64;

/// The value with bit pattern `a` raised to the value with bit pattern `b`.
pub uninterp spec fn pow_bits(a: u64, b: u64) -> u64;

/// The sine of the value with the given bit pattern.
pub uninterp spec fn sin_bits(a: u64) -> u64;

/// The cosine of the value with the given bit pattern.
pub uninterp spec fn cos_bits(a: u64) -> u64;

/// The tangent of the value with the given bit pattern.
pub uninterp spec fn tan_bits(a: u64) -> u64;

/// The natural logarithm of the value with the given bit pattern.
pub uninterp spec fn ln_bits(a: u64) -> u64;

/// The exponential of the value with the given bit pattern.
pub uninterp spec fn exp_bits(a: u64) -> u64;

/// The square root of the value with the given bit pattern.
pub uninterp spec fn sqrt_bits(a: u64) -> u64;

/// The IEEE `<` comparison of the values with the given bit patterns
/// (false whenever either operand is a NaN).
pub uninterp spec fn lt_bits(a: u64, b: u64) -> bool;

/// The IEEE `<=` comparison of the values with the given bit patterns
/// (false whenever either operand is a NaN).
pub uninterp spec fn le_bits(a: u64, b: u64) -> bool;

/// The binary64 value, if any, that the given character sequence denotes in
/// decimal (or hexadecimal float) notation, correctly rounded.
pub uninterp spec fn parse_bits(s: Seq<char>) -> Option<u64>;

/// Relies on rustc_apfloat's IEEE double addition (round to nearest even),
/// a pure function of the operand bit patterns.
#[verifier::external_body]
pub(crate) fn add64(a: u64, b: u64) -> (r: u64)
    ensures
        r == add_bits(a, b),
{
    (Double::from_bits(a as u128) + Double::from_bits(b as u128)).value.to_bits() as u64
}

/// Relies on rustc_apfloat's IEEE double subtraction (round to nearest even),
/// a pure function of the operand bit patterns.
#[verifier::external_body]
pub(crate) fn sub64(a: u64, b: u64) -> (r: u64)
    ensures
        r == sub_bits(a, b),
{
    (Double::from_bits(a as u128) - Double::from_bits(b as u128)).value.to_bits() as u64
}

/// Relies on rustc_apfloat's IEEE double multiplication (round to nearest even),
/// a pure function of the operand bit patterns.
#[verifier::external_body]
pub(crate) fn mul64(a: u64, b: u64) -> (r: u64)
    ensures
        r == mul_bits(a, b),
{
    (Double::from_bits(a as u128) * Double::from_bits(b as u128)).value.to_bits() as u64
}

/// Relies on rustc_apfloat's IEEE double division (round to nearest even),
/// a pure function of the operand bit patterns; division by zero yields an
/// infinity or NaN, never a failure.
#[verifier::external_body]
pub(crate) fn div64(a: u64, b: u64) -> (r: u64)
    ensures
        r == div_bits(a, b),
{
    (Double::from_bits(a as u128) / Double::from_bits(b as u128)).value.to_bits() as u64
}

/// Relies on libm's `pow`, a deterministic software implementation that is a
/// pure function of the operand bit patterns.
#[verifier::external_body]
pub(crate) fn pow64(a: u64, b: u64) -> (r: u64)
    ensures
        r == pow_bits(a, b),
{
    bytemuck::cast::<_, u64>(libm::pow(bytemuck::cast(a), bytemuck::cast(b)))
}

/// Relies on twofloat's `sin`, a deterministic double-double implementation
/// that is a pure function of the operand bit pattern; `new_add` with a zero
/// second summand forms the exact double-double value of the operand.
#[verifier::external_body]
pub(crate) fn sin64(a: u64) -> (r: u64)
    ensures
        r == sin_bits(a),
{
    bytemuck::cast::<_, u64>(TwoFloat::new_add(bytemuck::cast(a), bytemuck::cast(0u64)).sin().hi())
}

/// Relies on twofloat's `cos`, a deterministic double-double implementation
/// that is a pure function of the operand bit pattern; `new_add` with a zero
/// second summand forms the exact double-double value of the operand.
#[verifier::external_body]
pub(crate) fn cos64(a: u64) -> (r: u64)
    ensures
        r == cos_bits(a),
{
    bytemuck::cast::<_, u64>(TwoFloat::new_add(bytemuck::cast(a), bytemuck::cast(0u64)).cos().hi())
}

/// Relies on twofloat's `tan`, a deterministic double-double implementation
/// that is a pure function of the operand bit pattern; `new_add` with a zero
/// second summand forms the exact double-double value of the operand.
#[verifier::external_body]
pub(crate) fn tan64(a: u64) -> (r: u64)
    ensures
        r == tan_bits(a),
{
    bytemuck::cast::<_, u64>(TwoFloat::new_add(bytemuck::cast(a), bytemuck::cast(0u64)).tan().hi())
}

/// Relies on libm's `log` (natural logarithm), a deterministic software
/// implementation that is a pure function of the operand bit pattern.
#[verifier::external_body]
pub(crate) fn ln64(a: u64) -> (r: u64)
    ensures
        r == ln_bits(a),
{
    bytemuck::cast::<_, u64>(libm::log(bytemuck::cast(a)))
}

/// Relies on twofloat's `exp`, a deterministic double-double implementation
/// that is a pure function of the operand bit pattern; `new_add` with a zero
/// second summand forms the exact double-double value of the operand.
#[verifier::external_body]
pub(crate) fn exp64(a: u64) -> (r: u64)
    ensures
        r == exp_bits(a),
{
    bytemuck::cast::<_, u64>(TwoFloat::new_add(bytemuck::cast(a), bytemuck::cast(0u64)).exp().hi())
}

/// Relies on libm's `sqrt` (IEEE correctly rounded), a pure function of the
/// operand bit pattern.
#[verifier::external_body]
pub(crate) fn sqrt64(a: u64) -> (r: u64)
    ensures
        r == sqrt_bits(a),
{
    bytemuck::cast::<_, u64>(libm::sqrt(bytemuck::cast(a)))
}

/// Relies on rustc_apfloat's IEEE `<` comparison (`PartialOrd` on `Double`),
/// a pure function of the operand bit patterns.
#[verifier::external_body]
pub(crate) fn lt64(a: u64, b: u64) -> (r: bool)
    ensures
        r == lt_bits(a, b),
{
    Double::from_bits(a as u128) < Double::from_bits(b as u128)
}

/// Relies on rustc_apfloat's IEEE `<=` comparison (`PartialOrd` on `Double`),
/// a pure function of the operand bit patterns.
#[verifier::external_body]
pub(crate) fn le64(a: u64, b: u64) -> (r: bool)
    ensures
        r == le_bits(a, b),
{
    Double::from_bits(a as u128) <= Double::from_bits(b as u128)
}

/// Relies on rustc_apfloat's `FromStr` for `Double` (correctly rounded decimal
/// conversion), a pure function of the string; malformed strings give an
/// error, never a failure.
#[verifier::external_body]
pub(crate) fn parse_number(s: &String) -> (r: Option<u64>)
    ensures
        r == parse_bits(s@),
{
    match s.as_str().parse::<Double>() {
        Ok(d) => Some(d.to_bits() as u64),
        Err(_) => None,
    }
}

/// Whether the bit pattern denotes a NaN: all exponent bits set and a
/// non-zero fraction.
pub open spec fn is_nan_bits(a: u64) -> bool {
    (a >> 52) & 0x7FF == 0x7FF && a & 0xFFFFFFFFFFFFF != 0
}

/// Runtime NaN test over the bit pattern.
pub fn is_nan64(a: u64) -> (r: bool)
    ensures
        r == is_nan_bits(a),
{
    (a >> 52) & 0x7FF == 0x7FF && a & 0xFFFFFFFFFFFFF != 0
}

/// The larger of two binary64 values, ignoring NaN: if one operand is NaN the
/// other is returned; of two ordered values the greater is returned.
pub open spec fn fmax_bits(a: u64, b: u64) -> u64 {
    if is_nan_bits(a) {
        b
    } else if is_nan_bits(b) {
        a
    } else if lt_bits(a, b) {
        b
    } else {
        a
    }
}

/// The smaller of two binary64 values, ignoring NaN: if one operand is NaN the
/// other is returned; of two ordered values the lesser is returned.
pub open spec fn fmin_bits(a: u64, b: u64) -> u64 {
    if is_nan_bits(a) {
        b
    } else if is_nan_bits(b) {
        a
    } else if lt_bits(b, a) {
        b
    } else {
        a
    }
}

/// Runtime NaN-ignoring maximum over bit patterns.
pub fn fmax64(a: u64, b: u64) -> (r: u64)
    ensures
        r == fmax_bits(a, b),
{
    if is_nan64(a) {
        b
    } else if is_nan64(b) {
        a
    } else if lt64(a, b) {
        b
    } else {
        a
    }
}

/// Runtime NaN-ignoring minimum over bit patterns.
pub fn fmin64(a: u64, b: u64) -> (r: u64)
    ensures
        r == fmin_bits(a, b),
{
    if is_nan64(a) {
        b
    } else if is_nan64(b) {
        a
    } else if lt64(b, a) {
        b
    } else {
        a
    }
}

} // verus!
