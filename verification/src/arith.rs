//! Rounding IEEE-754 arithmetic on bit patterns, through the software
//! floating-point library `rustc_apfloat`.
//!
//! Each operation is a pure function of the operand bit patterns alone:
//! the library computes in integer arithmetic, rounds to nearest-even, and
//! gives the same answer in every process and on every machine.  The results
//! are named by uninterpreted spec functions; contracts downstream speak of
//! those names.

use vstd::prelude::*;
use rustc_apfloat::Float;
use rustc_apfloat::FloatConvert;
use crate::fbits::f64_is_finite;

verus! {

/// The binary64 sum of two binary64 values, round to nearest even.
pub uninterp spec fn f64_add(a: u64, b: u64) -> u64;

/// The binary64 difference of two binary64 values where the operands
/// differ or are not finite.
pub uninterp spec fn f64_sub_raw(a: u64, b: u64) -> u64;

/// The binary64 difference of two binary64 values, round to nearest even.
/// IEEE 754 subtraction of a finite value from itself yields `+0` under
/// round-to-nearest, so that case is pinned; the rest is named.
pub open spec fn f64_sub(a: u64, b: u64) -> u64 {
    if a == b && f64_is_finite(a) {
        0u64
    } else {
        f64_sub_raw(a, b)
    }
}

/// The binary64 product of two binary64 values, round to nearest even.
pub uninterp spec fn f64_mul(a: u64, b: u64) -> u64;

/// The binary64 quotient of two binary64 values, round to nearest even.
pub uninterp spec fn f64_div(a: u64, b: u64) -> u64;

/// The binary32 value nearest to a binary64 value, round to nearest even.
pub uninterp spec fn f32_of_f64(a: u64) -> u32;

/// The decimal text that the software float library prints for a binary32
/// value.
pub uninterp spec fn f32_dec_text(a: u32) -> Seq<u8>;

/// Relies on rustc_apfloat's `Double::from_bits`, `+` (`add_r` with round
/// to nearest even) and `to_bits`: IEEE binary64 addition as a pure
/// function of the operand bits.
#[verifier::external_body]
pub fn add64(a: u64, b: u64) -> (r: u64)
    ensures
        r == f64_add(a, b),
{
    let x = rustc_apfloat::ieee::Double::from_bits(a as u128);
    let y = rustc_apfloat::ieee::Double::from_bits(b as u128);
    (x + y).value.to_bits() as u64
}

/// Relies on rustc_apfloat's `Double` subtraction (`sub_r` with round to
/// nearest even): IEEE binary64 subtraction as a pure function of the
/// operand bits.  For a finite value, IEEE 754 subtraction of a value from
/// itself under round-to-nearest yields `+0`, whose bit pattern is zero.
#[verifier::external_body]
pub fn sub64(a: u64, b: u64) -> (r: u64)
    ensures
        r == f64_sub(a, b),
        !(a == b && f64_is_finite(a)) ==> r == f64_sub_raw(a, b),
{
    let x = rustc_apfloat::ieee::Double::from_bits(a as u128);
    let y = rustc_apfloat::ieee::Double::from_bits(b as u128);
    (x - y).value.to_bits() as u64
}

/// Relies on rustc_apfloat's `Double` multiplication (`mul_r` with round
/// to nearest even): IEEE binary64 multiplication as a pure function of
/// the operand bits.
#[verifier::external_body]
pub fn mul64(a: u64, b: u64) -> (r: u64)
    ensures
        r == f64_mul(a, b),
{
    let x = rustc_apfloat::ieee::Double::from_bits(a as u128);
    let y = rustc_apfloat::ieee::Double::from_bits(b as u128);
    (x * y).value.to_bits() as u64
}

/// Relies on rustc_apfloat's `Double` division (`div_r` with round to
/// nearest even): IEEE binary64 division as a pure function of the operand
/// bits.  Division never panics; a zero divisor yields an infinity or NaN.
#[verifier::external_body]
pub fn div64(a: u64, b: u64) -> (r: u64)
    ensures
        r == f64_div(a, b),
{
    let x = rustc_apfloat::ieee::Double::from_bits(a as u128);
    let y = rustc_apfloat::ieee::Double::from_bits(b as u128);
    (x / y).value.to_bits() as u64
}

/// Relies on rustc_apfloat's `FloatConvert::convert` from `Double` to
/// `Single`: the binary32 value nearest the binary64 operand, round to
/// nearest even, a pure function of the operand bits.
#[verifier::external_body]
pub fn cast32(a: u64) -> (r: u32)
    ensures
        r == f32_of_f64(a),
{
    let x = rustc_apfloat::ieee::Double::from_bits(a as u128);
    let mut loses_info = false;
    let s: rustc_apfloat::ieee::Single = x.convert(&mut loses_info).value;
    s.to_bits() as u32
}

/// Relies on rustc_apfloat's `Display` for `Single`: a decimal rendering
/// of the value, computed from the bit pattern alone (for a finite value a
/// plain or exponent form such as `-100`, `0.5` or `1.5E+10`).
#[verifier::external_body]
pub fn f32_text(a: u32) -> (r: Vec<u8>)
    ensures
        r@ == f32_dec_text(a),
{
    let x = rustc_apfloat::ieee::Single::from_bits(a as u128);
    format!("{}", x).into_bytes()
}

} // verus!
