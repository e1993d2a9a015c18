//! Classification and ordering of IEEE-754 values, computed directly on
//! their bit patterns.
//!
//! A binary64 value is carried as a `u64`, a binary32 value as a `u32`.
//! For every value but NaN the order of the values is the order of a signed
//! key derived from the bits: the magnitude, negated when the sign bit is
//! set.  The two zeroes share the key `0`.

use vstd::prelude::*;

verus! {

/// Bit pattern of binary64 positive infinity.
pub const F64_POS_INF: u64 = 0x7FF0_0000_0000_0000;

/// Bit pattern of binary64 negative infinity.
pub const F64_NEG_INF: u64 = 0xFFF0_0000_0000_0000;

/// Bit pattern of binary32 positive infinity.
pub const F32_POS_INF: u32 = 0x7F80_0000;

/// Bit pattern of binary32 negative infinity.
pub const F32_NEG_INF: u32 = 0xFF80_0000;

/// Magnitude of a binary64 value: the bits with the sign cleared.
pub open spec fn f64_mag(b: u64) -> u64 {
    b & 0x7FFF_FFFF_FFFF_FFFF
}

/// A binary64 value is NaN exactly when its magnitude exceeds that of
/// infinity (exponent all ones, significand nonzero).
pub open spec fn f64_is_nan(b: u64) -> bool {
    f64_mag(b) > F64_POS_INF
}

/// A binary64 value is finite when its exponent is not all ones.
pub open spec fn f64_is_finite(b: u64) -> bool {
    f64_mag(b) < F64_POS_INF
}

/// A binary64 value is zero when its magnitude is zero (either sign).
pub open spec fn f64_is_zero(b: u64) -> bool {
    f64_mag(b) == 0
}

/// Order key of a non-NaN binary64 value: magnitude, negated for a set
/// sign bit.  `+0` and `-0` share the key `0`.
pub open spec fn f64_key(b: u64) -> int {
    if b >= 0x8000_0000_0000_0000 {
        -(f64_mag(b) as int)
    } else {
        f64_mag(b) as int
    }
}

/// The smaller of two binary64 values; a NaN yields the other operand, and
/// of two equal values (including `-0`/`+0`) the first is returned.
pub open spec fn f64_min_bits(a: u64, b: u64) -> u64 {
    if f64_is_nan(a) {
        b
    } else if f64_is_nan(b) {
        a
    } else if f64_key(a) <= f64_key(b) {
        a
    } else {
        b
    }
}

/// The larger of two binary64 values; a NaN yields the other operand, and
/// of two equal values the first is returned.
pub open spec fn f64_max_bits(a: u64, b: u64) -> u64 {
    if f64_is_nan(a) {
        b
    } else if f64_is_nan(b) {
        a
    } else if f64_key(a) >= f64_key(b) {
        a
    } else {
        b
    }
}

/// The magnitudes of the binary64 sentinels and of the zero pattern.
pub proof fn lemma_f64_mag_consts()
    ensures
        f64_mag(F64_POS_INF) == 0x7FF0_0000_0000_0000,
        f64_mag(F64_NEG_INF) == 0x7FF0_0000_0000_0000,
        f64_mag(0u64) == 0u64,
{
    assert(0x7FF0_0000_0000_0000u64 & 0x7FFF_FFFF_FFFF_FFFF == 0x7FF0_0000_0000_0000)
        by (bit_vector);
    assert(0xFFF0_0000_0000_0000u64 & 0x7FFF_FFFF_FFFF_FFFF == 0x7FF0_0000_0000_0000)
        by (bit_vector);
    assert(0u64 & 0x7FFF_FFFF_FFFF_FFFF == 0u64) by (bit_vector);
}

/// The magnitude of a bit pattern with a clear sign bit is the pattern
/// itself; with a set sign bit it is the pattern less the sign bit.
pub proof fn lemma_f64_mag_cases(x: u64)
    ensures
        x < 0x8000_0000_0000_0000 ==> f64_mag(x) == x,
        x >= 0x8000_0000_0000_0000 ==> f64_mag(x) == x - 0x8000_0000_0000_0000,
{
    assert(x < 0x8000_0000_0000_0000 ==> x & 0x7FFF_FFFF_FFFF_FFFF == x) by (bit_vector);
    assert(x >= 0x8000_0000_0000_0000 ==> x & 0x7FFF_FFFF_FFFF_FFFF == x
        - 0x8000_0000_0000_0000) by (bit_vector);
}

/// A non-NaN value folded against the infinity sentinels, or against
/// itself, is returned unchanged.
pub proof fn lemma_f64_fold_units(v: u64)
    requires
        !f64_is_nan(v),
    ensures
        f64_min_bits(F64_POS_INF, v) == v,
        f64_max_bits(F64_NEG_INF, v) == v,
        f64_min_bits(v, v) == v,
        f64_max_bits(v, v) == v,
{
    lemma_f64_mag_consts();
    lemma_f64_mag_cases(v);
}

fn f64_nan(b: u64) -> (r: bool)
    ensures
        r == f64_is_nan(b),
{
    (b & 0x7FFF_FFFF_FFFF_FFFF) > F64_POS_INF
}

/// Whether a binary64 bit pattern denotes zero of either sign.
pub fn f64_zero(b: u64) -> (r: bool)
    ensures
        r == f64_is_zero(b),
{
    (b & 0x7FFF_FFFF_FFFF_FFFF) == 0
}

/// Whether the key of `a` is at most the key of `b`; both must be non-NaN.
fn f64_key_le(a: u64, b: u64) -> (r: bool)
    ensures
        r == (f64_key(a) <= f64_key(b)),
{
    let neg_a: bool = a >= 0x8000_0000_0000_0000;
    let neg_b: bool = b >= 0x8000_0000_0000_0000;
    let ma: u64 = a & 0x7FFF_FFFF_FFFF_FFFF;
    let mb: u64 = b & 0x7FFF_FFFF_FFFF_FFFF;
    if neg_a != neg_b {
        neg_a || (ma == 0 && mb == 0)
    } else if !neg_a {
        ma <= mb
    } else {
        mb <= ma
    }
}

/// The smaller of two binary64 values, on bit patterns.
pub fn f64_min(a: u64, b: u64) -> (r: u64)
    ensures
        r == f64_min_bits(a, b),
{
    if f64_nan(a) {
        b
    } else if f64_nan(b) {
        a
    } else if f64_key_le(a, b) {
        a
    } else {
        b
    }
}

/// The larger of two binary64 values, on bit patterns.
pub fn f64_max(a: u64, b: u64) -> (r: u64)
    ensures
        r == f64_max_bits(a, b),
{
    if f64_nan(a) {
        b
    } else if f64_nan(b) {
        a
    } else if f64_key_le(b, a) {
        a
    } else {
        b
    }
}

/// Magnitude of a binary32 value: the bits with the sign cleared.
pub open spec fn f32_mag(b: u32) -> u32 {
    b & 0x7FFF_FFFF
}

/// A binary32 value is NaN exactly when its magnitude exceeds that of
/// infinity.
pub open spec fn f32_is_nan(b: u32) -> bool {
    f32_mag(b) > F32_POS_INF
}

/// Order key of a non-NaN binary32 value.
pub open spec fn f32_key(b: u32) -> int {
    if b >= 0x8000_0000 {
        -(f32_mag(b) as int)
    } else {
        f32_mag(b) as int
    }
}

/// The smaller of two binary32 values; a NaN yields the other operand.
pub open spec fn f32_min_bits(a: u32, b: u32) -> u32 {
    if f32_is_nan(a) {
        b
    } else if f32_is_nan(b) {
        a
    } else if f32_key(a) <= f32_key(b) {
        a
    } else {
        b
    }
}

/// The larger of two binary32 values; a NaN yields the other operand.
pub open spec fn f32_max_bits(a: u32, b: u32) -> u32 {
    if f32_is_nan(a) {
        b
    } else if f32_is_nan(b) {
        a
    } else if f32_key(a) >= f32_key(b) {
        a
    } else {
        b
    }
}

fn f32_nan(b: u32) -> (r: bool)
    ensures
        r == f32_is_nan(b),
{
    (b & 0x7FFF_FFFF) > F32_POS_INF
}

/// Whether the key of `a` is at most the key of `b`; both must be non-NaN.
fn f32_key_le(a: u32, b: u32) -> (r: bool)
    ensures
        r == (f32_key(a) <= f32_key(b)),
{
    let neg_a: bool = a >= 0x8000_0000;
    let neg_b: bool = b >= 0x8000_0000;
    let ma: u32 = a & 0x7FFF_FFFF;
    let mb: u32 = b & 0x7FFF_FFFF;
    if neg_a != neg_b {
        neg_a || (ma == 0 && mb == 0)
    } else if !neg_a {
        ma <= mb
    } else {
        mb <= ma
    }
}

/// The smaller of two binary32 values, on bit patterns.
pub fn f32_min(a: u32, b: u32) -> (r: u32)
    ensures
        r == f32_min_bits(a, b),
{
    if f32_nan(a) {
        b
    } else if f32_nan(b) {
        a
    } else if f32_key_le(a, b) {
        a
    } else {
        b
    }
}

/// The larger of two binary32 values, on bit patterns.
pub fn f32_max(a: u32, b: u32) -> (r: u32)
    ensures
        r == f32_max_bits(a, b),
{
    if f32_nan(a) {
        b
    } else if f32_nan(b) {
        a
    } else if f32_key_le(b, a) {
        a
    } else {
        b
    }
}

} // verus!
