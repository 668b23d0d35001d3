//! IEEE-754 float semantics over raw bit patterns.
//!
//! Registers carry floats as bare bit patterns, so the translator's constant
//! evaluation and the executor's float opcodes work on `u32`/`u64` words.
//! Ordering uses the classic sign-magnitude key: flipping all bits of a
//! negative pattern and setting the sign bit of a non-negative one maps the
//! non-NaN floats monotonically onto the unsigned integers (with `-0.0`
//! strictly below `+0.0`, which is exactly the tie the `max`/`min` opcodes
//! must break).  NaN propagation follows the source ISA: a NaN operand wins
//! `max` and `min` and makes every ordered comparison false.

use vstd::prelude::*;

verus! {

/// The sign bit of a 32-bit float pattern.
pub const F32_SIGN_MASK: u32 = 0x8000_0000;

/// The magnitude bits of a 32-bit float pattern.
pub const F32_ABS_MASK: u32 = 0x7FFF_FFFF;

/// The magnitude of an infinite 32-bit float pattern.
pub const F32_INF_MAGNITUDE: u32 = 0x7F80_0000;

/// The bit pattern of 32-bit `+inf`.
pub const F32_POS_INF_BITS: u32 = 0x7F80_0000;

/// The bit pattern of 32-bit `-inf`.
pub const F32_NEG_INF_BITS: u32 = 0xFF80_0000;

/// The sign bit of a 64-bit float pattern.
pub const F64_SIGN_MASK: u64 = 0x8000_0000_0000_0000;

/// The magnitude bits of a 64-bit float pattern.
pub const F64_ABS_MASK: u64 = 0x7FFF_FFFF_FFFF_FFFF;

/// The magnitude of an infinite 64-bit float pattern.
pub const F64_INF_MAGNITUDE: u64 = 0x7FF0_0000_0000_0000;

/// The bit pattern of 64-bit `+inf`.
pub const F64_POS_INF_BITS: u64 = 0x7FF0_0000_0000_0000;

/// The bit pattern of 64-bit `-inf`.
pub const F64_NEG_INF_BITS: u64 = 0xFFF0_0000_0000_0000;

/// Whether a 32-bit pattern is a NaN.
pub open spec fn spec_f32_is_nan(bits: u32) -> bool {
    bits & F32_ABS_MASK > F32_INF_MAGNITUDE
}

/// Whether a 64-bit pattern is a NaN.
pub open spec fn spec_f64_is_nan(bits: u64) -> bool {
    bits & F64_ABS_MASK > F64_INF_MAGNITUDE
}

/// Whether a 32-bit pattern is a zero (of either sign).
pub open spec fn spec_f32_is_zero(bits: u32) -> bool {
    bits & F32_ABS_MASK == 0
}

/// Whether a 64-bit pattern is a zero (of either sign).
pub open spec fn spec_f64_is_zero(bits: u64) -> bool {
    bits & F64_ABS_MASK == 0
}

/// The order key of a non-NaN 32-bit pattern: monotone in the float order,
/// with `-0.0` strictly below `+0.0`.
pub open spec fn spec_f32_order_key(bits: u32) -> u32 {
    if bits >> 31 == 1 {
        !bits
    } else {
        bits | F32_SIGN_MASK
    }
}

/// The order key of a non-NaN 64-bit pattern: monotone in the float order,
/// with `-0.0` strictly below `+0.0`.
pub open spec fn spec_f64_order_key(bits: u64) -> u64 {
    if bits >> 63 == 1 {
        !bits
    } else {
        bits | F64_SIGN_MASK
    }
}

/// The `f32.max` of two patterns: a NaN operand wins; otherwise the operand
/// with the larger order key.
pub open spec fn spec_f32_max_bits(a: u32, b: u32) -> u32 {
    if spec_f32_is_nan(a) {
        a
    } else if spec_f32_is_nan(b) {
        b
    } else if spec_f32_order_key(a) >= spec_f32_order_key(b) {
        a
    } else {
        b
    }
}

/// The `f32.min` of two patterns: a NaN operand wins; otherwise the operand
/// with the smaller order key.
pub open spec fn spec_f32_min_bits(a: u32, b: u32) -> u32 {
    if spec_f32_is_nan(a) {
        a
    } else if spec_f32_is_nan(b) {
        b
    } else if spec_f32_order_key(a) <= spec_f32_order_key(b) {
        a
    } else {
        b
    }
}

/// The `f64.max` of two patterns: a NaN operand wins; otherwise the operand
/// with the larger order key.
pub open spec fn spec_f64_max_bits(a: u64, b: u64) -> u64 {
    if spec_f64_is_nan(a) {
        a
    } else if spec_f64_is_nan(b) {
        b
    } else if spec_f64_order_key(a) >= spec_f64_order_key(b) {
        a
    } else {
        b
    }
}

/// The `f64.min` of two patterns: a NaN operand wins; otherwise the operand
/// with the smaller order key.
pub open spec fn spec_f64_min_bits(a: u64, b: u64) -> u64 {
    if spec_f64_is_nan(a) {
        a
    } else if spec_f64_is_nan(b) {
        b
    } else if spec_f64_order_key(a) <= spec_f64_order_key(b) {
        a
    } else {
        b
    }
}

/// IEEE equality of two 64-bit patterns: false on NaN, and the two zeroes
/// are equal.
pub open spec fn spec_f64_eq_bits(a: u64, b: u64) -> bool {
    &&& !spec_f64_is_nan(a)
    &&& !spec_f64_is_nan(b)
    &&& (a == b || (spec_f64_is_zero(a) && spec_f64_is_zero(b)))
}

/// IEEE strict order of two 64-bit patterns: false on NaN and on equal
/// values (the two zeroes among them).
pub open spec fn spec_f64_lt_bits(a: u64, b: u64) -> bool {
    &&& !spec_f64_is_nan(a)
    &&& !spec_f64_is_nan(b)
    &&& !(spec_f64_is_zero(a) && spec_f64_is_zero(b))
    &&& spec_f64_order_key(a) < spec_f64_order_key(b)
}

/// IEEE non-strict order of two 64-bit patterns.
pub open spec fn spec_f64_le_bits(a: u64, b: u64) -> bool {
    spec_f64_eq_bits(a, b) || spec_f64_lt_bits(a, b)
}

/// IEEE equality of two 32-bit patterns.
pub open spec fn spec_f32_eq_bits(a: u32, b: u32) -> bool {
    &&& !spec_f32_is_nan(a)
    &&& !spec_f32_is_nan(b)
    &&& (a == b || (spec_f32_is_zero(a) && spec_f32_is_zero(b)))
}

/// IEEE strict order of two 32-bit patterns.
pub open spec fn spec_f32_lt_bits(a: u32, b: u32) -> bool {
    &&& !spec_f32_is_nan(a)
    &&& !spec_f32_is_nan(b)
    &&& !(spec_f32_is_zero(a) && spec_f32_is_zero(b))
    &&& spec_f32_order_key(a) < spec_f32_order_key(b)
}

/// IEEE non-strict order of two 32-bit patterns.
pub open spec fn spec_f32_le_bits(a: u32, b: u32) -> bool {
    spec_f32_eq_bits(a, b) || spec_f32_lt_bits(a, b)
}

/// Whether a 32-bit pattern is a NaN.
#[verifier::when_used_as_spec(spec_f32_is_nan)]
pub fn f32_is_nan(bits: u32) -> (r: bool)
    ensures
        r == spec_f32_is_nan(bits),
{
    bits & F32_ABS_MASK > F32_INF_MAGNITUDE
}

/// Whether a 64-bit pattern is a NaN.
#[verifier::when_used_as_spec(spec_f64_is_nan)]
pub fn f64_is_nan(bits: u64) -> (r: bool)
    ensures
        r == spec_f64_is_nan(bits),
{
    bits & F64_ABS_MASK > F64_INF_MAGNITUDE
}

/// The order key of a non-NaN 32-bit pattern.
#[verifier::when_used_as_spec(spec_f32_order_key)]
pub fn f32_order_key(bits: u32) -> (r: u32)
    ensures
        r == spec_f32_order_key(bits),
{
    if bits >> 31 == 1 {
        !bits
    } else {
        bits | F32_SIGN_MASK
    }
}

/// The order key of a non-NaN 64-bit pattern.
#[verifier::when_used_as_spec(spec_f64_order_key)]
pub fn f64_order_key(bits: u64) -> (r: u64)
    ensures
        r == spec_f64_order_key(bits),
{
    if bits >> 63 == 1 {
        !bits
    } else {
        bits | F64_SIGN_MASK
    }
}

/// Computes the `f32.max` of two patterns.
#[verifier::when_used_as_spec(spec_f32_max_bits)]
pub fn f32_max_bits(a: u32, b: u32) -> (r: u32)
    ensures
        r == spec_f32_max_bits(a, b),
{
    if f32_is_nan(a) {
        a
    } else if f32_is_nan(b) {
        b
    } else if f32_order_key(a) >= f32_order_key(b) {
        a
    } else {
        b
    }
}

/// Computes the `f32.min` of two patterns.
#[verifier::when_used_as_spec(spec_f32_min_bits)]
pub fn f32_min_bits(a: u32, b: u32) -> (r: u32)
    ensures
        r == spec_f32_min_bits(a, b),
{
    if f32_is_nan(a) {
        a
    } else if f32_is_nan(b) {
        b
    } else if f32_order_key(a) <= f32_order_key(b) {
        a
    } else {
        b
    }
}

/// Computes the `f64.max` of two patterns.
#[verifier::when_used_as_spec(spec_f64_max_bits)]
pub fn f64_max_bits(a: u64, b: u64) -> (r: u64)
    ensures
        r == spec_f64_max_bits(a, b),
{
    if f64_is_nan(a) {
        a
    } else if f64_is_nan(b) {
        b
    } else if f64_order_key(a) >= f64_order_key(b) {
        a
    } else {
        b
    }
}

/// Computes the `f64.min` of two patterns.
#[verifier::when_used_as_spec(spec_f64_min_bits)]
pub fn f64_min_bits(a: u64, b: u64) -> (r: u64)
    ensures
        r == spec_f64_min_bits(a, b),
{
    if f64_is_nan(a) {
        a
    } else if f64_is_nan(b) {
        b
    } else if f64_order_key(a) <= f64_order_key(b) {
        a
    } else {
        b
    }
}

/// Computes the IEEE equality of two 64-bit patterns.
#[verifier::when_used_as_spec(spec_f64_eq_bits)]
pub fn f64_eq_bits(a: u64, b: u64) -> (r: bool)
    ensures
        r == spec_f64_eq_bits(a, b),
{
    !f64_is_nan(a) && !f64_is_nan(b) && (a == b || (a & F64_ABS_MASK == 0 && b & F64_ABS_MASK
        == 0))
}

/// Computes the IEEE strict order of two 64-bit patterns.
#[verifier::when_used_as_spec(spec_f64_lt_bits)]
pub fn f64_lt_bits(a: u64, b: u64) -> (r: bool)
    ensures
        r == spec_f64_lt_bits(a, b),
{
    !f64_is_nan(a) && !f64_is_nan(b) && !(a & F64_ABS_MASK == 0 && b & F64_ABS_MASK == 0)
        && f64_order_key(a) < f64_order_key(b)
}

/// Computes the IEEE non-strict order of two 64-bit patterns.
#[verifier::when_used_as_spec(spec_f64_le_bits)]
pub fn f64_le_bits(a: u64, b: u64) -> (r: bool)
    ensures
        r == spec_f64_le_bits(a, b),
{
    f64_eq_bits(a, b) || f64_lt_bits(a, b)
}

/// Computes the IEEE equality of two 32-bit patterns.
#[verifier::when_used_as_spec(spec_f32_eq_bits)]
pub fn f32_eq_bits(a: u32, b: u32) -> (r: bool)
    ensures
        r == spec_f32_eq_bits(a, b),
{
    !f32_is_nan(a) && !f32_is_nan(b) && (a == b || (a & F32_ABS_MASK == 0 && b & F32_ABS_MASK
        == 0))
}

/// Computes the IEEE strict order of two 32-bit patterns.
#[verifier::when_used_as_spec(spec_f32_lt_bits)]
pub fn f32_lt_bits(a: u32, b: u32) -> (r: bool)
    ensures
        r == spec_f32_lt_bits(a, b),
{
    !f32_is_nan(a) && !f32_is_nan(b) && !(a & F32_ABS_MASK == 0 && b & F32_ABS_MASK == 0)
        && f32_order_key(a) < f32_order_key(b)
}

/// Computes the IEEE non-strict order of two 32-bit patterns.
#[verifier::when_used_as_spec(spec_f32_le_bits)]
pub fn f32_le_bits(a: u32, b: u32) -> (r: bool)
    ensures
        r == spec_f32_le_bits(a, b),
{
    f32_eq_bits(a, b) || f32_lt_bits(a, b)
}

/// A NaN operand wins `f64.max` regardless of the other side.
pub proof fn lemma_f64_max_nan_wins(a: u64, b: u64)
    ensures
        spec_f64_is_nan(a) || spec_f64_is_nan(b) ==> spec_f64_is_nan(spec_f64_max_bits(a, b)),
        spec_f64_is_nan(a) || spec_f64_is_nan(b) ==> spec_f64_is_nan(spec_f64_min_bits(a, b)),
{
}

/// A NaN operand wins `f32.max` and `f32.min` regardless of the other side.
pub proof fn lemma_f32_max_nan_wins(a: u32, b: u32)
    ensures
        spec_f32_is_nan(a) || spec_f32_is_nan(b) ==> spec_f32_is_nan(spec_f32_max_bits(a, b)),
        spec_f32_is_nan(a) || spec_f32_is_nan(b) ==> spec_f32_is_nan(spec_f32_min_bits(a, b)),
{
}

/// `-inf` is the identity of `f64.max`, on either side.
pub proof fn lemma_f64_max_neg_infinity(x: u64)
    by (bit_vector)
    ensures
        spec_f64_max_bits(x, F64_NEG_INF_BITS) == x,
        spec_f64_max_bits(F64_NEG_INF_BITS, x) == x,
{
}

/// `+inf` is the identity of `f64.min`, on either side.
pub proof fn lemma_f64_min_pos_infinity(x: u64)
    by (bit_vector)
    ensures
        spec_f64_min_bits(x, F64_POS_INF_BITS) == x,
        spec_f64_min_bits(F64_POS_INF_BITS, x) == x,
{
}

/// `-inf` is the identity of `f32.max`, on either side.
pub proof fn lemma_f32_max_neg_infinity(x: u32)
    by (bit_vector)
    ensures
        spec_f32_max_bits(x, F32_NEG_INF_BITS) == x,
        spec_f32_max_bits(F32_NEG_INF_BITS, x) == x,
{
}

/// `+inf` is the identity of `f32.min`, on either side.
pub proof fn lemma_f32_min_pos_infinity(x: u32)
    by (bit_vector)
    ensures
        spec_f32_min_bits(x, F32_POS_INF_BITS) == x,
        spec_f32_min_bits(F32_POS_INF_BITS, x) == x,
{
}

} // verus!
