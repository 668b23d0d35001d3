//! The pure SIMD value layer: 128-bit vectors and the lane operations the
//! executor invokes.
//!
//! A vector is a bare 128-bit bit pattern; lanes and bytes are numbered from
//! the least significant end (little-endian), which is also how a selector
//! vector's bytes are decoded.

use vstd::prelude::*;

verus! {

/// A 128-bit vector value.
#[derive(Debug, Copy, Clone, PartialEq, Eq, Structural)]
pub struct V128 {
    /// The raw bit pattern of the vector.
    pub bits: u128,
}

impl V128 {
    /// Creates a vector directly from a raw 128-bit pattern.
    pub fn from_bits(bits: u128) -> (r: Self)
        ensures
            r.bits == bits,
    {
        V128 { bits }
    }

    /// Reads the raw 128-bit pattern of the vector.
    pub fn to_bits(self) -> (r: u128)
        ensures
            r == self.bits,
    {
        self.bits
    }
}

/// Byte `k` of a 128-bit pattern, counted from the least significant end.
pub open spec fn spec_v128_byte(bits: u128, k: u32) -> u8 {
    (bits >> (8 * k)) as u8
}

/// 64-bit lane `k` of a 128-bit pattern, counted from the least significant
/// end.
pub open spec fn spec_v128_lane64(bits: u128, k: u32) -> u64 {
    (bits >> (64 * k)) as u64
}

/// 32-bit lane `k` of a 128-bit pattern, counted from the least significant
/// end.
pub open spec fn spec_v128_lane32(bits: u128, k: u32) -> u32 {
    (bits >> (32 * k)) as u32
}

/// Reads byte `k` of a vector, counted from the least significant end.
pub fn v128_byte(v: V128, k: u32) -> (r: u8)
    requires
        k < 16,
    ensures
        r == spec_v128_byte(v.bits, k),
{
    (v.bits >> (8 * k)) as u8
}

/// Whether every byte of a shuffle selector names one of the 32 input
/// bytes.
pub open spec fn spec_shuffle_selector_ok(sel: u128) -> bool {
    forall|k: u32| k < 16 ==> #[trigger] spec_v128_byte(sel, k) < 32
}

/// The byte the shuffle writes at position `k`: selector values below 16
/// pick a byte of `lhs`, values from 16 pick a byte of `rhs`.
pub open spec fn spec_shuffle_byte(lhs: u128, rhs: u128, sel: u128, k: u32) -> u8 {
    let s = spec_v128_byte(sel, k);
    if s < 16 {
        spec_v128_byte(lhs, s as u32)
    } else {
        spec_v128_byte(rhs, (s - 16) as u32)
    }
}

/// Interleaves the bytes of two vectors as the selector directs.
///
/// Returns `None` if some selector byte is 32 or more; the translator
/// validates selectors, so the executor treats that case as an
/// internal-consistency violation.
pub fn i8x16_shuffle(lhs: V128, rhs: V128, selector: V128) -> (r: Option<V128>)
    ensures
        spec_shuffle_selector_ok(selector.bits) ==> (r matches Some(v) && forall|k: u32|
            k < 16 ==> #[trigger] spec_v128_byte(v.bits, k) == spec_shuffle_byte(
                lhs.bits,
                rhs.bits,
                selector.bits,
                k,
            )),
        !spec_shuffle_selector_ok(selector.bits) ==> r is None,
{
    let mut acc: u128 = 0;
    let mut k: u32 = 0;
    while k < 16
        invariant
            k <= 16,
            forall|j: u32| j < k ==> #[trigger] spec_v128_byte(selector.bits, j) < 32,
            forall|j: u32| j < k ==> #[trigger] spec_v128_byte(acc, j) == spec_shuffle_byte(
                lhs.bits,
                rhs.bits,
                selector.bits,
                j,
            ),
        decreases 16 - k,
    {
        let s = v128_byte(selector, k);
        if s >= 32 {
            return None;
        }
        let b: u8 = if s < 16 {
            v128_byte(lhs, s as u32)
        } else {
            v128_byte(rhs, (s - 16) as u32)
        };
        let ghost old_acc = acc;
        acc = (acc & !(0xFFu128 << (8 * k))) | ((b as u128) << (8 * k));
        proof {
            lemma_u128_set_byte(old_acc, b, k);
            assert forall|j: u32| j < k + 1 implies #[trigger] spec_v128_byte(acc, j)
                == spec_shuffle_byte(lhs.bits, rhs.bits, selector.bits, j) by {
                if j < k {
                    lemma_u128_set_byte_other(old_acc, b, k, j);
                }
            }
        }
        k = k + 1;
    }
    Some(V128 { bits: acc })
}

/// Writing byte `k` of an accumulator by mask-out and or-in sets that byte.
proof fn lemma_u128_set_byte(acc: u128, b: u8, k: u32)
    by (bit_vector)
    requires
        k < 16,
    ensures
        spec_v128_byte((acc & !(0xFFu128 << (8 * k))) | ((b as u128) << (8 * k)), k) == b,
{
}

/// Writing byte `k` of an accumulator leaves every other byte unchanged.
proof fn lemma_u128_set_byte_other(acc: u128, b: u8, k: u32, j: u32)
    by (bit_vector)
    requires
        j != k,
        k < 16,
        j < 16,
    ensures
        spec_v128_byte((acc & !(0xFFu128 << (8 * k))) | ((b as u128) << (8 * k)), j)
            == spec_v128_byte(acc, j),
{
}

/// Picks each bit from `lhs` where the selector bit is one and from `rhs`
/// where it is zero.
pub fn v128_bitselect(lhs: V128, rhs: V128, selector: V128) -> (r: V128)
    ensures
        r.bits == (lhs.bits & selector.bits) | (rhs.bits & !selector.bits),
{
    V128 { bits: (lhs.bits & selector.bits) | (rhs.bits & !selector.bits) }
}

/// The bitwise conjunction of two vectors.
pub fn v128_and(lhs: V128, rhs: V128) -> (r: V128)
    ensures
        r.bits == lhs.bits & rhs.bits,
{
    V128 { bits: lhs.bits & rhs.bits }
}

/// The bitwise disjunction of two vectors.
pub fn v128_or(lhs: V128, rhs: V128) -> (r: V128)
    ensures
        r.bits == lhs.bits | rhs.bits,
{
    V128 { bits: lhs.bits | rhs.bits }
}

/// The bitwise exclusive disjunction of two vectors.
pub fn v128_xor(lhs: V128, rhs: V128) -> (r: V128)
    ensures
        r.bits == lhs.bits ^ rhs.bits,
{
    V128 { bits: lhs.bits ^ rhs.bits }
}

/// The bitwise complement of a vector.
pub fn v128_not(v: V128) -> (r: V128)
    ensures
        r.bits == !v.bits,
{
    V128 { bits: !v.bits }
}

/// Whether any bit of the vector is set.
pub fn v128_any_true(v: V128) -> (r: bool)
    ensures
        r == (v.bits != 0),
{
    v.bits != 0
}

/// Broadcasts a 32-bit value into all four lanes of a vector.
pub fn i32x4_splat(value: u32) -> (r: V128)
    ensures
        forall|k: u32| k < 4 ==> #[trigger] spec_v128_lane32(r.bits, k) == value,
{
    let x: u128 = value as u128;
    let bits: u128 = x | (x << 32) | (x << 64) | (x << 96);
    proof {
        lemma_i32x4_splat(value, bits);
    }
    V128 { bits }
}

/// The four 32-bit lanes of a broadcast all hold the broadcast value.
proof fn lemma_i32x4_splat(value: u32, bits: u128)
    by (bit_vector)
    requires
        bits == (value as u128) | ((value as u128) << 32) | ((value as u128) << 64) | ((
        value as u128) << 96),
    ensures
        forall|k: u32| k < 4 ==> #[trigger] spec_v128_lane32(bits, k) == value,
{
}

/// Reads one 32-bit lane of a vector.
pub fn i32x4_extract_lane(v: V128, lane: u32) -> (r: u32)
    requires
        lane < 4,
    ensures
        r == spec_v128_lane32(v.bits, lane),
{
    (v.bits >> (32 * lane)) as u32
}

/// Shifts each 64-bit lane left by `amount`, which must be below the lane
/// width.
pub fn i64x2_shl(v: V128, amount: u32) -> (r: V128)
    requires
        amount < 64,
    ensures
        forall|k: u32| k < 2 ==> #[trigger] spec_v128_lane64(r.bits, k) == spec_v128_lane64(
            v.bits,
            k,
        ) << amount,
{
    let lo: u64 = v.bits as u64;
    let hi: u64 = (v.bits >> 64) as u64;
    let lo2: u64 = lo << amount;
    let hi2: u64 = hi << amount;
    let bits: u128 = (lo2 as u128) | ((hi2 as u128) << 64);
    proof {
        lemma_i64x2_lanes(v.bits, lo2, hi2, bits, amount);
    }
    V128 { bits }
}

/// Reassembling two shifted halves gives a vector whose 64-bit lanes are
/// the shifted lanes of the input.
proof fn lemma_i64x2_lanes(orig: u128, lo2: u64, hi2: u64, bits: u128, amount: u32)
    by (bit_vector)
    requires
        amount < 64,
        lo2 == (orig as u64) << amount,
        hi2 == ((orig >> 64) as u64) << amount,
        bits == (lo2 as u128) | ((hi2 as u128) << 64),
    ensures
        forall|k: u32| k < 2 ==> #[trigger] spec_v128_lane64(bits, k) == spec_v128_lane64(
            orig,
            k,
        ) << amount,
{
}

} // verus!
