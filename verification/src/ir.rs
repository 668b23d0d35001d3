//! Primitive value types of the instruction representation: branch offsets,
//! block fuel, comparators, and the packed comparator-plus-offset word.
//!
//! These types expose nothing but range-checked construction and
//! encode/decode; all behaviour is stated in their contracts.

use vstd::prelude::*;
use crate::value::UntypedVal;

verus! {

/// The number of [`Comparator`] variants; ordinals are contiguous from zero.
pub const COMPARATOR_COUNT: u32 = 38;

/// Errors produced by range-checked construction of IR primitives.
#[derive(Debug, Copy, Clone, PartialEq, Eq, Structural)]
pub enum IrError {
    /// A branch offset does not fit its encoding.
    BranchOffsetOutOfBounds,
    /// A block's fuel counter would leave its 32-bit range.
    BlockFuelOutOfBounds,
    /// A 32-bit word does not name a comparator.
    ComparatorOutOfBounds,
}

/// The sign of a value.
#[derive(Debug, Copy, Clone, PartialEq, Eq, Structural)]
pub enum Sign {
    /// Positive sign.
    Pos,
    /// Negative sign.
    Neg,
}

/// An index of an instruction in an encoded instruction stream.
#[derive(Debug, Copy, Clone, PartialEq, Eq, Structural)]
pub struct Instr {
    /// The position of the instruction, counted in slots.
    pub index: u32,
}

impl Instr {
    /// Creates an instruction index from its slot position.
    pub fn new(index: u32) -> (r: Self)
        ensures
            r.index == index,
    {
        Instr { index }
    }
}

/// A signed 32-bit offset for branch instructions, measured in instruction
/// slots.  The value `0` means *uninitialized*: forward branches are emitted
/// as placeholders and patched once their target is known.
#[derive(Debug, Copy, Clone, PartialEq, Eq, Structural)]
pub struct BranchOffset {
    /// The instruction-pointer delta taken by the branch.
    pub value: i32,
}

impl BranchOffset {
    /// Creates a branch offset from its `i32` representation.
    pub fn from_i32(value: i32) -> (r: Self)
        ensures
            r.value == value,
    {
        BranchOffset { value }
    }

    /// Creates an uninitialized branch offset.
    pub fn uninit() -> (r: Self)
        ensures
            r.value == 0,
    {
        BranchOffset { value: 0 }
    }

    /// Creates the branch offset that jumps from `src` to `dst`.
    ///
    /// Returns the exact instruction-pointer delta `dst - src` whenever that
    /// delta fits a signed 32-bit number, and fails otherwise.
    pub fn from_src_to_dst(src: Instr, dst: Instr) -> (r: Result<Self, IrError>)
        ensures
            i32::MIN <= dst.index - src.index <= i32::MAX ==> (r == Ok::<Self, IrError>(
                (BranchOffset { value: (dst.index - src.index) as i32 }),
            )),
            !(i32::MIN <= dst.index - src.index <= i32::MAX) ==> r == Err::<Self, IrError>(
                IrError::BranchOffsetOutOfBounds,
            ),
    {
        let diff: i64 = dst.index as i64 - src.index as i64;
        if i32::MIN as i64 <= diff && diff <= i32::MAX as i64 {
            Ok(BranchOffset { value: diff as i32 })
        } else {
            Err(IrError::BranchOffsetOutOfBounds)
        }
    }

    /// Returns `true` if the branch offset has been initialized.
    pub fn is_init(self) -> (r: bool)
        ensures
            r == (self.value != 0),
    {
        self.value != 0
    }

    /// Initializes the branch offset with a proper value.
    ///
    /// The receiver must still be a placeholder and `valid_offset` must
    /// itself be initialized: a zero offset would make the branch target
    /// itself, which marks an unpatched placeholder.
    pub fn init(&mut self, valid_offset: BranchOffset)
        requires
            valid_offset.value != 0,
            old(self).value == 0,
        ensures
            *final(self) == valid_offset,
    {
        *self = valid_offset;
    }

    /// Returns the `i32` representation of the branch offset.
    pub fn to_i32(self) -> (r: i32)
        ensures
            r == self.value,
    {
        self.value
    }
}

/// A signed 16-bit branch offset, folded into an instruction slot alongside
/// other fields.  As with [`BranchOffset`], the value `0` means
/// *uninitialized*.
#[derive(Debug, Copy, Clone, PartialEq, Eq, Structural)]
pub struct BranchOffset16 {
    /// The instruction-pointer delta taken by the branch.
    pub value: i16,
}

impl BranchOffset16 {
    /// Creates a 16-bit branch offset from its `i16` representation.
    pub fn from_i16(value: i16) -> (r: Self)
        ensures
            r.value == value,
    {
        BranchOffset16 { value }
    }

    /// Narrows a 32-bit branch offset; fails if it does not fit 16 bits.
    pub fn try_from_offset(offset: BranchOffset) -> (r: Result<Self, IrError>)
        ensures
            i16::MIN <= offset.value <= i16::MAX ==> (r == Ok::<Self, IrError>(
                (BranchOffset16 { value: offset.value as i16 }),
            )),
            !(i16::MIN <= offset.value <= i16::MAX) ==> r == Err::<Self, IrError>(
                IrError::BranchOffsetOutOfBounds,
            ),
    {
        if i16::MIN as i32 <= offset.value && offset.value <= i16::MAX as i32 {
            Ok(BranchOffset16 { value: offset.value as i16 })
        } else {
            Err(IrError::BranchOffsetOutOfBounds)
        }
    }

    /// Widens the 16-bit offset back to a [`BranchOffset`].
    pub fn to_offset(self) -> (r: BranchOffset)
        ensures
            r.value == self.value as i32,
    {
        BranchOffset { value: self.value as i32 }
    }

    /// Returns `true` if the branch offset has been initialized.
    pub fn is_init(self) -> (r: bool)
        ensures
            r == (self.value != 0),
    {
        self.value != 0
    }

    /// Initializes the branch offset with a proper value.
    ///
    /// The receiver must still be a placeholder and `valid_offset` must
    /// itself be initialized.  Fails if `valid_offset` cannot be encoded in
    /// 16 bits, leaving the receiver unchanged.
    pub fn init(&mut self, valid_offset: BranchOffset) -> (r: Result<(), IrError>)
        requires
            valid_offset.value != 0,
            old(self).value == 0,
        ensures
            i16::MIN <= valid_offset.value <= i16::MAX ==> (r == Ok::<(), IrError>(())
                && final(self).value == valid_offset.value as i16),
            !(i16::MIN <= valid_offset.value <= i16::MAX) ==> (r == Err::<(), IrError>(
                IrError::BranchOffsetOutOfBounds,
            ) && *final(self) == *old(self)),
    {
        match Self::try_from_offset(valid_offset) {
            Ok(valid_offset16) => {
                *self = valid_offset16;
                Ok(())
            },
            Err(e) => Err(e),
        }
    }

    /// Returns the `i16` representation of the branch offset.
    pub fn to_i16(self) -> (r: i16)
        ensures
            r == self.value,
    {
        self.value
    }
}

/// The accumulated static fuel cost of a block, charged when the block's
/// consume-fuel opcode executes.
#[derive(Debug, Copy, Clone, PartialEq, Eq, Structural)]
pub struct BlockFuel {
    /// The accumulated amount of fuel.
    pub value: u32,
}

impl BlockFuel {
    /// Creates a block-fuel counter; fails if `amount` exceeds 32 bits.
    pub fn from_u64(amount: u64) -> (r: Result<Self, IrError>)
        ensures
            amount <= u32::MAX ==> (r == Ok::<Self, IrError>((BlockFuel {
                value: amount as u32,
            }))),
            amount > u32::MAX ==> r == Err::<Self, IrError>(IrError::BlockFuelOutOfBounds),
    {
        if amount <= u32::MAX as u64 {
            Ok(BlockFuel { value: amount as u32 })
        } else {
            Err(IrError::BlockFuelOutOfBounds)
        }
    }

    /// Bumps the accumulated fuel by `amount` if the sum stays in bounds;
    /// otherwise fails and leaves the counter unchanged.  The counter never
    /// wraps.
    pub fn bump_by(&mut self, amount: u64) -> (r: Result<(), IrError>)
        ensures
            old(self).value + amount <= u32::MAX ==> (r == Ok::<(), IrError>(())
                && final(self).value == old(self).value + amount),
            old(self).value + amount > u32::MAX ==> (r == Err::<(), IrError>(
                IrError::BlockFuelOutOfBounds,
            ) && *final(self) == *old(self)),
    {
        let headroom: u64 = u32::MAX as u64 - self.value as u64;
        if amount <= headroom {
            self.value = (self.value as u64 + amount) as u32;
            Ok(())
        } else {
            Err(IrError::BlockFuelOutOfBounds)
        }
    }

    /// Returns the accumulated fuel as `u64`.
    pub fn to_u64(self) -> (r: u64)
        ensures
            r == self.value as u64,
    {
        self.value as u64
    }
}


/// Encodes the primitive test of a fused conditional branch.
///
/// Variants are numbered contiguously from zero in declaration order; the
/// `*Eqz` forms are reduced compound tests that let the translator fuse a
/// logical operation and an is-zero check with a conditional branch.
#[derive(Debug, Copy, Clone, PartialEq, Eq, Structural)]
pub enum Comparator {
    /// The `I32Eq` branch comparator.
    I32Eq,
    /// The `I32Ne` branch comparator.
    I32Ne,
    /// The `I32LtS` branch comparator.
    I32LtS,
    /// The `I32LtU` branch comparator.
    I32LtU,
    /// The `I32LeS` branch comparator.
    I32LeS,
    /// The `I32LeU` branch comparator.
    I32LeU,
    /// The `I32GtS` branch comparator.
    I32GtS,
    /// The `I32GtU` branch comparator.
    I32GtU,
    /// The `I32GeS` branch comparator.
    I32GeS,
    /// The `I32GeU` branch comparator.
    I32GeU,
    /// The `I32And` branch comparator.
    I32And,
    /// The `I32Or` branch comparator.
    I32Or,
    /// The `I32Xor` branch comparator.
    I32Xor,
    /// The `I32AndEqz` branch comparator.
    I32AndEqz,
    /// The `I32OrEqz` branch comparator.
    I32OrEqz,
    /// The `I32XorEqz` branch comparator.
    I32XorEqz,
    /// The `I64Eq` branch comparator.
    I64Eq,
    /// The `I64Ne` branch comparator.
    I64Ne,
    /// The `I64LtS` branch comparator.
    I64LtS,
    /// The `I64LtU` branch comparator.
    I64LtU,
    /// The `I64LeS` branch comparator.
    I64LeS,
    /// The `I64LeU` branch comparator.
    I64LeU,
    /// The `I64GtS` branch comparator.
    I64GtS,
    /// The `I64GtU` branch comparator.
    I64GtU,
    /// The `I64GeS` branch comparator.
    I64GeS,
    /// The `I64GeU` branch comparator.
    I64GeU,
    /// The `F32Eq` branch comparator.
    F32Eq,
    /// The `F32Ne` branch comparator.
    F32Ne,
    /// The `F32Lt` branch comparator.
    F32Lt,
    /// The `F32Le` branch comparator.
    F32Le,
    /// The `F32Gt` branch comparator.
    F32Gt,
    /// The `F32Ge` branch comparator.
    F32Ge,
    /// The `F64Eq` branch comparator.
    F64Eq,
    /// The `F64Ne` branch comparator.
    F64Ne,
    /// The `F64Lt` branch comparator.
    F64Lt,
    /// The `F64Le` branch comparator.
    F64Le,
    /// The `F64Gt` branch comparator.
    F64Gt,
    /// The `F64Ge` branch comparator.
    F64Ge,
}

/// The comparator named by `value`, for `value` below [`COMPARATOR_COUNT`];
/// an arbitrary fixed comparator otherwise.
pub open spec fn comparator_from_ordinal(value: u32) -> Comparator {
    if value == 0 {
        Comparator::I32Eq
    } else if value == 1 {
        Comparator::I32Ne
    } else if value == 2 {
        Comparator::I32LtS
    } else if value == 3 {
        Comparator::I32LtU
    } else if value == 4 {
        Comparator::I32LeS
    } else if value == 5 {
        Comparator::I32LeU
    } else if value == 6 {
        Comparator::I32GtS
    } else if value == 7 {
        Comparator::I32GtU
    } else if value == 8 {
        Comparator::I32GeS
    } else if value == 9 {
        Comparator::I32GeU
    } else if value == 10 {
        Comparator::I32And
    } else if value == 11 {
        Comparator::I32Or
    } else if value == 12 {
        Comparator::I32Xor
    } else if value == 13 {
        Comparator::I32AndEqz
    } else if value == 14 {
        Comparator::I32OrEqz
    } else if value == 15 {
        Comparator::I32XorEqz
    } else if value == 16 {
        Comparator::I64Eq
    } else if value == 17 {
        Comparator::I64Ne
    } else if value == 18 {
        Comparator::I64LtS
    } else if value == 19 {
        Comparator::I64LtU
    } else if value == 20 {
        Comparator::I64LeS
    } else if value == 21 {
        Comparator::I64LeU
    } else if value == 22 {
        Comparator::I64GtS
    } else if value == 23 {
        Comparator::I64GtU
    } else if value == 24 {
        Comparator::I64GeS
    } else if value == 25 {
        Comparator::I64GeU
    } else if value == 26 {
        Comparator::F32Eq
    } else if value == 27 {
        Comparator::F32Ne
    } else if value == 28 {
        Comparator::F32Lt
    } else if value == 29 {
        Comparator::F32Le
    } else if value == 30 {
        Comparator::F32Gt
    } else if value == 31 {
        Comparator::F32Ge
    } else if value == 32 {
        Comparator::F64Eq
    } else if value == 33 {
        Comparator::F64Ne
    } else if value == 34 {
        Comparator::F64Lt
    } else if value == 35 {
        Comparator::F64Le
    } else if value == 36 {
        Comparator::F64Gt
    } else {
        Comparator::F64Ge
    }
}

impl Comparator {
    /// The contiguous ordinal of this comparator.
    pub open spec fn ordinal(self) -> u32 {
        match self {
            Comparator::I32Eq => 0,
            Comparator::I32Ne => 1,
            Comparator::I32LtS => 2,
            Comparator::I32LtU => 3,
            Comparator::I32LeS => 4,
            Comparator::I32LeU => 5,
            Comparator::I32GtS => 6,
            Comparator::I32GtU => 7,
            Comparator::I32GeS => 8,
            Comparator::I32GeU => 9,
            Comparator::I32And => 10,
            Comparator::I32Or => 11,
            Comparator::I32Xor => 12,
            Comparator::I32AndEqz => 13,
            Comparator::I32OrEqz => 14,
            Comparator::I32XorEqz => 15,
            Comparator::I64Eq => 16,
            Comparator::I64Ne => 17,
            Comparator::I64LtS => 18,
            Comparator::I64LtU => 19,
            Comparator::I64LeS => 20,
            Comparator::I64LeU => 21,
            Comparator::I64GtS => 22,
            Comparator::I64GtU => 23,
            Comparator::I64GeS => 24,
            Comparator::I64GeU => 25,
            Comparator::F32Eq => 26,
            Comparator::F32Ne => 27,
            Comparator::F32Lt => 28,
            Comparator::F32Le => 29,
            Comparator::F32Gt => 30,
            Comparator::F32Ge => 31,
            Comparator::F64Eq => 32,
            Comparator::F64Ne => 33,
            Comparator::F64Lt => 34,
            Comparator::F64Le => 35,
            Comparator::F64Gt => 36,
            Comparator::F64Ge => 37,
        }
    }

    /// Encodes the comparator as its 32-bit ordinal.
    pub fn to_u32(self) -> (r: u32)
        ensures
            r == self.ordinal(),
    {
        match self {
            Comparator::I32Eq => 0,
            Comparator::I32Ne => 1,
            Comparator::I32LtS => 2,
            Comparator::I32LtU => 3,
            Comparator::I32LeS => 4,
            Comparator::I32LeU => 5,
            Comparator::I32GtS => 6,
            Comparator::I32GtU => 7,
            Comparator::I32GeS => 8,
            Comparator::I32GeU => 9,
            Comparator::I32And => 10,
            Comparator::I32Or => 11,
            Comparator::I32Xor => 12,
            Comparator::I32AndEqz => 13,
            Comparator::I32OrEqz => 14,
            Comparator::I32XorEqz => 15,
            Comparator::I64Eq => 16,
            Comparator::I64Ne => 17,
            Comparator::I64LtS => 18,
            Comparator::I64LtU => 19,
            Comparator::I64LeS => 20,
            Comparator::I64LeU => 21,
            Comparator::I64GtS => 22,
            Comparator::I64GtU => 23,
            Comparator::I64GeS => 24,
            Comparator::I64GeU => 25,
            Comparator::F32Eq => 26,
            Comparator::F32Ne => 27,
            Comparator::F32Lt => 28,
            Comparator::F32Le => 29,
            Comparator::F32Gt => 30,
            Comparator::F32Ge => 31,
            Comparator::F64Eq => 32,
            Comparator::F64Ne => 33,
            Comparator::F64Lt => 34,
            Comparator::F64Le => 35,
            Comparator::F64Gt => 36,
            Comparator::F64Ge => 37,
        }
    }

    /// Decodes a comparator from a 32-bit ordinal, validating the range.
    pub fn try_from_u32(value: u32) -> (r: Result<Self, IrError>)
        ensures
            value < COMPARATOR_COUNT ==> (r == Ok::<Self, IrError>(
                comparator_from_ordinal(value),
            )),
            value >= COMPARATOR_COUNT ==> r == Err::<Self, IrError>(
                IrError::ComparatorOutOfBounds,
            ),
    {
        match value {
            0 => Ok(Comparator::I32Eq),
            1 => Ok(Comparator::I32Ne),
            2 => Ok(Comparator::I32LtS),
            3 => Ok(Comparator::I32LtU),
            4 => Ok(Comparator::I32LeS),
            5 => Ok(Comparator::I32LeU),
            6 => Ok(Comparator::I32GtS),
            7 => Ok(Comparator::I32GtU),
            8 => Ok(Comparator::I32GeS),
            9 => Ok(Comparator::I32GeU),
            10 => Ok(Comparator::I32And),
            11 => Ok(Comparator::I32Or),
            12 => Ok(Comparator::I32Xor),
            13 => Ok(Comparator::I32AndEqz),
            14 => Ok(Comparator::I32OrEqz),
            15 => Ok(Comparator::I32XorEqz),
            16 => Ok(Comparator::I64Eq),
            17 => Ok(Comparator::I64Ne),
            18 => Ok(Comparator::I64LtS),
            19 => Ok(Comparator::I64LtU),
            20 => Ok(Comparator::I64LeS),
            21 => Ok(Comparator::I64LeU),
            22 => Ok(Comparator::I64GtS),
            23 => Ok(Comparator::I64GtU),
            24 => Ok(Comparator::I64GeS),
            25 => Ok(Comparator::I64GeU),
            26 => Ok(Comparator::F32Eq),
            27 => Ok(Comparator::F32Ne),
            28 => Ok(Comparator::F32Lt),
            29 => Ok(Comparator::F32Le),
            30 => Ok(Comparator::F32Gt),
            31 => Ok(Comparator::F32Ge),
            32 => Ok(Comparator::F64Eq),
            33 => Ok(Comparator::F64Ne),
            34 => Ok(Comparator::F64Lt),
            35 => Ok(Comparator::F64Le),
            36 => Ok(Comparator::F64Gt),
            37 => Ok(Comparator::F64Ge),
            _ => Err(IrError::ComparatorOutOfBounds),
        }
    }
}

/// Every comparator's ordinal is in range, and decoding it gives the
/// comparator back.
pub proof fn lemma_comparator_ordinal_inverse(c: Comparator)
    ensures
        c.ordinal() < COMPARATOR_COUNT,
        comparator_from_ordinal(c.ordinal()) == c,
{
}

/// A comparator and a 32-bit branch offset packed into one 64-bit word:
/// the high 32 bits hold the comparator ordinal, the low 32 bits hold the
/// offset reinterpreted as unsigned.  A general compare-and-branch
/// instruction stores this word in the constant pool and names it by a
/// single register id.
#[derive(Debug, Copy, Clone, PartialEq, Eq, Structural)]
pub struct ComparatorAndOffset {
    /// Encodes the actual binary operator for the conditional branch.
    pub cmp: Comparator,
    /// Encodes the 32-bit branching offset.
    pub offset: BranchOffset,
}

impl ComparatorAndOffset {
    /// The packed 64-bit encoding of this value.
    pub open spec fn spec_as_u64(self) -> u64 {
        ((self.cmp.ordinal() as u64) << 32) | (self.offset.value as u32 as u64)
    }

    /// The value decoded from a packed 64-bit word, if the high half names
    /// a comparator.
    pub open spec fn spec_from_u64(value: u64) -> Option<Self> {
        if value >> 32 < COMPARATOR_COUNT as u64 {
            Some(
                ComparatorAndOffset {
                    cmp: comparator_from_ordinal((value >> 32) as u32),
                    offset: BranchOffset { value: value as i32 },
                },
            )
        } else {
            None
        }
    }

    /// Creates a new comparator-and-offset pair.
    pub fn new(cmp: Comparator, offset: BranchOffset) -> (r: Self)
        ensures
            r.cmp == cmp,
            r.offset == offset,
    {
        ComparatorAndOffset { cmp, offset }
    }

    /// Decodes a pair from the given `u64` value.
    ///
    /// Returns `None` if the high 32 bits are not a comparator ordinal.
    pub fn from_u64(value: u64) -> (r: Option<Self>)
        ensures
            r == Self::spec_from_u64(value),
    {
        let hi: u64 = value >> 32;
        let lo: u32 = value as u32;
        proof {
            lemma_u64_shr32_fits_u32(value);
            lemma_u64_low_half_as_i32(value);
        }
        match Comparator::try_from_u32(hi as u32) {
            Ok(cmp) => {
                proof {
                    lemma_comparator_ordinal_inverse(cmp);
                }
                Some(ComparatorAndOffset { cmp, offset: BranchOffset::from_i32(lo as i32) })
            },
            Err(_) => None,
        }
    }

    /// Decodes a pair from the given untyped value.
    ///
    /// Returns `None` if the untyped value has an invalid encoding.
    pub fn from_untyped(value: UntypedVal) -> (r: Option<Self>)
        ensures
            r == Self::spec_from_u64(value.bits),
    {
        Self::from_u64(value.as_u64())
    }

    /// Packs the pair into a `u64` value.
    pub fn as_u64(&self) -> (r: u64)
        ensures
            r == self.spec_as_u64(),
    {
        let hi: u64 = self.cmp.to_u32() as u64;
        let lo: u64 = self.offset.to_i32() as u32 as u64;
        (hi << 32) | lo
    }

    /// Packs the pair into an untyped value.
    pub fn to_untyped(&self) -> (r: UntypedVal)
        ensures
            r.bits == self.spec_as_u64(),
    {
        UntypedVal::from_u64(self.as_u64())
    }
}

/// Packing a comparator-and-offset pair and unpacking the word gives the
/// identical pair back, for every pair.
pub proof fn lemma_comparator_and_offset_roundtrip(x: ComparatorAndOffset)
    ensures
        ComparatorAndOffset::spec_from_u64(x.spec_as_u64()) == Some(x),
{
    lemma_comparator_ordinal_inverse(x.cmp);
    let hi = x.cmp.ordinal();
    let lo: u32 = x.offset.value as u32;
    lemma_pack_halves(hi, lo);
    lemma_i32_u32_roundtrip(x.offset.value);
    let packed = x.spec_as_u64();
    assert(packed == ((hi as u64) << 32) | (lo as u64));
    assert(packed >> 32 == hi as u64);
    assert((packed >> 32) as u32 == hi);
    assert(packed as i32 == x.offset.value);
}

/// Reinterpreting an `i32` as unsigned and back gives the value unchanged.
proof fn lemma_i32_u32_roundtrip(v: i32)
    by (bit_vector)
    ensures
        (v as u32) as i32 == v,
{
}

/// Shifting a 64-bit word right by 32 leaves a value that fits 32 bits.
proof fn lemma_u64_shr32_fits_u32(v: u64)
    by (bit_vector)
    ensures
        v >> 32 <= u32::MAX as u64,
        (v >> 32) as u32 as u64 == v >> 32,
{
}

/// Truncating a 64-bit word to 32 bits and reinterpreting as signed equals
/// the direct signed truncation.
proof fn lemma_u64_low_half_as_i32(v: u64)
    by (bit_vector)
    ensures
        (v as u32) as i32 == v as i32,
{
}

/// Packing two 32-bit halves into a 64-bit word is undone exactly by
/// shifting and truncating.
proof fn lemma_pack_halves(hi: u32, lo: u32)
    by (bit_vector)
    ensures
        (((hi as u64) << 32) | (lo as u64)) >> 32 == hi as u64,
        (((hi as u64) << 32) | (lo as u64)) as i32 == lo as i32,
{
}


} // verus!
