//! The flat instruction set of the register machine.
//!
//! Every instruction occupies one fixed-size slot.  An operation that needs
//! more operands than fit in one slot is followed by one or two *parameter*
//! slots ([`Instruction::Register`], [`Instruction::Const32`], ...); the
//! executor advances its instruction pointer by 1, 2 or 3 after each logical
//! operation.

use vstd::prelude::*;
use crate::ir::{BlockFuel, BranchOffset, BranchOffset16, Comparator};

verus! {

/// A 16-bit signed register id.
///
/// Non-negative values index the current function's local/temporary window;
/// negative values index the function-level constant pool, so immediates
/// that do not fit inline can be referenced by register id.
#[derive(Debug, Copy, Clone, PartialEq, Eq, Structural)]
pub struct Reg {
    /// The signed index of the register.
    pub value: i16,
}

impl Reg {
    /// The constant-pool slot named by a negative register id.
    pub open spec fn spec_const_slot(self) -> int {
        -1 - self.value
    }

    /// Creates a register id from its `i16` representation.
    pub fn from_i16(value: i16) -> (r: Self)
        ensures
            r.value == value,
    {
        Reg { value }
    }

    /// Returns the `i16` representation of the register id.
    pub fn to_i16(self) -> (r: i16)
        ensures
            r == self.value,
    {
        self.value
    }

    /// Returns `true` if the register id names a constant-pool slot.
    pub fn is_const(self) -> (r: bool)
        ensures
            r == (self.value < 0),
    {
        self.value < 0
    }
}

/// A 32-bit immediate carried inline: the bit pattern of an `i32`, `u32` or
/// `f32` value.
#[derive(Debug, Copy, Clone, PartialEq, Eq, Structural)]
pub struct AnyConst32 {
    /// The raw bit pattern of the immediate.
    pub bits: u32,
}

impl AnyConst32 {
    /// Creates an immediate from a `u32` value.
    pub fn from_u32(value: u32) -> (r: Self)
        ensures
            r.bits == value,
    {
        AnyConst32 { bits: value }
    }

    /// Creates an immediate from an `i32` value.
    pub fn from_i32(value: i32) -> (r: Self)
        ensures
            r.bits == value as u32,
    {
        AnyConst32 { bits: value as u32 }
    }

    /// Reads the immediate as a `u32` value.
    pub fn to_u32(self) -> (r: u32)
        ensures
            r == self.bits,
    {
        self.bits
    }

    /// Reads the immediate as an `i32` value.
    pub fn to_i32(self) -> (r: i32)
        ensures
            r == self.bits as i32,
    {
        self.bits as i32
    }
}

/// A 64-bit float immediate compressed into 32 bits: the high word of a
/// pattern whose low 32 bits are zero.
#[derive(Debug, Copy, Clone, PartialEq, Eq, Structural)]
pub struct F64Imm32 {
    /// The high 32 bits of the float's bit pattern.
    pub hi: u32,
}

/// Whether a 64-bit float pattern survives compression to its high word.
pub open spec fn spec_f64imm32_encodable(bits: u64) -> bool {
    bits as u32 == 0
}

impl F64Imm32 {
    /// The full 64-bit pattern this immediate decodes to.
    pub open spec fn spec_to_bits(self) -> u64 {
        (self.hi as u64) << 32
    }

    /// Compresses a 64-bit float pattern, if its low 32 bits are zero.
    pub fn try_from_bits(bits: u64) -> (r: Option<Self>)
        ensures
            spec_f64imm32_encodable(bits) ==> (r == Some((F64Imm32 { hi: (bits >> 32) as u32 }))
                && r.unwrap().spec_to_bits() == bits),
            !spec_f64imm32_encodable(bits) ==> r is None,
    {
        if bits as u32 == 0 {
            let hi: u32 = (bits >> 32) as u32;
            proof {
                lemma_f64imm32_split(bits);
            }
            Some(F64Imm32 { hi })
        } else {
            None
        }
    }

    /// Expands the immediate back to the full 64-bit pattern.
    pub fn to_bits(self) -> (r: u64)
        ensures
            r == self.spec_to_bits(),
    {
        (self.hi as u64) << 32
    }
}

/// A pattern with a zero low word is rebuilt exactly from its high word.
proof fn lemma_f64imm32_split(bits: u64)
    by (bit_vector)
    requires
        bits as u32 == 0,
    ensures
        (((bits >> 32) as u32) as u64) << 32 == bits,
{
}

/// The width of a store operation, in bytes of memory written.
#[derive(Debug, Copy, Clone, PartialEq, Eq, Structural)]
pub enum StoreWidth {
    /// An 8-bit store, wrapping the value to its low byte.
    W8,
    /// A 16-bit store, wrapping the value to its low two bytes.
    W16,
    /// A 32-bit store, wrapping the value to its low four bytes.
    W32,
    /// A 64-bit store of the whole value cell.
    W64,
}

impl StoreWidth {
    /// The number of bytes written by a store of this width.
    pub open spec fn spec_len(self) -> int {
        match self {
            StoreWidth::W8 => 1,
            StoreWidth::W16 => 2,
            StoreWidth::W32 => 4,
            StoreWidth::W64 => 8,
        }
    }

    /// Returns the number of bytes written by a store of this width.
    pub fn len(self) -> (r: usize)
        ensures
            r == self.spec_len(),
    {
        match self {
            StoreWidth::W8 => 1,
            StoreWidth::W16 => 2,
            StoreWidth::W32 => 4,
            StoreWidth::W64 => 8,
        }
    }
}

/// The categorized fatal execution failures surfaced to the embedder.
#[derive(Debug, Copy, Clone, PartialEq, Eq, Structural)]
pub enum TrapCode {
    /// An `unreachable` opcode, or an inconsistent instruction stream.
    UnreachableCodeReached,
    /// A linear-memory access outside the memory's current size.
    MemoryOutOfBounds,
    /// A table access outside the table's current size.
    TableOutOfBounds,
    /// An indirect call through a null table entry.
    IndirectCallToNull,
    /// An integer division or remainder with a zero divisor.
    IntegerDivisionByZero,
    /// An integer operation whose result cannot be represented.
    IntegerOverflow,
    /// A float-to-integer truncation of a NaN or infinity.
    BadConversionToInteger,
    /// Exhaustion of the value or call stack.
    StackOverflow,
    /// Exhaustion of the fuel budget.
    OutOfFuel,
}

/// One slot of the encoded instruction stream.
#[allow(inconsistent_fields)]
#[derive(Debug, Copy, Clone, PartialEq, Eq, Structural)]
pub enum Instruction {
    /// A trailing parameter slot carrying one more register operand.
    Register {
        /// The extra register operand.
        reg: Reg,
    },
    /// A trailing parameter slot carrying a 32-bit immediate operand.
    Const32 {
        /// The extra immediate operand.
        value: AnyConst32,
    },
    /// A trailing parameter slot carrying an `i64` operand that fits 32 bits.
    I64Const32 {
        /// The extra immediate operand, to be sign-extended.
        value: i32,
    },
    /// A trailing parameter slot carrying a compressed `f64` operand.
    F64Const32 {
        /// The extra immediate operand, to be expanded.
        value: F64Imm32,
    },
    /// A trailing parameter slot carrying a register and a 32-bit immediate.
    RegisterAndImm32 {
        /// The extra register operand.
        reg: Reg,
        /// The extra immediate operand.
        imm: u32,
    },
    /// A trailing parameter slot carrying a 16-bit and a 32-bit immediate.
    Imm16AndImm32 {
        /// The extra 16-bit immediate operand.
        imm16: i16,
        /// The extra 32-bit immediate operand.
        imm32: u32,
    },
    /// A trailing parameter slot naming a non-default linear memory.
    MemoryIndex {
        /// The index of the linear memory.
        index: u16,
    },
    /// Traps with the given code.
    Trap {
        /// The trap code to surface.
        trap_code: TrapCode,
    },
    /// Charges the accumulated static cost of a block against the fuel
    /// budget; traps with `OutOfFuel` when the budget is smaller.
    ConsumeFuel {
        /// The accumulated static cost of the block.
        block_fuel: BlockFuel,
    },
    /// Branches unconditionally by the given instruction-pointer delta.
    Branch {
        /// The instruction-pointer delta of the branch.
        offset: BranchOffset,
    },
    /// A fused compare-and-branch: evaluates the comparator over the two
    /// operands and branches by the folded 16-bit offset when it holds.
    BranchCmp {
        /// The primitive test to evaluate.
        cmp: Comparator,
        /// The left-hand side operand.
        lhs: Reg,
        /// The right-hand side operand.
        rhs: Reg,
        /// The delta taken when the test holds.
        offset: BranchOffset16,
    },
    /// A fused compare-and-branch whose comparator and 32-bit offset are
    /// packed into a constant-pool word named by `params`.
    BranchCmpFallback {
        /// The left-hand side operand.
        lhs: Reg,
        /// The right-hand side operand.
        rhs: Reg,
        /// The register naming the packed comparator-and-offset word.
        params: Reg,
    },
    /// Returns the value of the given register.
    ReturnReg {
        /// The register holding the return value.
        value: Reg,
    },
    /// Returns a 32-bit immediate; the upper 32 bits of the result are zero.
    ReturnImm32 {
        /// The immediate return value.
        value: AnyConst32,
    },
    /// Returns a sign-extended 32-bit immediate as an `i64` value.
    ReturnI64Imm32 {
        /// The immediate return value, to be sign-extended.
        value: i32,
    },
    /// Returns a compressed `f64` immediate.
    ReturnF64Imm32 {
        /// The immediate return value, to be expanded.
        value: F64Imm32,
    },
    /// Writes `lhs` to `result` if the condition is non-zero, else the
    /// operand of the following parameter slot.
    Select {
        /// The register written by the select.
        result: Reg,
        /// The register holding the condition.
        condition: Reg,
        /// The operand chosen on a non-zero condition.
        lhs: Reg,
    },
    /// Writes the operand of the following parameter slot to `result` if the
    /// condition is non-zero, else `rhs`: the conventions of
    /// [`Instruction::Select`] with the two operands swapped.
    SelectRev {
        /// The register written by the select.
        result: Reg,
        /// The register holding the condition.
        condition: Reg,
        /// The operand chosen on a zero condition.
        rhs: Reg,
    },
    /// The first slot of a two-slot select of two 32-bit immediates: this
    /// slot carries the result register and the left operand, the next
    /// [`Instruction::SelectImm32`] slot the condition and the right one.
    SelectImm32 {
        /// The result register (first slot) or condition (second slot).
        result_or_condition: Reg,
        /// The operand immediate.
        value: AnyConst32,
    },
    /// As [`Instruction::SelectImm32`], for two `i64` operands that fit 32
    /// bits.
    SelectI64Imm32 {
        /// The result register (first slot) or condition (second slot).
        result_or_condition: Reg,
        /// The operand immediate, to be sign-extended.
        value: i32,
    },
    /// As [`Instruction::SelectImm32`], for two compressed `f64` operands.
    SelectF64Imm32 {
        /// The result register (first slot) or condition (second slot).
        result_or_condition: Reg,
        /// The operand immediate, to be expanded.
        value: F64Imm32,
    },
    /// Writes the wrapping `i32` product of two registers to `result`.
    I32Mul {
        /// The register written by the operation.
        result: Reg,
        /// The left-hand side operand.
        lhs: Reg,
        /// The right-hand side operand.
        rhs: Reg,
    },
    /// Writes the wrapping `i32` product of a register and a 16-bit
    /// immediate to `result`.
    I32MulImm16 {
        /// The register written by the operation.
        result: Reg,
        /// The left-hand side operand.
        lhs: Reg,
        /// The right-hand side immediate, to be sign-extended.
        rhs: i16,
    },
    /// Writes the `f32.max` of two registers to `result`.
    F32Max {
        /// The register written by the operation.
        result: Reg,
        /// The left-hand side operand.
        lhs: Reg,
        /// The right-hand side operand.
        rhs: Reg,
    },
    /// Writes the `f32.min` of two registers to `result`.
    F32Min {
        /// The register written by the operation.
        result: Reg,
        /// The left-hand side operand.
        lhs: Reg,
        /// The right-hand side operand.
        rhs: Reg,
    },
    /// Writes the `f64.max` of two registers to `result`.
    F64Max {
        /// The register written by the operation.
        result: Reg,
        /// The left-hand side operand.
        lhs: Reg,
        /// The right-hand side operand.
        rhs: Reg,
    },
    /// Writes the size of the default memory, in 64 KiB pages, to `result`.
    MemorySize {
        /// The register written by the operation.
        result: Reg,
    },
    /// Stores a register value at a runtime base plus a 64-bit offset whose
    /// high half rides in a following [`Instruction::RegisterAndImm32`] slot
    /// together with the value register; an optional
    /// [`Instruction::MemoryIndex`] slot names a non-default memory.
    Store {
        /// The width of the store.
        width: StoreWidth,
        /// The register holding the base address.
        ptr: Reg,
        /// The low half of the 64-bit offset.
        offset_lo: u32,
    },
    /// As [`Instruction::Store`], with the value carried as a 16-bit
    /// immediate in a following [`Instruction::Imm16AndImm32`] slot.
    StoreImm {
        /// The width of the store.
        width: StoreWidth,
        /// The register holding the base address.
        ptr: Reg,
        /// The low half of the 64-bit offset.
        offset_lo: u32,
    },
    /// Stores a register value into the default memory at a runtime base
    /// plus a 16-bit offset folded into the slot.
    StoreOffset16 {
        /// The width of the store.
        width: StoreWidth,
        /// The register holding the base address.
        ptr: Reg,
        /// The folded 16-bit offset.
        offset: u16,
        /// The register holding the value to store.
        value: Reg,
    },
    /// As [`Instruction::StoreOffset16`], with the value folded in as a
    /// 16-bit immediate.
    StoreOffset16Imm16 {
        /// The width of the store.
        width: StoreWidth,
        /// The register holding the base address.
        ptr: Reg,
        /// The folded 16-bit offset.
        offset: u16,
        /// The folded immediate value, to be sign-extended.
        value: i16,
    },
    /// Stores a register value at an absolute 32-bit address baked into the
    /// slot; an optional [`Instruction::MemoryIndex`] slot names a
    /// non-default memory.
    StoreAt {
        /// The width of the store.
        width: StoreWidth,
        /// The absolute address written.
        address: u32,
        /// The register holding the value to store.
        value: Reg,
    },
    /// As [`Instruction::StoreAt`], with the value folded in as a 16-bit
    /// immediate.
    StoreAtImm16 {
        /// The width of the store.
        width: StoreWidth,
        /// The absolute address written.
        address: u32,
        /// The folded immediate value, to be sign-extended.
        value: i16,
    },
    /// Interleaves the bytes of two vectors as picked by the 16 selector
    /// bytes of the register in the following [`Instruction::Register`]
    /// slot.
    I8x16Shuffle {
        /// The register written by the operation.
        result: Reg,
        /// The vector supplying bytes for selector values below 16.
        lhs: Reg,
        /// The vector supplying bytes for selector values from 16.
        rhs: Reg,
    },
    /// Picks each bit from `lhs` or `rhs` as the mask of the register in the
    /// following [`Instruction::Register`] slot directs.
    V128Bitselect {
        /// The register written by the operation.
        result: Reg,
        /// The vector supplying bits where the mask is one.
        lhs: Reg,
        /// The vector supplying bits where the mask is zero.
        rhs: Reg,
    },
    /// Writes the bitwise conjunction of two vectors to `result`.
    V128And {
        /// The register written by the operation.
        result: Reg,
        /// The left-hand side operand.
        lhs: Reg,
        /// The right-hand side operand.
        rhs: Reg,
    },
    /// Writes the bitwise disjunction of two vectors to `result`.
    V128Or {
        /// The register written by the operation.
        result: Reg,
        /// The left-hand side operand.
        lhs: Reg,
        /// The right-hand side operand.
        rhs: Reg,
    },
    /// Writes the bitwise exclusive disjunction of two vectors to `result`.
    V128Xor {
        /// The register written by the operation.
        result: Reg,
        /// The left-hand side operand.
        lhs: Reg,
        /// The right-hand side operand.
        rhs: Reg,
    },
    /// Writes the bitwise complement of a vector to `result`.
    V128Not {
        /// The register written by the operation.
        result: Reg,
        /// The vector operand.
        input: Reg,
    },
    /// Writes 1 to `result` if any bit of the vector is set, else 0.
    V128AnyTrue {
        /// The register written by the operation.
        result: Reg,
        /// The vector operand.
        input: Reg,
    },
    /// Broadcasts the low 32 bits of a scalar register into all four lanes
    /// of a vector.
    I32x4Splat {
        /// The vector register written by the operation.
        result: Reg,
        /// The scalar register supplying the lane value.
        input: Reg,
    },
    /// Writes one statically chosen 32-bit lane of a vector to `result`.
    I32x4ExtractLane {
        /// The scalar register written by the operation.
        result: Reg,
        /// The vector operand.
        input: Reg,
        /// The lane to extract; validated to be below 4 at translation.
        lane: u8,
    },
    /// Shifts each 64-bit lane left by an immediate amount, reduced modulo
    /// the lane width at translation.
    I64x2ShlBy {
        /// The vector register written by the operation.
        result: Reg,
        /// The vector operand.
        lhs: Reg,
        /// The shift amount, below the lane width.
        amount: u32,
    },
}

} // verus!
