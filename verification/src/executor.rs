//! The dispatch loop of the register machine.
//!
//! Each step reads the opcode at the instruction pointer, decodes its
//! operands (which may live inline or in the next one or two slots),
//! performs the operation and advances the pointer by the opcode's slot
//! count.  The whole transition is pinned by [`spec_step_rel`].
//!
//! The translator guarantees that parameter slots are present, that register
//! ids are in bounds and that branch targets lie inside the stream; the
//! executor does not rely on that.  Where the stream is inconsistent it
//! never silently proceeds: it surfaces a defensive
//! [`TrapCode::UnreachableCodeReached`].

use vstd::prelude::*;
use crate::fbits::{
    spec_f32_eq_bits, spec_f32_le_bits, spec_f32_lt_bits, spec_f64_eq_bits, spec_f64_le_bits,
    spec_f64_lt_bits, spec_f32_max_bits, spec_f32_min_bits, spec_f64_max_bits, f32_eq_bits,
    f32_le_bits, f32_lt_bits, f64_eq_bits, f64_le_bits, f64_lt_bits, f32_max_bits, f32_min_bits,
    f64_max_bits,
};
use crate::instr::{AnyConst32, F64Imm32, Instruction, Reg, StoreWidth, TrapCode};
use crate::ir::{BlockFuel, BranchOffset, BranchOffset16, Comparator, ComparatorAndOffset};
use crate::simd::{
    i8x16_shuffle, i32x4_extract_lane, i32x4_splat, i64x2_shl, spec_shuffle_byte,
    spec_shuffle_selector_ok, spec_v128_lane32, spec_v128_lane64, v128_and, v128_any_true,
    v128_bitselect, v128_not, v128_or, v128_xor, V128,
};
use crate::store::{spec_store_bytes, store_wrap, StoreInner, PAGE_SIZE};
use crate::value::UntypedVal;

verus! {

/// The outcome of one executed instruction.
#[derive(Debug, Copy, Clone, PartialEq, Eq, Structural)]
pub enum StepResult {
    /// Execution continues at the new instruction pointer.
    Continue,
    /// The function returned the given value.
    Returned {
        /// The returned value cell.
        value: UntypedVal,
    },
    /// Execution trapped with the given code.
    Trapped {
        /// The code categorizing the trap.
        trap_code: TrapCode,
    },
}

/// The executor of one function activation: the encoded code, the constant
/// pool, the frame window of registers and the instruction pointer, owned
/// exclusively for the duration of a call.
pub struct Executor {
    /// The encoded instruction stream.
    pub instrs: Vec<Instruction>,
    /// The function-level constant pool, indexed by negative register ids.
    pub consts: Vec<UntypedVal>,
    /// The frame window of scalar registers.
    pub regs: Vec<UntypedVal>,
    /// The parallel wide-cell window of vector registers.
    pub simd_regs: Vec<V128>,
    /// The instruction pointer: an index into the instruction stream.
    pub ip: usize,
}

/// The bytes of each linear memory of a store.
pub open spec fn mems_view(s: StoreInner) -> Seq<Seq<u8>> {
    s.memories@.map_values(|m: crate::store::MemoryEntity| m.data@)
}

impl Executor {
    /// The value cell a register id names: the frame window for
    /// non-negative ids, the constant pool for negative ones; `None` when
    /// the id is out of bounds.
    pub open spec fn spec_get_reg(self, reg: Reg) -> Option<UntypedVal> {
        if reg.value >= 0 {
            if reg.value < self.regs.len() {
                Some(self.regs@[reg.value as int])
            } else {
                None
            }
        } else {
            if reg.spec_const_slot() < self.consts.len() {
                Some(self.consts@[reg.spec_const_slot()])
            } else {
                None
            }
        }
    }

    /// The vector cell a register id names; only the frame window holds
    /// vectors.
    pub open spec fn spec_get_simd(self, reg: Reg) -> Option<V128> {
        if 0 <= reg.value < self.simd_regs.len() {
            Some(self.simd_regs@[reg.value as int])
        } else {
            None
        }
    }

    /// Whether a register id names a writable scalar cell.
    pub open spec fn spec_can_set(self, reg: Reg) -> bool {
        0 <= reg.value < self.regs.len()
    }

    /// Whether a register id names a writable vector cell.
    pub open spec fn spec_can_set_simd(self, reg: Reg) -> bool {
        0 <= reg.value < self.simd_regs.len()
    }

    /// The instruction at `at`, if `at` lies inside the stream.
    pub open spec fn spec_param(self, at: int) -> Option<Instruction> {
        if 0 <= at < self.instrs.len() {
            Some(self.instrs@[at])
        } else {
            None
        }
    }
}

/// Whether `post` is `pre` with only the instruction pointer moved to
/// `new_ip`.
pub open spec fn rel_ip_only(pre: Executor, post: Executor, new_ip: int) -> bool {
    &&& post.instrs == pre.instrs
    &&& post.consts == pre.consts
    &&& post.regs == pre.regs
    &&& post.simd_regs == pre.simd_regs
    &&& post.ip == new_ip
}

/// Whether `post` is `pre` with scalar register `reg` set to `bits` and the
/// instruction pointer moved to `new_ip`.
pub open spec fn rel_set_reg_ip(pre: Executor, post: Executor, reg: Reg, bits: u64, new_ip: int) -> bool {
    &&& pre.spec_can_set(reg)
    &&& post.instrs == pre.instrs
    &&& post.consts == pre.consts
    &&& post.regs@ == pre.regs@.update(reg.value as int, (UntypedVal { bits }))
    &&& post.simd_regs == pre.simd_regs
    &&& post.ip == new_ip
}

/// Whether `post` is `pre` with vector register `reg` set to `bits` and the
/// instruction pointer moved to `new_ip`.
pub open spec fn rel_set_simd_ip(pre: Executor, post: Executor, reg: Reg, bits: u128, new_ip: int) -> bool {
    &&& pre.spec_can_set_simd(reg)
    &&& post.instrs == pre.instrs
    &&& post.consts == pre.consts
    &&& post.regs == pre.regs
    &&& post.simd_regs@ == pre.simd_regs@.update(reg.value as int, (V128 { bits }))
    &&& post.ip == new_ip
}

/// Whether the store is observably unchanged: same fuel, same memory bytes.
pub open spec fn rel_store_unchanged(s1: StoreInner, s2: StoreInner) -> bool {
    &&& s2.fuel == s1.fuel
    &&& mems_view(s2) == mems_view(s1)
}

/// Whether the step left everything unchanged and gave result `r`.
pub open spec fn rel_halt(
    pre: Executor,
    s1: StoreInner,
    post: Executor,
    s2: StoreInner,
) -> bool {
    &&& post == pre
    &&& rel_store_unchanged(s1, s2)
}

/// Whether the step was a defensive trap on an inconsistent instruction
/// stream: nothing changed and `UnreachableCodeReached` surfaced.
pub open spec fn rel_bad_stream(
    pre: Executor,
    s1: StoreInner,
    post: Executor,
    s2: StoreInner,
    r: StepResult,
) -> bool {
    &&& rel_halt(pre, s1, post, s2)
    &&& r == (StepResult::Trapped { trap_code: TrapCode::UnreachableCodeReached })
}

/// The value of the operand carried by a trailing parameter slot at `at`:
/// a register's cell, a zero-extended 32-bit immediate, a sign-extended
/// `i64` immediate or an expanded `f64` immediate.
pub open spec fn spec_operand_at(pre: Executor, at: int) -> Option<u64> {
    match pre.spec_param(at) {
        Some(Instruction::Register { reg }) => match pre.spec_get_reg(reg) {
            Some(v) => Some(v.bits),
            None => None,
        },
        Some(Instruction::Const32 { value }) => Some(value.bits as u64),
        Some(Instruction::I64Const32 { value }) => Some(value as i64 as u64),
        Some(Instruction::F64Const32 { value }) => Some(value.spec_to_bits()),
        _ => None,
    }
}

/// Whether a select condition cell counts as true: its `i32` view is
/// non-zero.
pub open spec fn spec_cond_nonzero(bits: u64) -> bool {
    bits as u32 != 0
}

/// The value cell written by `i32.mul`: the wrapping product of the two
/// `i32` views, zero-extended.
pub open spec fn spec_i32_mul_cell(l: u64, r: u64) -> u64 {
    vstd::wrapping::i32_specs::wrapping_mul(l as i32, r as i32) as u32 as u64
}

/// Whether the comparator's primitive test holds of two value cells.
pub open spec fn spec_cmp_eval(cmp: Comparator, l: u64, r: u64) -> bool {
    match cmp {
        Comparator::I32Eq => l as u32 == r as u32,
        Comparator::I32Ne => l as u32 != r as u32,
        Comparator::I32LtS => (l as i32) < (r as i32),
        Comparator::I32LtU => (l as u32) < (r as u32),
        Comparator::I32LeS => (l as i32) <= (r as i32),
        Comparator::I32LeU => (l as u32) <= (r as u32),
        Comparator::I32GtS => (l as i32) > (r as i32),
        Comparator::I32GtU => (l as u32) > (r as u32),
        Comparator::I32GeS => (l as i32) >= (r as i32),
        Comparator::I32GeU => (l as u32) >= (r as u32),
        Comparator::I32And => (l as u32) & (r as u32) != 0,
        Comparator::I32Or => (l as u32) | (r as u32) != 0,
        Comparator::I32Xor => (l as u32) ^ (r as u32) != 0,
        Comparator::I32AndEqz => (l as u32) & (r as u32) == 0,
        Comparator::I32OrEqz => (l as u32) | (r as u32) == 0,
        Comparator::I32XorEqz => (l as u32) ^ (r as u32) == 0,
        Comparator::I64Eq => l == r,
        Comparator::I64Ne => l != r,
        Comparator::I64LtS => (l as i64) < (r as i64),
        Comparator::I64LtU => l < r,
        Comparator::I64LeS => (l as i64) <= (r as i64),
        Comparator::I64LeU => l <= r,
        Comparator::I64GtS => (l as i64) > (r as i64),
        Comparator::I64GtU => l > r,
        Comparator::I64GeS => (l as i64) >= (r as i64),
        Comparator::I64GeU => l >= r,
        Comparator::F32Eq => spec_f32_eq_bits(l as u32, r as u32),
        Comparator::F32Ne => !spec_f32_eq_bits(l as u32, r as u32),
        Comparator::F32Lt => spec_f32_lt_bits(l as u32, r as u32),
        Comparator::F32Le => spec_f32_le_bits(l as u32, r as u32),
        Comparator::F32Gt => spec_f32_lt_bits(r as u32, l as u32),
        Comparator::F32Ge => spec_f32_le_bits(r as u32, l as u32),
        Comparator::F64Eq => spec_f64_eq_bits(l, r),
        Comparator::F64Ne => !spec_f64_eq_bits(l, r),
        Comparator::F64Lt => spec_f64_lt_bits(l, r),
        Comparator::F64Le => spec_f64_le_bits(l, r),
        Comparator::F64Gt => spec_f64_lt_bits(r, l),
        Comparator::F64Ge => spec_f64_le_bits(r, l),
    }
}

/// Evaluates the comparator's primitive test over two value cells.
#[verifier::when_used_as_spec(spec_cmp_eval)]
pub fn cmp_eval(cmp: Comparator, l: u64, r: u64) -> (taken: bool)
    ensures
        taken == spec_cmp_eval(cmp, l, r),
{
    match cmp {
        Comparator::I32Eq => l as u32 == r as u32,
        Comparator::I32Ne => l as u32 != r as u32,
        Comparator::I32LtS => (l as i32) < (r as i32),
        Comparator::I32LtU => (l as u32) < (r as u32),
        Comparator::I32LeS => (l as i32) <= (r as i32),
        Comparator::I32LeU => (l as u32) <= (r as u32),
        Comparator::I32GtS => (l as i32) > (r as i32),
        Comparator::I32GtU => (l as u32) > (r as u32),
        Comparator::I32GeS => (l as i32) >= (r as i32),
        Comparator::I32GeU => (l as u32) >= (r as u32),
        Comparator::I32And => (l as u32) & (r as u32) != 0,
        Comparator::I32Or => (l as u32) | (r as u32) != 0,
        Comparator::I32Xor => (l as u32) ^ (r as u32) != 0,
        Comparator::I32AndEqz => (l as u32) & (r as u32) == 0,
        Comparator::I32OrEqz => (l as u32) | (r as u32) == 0,
        Comparator::I32XorEqz => (l as u32) ^ (r as u32) == 0,
        Comparator::I64Eq => l == r,
        Comparator::I64Ne => l != r,
        Comparator::I64LtS => (l as i64) < (r as i64),
        Comparator::I64LtU => l < r,
        Comparator::I64LeS => (l as i64) <= (r as i64),
        Comparator::I64LeU => l <= r,
        Comparator::I64GtS => (l as i64) > (r as i64),
        Comparator::I64GtU => l > r,
        Comparator::I64GeS => (l as i64) >= (r as i64),
        Comparator::I64GeU => l >= r,
        Comparator::F32Eq => f32_eq_bits(l as u32, r as u32),
        Comparator::F32Ne => !f32_eq_bits(l as u32, r as u32),
        Comparator::F32Lt => f32_lt_bits(l as u32, r as u32),
        Comparator::F32Le => f32_le_bits(l as u32, r as u32),
        Comparator::F32Gt => f32_lt_bits(r as u32, l as u32),
        Comparator::F32Ge => f32_le_bits(r as u32, l as u32),
        Comparator::F64Eq => f64_eq_bits(l, r),
        Comparator::F64Ne => !f64_eq_bits(l, r),
        Comparator::F64Lt => f64_lt_bits(l, r),
        Comparator::F64Le => f64_le_bits(l, r),
        Comparator::F64Gt => f64_lt_bits(r, l),
        Comparator::F64Ge => f64_le_bits(r, l),
    }
}

/// Whether a branch by `delta` from `pre`'s instruction pointer, with
/// everything else unchanged, is the step's effect: the target must lie
/// inside the stream, else the step is a defensive trap.
pub open spec fn rel_branch_to(
    pre: Executor,
    s1: StoreInner,
    post: Executor,
    s2: StoreInner,
    r: StepResult,
    delta: int,
) -> bool {
    if 0 <= pre.ip + delta < pre.instrs.len() {
        &&& rel_ip_only(pre, post, pre.ip + delta)
        &&& rel_store_unchanged(s1, s2)
        &&& r == StepResult::Continue
    } else {
        rel_bad_stream(pre, s1, post, s2, r)
    }
}

/// Whether a fused compare-and-branch over the read cells `l` and `r`, with
/// branch delta `delta`, is the step's effect: branch when the test holds,
/// fall through to the next slot when it does not.
pub open spec fn rel_cmp_branch(
    pre: Executor,
    s1: StoreInner,
    post: Executor,
    s2: StoreInner,
    r: StepResult,
    cmp: Comparator,
    l: u64,
    rv: u64,
    delta: int,
) -> bool {
    if spec_cmp_eval(cmp, l, rv) {
        rel_branch_to(pre, s1, post, s2, r, delta)
    } else {
        &&& rel_ip_only(pre, post, pre.ip + 1)
        &&& rel_store_unchanged(s1, s2)
        &&& r == StepResult::Continue
    }
}

/// Whether writing scalar cell `bits` to `reg` and advancing to `new_ip`,
/// with the store unchanged, is the step's effect; an unwritable register
/// is a defensive trap.
pub open spec fn rel_write_scalar(
    pre: Executor,
    s1: StoreInner,
    post: Executor,
    s2: StoreInner,
    r: StepResult,
    reg: Reg,
    bits: u64,
    new_ip: int,
) -> bool {
    if pre.spec_can_set(reg) {
        &&& rel_set_reg_ip(pre, post, reg, bits, new_ip)
        &&& rel_store_unchanged(s1, s2)
        &&& r == StepResult::Continue
    } else {
        rel_bad_stream(pre, s1, post, s2, r)
    }
}

/// Whether writing vector cell `bits` to `reg` and advancing to `new_ip`,
/// with the store unchanged, is the step's effect; an unwritable register
/// is a defensive trap.
pub open spec fn rel_write_simd(
    pre: Executor,
    s1: StoreInner,
    post: Executor,
    s2: StoreInner,
    r: StepResult,
    reg: Reg,
    bits: u128,
    new_ip: int,
) -> bool {
    if pre.spec_can_set_simd(reg) {
        &&& rel_set_simd_ip(pre, post, reg, bits, new_ip)
        &&& rel_store_unchanged(s1, s2)
        &&& r == StepResult::Continue
    } else {
        rel_bad_stream(pre, s1, post, s2, r)
    }
}

/// Whether the function returned value cell `bits`, leaving everything
/// unchanged.
pub open spec fn rel_return(
    pre: Executor,
    s1: StoreInner,
    post: Executor,
    s2: StoreInner,
    r: StepResult,
    bits: u64,
) -> bool {
    &&& rel_halt(pre, s1, post, s2)
    &&& r == (StepResult::Returned { value: (UntypedVal { bits }) })
}

/// The memory index named by an optional trailing
/// [`Instruction::MemoryIndex`] slot at `at`; the default memory otherwise.
pub open spec fn spec_opt_memory_index(pre: Executor, at: int) -> u16 {
    match pre.spec_param(at) {
        Some(Instruction::MemoryIndex { index }) => index,
        _ => 0,
    }
}

/// The slot after an optional trailing [`Instruction::MemoryIndex`] slot at
/// `at`.
pub open spec fn spec_opt_memory_skip(pre: Executor, at: int) -> int {
    match pre.spec_param(at) {
        Some(Instruction::MemoryIndex { index }) => at + 1,
        _ => at,
    }
}

/// Whether a store of the low `width` bytes of `value` at byte `effective`
/// of memory `memidx`, then advancing to `new_ip`, is the step's effect:
/// an unknown memory index is a defensive trap; an access past the
/// memory's end traps with `MemoryOutOfBounds` and changes nothing.
pub open spec fn rel_store_effect(
    pre: Executor,
    s1: StoreInner,
    post: Executor,
    s2: StoreInner,
    r: StepResult,
    memidx: u16,
    effective: int,
    value: u64,
    width: StoreWidth,
    new_ip: int,
) -> bool {
    if memidx >= s1.memories.len() {
        rel_bad_stream(pre, s1, post, s2, r)
    } else if effective + width.spec_len() <= mems_view(s1)[memidx as int].len() {
        &&& rel_ip_only(pre, post, new_ip)
        &&& s2.fuel == s1.fuel
        &&& mems_view(s2) == mems_view(s1).update(
            memidx as int,
            spec_store_bytes(mems_view(s1)[memidx as int], effective, value, width.spec_len()),
        )
        &&& r == StepResult::Continue
    } else {
        &&& rel_halt(pre, s1, post, s2)
        &&& r == (StepResult::Trapped { trap_code: TrapCode::MemoryOutOfBounds })
    }
}

/// The full effect of one step of the executor, from state (`pre`, `s1`)
/// to state (`post`, `s2`) with result `r`.
pub open spec fn spec_step_rel(
    pre: Executor,
    s1: StoreInner,
    post: Executor,
    s2: StoreInner,
    r: StepResult,
) -> bool {
    if pre.ip >= pre.instrs.len() {
        rel_bad_stream(pre, s1, post, s2, r)
    } else {
        let ip = pre.ip as int;
        match pre.instrs@[ip] {
            Instruction::Register { reg } => rel_bad_stream(pre, s1, post, s2, r),
            Instruction::Const32 { value } => rel_bad_stream(pre, s1, post, s2, r),
            Instruction::I64Const32 { value } => rel_bad_stream(pre, s1, post, s2, r),
            Instruction::F64Const32 { value } => rel_bad_stream(pre, s1, post, s2, r),
            Instruction::RegisterAndImm32 { reg, imm } => rel_bad_stream(pre, s1, post, s2, r),
            Instruction::Imm16AndImm32 { imm16, imm32 } => rel_bad_stream(pre, s1, post, s2, r),
            Instruction::MemoryIndex { index } => rel_bad_stream(pre, s1, post, s2, r),
            Instruction::Trap { trap_code } => {
                &&& rel_halt(pre, s1, post, s2)
                &&& r == (StepResult::Trapped { trap_code })
            },
            Instruction::ConsumeFuel { block_fuel } => {
                if s1.fuel >= block_fuel.value {
                    &&& rel_ip_only(pre, post, ip + 1)
                    &&& s2.fuel == s1.fuel - block_fuel.value
                    &&& mems_view(s2) == mems_view(s1)
                    &&& r == StepResult::Continue
                } else {
                    &&& rel_halt(pre, s1, post, s2)
                    &&& r == (StepResult::Trapped { trap_code: TrapCode::OutOfFuel })
                }
            },
            Instruction::Branch { offset } => rel_branch_to(pre, s1, post, s2, r, offset.value as int),
            Instruction::BranchCmp { cmp, lhs, rhs, offset } => {
                match (pre.spec_get_reg(lhs), pre.spec_get_reg(rhs)) {
                    (Some(l), Some(rv)) => rel_cmp_branch(
                        pre, s1, post, s2, r, cmp, l.bits, rv.bits, offset.value as int,
                    ),
                    _ => rel_bad_stream(pre, s1, post, s2, r),
                }
            },
            Instruction::BranchCmpFallback { lhs, rhs, params } => {
                match (pre.spec_get_reg(lhs), pre.spec_get_reg(rhs), pre.spec_get_reg(params)) {
                    (Some(l), Some(rv), Some(word)) => {
                        match ComparatorAndOffset::spec_from_u64(word.bits) {
                            Some(co) => rel_cmp_branch(
                                pre, s1, post, s2, r, co.cmp, l.bits, rv.bits, co.offset.value as int,
                            ),
                            None => rel_bad_stream(pre, s1, post, s2, r),
                        }
                    },
                    _ => rel_bad_stream(pre, s1, post, s2, r),
                }
            },
            Instruction::ReturnReg { value } => {
                match pre.spec_get_reg(value) {
                    Some(v) => rel_return(pre, s1, post, s2, r, v.bits),
                    None => rel_bad_stream(pre, s1, post, s2, r),
                }
            },
            Instruction::ReturnImm32 { value } => rel_return(pre, s1, post, s2, r, value.bits as u64),
            Instruction::ReturnI64Imm32 { value } => rel_return(
                pre, s1, post, s2, r, value as i64 as u64,
            ),
            Instruction::ReturnF64Imm32 { value } => rel_return(
                pre, s1, post, s2, r, value.spec_to_bits(),
            ),
            Instruction::Select { result, condition, lhs } => {
                match (pre.spec_get_reg(condition), pre.spec_get_reg(lhs), spec_operand_at(pre, ip + 1)) {
                    (Some(c), Some(l), Some(rhs_bits)) => {
                        let chosen = if spec_cond_nonzero(c.bits) {
                            l.bits
                        } else {
                            rhs_bits
                        };
                        rel_write_scalar(pre, s1, post, s2, r, result, chosen, ip + 2)
                    },
                    _ => rel_bad_stream(pre, s1, post, s2, r),
                }
            },
            Instruction::SelectRev { result, condition, rhs } => {
                match (pre.spec_get_reg(condition), pre.spec_get_reg(rhs), spec_operand_at(pre, ip + 1)) {
                    (Some(c), Some(rv), Some(lhs_bits)) => {
                        let chosen = if spec_cond_nonzero(c.bits) {
                            lhs_bits
                        } else {
                            rv.bits
                        };
                        rel_write_scalar(pre, s1, post, s2, r, result, chosen, ip + 2)
                    },
                    _ => rel_bad_stream(pre, s1, post, s2, r),
                }
            },
            Instruction::SelectImm32 { result_or_condition, value } => {
                match pre.spec_param(ip + 1) {
                    Some(Instruction::SelectImm32 { result_or_condition: condition, value: rhs }) => {
                        match pre.spec_get_reg(condition) {
                            Some(c) => {
                                let chosen = if spec_cond_nonzero(c.bits) {
                                    value.bits as u64
                                } else {
                                    rhs.bits as u64
                                };
                                rel_write_scalar(
                                    pre, s1, post, s2, r, result_or_condition, chosen, ip + 2,
                                )
                            },
                            None => rel_bad_stream(pre, s1, post, s2, r),
                        }
                    },
                    _ => rel_bad_stream(pre, s1, post, s2, r),
                }
            },
            Instruction::SelectI64Imm32 { result_or_condition, value } => {
                match pre.spec_param(ip + 1) {
                    Some(
                        Instruction::SelectI64Imm32 { result_or_condition: condition, value: rhs },
                    ) => {
                        match pre.spec_get_reg(condition) {
                            Some(c) => {
                                let chosen = if spec_cond_nonzero(c.bits) {
                                    value as i64 as u64
                                } else {
                                    rhs as i64 as u64
                                };
                                rel_write_scalar(
                                    pre, s1, post, s2, r, result_or_condition, chosen, ip + 2,
                                )
                            },
                            None => rel_bad_stream(pre, s1, post, s2, r),
                        }
                    },
                    _ => rel_bad_stream(pre, s1, post, s2, r),
                }
            },
            Instruction::SelectF64Imm32 { result_or_condition, value } => {
                match pre.spec_param(ip + 1) {
                    Some(
                        Instruction::SelectF64Imm32 { result_or_condition: condition, value: rhs },
                    ) => {
                        match pre.spec_get_reg(condition) {
                            Some(c) => {
                                let chosen = if spec_cond_nonzero(c.bits) {
                                    value.spec_to_bits()
                                } else {
                                    rhs.spec_to_bits()
                                };
                                rel_write_scalar(
                                    pre, s1, post, s2, r, result_or_condition, chosen, ip + 2,
                                )
                            },
                            None => rel_bad_stream(pre, s1, post, s2, r),
                        }
                    },
                    _ => rel_bad_stream(pre, s1, post, s2, r),
                }
            },
            Instruction::I32Mul { result, lhs, rhs } => {
                match (pre.spec_get_reg(lhs), pre.spec_get_reg(rhs)) {
                    (Some(l), Some(rv)) => rel_write_scalar(
                        pre, s1, post, s2, r, result, spec_i32_mul_cell(l.bits, rv.bits), ip + 1,
                    ),
                    _ => rel_bad_stream(pre, s1, post, s2, r),
                }
            },
            Instruction::I32MulImm16 { result, lhs, rhs } => {
                match pre.spec_get_reg(lhs) {
                    Some(l) => rel_write_scalar(
                        pre,
                        s1,
                        post,
                        s2,
                        r,
                        result,
                        spec_i32_mul_cell(l.bits, rhs as i32 as u32 as u64),
                        ip + 1,
                    ),
                    None => rel_bad_stream(pre, s1, post, s2, r),
                }
            },
            Instruction::F32Max { result, lhs, rhs } => {
                match (pre.spec_get_reg(lhs), pre.spec_get_reg(rhs)) {
                    (Some(l), Some(rv)) => rel_write_scalar(
                        pre,
                        s1,
                        post,
                        s2,
                        r,
                        result,
                        spec_f32_max_bits(l.bits as u32, rv.bits as u32) as u64,
                        ip + 1,
                    ),
                    _ => rel_bad_stream(pre, s1, post, s2, r),
                }
            },
            Instruction::F32Min { result, lhs, rhs } => {
                match (pre.spec_get_reg(lhs), pre.spec_get_reg(rhs)) {
                    (Some(l), Some(rv)) => rel_write_scalar(
                        pre,
                        s1,
                        post,
                        s2,
                        r,
                        result,
                        spec_f32_min_bits(l.bits as u32, rv.bits as u32) as u64,
                        ip + 1,
                    ),
                    _ => rel_bad_stream(pre, s1, post, s2, r),
                }
            },
            Instruction::F64Max { result, lhs, rhs } => {
                match (pre.spec_get_reg(lhs), pre.spec_get_reg(rhs)) {
                    (Some(l), Some(rv)) => rel_write_scalar(
                        pre,
                        s1,
                        post,
                        s2,
                        r,
                        result,
                        spec_f64_max_bits(l.bits, rv.bits),
                        ip + 1,
                    ),
                    _ => rel_bad_stream(pre, s1, post, s2, r),
                }
            },
            Instruction::MemorySize { result } => {
                if s1.memories.len() == 0 {
                    rel_bad_stream(pre, s1, post, s2, r)
                } else {
                    rel_write_scalar(
                        pre,
                        s1,
                        post,
                        s2,
                        r,
                        result,
                        (mems_view(s1)[0].len() as u64 / PAGE_SIZE) as u64,
                        ip + 1,
                    )
                }
            },
            Instruction::Store { width, ptr, offset_lo } => {
                match pre.spec_param(ip + 1) {
                    Some(Instruction::RegisterAndImm32 { reg, imm }) => {
                        match (pre.spec_get_reg(ptr), pre.spec_get_reg(reg)) {
                            (Some(addr), Some(val)) => rel_store_effect(
                                pre,
                                s1,
                                post,
                                s2,
                                r,
                                spec_opt_memory_index(pre, ip + 2),
                                addr.bits + (((imm as u64) << 32) | (offset_lo as u64)),
                                val.bits,
                                width,
                                spec_opt_memory_skip(pre, ip + 2),
                            ),
                            _ => rel_bad_stream(pre, s1, post, s2, r),
                        }
                    },
                    _ => rel_bad_stream(pre, s1, post, s2, r),
                }
            },
            Instruction::StoreImm { width, ptr, offset_lo } => {
                match pre.spec_param(ip + 1) {
                    Some(Instruction::Imm16AndImm32 { imm16, imm32 }) => {
                        match pre.spec_get_reg(ptr) {
                            Some(addr) => rel_store_effect(
                                pre,
                                s1,
                                post,
                                s2,
                                r,
                                spec_opt_memory_index(pre, ip + 2),
                                addr.bits + (((imm32 as u64) << 32) | (offset_lo as u64)),
                                imm16 as i64 as u64,
                                width,
                                spec_opt_memory_skip(pre, ip + 2),
                            ),
                            None => rel_bad_stream(pre, s1, post, s2, r),
                        }
                    },
                    _ => rel_bad_stream(pre, s1, post, s2, r),
                }
            },
            Instruction::StoreOffset16 { width, ptr, offset, value } => {
                match (pre.spec_get_reg(ptr), pre.spec_get_reg(value)) {
                    (Some(addr), Some(val)) => rel_store_effect(
                        pre,
                        s1,
                        post,
                        s2,
                        r,
                        0,
                        addr.bits + offset as int,
                        val.bits,
                        width,
                        ip + 1,
                    ),
                    _ => rel_bad_stream(pre, s1, post, s2, r),
                }
            },
            Instruction::StoreOffset16Imm16 { width, ptr, offset, value } => {
                match pre.spec_get_reg(ptr) {
                    Some(addr) => rel_store_effect(
                        pre,
                        s1,
                        post,
                        s2,
                        r,
                        0,
                        addr.bits + offset as int,
                        value as i64 as u64,
                        width,
                        ip + 1,
                    ),
                    None => rel_bad_stream(pre, s1, post, s2, r),
                }
            },
            Instruction::StoreAt { width, address, value } => {
                match pre.spec_get_reg(value) {
                    Some(val) => rel_store_effect(
                        pre,
                        s1,
                        post,
                        s2,
                        r,
                        spec_opt_memory_index(pre, ip + 1),
                        address as int,
                        val.bits,
                        width,
                        spec_opt_memory_skip(pre, ip + 1),
                    ),
                    None => rel_bad_stream(pre, s1, post, s2, r),
                }
            },
            Instruction::StoreAtImm16 { width, address, value } => {
                rel_store_effect(
                    pre,
                    s1,
                    post,
                    s2,
                    r,
                    spec_opt_memory_index(pre, ip + 1),
                    address as int,
                    value as i64 as u64,
                    width,
                    spec_opt_memory_skip(pre, ip + 1),
                )
            },
            Instruction::I8x16Shuffle { result, lhs, rhs } => {
                match pre.spec_param(ip + 1) {
                    Some(Instruction::Register { reg }) => {
                        match (
                            pre.spec_get_simd(lhs),
                            pre.spec_get_simd(rhs),
                            pre.spec_get_simd(reg),
                        ) {
                            (Some(l), Some(rv), Some(sel)) => {
                                if spec_shuffle_selector_ok(sel.bits) {
                                    if pre.spec_can_set_simd(result) {
                                        let out = post.simd_regs@[result.value as int].bits;
                                        &&& rel_set_simd_ip(pre, post, result, out, ip + 2)
                                        &&& forall|k: u32|
                                            k < 16 ==> #[trigger] crate::simd::spec_v128_byte(
                                                out,
                                                k,
                                            ) == spec_shuffle_byte(l.bits, rv.bits, sel.bits, k)
                                        &&& rel_store_unchanged(s1, s2)
                                        &&& r == StepResult::Continue
                                    } else {
                                        rel_bad_stream(pre, s1, post, s2, r)
                                    }
                                } else {
                                    rel_bad_stream(pre, s1, post, s2, r)
                                }
                            },
                            _ => rel_bad_stream(pre, s1, post, s2, r),
                        }
                    },
                    _ => rel_bad_stream(pre, s1, post, s2, r),
                }
            },
            Instruction::V128Bitselect { result, lhs, rhs } => {
                match pre.spec_param(ip + 1) {
                    Some(Instruction::Register { reg }) => {
                        match (
                            pre.spec_get_simd(lhs),
                            pre.spec_get_simd(rhs),
                            pre.spec_get_simd(reg),
                        ) {
                            (Some(l), Some(rv), Some(sel)) => rel_write_simd(
                                pre,
                                s1,
                                post,
                                s2,
                                r,
                                result,
                                (l.bits & sel.bits) | (rv.bits & !sel.bits),
                                ip + 2,
                            ),
                            _ => rel_bad_stream(pre, s1, post, s2, r),
                        }
                    },
                    _ => rel_bad_stream(pre, s1, post, s2, r),
                }
            },
            Instruction::V128And { result, lhs, rhs } => {
                match (pre.spec_get_simd(lhs), pre.spec_get_simd(rhs)) {
                    (Some(l), Some(rv)) => rel_write_simd(
                        pre, s1, post, s2, r, result, l.bits & rv.bits, ip + 1,
                    ),
                    _ => rel_bad_stream(pre, s1, post, s2, r),
                }
            },
            Instruction::V128Or { result, lhs, rhs } => {
                match (pre.spec_get_simd(lhs), pre.spec_get_simd(rhs)) {
                    (Some(l), Some(rv)) => rel_write_simd(
                        pre, s1, post, s2, r, result, l.bits | rv.bits, ip + 1,
                    ),
                    _ => rel_bad_stream(pre, s1, post, s2, r),
                }
            },
            Instruction::V128Xor { result, lhs, rhs } => {
                match (pre.spec_get_simd(lhs), pre.spec_get_simd(rhs)) {
                    (Some(l), Some(rv)) => rel_write_simd(
                        pre, s1, post, s2, r, result, l.bits ^ rv.bits, ip + 1,
                    ),
                    _ => rel_bad_stream(pre, s1, post, s2, r),
                }
            },
            Instruction::V128Not { result, input } => {
                match pre.spec_get_simd(input) {
                    Some(v) => rel_write_simd(pre, s1, post, s2, r, result, !v.bits, ip + 1),
                    None => rel_bad_stream(pre, s1, post, s2, r),
                }
            },
            Instruction::V128AnyTrue { result, input } => {
                match pre.spec_get_simd(input) {
                    Some(v) => rel_write_scalar(
                        pre,
                        s1,
                        post,
                        s2,
                        r,
                        result,
                        if v.bits != 0 {
                            1u64
                        } else {
                            0u64
                        },
                        ip + 1,
                    ),
                    None => rel_bad_stream(pre, s1, post, s2, r),
                }
            },
            Instruction::I32x4Splat { result, input } => {
                match pre.spec_get_reg(input) {
                    Some(v) => {
                        if pre.spec_can_set_simd(result) {
                            let out = post.simd_regs@[result.value as int].bits;
                            &&& rel_set_simd_ip(pre, post, result, out, ip + 1)
                            &&& forall|k: u32|
                                k < 4 ==> #[trigger] spec_v128_lane32(out, k) == v.bits as u32
                            &&& rel_store_unchanged(s1, s2)
                            &&& r == StepResult::Continue
                        } else {
                            rel_bad_stream(pre, s1, post, s2, r)
                        }
                    },
                    None => rel_bad_stream(pre, s1, post, s2, r),
                }
            },
            Instruction::I32x4ExtractLane { result, input, lane } => {
                match pre.spec_get_simd(input) {
                    Some(v) => {
                        if lane < 4 {
                            rel_write_scalar(
                                pre,
                                s1,
                                post,
                                s2,
                                r,
                                result,
                                spec_v128_lane32(v.bits, lane as u32) as u64,
                                ip + 1,
                            )
                        } else {
                            rel_bad_stream(pre, s1, post, s2, r)
                        }
                    },
                    None => rel_bad_stream(pre, s1, post, s2, r),
                }
            },
            Instruction::I64x2ShlBy { result, lhs, amount } => {
                match pre.spec_get_simd(lhs) {
                    Some(v) => {
                        if amount < 64 {
                            if pre.spec_can_set_simd(result) {
                                let out = post.simd_regs@[result.value as int].bits;
                                &&& rel_set_simd_ip(pre, post, result, out, ip + 1)
                                &&& forall|k: u32|
                                    k < 2 ==> #[trigger] spec_v128_lane64(out, k)
                                        == spec_v128_lane64(v.bits, k) << amount
                                &&& rel_store_unchanged(s1, s2)
                                &&& r == StepResult::Continue
                            } else {
                                rel_bad_stream(pre, s1, post, s2, r)
                            }
                        } else {
                            rel_bad_stream(pre, s1, post, s2, r)
                        }
                    },
                    None => rel_bad_stream(pre, s1, post, s2, r),
                }
            },
        }
    }
}

/// Writes one element of a register window.
fn vec_set<T>(v: &mut Vec<T>, i: usize, x: T)
    requires
        i < old(v).len(),
    ensures
        final(v)@ == old(v)@.update(i as int, x),
{
    let r = &mut v[i];
    *r = x;
}

impl StoreInner {
    /// Performs one bounds-checked store into memory `index`: the low
    /// `width` bytes of `value`, little-endian, at `address + offset`.
    ///
    /// The memory borrow lasts only for this call.
    pub fn store_to_memory(
        &mut self,
        index: u16,
        address: u64,
        offset: u64,
        value: u64,
        width: StoreWidth,
    ) -> (r: Result<(), TrapCode>)
        requires
            index < old(self).memories.len(),
        ensures
            final(self).fuel == old(self).fuel,
            address + offset + width.spec_len() <= mems_view(*old(self))[index as int].len() ==> (r
                == Ok::<(), TrapCode>(()) && mems_view(*final(self)) == mems_view(
                *old(self),
            ).update(
                index as int,
                spec_store_bytes(
                    mems_view(*old(self))[index as int],
                    address + offset,
                    value,
                    width.spec_len(),
                ),
            )),
            address + offset + width.spec_len() > mems_view(*old(self))[index as int].len() ==> (r
                == Err::<(), TrapCode>(TrapCode::MemoryOutOfBounds) && mems_view(*final(self))
                == mems_view(*old(self))),
    {
        let ghost pre = *self;
        let entity = self.resolve_memory_mut(index);
        let mem = entity.data_mut();
        let r = store_wrap(mem, address, offset, value, width);
        proof {
            assert(mems_view(pre)[index as int] == pre.memories@[index as int].data@);
            if address + offset + width.spec_len() <= mems_view(pre)[index as int].len() {
                assert(mems_view(*self) =~= mems_view(pre).update(
                    index as int,
                    spec_store_bytes(
                        mems_view(pre)[index as int],
                        address + offset,
                        value,
                        width.spec_len(),
                    ),
                ));
            } else {
                assert(mems_view(*self) =~= mems_view(pre));
            }
        }
        r
    }
}

impl Executor {
    /// Creates an executor over the given code, constant pool and register
    /// windows, with the instruction pointer at the start of the stream.
    pub fn new(
        instrs: Vec<Instruction>,
        consts: Vec<UntypedVal>,
        regs: Vec<UntypedVal>,
        simd_regs: Vec<V128>,
    ) -> (r: Executor)
        ensures
            r.instrs == instrs,
            r.consts == consts,
            r.regs == regs,
            r.simd_regs == simd_regs,
            r.ip == 0,
    {
        Executor { instrs, consts, regs, simd_regs, ip: 0 }
    }

    /// Reads the value cell a register id names: the frame window for
    /// non-negative ids, the constant pool for negative ones.
    pub fn get_register(&self, reg: Reg) -> (r: Option<UntypedVal>)
        ensures
            r == self.spec_get_reg(reg),
    {
        if reg.value >= 0 {
            let i: usize = reg.value as usize;
            if i < self.regs.len() {
                Some(self.regs[i])
            } else {
                None
            }
        } else {
            let slot: usize = (-1 - (reg.value as i32)) as usize;
            if slot < self.consts.len() {
                Some(self.consts[slot])
            } else {
                None
            }
        }
    }

    /// Reads the vector cell a register id names; only the frame window
    /// holds vectors.
    pub fn get_simd_register(&self, reg: Reg) -> (r: Option<V128>)
        ensures
            r == self.spec_get_simd(reg),
    {
        if reg.value >= 0 && (reg.value as usize) < self.simd_regs.len() {
            Some(self.simd_regs[reg.value as usize])
        } else {
            None
        }
    }

    /// Writes a scalar register of the frame window; fails on a constant or
    /// out-of-bounds id, changing nothing.
    fn set_register(&mut self, reg: Reg, value: UntypedVal) -> (ok: bool)
        ensures
            ok == old(self).spec_can_set(reg),
            ok ==> final(self).regs@ == old(self).regs@.update(reg.value as int, value),
            ok ==> final(self).instrs == old(self).instrs && final(self).consts == old(self).consts
                && final(self).simd_regs == old(self).simd_regs && final(self).ip == old(self).ip,
            !ok ==> *final(self) == *old(self),
    {
        if reg.value >= 0 && (reg.value as usize) < self.regs.len() {
            vec_set(&mut self.regs, reg.value as usize, value);
            true
        } else {
            false
        }
    }

    /// Writes a vector register of the frame window; fails on a constant or
    /// out-of-bounds id, changing nothing.
    fn set_simd_register(&mut self, reg: Reg, value: V128) -> (ok: bool)
        ensures
            ok == old(self).spec_can_set_simd(reg),
            ok ==> final(self).simd_regs@ == old(self).simd_regs@.update(reg.value as int, value),
            ok ==> final(self).instrs == old(self).instrs && final(self).consts == old(self).consts
                && final(self).regs == old(self).regs && final(self).ip == old(self).ip,
            !ok ==> *final(self) == *old(self),
    {
        if reg.value >= 0 && (reg.value as usize) < self.simd_regs.len() {
            vec_set(&mut self.simd_regs, reg.value as usize, value);
            true
        } else {
            false
        }
    }

    /// Reads the instruction `k` slots past the instruction pointer, if the
    /// stream holds one there.
    fn fetch_param(&self, k: usize) -> (r: Option<Instruction>)
        ensures
            r == self.spec_param(self.ip + k),
    {
        if k > usize::MAX - self.ip {
            return None;
        }
        let at: usize = self.ip + k;
        if at < self.instrs.len() {
            Some(self.instrs[at])
        } else {
            None
        }
    }

    /// Reads the operand carried by the trailing parameter slot after the
    /// instruction pointer.
    fn fetch_operand(&self) -> (r: Option<u64>)
        ensures
            r == spec_operand_at(*self, self.ip + 1),
    {
        match self.fetch_param(1) {
            Some(Instruction::Register { reg }) => match self.get_register(reg) {
                Some(v) => Some(v.as_u64()),
                None => None,
            },
            Some(Instruction::Const32 { value }) => Some(value.to_u32() as u64),
            Some(Instruction::I64Const32 { value }) => Some((value as i64) as u64),
            Some(Instruction::F64Const32 { value }) => Some(value.to_bits()),
            _ => None,
        }
    }

    /// The defensive trap on an inconsistent instruction stream.
    fn bad_stream(&self) -> (r: StepResult)
        ensures
            r == (StepResult::Trapped { trap_code: TrapCode::UnreachableCodeReached }),
    {
        StepResult::Trapped { trap_code: TrapCode::UnreachableCodeReached }
    }

    /// Branches by `delta` slots from the current instruction pointer.
    fn branch_by(&mut self, delta: i32) -> (r: StepResult)
        ensures
            0 <= old(self).ip + delta < old(self).instrs.len() ==> (rel_ip_only(
                *old(self),
                *final(self),
                old(self).ip + delta,
            ) && r == StepResult::Continue),
            !(0 <= old(self).ip + delta < old(self).instrs.len()) ==> (*final(self) == *old(self)
                && r == (StepResult::Trapped { trap_code: TrapCode::UnreachableCodeReached })),
    {
        let target: i128 = self.ip as i128 + delta as i128;
        if 0 <= target && target < self.instrs.len() as i128 {
            self.ip = target as usize;
            StepResult::Continue
        } else {
            self.bad_stream()
        }
    }
}

impl Executor {
    /// Executes an [`Instruction::ConsumeFuel`]: charges the block's
    /// accumulated static cost against the fuel budget, or traps with
    /// `OutOfFuel` when the budget is smaller, leaving it unchanged.
    pub fn execute_consume_fuel(&mut self, store: &mut StoreInner, block_fuel: BlockFuel) -> (r:
        StepResult)
        requires
            old(self).ip < old(self).instrs.len(),
            old(self).instrs@[old(self).ip as int] == (Instruction::ConsumeFuel { block_fuel }),
        ensures
            spec_step_rel(*old(self), *old(store), *final(self), *final(store), r),
            final(self).instrs == old(self).instrs,
            final(self).consts == old(self).consts,
    {
        let amount: u64 = block_fuel.to_u64();
        if store.fuel >= amount {
            store.fuel = store.fuel - amount;
            self.ip = self.ip + 1;
            StepResult::Continue
        } else {
            StepResult::Trapped { trap_code: TrapCode::OutOfFuel }
        }
    }

    /// Executes an [`Instruction::Branch`].
    pub fn execute_branch(&mut self, offset: BranchOffset) -> (r: StepResult)
        requires
            old(self).ip < old(self).instrs.len(),
            old(self).instrs@[old(self).ip as int] == (Instruction::Branch { offset }),
        ensures
            forall|s: StoreInner| #[trigger] spec_step_rel(*old(self), s, *final(self), s, r),
            final(self).instrs == old(self).instrs,
            final(self).consts == old(self).consts,
    {
        self.branch_by(offset.to_i32())
    }

    /// Executes an [`Instruction::BranchCmp`]: evaluates the comparator
    /// over the two operands and branches when it holds.
    pub fn execute_branch_cmp(&mut self, cmp: Comparator, lhs: Reg, rhs: Reg, offset: BranchOffset16) -> (r: StepResult)
        requires
            old(self).ip < old(self).instrs.len(),
            old(self).instrs@[old(self).ip as int] == (Instruction::BranchCmp {
                cmp,
                lhs,
                rhs,
                offset,
            }),
        ensures
            forall|s: StoreInner| #[trigger] spec_step_rel(*old(self), s, *final(self), s, r),
            final(self).instrs == old(self).instrs,
            final(self).consts == old(self).consts,
    {
        let l = match self.get_register(lhs) {
            Some(v) => v,
            None => {
                return self.bad_stream();
            },
        };
        let rv = match self.get_register(rhs) {
            Some(v) => v,
            None => {
                return self.bad_stream();
            },
        };
        if cmp_eval(cmp, l.as_u64(), rv.as_u64()) {
            self.branch_by(offset.to_i16() as i32)
        } else {
            self.ip = self.ip + 1;
            StepResult::Continue
        }
    }

    /// Executes an [`Instruction::BranchCmpFallback`]: decodes the packed
    /// comparator-and-offset word named by `params` and branches as
    /// [`Instruction::BranchCmp`] does.
    pub fn execute_branch_cmp_fallback(&mut self, lhs: Reg, rhs: Reg, params: Reg) -> (r: StepResult)
        requires
            old(self).ip < old(self).instrs.len(),
            old(self).instrs@[old(self).ip as int] == (Instruction::BranchCmpFallback {
                lhs,
                rhs,
                params,
            }),
        ensures
            forall|s: StoreInner| #[trigger] spec_step_rel(*old(self), s, *final(self), s, r),
            final(self).instrs == old(self).instrs,
            final(self).consts == old(self).consts,
    {
        let l = match self.get_register(lhs) {
            Some(v) => v,
            None => {
                return self.bad_stream();
            },
        };
        let rv = match self.get_register(rhs) {
            Some(v) => v,
            None => {
                return self.bad_stream();
            },
        };
        let word = match self.get_register(params) {
            Some(v) => v,
            None => {
                return self.bad_stream();
            },
        };
        match ComparatorAndOffset::from_u64(word.as_u64()) {
            Some(co) => {
                if cmp_eval(co.cmp, l.as_u64(), rv.as_u64()) {
                    self.branch_by(co.offset.to_i32())
                } else {
                    self.ip = self.ip + 1;
                    StepResult::Continue
                }
            },
            None => self.bad_stream(),
        }
    }

    /// Executes an [`Instruction::ReturnReg`].
    pub fn execute_return_reg(&mut self, value: Reg) -> (r: StepResult)
        requires
            old(self).ip < old(self).instrs.len(),
            old(self).instrs@[old(self).ip as int] == (Instruction::ReturnReg { value }),
        ensures
            forall|s: StoreInner| #[trigger] spec_step_rel(*old(self), s, *final(self), s, r),
            final(self).instrs == old(self).instrs,
            final(self).consts == old(self).consts,
    {
        match self.get_register(value) {
            Some(v) => StepResult::Returned { value: v },
            None => self.bad_stream(),
        }
    }

    /// Executes an [`Instruction::ReturnImm32`].
    pub fn execute_return_imm32(&mut self, value: AnyConst32) -> (r: StepResult)
        requires
            old(self).ip < old(self).instrs.len(),
            old(self).instrs@[old(self).ip as int] == (Instruction::ReturnImm32 { value }),
        ensures
            forall|s: StoreInner| #[trigger] spec_step_rel(*old(self), s, *final(self), s, r),
            final(self).instrs == old(self).instrs,
            final(self).consts == old(self).consts,
    {
        StepResult::Returned { value: UntypedVal::from_u32(value.to_u32()) }
    }

    /// Executes an [`Instruction::ReturnI64Imm32`].
    pub fn execute_return_i64imm32(&mut self, value: i32) -> (r: StepResult)
        requires
            old(self).ip < old(self).instrs.len(),
            old(self).instrs@[old(self).ip as int] == (Instruction::ReturnI64Imm32 { value }),
        ensures
            forall|s: StoreInner| #[trigger] spec_step_rel(*old(self), s, *final(self), s, r),
            final(self).instrs == old(self).instrs,
            final(self).consts == old(self).consts,
    {
        StepResult::Returned { value: UntypedVal::from_i64(value as i64) }
    }

    /// Executes an [`Instruction::ReturnF64Imm32`].
    pub fn execute_return_f64imm32(&mut self, value: F64Imm32) -> (r: StepResult)
        requires
            old(self).ip < old(self).instrs.len(),
            old(self).instrs@[old(self).ip as int] == (Instruction::ReturnF64Imm32 { value }),
        ensures
            forall|s: StoreInner| #[trigger] spec_step_rel(*old(self), s, *final(self), s, r),
            final(self).instrs == old(self).instrs,
            final(self).consts == old(self).consts,
    {
        StepResult::Returned { value: UntypedVal::from_u64(value.to_bits()) }
    }

    /// Executes an [`Instruction::Select`]: writes the inline operand on a
    /// non-zero condition, else the operand of the following parameter
    /// slot.
    pub fn execute_select(&mut self, result: Reg, condition: Reg, lhs: Reg) -> (r: StepResult)
        requires
            old(self).ip < old(self).instrs.len(),
            old(self).instrs@[old(self).ip as int] == (Instruction::Select {
                result,
                condition,
                lhs,
            }),
        ensures
            forall|s: StoreInner| #[trigger] spec_step_rel(*old(self), s, *final(self), s, r),
            final(self).instrs == old(self).instrs,
            final(self).consts == old(self).consts,
    {
        let c = match self.get_register(condition) {
            Some(v) => v,
            None => {
                return self.bad_stream();
            },
        };
        let l = match self.get_register(lhs) {
            Some(v) => v,
            None => {
                return self.bad_stream();
            },
        };
        let rhs_bits = match self.fetch_operand() {
            Some(b) => b,
            None => {
                return self.bad_stream();
            },
        };
        let chosen: u64 = if c.as_u32() != 0 {
            l.as_u64()
        } else {
            rhs_bits
        };
        if !self.set_register(result, UntypedVal::from_u64(chosen)) {
            return self.bad_stream();
        }
        self.ip = self.ip + 2;
        StepResult::Continue
    }

    /// Executes an [`Instruction::SelectRev`]: the conventions of
    /// [`Instruction::Select`] with the two operands swapped.
    pub fn execute_select_rev(&mut self, result: Reg, condition: Reg, rhs: Reg) -> (r: StepResult)
        requires
            old(self).ip < old(self).instrs.len(),
            old(self).instrs@[old(self).ip as int] == (Instruction::SelectRev {
                result,
                condition,
                rhs,
            }),
        ensures
            forall|s: StoreInner| #[trigger] spec_step_rel(*old(self), s, *final(self), s, r),
            final(self).instrs == old(self).instrs,
            final(self).consts == old(self).consts,
    {
        let c = match self.get_register(condition) {
            Some(v) => v,
            None => {
                return self.bad_stream();
            },
        };
        let rv = match self.get_register(rhs) {
            Some(v) => v,
            None => {
                return self.bad_stream();
            },
        };
        let lhs_bits = match self.fetch_operand() {
            Some(b) => b,
            None => {
                return self.bad_stream();
            },
        };
        let chosen: u64 = if c.as_u32() != 0 {
            lhs_bits
        } else {
            rv.as_u64()
        };
        if !self.set_register(result, UntypedVal::from_u64(chosen)) {
            return self.bad_stream();
        }
        self.ip = self.ip + 2;
        StepResult::Continue
    }

    /// Executes the two-slot [`Instruction::SelectImm32`] pair.
    pub fn execute_select_imm32(&mut self, result: Reg, value: AnyConst32) -> (r: StepResult)
        requires
            old(self).ip < old(self).instrs.len(),
            old(self).instrs@[old(self).ip as int] == (Instruction::SelectImm32 {
                result_or_condition: result,
                value,
            }),
        ensures
            forall|s: StoreInner| #[trigger] spec_step_rel(*old(self), s, *final(self), s, r),
            final(self).instrs == old(self).instrs,
            final(self).consts == old(self).consts,
    {
        match self.fetch_param(1) {
            Some(Instruction::SelectImm32 { result_or_condition: condition, value: rhs }) => {
                let c = match self.get_register(condition) {
                    Some(v) => v,
                    None => {
                        return self.bad_stream();
                    },
                };
                let chosen: u32 = if c.as_u32() != 0 {
                    value.to_u32()
                } else {
                    rhs.to_u32()
                };
                if !self.set_register(result, UntypedVal::from_u32(chosen)) {
                    return self.bad_stream();
                }
                self.ip = self.ip + 2;
                StepResult::Continue
            },
            _ => self.bad_stream(),
        }
    }

    /// Executes the two-slot [`Instruction::SelectI64Imm32`] pair.
    pub fn execute_select_i64imm32(&mut self, result: Reg, value: i32) -> (r: StepResult)
        requires
            old(self).ip < old(self).instrs.len(),
            old(self).instrs@[old(self).ip as int] == (Instruction::SelectI64Imm32 {
                result_or_condition: result,
                value,
            }),
        ensures
            forall|s: StoreInner| #[trigger] spec_step_rel(*old(self), s, *final(self), s, r),
            final(self).instrs == old(self).instrs,
            final(self).consts == old(self).consts,
    {
        match self.fetch_param(1) {
            Some(Instruction::SelectI64Imm32 { result_or_condition: condition, value: rhs }) => {
                let c = match self.get_register(condition) {
                    Some(v) => v,
                    None => {
                        return self.bad_stream();
                    },
                };
                let chosen: i32 = if c.as_u32() != 0 {
                    value
                } else {
                    rhs
                };
                if !self.set_register(result, UntypedVal::from_i64(chosen as i64)) {
                    return self.bad_stream();
                }
                self.ip = self.ip + 2;
                StepResult::Continue
            },
            _ => self.bad_stream(),
        }
    }

    /// Executes the two-slot [`Instruction::SelectF64Imm32`] pair.
    pub fn execute_select_f64imm32(&mut self, result: Reg, value: F64Imm32) -> (r: StepResult)
        requires
            old(self).ip < old(self).instrs.len(),
            old(self).instrs@[old(self).ip as int] == (Instruction::SelectF64Imm32 {
                result_or_condition: result,
                value,
            }),
        ensures
            forall|s: StoreInner| #[trigger] spec_step_rel(*old(self), s, *final(self), s, r),
            final(self).instrs == old(self).instrs,
            final(self).consts == old(self).consts,
    {
        match self.fetch_param(1) {
            Some(Instruction::SelectF64Imm32 { result_or_condition: condition, value: rhs }) => {
                let c = match self.get_register(condition) {
                    Some(v) => v,
                    None => {
                        return self.bad_stream();
                    },
                };
                let chosen: u64 = if c.as_u32() != 0 {
                    value.to_bits()
                } else {
                    rhs.to_bits()
                };
                if !self.set_register(result, UntypedVal::from_u64(chosen)) {
                    return self.bad_stream();
                }
                self.ip = self.ip + 2;
                StepResult::Continue
            },
            _ => self.bad_stream(),
        }
    }

    /// Executes an [`Instruction::I32Mul`].
    pub fn execute_i32_mul(&mut self, result: Reg, lhs: Reg, rhs: Reg) -> (r: StepResult)
        requires
            old(self).ip < old(self).instrs.len(),
            old(self).instrs@[old(self).ip as int] == (Instruction::I32Mul { result, lhs, rhs }),
        ensures
            forall|s: StoreInner| #[trigger] spec_step_rel(*old(self), s, *final(self), s, r),
            final(self).instrs == old(self).instrs,
            final(self).consts == old(self).consts,
    {
        let l = match self.get_register(lhs) {
            Some(v) => v,
            None => {
                return self.bad_stream();
            },
        };
        let rv = match self.get_register(rhs) {
            Some(v) => v,
            None => {
                return self.bad_stream();
            },
        };
        let prod: i32 = l.as_i32().wrapping_mul(rv.as_i32());
        if !self.set_register(result, UntypedVal::from_i32(prod)) {
            return self.bad_stream();
        }
        self.ip = self.ip + 1;
        StepResult::Continue
    }

    /// Executes an [`Instruction::I32MulImm16`].
    pub fn execute_i32_mul_imm16(&mut self, result: Reg, lhs: Reg, rhs: i16) -> (r: StepResult)
        requires
            old(self).ip < old(self).instrs.len(),
            old(self).instrs@[old(self).ip as int] == (Instruction::I32MulImm16 {
                result,
                lhs,
                rhs,
            }),
        ensures
            forall|s: StoreInner| #[trigger] spec_step_rel(*old(self), s, *final(self), s, r),
            final(self).instrs == old(self).instrs,
            final(self).consts == old(self).consts,
    {
        let l = match self.get_register(lhs) {
            Some(v) => v,
            None => {
                return self.bad_stream();
            },
        };
        let prod: i32 = l.as_i32().wrapping_mul(rhs as i32);
        proof {
            lemma_i16_cell_roundtrip(rhs);
        }
        if !self.set_register(result, UntypedVal::from_i32(prod)) {
            return self.bad_stream();
        }
        self.ip = self.ip + 1;
        StepResult::Continue
    }

    /// Executes an [`Instruction::F32Max`].
    pub fn execute_f32_max(&mut self, result: Reg, lhs: Reg, rhs: Reg) -> (r: StepResult)
        requires
            old(self).ip < old(self).instrs.len(),
            old(self).instrs@[old(self).ip as int] == (Instruction::F32Max { result, lhs, rhs }),
        ensures
            forall|s: StoreInner| #[trigger] spec_step_rel(*old(self), s, *final(self), s, r),
            final(self).instrs == old(self).instrs,
            final(self).consts == old(self).consts,
    {
        let l = match self.get_register(lhs) {
            Some(v) => v,
            None => {
                return self.bad_stream();
            },
        };
        let rv = match self.get_register(rhs) {
            Some(v) => v,
            None => {
                return self.bad_stream();
            },
        };
        let out: u32 = f32_max_bits(l.as_u32(), rv.as_u32());
        if !self.set_register(result, UntypedVal::from_u32(out)) {
            return self.bad_stream();
        }
        self.ip = self.ip + 1;
        StepResult::Continue
    }

    /// Executes an [`Instruction::F32Min`].
    pub fn execute_f32_min(&mut self, result: Reg, lhs: Reg, rhs: Reg) -> (r: StepResult)
        requires
            old(self).ip < old(self).instrs.len(),
            old(self).instrs@[old(self).ip as int] == (Instruction::F32Min { result, lhs, rhs }),
        ensures
            forall|s: StoreInner| #[trigger] spec_step_rel(*old(self), s, *final(self), s, r),
            final(self).instrs == old(self).instrs,
            final(self).consts == old(self).consts,
    {
        let l = match self.get_register(lhs) {
            Some(v) => v,
            None => {
                return self.bad_stream();
            },
        };
        let rv = match self.get_register(rhs) {
            Some(v) => v,
            None => {
                return self.bad_stream();
            },
        };
        let out: u32 = f32_min_bits(l.as_u32(), rv.as_u32());
        if !self.set_register(result, UntypedVal::from_u32(out)) {
            return self.bad_stream();
        }
        self.ip = self.ip + 1;
        StepResult::Continue
    }

    /// Executes an [`Instruction::F64Max`].
    pub fn execute_f64_max(&mut self, result: Reg, lhs: Reg, rhs: Reg) -> (r: StepResult)
        requires
            old(self).ip < old(self).instrs.len(),
            old(self).instrs@[old(self).ip as int] == (Instruction::F64Max { result, lhs, rhs }),
        ensures
            forall|s: StoreInner| #[trigger] spec_step_rel(*old(self), s, *final(self), s, r),
            final(self).instrs == old(self).instrs,
            final(self).consts == old(self).consts,
    {
        let l = match self.get_register(lhs) {
            Some(v) => v,
            None => {
                return self.bad_stream();
            },
        };
        let rv = match self.get_register(rhs) {
            Some(v) => v,
            None => {
                return self.bad_stream();
            },
        };
        let out: u64 = f64_max_bits(l.as_u64(), rv.as_u64());
        if !self.set_register(result, UntypedVal::from_u64(out)) {
            return self.bad_stream();
        }
        self.ip = self.ip + 1;
        StepResult::Continue
    }
}

/// Reading the sign-extended cell of an `i16` immediate back as an `i32`
/// gives the immediate's `i32` value.
proof fn lemma_i16_cell_roundtrip(v: i16)
    by (bit_vector)
    ensures
        ((v as i32) as u32 as u64) as i32 == v as i32,
{
}

impl Executor {
    /// Executes an [`Instruction::Store`]: the value register and the high
    /// offset half ride in the following parameter slot, and an optional
    /// memory-index slot names a non-default memory.
    pub fn execute_store(&mut self, store: &mut StoreInner, width: StoreWidth, ptr: Reg, offset_lo: u32) -> (r: StepResult)
        requires
            old(self).ip < old(self).instrs.len(),
            old(self).instrs@[old(self).ip as int] == (Instruction::Store {
                width,
                ptr,
                offset_lo,
            }),
        ensures
            spec_step_rel(*old(self), *old(store), *final(self), *final(store), r),
            final(self).instrs == old(self).instrs,
            final(self).consts == old(self).consts,
    {
        let (value_reg, offset_hi) = match self.fetch_param(1) {
            Some(Instruction::RegisterAndImm32 { reg, imm }) => (reg, imm),
            _ => {
                return self.bad_stream();
            },
        };
        let addr = match self.get_register(ptr) {
            Some(v) => v,
            None => {
                return self.bad_stream();
            },
        };
        let val = match self.get_register(value_reg) {
            Some(v) => v,
            None => {
                return self.bad_stream();
            },
        };
        let (memidx, slots): (u16, usize) = match self.fetch_param(2) {
            Some(Instruction::MemoryIndex { index }) => (index, 3),
            _ => (0u16, 2),
        };
        if (memidx as usize) >= store.memories.len() {
            return self.bad_stream();
        }
        let offset: u64 = ((offset_hi as u64) << 32) | (offset_lo as u64);
        match store.store_to_memory(memidx, addr.as_u64(), offset, val.as_u64(), width) {
            Ok(()) => {
                self.ip = self.ip + slots;
                StepResult::Continue
            },
            Err(trap_code) => StepResult::Trapped { trap_code },
        }
    }

    /// Executes an [`Instruction::StoreImm`]: the 16-bit immediate value
    /// and the high offset half ride in the following parameter slot.
    pub fn execute_store_imm(&mut self, store: &mut StoreInner, width: StoreWidth, ptr: Reg, offset_lo: u32) -> (r: StepResult)
        requires
            old(self).ip < old(self).instrs.len(),
            old(self).instrs@[old(self).ip as int] == (Instruction::StoreImm {
                width,
                ptr,
                offset_lo,
            }),
        ensures
            spec_step_rel(*old(self), *old(store), *final(self), *final(store), r),
            final(self).instrs == old(self).instrs,
            final(self).consts == old(self).consts,
    {
        let (imm16, offset_hi) = match self.fetch_param(1) {
            Some(Instruction::Imm16AndImm32 { imm16, imm32 }) => (imm16, imm32),
            _ => {
                return self.bad_stream();
            },
        };
        let addr = match self.get_register(ptr) {
            Some(v) => v,
            None => {
                return self.bad_stream();
            },
        };
        let (memidx, slots): (u16, usize) = match self.fetch_param(2) {
            Some(Instruction::MemoryIndex { index }) => (index, 3),
            _ => (0u16, 2),
        };
        if (memidx as usize) >= store.memories.len() {
            return self.bad_stream();
        }
        let offset: u64 = ((offset_hi as u64) << 32) | (offset_lo as u64);
        let value: u64 = (imm16 as i64) as u64;
        match store.store_to_memory(memidx, addr.as_u64(), offset, value, width) {
            Ok(()) => {
                self.ip = self.ip + slots;
                StepResult::Continue
            },
            Err(trap_code) => StepResult::Trapped { trap_code },
        }
    }

    /// Executes an [`Instruction::StoreOffset16`]: a store into the default
    /// memory with a 16-bit offset folded into the slot.
    pub fn execute_store_offset16(&mut self, store: &mut StoreInner, width: StoreWidth, ptr: Reg, offset: u16, value: Reg) -> (r: StepResult)
        requires
            old(self).ip < old(self).instrs.len(),
            old(self).instrs@[old(self).ip as int] == (Instruction::StoreOffset16 {
                width,
                ptr,
                offset,
                value,
            }),
        ensures
            spec_step_rel(*old(self), *old(store), *final(self), *final(store), r),
            final(self).instrs == old(self).instrs,
            final(self).consts == old(self).consts,
    {
        let addr = match self.get_register(ptr) {
            Some(v) => v,
            None => {
                return self.bad_stream();
            },
        };
        let val = match self.get_register(value) {
            Some(v) => v,
            None => {
                return self.bad_stream();
            },
        };
        if store.memories.len() == 0 {
            return self.bad_stream();
        }
        match store.store_to_memory(0, addr.as_u64(), offset as u64, val.as_u64(), width) {
            Ok(()) => {
                self.ip = self.ip + 1;
                StepResult::Continue
            },
            Err(trap_code) => StepResult::Trapped { trap_code },
        }
    }

    /// Executes an [`Instruction::StoreOffset16Imm16`]: as
    /// [`Instruction::StoreOffset16`], with the value folded in as a 16-bit
    /// immediate.
    pub fn execute_store_offset16_imm16(&mut self, store: &mut StoreInner, width: StoreWidth, ptr: Reg, offset: u16, value: i16) -> (r: StepResult)
        requires
            old(self).ip < old(self).instrs.len(),
            old(self).instrs@[old(self).ip as int] == (Instruction::StoreOffset16Imm16 {
                width,
                ptr,
                offset,
                value,
            }),
        ensures
            spec_step_rel(*old(self), *old(store), *final(self), *final(store), r),
            final(self).instrs == old(self).instrs,
            final(self).consts == old(self).consts,
    {
        let addr = match self.get_register(ptr) {
            Some(v) => v,
            None => {
                return self.bad_stream();
            },
        };
        if store.memories.len() == 0 {
            return self.bad_stream();
        }
        let cell: u64 = (value as i64) as u64;
        match store.store_to_memory(0, addr.as_u64(), offset as u64, cell, width) {
            Ok(()) => {
                self.ip = self.ip + 1;
                StepResult::Continue
            },
            Err(trap_code) => StepResult::Trapped { trap_code },
        }
    }

    /// Executes an [`Instruction::StoreAt`]: a store at an absolute 32-bit
    /// address baked into the slot; an optional memory-index slot names a
    /// non-default memory.
    pub fn execute_store_at(&mut self, store: &mut StoreInner, width: StoreWidth, address: u32, value: Reg) -> (r: StepResult)
        requires
            old(self).ip < old(self).instrs.len(),
            old(self).instrs@[old(self).ip as int] == (Instruction::StoreAt {
                width,
                address,
                value,
            }),
        ensures
            spec_step_rel(*old(self), *old(store), *final(self), *final(store), r),
            final(self).instrs == old(self).instrs,
            final(self).consts == old(self).consts,
    {
        let val = match self.get_register(value) {
            Some(v) => v,
            None => {
                return self.bad_stream();
            },
        };
        let (memidx, slots): (u16, usize) = match self.fetch_param(1) {
            Some(Instruction::MemoryIndex { index }) => (index, 2),
            _ => (0u16, 1),
        };
        if (memidx as usize) >= store.memories.len() {
            return self.bad_stream();
        }
        match store.store_to_memory(memidx, address as u64, 0, val.as_u64(), width) {
            Ok(()) => {
                self.ip = self.ip + slots;
                StepResult::Continue
            },
            Err(trap_code) => StepResult::Trapped { trap_code },
        }
    }

    /// Executes an [`Instruction::StoreAtImm16`]: as
    /// [`Instruction::StoreAt`], with the value folded in as a 16-bit
    /// immediate.
    pub fn execute_store_at_imm16(&mut self, store: &mut StoreInner, width: StoreWidth, address: u32, value: i16) -> (r: StepResult)
        requires
            old(self).ip < old(self).instrs.len(),
            old(self).instrs@[old(self).ip as int] == (Instruction::StoreAtImm16 {
                width,
                address,
                value,
            }),
        ensures
            spec_step_rel(*old(self), *old(store), *final(self), *final(store), r),
            final(self).instrs == old(self).instrs,
            final(self).consts == old(self).consts,
    {
        let (memidx, slots): (u16, usize) = match self.fetch_param(1) {
            Some(Instruction::MemoryIndex { index }) => (index, 2),
            _ => (0u16, 1),
        };
        if (memidx as usize) >= store.memories.len() {
            return self.bad_stream();
        }
        let cell: u64 = (value as i64) as u64;
        match store.store_to_memory(memidx, address as u64, 0, cell, width) {
            Ok(()) => {
                self.ip = self.ip + slots;
                StepResult::Continue
            },
            Err(trap_code) => StepResult::Trapped { trap_code },
        }
    }

    /// Executes an [`Instruction::MemorySize`]: writes the default memory's
    /// size in 64 KiB pages.
    pub fn execute_memory_size(&mut self, store: &StoreInner, result: Reg) -> (r: StepResult)
        requires
            old(self).ip < old(self).instrs.len(),
            old(self).instrs@[old(self).ip as int] == (Instruction::MemorySize { result }),
        ensures
            spec_step_rel(*old(self), *store, *final(self), *store, r),
            final(self).instrs == old(self).instrs,
            final(self).consts == old(self).consts,
    {
        if store.memories.len() == 0 {
            return self.bad_stream();
        }
        let len: usize = store.memories[0].data.len();
        let pages: u64 = (len as u64) / PAGE_SIZE;
        proof {
            assert(mems_view(*store)[0] == store.memories@[0].data@);
        }
        if !self.set_register(result, UntypedVal::from_u64(pages)) {
            return self.bad_stream();
        }
        self.ip = self.ip + 1;
        StepResult::Continue
    }

    /// Executes an [`Instruction::I8x16Shuffle`]: the selector register
    /// rides in the following parameter slot.
    pub fn execute_i8x16_shuffle(&mut self, result: Reg, lhs: Reg, rhs: Reg) -> (r: StepResult)
        requires
            old(self).ip < old(self).instrs.len(),
            old(self).instrs@[old(self).ip as int] == (Instruction::I8x16Shuffle {
                result,
                lhs,
                rhs,
            }),
        ensures
            forall|s: StoreInner| #[trigger] spec_step_rel(*old(self), s, *final(self), s, r),
            final(self).instrs == old(self).instrs,
            final(self).consts == old(self).consts,
    {
        let sel_reg = match self.fetch_param(1) {
            Some(Instruction::Register { reg }) => reg,
            _ => {
                return self.bad_stream();
            },
        };
        let l = match self.get_simd_register(lhs) {
            Some(v) => v,
            None => {
                return self.bad_stream();
            },
        };
        let rv = match self.get_simd_register(rhs) {
            Some(v) => v,
            None => {
                return self.bad_stream();
            },
        };
        let sel = match self.get_simd_register(sel_reg) {
            Some(v) => v,
            None => {
                return self.bad_stream();
            },
        };
        match i8x16_shuffle(l, rv, sel) {
            Some(v) => {
                if !self.set_simd_register(result, v) {
                    return self.bad_stream();
                }
                self.ip = self.ip + 2;
                StepResult::Continue
            },
            None => self.bad_stream(),
        }
    }

    /// Executes an [`Instruction::V128Bitselect`]: the mask register rides
    /// in the following parameter slot.
    pub fn execute_v128_bitselect(&mut self, result: Reg, lhs: Reg, rhs: Reg) -> (r: StepResult)
        requires
            old(self).ip < old(self).instrs.len(),
            old(self).instrs@[old(self).ip as int] == (Instruction::V128Bitselect {
                result,
                lhs,
                rhs,
            }),
        ensures
            forall|s: StoreInner| #[trigger] spec_step_rel(*old(self), s, *final(self), s, r),
            final(self).instrs == old(self).instrs,
            final(self).consts == old(self).consts,
    {
        let sel_reg = match self.fetch_param(1) {
            Some(Instruction::Register { reg }) => reg,
            _ => {
                return self.bad_stream();
            },
        };
        let l = match self.get_simd_register(lhs) {
            Some(v) => v,
            None => {
                return self.bad_stream();
            },
        };
        let rv = match self.get_simd_register(rhs) {
            Some(v) => v,
            None => {
                return self.bad_stream();
            },
        };
        let sel = match self.get_simd_register(sel_reg) {
            Some(v) => v,
            None => {
                return self.bad_stream();
            },
        };
        let out = v128_bitselect(l, rv, sel);
        if !self.set_simd_register(result, out) {
            return self.bad_stream();
        }
        self.ip = self.ip + 2;
        StepResult::Continue
    }

    /// Executes an [`Instruction::V128And`].
    pub fn execute_v128_and(&mut self, result: Reg, lhs: Reg, rhs: Reg) -> (r: StepResult)
        requires
            old(self).ip < old(self).instrs.len(),
            old(self).instrs@[old(self).ip as int] == (Instruction::V128And { result, lhs, rhs }),
        ensures
            forall|s: StoreInner| #[trigger] spec_step_rel(*old(self), s, *final(self), s, r),
            final(self).instrs == old(self).instrs,
            final(self).consts == old(self).consts,
    {
        let l = match self.get_simd_register(lhs) {
            Some(v) => v,
            None => {
                return self.bad_stream();
            },
        };
        let rv = match self.get_simd_register(rhs) {
            Some(v) => v,
            None => {
                return self.bad_stream();
            },
        };
        let out = v128_and(l, rv);
        if !self.set_simd_register(result, out) {
            return self.bad_stream();
        }
        self.ip = self.ip + 1;
        StepResult::Continue
    }

    /// Executes an [`Instruction::V128Or`].
    pub fn execute_v128_or(&mut self, result: Reg, lhs: Reg, rhs: Reg) -> (r: StepResult)
        requires
            old(self).ip < old(self).instrs.len(),
            old(self).instrs@[old(self).ip as int] == (Instruction::V128Or { result, lhs, rhs }),
        ensures
            forall|s: StoreInner| #[trigger] spec_step_rel(*old(self), s, *final(self), s, r),
            final(self).instrs == old(self).instrs,
            final(self).consts == old(self).consts,
    {
        let l = match self.get_simd_register(lhs) {
            Some(v) => v,
            None => {
                return self.bad_stream();
            },
        };
        let rv = match self.get_simd_register(rhs) {
            Some(v) => v,
            None => {
                return self.bad_stream();
            },
        };
        let out = v128_or(l, rv);
        if !self.set_simd_register(result, out) {
            return self.bad_stream();
        }
        self.ip = self.ip + 1;
        StepResult::Continue
    }

    /// Executes an [`Instruction::V128Xor`].
    pub fn execute_v128_xor(&mut self, result: Reg, lhs: Reg, rhs: Reg) -> (r: StepResult)
        requires
            old(self).ip < old(self).instrs.len(),
            old(self).instrs@[old(self).ip as int] == (Instruction::V128Xor { result, lhs, rhs }),
        ensures
            forall|s: StoreInner| #[trigger] spec_step_rel(*old(self), s, *final(self), s, r),
            final(self).instrs == old(self).instrs,
            final(self).consts == old(self).consts,
    {
        let l = match self.get_simd_register(lhs) {
            Some(v) => v,
            None => {
                return self.bad_stream();
            },
        };
        let rv = match self.get_simd_register(rhs) {
            Some(v) => v,
            None => {
                return self.bad_stream();
            },
        };
        let out = v128_xor(l, rv);
        if !self.set_simd_register(result, out) {
            return self.bad_stream();
        }
        self.ip = self.ip + 1;
        StepResult::Continue
    }

    /// Executes an [`Instruction::V128Not`].
    pub fn execute_v128_not(&mut self, result: Reg, input: Reg) -> (r: StepResult)
        requires
            old(self).ip < old(self).instrs.len(),
            old(self).instrs@[old(self).ip as int] == (Instruction::V128Not { result, input }),
        ensures
            forall|s: StoreInner| #[trigger] spec_step_rel(*old(self), s, *final(self), s, r),
            final(self).instrs == old(self).instrs,
            final(self).consts == old(self).consts,
    {
        let v = match self.get_simd_register(input) {
            Some(v) => v,
            None => {
                return self.bad_stream();
            },
        };
        let out = v128_not(v);
        if !self.set_simd_register(result, out) {
            return self.bad_stream();
        }
        self.ip = self.ip + 1;
        StepResult::Continue
    }

    /// Executes an [`Instruction::V128AnyTrue`]: writes 1 to the scalar
    /// result register if any bit of the vector is set, else 0.
    pub fn execute_v128_any_true(&mut self, result: Reg, input: Reg) -> (r: StepResult)
        requires
            old(self).ip < old(self).instrs.len(),
            old(self).instrs@[old(self).ip as int] == (Instruction::V128AnyTrue { result, input }),
        ensures
            forall|s: StoreInner| #[trigger] spec_step_rel(*old(self), s, *final(self), s, r),
            final(self).instrs == old(self).instrs,
            final(self).consts == old(self).consts,
    {
        let v = match self.get_simd_register(input) {
            Some(v) => v,
            None => {
                return self.bad_stream();
            },
        };
        let bit: u64 = if v128_any_true(v) {
            1
        } else {
            0
        };
        if !self.set_register(result, UntypedVal::from_u64(bit)) {
            return self.bad_stream();
        }
        self.ip = self.ip + 1;
        StepResult::Continue
    }

    /// Executes an [`Instruction::I32x4Splat`].
    pub fn execute_i32x4_splat(&mut self, result: Reg, input: Reg) -> (r: StepResult)
        requires
            old(self).ip < old(self).instrs.len(),
            old(self).instrs@[old(self).ip as int] == (Instruction::I32x4Splat { result, input }),
        ensures
            forall|s: StoreInner| #[trigger] spec_step_rel(*old(self), s, *final(self), s, r),
            final(self).instrs == old(self).instrs,
            final(self).consts == old(self).consts,
    {
        let v = match self.get_register(input) {
            Some(v) => v,
            None => {
                return self.bad_stream();
            },
        };
        let out = i32x4_splat(v.as_u32());
        if !self.set_simd_register(result, out) {
            return self.bad_stream();
        }
        self.ip = self.ip + 1;
        StepResult::Continue
    }

    /// Executes an [`Instruction::I32x4ExtractLane`].
    pub fn execute_i32x4_extract_lane(&mut self, result: Reg, input: Reg, lane: u8) -> (r: StepResult)
        requires
            old(self).ip < old(self).instrs.len(),
            old(self).instrs@[old(self).ip as int] == (Instruction::I32x4ExtractLane {
                result,
                input,
                lane,
            }),
        ensures
            forall|s: StoreInner| #[trigger] spec_step_rel(*old(self), s, *final(self), s, r),
            final(self).instrs == old(self).instrs,
            final(self).consts == old(self).consts,
    {
        let v = match self.get_simd_register(input) {
            Some(v) => v,
            None => {
                return self.bad_stream();
            },
        };
        if lane >= 4 {
            return self.bad_stream();
        }
        let out: u32 = i32x4_extract_lane(v, lane as u32);
        if !self.set_register(result, UntypedVal::from_u32(out)) {
            return self.bad_stream();
        }
        self.ip = self.ip + 1;
        StepResult::Continue
    }

    /// Executes an [`Instruction::I64x2ShlBy`].
    pub fn execute_i64x2_shl_by(&mut self, result: Reg, lhs: Reg, amount: u32) -> (r: StepResult)
        requires
            old(self).ip < old(self).instrs.len(),
            old(self).instrs@[old(self).ip as int] == (Instruction::I64x2ShlBy {
                result,
                lhs,
                amount,
            }),
        ensures
            forall|s: StoreInner| #[trigger] spec_step_rel(*old(self), s, *final(self), s, r),
            final(self).instrs == old(self).instrs,
            final(self).consts == old(self).consts,
    {
        let v = match self.get_simd_register(lhs) {
            Some(v) => v,
            None => {
                return self.bad_stream();
            },
        };
        if amount >= 64 {
            return self.bad_stream();
        }
        let out = i64x2_shl(v, amount);
        if !self.set_simd_register(result, out) {
            return self.bad_stream();
        }
        self.ip = self.ip + 1;
        StepResult::Continue
    }

    /// Executes the instruction at the instruction pointer and advances it:
    /// one transition of [`spec_step_rel`].
    pub fn step(&mut self, store: &mut StoreInner) -> (r: StepResult)
        ensures
            spec_step_rel(*old(self), *old(store), *final(self), *final(store), r),
            final(self).instrs == old(self).instrs,
            final(self).consts == old(self).consts,
    {
        if self.ip >= self.instrs.len() {
            return self.bad_stream();
        }
        let instr = self.instrs[self.ip];
        match instr {
            Instruction::Register { reg } => self.bad_stream(),
            Instruction::Const32 { value } => self.bad_stream(),
            Instruction::I64Const32 { value } => self.bad_stream(),
            Instruction::F64Const32 { value } => self.bad_stream(),
            Instruction::RegisterAndImm32 { reg, imm } => self.bad_stream(),
            Instruction::Imm16AndImm32 { imm16, imm32 } => self.bad_stream(),
            Instruction::MemoryIndex { index } => self.bad_stream(),
            Instruction::Trap { trap_code } => StepResult::Trapped { trap_code },
            Instruction::ConsumeFuel { block_fuel } => self.execute_consume_fuel(
                store,
                block_fuel,
            ),
            Instruction::Branch { offset } => self.execute_branch(offset),
            Instruction::BranchCmp { cmp, lhs, rhs, offset } => self.execute_branch_cmp(
                cmp,
                lhs,
                rhs,
                offset,
            ),
            Instruction::BranchCmpFallback { lhs, rhs, params } => self.execute_branch_cmp_fallback(
                lhs,
                rhs,
                params,
            ),
            Instruction::ReturnReg { value } => self.execute_return_reg(value),
            Instruction::ReturnImm32 { value } => self.execute_return_imm32(value),
            Instruction::ReturnI64Imm32 { value } => self.execute_return_i64imm32(value),
            Instruction::ReturnF64Imm32 { value } => self.execute_return_f64imm32(value),
            Instruction::Select { result, condition, lhs } => self.execute_select(
                result,
                condition,
                lhs,
            ),
            Instruction::SelectRev { result, condition, rhs } => self.execute_select_rev(
                result,
                condition,
                rhs,
            ),
            Instruction::SelectImm32 { result_or_condition, value } => self.execute_select_imm32(
                result_or_condition,
                value,
            ),
            Instruction::SelectI64Imm32 { result_or_condition, value } => self
                .execute_select_i64imm32(result_or_condition, value),
            Instruction::SelectF64Imm32 { result_or_condition, value } => self
                .execute_select_f64imm32(result_or_condition, value),
            Instruction::I32Mul { result, lhs, rhs } => self.execute_i32_mul(result, lhs, rhs),
            Instruction::I32MulImm16 { result, lhs, rhs } => self.execute_i32_mul_imm16(
                result,
                lhs,
                rhs,
            ),
            Instruction::F32Max { result, lhs, rhs } => self.execute_f32_max(result, lhs, rhs),
            Instruction::F32Min { result, lhs, rhs } => self.execute_f32_min(result, lhs, rhs),
            Instruction::F64Max { result, lhs, rhs } => self.execute_f64_max(result, lhs, rhs),
            Instruction::MemorySize { result } => self.execute_memory_size(store, result),
            Instruction::Store { width, ptr, offset_lo } => self.execute_store(
                store,
                width,
                ptr,
                offset_lo,
            ),
            Instruction::StoreImm { width, ptr, offset_lo } => self.execute_store_imm(
                store,
                width,
                ptr,
                offset_lo,
            ),
            Instruction::StoreOffset16 { width, ptr, offset, value } => self.execute_store_offset16(
                store,
                width,
                ptr,
                offset,
                value,
            ),
            Instruction::StoreOffset16Imm16 { width, ptr, offset, value } => self
                .execute_store_offset16_imm16(store, width, ptr, offset, value),
            Instruction::StoreAt { width, address, value } => self.execute_store_at(
                store,
                width,
                address,
                value,
            ),
            Instruction::StoreAtImm16 { width, address, value } => self.execute_store_at_imm16(
                store,
                width,
                address,
                value,
            ),
            Instruction::I8x16Shuffle { result, lhs, rhs } => self.execute_i8x16_shuffle(
                result,
                lhs,
                rhs,
            ),
            Instruction::V128Bitselect { result, lhs, rhs } => self.execute_v128_bitselect(
                result,
                lhs,
                rhs,
            ),
            Instruction::V128And { result, lhs, rhs } => self.execute_v128_and(result, lhs, rhs),
            Instruction::V128Or { result, lhs, rhs } => self.execute_v128_or(result, lhs, rhs),
            Instruction::V128Xor { result, lhs, rhs } => self.execute_v128_xor(result, lhs, rhs),
            Instruction::V128Not { result, input } => self.execute_v128_not(result, input),
            Instruction::V128AnyTrue { result, input } => self.execute_v128_any_true(
                result,
                input,
            ),
            Instruction::I32x4Splat { result, input } => self.execute_i32x4_splat(result, input),
            Instruction::I32x4ExtractLane { result, input, lane } => self
                .execute_i32x4_extract_lane(result, input, lane),
            Instruction::I64x2ShlBy { result, lhs, amount } => self.execute_i64x2_shl_by(
                result,
                lhs,
                amount,
            ),
        }
    }

    /// Steps until the function returns, traps, or `max_steps` instructions
    /// have executed; in the last case the result is `Continue`.
    ///
    /// A single `run` call never suspends: the final state is reached from
    /// the initial one by a chain of [`spec_step_rel`] transitions, all of
    /// which continued — the full `max_steps` of them when the budget ran
    /// out, and as many as preceded the returning or trapping step
    /// otherwise.
    pub fn run(&mut self, store: &mut StoreInner, max_steps: u64) -> (r: StepResult)
        ensures
            final(self).instrs == old(self).instrs,
            final(self).consts == old(self).consts,
            r == StepResult::Continue ==> spec_continues_to(
                *old(self),
                *old(store),
                *final(self),
                *final(store),
                max_steps as nat,
            ),
            r != StepResult::Continue ==> (exists|n: nat, em: Executor, sm: StoreInner|
                n < max_steps && #[trigger] spec_continues_to(
                    *old(self),
                    *old(store),
                    em,
                    sm,
                    n,
                ) && spec_step_rel(em, sm, *final(self), *final(store), r)),
    {
        let mut steps: u64 = 0;
        while steps < max_steps
            invariant
                steps <= max_steps,
                self.instrs == old(self).instrs,
                self.consts == old(self).consts,
                spec_continues_to(*old(self), *old(store), *self, *store, steps as nat),
            decreases max_steps - steps,
        {
            let ghost em = *self;
            let ghost sm = *store;
            let ghost n = steps as nat;
            let r = self.step(store);
            match r {
                StepResult::Continue => {},
                _ => {
                    proof {
                        assert(n < max_steps && spec_continues_to(
                            *old(self),
                            *old(store),
                            em,
                            sm,
                            n,
                        ) && spec_step_rel(em, sm, *self, *store, r));
                    }
                    return r;
                },
            }
            proof {
                lemma_continues_to_snoc(*old(self), *old(store), em, sm, *self, *store, n);
            }
            steps = steps + 1;
        }
        StepResult::Continue
    }
}

/// Whether state (`e1`, `s1`) is reached from state (`e0`, `s0`) by
/// exactly `steps` transitions of [`spec_step_rel`] that all continued.
pub open spec fn spec_continues_to(
    e0: Executor,
    s0: StoreInner,
    e1: Executor,
    s1: StoreInner,
    steps: nat,
) -> bool
    decreases steps,
{
    if steps == 0 {
        e1 == e0 && s1 == s0
    } else {
        exists|em: Executor, sm: StoreInner|
            #[trigger] spec_step_rel(e0, s0, em, sm, StepResult::Continue) && spec_continues_to(
                em,
                sm,
                e1,
                s1,
                (steps - 1) as nat,
            )
    }
}

/// A continuing chain extends by one more continuing transition at its
/// end.
proof fn lemma_continues_to_snoc(
    e0: Executor,
    s0: StoreInner,
    em: Executor,
    sm: StoreInner,
    e1: Executor,
    s1: StoreInner,
    n: nat,
)
    requires
        spec_continues_to(e0, s0, em, sm, n),
        spec_step_rel(em, sm, e1, s1, StepResult::Continue),
    ensures
        spec_continues_to(e0, s0, e1, s1, n + 1),
    decreases n,
{
    if n == 0 {
        assert(spec_step_rel(e0, s0, e1, s1, StepResult::Continue));
        assert(spec_continues_to(e1, s1, e1, s1, 0));
    } else {
        let (ex, sx): (Executor, StoreInner) = choose|ex: Executor, sx: StoreInner|
            #[trigger] spec_step_rel(e0, s0, ex, sx, StepResult::Continue) && spec_continues_to(
                ex,
                sx,
                em,
                sm,
                (n - 1) as nat,
            );
        lemma_continues_to_snoc(ex, sx, em, sm, e1, s1, (n - 1) as nat);
    }
}


/// Fuel never changes except by the consume-fuel opcode, and then only
/// downward: every other transition leaves the budget untouched.
pub proof fn lemma_fuel_only_consumed(
    pre: Executor,
    s1: StoreInner,
    post: Executor,
    s2: StoreInner,
    r: StepResult,
)
    requires
        spec_step_rel(pre, s1, post, s2, r),
    ensures
        s2.fuel <= s1.fuel,
        s2.fuel != s1.fuel ==> (pre.ip < pre.instrs.len() && pre.instrs@[pre.ip as int] matches
            Instruction::ConsumeFuel { block_fuel }),
{
}

/// Executing a block's consume-fuel opcode charges exactly the block's
/// accumulated static cost against the fuel budget, or traps with
/// `OutOfFuel` leaving the budget unchanged.
pub proof fn lemma_fuel_charge_exact(
    pre: Executor,
    s1: StoreInner,
    post: Executor,
    s2: StoreInner,
    r: StepResult,
    block_fuel: BlockFuel,
)
    requires
        pre.ip < pre.instrs.len(),
        pre.instrs@[pre.ip as int] == (Instruction::ConsumeFuel { block_fuel }),
        spec_step_rel(pre, s1, post, s2, r),
    ensures
        s1.fuel >= block_fuel.value ==> (r == StepResult::Continue && s2.fuel == s1.fuel
            - block_fuel.value),
        s1.fuel < block_fuel.value ==> (r == (StepResult::Trapped {
            trap_code: TrapCode::OutOfFuel,
        }) && s2.fuel == s1.fuel),
{
}

} // verus!
