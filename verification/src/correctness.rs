//! Translate-then-execute agreement: executing the code the translator
//! emits for a source expression produces the value the source semantics
//! assign to it.
//!
//! Each lemma takes a lowering relation of the translator and the step
//! relation of the executor as hypotheses, and concludes what the executed
//! program returns.  The operand registers hold arbitrary values, so each
//! lemma covers every in-range input of its opcode family.

use vstd::prelude::*;
use crate::executor::{
    spec_cond_nonzero, spec_i32_mul_cell, spec_step_rel, Executor, StepResult,
};
use crate::fbits::spec_f64_max_bits;
use crate::instr::Reg;
use crate::store::StoreInner;
use crate::translate::{
    spec_f64_max_lowering, spec_i32_mul_lowering, spec_return_lowering, spec_select_lowering,
    FuncTranslator, Provider, TypedVal, ValType,
};
use crate::value::UntypedVal;

verus! {

/// Executing the lowering of `i32.mul` over two register operands returns
/// the wrapping product of the two registers' `i32` views, whatever they
/// hold.
pub proof fn lemma_i32_mul_translate_execute(
    t0: FuncTranslator,
    t1: FuncTranslator,
    t2: FuncTranslator,
    p: Provider,
    e0: Executor,
    s0: StoreInner,
    e1: Executor,
    s1: StoreInner,
    r1: StepResult,
    e2: Executor,
    s2: StoreInner,
    r2: StepResult,
)
    requires
        t0.instrs@.len() == 0,
        t0.locals >= 2,
        spec_i32_mul_lowering(
            t0,
            t1,
            (Provider::Register { reg: (Reg { value: 0 }) }),
            (Provider::Register { reg: (Reg { value: 1 }) }),
            p,
        ),
        spec_return_lowering(t1, t2, p),
        e0.instrs@ == t2.instrs@,
        e0.ip == 0,
        e0.regs.len() > t0.locals,
        spec_step_rel(e0, s0, e1, s1, r1),
        spec_step_rel(e1, s1, e2, s2, r2),
    ensures
        r1 == StepResult::Continue,
        r2 == (StepResult::Returned {
            value: (UntypedVal {
                bits: spec_i32_mul_cell(e0.regs@[0].bits, e0.regs@[1].bits),
            }),
        }),
{
    let result = t0.spec_result_reg();
    assert(e0.instrs@.len() == 2);
    assert(e0.spec_get_reg((Reg { value: 0 })) == Some(e0.regs@[0]));
    assert(e0.spec_get_reg((Reg { value: 1 })) == Some(e0.regs@[1]));
    assert(e0.spec_can_set(result));
    assert(e1.ip == 1);
    assert(e1.regs@[result.value as int].bits == spec_i32_mul_cell(
        e0.regs@[0].bits,
        e0.regs@[1].bits,
    ));
    assert(e1.spec_get_reg(result) == Some(e1.regs@[result.value as int]));
}

/// Executing the lowering of `i32.mul` over two constant operands returns
/// their wrapping product: the translator folded it, and the emitted
/// return reproduces the folded cell exactly.
pub proof fn lemma_i32_mul_consteval_translate_execute(
    t0: FuncTranslator,
    t1: FuncTranslator,
    t2: FuncTranslator,
    a: TypedVal,
    b: TypedVal,
    p: Provider,
    e0: Executor,
    s0: StoreInner,
    e1: Executor,
    s1: StoreInner,
    r1: StepResult,
)
    requires
        t0.instrs@.len() == 0,
        a.ty == ValType::I32,
        b.ty == ValType::I32,
        spec_i32_mul_lowering(
            t0,
            t1,
            (Provider::Const { val: a }),
            (Provider::Const { val: b }),
            p,
        ),
        spec_return_lowering(t1, t2, p),
        e0.instrs@ == t2.instrs@,
        e0.ip == 0,
        spec_step_rel(e0, s0, e1, s1, r1),
    ensures
        r1 == (StepResult::Returned {
            value: (UntypedVal { bits: spec_i32_mul_cell(a.val.bits, b.val.bits) }),
        }),
{
    let m: i32 = vstd::wrapping::i32_specs::wrapping_mul(a.val.bits as i32, b.val.bits as i32);
    lemma_u32_cell_zero_ext(m);
}

/// A cell built by zero-extending a 32-bit value keeps it under a further
/// 32-bit round trip.
proof fn lemma_u32_cell_zero_ext(x: i32)
    by (bit_vector)
    ensures
        ((x as u32 as u64) as u32) as u64 == x as u32 as u64,
{
}

/// Executing the lowering of `f64.max` over two register operands returns
/// the IEEE maximum of the two registers' bit patterns, NaN propagation
/// included, whatever they hold.
pub proof fn lemma_f64_max_translate_execute(
    t0: FuncTranslator,
    t1: FuncTranslator,
    t2: FuncTranslator,
    p: Provider,
    e0: Executor,
    s0: StoreInner,
    e1: Executor,
    s1: StoreInner,
    r1: StepResult,
    e2: Executor,
    s2: StoreInner,
    r2: StepResult,
)
    requires
        t0.instrs@.len() == 0,
        t0.locals >= 2,
        spec_f64_max_lowering(
            t0,
            t1,
            (Provider::Register { reg: (Reg { value: 0 }) }),
            (Provider::Register { reg: (Reg { value: 1 }) }),
            p,
        ),
        spec_return_lowering(t1, t2, p),
        e0.instrs@ == t2.instrs@,
        e0.ip == 0,
        e0.regs.len() > t0.locals,
        spec_step_rel(e0, s0, e1, s1, r1),
        spec_step_rel(e1, s1, e2, s2, r2),
    ensures
        r1 == StepResult::Continue,
        r2 == (StepResult::Returned {
            value: (UntypedVal {
                bits: spec_f64_max_bits(e0.regs@[0].bits, e0.regs@[1].bits),
            }),
        }),
{
    let result = t0.spec_result_reg();
    assert(e0.instrs@.len() == 2);
    assert(e0.spec_get_reg((Reg { value: 0 })) == Some(e0.regs@[0]));
    assert(e0.spec_get_reg((Reg { value: 1 })) == Some(e0.regs@[1]));
    assert(e0.spec_can_set(result));
    assert(e1.ip == 1);
    assert(e1.spec_get_reg(result) == Some(e1.regs@[result.value as int]));
}

/// Executing the lowering of a `select` of two distinct `i32` constants —
/// the two-slot immediate pair — returns the left constant on a non-zero
/// condition and the right one on zero, for every condition value.
pub proof fn lemma_select_imm32_translate_execute(
    t0: FuncTranslator,
    t1: FuncTranslator,
    t2: FuncTranslator,
    a: TypedVal,
    b: TypedVal,
    p: Provider,
    e0: Executor,
    s0: StoreInner,
    e1: Executor,
    s1: StoreInner,
    r1: StepResult,
    e2: Executor,
    s2: StoreInner,
    r2: StepResult,
)
    requires
        t0.instrs@.len() == 0,
        t0.locals >= 1,
        a.ty == ValType::I32,
        b.ty == ValType::I32,
        a != b,
        spec_select_lowering(
            t0,
            t1,
            (Reg { value: 0 }),
            (Provider::Const { val: a }),
            (Provider::Const { val: b }),
            p,
        ),
        spec_return_lowering(t1, t2, p),
        e0.instrs@ == t2.instrs@,
        e0.ip == 0,
        e0.regs.len() > t0.locals,
        spec_step_rel(e0, s0, e1, s1, r1),
        spec_step_rel(e1, s1, e2, s2, r2),
    ensures
        r1 == StepResult::Continue,
        r2 == (StepResult::Returned {
            value: (UntypedVal {
                bits: if spec_cond_nonzero(e0.regs@[0].bits) {
                    a.val.bits as u32 as u64
                } else {
                    b.val.bits as u32 as u64
                },
            }),
        }),
{
    let result = t0.spec_result_reg();
    assert(e0.instrs@.len() == 3);
    assert(e0.spec_get_reg((Reg { value: 0 })) == Some(e0.regs@[0]));
    assert(e0.spec_can_set(result));
    assert(e1.ip == 2);
    assert(e1.spec_get_reg(result) == Some(e1.regs@[result.value as int]));
}

/// The value-level agreement behind the translator's `i32.mul`
/// identities: multiplying any cell by zero gives the zero cell, and
/// multiplying a proper `i32` cell (upper half zero) by one gives the cell
/// back.
pub proof fn lemma_i32_mul_cell_identities(x: u64)
    ensures
        spec_i32_mul_cell(x, 0) == 0,
        x <= u32::MAX ==> spec_i32_mul_cell(x, 1) == x,
{
    let a = x as i32;
    assert(vstd::wrapping::i32_specs::wrapping_mul(a, 0) == 0);
    assert(vstd::wrapping::i32_specs::wrapping_mul(a, 1) == a) by {
        let v: int = a as int;
        assert(a * 1 == v);
        if a >= 0 {
            assert(v % 0x1_0000_0000 == v);
        } else {
            assert(v % 0x1_0000_0000 == v + 0x1_0000_0000);
        }
    }
    assert((0i32) as u32 as u64 == 0) by (bit_vector);
    lemma_low_cell_i32_roundtrip(x);
}

/// Truncating a cell with a clear upper half to its `i32` view and
/// zero-extending gives the cell back.
proof fn lemma_low_cell_i32_roundtrip(x: u64)
    by (bit_vector)
    ensures
        x <= u32::MAX ==> ((x as i32) as u32) as u64 == x,
{
}

/// Executing the lowering of `i32.mul` of a register by the constant zero
/// returns zero — the rewrite to a constant agrees with the multiplication
/// for every register value.
pub proof fn lemma_i32_mul_zero_translate_execute(
    t0: FuncTranslator,
    t1: FuncTranslator,
    t2: FuncTranslator,
    p: Provider,
    e0: Executor,
    s0: StoreInner,
    e1: Executor,
    s1: StoreInner,
    r1: StepResult,
)
    requires
        t0.instrs@.len() == 0,
        spec_i32_mul_lowering(
            t0,
            t1,
            (Provider::Register { reg: (Reg { value: 0 }) }),
            (Provider::Const {
                val: (TypedVal { ty: ValType::I32, val: (UntypedVal { bits: 0 }) }),
            }),
            p,
        ),
        spec_return_lowering(t1, t2, p),
        e0.instrs@ == t2.instrs@,
        e0.ip == 0,
        e0.regs.len() > 0,
        spec_step_rel(e0, s0, e1, s1, r1),
    ensures
        r1 == (StepResult::Returned {
            value: (UntypedVal { bits: spec_i32_mul_cell(e0.regs@[0].bits, 0) }),
        }),
{
    lemma_i32_mul_cell_identities(e0.regs@[0].bits);
}

/// Executing the lowering of `i32.mul` of a register by the constant one
/// returns the register's cell — the rewrite to a plain register read
/// agrees with the multiplication whenever the register holds a proper
/// `i32` cell, whose upper half is zero.
pub proof fn lemma_i32_mul_one_translate_execute(
    t0: FuncTranslator,
    t1: FuncTranslator,
    t2: FuncTranslator,
    p: Provider,
    e0: Executor,
    s0: StoreInner,
    e1: Executor,
    s1: StoreInner,
    r1: StepResult,
)
    requires
        t0.instrs@.len() == 0,
        spec_i32_mul_lowering(
            t0,
            t1,
            (Provider::Register { reg: (Reg { value: 0 }) }),
            (Provider::Const {
                val: (TypedVal { ty: ValType::I32, val: (UntypedVal { bits: 1 }) }),
            }),
            p,
        ),
        spec_return_lowering(t1, t2, p),
        e0.instrs@ == t2.instrs@,
        e0.ip == 0,
        e0.regs.len() > 0,
        e0.regs@[0].bits <= u32::MAX,
        spec_step_rel(e0, s0, e1, s1, r1),
    ensures
        r1 == (StepResult::Returned {
            value: (UntypedVal { bits: spec_i32_mul_cell(e0.regs@[0].bits, 1) }),
        }),
{
    lemma_i32_mul_cell_identities(e0.regs@[0].bits);
    assert((1u64) as i32 == 1i32) by (bit_vector);
    assert((0u64) as i32 == 0i32) by (bit_vector);
}

/// Executing the lowering of `select cond x x` returns the cell of `x` —
/// the fold to a plain register read agrees with the select, which would
/// pick `x` on either side of any condition.
pub proof fn lemma_select_same_translate_execute(
    t0: FuncTranslator,
    t1: FuncTranslator,
    t2: FuncTranslator,
    p: Provider,
    e0: Executor,
    s0: StoreInner,
    e1: Executor,
    s1: StoreInner,
    r1: StepResult,
)
    requires
        t0.instrs@.len() == 0,
        spec_select_lowering(
            t0,
            t1,
            (Reg { value: 0 }),
            (Provider::Register { reg: (Reg { value: 1 }) }),
            (Provider::Register { reg: (Reg { value: 1 }) }),
            p,
        ),
        spec_return_lowering(t1, t2, p),
        e0.instrs@ == t2.instrs@,
        e0.ip == 0,
        e0.regs.len() > 1,
        spec_step_rel(e0, s0, e1, s1, r1),
    ensures
        r1 == (StepResult::Returned { value: e0.regs@[1] }),
{
}

} // verus!
