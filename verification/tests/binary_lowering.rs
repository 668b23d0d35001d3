//! Translator tests for the `i32.mul` and `f64.max` lowering rules and for
//! `memory.size`.

use regmach::instr::{AnyConst32, F64Imm32, Instruction, Reg};
use regmach::translate::{FuncTranslator, Provider, TypedVal, ValType};
use regmach::value::UntypedVal;

fn reg(i: i16) -> Provider {
    Provider::Register { reg: Reg { value: i } }
}

fn i32_const(v: i32) -> Provider {
    Provider::Const {
        val: TypedVal {
            ty: ValType::I32,
            val: UntypedVal::from_i32(v),
        },
    }
}

fn f64_const(v: f64) -> Provider {
    Provider::Const {
        val: TypedVal {
            ty: ValType::F64,
            val: UntypedVal::from_u64(v.to_bits()),
        },
    }
}

fn f64imm32(v: f64) -> F64Imm32 {
    F64Imm32 {
        hi: (v.to_bits() >> 32) as u32,
    }
}

/// Lowers a binary `i32.mul` expression function and returns its code and
/// constant pool.
fn lower_i32_mul(locals: i16, lhs: Provider, rhs: Provider) -> (Vec<Instruction>, Vec<UntypedVal>) {
    let mut t = FuncTranslator::new(locals);
    let r = t.translate_i32_mul(lhs, rhs);
    t.translate_return(r);
    (t.instrs, t.consts)
}

/// Lowers a binary `f64.max` expression function and returns its code and
/// constant pool.
fn lower_f64_max(locals: i16, lhs: Provider, rhs: Provider) -> (Vec<Instruction>, Vec<UntypedVal>) {
    let mut t = FuncTranslator::new(locals);
    let r = t.translate_f64_max(lhs, rhs);
    t.translate_return(r);
    (t.instrs, t.consts)
}

#[test]
fn i32_mul_reg_reg() {
    let (instrs, consts) = lower_i32_mul(2, reg(0), reg(1));
    assert_eq!(
        instrs,
        vec![
            Instruction::I32Mul {
                result: Reg { value: 2 },
                lhs: Reg { value: 0 },
                rhs: Reg { value: 1 },
            },
            Instruction::ReturnReg {
                value: Reg { value: 2 },
            },
        ]
    );
    assert!(consts.is_empty());
}

#[test]
fn reg_imm16() {
    let (instrs, consts) = lower_i32_mul(1, reg(0), i32_const(100));
    assert_eq!(
        instrs,
        vec![
            Instruction::I32MulImm16 {
                result: Reg { value: 1 },
                lhs: Reg { value: 0 },
                rhs: 100,
            },
            Instruction::ReturnReg {
                value: Reg { value: 1 },
            },
        ]
    );
    assert!(consts.is_empty());
}

#[test]
fn reg_imm16_rev() {
    let (instrs, consts) = lower_i32_mul(1, i32_const(100), reg(0));
    assert_eq!(
        instrs,
        vec![
            Instruction::I32MulImm16 {
                result: Reg { value: 1 },
                lhs: Reg { value: 0 },
                rhs: 100,
            },
            Instruction::ReturnReg {
                value: Reg { value: 1 },
            },
        ]
    );
    assert!(consts.is_empty());
}

#[test]
fn i32_mul_reg_imm() {
    let (instrs, consts) = lower_i32_mul(1, reg(0), i32_const(i32::MAX));
    assert_eq!(
        instrs,
        vec![
            Instruction::I32Mul {
                result: Reg { value: 1 },
                lhs: Reg { value: 0 },
                rhs: Reg { value: -1 },
            },
            Instruction::ReturnReg {
                value: Reg { value: 1 },
            },
        ]
    );
    assert_eq!(consts, vec![UntypedVal::from_i32(i32::MAX)]);
}

#[test]
fn i32_mul_reg_imm_rev() {
    let (instrs, consts) = lower_i32_mul(1, i32_const(i32::MAX), reg(0));
    assert_eq!(
        instrs,
        vec![
            Instruction::I32Mul {
                result: Reg { value: 1 },
                lhs: Reg { value: 0 },
                rhs: Reg { value: -1 },
            },
            Instruction::ReturnReg {
                value: Reg { value: 1 },
            },
        ]
    );
    assert_eq!(consts, vec![UntypedVal::from_i32(i32::MAX)]);
}

#[test]
fn reg_zero() {
    let (instrs, consts) = lower_i32_mul(1, reg(0), i32_const(0));
    assert_eq!(
        instrs,
        vec![Instruction::ReturnImm32 {
            value: AnyConst32::from_u32(0),
        }]
    );
    assert!(consts.is_empty());
}

#[test]
fn reg_zero_rev() {
    let (instrs, consts) = lower_i32_mul(1, i32_const(0), reg(0));
    assert_eq!(
        instrs,
        vec![Instruction::ReturnImm32 {
            value: AnyConst32::from_u32(0),
        }]
    );
    assert!(consts.is_empty());
}

#[test]
fn reg_one() {
    let (instrs, _) = lower_i32_mul(1, reg(0), i32_const(1));
    assert_eq!(
        instrs,
        vec![Instruction::ReturnReg {
            value: Reg { value: 0 },
        }]
    );
}

#[test]
fn reg_one_rev() {
    let (instrs, _) = lower_i32_mul(1, i32_const(1), reg(0));
    assert_eq!(
        instrs,
        vec![Instruction::ReturnReg {
            value: Reg { value: 0 },
        }]
    );
}

#[test]
fn i32_mul_consteval() {
    let lhs = 1;
    let rhs = 2;
    let (instrs, _) = lower_i32_mul(0, i32_const(lhs), i32_const(rhs));
    assert_eq!(
        instrs,
        vec![Instruction::ReturnImm32 {
            value: AnyConst32::from_i32(lhs * rhs),
        }]
    );
}

#[test]
fn f64_max_reg_reg() {
    let (instrs, consts) = lower_f64_max(2, reg(0), reg(1));
    assert_eq!(
        instrs,
        vec![
            Instruction::F64Max {
                result: Reg { value: 2 },
                lhs: Reg { value: 0 },
                rhs: Reg { value: 1 },
            },
            Instruction::ReturnReg {
                value: Reg { value: 2 },
            },
        ]
    );
    assert!(consts.is_empty());
}

#[test]
fn f64_max_reg_imm() {
    let (instrs, consts) = lower_f64_max(1, reg(0), f64_const(1.0));
    assert_eq!(
        instrs,
        vec![
            Instruction::F64Max {
                result: Reg { value: 1 },
                lhs: Reg { value: 0 },
                rhs: Reg { value: -1 },
            },
            Instruction::ReturnReg {
                value: Reg { value: 1 },
            },
        ]
    );
    assert_eq!(consts, vec![UntypedVal::from_u64(1.0_f64.to_bits())]);
}

#[test]
fn f64_max_reg_imm_rev() {
    let (instrs, consts) = lower_f64_max(1, f64_const(1.0), reg(0));
    assert_eq!(
        instrs,
        vec![
            Instruction::F64Max {
                result: Reg { value: 1 },
                lhs: Reg { value: 0 },
                rhs: Reg { value: -1 },
            },
            Instruction::ReturnReg {
                value: Reg { value: 1 },
            },
        ]
    );
    assert_eq!(consts, vec![UntypedVal::from_u64(1.0_f64.to_bits())]);
}

#[test]
fn reg_nan() {
    let (instrs, consts) = lower_f64_max(1, reg(0), f64_const(f64::NAN));
    assert_eq!(
        instrs,
        vec![Instruction::ReturnF64Imm32 {
            value: f64imm32(f64::NAN),
        }]
    );
    assert!(consts.is_empty());
}

#[test]
fn nan_reg() {
    let (instrs, consts) = lower_f64_max(1, f64_const(f64::NAN), reg(0));
    assert_eq!(
        instrs,
        vec![Instruction::ReturnF64Imm32 {
            value: f64imm32(f64::NAN),
        }]
    );
    assert!(consts.is_empty());
}

#[test]
fn reg_neg_infinity() {
    let (instrs, _) = lower_f64_max(1, reg(0), f64_const(f64::NEG_INFINITY));
    assert_eq!(
        instrs,
        vec![Instruction::ReturnReg {
            value: Reg { value: 0 },
        }]
    );
}

#[test]
fn reg_neg_infinity_rev() {
    let (instrs, _) = lower_f64_max(1, f64_const(f64::NEG_INFINITY), reg(0));
    assert_eq!(
        instrs,
        vec![Instruction::ReturnReg {
            value: Reg { value: 0 },
        }]
    );
}

#[test]
fn f64_max_consteval() {
    let lhs = 1.0_f64;
    let rhs = 2.0;
    let result = if rhs > lhs { rhs } else { lhs };
    let (instrs, _) = lower_f64_max(0, f64_const(lhs), f64_const(rhs));
    assert_eq!(
        instrs,
        vec![Instruction::ReturnF64Imm32 {
            value: f64imm32(result),
        }]
    );
}

#[test]
fn memory_size_reg() {
    let mut t = FuncTranslator::new(0);
    let r = t.translate_memory_size();
    t.translate_return(r);
    assert_eq!(
        t.instrs,
        vec![
            Instruction::MemorySize {
                result: Reg { value: 0 },
            },
            Instruction::ReturnReg {
                value: Reg { value: 0 },
            },
        ]
    );
}
