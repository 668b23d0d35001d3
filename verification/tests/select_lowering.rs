//! Translator tests for the `select` lowering rules, across the untyped
//! and the typed form of the source instruction (which lower identically)
//! and across the operand types.

use regmach::instr::{AnyConst32, F64Imm32, Instruction, Reg};
use regmach::translate::{FuncTranslator, Provider, TypedVal, ValType};
use regmach::value::UntypedVal;

fn reg(i: i16) -> Provider {
    Provider::Register { reg: Reg { value: i } }
}

fn i32_const(v: i32) -> Provider {
    Provider::Const {
        val: TypedVal {
            ty: ValType::I32,
            val: UntypedVal::from_i32(v),
        },
    }
}

fn i64_const(v: i64) -> Provider {
    Provider::Const {
        val: TypedVal {
            ty: ValType::I64,
            val: UntypedVal::from_i64(v),
        },
    }
}

fn f32_const(v: f32) -> Provider {
    Provider::Const {
        val: TypedVal {
            ty: ValType::F32,
            val: UntypedVal::from_u32(v.to_bits()),
        },
    }
}

fn f64_const(v: f64) -> Provider {
    Provider::Const {
        val: TypedVal {
            ty: ValType::F64,
            val: UntypedVal::from_u64(v.to_bits()),
        },
    }
}

fn f64imm32(v: f64) -> F64Imm32 {
    F64Imm32 {
        hi: (v.to_bits() >> 32) as u32,
    }
}

/// Lowers a `select` expression function and returns its code and constant
/// pool.  The condition is always the first local.
fn lower_select(
    locals: i16,
    lhs: Provider,
    rhs: Provider,
) -> (Vec<Instruction>, Vec<UntypedVal>) {
    let mut t = FuncTranslator::new(locals);
    let r = t.translate_select(Reg { value: 0 }, lhs, rhs);
    t.translate_return(r);
    (t.instrs, t.consts)
}

#[test]
fn select_reg() {
    // Condition in register 0, the two operands in registers 1 and 2; the
    // register form does not depend on the operand type.
    let (instrs, consts) = lower_select(3, reg(1), reg(2));
    assert_eq!(
        instrs,
        vec![
            Instruction::Select {
                result: Reg { value: 3 },
                condition: Reg { value: 0 },
                lhs: Reg { value: 1 },
            },
            Instruction::Register {
                reg: Reg { value: 2 },
            },
            Instruction::ReturnReg {
                value: Reg { value: 3 },
            },
        ]
    );
    assert!(consts.is_empty());
}

#[test]
fn same_reg() {
    let (instrs, _) = lower_select(2, reg(1), reg(1));
    assert_eq!(
        instrs,
        vec![Instruction::ReturnReg {
            value: Reg { value: 1 },
        }]
    );
}

#[test]
fn same_imm32() {
    fn test_for_i32(value: i32) {
        let (instrs, _) = lower_select(2, i32_const(value), i32_const(value));
        assert_eq!(
            instrs,
            vec![Instruction::ReturnImm32 {
                value: AnyConst32::from_i32(value),
            }]
        );
    }
    fn test_for_f32(value: f32) {
        let (instrs, _) = lower_select(2, f32_const(value), f32_const(value));
        assert_eq!(
            instrs,
            vec![Instruction::ReturnImm32 {
                value: AnyConst32::from_u32(value.to_bits()),
            }]
        );
    }
    test_for_i32(0);
    test_for_i32(1);
    test_for_i32(-1);
    test_for_i32(i32::MIN);
    test_for_i32(i32::MAX);

    test_for_f32(0.0);
    test_for_f32(0.25);
    test_for_f32(-0.25);
    test_for_f32(1.0);
    test_for_f32(-1.0);
    test_for_f32(f32::NEG_INFINITY);
    test_for_f32(f32::INFINITY);
    test_for_f32(f32::NAN);
    test_for_f32(f32::EPSILON);
}

#[test]
fn same_i64imm32() {
    fn test_for(value: i64) {
        let (instrs, _) = lower_select(2, i64_const(value), i64_const(value));
        assert_eq!(
            instrs,
            vec![Instruction::ReturnI64Imm32 {
                value: value as i32,
            }]
        );
    }
    test_for(0);
    test_for(1);
    test_for(-1);
    test_for(i64::from(i32::MIN) + 1);
    test_for(i64::from(i32::MIN));
    test_for(i64::from(i32::MAX) - 1);
    test_for(i64::from(i32::MAX));
}

#[test]
fn same_f64imm32() {
    fn test_for(value: f64) {
        let (instrs, _) = lower_select(2, f64_const(value), f64_const(value));
        assert_eq!(
            instrs,
            vec![Instruction::ReturnF64Imm32 {
                value: f64imm32(value),
            }]
        );
    }
    test_for(0.0);
    test_for(0.25);
    test_for(-0.25);
    test_for(1.0);
    test_for(-1.0);
    test_for(f64::NEG_INFINITY);
    test_for(f64::INFINITY);
    test_for(f64::NAN);
    test_for(f64::EPSILON);
}

#[test]
fn same_imm() {
    fn test_for_i64(value: i64) {
        let (instrs, consts) = lower_select(2, i64_const(value), i64_const(value));
        assert_eq!(
            instrs,
            vec![Instruction::ReturnReg {
                value: Reg { value: -1 },
            }]
        );
        assert_eq!(consts, vec![UntypedVal::from_i64(value)]);
    }
    fn test_for_f64(value: f64) {
        let (instrs, consts) = lower_select(2, f64_const(value), f64_const(value));
        assert_eq!(
            instrs,
            vec![Instruction::ReturnReg {
                value: Reg { value: -1 },
            }]
        );
        assert_eq!(consts, vec![UntypedVal::from_u64(value.to_bits())]);
    }
    test_for_i64(i64::from(i32::MIN) - 1);
    test_for_i64(i64::from(i32::MAX) + 1);
    test_for_i64(i64::MIN + 1);
    test_for_i64(i64::MIN);
    test_for_i64(i64::MAX - 1);
    test_for_i64(i64::MAX);

    test_for_f64(0.3);
    test_for_f64(-0.3);
    test_for_f64(0.123456789);
    test_for_f64(-0.123456789);
    test_for_f64(9.87654321);
    test_for_f64(-9.87654321);
}

#[test]
fn reg_imm32() {
    fn expected(instrs: &[Instruction], value_slot: Instruction) {
        assert_eq!(
            instrs,
            vec![
                Instruction::Select {
                    result: Reg { value: 2 },
                    condition: Reg { value: 0 },
                    lhs: Reg { value: 1 },
                },
                value_slot,
                Instruction::ReturnReg {
                    value: Reg { value: 2 },
                },
            ]
        );
    }
    fn test_for_i32(value: i32) {
        let (instrs, _) = lower_select(2, reg(1), i32_const(value));
        expected(
            &instrs,
            Instruction::Const32 {
                value: AnyConst32::from_i32(value),
            },
        );
    }
    fn test_for_f32(value: f32) {
        let (instrs, _) = lower_select(2, reg(1), f32_const(value));
        expected(
            &instrs,
            Instruction::Const32 {
                value: AnyConst32::from_u32(value.to_bits()),
            },
        );
    }
    test_for_i32(0);
    test_for_i32(1);
    test_for_i32(-1);
    test_for_i32(i32::MIN + 1);
    test_for_i32(i32::MIN);
    test_for_i32(i32::MAX - 1);
    test_for_i32(i32::MAX);

    test_for_f32(0.0);
    test_for_f32(0.25);
    test_for_f32(-0.25);
    test_for_f32(0.3);
    test_for_f32(-0.3);
    test_for_f32(1.0);
    test_for_f32(-1.0);
    test_for_f32(f32::NEG_INFINITY);
    test_for_f32(f32::INFINITY);
    test_for_f32(f32::NAN);
    test_for_f32(f32::EPSILON);
}

#[test]
fn select_reg_imm() {
    fn test_for_i64(value: i64) {
        let (instrs, consts) = lower_select(2, reg(1), i64_const(value));
        assert_eq!(
            instrs,
            vec![
                Instruction::Select {
                    result: Reg { value: 2 },
                    condition: Reg { value: 0 },
                    lhs: Reg { value: 1 },
                },
                Instruction::Register {
                    reg: Reg { value: -1 },
                },
                Instruction::ReturnReg {
                    value: Reg { value: 2 },
                },
            ]
        );
        assert_eq!(consts, vec![UntypedVal::from_i64(value)]);
    }
    fn test_for_f64(value: f64) {
        let (instrs, consts) = lower_select(2, reg(1), f64_const(value));
        assert_eq!(
            instrs,
            vec![
                Instruction::Select {
                    result: Reg { value: 2 },
                    condition: Reg { value: 0 },
                    lhs: Reg { value: 1 },
                },
                Instruction::Register {
                    reg: Reg { value: -1 },
                },
                Instruction::ReturnReg {
                    value: Reg { value: 2 },
                },
            ]
        );
        assert_eq!(consts, vec![UntypedVal::from_u64(value.to_bits())]);
    }
    test_for_i64(i64::from(i32::MIN) - 1);
    test_for_i64(i64::from(i32::MAX) + 1);
    test_for_i64(i64::MIN + 1);
    test_for_i64(i64::MIN);
    test_for_i64(i64::MAX - 1);
    test_for_i64(i64::MAX);

    test_for_f64(0.3);
    test_for_f64(-0.3);
    test_for_f64(0.123456789);
    test_for_f64(-0.123456789);
    test_for_f64(9.87654321);
    test_for_f64(-9.87654321);
}

#[test]
fn reg_i64imm32() {
    fn test_for(value: i64) {
        let (instrs, _) = lower_select(2, reg(1), i64_const(value));
        assert_eq!(
            instrs,
            vec![
                Instruction::Select {
                    result: Reg { value: 2 },
                    condition: Reg { value: 0 },
                    lhs: Reg { value: 1 },
                },
                Instruction::I64Const32 {
                    value: value as i32,
                },
                Instruction::ReturnReg {
                    value: Reg { value: 2 },
                },
            ]
        );
    }
    test_for(0);
    test_for(1);
    test_for(-1);
    test_for(i64::from(i32::MIN) + 1);
    test_for(i64::from(i32::MIN));
    test_for(i64::from(i32::MAX) - 1);
    test_for(i64::from(i32::MAX));
}

#[test]
fn reg_f64imm32() {
    fn test_for(value: f64) {
        let (instrs, _) = lower_select(2, reg(1), f64_const(value));
        assert_eq!(
            instrs,
            vec![
                Instruction::Select {
                    result: Reg { value: 2 },
                    condition: Reg { value: 0 },
                    lhs: Reg { value: 1 },
                },
                Instruction::F64Const32 {
                    value: f64imm32(value),
                },
                Instruction::ReturnReg {
                    value: Reg { value: 2 },
                },
            ]
        );
    }
    test_for(0.0);
    test_for(0.25);
    test_for(-0.25);
    test_for(1.0);
    test_for(-1.0);
    test_for(f64::NEG_INFINITY);
    test_for(f64::INFINITY);
    test_for(f64::NAN);
    test_for(f64::EPSILON);
}

#[test]
fn imm32_reg() {
    fn expected(instrs: &[Instruction], value_slot: Instruction) {
        assert_eq!(
            instrs,
            vec![
                Instruction::SelectRev {
                    result: Reg { value: 2 },
                    condition: Reg { value: 0 },
                    rhs: Reg { value: 1 },
                },
                value_slot,
                Instruction::ReturnReg {
                    value: Reg { value: 2 },
                },
            ]
        );
    }
    fn test_for_i32(value: i32) {
        let (instrs, _) = lower_select(2, i32_const(value), reg(1));
        expected(
            &instrs,
            Instruction::Const32 {
                value: AnyConst32::from_i32(value),
            },
        );
    }
    fn test_for_f32(value: f32) {
        let (instrs, _) = lower_select(2, f32_const(value), reg(1));
        expected(
            &instrs,
            Instruction::Const32 {
                value: AnyConst32::from_u32(value.to_bits()),
            },
        );
    }
    test_for_i32(0);
    test_for_i32(1);
    test_for_i32(-1);
    test_for_i32(i32::MIN + 1);
    test_for_i32(i32::MIN);
    test_for_i32(i32::MAX - 1);
    test_for_i32(i32::MAX);

    test_for_f32(0.0);
    test_for_f32(0.25);
    test_for_f32(-0.25);
    test_for_f32(0.3);
    test_for_f32(-0.3);
    test_for_f32(1.0);
    test_for_f32(-1.0);
    test_for_f32(f32::NEG_INFINITY);
    test_for_f32(f32::INFINITY);
    test_for_f32(f32::NAN);
    test_for_f32(f32::EPSILON);
}

#[test]
fn imm_reg() {
    fn expected(instrs: &[Instruction]) {
        assert_eq!(
            instrs,
            vec![
                Instruction::SelectRev {
                    result: Reg { value: 2 },
                    condition: Reg { value: 0 },
                    rhs: Reg { value: 1 },
                },
                Instruction::Register {
                    reg: Reg { value: -1 },
                },
                Instruction::ReturnReg {
                    value: Reg { value: 2 },
                },
            ]
        );
    }
    fn test_for_i64(value: i64) {
        let (instrs, consts) = lower_select(2, i64_const(value), reg(1));
        expected(&instrs);
        assert_eq!(consts, vec![UntypedVal::from_i64(value)]);
    }
    fn test_for_f64(value: f64) {
        let (instrs, consts) = lower_select(2, f64_const(value), reg(1));
        expected(&instrs);
        assert_eq!(consts, vec![UntypedVal::from_u64(value.to_bits())]);
    }
    test_for_i64(i64::from(i32::MIN) - 1);
    test_for_i64(i64::from(i32::MAX) + 1);
    test_for_i64(i64::MIN + 1);
    test_for_i64(i64::MIN);
    test_for_i64(i64::MAX - 1);
    test_for_i64(i64::MAX);

    test_for_f64(0.3);
    test_for_f64(-0.3);
    test_for_f64(0.123456789);
    test_for_f64(-0.123456789);
    test_for_f64(9.87654321);
    test_for_f64(-9.87654321);
}

#[test]
fn i64imm32_reg() {
    fn test_for(value: i64) {
        let (instrs, _) = lower_select(2, i64_const(value), reg(1));
        assert_eq!(
            instrs,
            vec![
                Instruction::SelectRev {
                    result: Reg { value: 2 },
                    condition: Reg { value: 0 },
                    rhs: Reg { value: 1 },
                },
                Instruction::I64Const32 {
                    value: value as i32,
                },
                Instruction::ReturnReg {
                    value: Reg { value: 2 },
                },
            ]
        );
    }
    test_for(0);
    test_for(1);
    test_for(-1);
    test_for(i64::from(i32::MIN) + 1);
    test_for(i64::from(i32::MIN));
    test_for(i64::from(i32::MAX) - 1);
    test_for(i64::from(i32::MAX));
}

#[test]
fn f64imm32_reg() {
    fn test_for(value: f64) {
        let (instrs, _) = lower_select(2, f64_const(value), reg(1));
        assert_eq!(
            instrs,
            vec![
                Instruction::SelectRev {
                    result: Reg { value: 2 },
                    condition: Reg { value: 0 },
                    rhs: Reg { value: 1 },
                },
                Instruction::F64Const32 {
                    value: f64imm32(value),
                },
                Instruction::ReturnReg {
                    value: Reg { value: 2 },
                },
            ]
        );
    }
    test_for(0.0);
    test_for(0.25);
    test_for(-0.25);
    test_for(1.0);
    test_for(-1.0);
    test_for(f64::NEG_INFINITY);
    test_for(f64::INFINITY);
    test_for(f64::NAN);
    test_for(f64::EPSILON);
}

#[test]
fn both_imm32() {
    fn test_for_kind_i32(lhs: i32, rhs: i32) {
        let (instrs, _) = lower_select(1, i32_const(lhs), i32_const(rhs));
        assert_eq!(
            instrs,
            vec![
                Instruction::SelectImm32 {
                    result_or_condition: Reg { value: 1 },
                    value: AnyConst32::from_i32(lhs),
                },
                Instruction::SelectImm32 {
                    result_or_condition: Reg { value: 0 },
                    value: AnyConst32::from_i32(rhs),
                },
                Instruction::ReturnReg {
                    value: Reg { value: 1 },
                },
            ]
        );
    }
    fn test_for_kind_f32(lhs: f32, rhs: f32) {
        let (instrs, _) = lower_select(1, f32_const(lhs), f32_const(rhs));
        assert_eq!(
            instrs,
            vec![
                Instruction::SelectImm32 {
                    result_or_condition: Reg { value: 1 },
                    value: AnyConst32::from_u32(lhs.to_bits()),
                },
                Instruction::SelectImm32 {
                    result_or_condition: Reg { value: 0 },
                    value: AnyConst32::from_u32(rhs.to_bits()),
                },
                Instruction::ReturnReg {
                    value: Reg { value: 1 },
                },
            ]
        );
    }
    fn test_for_i32(lhs: i32, rhs: i32) {
        test_for_kind_i32(lhs, rhs);
        test_for_kind_i32(rhs, lhs);
    }
    fn test_for_f32(lhs: f32, rhs: f32) {
        test_for_kind_f32(lhs, rhs);
        test_for_kind_f32(rhs, lhs);
    }
    test_for_i32(0, 1);
    test_for_i32(-5, 42);
    test_for_i32(i32::MIN + 1, i32::MAX - 1);
    test_for_i32(i32::MIN, i32::MAX);

    test_for_f32(0.0, 1.0);
    test_for_f32(0.3, -0.3);
    test_for_f32(f32::NEG_INFINITY, f32::INFINITY);
    test_for_f32(f32::NAN, f32::EPSILON);
}

#[test]
fn both_imm() {
    fn expected(instrs: &[Instruction]) {
        assert_eq!(
            instrs,
            vec![
                Instruction::Select {
                    result: Reg { value: 1 },
                    condition: Reg { value: 0 },
                    lhs: Reg { value: -1 },
                },
                Instruction::Register {
                    reg: Reg { value: -2 },
                },
                Instruction::ReturnReg {
                    value: Reg { value: 1 },
                },
            ]
        );
    }
    fn test_for_kind_i64(lhs: i64, rhs: i64) {
        let (instrs, consts) = lower_select(1, i64_const(lhs), i64_const(rhs));
        expected(&instrs);
        assert_eq!(
            consts,
            vec![UntypedVal::from_i64(lhs), UntypedVal::from_i64(rhs)]
        );
    }
    fn test_for_kind_f64(lhs: f64, rhs: f64) {
        let (instrs, consts) = lower_select(1, f64_const(lhs), f64_const(rhs));
        expected(&instrs);
        assert_eq!(
            consts,
            vec![
                UntypedVal::from_u64(lhs.to_bits()),
                UntypedVal::from_u64(rhs.to_bits()),
            ]
        );
    }
    fn test_for_i64(lhs: i64, rhs: i64) {
        test_for_kind_i64(lhs, rhs);
        test_for_kind_i64(rhs, lhs);
    }
    fn test_for_f64(lhs: f64, rhs: f64) {
        test_for_kind_f64(lhs, rhs);
        test_for_kind_f64(rhs, lhs);
    }
    test_for_i64(i64::from(i32::MIN) - 1, i64::from(i32::MAX) + 1);
    test_for_i64(i64::MIN, i64::MAX);

    test_for_f64(0.3, -0.3);
    test_for_f64(0.123456789, -0.987654321);
}

#[test]
fn both_i64imm32() {
    fn test_for_kind(lhs: i64, rhs: i64) {
        let (instrs, _) = lower_select(1, i64_const(lhs), i64_const(rhs));
        assert_eq!(
            instrs,
            vec![
                Instruction::SelectI64Imm32 {
                    result_or_condition: Reg { value: 1 },
                    value: lhs as i32,
                },
                Instruction::SelectI64Imm32 {
                    result_or_condition: Reg { value: 0 },
                    value: rhs as i32,
                },
                Instruction::ReturnReg {
                    value: Reg { value: 1 },
                },
            ]
        );
    }
    fn test_for(lhs: i64, rhs: i64) {
        test_for_kind(lhs, rhs);
        test_for_kind(rhs, lhs);
    }
    test_for(0, 1);
    test_for(-5, 42);
    test_for(i64::from(i32::MIN) + 1, i64::from(i32::MAX) - 1);
    test_for(i64::from(i32::MIN), i64::from(i32::MAX));
}

#[test]
fn both_f64imm32() {
    fn test_for_kind(lhs: f64, rhs: f64) {
        let (instrs, _) = lower_select(1, f64_const(lhs), f64_const(rhs));
        assert_eq!(
            instrs,
            vec![
                Instruction::SelectF64Imm32 {
                    result_or_condition: Reg { value: 1 },
                    value: f64imm32(lhs),
                },
                Instruction::SelectF64Imm32 {
                    result_or_condition: Reg { value: 0 },
                    value: f64imm32(rhs),
                },
                Instruction::ReturnReg {
                    value: Reg { value: 1 },
                },
            ]
        );
    }
    fn test_for(lhs: f64, rhs: f64) {
        test_for_kind(lhs, rhs);
        test_for_kind(rhs, lhs);
    }
    test_for(0.0, 1.0);
    test_for(-5.5, 42.25);
    test_for(f64::NEG_INFINITY, f64::INFINITY);
    test_for(f64::NAN, f64::EPSILON);
}
