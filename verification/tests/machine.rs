//! End-to-end tests of the executor, and unit tests of the IR primitives.

use regmach::executor::{Executor, StepResult};
use regmach::instr::{AnyConst32, Instruction, Reg, StoreWidth, TrapCode};
use regmach::ir::{
    BlockFuel, BranchOffset, BranchOffset16, Comparator, ComparatorAndOffset, Instr, IrError,
};
use regmach::simd::V128;
use regmach::store::{MemoryEntity, StoreInner};
use regmach::translate::{FuncTranslator, Provider, TypedVal, ValType};
use regmach::value::UntypedVal;

fn cell_i32(v: i32) -> UntypedVal {
    UntypedVal::from_i32(v)
}

fn cell_u64(v: u64) -> UntypedVal {
    UntypedVal::from_u64(v)
}

fn no_simd() -> Vec<V128> {
    Vec::new()
}

/// A function stores `i32` at base `0xFFFF_FFFC` offset `0` into a 1-page
/// default memory: the store traps with `MemoryOutOfBounds` and the memory
/// is unchanged.
#[test]
fn memory_bounds() {
    let instrs = vec![Instruction::StoreOffset16 {
        width: StoreWidth::W32,
        ptr: Reg { value: 0 },
        offset: 0,
        value: Reg { value: 1 },
    }];
    let regs = vec![cell_u64(0xFFFF_FFFC), cell_i32(0x1122_3344)];
    let mut exec = Executor::new(instrs, Vec::new(), regs, no_simd());
    let mut store = StoreInner::new(0);
    store.add_memory(MemoryEntity::new(1));
    let r = exec.step(&mut store);
    assert_eq!(
        r,
        StepResult::Trapped {
            trap_code: TrapCode::MemoryOutOfBounds,
        }
    );
    assert_eq!(store.memories[0].data.len(), 65536);
    assert!(store.memories[0].data.iter().all(|b| *b == 0));
}

/// An in-bounds `i32` store writes its four bytes little-endian and leaves
/// the rest of the memory unchanged.
#[test]
fn store_little_endian() {
    let instrs = vec![Instruction::StoreOffset16 {
        width: StoreWidth::W32,
        ptr: Reg { value: 0 },
        offset: 2,
        value: Reg { value: 1 },
    }];
    let regs = vec![cell_u64(4), cell_i32(0x1122_3344)];
    let mut exec = Executor::new(instrs, Vec::new(), regs, no_simd());
    let mut store = StoreInner::new(0);
    store.add_memory(MemoryEntity::new(1));
    let r = exec.step(&mut store);
    assert_eq!(r, StepResult::Continue);
    let data = &store.memories[0].data;
    assert_eq!(&data[6..10], &[0x44, 0x33, 0x22, 0x11]);
    assert_eq!(data[5], 0);
    assert_eq!(data[10], 0);
}

/// A store at an absolute address with a 16-bit immediate value
/// sign-extends the immediate into the written bytes.
#[test]
fn store_at_imm16() {
    let instrs = vec![Instruction::StoreAtImm16 {
        width: StoreWidth::W16,
        address: 8,
        value: -2,
    }];
    let mut exec = Executor::new(instrs, Vec::new(), Vec::new(), no_simd());
    let mut store = StoreInner::new(0);
    store.add_memory(MemoryEntity::new(1));
    let r = exec.step(&mut store);
    assert_eq!(r, StepResult::Continue);
    let data = &store.memories[0].data;
    assert_eq!(&data[8..10], &[0xFE, 0xFF]);
}

/// Initial fuel is 3 and a loop's body consumes fuel 1 on every entry: the
/// loop traps with `OutOfFuel` after exactly three paid entries, on the
/// fourth consume-fuel opcode.
#[test]
fn fuel_exhaustion() {
    let instrs = vec![
        Instruction::ConsumeFuel {
            block_fuel: BlockFuel { value: 1 },
        },
        Instruction::Branch {
            offset: BranchOffset::from_i32(-1),
        },
    ];
    let mut exec = Executor::new(instrs, Vec::new(), Vec::new(), no_simd());
    let mut store = StoreInner::new(3);
    let mut consume_entries: u32 = 0;
    let mut steps: u32 = 0;
    loop {
        if exec.ip == 0 {
            consume_entries += 1;
        }
        match exec.step(&mut store) {
            StepResult::Continue => {}
            r => {
                assert_eq!(
                    r,
                    StepResult::Trapped {
                        trap_code: TrapCode::OutOfFuel,
                    }
                );
                break;
            }
        }
        steps += 1;
        assert!(steps < 100);
    }
    // Three paid entries plus the fourth consume-fuel that trapped.
    assert_eq!(consume_entries, 4);
    assert_eq!(store.fuel, 0);
}

/// `select` of two `i32` constants translates to two `select_imm32` slots
/// followed by a return; executing with condition 0 picks the right
/// operand and with condition 1 the left one.
#[test]
fn typed_select_constants() {
    let mut t = FuncTranslator::new(1);
    let lhs = Provider::Const {
        val: TypedVal {
            ty: ValType::I32,
            val: UntypedVal::from_i32(42),
        },
    };
    let rhs = Provider::Const {
        val: TypedVal {
            ty: ValType::I32,
            val: UntypedVal::from_i32(-7),
        },
    };
    let r = t.translate_select(Reg { value: 0 }, lhs, rhs);
    t.translate_return(r);
    assert_eq!(
        t.instrs,
        vec![
            Instruction::SelectImm32 {
                result_or_condition: Reg { value: 1 },
                value: AnyConst32::from_i32(42),
            },
            Instruction::SelectImm32 {
                result_or_condition: Reg { value: 0 },
                value: AnyConst32::from_i32(-7),
            },
            Instruction::ReturnReg {
                value: Reg { value: 1 },
            },
        ]
    );
    for (cond, expect) in [(0, -7), (1, 42)] {
        let regs = vec![cell_i32(cond), cell_i32(0)];
        let mut exec = Executor::new(t.instrs.clone(), t.consts.clone(), regs, no_simd());
        let mut store = StoreInner::new(0);
        let r = exec.run(&mut store, 10);
        assert_eq!(
            r,
            StepResult::Returned {
                value: UntypedVal::from_i32(expect),
            }
        );
    }
}

/// An `i8x16.shuffle` with an interleaving selector produces the
/// interleaved byte pairs of its two inputs.
#[test]
fn simd_shuffle() {
    let mut lhs = [0u8; 16];
    let mut rhs = [0u8; 16];
    let mut sel = [0u8; 16];
    for i in 0..16 {
        lhs[i] = i as u8;
        rhs[i] = 16 + i as u8;
    }
    for k in 0..8 {
        sel[2 * k] = k as u8;
        sel[2 * k + 1] = 16 + k as u8;
    }
    let simd_regs = vec![
        V128::from_bits(u128::from_le_bytes(lhs)),
        V128::from_bits(u128::from_le_bytes(rhs)),
        V128::from_bits(u128::from_le_bytes(sel)),
        V128::from_bits(0),
    ];
    let instrs = vec![
        Instruction::I8x16Shuffle {
            result: Reg { value: 3 },
            lhs: Reg { value: 0 },
            rhs: Reg { value: 1 },
        },
        Instruction::Register {
            reg: Reg { value: 2 },
        },
    ];
    let mut exec = Executor::new(instrs, Vec::new(), Vec::new(), simd_regs);
    let mut store = StoreInner::new(0);
    let r = exec.step(&mut store);
    assert_eq!(r, StepResult::Continue);
    let out = exec.simd_regs[3].to_bits().to_le_bytes();
    assert_eq!(
        out,
        [0, 16, 1, 17, 2, 18, 3, 19, 4, 20, 5, 21, 6, 22, 7, 23]
    );
}

/// `v128.bitselect` picks each bit from the first operand where the mask
/// bit is one and from the second where it is zero.
#[test]
fn simd_bitselect() {
    let simd_regs = vec![
        V128::from_bits(0xFFFF_0000_FFFF_0000_u128),
        V128::from_bits(0x1234_5678_9ABC_DEF0_u128),
        V128::from_bits(0x00FF_00FF_00FF_00FF_u128),
        V128::from_bits(0),
    ];
    let instrs = vec![
        Instruction::V128Bitselect {
            result: Reg { value: 3 },
            lhs: Reg { value: 0 },
            rhs: Reg { value: 1 },
        },
        Instruction::Register {
            reg: Reg { value: 2 },
        },
    ];
    let mut exec = Executor::new(instrs, Vec::new(), Vec::new(), simd_regs);
    let mut store = StoreInner::new(0);
    assert_eq!(exec.step(&mut store), StepResult::Continue);
    let l = 0xFFFF_0000_FFFF_0000_u128;
    let r = 0x1234_5678_9ABC_DEF0_u128;
    let s = 0x00FF_00FF_00FF_00FF_u128;
    assert_eq!(exec.simd_regs[3].to_bits(), (l & s) | (r & !s));
}

/// `local.get a; local.get b; i32.lt_s; br_if` fuses into a single
/// comparator-branch; executing takes the branch for `a = 3, b = 5` and
/// falls through for `a = 5, b = 3`.
#[test]
fn compare_branch_fusion() {
    let mut t = FuncTranslator::new(2);
    t.translate_cmp_branch(
        Comparator::I32LtS,
        Reg { value: 0 },
        Reg { value: 1 },
        BranchOffset::from_i32(2),
    );
    assert_eq!(
        t.instrs,
        vec![Instruction::BranchCmp {
            cmp: Comparator::I32LtS,
            lhs: Reg { value: 0 },
            rhs: Reg { value: 1 },
            offset: BranchOffset16 { value: 2 },
        }]
    );
    let mut instrs = t.instrs.clone();
    instrs.push(Instruction::ReturnImm32 {
        value: AnyConst32::from_i32(0),
    });
    instrs.push(Instruction::ReturnImm32 {
        value: AnyConst32::from_i32(1),
    });
    for (a, b, expect) in [(3, 5, 1), (5, 3, 0)] {
        let regs = vec![cell_i32(a), cell_i32(b)];
        let mut exec = Executor::new(instrs.clone(), Vec::new(), regs, no_simd());
        let mut store = StoreInner::new(0);
        let r = exec.run(&mut store, 10);
        assert_eq!(
            r,
            StepResult::Returned {
                value: UntypedVal::from_i32(expect),
            }
        );
    }
}

/// A branch offset too wide for 16 bits falls back to the packed
/// comparator-and-offset word in the constant pool.
#[test]
fn compare_branch_fallback() {
    let mut t = FuncTranslator::new(2);
    t.translate_cmp_branch(
        Comparator::I32Eq,
        Reg { value: 0 },
        Reg { value: 1 },
        BranchOffset::from_i32(40000),
    );
    assert_eq!(
        t.instrs,
        vec![Instruction::BranchCmpFallback {
            lhs: Reg { value: 0 },
            rhs: Reg { value: 1 },
            params: Reg { value: -1 },
        }]
    );
    assert_eq!(t.consts.len(), 1);
    let decoded = ComparatorAndOffset::from_untyped(t.consts[0]).unwrap();
    assert_eq!(decoded.cmp, Comparator::I32Eq);
    assert_eq!(decoded.offset.to_i32(), 40000);
}

/// Packing `I32Eq` with offset `-12` and unpacking yields the identical
/// pair.
#[test]
fn comparator_offset_packing() {
    let x = ComparatorAndOffset::new(Comparator::I32Eq, BranchOffset::from_i32(-12));
    let unpacked = ComparatorAndOffset::from_u64(x.as_u64()).unwrap();
    assert_eq!(unpacked.cmp, Comparator::I32Eq);
    assert_eq!(unpacked.offset.to_i32(), -12);
    assert_eq!(unpacked, x);
}

/// `memory.size` reports the default memory's size in 64 KiB pages.
#[test]
fn memory_size_exec() {
    let instrs = vec![
        Instruction::MemorySize {
            result: Reg { value: 0 },
        },
        Instruction::ReturnReg {
            value: Reg { value: 0 },
        },
    ];
    let regs = vec![cell_i32(0)];
    let mut exec = Executor::new(instrs, Vec::new(), regs, no_simd());
    let mut store = StoreInner::new(0);
    store.add_memory(MemoryEntity::new(10));
    let r = exec.run(&mut store, 10);
    assert_eq!(
        r,
        StepResult::Returned {
            value: UntypedVal::from_u64(10),
        }
    );
}

/// A translated `i32.mul` by an immediate executes to the wrapping
/// product.
#[test]
fn i32_mul_imm16_exec() {
    let instrs = vec![
        Instruction::I32MulImm16 {
            result: Reg { value: 1 },
            lhs: Reg { value: 0 },
            rhs: 7,
        },
        Instruction::ReturnReg {
            value: Reg { value: 1 },
        },
    ];
    let regs = vec![cell_i32(6), cell_i32(0)];
    let mut exec = Executor::new(instrs, Vec::new(), regs, no_simd());
    let mut store = StoreInner::new(0);
    let r = exec.run(&mut store, 10);
    assert_eq!(
        r,
        StepResult::Returned {
            value: UntypedVal::from_i32(42),
        }
    );
}

/// `f64.max` of a register and a pooled constant executes to the larger
/// value, reading the constant through its negative register id.
#[test]
fn f64_max_exec() {
    let instrs = vec![
        Instruction::F64Max {
            result: Reg { value: 1 },
            lhs: Reg { value: 0 },
            rhs: Reg { value: -1 },
        },
        Instruction::ReturnReg {
            value: Reg { value: 1 },
        },
    ];
    let consts = vec![UntypedVal::from_u64(2.5_f64.to_bits())];
    let regs = vec![cell_u64(1.5_f64.to_bits()), cell_i32(0)];
    let mut exec = Executor::new(instrs, consts, regs, no_simd());
    let mut store = StoreInner::new(0);
    let r = exec.run(&mut store, 10);
    assert_eq!(
        r,
        StepResult::Returned {
            value: UntypedVal::from_u64(2.5_f64.to_bits()),
        }
    );
}

/// Branch offsets measure exact instruction-pointer deltas.
#[test]
fn branch_offset_from_src_to_dst() {
    let fwd = BranchOffset::from_src_to_dst(Instr::new(3), Instr::new(8)).unwrap();
    assert_eq!(fwd.to_i32(), 5);
    let back = BranchOffset::from_src_to_dst(Instr::new(8), Instr::new(3)).unwrap();
    assert_eq!(back.to_i32(), -5);
    let too_far = BranchOffset::from_src_to_dst(Instr::new(0), Instr::new(u32::MAX));
    assert_eq!(too_far, Err(IrError::BranchOffsetOutOfBounds));
}

/// A 16-bit branch offset initializes from a fitting 32-bit offset and
/// rejects one out of range.
#[test]
fn branch_offset16_init() {
    let mut off = BranchOffset16 { value: 0 };
    assert!(!off.is_init());
    off.init(BranchOffset::from_i32(5)).unwrap();
    assert!(off.is_init());
    assert_eq!(off.to_i16(), 5);

    let mut wide = BranchOffset16 { value: 0 };
    assert_eq!(
        wide.init(BranchOffset::from_i32(40000)),
        Err(IrError::BranchOffsetOutOfBounds)
    );
    assert!(!wide.is_init());
}

/// Block fuel accumulates bump by bump and fails without wrapping when it
/// would leave 32 bits.
#[test]
fn block_fuel_bump() {
    let mut fuel = BlockFuel::from_u64(0).unwrap();
    fuel.bump_by(5).unwrap();
    fuel.bump_by(7).unwrap();
    assert_eq!(fuel.to_u64(), 12);
    assert_eq!(
        fuel.bump_by(u64::from(u32::MAX)),
        Err(IrError::BlockFuelOutOfBounds)
    );
    assert_eq!(fuel.to_u64(), 12);
    assert_eq!(
        BlockFuel::from_u64(u64::from(u32::MAX) + 1),
        Err(IrError::BlockFuelOutOfBounds)
    );
}

/// Comparator ordinals decode contiguously from zero and out-of-range
/// words are rejected.
#[test]
fn comparator_decoding() {
    assert_eq!(Comparator::try_from_u32(0), Ok(Comparator::I32Eq));
    assert_eq!(Comparator::try_from_u32(2), Ok(Comparator::I32LtS));
    assert_eq!(Comparator::try_from_u32(37), Ok(Comparator::F64Ge));
    assert_eq!(
        Comparator::try_from_u32(38),
        Err(IrError::ComparatorOutOfBounds)
    );
    assert_eq!(Comparator::F64Ge.to_u32(), 37);
    assert_eq!(Comparator::I32LtS.to_u32(), 2);
}

/// A `u64` whose high half is no comparator ordinal decodes to no
/// comparator-and-offset pair.
#[test]
fn comparator_offset_invalid() {
    let bad = (38u64 << 32) | 5;
    assert_eq!(ComparatorAndOffset::from_u64(bad), None);
    assert_eq!(
        ComparatorAndOffset::from_untyped(UntypedVal::from_u64(bad)),
        None
    );
}

/// `f32.max` folds its `-inf` identity and `f32.min` its `+inf` identity;
/// a NaN constant wins both.
#[test]
fn f32_identities() {
    let reg0 = Provider::Register { reg: Reg { value: 0 } };
    let neg_inf = Provider::Const {
        val: TypedVal {
            ty: ValType::F32,
            val: UntypedVal::from_u32(f32::NEG_INFINITY.to_bits()),
        },
    };
    let pos_inf = Provider::Const {
        val: TypedVal {
            ty: ValType::F32,
            val: UntypedVal::from_u32(f32::INFINITY.to_bits()),
        },
    };
    let nan = Provider::Const {
        val: TypedVal {
            ty: ValType::F32,
            val: UntypedVal::from_u32(f32::NAN.to_bits()),
        },
    };

    let mut t = FuncTranslator::new(1);
    let r = t.translate_f32_max(reg0, neg_inf);
    t.translate_return(r);
    assert_eq!(
        t.instrs,
        vec![Instruction::ReturnReg {
            value: Reg { value: 0 },
        }]
    );

    let mut t = FuncTranslator::new(1);
    let r = t.translate_f32_min(pos_inf, reg0);
    t.translate_return(r);
    assert_eq!(
        t.instrs,
        vec![Instruction::ReturnReg {
            value: Reg { value: 0 },
        }]
    );

    let mut t = FuncTranslator::new(1);
    let r = t.translate_f32_min(reg0, nan);
    t.translate_return(r);
    assert_eq!(
        t.instrs,
        vec![Instruction::ReturnImm32 {
            value: AnyConst32::from_u32(f32::NAN.to_bits()),
        }]
    );
}

/// The remaining SIMD surface: splat, extract-lane, shift-by-immediate and
/// any-true.
#[test]
fn simd_lane_ops() {
    // Splat then extract every lane.
    let instrs = vec![
        Instruction::I32x4Splat {
            result: Reg { value: 0 },
            input: Reg { value: 0 },
        },
        Instruction::I32x4ExtractLane {
            result: Reg { value: 1 },
            input: Reg { value: 0 },
            lane: 3,
        },
        Instruction::ReturnReg {
            value: Reg { value: 1 },
        },
    ];
    let regs = vec![cell_u64(0xDEAD_BEEF), cell_i32(0)];
    let simd_regs = vec![V128::from_bits(0)];
    let mut exec = Executor::new(instrs, Vec::new(), regs, simd_regs);
    let mut store = StoreInner::new(0);
    let r = exec.run(&mut store, 10);
    assert_eq!(
        r,
        StepResult::Returned {
            value: UntypedVal::from_u32(0xDEAD_BEEF),
        }
    );

    // Shift both 64-bit lanes left.
    let instrs = vec![Instruction::I64x2ShlBy {
        result: Reg { value: 0 },
        lhs: Reg { value: 0 },
        amount: 8,
    }];
    let simd_regs = vec![V128::from_bits((3u128 << 64) | 5u128)];
    let mut exec = Executor::new(instrs, Vec::new(), Vec::new(), simd_regs);
    let mut store = StoreInner::new(0);
    assert_eq!(exec.step(&mut store), StepResult::Continue);
    assert_eq!(exec.simd_regs[0].to_bits(), ((3u128 << 8) << 64) | (5u128 << 8));

    // Any-true over a zero and a non-zero vector.
    let instrs = vec![
        Instruction::V128AnyTrue {
            result: Reg { value: 0 },
            input: Reg { value: 0 },
        },
        Instruction::ReturnReg {
            value: Reg { value: 0 },
        },
    ];
    for (bits, expect) in [(0u128, 0u64), (1u128 << 100, 1u64)] {
        let regs = vec![cell_i32(7)];
        let simd_regs = vec![V128::from_bits(bits)];
        let mut exec = Executor::new(instrs.clone(), Vec::new(), regs, simd_regs);
        let mut store = StoreInner::new(0);
        let r = exec.run(&mut store, 10);
        assert_eq!(
            r,
            StepResult::Returned {
                value: UntypedVal::from_u64(expect),
            }
        );
    }
}

/// An inconsistent stream — a missing trailing parameter slot — surfaces
/// as a defensive `UnreachableCodeReached` trap rather than proceeding.
#[test]
fn defensive_trap_on_bad_stream() {
    let instrs = vec![Instruction::Select {
        result: Reg { value: 1 },
        condition: Reg { value: 0 },
        lhs: Reg { value: 0 },
    }];
    let regs = vec![cell_i32(1), cell_i32(0)];
    let mut exec = Executor::new(instrs, Vec::new(), regs, no_simd());
    let mut store = StoreInner::new(0);
    assert_eq!(
        exec.step(&mut store),
        StepResult::Trapped {
            trap_code: TrapCode::UnreachableCodeReached,
        }
    );
}

/// A `trap` opcode surfaces its code unchanged, whatever it is.
#[test]
fn trap_opcode() {
    for code in [
        TrapCode::UnreachableCodeReached,
        TrapCode::TableOutOfBounds,
        TrapCode::IndirectCallToNull,
        TrapCode::IntegerDivisionByZero,
        TrapCode::IntegerOverflow,
        TrapCode::BadConversionToInteger,
        TrapCode::StackOverflow,
    ] {
        let instrs = vec![Instruction::Trap { trap_code: code }];
        let mut exec = Executor::new(instrs, Vec::new(), Vec::new(), no_simd());
        let mut store = StoreInner::new(0);
        assert_eq!(exec.step(&mut store), StepResult::Trapped { trap_code: code });
    }
}

/// The translator's block-fuel accounting: the consume-fuel opcode ends up
/// charging the sum of the costs bumped into it.
#[test]
fn block_fuel_accounting() {
    let mut t = FuncTranslator::new(0);
    let idx = t.push_consume_fuel(1).unwrap();
    t.bump_fuel_consumption(idx, 2).unwrap();
    t.bump_fuel_consumption(idx, 3).unwrap();
    assert_eq!(
        t.instrs,
        vec![Instruction::ConsumeFuel {
            block_fuel: BlockFuel { value: 6 },
        }]
    );
    // Executing the block charges exactly that sum.
    let mut exec = Executor::new(t.instrs.clone(), Vec::new(), Vec::new(), no_simd());
    let mut store = StoreInner::new(10);
    assert_eq!(exec.step(&mut store), StepResult::Continue);
    assert_eq!(store.fuel, 4);
}
