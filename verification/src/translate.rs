//! The translator: lowers stack-form source instructions into register-form
//! IR, applying algebraic simplifications and immediate folding.
//!
//! The translator is handed *providers* — operands whose provenance is
//! either a register or a constant known at translate time — and emits
//! encoded instructions, allocating constant-pool slots (named by negative
//! register ids) for immediates that do not fit inline.  It works on a
//! validated source stream: operand types match the operation.

use vstd::prelude::*;
use crate::instr::{AnyConst32, F64Imm32, Instruction, Reg, spec_f64imm32_encodable};
use crate::ir::{BlockFuel, BranchOffset, BranchOffset16, Comparator, ComparatorAndOffset, IrError};
use crate::value::UntypedVal;

verus! {

/// The greatest number of constant-pool slots a function may use: slot ids
/// must fit the negative half of a 16-bit register id.
pub const MAX_CONST_SLOTS: usize = 0x8000;

/// The type of a source-level value.
#[derive(Debug, Copy, Clone, PartialEq, Eq, Structural)]
pub enum ValType {
    /// A 32-bit integer.
    I32,
    /// A 64-bit integer.
    I64,
    /// A 32-bit float.
    F32,
    /// A 64-bit float.
    F64,
    /// A function reference.
    FuncRef,
    /// An external reference.
    ExternRef,
}

/// A typed constant value: its type and its value cell.
#[derive(Debug, Copy, Clone, PartialEq, Eq, Structural)]
pub struct TypedVal {
    /// The source-level type of the value.
    pub ty: ValType,
    /// The value cell; floats are carried as their bit patterns.
    pub val: UntypedVal,
}

/// The provenance of an operand on the translator's stack: a register of
/// the frame, or a constant known at translate time.
#[derive(Debug, Copy, Clone, PartialEq, Eq, Structural)]
pub enum Provider {
    /// The operand lives in a register.
    Register {
        /// The register holding the operand.
        reg: Reg,
    },
    /// The operand is a constant known at translate time.
    Const {
        /// The constant.
        val: TypedVal,
    },
}

/// The first constant-pool slot holding `val`, or `-1` if none does.
pub open spec fn spec_find_const(s: Seq<UntypedVal>, val: UntypedVal) -> int
    decreases s.len(),
{
    if s.len() == 0 {
        -1
    } else if s[0] == val {
        0
    } else {
        let r = spec_find_const(s.drop_first(), val);
        if r == -1 {
            -1
        } else {
            r + 1
        }
    }
}

/// The constant pool after `val` is interned: unchanged if some slot
/// already holds it, extended by one slot otherwise.
pub open spec fn spec_pool_after(consts: Seq<UntypedVal>, val: UntypedVal) -> Seq<UntypedVal> {
    if spec_find_const(consts, val) >= 0 {
        consts
    } else {
        consts.push(val)
    }
}

/// The slot that holds `val` after it is interned.
pub open spec fn spec_pool_slot(consts: Seq<UntypedVal>, val: UntypedVal) -> int {
    if spec_find_const(consts, val) >= 0 {
        spec_find_const(consts, val)
    } else {
        consts.len() as int
    }
}

/// The register id naming constant-pool slot `slot`.
pub open spec fn spec_pool_reg(slot: int) -> Reg {
    Reg { value: (-1 - slot) as i16 }
}

/// A single-pass translator for one function: the instructions emitted so
/// far, the function-level constant pool, and the frame layout.
pub struct FuncTranslator {
    /// The encoded instructions emitted so far.
    pub instrs: Vec<Instruction>,
    /// The function-level constant pool.
    pub consts: Vec<UntypedVal>,
    /// The number of local registers (parameters included); the result of
    /// a lowered expression lands in the slot just above them.
    pub locals: i16,
}

impl FuncTranslator {
    /// The register where a lowered expression's result lands.
    pub open spec fn spec_result_reg(self) -> Reg {
        Reg { value: self.locals }
    }

    /// Creates a translator for a function with `locals` local registers.
    pub fn new(locals: i16) -> (r: Self)
        requires
            locals >= 0,
        ensures
            r.instrs@ == Seq::<Instruction>::empty(),
            r.consts@ == Seq::<UntypedVal>::empty(),
            r.locals == locals,
    {
        FuncTranslator { instrs: Vec::new(), consts: Vec::new(), locals }
    }

    /// Returns the register where a lowered expression's result lands.
    pub fn result_reg(&self) -> (r: Reg)
        ensures
            r == self.spec_result_reg(),
    {
        Reg { value: self.locals }
    }

    /// Interns a constant in the function's pool, deduplicating, and
    /// returns the negative register id naming its slot.
    pub fn alloc_const(&mut self, val: UntypedVal) -> (r: Reg)
        requires
            old(self).consts.len() < MAX_CONST_SLOTS,
        ensures
            r == spec_pool_reg(spec_pool_slot(old(self).consts@, val)),
            r.spec_const_slot() == spec_pool_slot(old(self).consts@, val),
            final(self).consts@ == spec_pool_after(old(self).consts@, val),
            final(self).instrs == old(self).instrs,
            final(self).locals == old(self).locals,
    {
        let n: usize = self.consts.len();
        let mut i: usize = 0;
        while i < n
            invariant
                i <= n,
                n == self.consts.len(),
                n < MAX_CONST_SLOTS,
                *self == *old(self),
                forall|j: int| 0 <= j < i ==> self.consts@[j] != val,
            decreases n - i,
        {
            if self.consts[i] == val {
                proof {
                    lemma_find_const_at(self.consts@, val, i as int);
                    assert(spec_find_const(self.consts@, val) == i);
                }
                let regval: i16 = (-1 - (i as i32)) as i16;
                return Reg { value: regval };
            }
            i = i + 1;
        }
        proof {
            lemma_find_const_none(self.consts@, val);
            assert(spec_find_const(self.consts@, val) == -1);
        }
        let slot: usize = self.consts.len();
        self.consts.push(val);
        let regval: i16 = (-1 - (slot as i32)) as i16;
        Reg { value: regval }
    }
}

/// If the prefix below `i` misses `val` and slot `i` holds it, `i` is the
/// first slot holding it.
proof fn lemma_find_const_at(s: Seq<UntypedVal>, val: UntypedVal, i: int)
    requires
        0 <= i < s.len(),
        s[i] == val,
        forall|j: int| 0 <= j < i ==> s[j] != val,
    ensures
        spec_find_const(s, val) == i,
    decreases i,
{
    if i == 0 {
    } else {
        lemma_find_const_at(s.drop_first(), val, i - 1);
    }
}

/// If no slot holds `val`, the lookup misses.
proof fn lemma_find_const_none(s: Seq<UntypedVal>, val: UntypedVal)
    requires
        forall|j: int| 0 <= j < s.len() ==> s[j] != val,
    ensures
        spec_find_const(s, val) == -1,
    decreases s.len(),
{
    if s.len() > 0 {
        lemma_find_const_none(s.drop_first(), val);
    }
}

/// Whether a 64-bit integer constant's cell fits a sign-extended 32-bit
/// immediate.
pub open spec fn spec_i64_fits_imm32(bits: u64) -> bool {
    (bits as i64) as i32 as i64 == bits as i64
}

/// Whether the 64-bit integer cell `bits` fits a sign-extended 32-bit
/// immediate.
pub fn i64_fits_imm32(bits: u64) -> (r: bool)
    ensures
        r == spec_i64_fits_imm32(bits),
{
    let v: i64 = bits as i64;
    (v as i32) as i64 == v
}

/// The effect of lowering a return of provider `p`: a register returns by
/// id; a 32-bit constant returns inline; a 64-bit constant returns inline
/// when it fits a 32-bit immediate and otherwise through the constant pool.
pub open spec fn spec_return_lowering(
    pre: FuncTranslator,
    post: FuncTranslator,
    p: Provider,
) -> bool {
    match p {
        Provider::Register { reg } => {
            &&& post.instrs@ == pre.instrs@.push((Instruction::ReturnReg { value: reg }))
            &&& post.consts == pre.consts
            &&& post.locals == pre.locals
        },
        Provider::Const { val } => {
            match val.ty {
                ValType::I32 | ValType::F32 => {
                    &&& post.instrs@ == pre.instrs@.push(
                        (Instruction::ReturnImm32 {
                            value: (AnyConst32 { bits: val.val.bits as u32 }),
                        }),
                    )
                    &&& post.consts == pre.consts
                    &&& post.locals == pre.locals
                },
                ValType::I64 => {
                    if spec_i64_fits_imm32(val.val.bits) {
                        &&& post.instrs@ == pre.instrs@.push(
                            (Instruction::ReturnI64Imm32 { value: val.val.bits as i32 }),
                        )
                        &&& post.consts == pre.consts
                        &&& post.locals == pre.locals
                    } else {
                        spec_return_pooled(pre, post, val.val)
                    }
                },
                ValType::F64 => {
                    if spec_f64imm32_encodable(val.val.bits) {
                        &&& post.instrs@ == pre.instrs@.push(
                            (Instruction::ReturnF64Imm32 {
                                value: (F64Imm32 { hi: (val.val.bits >> 32) as u32 }),
                            }),
                        )
                        &&& post.consts == pre.consts
                        &&& post.locals == pre.locals
                    } else {
                        spec_return_pooled(pre, post, val.val)
                    }
                },
                ValType::FuncRef | ValType::ExternRef => spec_return_pooled(pre, post, val.val),
            }
        },
    }
}

/// The effect of returning a constant through the pool: intern it and
/// return the register naming its slot.
pub open spec fn spec_return_pooled(
    pre: FuncTranslator,
    post: FuncTranslator,
    val: UntypedVal,
) -> bool {
    &&& post.instrs@ == pre.instrs@.push(
        (Instruction::ReturnReg { value: spec_pool_reg(spec_pool_slot(pre.consts@, val)) }),
    )
    &&& post.consts@ == spec_pool_after(pre.consts@, val)
    &&& post.locals == pre.locals
}

impl FuncTranslator {
    /// Lowers a return of the given provider.
    pub fn translate_return(&mut self, p: Provider)
        requires
            old(self).consts.len() < MAX_CONST_SLOTS,
        ensures
            spec_return_lowering(*old(self), *final(self), p),
    {
        match p {
            Provider::Register { reg } => {
                self.instrs.push(Instruction::ReturnReg { value: reg });
            },
            Provider::Const { val } => {
                match val.ty {
                    ValType::I32 | ValType::F32 => {
                        let bits32: u32 = val.val.as_u32();
                        self.instrs.push(
                            Instruction::ReturnImm32 { value: AnyConst32 { bits: bits32 } },
                        );
                    },
                    ValType::I64 => {
                        if i64_fits_imm32(val.val.as_u64()) {
                            let v: i32 = val.val.as_u64() as i32;
                            self.instrs.push(Instruction::ReturnI64Imm32 { value: v });
                        } else {
                            let reg = self.alloc_const(val.val);
                            self.instrs.push(Instruction::ReturnReg { value: reg });
                        }
                    },
                    ValType::F64 => {
                        match F64Imm32::try_from_bits(val.val.as_u64()) {
                            Some(imm) => {
                                self.instrs.push(Instruction::ReturnF64Imm32 { value: imm });
                            },
                            None => {
                                let reg = self.alloc_const(val.val);
                                self.instrs.push(Instruction::ReturnReg { value: reg });
                            },
                        }
                    },
                    ValType::FuncRef | ValType::ExternRef => {
                        let reg = self.alloc_const(val.val);
                        self.instrs.push(Instruction::ReturnReg { value: reg });
                    },
                }
            },
        }
    }

    /// Lowers a `memory.size` of the default memory: the size lands in the
    /// result register.
    pub fn translate_memory_size(&mut self) -> (r: Provider)
        ensures
            final(self).instrs@ == old(self).instrs@.push(
                (Instruction::MemorySize { result: old(self).spec_result_reg() }),
            ),
            final(self).consts == old(self).consts,
            final(self).locals == old(self).locals,
            r == (Provider::Register { reg: old(self).spec_result_reg() }),
    {
        let result = self.result_reg();
        self.instrs.push(Instruction::MemorySize { result });
        Provider::Register { reg: result }
    }
}

/// Whether `post` is `pre` unchanged.
pub open spec fn spec_unchanged(pre: FuncTranslator, post: FuncTranslator) -> bool {
    post == pre
}

/// Whether `post` is `pre` with one instruction emitted and the pool
/// untouched.
pub open spec fn spec_emit1(pre: FuncTranslator, post: FuncTranslator, a: Instruction) -> bool {
    &&& post.instrs@ == pre.instrs@.push(a)
    &&& post.consts == pre.consts
    &&& post.locals == pre.locals
}

/// Whether `post` is `pre` with two instructions emitted and the pool
/// untouched.
pub open spec fn spec_emit2(
    pre: FuncTranslator,
    post: FuncTranslator,
    a: Instruction,
    b: Instruction,
) -> bool {
    &&& post.instrs@ == pre.instrs@.push(a).push(b)
    &&& post.consts == pre.consts
    &&& post.locals == pre.locals
}

/// Whether `post` is `pre` with one instruction emitted and `val` interned
/// in the pool.
pub open spec fn spec_emit1_pool(
    pre: FuncTranslator,
    post: FuncTranslator,
    a: Instruction,
    val: UntypedVal,
) -> bool {
    &&& post.instrs@ == pre.instrs@.push(a)
    &&& post.consts@ == spec_pool_after(pre.consts@, val)
    &&& post.locals == pre.locals
}

/// An `i32` constant provider holding `bits`.
pub open spec fn spec_const_i32(bits: u64) -> Provider {
    Provider::Const { val: (TypedVal { ty: ValType::I32, val: (UntypedVal { bits }) }) }
}

/// An `f64` constant provider holding `bits`.
pub open spec fn spec_const_f64(bits: u64) -> Provider {
    Provider::Const { val: (TypedVal { ty: ValType::F64, val: (UntypedVal { bits }) }) }
}

/// An `f32` constant provider holding `bits` in its low half.
pub open spec fn spec_const_f32(bits: u64) -> Provider {
    Provider::Const { val: (TypedVal { ty: ValType::F32, val: (UntypedVal { bits }) }) }
}

/// Whether a provider is usable as an `i32` operand: registers always,
/// constants when typed `i32`.
pub open spec fn spec_prov_typed(p: Provider, ty: ValType) -> bool {
    match p {
        Provider::Register { reg } => true,
        Provider::Const { val } => val.ty == ty,
    }
}

/// The effect of lowering `i32.mul` with a register and a constant
/// operand: multiplication by zero folds to zero, by one to the register;
/// a constant that fits 16 bits uses the immediate form, any other goes
/// through the pool.
pub open spec fn spec_i32_mul_reg_const(
    pre: FuncTranslator,
    post: FuncTranslator,
    x: Reg,
    c: u64,
    r: Provider,
) -> bool {
    if c as i32 == 0 {
        &&& spec_unchanged(pre, post)
        &&& r == spec_const_i32(0)
    } else if c as i32 == 1 {
        &&& spec_unchanged(pre, post)
        &&& r == (Provider::Register { reg: x })
    } else if i16::MIN <= c as i32 <= i16::MAX {
        &&& spec_emit1(
            pre,
            post,
            (Instruction::I32MulImm16 {
                result: pre.spec_result_reg(),
                lhs: x,
                rhs: (c as i32) as i16,
            }),
        )
        &&& r == (Provider::Register { reg: pre.spec_result_reg() })
    } else {
        &&& spec_emit1_pool(
            pre,
            post,
            (Instruction::I32Mul {
                result: pre.spec_result_reg(),
                lhs: x,
                rhs: spec_pool_reg(spec_pool_slot(pre.consts@, (UntypedVal { bits: c }))),
            }),
            (UntypedVal { bits: c }),
        )
        &&& r == (Provider::Register { reg: pre.spec_result_reg() })
    }
}

/// The effect of lowering `i32.mul` over two providers: two constants fold
/// at translate time; a constant operand is normalized to the right-hand
/// side and handled by [`spec_i32_mul_reg_const`]; two registers use the
/// register form.
pub open spec fn spec_i32_mul_lowering(
    pre: FuncTranslator,
    post: FuncTranslator,
    lhs: Provider,
    rhs: Provider,
    r: Provider,
) -> bool {
    match (lhs, rhs) {
        (Provider::Const { val: a }, Provider::Const { val: b }) => {
            &&& spec_unchanged(pre, post)
            &&& r == spec_const_i32(crate::executor::spec_i32_mul_cell(a.val.bits, b.val.bits))
        },
        (Provider::Register { reg: x }, Provider::Const { val: c }) => spec_i32_mul_reg_const(
            pre,
            post,
            x,
            c.val.bits,
            r,
        ),
        (Provider::Const { val: c }, Provider::Register { reg: x }) => spec_i32_mul_reg_const(
            pre,
            post,
            x,
            c.val.bits,
            r,
        ),
        (Provider::Register { reg: x }, Provider::Register { reg: y }) => {
            &&& spec_emit1(
                pre,
                post,
                (Instruction::I32Mul { result: pre.spec_result_reg(), lhs: x, rhs: y }),
            )
            &&& r == (Provider::Register { reg: pre.spec_result_reg() })
        },
    }
}

/// The effect of lowering `f64.max` with a register and a constant
/// operand: a NaN constant wins outright, `-inf` folds to the register,
/// any other constant goes through the pool.
pub open spec fn spec_f64_max_reg_const(
    pre: FuncTranslator,
    post: FuncTranslator,
    x: Reg,
    c: u64,
    r: Provider,
) -> bool {
    if crate::fbits::spec_f64_is_nan(c) {
        &&& spec_unchanged(pre, post)
        &&& r == spec_const_f64(c)
    } else if c == crate::fbits::F64_NEG_INF_BITS {
        &&& spec_unchanged(pre, post)
        &&& r == (Provider::Register { reg: x })
    } else {
        &&& spec_emit1_pool(
            pre,
            post,
            (Instruction::F64Max {
                result: pre.spec_result_reg(),
                lhs: x,
                rhs: spec_pool_reg(spec_pool_slot(pre.consts@, (UntypedVal { bits: c }))),
            }),
            (UntypedVal { bits: c }),
        )
        &&& r == (Provider::Register { reg: pre.spec_result_reg() })
    }
}

/// The effect of lowering `f64.max` over two providers.
pub open spec fn spec_f64_max_lowering(
    pre: FuncTranslator,
    post: FuncTranslator,
    lhs: Provider,
    rhs: Provider,
    r: Provider,
) -> bool {
    match (lhs, rhs) {
        (Provider::Const { val: a }, Provider::Const { val: b }) => {
            &&& spec_unchanged(pre, post)
            &&& r == spec_const_f64(crate::fbits::spec_f64_max_bits(a.val.bits, b.val.bits))
        },
        (Provider::Register { reg: x }, Provider::Const { val: c }) => spec_f64_max_reg_const(
            pre,
            post,
            x,
            c.val.bits,
            r,
        ),
        (Provider::Const { val: c }, Provider::Register { reg: x }) => spec_f64_max_reg_const(
            pre,
            post,
            x,
            c.val.bits,
            r,
        ),
        (Provider::Register { reg: x }, Provider::Register { reg: y }) => {
            &&& spec_emit1(
                pre,
                post,
                (Instruction::F64Max { result: pre.spec_result_reg(), lhs: x, rhs: y }),
            )
            &&& r == (Provider::Register { reg: pre.spec_result_reg() })
        },
    }
}

/// The effect of lowering `f32.max` with a register and a constant
/// operand: a NaN constant wins outright, `-inf` folds to the register,
/// any other constant goes through the pool.
pub open spec fn spec_f32_max_reg_const(
    pre: FuncTranslator,
    post: FuncTranslator,
    x: Reg,
    c: u64,
    r: Provider,
) -> bool {
    if crate::fbits::spec_f32_is_nan(c as u32) {
        &&& spec_unchanged(pre, post)
        &&& r == spec_const_f32(c)
    } else if c as u32 == crate::fbits::F32_NEG_INF_BITS {
        &&& spec_unchanged(pre, post)
        &&& r == (Provider::Register { reg: x })
    } else {
        &&& spec_emit1_pool(
            pre,
            post,
            (Instruction::F32Max {
                result: pre.spec_result_reg(),
                lhs: x,
                rhs: spec_pool_reg(spec_pool_slot(pre.consts@, (UntypedVal { bits: c }))),
            }),
            (UntypedVal { bits: c }),
        )
        &&& r == (Provider::Register { reg: pre.spec_result_reg() })
    }
}

/// The effect of lowering `f32.max` over two providers.
pub open spec fn spec_f32_max_lowering(
    pre: FuncTranslator,
    post: FuncTranslator,
    lhs: Provider,
    rhs: Provider,
    r: Provider,
) -> bool {
    match (lhs, rhs) {
        (Provider::Const { val: a }, Provider::Const { val: b }) => {
            &&& spec_unchanged(pre, post)
            &&& r == spec_const_f32(
                crate::fbits::spec_f32_max_bits(a.val.bits as u32, b.val.bits as u32) as u64,
            )
        },
        (Provider::Register { reg: x }, Provider::Const { val: c }) => spec_f32_max_reg_const(
            pre,
            post,
            x,
            c.val.bits,
            r,
        ),
        (Provider::Const { val: c }, Provider::Register { reg: x }) => spec_f32_max_reg_const(
            pre,
            post,
            x,
            c.val.bits,
            r,
        ),
        (Provider::Register { reg: x }, Provider::Register { reg: y }) => {
            &&& spec_emit1(
                pre,
                post,
                (Instruction::F32Max { result: pre.spec_result_reg(), lhs: x, rhs: y }),
            )
            &&& r == (Provider::Register { reg: pre.spec_result_reg() })
        },
    }
}

/// The effect of lowering `f32.min` with a register and a constant
/// operand: a NaN constant wins outright, `+inf` folds to the register,
/// any other constant goes through the pool.
pub open spec fn spec_f32_min_reg_const(
    pre: FuncTranslator,
    post: FuncTranslator,
    x: Reg,
    c: u64,
    r: Provider,
) -> bool {
    if crate::fbits::spec_f32_is_nan(c as u32) {
        &&& spec_unchanged(pre, post)
        &&& r == spec_const_f32(c)
    } else if c as u32 == crate::fbits::F32_POS_INF_BITS {
        &&& spec_unchanged(pre, post)
        &&& r == (Provider::Register { reg: x })
    } else {
        &&& spec_emit1_pool(
            pre,
            post,
            (Instruction::F32Min {
                result: pre.spec_result_reg(),
                lhs: x,
                rhs: spec_pool_reg(spec_pool_slot(pre.consts@, (UntypedVal { bits: c }))),
            }),
            (UntypedVal { bits: c }),
        )
        &&& r == (Provider::Register { reg: pre.spec_result_reg() })
    }
}

/// The effect of lowering `f32.min` over two providers.
pub open spec fn spec_f32_min_lowering(
    pre: FuncTranslator,
    post: FuncTranslator,
    lhs: Provider,
    rhs: Provider,
    r: Provider,
) -> bool {
    match (lhs, rhs) {
        (Provider::Const { val: a }, Provider::Const { val: b }) => {
            &&& spec_unchanged(pre, post)
            &&& r == spec_const_f32(
                crate::fbits::spec_f32_min_bits(a.val.bits as u32, b.val.bits as u32) as u64,
            )
        },
        (Provider::Register { reg: x }, Provider::Const { val: c }) => spec_f32_min_reg_const(
            pre,
            post,
            x,
            c.val.bits,
            r,
        ),
        (Provider::Const { val: c }, Provider::Register { reg: x }) => spec_f32_min_reg_const(
            pre,
            post,
            x,
            c.val.bits,
            r,
        ),
        (Provider::Register { reg: x }, Provider::Register { reg: y }) => {
            &&& spec_emit1(
                pre,
                post,
                (Instruction::F32Min { result: pre.spec_result_reg(), lhs: x, rhs: y }),
            )
            &&& r == (Provider::Register { reg: pre.spec_result_reg() })
        },
    }
}

impl FuncTranslator {
    /// Lowers `i32.mul` over two providers, folding constants and the
    /// algebraic identities `x * 0` and `x * 1` at translate time.
    pub fn translate_i32_mul(&mut self, lhs: Provider, rhs: Provider) -> (r: Provider)
        requires
            old(self).consts.len() < MAX_CONST_SLOTS,
            spec_prov_typed(lhs, ValType::I32),
            spec_prov_typed(rhs, ValType::I32),
        ensures
            spec_i32_mul_lowering(*old(self), *final(self), lhs, rhs, r),
    {
        match (lhs, rhs) {
            (Provider::Const { val: a }, Provider::Const { val: b }) => {
                let prod: i32 = a.val.as_i32().wrapping_mul(b.val.as_i32());
                Provider::Const {
                    val: TypedVal { ty: ValType::I32, val: UntypedVal::from_i32(prod) },
                }
            },
            (Provider::Register { reg: x }, Provider::Const { val: c }) => self
                .translate_i32_mul_reg_const(x, c.val),
            (Provider::Const { val: c }, Provider::Register { reg: x }) => self
                .translate_i32_mul_reg_const(x, c.val),
            (Provider::Register { reg: x }, Provider::Register { reg: y }) => {
                let result = self.result_reg();
                self.instrs.push(Instruction::I32Mul { result, lhs: x, rhs: y });
                Provider::Register { reg: result }
            },
        }
    }

    /// Lowers `i32.mul` of a register and a constant.
    fn translate_i32_mul_reg_const(&mut self, x: Reg, c: UntypedVal) -> (r: Provider)
        requires
            old(self).consts.len() < MAX_CONST_SLOTS,
        ensures
            spec_i32_mul_reg_const(*old(self), *final(self), x, c.bits, r),
    {
        let cv: i32 = c.as_i32();
        if cv == 0 {
            Provider::Const { val: TypedVal { ty: ValType::I32, val: UntypedVal::from_u64(0) } }
        } else if cv == 1 {
            Provider::Register { reg: x }
        } else if i16::MIN as i32 <= cv && cv <= i16::MAX as i32 {
            let result = self.result_reg();
            self.instrs.push(Instruction::I32MulImm16 { result, lhs: x, rhs: cv as i16 });
            Provider::Register { reg: result }
        } else {
            let result = self.result_reg();
            let pool = self.alloc_const(UntypedVal::from_u64(c.as_u64()));
            self.instrs.push(Instruction::I32Mul { result, lhs: x, rhs: pool });
            Provider::Register { reg: result }
        }
    }

    /// Lowers `f64.max` over two providers, folding constants and the
    /// algebraic identities `max(x, NaN)` and `max(x, -inf)` at translate
    /// time.
    pub fn translate_f64_max(&mut self, lhs: Provider, rhs: Provider) -> (r: Provider)
        requires
            old(self).consts.len() < MAX_CONST_SLOTS,
            spec_prov_typed(lhs, ValType::F64),
            spec_prov_typed(rhs, ValType::F64),
        ensures
            spec_f64_max_lowering(*old(self), *final(self), lhs, rhs, r),
    {
        match (lhs, rhs) {
            (Provider::Const { val: a }, Provider::Const { val: b }) => {
                let folded: u64 = crate::fbits::f64_max_bits(a.val.as_u64(), b.val.as_u64());
                Provider::Const {
                    val: TypedVal { ty: ValType::F64, val: UntypedVal::from_u64(folded) },
                }
            },
            (Provider::Register { reg: x }, Provider::Const { val: c }) => self
                .translate_f64_max_reg_const(x, c.val),
            (Provider::Const { val: c }, Provider::Register { reg: x }) => self
                .translate_f64_max_reg_const(x, c.val),
            (Provider::Register { reg: x }, Provider::Register { reg: y }) => {
                let result = self.result_reg();
                self.instrs.push(Instruction::F64Max { result, lhs: x, rhs: y });
                Provider::Register { reg: result }
            },
        }
    }

    /// Lowers `f64.max` of a register and a constant.
    fn translate_f64_max_reg_const(&mut self, x: Reg, c: UntypedVal) -> (r: Provider)
        requires
            old(self).consts.len() < MAX_CONST_SLOTS,
        ensures
            spec_f64_max_reg_const(*old(self), *final(self), x, c.bits, r),
    {
        let bits: u64 = c.as_u64();
        if crate::fbits::f64_is_nan(bits) {
            Provider::Const { val: TypedVal { ty: ValType::F64, val: UntypedVal::from_u64(bits) } }
        } else if bits == crate::fbits::F64_NEG_INF_BITS {
            Provider::Register { reg: x }
        } else {
            let result = self.result_reg();
            let pool = self.alloc_const(UntypedVal::from_u64(bits));
            self.instrs.push(Instruction::F64Max { result, lhs: x, rhs: pool });
            Provider::Register { reg: result }
        }
    }

    /// Lowers `f32.max` over two providers, folding constants and the
    /// algebraic identities `max(x, NaN)` and `max(x, -inf)` at translate
    /// time.
    pub fn translate_f32_max(&mut self, lhs: Provider, rhs: Provider) -> (r: Provider)
        requires
            old(self).consts.len() < MAX_CONST_SLOTS,
            spec_prov_typed(lhs, ValType::F32),
            spec_prov_typed(rhs, ValType::F32),
        ensures
            spec_f32_max_lowering(*old(self), *final(self), lhs, rhs, r),
    {
        match (lhs, rhs) {
            (Provider::Const { val: a }, Provider::Const { val: b }) => {
                let folded: u32 = crate::fbits::f32_max_bits(a.val.as_u32(), b.val.as_u32());
                Provider::Const {
                    val: TypedVal { ty: ValType::F32, val: UntypedVal::from_u32(folded) },
                }
            },
            (Provider::Register { reg: x }, Provider::Const { val: c }) => self
                .translate_f32_max_reg_const(x, c.val),
            (Provider::Const { val: c }, Provider::Register { reg: x }) => self
                .translate_f32_max_reg_const(x, c.val),
            (Provider::Register { reg: x }, Provider::Register { reg: y }) => {
                let result = self.result_reg();
                self.instrs.push(Instruction::F32Max { result, lhs: x, rhs: y });
                Provider::Register { reg: result }
            },
        }
    }

    /// Lowers `f32.max` of a register and a constant.
    fn translate_f32_max_reg_const(&mut self, x: Reg, c: UntypedVal) -> (r: Provider)
        requires
            old(self).consts.len() < MAX_CONST_SLOTS,
        ensures
            spec_f32_max_reg_const(*old(self), *final(self), x, c.bits, r),
    {
        let bits32: u32 = c.as_u32();
        if crate::fbits::f32_is_nan(bits32) {
            Provider::Const { val: TypedVal { ty: ValType::F32, val: UntypedVal { bits: c.bits } } }
        } else if bits32 == crate::fbits::F32_NEG_INF_BITS {
            Provider::Register { reg: x }
        } else {
            let result = self.result_reg();
            let pool = self.alloc_const(UntypedVal { bits: c.bits });
            self.instrs.push(Instruction::F32Max { result, lhs: x, rhs: pool });
            Provider::Register { reg: result }
        }
    }

    /// Lowers `f32.min` over two providers, folding constants and the
    /// algebraic identities `min(x, NaN)` and `min(x, +inf)` at translate
    /// time.
    pub fn translate_f32_min(&mut self, lhs: Provider, rhs: Provider) -> (r: Provider)
        requires
            old(self).consts.len() < MAX_CONST_SLOTS,
            spec_prov_typed(lhs, ValType::F32),
            spec_prov_typed(rhs, ValType::F32),
        ensures
            spec_f32_min_lowering(*old(self), *final(self), lhs, rhs, r),
    {
        match (lhs, rhs) {
            (Provider::Const { val: a }, Provider::Const { val: b }) => {
                let folded: u32 = crate::fbits::f32_min_bits(a.val.as_u32(), b.val.as_u32());
                Provider::Const {
                    val: TypedVal { ty: ValType::F32, val: UntypedVal::from_u32(folded) },
                }
            },
            (Provider::Register { reg: x }, Provider::Const { val: c }) => self
                .translate_f32_min_reg_const(x, c.val),
            (Provider::Const { val: c }, Provider::Register { reg: x }) => self
                .translate_f32_min_reg_const(x, c.val),
            (Provider::Register { reg: x }, Provider::Register { reg: y }) => {
                let result = self.result_reg();
                self.instrs.push(Instruction::F32Min { result, lhs: x, rhs: y });
                Provider::Register { reg: result }
            },
        }
    }

    /// Lowers `f32.min` of a register and a constant.
    fn translate_f32_min_reg_const(&mut self, x: Reg, c: UntypedVal) -> (r: Provider)
        requires
            old(self).consts.len() < MAX_CONST_SLOTS,
        ensures
            spec_f32_min_reg_const(*old(self), *final(self), x, c.bits, r),
    {
        let bits32: u32 = c.as_u32();
        if crate::fbits::f32_is_nan(bits32) {
            Provider::Const { val: TypedVal { ty: ValType::F32, val: UntypedVal { bits: c.bits } } }
        } else if bits32 == crate::fbits::F32_POS_INF_BITS {
            Provider::Register { reg: x }
        } else {
            let result = self.result_reg();
            let pool = self.alloc_const(UntypedVal { bits: c.bits });
            self.instrs.push(Instruction::F32Min { result, lhs: x, rhs: pool });
            Provider::Register { reg: result }
        }
    }
}

/// The effect of lowering a `select` whose chosen-on-true operand is the
/// register `x` and whose other operand is the constant `c` (or, with
/// `rev`, the other way round): the constant rides in the trailing
/// parameter slot, inline when it fits 32 bits and through the pool
/// otherwise.
pub open spec fn spec_select_reg_const(
    pre: FuncTranslator,
    post: FuncTranslator,
    condition: Reg,
    x: Reg,
    c: TypedVal,
    rev: bool,
    r: Provider,
) -> bool {
    let sel: Instruction = if rev {
        Instruction::SelectRev { result: pre.spec_result_reg(), condition, rhs: x }
    } else {
        Instruction::Select { result: pre.spec_result_reg(), condition, lhs: x }
    };
    &&& r == (Provider::Register { reg: pre.spec_result_reg() })
    &&& match c.ty {
        ValType::I32 | ValType::F32 => spec_emit2(
            pre,
            post,
            sel,
            (Instruction::Const32 { value: (AnyConst32 { bits: c.val.bits as u32 }) }),
        ),
        ValType::I64 => {
            if spec_i64_fits_imm32(c.val.bits) {
                spec_emit2(pre, post, sel, (Instruction::I64Const32 { value: c.val.bits as i32 }))
            } else {
                spec_select_param_pooled(pre, post, sel, c.val)
            }
        },
        ValType::F64 => {
            if spec_f64imm32_encodable(c.val.bits) {
                spec_emit2(
                    pre,
                    post,
                    sel,
                    (Instruction::F64Const32 {
                        value: (F64Imm32 { hi: (c.val.bits >> 32) as u32 }),
                    }),
                )
            } else {
                spec_select_param_pooled(pre, post, sel, c.val)
            }
        },
        ValType::FuncRef | ValType::ExternRef => spec_select_param_pooled(pre, post, sel, c.val),
    }
}

/// The effect of emitting a select whose trailing operand goes through the
/// pool.
pub open spec fn spec_select_param_pooled(
    pre: FuncTranslator,
    post: FuncTranslator,
    sel: Instruction,
    val: UntypedVal,
) -> bool {
    &&& post.instrs@ == pre.instrs@.push(sel).push(
        (Instruction::Register { reg: spec_pool_reg(spec_pool_slot(pre.consts@, val)) }),
    )
    &&& post.consts@ == spec_pool_after(pre.consts@, val)
    &&& post.locals == pre.locals
}

/// The effect of lowering a `select` of two distinct constants that do not
/// both fit 32-bit immediates: both go through the pool, named by the
/// trailing register slots of the general form.
pub open spec fn spec_select_pooled_pair(
    pre: FuncTranslator,
    post: FuncTranslator,
    condition: Reg,
    a: UntypedVal,
    b: UntypedVal,
    r: Provider,
) -> bool {
    let pool1 = spec_pool_after(pre.consts@, a);
    &&& post.instrs@ == pre.instrs@.push(
        (Instruction::Select {
            result: pre.spec_result_reg(),
            condition,
            lhs: spec_pool_reg(spec_pool_slot(pre.consts@, a)),
        }),
    ).push((Instruction::Register { reg: spec_pool_reg(spec_pool_slot(pool1, b)) }))
    &&& post.consts@ == spec_pool_after(pool1, b)
    &&& post.locals == pre.locals
    &&& r == (Provider::Register { reg: pre.spec_result_reg() })
}

/// The effect of lowering `select` over a condition register and two
/// providers: equal operands fold to the operand; two constants use the
/// two-slot immediate pairs where both fit, and the pool otherwise; a
/// mixed pair uses the register form (or its `rev` twin) with the constant
/// in the trailing slot; two registers use the general form.
pub open spec fn spec_select_lowering(
    pre: FuncTranslator,
    post: FuncTranslator,
    condition: Reg,
    lhs: Provider,
    rhs: Provider,
    r: Provider,
) -> bool {
    if lhs == rhs {
        &&& spec_unchanged(pre, post)
        &&& r == lhs
    } else {
        match (lhs, rhs) {
            (Provider::Const { val: a }, Provider::Const { val: b }) => {
                match a.ty {
                    ValType::I32 | ValType::F32 => {
                        &&& spec_emit2(
                            pre,
                            post,
                            (Instruction::SelectImm32 {
                                result_or_condition: pre.spec_result_reg(),
                                value: (AnyConst32 { bits: a.val.bits as u32 }),
                            }),
                            (Instruction::SelectImm32 {
                                result_or_condition: condition,
                                value: (AnyConst32 { bits: b.val.bits as u32 }),
                            }),
                        )
                        &&& r == (Provider::Register { reg: pre.spec_result_reg() })
                    },
                    ValType::I64 => {
                        if spec_i64_fits_imm32(a.val.bits) && spec_i64_fits_imm32(b.val.bits) {
                            &&& spec_emit2(
                                pre,
                                post,
                                (Instruction::SelectI64Imm32 {
                                    result_or_condition: pre.spec_result_reg(),
                                    value: a.val.bits as i32,
                                }),
                                (Instruction::SelectI64Imm32 {
                                    result_or_condition: condition,
                                    value: b.val.bits as i32,
                                }),
                            )
                            &&& r == (Provider::Register { reg: pre.spec_result_reg() })
                        } else {
                            spec_select_pooled_pair(pre, post, condition, a.val, b.val, r)
                        }
                    },
                    ValType::F64 => {
                        if spec_f64imm32_encodable(a.val.bits) && spec_f64imm32_encodable(
                            b.val.bits,
                        ) {
                            &&& spec_emit2(
                                pre,
                                post,
                                (Instruction::SelectF64Imm32 {
                                    result_or_condition: pre.spec_result_reg(),
                                    value: (F64Imm32 { hi: (a.val.bits >> 32) as u32 }),
                                }),
                                (Instruction::SelectF64Imm32 {
                                    result_or_condition: condition,
                                    value: (F64Imm32 { hi: (b.val.bits >> 32) as u32 }),
                                }),
                            )
                            &&& r == (Provider::Register { reg: pre.spec_result_reg() })
                        } else {
                            spec_select_pooled_pair(pre, post, condition, a.val, b.val, r)
                        }
                    },
                    ValType::FuncRef | ValType::ExternRef => spec_select_pooled_pair(
                        pre,
                        post,
                        condition,
                        a.val,
                        b.val,
                        r,
                    ),
                }
            },
            (Provider::Register { reg: x }, Provider::Const { val: c }) => spec_select_reg_const(
                pre,
                post,
                condition,
                x,
                c,
                false,
                r,
            ),
            (Provider::Const { val: c }, Provider::Register { reg: y }) => spec_select_reg_const(
                pre,
                post,
                condition,
                y,
                c,
                true,
                r,
            ),
            (Provider::Register { reg: x }, Provider::Register { reg: y }) => {
                &&& spec_emit2(
                    pre,
                    post,
                    (Instruction::Select { result: pre.spec_result_reg(), condition, lhs: x }),
                    (Instruction::Register { reg: y }),
                )
                &&& r == (Provider::Register { reg: pre.spec_result_reg() })
            },
        }
    }
}

impl FuncTranslator {
    /// Lowers a `select` over a condition register and two providers,
    /// folding `select cond x x` to `x` at translate time.
    pub fn translate_select(&mut self, condition: Reg, lhs: Provider, rhs: Provider) -> (r:
        Provider)
        requires
            old(self).consts.len() + 2 <= MAX_CONST_SLOTS,
            (match (lhs, rhs) {
                (Provider::Const { val: a }, Provider::Const { val: b }) => a.ty == b.ty,
                _ => true,
            }),
        ensures
            spec_select_lowering(*old(self), *final(self), condition, lhs, rhs, r),
    {
        if provider_eq(lhs, rhs) {
            return lhs;
        }
        match (lhs, rhs) {
            (Provider::Const { val: a }, Provider::Const { val: b }) => {
                match a.ty {
                    ValType::I32 | ValType::F32 => {
                        let result = self.result_reg();
                        self.instrs.push(
                            Instruction::SelectImm32 {
                                result_or_condition: result,
                                value: AnyConst32 { bits: a.val.as_u32() },
                            },
                        );
                        self.instrs.push(
                            Instruction::SelectImm32 {
                                result_or_condition: condition,
                                value: AnyConst32 { bits: b.val.as_u32() },
                            },
                        );
                        Provider::Register { reg: result }
                    },
                    ValType::I64 => {
                        if i64_fits_imm32(a.val.as_u64()) && i64_fits_imm32(b.val.as_u64()) {
                            let result = self.result_reg();
                            self.instrs.push(
                                Instruction::SelectI64Imm32 {
                                    result_or_condition: result,
                                    value: a.val.as_u64() as i32,
                                },
                            );
                            self.instrs.push(
                                Instruction::SelectI64Imm32 {
                                    result_or_condition: condition,
                                    value: b.val.as_u64() as i32,
                                },
                            );
                            Provider::Register { reg: result }
                        } else {
                            self.translate_select_pooled_pair(condition, a.val, b.val)
                        }
                    },
                    ValType::F64 => {
                        let enc_a = F64Imm32::try_from_bits(a.val.as_u64());
                        let enc_b = F64Imm32::try_from_bits(b.val.as_u64());
                        match (enc_a, enc_b) {
                            (Some(ia), Some(ib)) => {
                                let result = self.result_reg();
                                self.instrs.push(
                                    Instruction::SelectF64Imm32 {
                                        result_or_condition: result,
                                        value: ia,
                                    },
                                );
                                self.instrs.push(
                                    Instruction::SelectF64Imm32 {
                                        result_or_condition: condition,
                                        value: ib,
                                    },
                                );
                                Provider::Register { reg: result }
                            },
                            _ => self.translate_select_pooled_pair(condition, a.val, b.val),
                        }
                    },
                    ValType::FuncRef | ValType::ExternRef => self.translate_select_pooled_pair(
                        condition,
                        a.val,
                        b.val,
                    ),
                }
            },
            (Provider::Register { reg: x }, Provider::Const { val: c }) => self
                .translate_select_reg_const(condition, x, c, false),
            (Provider::Const { val: c }, Provider::Register { reg: y }) => self
                .translate_select_reg_const(condition, y, c, true),
            (Provider::Register { reg: x }, Provider::Register { reg: y }) => {
                let result = self.result_reg();
                self.instrs.push(Instruction::Select { result, condition, lhs: x });
                self.instrs.push(Instruction::Register { reg: y });
                Provider::Register { reg: result }
            },
        }
    }

    /// Lowers a `select` whose chosen-on-true operand is a register and
    /// whose other operand is a constant.
    fn translate_select_reg_const(&mut self, condition: Reg, x: Reg, c: TypedVal, rev: bool) -> (r:
        Provider)
        requires
            old(self).consts.len() < MAX_CONST_SLOTS,
        ensures
            spec_select_reg_const(*old(self), *final(self), condition, x, c, rev, r),
    {
        let result = self.result_reg();
        let sel: Instruction = if rev {
            Instruction::SelectRev { result, condition, rhs: x }
        } else {
            Instruction::Select { result, condition, lhs: x }
        };
        match c.ty {
            ValType::I32 | ValType::F32 => {
                self.instrs.push(sel);
                self.instrs.push(
                    Instruction::Const32 { value: AnyConst32 { bits: c.val.as_u32() } },
                );
            },
            ValType::I64 => {
                if i64_fits_imm32(c.val.as_u64()) {
                    self.instrs.push(sel);
                    self.instrs.push(Instruction::I64Const32 { value: c.val.as_u64() as i32 });
                } else {
                    let pool = self.alloc_const(c.val);
                    self.instrs.push(sel);
                    self.instrs.push(Instruction::Register { reg: pool });
                }
            },
            ValType::F64 => {
                match F64Imm32::try_from_bits(c.val.as_u64()) {
                    Some(imm) => {
                        self.instrs.push(sel);
                        self.instrs.push(Instruction::F64Const32 { value: imm });
                    },
                    None => {
                        let pool = self.alloc_const(c.val);
                        self.instrs.push(sel);
                        self.instrs.push(Instruction::Register { reg: pool });
                    },
                }
            },
            ValType::FuncRef | ValType::ExternRef => {
                let pool = self.alloc_const(c.val);
                self.instrs.push(sel);
                self.instrs.push(Instruction::Register { reg: pool });
            },
        }
        Provider::Register { reg: result }
    }

    /// Lowers a `select` of two pooled constants.
    fn translate_select_pooled_pair(&mut self, condition: Reg, a: UntypedVal, b: UntypedVal) -> (r:
        Provider)
        requires
            old(self).consts.len() + 2 <= MAX_CONST_SLOTS,
        ensures
            spec_select_pooled_pair(*old(self), *final(self), condition, a, b, r),
    {
        let result = self.result_reg();
        let pool_a = self.alloc_const(a);
        let pool_b = self.alloc_const(b);
        self.instrs.push(Instruction::Select { result, condition, lhs: pool_a });
        self.instrs.push(Instruction::Register { reg: pool_b });
        Provider::Register { reg: result }
    }
}

/// Compares two providers for the translator's equal-operand rewrites.
pub fn provider_eq(a: Provider, b: Provider) -> (r: bool)
    ensures
        r == (a == b),
{
    match (a, b) {
        (Provider::Register { reg: x }, Provider::Register { reg: y }) => x.to_i16() == y.to_i16(),
        (Provider::Const { val: x }, Provider::Const { val: y }) => val_type_eq(x.ty, y.ty)
            && x.val.as_u64() == y.val.as_u64(),
        _ => false,
    }
}

/// Compares two source-level value types.
pub fn val_type_eq(a: ValType, b: ValType) -> (r: bool)
    ensures
        r == (a == b),
{
    match (a, b) {
        (ValType::I32, ValType::I32) => true,
        (ValType::I64, ValType::I64) => true,
        (ValType::F32, ValType::F32) => true,
        (ValType::F64, ValType::F64) => true,
        (ValType::FuncRef, ValType::FuncRef) => true,
        (ValType::ExternRef, ValType::ExternRef) => true,
        _ => false,
    }
}

/// The effect of lowering a fused compare-and-branch: the folded 16-bit
/// form when the offset fits, else the general form whose comparator and
/// offset are packed into a constant-pool word.
pub open spec fn spec_cmp_branch_lowering(
    pre: FuncTranslator,
    post: FuncTranslator,
    cmp: Comparator,
    lhs: Reg,
    rhs: Reg,
    offset: BranchOffset,
) -> bool {
    if i16::MIN <= offset.value <= i16::MAX {
        spec_emit1(
            pre,
            post,
            (Instruction::BranchCmp {
                cmp,
                lhs,
                rhs,
                offset: (BranchOffset16 { value: offset.value as i16 }),
            }),
        )
    } else {
        let word = (ComparatorAndOffset { cmp, offset }).spec_as_u64();
        spec_emit1_pool(
            pre,
            post,
            (Instruction::BranchCmpFallback {
                lhs,
                rhs,
                params: spec_pool_reg(spec_pool_slot(pre.consts@, (UntypedVal { bits: word }))),
            }),
            (UntypedVal { bits: word }),
        )
    }
}

impl FuncTranslator {
    /// Lowers the fused pattern `cmp; br_if` into a single
    /// comparator-and-branch instruction.
    pub fn translate_cmp_branch(&mut self, cmp: Comparator, lhs: Reg, rhs: Reg, offset: BranchOffset)
        requires
            old(self).consts.len() < MAX_CONST_SLOTS,
        ensures
            spec_cmp_branch_lowering(*old(self), *final(self), cmp, lhs, rhs, offset),
    {
        match BranchOffset16::try_from_offset(offset) {
            Ok(offset16) => {
                self.instrs.push(Instruction::BranchCmp { cmp, lhs, rhs, offset: offset16 });
            },
            Err(_) => {
                let word: u64 = ComparatorAndOffset::new(cmp, offset).as_u64();
                let params = self.alloc_const(UntypedVal::from_u64(word));
                self.instrs.push(Instruction::BranchCmpFallback { lhs, rhs, params });
            },
        }
    }

    /// Emits the consume-fuel opcode that opens a block, with base cost
    /// `base`, and returns its slot index so later instructions of the
    /// block can bump it.
    pub fn push_consume_fuel(&mut self, base: u64) -> (r: Result<usize, IrError>)
        ensures
            base <= u32::MAX ==> (r == Ok::<usize, IrError>(old(self).instrs.len())
                && final(self).instrs@ == old(self).instrs@.push(
                (Instruction::ConsumeFuel { block_fuel: (BlockFuel { value: base as u32 }) }),
            ) && final(self).consts == old(self).consts && final(self).locals == old(
                self,
            ).locals),
            base > u32::MAX ==> (r == Err::<usize, IrError>(IrError::BlockFuelOutOfBounds)
                && *final(self) == *old(self)),
    {
        match BlockFuel::from_u64(base) {
            Ok(block_fuel) => {
                let idx: usize = self.instrs.len();
                self.instrs.push(Instruction::ConsumeFuel { block_fuel });
                Ok(idx)
            },
            Err(e) => Err(e),
        }
    }

    /// Adds the static cost of one translated instruction to its block's
    /// consume-fuel opcode, so that the block charges exactly the sum of
    /// the costs the translator assigned.
    pub fn bump_fuel_consumption(&mut self, instr_idx: usize, amount: u64) -> (r: Result<
        (),
        IrError,
    >)
        requires
            instr_idx < old(self).instrs.len(),
            old(self).instrs@[instr_idx as int] matches Instruction::ConsumeFuel { block_fuel },
        ensures
            ({
                let fuel = match old(self).instrs@[instr_idx as int] {
                    Instruction::ConsumeFuel { block_fuel } => block_fuel.value,
                    _ => 0u32,
                };
                &&& fuel + amount <= u32::MAX ==> (r == Ok::<(), IrError>(())
                    && final(self).instrs@ == old(self).instrs@.update(
                    instr_idx as int,
                    (Instruction::ConsumeFuel {
                        block_fuel: (BlockFuel { value: (fuel + amount) as u32 }),
                    }),
                ) && final(self).consts == old(self).consts && final(self).locals == old(
                    self,
                ).locals)
                &&& fuel + amount > u32::MAX ==> (r == Err::<(), IrError>(
                    IrError::BlockFuelOutOfBounds,
                ) && *final(self) == *old(self))
            }),
    {
        let instr = self.instrs[instr_idx];
        match instr {
            Instruction::ConsumeFuel { block_fuel } => {
                let mut bumped = block_fuel;
                match bumped.bump_by(amount) {
                    Ok(()) => {
                        set_instr(&mut self.instrs, instr_idx, Instruction::ConsumeFuel {
                            block_fuel: bumped,
                        });
                        Ok(())
                    },
                    Err(e) => Err(e),
                }
            },
            _ => Err(IrError::BlockFuelOutOfBounds),
        }
    }
}

/// Writes one slot of the emitted instruction stream.
fn set_instr(v: &mut Vec<Instruction>, i: usize, instr: Instruction)
    requires
        i < old(v).len(),
    ensures
        final(v)@ == old(v)@.update(i as int, instr),
{
    let r = &mut v[i];
    *r = instr;
}

/// The sum of a sequence of static instruction costs.
pub open spec fn spec_cost_sum(costs: Seq<u64>) -> int
    decreases costs.len(),
{
    if costs.len() == 0 {
        0
    } else {
        costs[0] + spec_cost_sum(costs.drop_first())
    }
}

/// The block-fuel counter after the costs are bumped into it one by one,
/// as [`FuncTranslator::bump_fuel_consumption`] does; `None` when some
/// bump would leave the 32-bit range.
pub open spec fn spec_bump_chain(fuel: u64, costs: Seq<u64>) -> Option<u64>
    decreases costs.len(),
{
    if costs.len() == 0 {
        Some(fuel)
    } else if fuel + costs[0] <= u32::MAX {
        spec_bump_chain((fuel + costs[0]) as u64, costs.drop_first())
    } else {
        None
    }
}

/// Fuel accounting: when every bump of a block succeeds, the block's
/// consume-fuel opcode ends up charging the base cost plus exactly the sum
/// of the static costs the translator accumulated into it — and the
/// executor charges that amount and no other (see the exact fuel contract
/// of the consume-fuel step).
pub proof fn lemma_fuel_accounting(fuel: u64, costs: Seq<u64>)
    ensures
        (spec_bump_chain(fuel, costs) matches Some(total) ==> total == fuel + spec_cost_sum(
            costs,
        )),
    decreases costs.len(),
{
    if costs.len() > 0 && fuel + costs[0] <= u32::MAX {
        lemma_fuel_accounting((fuel + costs[0]) as u64, costs.drop_first());
    }
}

} // verus!
