//! The x64 calling-convention rules a just-in-time compiler uses: how a
//! function's parameters and results are assigned to registers and stack
//! slots under the default, System V and Windows fastcall conventions.

use vstd::prelude::*;
use crate::gc::{WasmHeapType, WasmValType};

verus! {

/// A register class: general purpose or floating point.
#[derive(Clone, Copy, Debug, PartialEq, Eq, Structural)]
pub enum RegClass {
    Int,
    Float,
}

/// A hardware register: its class and its encoding.
#[derive(Clone, Copy, Debug, PartialEq, Eq, Structural)]
pub struct Reg {
    pub class: RegClass,
    pub hw_enc: u8,
}

/// `%rax`.
pub fn rax() -> (r: Reg)
    ensures
        r == (Reg { class: RegClass::Int, hw_enc: 0 }),
{
    Reg { class: RegClass::Int, hw_enc: 0 }
}

/// `%rcx`.
pub fn rcx() -> (r: Reg)
    ensures
        r == (Reg { class: RegClass::Int, hw_enc: 1 }),
{
    Reg { class: RegClass::Int, hw_enc: 1 }
}

/// `%rdx`.
pub fn rdx() -> (r: Reg)
    ensures
        r == (Reg { class: RegClass::Int, hw_enc: 2 }),
{
    Reg { class: RegClass::Int, hw_enc: 2 }
}

/// `%rsi`.
pub fn rsi() -> (r: Reg)
    ensures
        r == (Reg { class: RegClass::Int, hw_enc: 6 }),
{
    Reg { class: RegClass::Int, hw_enc: 6 }
}

/// `%rdi`.
pub fn rdi() -> (r: Reg)
    ensures
        r == (Reg { class: RegClass::Int, hw_enc: 7 }),
{
    Reg { class: RegClass::Int, hw_enc: 7 }
}

/// `%r8`.
pub fn r8() -> (r: Reg)
    ensures
        r == (Reg { class: RegClass::Int, hw_enc: 8 }),
{
    Reg { class: RegClass::Int, hw_enc: 8 }
}

/// `%r9`.
pub fn r9() -> (r: Reg)
    ensures
        r == (Reg { class: RegClass::Int, hw_enc: 9 }),
{
    Reg { class: RegClass::Int, hw_enc: 9 }
}

/// `%r14`, the pinned context register.
pub fn vmctx() -> (r: Reg)
    ensures
        r == (Reg { class: RegClass::Int, hw_enc: 14 }),
{
    Reg { class: RegClass::Int, hw_enc: 14 }
}

/// One of `%xmm0` through `%xmm15`.
pub fn xmm(enc: u8) -> (r: Reg)
    requires
        enc < 16,
    ensures
        r == (Reg { class: RegClass::Float, hw_enc: enc }),
{
    Reg { class: RegClass::Float, hw_enc: enc }
}

/// A calling convention the signatures can be computed for.
#[derive(Clone, Copy, Debug, PartialEq, Eq, Structural)]
pub enum CallingConvention {
    /// The compiler's own convention.
    Default,
    /// The System V AMD64 convention.
    SystemV,
    /// The Windows x64 convention.
    WindowsFastcall,
}

/// Where one parameter or result lives.
#[derive(Clone, Copy, Debug, PartialEq, Eq, Structural)]
pub enum ABIOperand {
    /// In a register.
    Reg { reg: Reg, ty: WasmValType, size: u32 },
    /// On the stack, at `offset` from the argument base.
    Stack { ty: WasmValType, offset: u32, size: u32 },
}

/// The error a signature computation can report: a value type the
/// conventions do not cover.
#[derive(Clone, Copy, Debug, PartialEq, Eq, Structural)]
pub enum CodeGenError {
    UnsupportedWasmType,
}

/// A function type: its parameter and result value types.
#[derive(Clone, Debug)]
pub struct WasmFuncType {
    pub params: Vec<WasmValType>,
    pub results: Vec<WasmValType>,
}

impl WasmFuncType {
    /// Wrap a parameter and result list.
    pub fn new(params: Vec<WasmValType>, results: Vec<WasmValType>) -> (r: WasmFuncType)
        ensures
            r.params@ == params@,
            r.results@ == results@,
    {
        WasmFuncType { params, results }
    }
}

/// Whether a value type is supported: everything but references to heap
/// types other than functions and external values.
pub open spec fn spec_supported(ty: WasmValType) -> bool {
    match ty {
        WasmValType::Ref(rt) => rt.heap_type == WasmHeapType::Func || rt.heap_type
            == WasmHeapType::Extern,
        _ => true,
    }
}

/// The byte size of a value type in the ABI: a machine word for anything
/// word-sized or smaller except the four-byte types, two words for vectors.
pub open spec fn spec_sizeof(ty: WasmValType) -> u32 {
    match ty {
        WasmValType::I32 | WasmValType::F32 => 4,
        WasmValType::I64 | WasmValType::F64 => 8,
        WasmValType::V128 => 16,
        WasmValType::Ref(_) => 8,
    }
}

/// The register class a value type is passed in.
pub open spec fn spec_class_of(ty: WasmValType) -> RegClass {
    match ty {
        WasmValType::I32 | WasmValType::I64 | WasmValType::Ref(_) => RegClass::Int,
        WasmValType::F32 | WasmValType::F64 | WasmValType::V128 => RegClass::Float,
    }
}

/// Whether an operand describes a parameter or a result.
#[derive(Clone, Copy, Debug, PartialEq, Eq, Structural)]
pub enum ParamsOrReturns {
    Params,
    Returns,
}

/// The general purpose register for argument or result `index`, if the
/// convention passes it in one.
pub open spec fn spec_int_reg_for(index: u8, conv: CallingConvention, pr: ParamsOrReturns) -> Option<
    Reg,
> {
    if conv == CallingConvention::WindowsFastcall {
        if pr == ParamsOrReturns::Params {
            if index == 0 {
                Some(Reg { class: RegClass::Int, hw_enc: 1 })
            } else if index == 1 {
                Some(Reg { class: RegClass::Int, hw_enc: 2 })
            } else if index == 2 {
                Some(Reg { class: RegClass::Int, hw_enc: 8 })
            } else if index == 3 {
                Some(Reg { class: RegClass::Int, hw_enc: 9 })
            } else {
                None
            }
        } else if index == 0 {
            Some(Reg { class: RegClass::Int, hw_enc: 0 })
        } else {
            None
        }
    } else {
        if pr == ParamsOrReturns::Params {
            if index == 0 {
                Some(Reg { class: RegClass::Int, hw_enc: 7 })
            } else if index == 1 {
                Some(Reg { class: RegClass::Int, hw_enc: 6 })
            } else if index == 2 {
                Some(Reg { class: RegClass::Int, hw_enc: 2 })
            } else if index == 3 {
                Some(Reg { class: RegClass::Int, hw_enc: 1 })
            } else if index == 4 {
                Some(Reg { class: RegClass::Int, hw_enc: 8 })
            } else if index == 5 {
                Some(Reg { class: RegClass::Int, hw_enc: 9 })
            } else {
                None
            }
        } else if index == 0 {
            Some(Reg { class: RegClass::Int, hw_enc: 0 })
        } else {
            None
        }
    }
}

/// The floating-point register for argument or result `index`, if the
/// convention passes it in one.
pub open spec fn spec_float_reg_for(
    index: u8,
    conv: CallingConvention,
    pr: ParamsOrReturns,
) -> Option<Reg> {
    if pr == ParamsOrReturns::Params {
        let limit: u8 = if conv == CallingConvention::WindowsFastcall {
            4
        } else {
            8
        };
        if index < limit {
            Some(Reg { class: RegClass::Float, hw_enc: index })
        } else {
            None
        }
    } else if index == 0 {
        Some(Reg { class: RegClass::Float, hw_enc: 0 })
    } else {
        None
    }
}

/// How many argument registers remain: one shared budget under the Windows
/// convention, one per class elsewhere.
#[derive(Clone, Copy, Debug, PartialEq, Eq, Structural)]
pub enum IndexLimit {
    /// A budget shared by both classes.
    Absolute(u8),
    /// A general purpose budget and a floating-point budget.
    PerClass(u8, u8),
}

/// The register indices handed out so far, with the limit that stops them.
#[derive(Clone, Copy, Debug, PartialEq, Eq, Structural)]
pub struct RegIndexEnv {
    pub gpr: u8,
    pub fpr: u8,
    pub limit: IndexLimit,
}

/// The next general purpose register index, and the environment after
/// taking it.
pub open spec fn spec_next_gpr(env: RegIndexEnv) -> (Option<u8>, RegIndexEnv) {
    match env.limit {
        IndexLimit::Absolute(n) => if env.gpr + env.fpr < n {
            (
                Some((env.gpr + env.fpr) as u8),
                RegIndexEnv { gpr: (env.gpr + 1) as u8, ..env },
            )
        } else {
            (None, env)
        },
        IndexLimit::PerClass(gn, _) => if env.gpr < gn {
            (Some(env.gpr), RegIndexEnv { gpr: (env.gpr + 1) as u8, ..env })
        } else {
            (None, env)
        },
    }
}

/// The next floating-point register index, and the environment after
/// taking it.
pub open spec fn spec_next_fpr(env: RegIndexEnv) -> (Option<u8>, RegIndexEnv) {
    match env.limit {
        IndexLimit::Absolute(n) => if env.gpr + env.fpr < n {
            (
                Some((env.gpr + env.fpr) as u8),
                RegIndexEnv { fpr: (env.fpr + 1) as u8, ..env },
            )
        } else {
            (None, env)
        },
        IndexLimit::PerClass(_, fn_) => if env.fpr < fn_ {
            (Some(env.fpr), RegIndexEnv { fpr: (env.fpr + 1) as u8, ..env })
        } else {
            (None, env)
        },
    }
}

/// A register environment never hands out more than its limit.
pub open spec fn spec_env_wf(env: RegIndexEnv) -> bool {
    match env.limit {
        IndexLimit::Absolute(n) => env.gpr + env.fpr <= n && n <= 16,
        IndexLimit::PerClass(gn, fn_) => env.gpr <= gn && env.fpr <= fn_ && gn <= 16 && fn_
            <= 16,
    }
}

impl RegIndexEnv {
    /// A budget of `limit` registers shared by both classes.
    pub fn with_absolute_limit(limit: u8) -> (r: RegIndexEnv)
        requires
            limit <= 16,
        ensures
            r == (RegIndexEnv { gpr: 0, fpr: 0, limit: IndexLimit::Absolute(limit) }),
    {
        RegIndexEnv { gpr: 0, fpr: 0, limit: IndexLimit::Absolute(limit) }
    }

    /// A budget of `gpr` general purpose and `fpr` floating-point
    /// registers.
    pub fn with_limits_per_class(gpr: u8, fpr: u8) -> (r: RegIndexEnv)
        requires
            gpr <= 16,
            fpr <= 16,
        ensures
            r == (RegIndexEnv { gpr: 0, fpr: 0, limit: IndexLimit::PerClass(gpr, fpr) }),
    {
        RegIndexEnv { gpr: 0, fpr: 0, limit: IndexLimit::PerClass(gpr, fpr) }
    }

    /// Take the next general purpose register index, if any remains.
    pub fn next_gpr(&mut self) -> (r: Option<u8>)
        requires
            spec_env_wf(*old(self)),
        ensures
            (r, *final(self)) == spec_next_gpr(*old(self)),
            spec_env_wf(*final(self)),
    {
        match self.limit {
            IndexLimit::Absolute(n) => {
                if self.gpr + self.fpr < n {
                    let i = self.gpr + self.fpr;
                    self.gpr = self.gpr + 1;
                    Some(i)
                } else {
                    None
                }
            },
            IndexLimit::PerClass(gn, _) => {
                if self.gpr < gn {
                    let i = self.gpr;
                    self.gpr = self.gpr + 1;
                    Some(i)
                } else {
                    None
                }
            },
        }
    }

    /// Take the next floating-point register index, if any remains.
    pub fn next_fpr(&mut self) -> (r: Option<u8>)
        requires
            spec_env_wf(*old(self)),
        ensures
            (r, *final(self)) == spec_next_fpr(*old(self)),
            spec_env_wf(*final(self)),
    {
        match self.limit {
            IndexLimit::Absolute(n) => {
                if self.gpr + self.fpr < n {
                    let i = self.gpr + self.fpr;
                    self.fpr = self.fpr + 1;
                    Some(i)
                } else {
                    None
                }
            },
            IndexLimit::PerClass(_, fn_) => {
                if self.fpr < fn_ {
                    let i = self.fpr;
                    self.fpr = self.fpr + 1;
                    Some(i)
                } else {
                    None
                }
            },
        }
    }
}

/// `x` rounded up to the next multiple of the power of two `align`.
pub open spec fn spec_align_to(x: u32, align: u32) -> u32 {
    crate::gc::spec_round_up(x, align)
}

} // verus!

verus! {

/// `x` rounded up to the next multiple of the power of two `align`.
pub fn align_to(x: u32, align: u32) -> (r: u32)
    requires
        spec_pow2(align),
        x + align <= u32::MAX,
    ensures
        r == spec_align_to(x, align),
        r % align == 0,
        x <= r < x + align,
{
    proof {
        crate::gc::lemma_round_up_pow2(x, align);
    }
    (x + (align - 1)) & !(align - 1)
}

/// Every ABI size and alignment in use is a power of two.
proof fn lemma_abi_pow2(ty: WasmValType)
    ensures
        spec_pow2(spec_sizeof(ty)),
        spec_pow2(8u32),
        spec_pow2(16u32),
        spec_sizeof(ty) <= 16,
{
    assert(4u32 & 3u32 == 0 && 8u32 & 7u32 == 0 && 16u32 & 15u32 == 0) by (bit_vector);
}

/// The stack slot alignment of a parameter: a fixed eight-byte slot, or
/// the type's own size when it is wider.
pub open spec fn spec_param_alignment(ty: WasmValType) -> u32 {
    if spec_sizeof(ty) > 8 {
        spec_sizeof(ty)
    } else {
        8
    }
}

/// Where one value goes, given the running stack offset and register
/// budget: a register while the budget and the convention's table allow,
/// and a stack slot past that. `None` for an unsupported value type.
pub open spec fn spec_abi_operand(
    ty: WasmValType,
    stack_offset: u32,
    env: RegIndexEnv,
    conv: CallingConvention,
    pr: ParamsOrReturns,
) -> Option<(ABIOperand, u32, RegIndexEnv)> {
    if !spec_supported(ty) {
        None
    } else {
        let step = if spec_class_of(ty) == RegClass::Int {
            spec_next_gpr(env)
        } else {
            spec_next_fpr(env)
        };
        let reg = match step.0 {
            Some(i) => if spec_class_of(ty) == RegClass::Int {
                spec_int_reg_for(i, conv, pr)
            } else {
                spec_float_reg_for(i, conv, pr)
            },
            None => None,
        };
        match reg {
            Some(reg) => Some(
                (
                    ABIOperand::Reg { reg, ty, size: spec_sizeof(ty) },
                    stack_offset,
                    step.1,
                ),
            ),
            None => {
                let ty_size = spec_sizeof(ty);
                if pr == ParamsOrReturns::Params {
                    let alignment = spec_param_alignment(ty);
                    let offset = spec_align_to(stack_offset, alignment);
                    Some(
                        (
                            ABIOperand::Stack { ty, offset, size: ty_size },
                            (offset + alignment) as u32,
                            step.1,
                        ),
                    )
                } else if conv == CallingConvention::Default {
                    Some(
                        (
                            ABIOperand::Stack { ty, offset: stack_offset, size: ty_size },
                            (stack_offset + ty_size) as u32,
                            step.1,
                        ),
                    )
                } else {
                    let offset = spec_align_to(stack_offset, ty_size);
                    Some(
                        (
                            ABIOperand::Stack { ty, offset, size: ty_size },
                            (offset + ty_size) as u32,
                            step.1,
                        ),
                    )
                }
            },
        }
    }
}

/// Where a whole run of values goes, threading the stack offset and the
/// register budget left to right.
pub open spec fn spec_operands(
    tys: Seq<WasmValType>,
    stack_offset: u32,
    env: RegIndexEnv,
    conv: CallingConvention,
    pr: ParamsOrReturns,
) -> Option<(Seq<ABIOperand>, u32, RegIndexEnv)>
    decreases tys.len(),
{
    if tys.len() == 0 {
        Some((Seq::<ABIOperand>::empty(), stack_offset, env))
    } else {
        match spec_abi_operand(tys[0], stack_offset, env, conv, pr) {
            Some((op, off2, env2)) => match spec_operands(
                tys.drop_first(),
                off2,
                env2,
                conv,
                pr,
            ) {
                Some((ops, off3, env3)) => Some((seq![op] + ops, off3, env3)),
                None => None,
            },
            None => None,
        }
    }
}

/// The sequence `s` backwards.
pub open spec fn seq_rev<T>(s: Seq<T>) -> Seq<T> {
    Seq::new(s.len(), |i: int| s[s.len() - 1 - i])
}

use crate::gc::spec_pow2;

/// The parameters of a signature, in order.
#[derive(Clone, Debug)]
pub struct ABIParams {
    pub operands: Vec<ABIOperand>,
}

impl ABIParams {
    /// The operand of parameter `i`, if there is one.
    pub fn get(&self, i: usize) -> (r: Option<&ABIOperand>)
        ensures
            i < self.operands@.len() ==> r == Some(&self.operands@[i as int]),
            i >= self.operands@.len() ==> r is None,
    {
        if i < self.operands.len() {
            Some(&self.operands[i])
        } else {
            None
        }
    }
}

/// The results of a signature, in order.
#[derive(Clone, Debug)]
pub struct ABIResults {
    pub operands: Vec<ABIOperand>,
}

impl ABIResults {
    /// The operand of result `i`, if there is one.
    pub fn get(&self, i: usize) -> (r: Option<&ABIOperand>)
        ensures
            i < self.operands@.len() ==> r == Some(&self.operands@[i as int]),
            i >= self.operands@.len() ==> r is None,
    {
        if i < self.operands.len() {
            Some(&self.operands[i])
        } else {
            None
        }
    }

    /// Whether any result lives on the stack.
    pub fn on_stack(&self) -> (r: bool)
        ensures
            r == exists|j: int| 0 <= j < self.operands@.len() && (#[trigger] self.operands@[j])
                is Stack,
    {
        let mut i: usize = 0;
        while i < self.operands.len()
            invariant
                i <= self.operands@.len(),
                forall|j: int| 0 <= j < i ==> !((#[trigger] self.operands@[j]) is Stack),
            decreases self.operands@.len() - i,
        {
            if matches!(self.operands[i], ABIOperand::Stack { .. }) {
                return true;
            }
            i = i + 1;
        }
        false
    }
}

/// A computed signature: where each parameter and each result lives.
#[derive(Clone, Debug)]
pub struct ABISig {
    pub params: ABIParams,
    pub results: ABIResults,
    pub conv: CallingConvention,
}

} // verus!

verus! {

/// The x64 rules for the compiler's ABI.
pub struct X64ABI;

impl X64ABI {
    /// The stack alignment at function entry.
    pub fn stack_align() -> (r: u8)
        ensures
            r == 16,
    {
        16
    }

    /// The stack alignment at call sites.
    pub fn call_stack_align() -> (r: u8)
        ensures
            r == 16,
    {
        16
    }

    /// The offset from the frame pointer to the argument base: one slot for
    /// the return address and one for the saved frame pointer.
    pub fn arg_base_offset() -> (r: u8)
        ensures
            r == 16,
    {
        16
    }

    /// The frame size at entry: the two slots above.
    pub fn initial_frame_size() -> (r: u8)
        ensures
            r == 16,
    {
        16
    }

    /// The machine word width in bits.
    pub fn word_bits() -> (r: u8)
        ensures
            r == 64,
    {
        64
    }

    /// The machine word width in bytes.
    pub fn word_bytes() -> (r: u8)
        ensures
            r == 8,
    {
        8
    }

    /// The fixed stack slot size: one machine word.
    pub fn stack_slot_size() -> (r: u8)
        ensures
            r == 8,
    {
        8
    }

    /// The pinned context register.
    pub fn vmctx_reg() -> (r: Reg)
        ensures
            r == (Reg { class: RegClass::Int, hw_enc: 14 }),
    {
        vmctx()
    }

    /// The ABI byte size of a value type.
    pub fn sizeof(ty: &WasmValType) -> (r: u8)
        ensures
            r == spec_sizeof(*ty),
    {
        match ty {
            WasmValType::I32 | WasmValType::F32 => 4,
            WasmValType::I64 | WasmValType::F64 => 8,
            WasmValType::V128 => 16,
            WasmValType::Ref(_) => 8,
        }
    }

    /// The general purpose register for argument or result `index`, if the
    /// convention passes it in one.
    pub fn int_reg_for(
        index: Option<u8>,
        call_conv: &CallingConvention,
        params_or_returns: ParamsOrReturns,
    ) -> (r: Option<Reg>)
        ensures
            r == (match index {
                Some(i) => spec_int_reg_for(i, *call_conv, params_or_returns),
                None => None::<Reg>,
            }),
    {
        let index = match index {
            None => {
                return None;
            },
            Some(index) => index,
        };
        if matches!(call_conv, CallingConvention::WindowsFastcall) {
            return match (index, params_or_returns) {
                (0, ParamsOrReturns::Params) => Some(rcx()),
                (1, ParamsOrReturns::Params) => Some(rdx()),
                (2, ParamsOrReturns::Params) => Some(r8()),
                (3, ParamsOrReturns::Params) => Some(r9()),
                (0, ParamsOrReturns::Returns) => Some(rax()),
                _ => None,
            };
        }
        match (index, params_or_returns) {
            (0, ParamsOrReturns::Params) => Some(rdi()),
            (1, ParamsOrReturns::Params) => Some(rsi()),
            (2, ParamsOrReturns::Params) => Some(rdx()),
            (3, ParamsOrReturns::Params) => Some(rcx()),
            (4, ParamsOrReturns::Params) => Some(r8()),
            (5, ParamsOrReturns::Params) => Some(r9()),
            (0, ParamsOrReturns::Returns) => Some(rax()),
            _ => None,
        }
    }

    /// The floating-point register for argument or result `index`, if the
    /// convention passes it in one.
    pub fn float_reg_for(
        index: Option<u8>,
        call_conv: &CallingConvention,
        params_or_returns: ParamsOrReturns,
    ) -> (r: Option<Reg>)
        ensures
            r == (match index {
                Some(i) => spec_float_reg_for(i, *call_conv, params_or_returns),
                None => None::<Reg>,
            }),
    {
        let index = match index {
            None => {
                return None;
            },
            Some(index) => index,
        };
        let limit: u8 = if matches!(call_conv, CallingConvention::WindowsFastcall) {
            4
        } else {
            8
        };
        match params_or_returns {
            ParamsOrReturns::Params => {
                if index < limit {
                    Some(xmm(index))
                } else {
                    None
                }
            },
            ParamsOrReturns::Returns => {
                if index == 0 {
                    Some(xmm(0))
                } else {
                    None
                }
            },
        }
    }

    /// Place one value, threading the running stack offset and register
    /// budget; fails on a value type the conventions do not cover.
    pub fn to_abi_operand(
        wasm_arg: &WasmValType,
        stack_offset: u32,
        index_env: &mut RegIndexEnv,
        call_conv: &CallingConvention,
        params_or_returns: ParamsOrReturns,
    ) -> (r: Result<(ABIOperand, u32), CodeGenError>)
        requires
            spec_env_wf(*old(index_env)),
            stack_offset + 64 <= u32::MAX,
        ensures
            spec_env_wf(*final(index_env)),
            r matches Ok(p) ==> stack_offset <= p.1 <= stack_offset + 32,
            (match spec_abi_operand(
                *wasm_arg,
                stack_offset,
                *old(index_env),
                *call_conv,
                params_or_returns,
            ) {
                Some((op, off, env)) => r == Ok::<(ABIOperand, u32), CodeGenError>(
                    (op, off),
                ) && *final(index_env) == env,
                None => r is Err && *final(index_env) == *old(index_env),
            }),
    {
        let is_int = match wasm_arg {
            WasmValType::Ref(rt) => {
                if !matches!(rt.heap_type, WasmHeapType::Func | WasmHeapType::Extern) {
                    return Err(CodeGenError::UnsupportedWasmType);
                }
                true
            },
            WasmValType::I32 | WasmValType::I64 => true,
            WasmValType::F32 | WasmValType::F64 | WasmValType::V128 => false,
        };
        let index = if is_int {
            index_env.next_gpr()
        } else {
            index_env.next_fpr()
        };
        let reg = if is_int {
            Self::int_reg_for(index, call_conv, params_or_returns)
        } else {
            Self::float_reg_for(index, call_conv, params_or_returns)
        };
        let ty_size = Self::sizeof(wasm_arg) as u32;
        proof {
            lemma_abi_pow2(*wasm_arg);
        }
        match reg {
            Some(reg) => Ok((ABIOperand::Reg { reg, ty: *wasm_arg, size: ty_size }, stack_offset)),
            None => {
                if matches!(params_or_returns, ParamsOrReturns::Params) {
                    // Parameter slots are a fixed word wide, or type-sized
                    // for wider types.
                    let alignment = if ty_size > 8 {
                        ty_size
                    } else {
                        8
                    };
                    let offset = align_to(stack_offset, alignment);
                    Ok((
                        ABIOperand::Stack { ty: *wasm_arg, offset, size: ty_size },
                        offset + alignment,
                    ))
                } else if matches!(call_conv, CallingConvention::Default) {
                    // Results under the default convention pack without
                    // type-size alignment, to match the compiler's spills.
                    Ok((
                        ABIOperand::Stack { ty: *wasm_arg, offset: stack_offset, size: ty_size },
                        stack_offset + ty_size,
                    ))
                } else {
                    let offset = align_to(stack_offset, ty_size);
                    Ok((
                        ABIOperand::Stack { ty: *wasm_arg, offset, size: ty_size },
                        offset + ty_size,
                    ))
                }
            },
        }
    }
}

} // verus!

verus! {

/// Place a whole run of values, threading the stack offset and register
/// budget left to right.
fn operands_for(
    tys: &Vec<WasmValType>,
    start_offset: u32,
    index_env: &mut RegIndexEnv,
    call_conv: &CallingConvention,
    params_or_returns: ParamsOrReturns,
) -> (r: Result<Vec<ABIOperand>, CodeGenError>)
    requires
        spec_env_wf(*old(index_env)),
        start_offset <= 0x1000_0000,
        tys@.len() <= 0x10_0000,
    ensures
        spec_env_wf(*final(index_env)),
        (match spec_operands(
            tys@,
            start_offset,
            *old(index_env),
            *call_conv,
            params_or_returns,
        ) {
            Some((ops, _, env)) => (r matches Ok(v) && v@ == ops) && *final(index_env)
                == env,
            None => r is Err,
        }),
{
    let mut out: Vec<ABIOperand> = Vec::new();
    let mut offset = start_offset;
    let mut i: usize = 0;
    proof {
        assert(tys@.skip(0) =~= tys@);
    }
    while i < tys.len()
        invariant
            i <= tys@.len(),
            spec_env_wf(*index_env),
            tys@.len() <= 0x10_0000,
            offset <= start_offset + 32 * i,
            start_offset <= 0x1000_0000,
            out@.len() == i,
            (match spec_operands(
                tys@,
                start_offset,
                *old(index_env),
                *call_conv,
                params_or_returns,
            ) {
                Some((ops, o, env)) => spec_operands(
                    tys@.skip(i as int),
                    offset,
                    *index_env,
                    *call_conv,
                    params_or_returns,
                ) matches Some((ops2, o2, env2)) && ops == out@ + ops2 && o == o2 && env
                    == env2,
                None => spec_operands(
                    tys@.skip(i as int),
                    offset,
                    *index_env,
                    *call_conv,
                    params_or_returns,
                ) is None,
            }),
        decreases tys@.len() - i,
    {
        let ty = tys[i];
        let ghost env0 = *index_env;
        let ghost off0 = offset;
        proof {
            assert(tys@.skip(i as int)[0] == tys@[i as int]);
            assert(tys@.skip(i as int).drop_first() =~= tys@.skip(i + 1));
        }
        match X64ABI::to_abi_operand(&ty, offset, index_env, call_conv, params_or_returns) {
            Ok((op, next_offset)) => {
                out.push(op);
                offset = next_offset;
                proof {
                    let prev = spec_operands(
                        tys@.skip(i as int),
                        off0,
                        env0,
                        *call_conv,
                        params_or_returns,
                    );
                    let next = spec_operands(
                        tys@.skip(i + 1),
                        offset,
                        *index_env,
                        *call_conv,
                        params_or_returns,
                    );
                    if next is Some {
                        assert(prev matches Some(p) && (next matches Some(n) && p.0 =~= seq![op]
                            + n.0 && p.1 == n.1 && p.2 == n.2));
                        assert(prev matches Some(p) && (next matches Some(n) && out@ + n.0
                            =~= out@.drop_last() + p.0));
                    }
                }
            },
            Err(e) => {
                return Err(e);
            },
        }
        i = i + 1;
    }
    proof {
        assert(tys@.skip(tys@.len() as int) =~= Seq::<WasmValType>::empty());
    }
    Ok(out)
}

/// The elements of `v`, backwards.
fn reversed<T: Copy>(v: &Vec<T>) -> (r: Vec<T>)
    ensures
        r@ == seq_rev(v@),
{
    let mut out: Vec<T> = Vec::new();
    let mut i: usize = v.len();
    while i > 0
        invariant
            i <= v@.len(),
            out@.len() == v@.len() - i,
            forall|j: int| 0 <= j < out@.len() ==> out@[j] == v@[v@.len() - 1 - j],
        decreases i,
    {
        i = i - 1;
        out.push(v[i]);
    }
    proof {
        assert(out@ =~= seq_rev(v@));
    }
    out
}

/// Where each result of a signature lives: one register at most, the rest
/// on the stack. Under the default convention the results are assigned
/// last-to-first, so that the register lands on the last result.
pub open spec fn spec_results(rets: Seq<WasmValType>, conv: CallingConvention) -> Option<
    Seq<ABIOperand>,
> {
    let env = RegIndexEnv { gpr: 0, fpr: 0, limit: IndexLimit::Absolute(1) };
    if conv == CallingConvention::Default {
        match spec_operands(seq_rev(rets), 0, env, conv, ParamsOrReturns::Returns) {
            Some((ops, _, _)) => Some(seq_rev(ops)),
            None => None,
        }
    } else {
        match spec_operands(rets, 0, env, conv, ParamsOrReturns::Returns) {
            Some((ops, _, _)) => Some(ops),
            None => None,
        }
    }
}

/// Where each parameter of a signature lives, given its results: a stack
/// area for the results consumes the first argument register, and the
/// Windows convention reserves a 32-byte spill area before the stack
/// arguments.
pub open spec fn spec_params(
    params: Seq<WasmValType>,
    rets: Seq<WasmValType>,
    conv: CallingConvention,
) -> Option<Seq<ABIOperand>> {
    let start: u32 = if conv == CallingConvention::WindowsFastcall {
        32
    } else {
        0
    };
    let env0 = if conv == CallingConvention::WindowsFastcall {
        RegIndexEnv { gpr: 0, fpr: 0, limit: IndexLimit::Absolute(4) }
    } else {
        RegIndexEnv { gpr: 0, fpr: 0, limit: IndexLimit::PerClass(6, 8) }
    };
    match spec_results(rets, conv) {
        Some(results) => {
            let needs_stack = exists|j: int| 0 <= j < results.len() && (#[trigger] results[j])
                is Stack;
            let env1 = if needs_stack {
                spec_next_gpr(env0).1
            } else {
                env0
            };
            match spec_operands(params, start, env1, conv, ParamsOrReturns::Params) {
                Some((ops, _, _)) => Some(ops),
                None => None,
            }
        },
        None => None,
    }
}

impl X64ABI {
    /// Where each result of `rets` lives under `call_conv`.
    pub fn abi_results(rets: &Vec<WasmValType>, call_conv: &CallingConvention) -> (r: Result<
        ABIResults,
        CodeGenError,
    >)
        requires
            rets@.len() <= 0x10_0000,
        ensures
            (match spec_results(rets@, *call_conv) {
                Some(ops) => r matches Ok(res) && res.operands@ == ops,
                None => r is Err,
            }),
    {
        // Only one register carries results, whatever its class; the rest
        // go to the stack, as the compiler's multi-value rets do.
        let mut results_index_env = RegIndexEnv::with_absolute_limit(1);
        if matches!(call_conv, CallingConvention::Default) {
            let rev = reversed(rets);
            let ops = operands_for(
                &rev,
                0,
                &mut results_index_env,
                call_conv,
                ParamsOrReturns::Returns,
            )?;
            let back = reversed(&ops);
            proof {
                if spec_results(rets@, *call_conv) is Some {
                }
            }
            Ok(ABIResults { operands: back })
        } else {
            let ops = operands_for(
                rets,
                0,
                &mut results_index_env,
                call_conv,
                ParamsOrReturns::Returns,
            )?;
            Ok(ABIResults { operands: ops })
        }
    }

    /// The signature of a function with the given parameter and result
    /// types under `call_conv`.
    pub fn sig_from(
        params: &Vec<WasmValType>,
        rets: &Vec<WasmValType>,
        call_conv: &CallingConvention,
    ) -> (r: Result<ABISig, CodeGenError>)
        requires
            params@.len() <= 0x10_0000,
            rets@.len() <= 0x10_0000,
        ensures
            (match (spec_params(params@, rets@, *call_conv), spec_results(
                rets@,
                *call_conv,
            )) {
                (Some(ps), Some(rs)) => r matches Ok(sig) && sig.params.operands@ == ps
                    && sig.results.operands@ == rs && sig.conv == *call_conv,
                _ => r is Err,
            }),
    {
        // The Windows convention gives the callee a 32-byte spill area just
        // before its frame; stack arguments start past it.
        let (params_stack_offset, mut params_index_env): (u32, RegIndexEnv) = if matches!(
            call_conv,
            CallingConvention::WindowsFastcall,
        ) {
            (32, RegIndexEnv::with_absolute_limit(4))
        } else {
            (0, RegIndexEnv::with_limits_per_class(6, 8))
        };

        let results = Self::abi_results(rets, call_conv)?;
        if results.on_stack() {
            // A stack area for the results consumes the first argument
            // register: it carries the pointer to that area.
            let _ = params_index_env.next_gpr();
        }
        let ops = operands_for(
            params,
            params_stack_offset,
            &mut params_index_env,
            call_conv,
            ParamsOrReturns::Params,
        )?;
        Ok(ABISig { params: ABIParams { operands: ops }, results, conv: *call_conv })
    }

    /// The signature of `wasm_sig` under `call_conv`.
    pub fn sig(wasm_sig: &WasmFuncType, call_conv: &CallingConvention) -> (r: Result<
        ABISig,
        CodeGenError,
    >)
        requires
            wasm_sig.params@.len() <= 0x10_0000,
            wasm_sig.results@.len() <= 0x10_0000,
        ensures
            (match (spec_params(wasm_sig.params@, wasm_sig.results@, *call_conv), spec_results(
                wasm_sig.results@,
                *call_conv,
            )) {
                (Some(ps), Some(rs)) => r matches Ok(sig) && sig.params.operands@ == ps
                    && sig.results.operands@ == rs && sig.conv == *call_conv,
                _ => r is Err,
            }),
    {
        Self::sig_from(&wasm_sig.params, &wasm_sig.results, call_conv)
    }
}

} // verus!

verus! {

/// `%xmm0`.
pub fn xmm0() -> (r: Reg)
    ensures
        r == (Reg { class: RegClass::Float, hw_enc: 0 }),
{
    xmm(0)
}

/// `%xmm1`.
pub fn xmm1() -> (r: Reg)
    ensures
        r == (Reg { class: RegClass::Float, hw_enc: 1 }),
{
    xmm(1)
}

/// `%xmm2`.
pub fn xmm2() -> (r: Reg)
    ensures
        r == (Reg { class: RegClass::Float, hw_enc: 2 }),
{
    xmm(2)
}

/// `%xmm3`.
pub fn xmm3() -> (r: Reg)
    ensures
        r == (Reg { class: RegClass::Float, hw_enc: 3 }),
{
    xmm(3)
}

/// `%xmm4`.
pub fn xmm4() -> (r: Reg)
    ensures
        r == (Reg { class: RegClass::Float, hw_enc: 4 }),
{
    xmm(4)
}

/// `%xmm5`.
pub fn xmm5() -> (r: Reg)
    ensures
        r == (Reg { class: RegClass::Float, hw_enc: 5 }),
{
    xmm(5)
}

/// `%xmm6`.
pub fn xmm6() -> (r: Reg)
    ensures
        r == (Reg { class: RegClass::Float, hw_enc: 6 }),
{
    xmm(6)
}

/// `%xmm7`.
pub fn xmm7() -> (r: Reg)
    ensures
        r == (Reg { class: RegClass::Float, hw_enc: 7 }),
{
    xmm(7)
}

} // verus!
