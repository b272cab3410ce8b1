//! The AArch64 ABI: argument and return-value locations, the frame layout,
//! prologue and epilogue generation, stack-slot and spill-slot access, and
//! the call-site register sets.

use vstd::prelude::*;
use crate::inst::{
    ALUOp, ExtendOp, Imm12, Inst, MemArg, PairMemArg, SImm7Scaled, SImm9, spec_gen_move,
};
use crate::ir::{
    AbiParam, ArgumentPurpose, CallConv, ExternalName, Function, Signature, SourceLoc,
    StackSlotData, Type,
};
use crate::regs::{
    RealReg, Reg, RegClass, Writable, spec_fp_reg, spec_link_reg, spec_spilltmp_reg,
    spec_stack_reg, spec_zero_reg, spec_xreg_index, spec_vreg_index, fp_reg, link_reg,
    spilltmp_reg, stack_reg, zero_reg, writable_fp_reg, writable_stack_reg,
    writable_spilltmp_reg, writable_xreg, writable_vreg,
};
use crate::universe::{spec_is_callee_saved, spec_is_caller_saved};

verus! {

/// A fatal compilation error.  There is no partial recovery: a function
/// either compiles cleanly or its compilation is abandoned.
#[derive(Clone, Copy, Debug, PartialEq, Eq, Structural)]
pub enum CodegenError {
    /// The input uses a feature outside this backend's coverage: an unusual
    /// argument purpose, a return value on the stack, or a frame too large
    /// for the frame-offset encodings.
    UnsupportedConstruct,
    /// The register allocator found no feasible allocation.
    RegisterAllocationFailure,
    /// A branch cannot be encoded even in its widest form.
    BranchRangeExhaustion,
    /// An internal invariant was broken; a bug in the caller or the backend.
    InternalInvariantViolation,
}

/// A location for one argument or return value.
#[derive(Clone, Copy, Debug, PartialEq, Eq, Structural)]
pub enum ABIArg {
    /// In a real register.
    Reg(RealReg, Type),
    /// Arguments only: on the stack at the given offset from SP at entry.
    Stack(i64, Type),
    /// First and only return value, in memory named by x8 on entry.
    /// Recognized in the data model but never produced by this backend.
    RetMem(Type),
}

/// The ABI signature: argument and return-value locations and the size of
/// the stack-argument area, 16-byte aligned.
#[derive(Clone, Debug, PartialEq, Eq)]
pub struct ABISig {
    pub args: Vec<ABIArg>,
    pub rets: Vec<ABIArg>,
    pub stack_arg_space: i64,
}

/// Types passed in integer registers.
pub open spec fn spec_in_int_reg(ty: Type) -> bool {
    match ty {
        Type::I8 | Type::I16 | Type::I32 | Type::I64 => true,
        Type::B1 | Type::B8 | Type::B16 | Type::B32 | Type::B64 => true,
        _ => false,
    }
}

/// Whether values of type `ty` are passed in integer registers.
pub fn in_int_reg(ty: Type) -> (b: bool)
    ensures
        b == spec_in_int_reg(ty),
{
    matches!(
        ty,
        Type::I8 | Type::I16 | Type::I32 | Type::I64 | Type::B1 | Type::B8 | Type::B16 | Type::B32
            | Type::B64
    )
}

/// Types passed in vector registers.
pub open spec fn spec_in_vec_reg(ty: Type) -> bool {
    ty is F32 || ty is F64
}

/// Whether values of type `ty` are passed in vector registers.
pub fn in_vec_reg(ty: Type) -> (b: bool)
    ensures
        b == spec_in_vec_reg(ty),
{
    matches!(ty, Type::F32 | Type::F64)
}

/// The register x23 carries the VM context under the Baldrdash conventions.
pub const BALDRDASH_TLS_REG: u8 = 23;

/// The state of the argument-assignment walk: locations chosen so far and
/// the next free integer register, vector register, and stack offset.
pub struct ArgWalk {
    pub args: Seq<ABIArg>,
    pub xregs: int,
    pub vregs: int,
    pub stack: int,
    pub ok: bool,
}

/// One step of the argument-assignment walk over a parameter list.  An
/// integer-typed VM-context parameter under a Baldrdash convention is pinned
/// to x23; otherwise integer and vector parameters take the next free
/// register of their class, and spill to the stack in 8-byte slots once the
/// first eight registers of the class are taken.  Only the `Normal` and
/// `VMContext` purposes are supported.
pub open spec fn spec_arg_step(cc: CallConv, st: ArgWalk, p: AbiParam) -> ArgWalk {
    if !st.ok {
        st
    } else if !(p.purpose is Normal || p.purpose is VMContext) {
        ArgWalk { ok: false, ..st }
    } else if spec_in_int_reg(p.value_type) {
        if p.purpose is VMContext && cc.spec_extends_baldrdash() {
            ArgWalk {
                args: st.args.push(
                    ABIArg::Reg(
                        RealReg {
                            class: RegClass::I64,
                            enc: BALDRDASH_TLS_REG,
                            index: spec_xreg_index(BALDRDASH_TLS_REG),
                        },
                        p.value_type,
                    ),
                ),
                ..st
            }
        } else if st.xregs < 8 {
            ArgWalk {
                args: st.args.push(
                    ABIArg::Reg(
                        RealReg {
                            class: RegClass::I64,
                            enc: st.xregs as u8,
                            index: st.xregs as u8,
                        },
                        p.value_type,
                    ),
                ),
                xregs: st.xregs + 1,
                ..st
            }
        } else {
            ArgWalk {
                args: st.args.push(ABIArg::Stack(st.stack as i64, p.value_type)),
                stack: st.stack + 8,
                ..st
            }
        }
    } else {
        if st.vregs < 8 {
            ArgWalk {
                args: st.args.push(
                    ABIArg::Reg(
                        RealReg {
                            class: RegClass::V128,
                            enc: st.vregs as u8,
                            index: (27 + st.vregs) as u8,
                        },
                        p.value_type,
                    ),
                ),
                vregs: st.vregs + 1,
                ..st
            }
        } else {
            ArgWalk {
                args: st.args.push(ABIArg::Stack(st.stack as i64, p.value_type)),
                stack: st.stack + 8,
                ..st
            }
        }
    }
}

/// The walk after the first `n` parameters.
pub open spec fn spec_arg_walk(cc: CallConv, params: Seq<AbiParam>, n: int) -> ArgWalk
    decreases n,
{
    if n <= 0 {
        ArgWalk { args: Seq::empty(), xregs: 0, vregs: 0, stack: 0, ok: true }
    } else {
        spec_arg_step(cc, spec_arg_walk(cc, params, n - 1), params[n - 1])
    }
}

/// The completed walk over a whole parameter list.
pub open spec fn spec_arg_locs(cc: CallConv, params: Seq<AbiParam>) -> ArgWalk {
    spec_arg_walk(cc, params, params.len() as int)
}

/// The stack-argument area of the walk, rounded up to 16 bytes.
pub open spec fn spec_stack_space(cc: CallConv, params: Seq<AbiParam>) -> int {
    crate::spec_align16(spec_arg_locs(cc, params).stack)
}

proof fn lemma_arg_walk_bounds(cc: CallConv, params: Seq<AbiParam>, n: int)
    requires
        0 <= n <= params.len(),
    ensures
        spec_arg_walk(cc, params, n).ok ==> spec_arg_walk(cc, params, n).args.len() == n,
        0 <= spec_arg_walk(cc, params, n).xregs <= 8,
        0 <= spec_arg_walk(cc, params, n).vregs <= 8,
        0 <= spec_arg_walk(cc, params, n).stack <= 8 * n,
    decreases n,
{
    if n > 0 {
        lemma_arg_walk_bounds(cc, params, n - 1);
        let st = spec_arg_walk(cc, params, n - 1);
        let next = spec_arg_step(cc, st, params[n - 1]);
        if !st.ok {
            assert(next == st);
        }
    }
}

/// Assign a list of parameters or return values to integer registers,
/// vector registers, and stack slots, in order.  Returns the locations and
/// the stack space used, rounded up to 16 bytes; an unsupported argument
/// purpose is a fatal error.
pub fn compute_arg_locs(call_conv: CallConv, params: &Vec<AbiParam>) -> (r: Result<
    (Vec<ABIArg>, i64),
    CodegenError,
>)
    requires
        params@.len() <= 0x10000000,
    ensures
        match r {
            Ok(p) => spec_arg_locs(call_conv, params@).ok && p.0@ == spec_arg_locs(
                call_conv,
                params@,
            ).args && p.1 == spec_stack_space(call_conv, params@),
            Err(e) => e == CodegenError::UnsupportedConstruct && !spec_arg_locs(
                call_conv,
                params@,
            ).ok,
        },
{
    let mut ret: Vec<ABIArg> = Vec::new();
    let mut next_xreg: u8 = 0;
    let mut next_vreg: u8 = 0;
    let mut next_stack: u64 = 0;
    let mut i: usize = 0;
    proof {
        lemma_arg_walk_bounds(call_conv, params@, 0);
    }
    while i < params.len()
        invariant
            i <= params@.len(),
            params@.len() <= 0x10000000,
            spec_arg_walk(call_conv, params@, i as int) == (ArgWalk {
                args: ret@,
                xregs: next_xreg as int,
                vregs: next_vreg as int,
                stack: next_stack as int,
                ok: true,
            }),
            next_xreg <= 8,
            next_vreg <= 8,
            next_stack <= 8 * i,
        decreases params@.len() - i,
    {
        let param = params[i];
        let ghost st = spec_arg_walk(call_conv, params@, i as int);
        proof {
            lemma_arg_walk_bounds(call_conv, params@, i as int);
        }
        match param.purpose {
            ArgumentPurpose::Normal => {},
            ArgumentPurpose::VMContext => {},
            _ => {
                proof {
                    lemma_arg_walk_fail(call_conv, params@, i + 1);
                }
                return Err(CodegenError::UnsupportedConstruct);
            },
        }
        if in_int_reg(param.value_type) {
            if matches!(param.purpose, ArgumentPurpose::VMContext) && call_conv.extends_baldrdash()
            {
                ret.push(ABIArg::Reg(
                    RealReg {
                        class: RegClass::I64,
                        enc: BALDRDASH_TLS_REG,
                        index: 21,
                    },
                    param.value_type,
                ));
            } else if next_xreg < 8 {
                ret.push(ABIArg::Reg(
                    RealReg { class: RegClass::I64, enc: next_xreg, index: next_xreg },
                    param.value_type,
                ));
                next_xreg = next_xreg + 1;
            } else {
                ret.push(ABIArg::Stack(next_stack as i64, param.value_type));
                next_stack = next_stack + 8;
            }
        } else {
            if next_vreg < 8 {
                ret.push(ABIArg::Reg(
                    RealReg { class: RegClass::V128, enc: next_vreg, index: 27 + next_vreg },
                    param.value_type,
                ));
                next_vreg = next_vreg + 1;
            } else {
                ret.push(ABIArg::Stack(next_stack as i64, param.value_type));
                next_stack = next_stack + 8;
            }
        }
        i = i + 1;
    }
    let space = crate::align_to_16(next_stack);
    Ok((ret, space as i64))
}

/// The lengths and counters of a completed walk, for callers that relate
/// location lists to parameter lists.
pub proof fn lemma_arg_walk_lengths(cc: CallConv, params: Seq<AbiParam>, n: int)
    requires
        0 <= n <= params.len(),
    ensures
        spec_arg_walk(cc, params, n).ok ==> spec_arg_walk(cc, params, n).args.len() == n,
        0 <= spec_arg_walk(cc, params, n).stack <= 8 * n,
{
    lemma_arg_walk_bounds(cc, params, n);
}

/// Once the walk has failed it stays failed.
proof fn lemma_arg_walk_fail(cc: CallConv, params: Seq<AbiParam>, n: int)
    requires
        0 <= n <= params.len(),
        !spec_arg_walk(cc, params, n).ok,
    ensures
        !spec_arg_locs(cc, params).ok,
    decreases params.len() - n,
{
    if n < params.len() {
        lemma_arg_walk_fail(cc, params, n + 1);
    }
}

/// No location in the list is a stack location.
pub open spec fn spec_no_stack(args: Seq<ABIArg>) -> bool {
    forall|i: int| 0 <= i < args.len() ==> !((#[trigger] args[i]) is Stack)
}

/// No location in the list is a return-memory location.
pub open spec fn spec_no_retmem(args: Seq<ABIArg>) -> bool {
    forall|i: int| 0 <= i < args.len() ==> !((#[trigger] args[i]) is RetMem)
}

/// The walk never places anything in the return-memory area.
proof fn lemma_arg_walk_no_retmem(cc: CallConv, params: Seq<AbiParam>, n: int)
    requires
        0 <= n <= params.len(),
    ensures
        spec_no_retmem(spec_arg_walk(cc, params, n).args),
    decreases n,
{
    if n > 0 {
        lemma_arg_walk_no_retmem(cc, params, n - 1);
    }
}

impl ABISig {
    /// Resolve a function signature to argument and return-value locations.
    /// Fails on an unsupported argument purpose and on return values that
    /// would land on the stack, which this backend does not support.
    #[verifier::loop_isolation(false)]
    pub fn from_func_sig(sig: &Signature) -> (r: Result<ABISig, CodegenError>)
        requires
            sig.params@.len() <= 0x10000000,
            sig.returns@.len() <= 0x10000000,
        ensures
            match r {
                Ok(s) => {
                    &&& spec_arg_locs(sig.call_conv, sig.params@).ok
                    &&& spec_arg_locs(sig.call_conv, sig.returns@).ok
                    &&& s.args@ == spec_arg_locs(sig.call_conv, sig.params@).args
                    &&& s.rets@ == spec_arg_locs(sig.call_conv, sig.returns@).args
                    &&& s.stack_arg_space == spec_stack_space(sig.call_conv, sig.params@)
                    &&& spec_no_stack(s.rets@)
                    &&& spec_no_retmem(s.args@)
                },
                Err(e) => {
                    &&& e == CodegenError::UnsupportedConstruct
                    &&& (!spec_arg_locs(sig.call_conv, sig.params@).ok || !spec_arg_locs(
                        sig.call_conv,
                        sig.returns@,
                    ).ok || !spec_no_stack(spec_arg_locs(sig.call_conv, sig.returns@).args))
                },
            },
    {
        let args_space = compute_arg_locs(sig.call_conv, &sig.params)?;
        let (args, stack_arg_space) = args_space;
        let rets_space = compute_arg_locs(sig.call_conv, &sig.returns)?;
        let (rets, _rets_space) = rets_space;
        // Return values on the stack are not supported in this backend.
        let mut i: usize = 0;
        while i < rets.len()
            invariant
                i <= rets@.len(),
                forall|j: int| 0 <= j < i ==> !((#[trigger] rets@[j]) is Stack),
            decreases rets@.len() - i,
        {
            if matches!(rets[i], ABIArg::Stack(..)) {
                proof {
                    assert(rets@[i as int] is Stack);
                    let wargs = spec_arg_locs(sig.call_conv, sig.returns@).args;
                    assert(wargs[i as int] is Stack);
                    assert(!spec_no_stack(wargs));
                }
                return Err(CodegenError::UnsupportedConstruct);
            }
            i = i + 1;
        }
        proof {
            lemma_arg_walk_no_retmem(sig.call_conv, sig.params@, sig.params@.len() as int);
        }
        Ok(ABISig { args, rets, stack_arg_space })
    }
}

/// The load instruction for a value of type `ty` at `fp_offset` from the
/// frame pointer: integer and boolean types load a full 64-bit word.
pub open spec fn spec_load_stack(fp_offset: i64, into_reg: Writable<Reg>, ty: Type) -> Inst {
    match ty {
        Type::F32 => Inst::FpuLoad32 { rd: into_reg, mem: MemArg::FPOffset(fp_offset) },
        Type::F64 => Inst::FpuLoad64 { rd: into_reg, mem: MemArg::FPOffset(fp_offset) },
        _ => Inst::ULoad64 { rd: into_reg, mem: MemArg::FPOffset(fp_offset) },
    }
}

/// A load from the stack frame at `fp_offset` into `into_reg`.
pub fn load_stack(fp_offset: i64, into_reg: Writable<Reg>, ty: Type) -> (i: Inst)
    ensures
        i == spec_load_stack(fp_offset, into_reg, ty),
{
    let mem = MemArg::FPOffset(fp_offset);
    match ty {
        Type::F32 => Inst::FpuLoad32 { rd: into_reg, mem },
        Type::F64 => Inst::FpuLoad64 { rd: into_reg, mem },
        _ => Inst::ULoad64 { rd: into_reg, mem },
    }
}

/// The store instruction for a value of type `ty` at `fp_offset` from the
/// frame pointer.
pub open spec fn spec_store_stack(fp_offset: i64, from_reg: Reg, ty: Type) -> Inst {
    match ty {
        Type::F32 => Inst::FpuStore32 { rd: from_reg, mem: MemArg::FPOffset(fp_offset) },
        Type::F64 => Inst::FpuStore64 { rd: from_reg, mem: MemArg::FPOffset(fp_offset) },
        _ => Inst::Store64 { rd: from_reg, mem: MemArg::FPOffset(fp_offset) },
    }
}

/// A store of `from_reg` into the stack frame at `fp_offset`.
pub fn store_stack(fp_offset: i64, from_reg: Reg, ty: Type) -> (i: Inst)
    ensures
        i == spec_store_stack(fp_offset, from_reg, ty),
{
    let mem = MemArg::FPOffset(fp_offset);
    match ty {
        Type::F32 => Inst::FpuStore32 { rd: from_reg, mem },
        Type::F64 => Inst::FpuStore64 { rd: from_reg, mem },
        _ => Inst::Store64 { rd: from_reg, mem },
    }
}

/// Whether `r` is callee-saved under the AArch64 conventions: x19..x28 and
/// v8..v15.
pub fn is_callee_save(r: RealReg) -> (b: bool)
    ensures
        b == spec_is_callee_saved(r),
{
    match r.class {
        RegClass::I64 => 19 <= r.enc && r.enc <= 28,
        RegClass::V128 => 8 <= r.enc && r.enc <= 15,
    }
}

/// Whether `r` is caller-saved: x0..x17, v0..v7 and v16..v31.
pub fn is_caller_save(r: RealReg) -> (b: bool)
    ensures
        b == spec_is_caller_saved(r),
{
    match r.class {
        RegClass::I64 => r.enc <= 17,
        RegClass::V128 => r.enc <= 7 || (16 <= r.enc && r.enc <= 31),
    }
}

/// The callee-saved integer registers of `regs`, in order.
pub open spec fn spec_int_callee_saves(regs: Seq<Writable<RealReg>>) -> Seq<Writable<RealReg>>
    decreases regs.len(),
{
    if regs.len() == 0 {
        Seq::empty()
    } else {
        spec_int_callee_saves(regs.drop_last()) + (if spec_is_callee_saved(regs.last().reg)
            && regs.last().reg.class is I64 {
            seq![regs.last()]
        } else {
            Seq::empty()
        })
    }
}

/// The callee-saved vector registers of `regs`, in order.
pub open spec fn spec_vec_callee_saves(regs: Seq<Writable<RealReg>>) -> Seq<Writable<RealReg>>
    decreases regs.len(),
{
    if regs.len() == 0 {
        Seq::empty()
    } else {
        spec_vec_callee_saves(regs.drop_last()) + (if spec_is_callee_saved(regs.last().reg)
            && regs.last().reg.class is V128 {
            seq![regs.last()]
        } else {
            Seq::empty()
        })
    }
}

/// Split a clobber list into its callee-saved integer and vector registers,
/// keeping their order.
pub fn get_callee_saves(regs: &Vec<Writable<RealReg>>) -> (r: (
    Vec<Writable<RealReg>>,
    Vec<Writable<RealReg>>,
))
    ensures
        r.0@ == spec_int_callee_saves(regs@),
        r.1@ == spec_vec_callee_saves(regs@),
{
    let mut int_saves: Vec<Writable<RealReg>> = Vec::new();
    let mut vec_saves: Vec<Writable<RealReg>> = Vec::new();
    let mut i: usize = 0;
    while i < regs.len()
        invariant
            i <= regs@.len(),
            int_saves@ == spec_int_callee_saves(regs@.subrange(0, i as int)),
            vec_saves@ == spec_vec_callee_saves(regs@.subrange(0, i as int)),
        decreases regs@.len() - i,
    {
        let reg = regs[i];
        if is_callee_save(reg.reg) {
            match reg.reg.class {
                RegClass::I64 => int_saves.push(reg),
                RegClass::V128 => vec_saves.push(reg),
            }
        }
        proof {
            assert(regs@.subrange(0, i + 1).drop_last() =~= regs@.subrange(0, i as int));
            assert(regs@.subrange(0, i + 1).last() == regs@[i as int]);
            assert(int_saves@ =~= spec_int_callee_saves(regs@.subrange(0, i + 1)));
            assert(vec_saves@ =~= spec_vec_callee_saves(regs@.subrange(0, i + 1)));
        }
        i = i + 1;
    }
    proof {
        assert(regs@.subrange(0, regs@.len() as int) =~= regs@);
    }
    (int_saves, vec_saves)
}

/// The caller-saved integer registers among x0..x28, in encoding order.
pub open spec fn spec_x_caller_saves(n: int) -> Seq<Writable<Reg>>
    decreases n,
{
    if n <= 0 {
        Seq::empty()
    } else {
        let r = RealReg {
            class: RegClass::I64,
            enc: (n - 1) as u8,
            index: spec_xreg_index((n - 1) as u8),
        };
        spec_x_caller_saves(n - 1) + (if spec_is_caller_saved(r) {
            seq![Writable { reg: Reg::Real(r) }]
        } else {
            Seq::empty()
        })
    }
}

/// The caller-saved vector registers among v0..v31, in encoding order.
pub open spec fn spec_v_caller_saves(n: int) -> Seq<Writable<Reg>>
    decreases n,
{
    if n <= 0 {
        Seq::empty()
    } else {
        let r = RealReg {
            class: RegClass::V128,
            enc: (n - 1) as u8,
            index: spec_vreg_index((n - 1) as u8),
        };
        spec_v_caller_saves(n - 1) + (if spec_is_caller_saved(r) {
            seq![Writable { reg: Reg::Real(r) }]
        } else {
            Seq::empty()
        })
    }
}

/// All caller-saved registers, integer then vector.
pub open spec fn spec_caller_saves() -> Seq<Writable<Reg>> {
    spec_x_caller_saves(29) + spec_v_caller_saves(32)
}

/// The set of caller-saved registers, as a list in encoding order: these
/// are what a call clobbers.
pub fn get_caller_saves_set() -> (r: Vec<Writable<Reg>>)
    ensures
        r@ == spec_caller_saves(),
{
    let mut set: Vec<Writable<Reg>> = Vec::new();
    let mut i: u8 = 0;
    while i < 29
        invariant
            i <= 29,
            set@ == spec_x_caller_saves(i as int),
        decreases 29 - i,
    {
        let x = writable_xreg(i);
        let rr = x.reg.to_real_reg();
        if is_caller_save(rr) {
            set.push(x);
        }
        proof {
            assert(set@ =~= spec_x_caller_saves(i + 1));
        }
        i = i + 1;
    }
    let mut j: u8 = 0;
    while j < 32
        invariant
            j <= 32,
            set@ == spec_x_caller_saves(29) + spec_v_caller_saves(j as int),
        decreases 32 - j,
    {
        let v = writable_vreg(j);
        let rr = v.reg.to_real_reg();
        if is_caller_save(rr) {
            set.push(v);
        }
        proof {
            assert(set@ =~= spec_x_caller_saves(29) + spec_v_caller_saves(j + 1));
        }
        j = j + 1;
    }
    set
}

/// The registers among `args` that are register locations, as plain
/// registers.
pub open spec fn spec_arg_uses(args: Seq<ABIArg>) -> Seq<Reg>
    decreases args.len(),
{
    if args.len() == 0 {
        Seq::empty()
    } else {
        spec_arg_uses(args.drop_last()) + (match args.last() {
            ABIArg::Reg(r, _) => seq![Reg::Real(r)],
            _ => Seq::empty(),
        })
    }
}

/// The registers among `rets` that are register locations, as writable
/// registers.
pub open spec fn spec_ret_defs(rets: Seq<ABIArg>) -> Seq<Writable<Reg>>
    decreases rets.len(),
{
    if rets.len() == 0 {
        Seq::empty()
    } else {
        spec_ret_defs(rets.drop_last()) + (match rets.last() {
            ABIArg::Reg(r, _) => seq![Writable { reg: Reg::Real(r) }],
            _ => Seq::empty(),
        })
    }
}

/// The register sets of a call with this signature: it reads every
/// argument-passing register, and it writes every caller-saved register and
/// every register-resident return value (the latter are all caller-saved,
/// so a repeated entry stands for the same clobber).
pub fn abisig_to_uses_and_defs(sig: &ABISig) -> (r: (Vec<Reg>, Vec<Writable<Reg>>))
    ensures
        r.0@ == spec_arg_uses(sig.args@),
        r.1@ == spec_caller_saves() + spec_ret_defs(sig.rets@),
{
    let mut uses: Vec<Reg> = Vec::new();
    let mut i: usize = 0;
    while i < sig.args.len()
        invariant
            i <= sig.args@.len(),
            uses@ == spec_arg_uses(sig.args@.subrange(0, i as int)),
        decreases sig.args@.len() - i,
    {
        match &sig.args[i] {
            ABIArg::Reg(r, _) => {
                uses.push(Reg::Real(*r));
            },
            _ => {},
        }
        proof {
            assert(sig.args@.subrange(0, i + 1).drop_last() =~= sig.args@.subrange(0, i as int));
            assert(uses@ =~= spec_arg_uses(sig.args@.subrange(0, i + 1)));
        }
        i = i + 1;
    }
    proof {
        assert(sig.args@.subrange(0, sig.args@.len() as int) =~= sig.args@);
    }
    let mut defs: Vec<Writable<Reg>> = get_caller_saves_set();
    let mut j: usize = 0;
    while j < sig.rets.len()
        invariant
            j <= sig.rets@.len(),
            defs@ == spec_caller_saves() + spec_ret_defs(sig.rets@.subrange(0, j as int)),
        decreases sig.rets@.len() - j,
    {
        match &sig.rets[j] {
            ABIArg::Reg(r, _) => {
                defs.push(Writable { reg: Reg::Real(*r) });
            },
            _ => {},
        }
        proof {
            assert(sig.rets@.subrange(0, j + 1).drop_last() =~= sig.rets@.subrange(0, j as int));
            assert(defs@ =~= spec_caller_saves() + spec_ret_defs(sig.rets@.subrange(0, j + 1)));
        }
        j = j + 1;
    }
    proof {
        assert(sig.rets@.subrange(0, sig.rets@.len() as int) =~= sig.rets@);
    }
    (uses, defs)
}

/// The stack-slot layout walk: offsets assigned so far and the total size.
/// Each slot is placed at the current total, which then grows by the slot's
/// size rounded up to 8 bytes.
pub struct SlotWalk {
    pub offs: Seq<int>,
    pub size: int,
}

/// The layout after the first `n` stack slots.
pub open spec fn spec_slot_walk(slots: Seq<StackSlotData>, n: int) -> SlotWalk
    decreases n,
{
    if n <= 0 {
        SlotWalk { offs: Seq::empty(), size: 0 }
    } else {
        let w = spec_slot_walk(slots, n - 1);
        SlotWalk {
            offs: w.offs.push(w.size),
            size: crate::spec_align8(w.size + slots[n - 1].size),
        }
    }
}

proof fn lemma_slot_walk_bounds(slots: Seq<StackSlotData>, n: int)
    requires
        0 <= n <= slots.len(),
    ensures
        spec_slot_walk(slots, n).offs.len() == n,
        0 <= spec_slot_walk(slots, n).size,
        spec_slot_walk(slots, n).size % 8 == 0,
        forall|i: int|
            0 <= i < n ==> 0 <= #[trigger] spec_slot_walk(slots, n).offs[i] <= spec_slot_walk(
                slots,
                n,
            ).size,
        forall|m: int|
            0 <= m <= n ==> #[trigger] spec_slot_walk(slots, m).size <= spec_slot_walk(
                slots,
                n,
            ).size,
    decreases n,
{
    if n > 0 {
        lemma_slot_walk_bounds(slots, n - 1);
        let w = spec_slot_walk(slots, n - 1);
        assert(w.size + slots[n - 1].size <= crate::spec_align8(w.size + slots[n - 1].size));
        assert(forall|m: int|
            0 <= m <= n - 1 ==> #[trigger] spec_slot_walk(slots, m).size <= spec_slot_walk(
                slots,
                n - 1,
            ).size);
    }
}

/// The largest frame region the frame-offset encodings can address.
pub const MAX_FRAME_OFFSET: u64 = 65536;

/// The AArch64 ABI state for a function body: the resolved signature, the
/// stack-slot layout, and, once the allocator has reported them, the spill
/// count and the clobber set.
pub struct ARM64ABIBody {
    /// The resolved signature: argument and return-value locations.
    pub sig: ABISig,
    /// The offset of each stack slot from the bottom of the stack-slot area.
    pub stackslots: Vec<u64>,
    /// The total size of the stack-slot area.
    pub stackslots_size: u64,
    /// Clobbered registers, reported by the register allocator.
    pub clobbered: Vec<Writable<RealReg>>,
    /// The number of spill slots, reported by the register allocator.
    pub spillslots: Option<u32>,
    /// The total frame size, known once the prologue is generated.
    pub total_frame_size: Option<u64>,
    pub call_conv: CallConv,
}

impl ARM64ABIBody {
    /// Internal consistency: return values in registers only, no
    /// return-memory arguments, stack-argument offsets in range, and the
    /// stack-slot area addressable from the frame pointer.
    pub open spec fn wf(self) -> bool {
        &&& spec_no_retmem(self.sig.args@)
        &&& spec_no_retmem(self.sig.rets@)
        &&& spec_no_stack(self.sig.rets@)
        &&& 0 <= self.sig.stack_arg_space <= 0x80000010
        &&& forall|i: int|
            0 <= i < self.sig.args@.len() ==> match #[trigger] self.sig.args@[i] {
                ABIArg::Stack(off, _) => 0 <= off <= 0x80000000,
                _ => true,
            }
        &&& self.stackslots_size <= MAX_FRAME_OFFSET
        &&& self.stackslots_size % 8 == 0
        &&& forall|i: int|
            0 <= i < self.stackslots@.len() ==> #[trigger] self.stackslots@[i]
                <= self.stackslots_size
    }

    /// Build the ABI state for `f`: resolve the signature and lay out the
    /// stack slots bottom-up, each aligned to 8 bytes.  Fails on an
    /// unsupported signature or a stack-slot area beyond the addressable
    /// frame range.
    #[verifier::loop_isolation(false)]
    pub fn new(f: &Function) -> (r: Result<ARM64ABIBody, CodegenError>)
        requires
            f.signature.params@.len() <= 0x10000000,
            f.signature.returns@.len() <= 0x10000000,
        ensures
            match r {
                Ok(body) => {
                    &&& body.wf()
                    &&& spec_arg_locs(f.signature.call_conv, f.signature.params@).ok
                    &&& body.sig.args@ == spec_arg_locs(
                        f.signature.call_conv,
                        f.signature.params@,
                    ).args
                    &&& body.sig.rets@ == spec_arg_locs(
                        f.signature.call_conv,
                        f.signature.returns@,
                    ).args
                    &&& body.sig.stack_arg_space == spec_stack_space(
                        f.signature.call_conv,
                        f.signature.params@,
                    )
                    &&& body.stackslots@.len() == f.stack_slots@.len()
                    &&& forall|i: int|
                        0 <= i < f.stack_slots@.len() ==> #[trigger] body.stackslots@[i]
                            == spec_slot_walk(f.stack_slots@, f.stack_slots@.len() as int).offs[i]
                    &&& body.stackslots_size == spec_slot_walk(
                        f.stack_slots@,
                        f.stack_slots@.len() as int,
                    ).size
                    &&& body.clobbered@ == Seq::<Writable<RealReg>>::empty()
                    &&& body.spillslots is None
                    &&& body.total_frame_size is None
                    &&& body.call_conv == f.signature.call_conv
                },
                Err(e) => {
                    &&& e == CodegenError::UnsupportedConstruct
                    &&& (!spec_arg_locs(f.signature.call_conv, f.signature.params@).ok
                        || !spec_arg_locs(f.signature.call_conv, f.signature.returns@).ok
                        || !spec_no_stack(
                        spec_arg_locs(f.signature.call_conv, f.signature.returns@).args,
                    ) || spec_slot_walk(f.stack_slots@, f.stack_slots@.len() as int).size
                        > MAX_FRAME_OFFSET)
                },
            },
    {
        proof {
            lemma_slot_walk_bounds(f.stack_slots@, f.stack_slots@.len() as int);
        }
        let sig = ABISig::from_func_sig(&f.signature)?;
        let mut stack_offset: u64 = 0;
        let mut stackslots: Vec<u64> = Vec::new();
        let mut i: usize = 0;
        while i < f.stack_slots.len()
            invariant
                i <= f.stack_slots@.len(),
                stackslots@.len() == i,
                stack_offset == spec_slot_walk(f.stack_slots@, i as int).size,
                stack_offset <= MAX_FRAME_OFFSET,
                forall|j: int|
                    0 <= j < i ==> #[trigger] stackslots@[j] == spec_slot_walk(
                        f.stack_slots@,
                        i as int,
                    ).offs[j],
            decreases f.stack_slots@.len() - i,
        {
            proof {
                lemma_slot_walk_bounds(f.stack_slots@, i as int);
                lemma_slot_walk_bounds(f.stack_slots@, i + 1);
            }
            let off = stack_offset;
            let size = f.stack_slots[i].size as u64;
            let grown: u64 = stack_offset + size;
            let g7: u64 = grown + 7;
            let aligned: u64 = g7 & !7u64;
            proof {
                assert(g7 & !7u64 == g7 - (g7 % 8)) by (bit_vector);
                assert((g7 as int / 8) * 8 == g7 as int - (g7 as int % 8));
                assert(aligned == crate::spec_align8(grown as int));
            }
            if aligned > MAX_FRAME_OFFSET {
                proof {
                    let all = f.stack_slots@.len() as int;
                    assert(spec_slot_walk(f.stack_slots@, i + 1).size <= spec_slot_walk(
                        f.stack_slots@,
                        all,
                    ).size);
                }
                return Err(CodegenError::UnsupportedConstruct);
            }
            stackslots.push(off);
            stack_offset = aligned;
            proof {
                let w = spec_slot_walk(f.stack_slots@, i + 1);
                assert(forall|j: int|
                    0 <= j < i ==> spec_slot_walk(f.stack_slots@, i as int).offs[j]
                        == #[trigger] w.offs[j]);
            }
            i = i + 1;
        }
        proof {
            lemma_arg_walk_stack_offsets(
                f.signature.call_conv,
                f.signature.params@,
                f.signature.params@.len() as int,
            );
            lemma_arg_walk_bounds(
                f.signature.call_conv,
                f.signature.params@,
                f.signature.params@.len() as int,
            );
            lemma_arg_walk_no_retmem(
                f.signature.call_conv,
                f.signature.returns@,
                f.signature.returns@.len() as int,
            );
        }
        Ok(
            ARM64ABIBody {
                sig,
                stackslots,
                stackslots_size: stack_offset,
                clobbered: Vec::new(),
                spillslots: None,
                total_frame_size: None,
                call_conv: f.signature.call_conv,
            },
        )
    }

    /// The physical registers live at function entry: the register-resident
    /// arguments.
    pub fn liveins(&self) -> (r: Vec<RealReg>)
        ensures
            r@ == spec_reg_locs(self.sig.args@),
    {
        reg_locs(&self.sig.args)
    }

    /// The physical registers live at function exit: the register-resident
    /// return values.
    pub fn liveouts(&self) -> (r: Vec<RealReg>)
        ensures
            r@ == spec_reg_locs(self.sig.rets@),
    {
        reg_locs(&self.sig.rets)
    }

    pub fn num_args(&self) -> (n: usize)
        ensures
            n == self.sig.args@.len(),
    {
        self.sig.args.len()
    }

    pub fn num_retvals(&self) -> (n: usize)
        ensures
            n == self.sig.rets@.len(),
    {
        self.sig.rets.len()
    }

    pub fn num_stackslots(&self) -> (n: usize)
        ensures
            n == self.stackslots@.len(),
    {
        self.stackslots.len()
    }

    /// The instruction that materializes argument `idx` into `into_reg`: a
    /// move from its register, or a load from the caller's stack-argument
    /// area, which sits 16 bytes above FP, past the saved FP/LR pair.
    pub fn gen_copy_arg_to_reg(&self, idx: usize, into_reg: Writable<Reg>) -> (i: Inst)
        requires
            self.wf(),
            idx < self.sig.args@.len(),
        ensures
            i == (match self.sig.args@[idx as int] {
                ABIArg::Reg(r, ty) => spec_gen_move(into_reg, Reg::Real(r), ty),
                ABIArg::Stack(off, ty) => spec_load_stack((off + 16) as i64, into_reg, ty),
                ABIArg::RetMem(ty) => arbitrary(),
            }),
    {
        match &self.sig.args[idx] {
            ABIArg::Reg(r, ty) => Inst::gen_move(into_reg, Reg::Real(*r), *ty),
            ABIArg::Stack(off, ty) => load_stack(*off + 16, into_reg, *ty),
            ABIArg::RetMem(_) => {
                proof {
                    assert(false);
                }
                Inst::Nop0
            },
        }
    }

    /// The instruction that materializes `from_reg` into return-value
    /// position `idx`.
    pub fn gen_copy_reg_to_retval(&self, idx: usize, from_reg: Reg) -> (i: Inst)
        requires
            self.wf(),
            idx < self.sig.rets@.len(),
        ensures
            i == (match self.sig.rets@[idx as int] {
                ABIArg::Reg(r, ty) => spec_gen_move(Writable { reg: Reg::Real(r) }, from_reg, ty),
                ABIArg::Stack(off, ty) => arbitrary(),
                ABIArg::RetMem(ty) => arbitrary(),
            }),
    {
        match &self.sig.rets[idx] {
            ABIArg::Reg(r, ty) => Inst::gen_move(
                Writable { reg: Reg::Real(*r) },
                from_reg,
                *ty,
            ),
            _ => {
                proof {
                    assert(false);
                }
                Inst::Nop0
            },
        }
    }

    /// The return instruction.
    pub fn gen_ret(&self) -> (i: Inst)
        ensures
            i == Inst::Ret,
    {
        Inst::Ret
    }

    /// The placeholder that the epilogue replaces after register
    /// allocation.
    pub fn gen_epilogue_placeholder(&self) -> (i: Inst)
        ensures
            i == Inst::EpiloguePlaceholder,
    {
        Inst::EpiloguePlaceholder
    }

    /// Record the allocator's spill-slot count.
    pub fn set_num_spillslots(&mut self, slots: u32)
        ensures
            *final(self) == (ARM64ABIBody { spillslots: Some(slots), ..*old(self) }),
    {
        self.spillslots = Some(slots);
    }

    /// Record the allocator's clobber set.
    pub fn set_clobbered(&mut self, clobbered: Vec<Writable<RealReg>>)
        ensures
            *final(self) == (ARM64ABIBody { clobbered, ..*old(self) }),
    {
        self.clobbered = clobbered;
    }

    /// A load from IR stack slot `slot` at byte offset `offset`.  The slot
    /// area sits immediately below FP.
    pub fn load_stackslot(&self, slot: usize, offset: u64, ty: Type, into_reg: Writable<Reg>) -> (i:
        Inst)
        requires
            self.wf(),
            slot < self.stackslots@.len(),
            self.stackslots@[slot as int] + offset <= self.stackslots_size,
        ensures
            i == spec_load_stack(
                (self.stackslots@[slot as int] + offset - self.stackslots_size) as i64,
                into_reg,
                ty,
            ),
    {
        let stack_off = self.stackslots[slot];
        let fp_off: i64 = -(self.stackslots_size as i64) + stack_off as i64 + offset as i64;
        load_stack(fp_off, into_reg, ty)
    }

    /// A store to IR stack slot `slot` at byte offset `offset`.
    pub fn store_stackslot(&self, slot: usize, offset: u64, ty: Type, from_reg: Reg) -> (i: Inst)
        requires
            self.wf(),
            slot < self.stackslots@.len(),
            self.stackslots@[slot as int] + offset <= self.stackslots_size,
        ensures
            i == spec_store_stack(
                (self.stackslots@[slot as int] + offset - self.stackslots_size) as i64,
                from_reg,
                ty,
            ),
    {
        let stack_off = self.stackslots[slot];
        let fp_off: i64 = -(self.stackslots_size as i64) + stack_off as i64 + offset as i64;
        store_stack(fp_off, from_reg, ty)
    }

    /// How many 8-byte units a spilled value of class `rc` and type `ty`
    /// occupies.
    pub fn get_spillslot_size(&self, rc: RegClass, ty: Type) -> (n: u32)
        ensures
            n == spec_spillslot_size(rc, ty),
    {
        match rc {
            RegClass::I64 => 1,
            RegClass::V128 => match ty {
                Type::F32 => 1,
                Type::F64 => 1,
                _ => 2,
            },
        }
    }

    /// A load from spill slot `slot`.  Spill slots are addressed downward
    /// from the bottom of the stack-slot area, so their offsets are final
    /// before the spill count is known.
    pub fn load_spillslot(&self, slot: u32, ty: Type, into_reg: Writable<Reg>) -> (i: Inst)
        requires
            self.wf(),
            into_reg.reg.spec_class() == (if spec_in_vec_reg(ty) {
                RegClass::V128
            } else {
                RegClass::I64
            }),
            self.stackslots_size + 8 * slot + 8 * spec_spillslot_size(into_reg.reg.spec_class(), ty)
                <= MAX_FRAME_OFFSET,
        ensures
            i == spec_load_stack(
                (0 - (self.stackslots_size + 8 * slot + 8 * spec_spillslot_size(
                    into_reg.reg.spec_class(),
                    ty,
                ))) as i64,
                into_reg,
                ty,
            ),
    {
        let islot = slot as i64;
        let ty_size = self.get_spillslot_size(into_reg.reg.get_class(), ty) as i64 * 8;
        let fp_off: i64 = -(self.stackslots_size as i64) - (8 * islot) - ty_size;
        load_stack(fp_off, into_reg, ty)
    }

    /// A store to spill slot `slot`.
    pub fn store_spillslot(&self, slot: u32, ty: Type, from_reg: Reg) -> (i: Inst)
        requires
            self.wf(),
            from_reg.spec_class() == (if spec_in_vec_reg(ty) {
                RegClass::V128
            } else {
                RegClass::I64
            }),
            self.stackslots_size + 8 * slot + 8 * spec_spillslot_size(from_reg.spec_class(), ty)
                <= MAX_FRAME_OFFSET,
        ensures
            i == spec_store_stack(
                (0 - (self.stackslots_size + 8 * slot + 8 * spec_spillslot_size(
                    from_reg.spec_class(),
                    ty,
                ))) as i64,
                from_reg,
                ty,
            ),
    {
        let islot = slot as i64;
        let ty_size = self.get_spillslot_size(from_reg.get_class(), ty) as i64 * 8;
        let fp_off: i64 = -(self.stackslots_size as i64) - (8 * islot) - ty_size;
        store_stack(fp_off, from_reg, ty)
    }

    /// The spill instruction the allocator requests.
    pub fn gen_spill(&self, to_slot: u32, from_reg: RealReg, ty: Type) -> (i: Inst)
        requires
            self.wf(),
            from_reg.class == (if spec_in_vec_reg(ty) {
                RegClass::V128
            } else {
                RegClass::I64
            }),
            self.stackslots_size + 8 * to_slot + 8 * spec_spillslot_size(from_reg.class, ty)
                <= MAX_FRAME_OFFSET,
        ensures
            i == spec_store_stack(
                (0 - (self.stackslots_size + 8 * to_slot + 8 * spec_spillslot_size(
                    from_reg.class,
                    ty,
                ))) as i64,
                Reg::Real(from_reg),
                ty,
            ),
    {
        self.store_spillslot(to_slot, ty, Reg::Real(from_reg))
    }

    /// The reload instruction the allocator requests.
    pub fn gen_reload(&self, to_reg: Writable<RealReg>, from_slot: u32, ty: Type) -> (i: Inst)
        requires
            self.wf(),
            to_reg.reg.class == (if spec_in_vec_reg(ty) {
                RegClass::V128
            } else {
                RegClass::I64
            }),
            self.stackslots_size + 8 * from_slot + 8 * spec_spillslot_size(to_reg.reg.class, ty)
                <= MAX_FRAME_OFFSET,
        ensures
            i == spec_load_stack(
                (0 - (self.stackslots_size + 8 * from_slot + 8 * spec_spillslot_size(
                    to_reg.reg.class,
                    ty,
                ))) as i64,
                Writable { reg: Reg::Real(to_reg.reg) },
                ty,
            ),
    {
        self.load_spillslot(from_slot, ty, Writable { reg: Reg::Real(to_reg.reg) })
    }

    /// The frame size, available once the prologue has been generated.
    pub fn frame_size(&self) -> (n: u64)
        requires
            self.total_frame_size is Some,
        ensures
            n == self.total_frame_size->0,
    {
        match self.total_frame_size {
            Some(n) => n,
            None => {
                proof {
                    assert(false);
                }
                0
            },
        }
    }
}

/// How many 8-byte units a spilled value occupies: one for integers and
/// scalar floats, two for full vectors.
pub open spec fn spec_spillslot_size(rc: RegClass, ty: Type) -> u32 {
    match rc {
        RegClass::I64 => 1,
        RegClass::V128 => match ty {
            Type::F32 => 1,
            Type::F64 => 1,
            _ => 2,
        },
    }
}

/// The register locations in `args`, in order.
pub open spec fn spec_reg_locs(args: Seq<ABIArg>) -> Seq<RealReg>
    decreases args.len(),
{
    if args.len() == 0 {
        Seq::empty()
    } else {
        spec_reg_locs(args.drop_last()) + (match args.last() {
            ABIArg::Reg(r, _) => seq![r],
            _ => Seq::empty(),
        })
    }
}

fn reg_locs(args: &Vec<ABIArg>) -> (r: Vec<RealReg>)
    ensures
        r@ == spec_reg_locs(args@),
{
    let mut out: Vec<RealReg> = Vec::new();
    let mut i: usize = 0;
    while i < args.len()
        invariant
            i <= args@.len(),
            out@ == spec_reg_locs(args@.subrange(0, i as int)),
        decreases args@.len() - i,
    {
        match &args[i] {
            ABIArg::Reg(r, _) => out.push(*r),
            _ => {},
        }
        proof {
            assert(args@.subrange(0, i + 1).drop_last() =~= args@.subrange(0, i as int));
            assert(out@ =~= spec_reg_locs(args@.subrange(0, i + 1)));
        }
        i = i + 1;
    }
    proof {
        assert(args@.subrange(0, args@.len() as int) =~= args@);
    }
    out
}

/// Every stack location the walk assigns lies within the final
/// stack-argument area.
proof fn lemma_arg_walk_stack_offsets(cc: CallConv, params: Seq<AbiParam>, n: int)
    requires
        0 <= n <= params.len(),
        params.len() <= 0x10000000,
    ensures
        forall|i: int|
            0 <= i < spec_arg_walk(cc, params, n).args.len() ==> match #[trigger] spec_arg_walk(
                cc,
                params,
                n,
            ).args[i] {
                ABIArg::Stack(off, _) => 0 <= off <= spec_arg_walk(cc, params, n).stack,
                _ => true,
            },
    decreases n,
{
    if n > 0 {
        lemma_arg_walk_stack_offsets(cc, params, n - 1);
        lemma_arg_walk_bounds(cc, params, n - 1);
        let st = spec_arg_walk(cc, params, n - 1);
        let next = spec_arg_step(cc, st, params[n - 1]);
        assert(st.stack <= next.stack);
        assert forall|i: int| 0 <= i < next.args.len() implies match #[trigger] next.args[i] {
            ABIArg::Stack(off, _) => 0 <= off <= next.stack,
            _ => true,
        } by {
            if i < st.args.len() {
                assert(next.args[i] == st.args[i]);
                assert(match st.args[i] {
                    ABIArg::Stack(off, _) => 0 <= off <= st.stack,
                    _ => true,
                });
            }
        }
    }
}

/// The pre-indexed push of a register pair: `stp r1, r2, [sp, #-16]!`.
pub open spec fn spec_push_pair(r1: Reg, r2: Reg) -> Inst {
    Inst::StoreP64 {
        rt: r1,
        rt2: r2,
        mem: PairMemArg::PreIndexed(
            Writable { reg: spec_stack_reg() },
            SImm7Scaled { value: -16i16 },
        ),
    }
}

/// The post-indexed pop of a register pair: `ldp r1, r2, [sp], #16`.
pub open spec fn spec_pop_pair(r1: Reg, r2: Reg) -> Inst {
    Inst::LoadP64 {
        rt: Writable { reg: r1 },
        rt2: Writable { reg: r2 },
        mem: PairMemArg::PostIndexed(
            Writable { reg: spec_stack_reg() },
            SImm7Scaled { value: 16 },
        ),
    }
}

/// The callee-save stores of the prologue, from position `i` on: pairs are
/// pushed with pre-indexed pair stores, and an odd count pairs the last
/// register with the zero register.
pub open spec fn spec_save_pairs_from(s: Seq<Writable<RealReg>>, i: int) -> Seq<Inst>
    decreases s.len() - i,
{
    if i < 0 || i >= s.len() {
        Seq::empty()
    } else if i + 1 == s.len() {
        seq![spec_push_pair(Reg::Real(s[i].reg), spec_zero_reg())]
    } else {
        seq![spec_push_pair(Reg::Real(s[i].reg), Reg::Real(s[i + 1].reg))] + spec_save_pairs_from(
            s,
            i + 2,
        )
    }
}

/// The callee-save loads of the epilogue, from position `i` on: the exact
/// mirror of `spec_save_pairs_from`, popping the pairs in reverse order.
pub open spec fn spec_restore_pairs_from(s: Seq<Writable<RealReg>>, i: int) -> Seq<Inst>
    decreases s.len() - i,
{
    if i < 0 || i >= s.len() {
        Seq::empty()
    } else if i + 1 == s.len() {
        seq![spec_pop_pair(Reg::Real(s[i].reg), spec_zero_reg())]
    } else {
        spec_restore_pairs_from(s, i + 2) + seq![
            spec_pop_pair(Reg::Real(s[i].reg), Reg::Real(s[i + 1].reg)),
        ]
    }
}

/// The clobbered-vector-register stores of the prologue, from position `i`
/// on: each saved in its own 16-byte slot above SP.
pub open spec fn spec_vec_saves_from(s: Seq<Writable<RealReg>>, i: int) -> Seq<Inst>
    decreases s.len() - i,
{
    if i < 0 || i >= s.len() {
        Seq::empty()
    } else {
        seq![
            Inst::FpuStore128 {
                rd: Reg::Real(s[i].reg),
                mem: MemArg::Unscaled(spec_stack_reg(), SImm9 { value: (16 * i) as i16 }),
            },
        ] + spec_vec_saves_from(s, i + 1)
    }
}

/// The clobbered-vector-register loads of the epilogue: each from the same
/// 16-byte slot its store used.
pub open spec fn spec_vec_restores_from(s: Seq<Writable<RealReg>>, i: int) -> Seq<Inst>
    decreases s.len() - i,
{
    if i < 0 || i >= s.len() {
        Seq::empty()
    } else {
        seq![
            Inst::FpuLoad128 {
                rd: Writable { reg: Reg::Real(s[i].reg) },
                mem: MemArg::Unscaled(spec_stack_reg(), SImm9 { value: (16 * i) as i16 }),
            },
        ] + spec_vec_restores_from(s, i + 1)
    }
}

/// `mov fp, sp`, written as an add of zero because the move alias cannot
/// name SP.
pub open spec fn spec_mov_fp_sp() -> Inst {
    Inst::AluRRImm12 {
        alu_op: ALUOp::Add64,
        rd: Writable { reg: spec_fp_reg() },
        rn: spec_stack_reg(),
        imm12: Imm12 { bits: 0, shift12: false },
    }
}

/// `mov sp, fp`, likewise an add of zero.
pub open spec fn spec_mov_sp_fp() -> Inst {
    Inst::AluRRImm12 {
        alu_op: ALUOp::Add64,
        rd: Writable { reg: spec_stack_reg() },
        rn: spec_fp_reg(),
        imm12: Imm12 { bits: 0, shift12: false },
    }
}

/// The instructions that move SP by `amt` bytes: one immediate form when
/// `amt` fits, otherwise a constant load into the fix-up scratch register
/// and an extended-register operation; nothing when `amt` is zero.
pub open spec fn spec_adjust_stack(amt: u64, is_sub: bool) -> Seq<Inst> {
    let op = if is_sub {
        ALUOp::Sub64
    } else {
        ALUOp::Add64
    };
    if amt == 0 {
        Seq::empty()
    } else if amt < 4096 {
        seq![
            Inst::AluRRImm12 {
                alu_op: op,
                rd: Writable { reg: spec_stack_reg() },
                rn: spec_stack_reg(),
                imm12: Imm12 { bits: amt as u16, shift12: false },
            },
        ]
    } else if amt % 4096 == 0 && amt < 0x1000000 {
        seq![
            Inst::AluRRImm12 {
                alu_op: op,
                rd: Writable { reg: spec_stack_reg() },
                rn: spec_stack_reg(),
                imm12: Imm12 { bits: (amt / 4096) as u16, shift12: true },
            },
        ]
    } else {
        seq![
            Inst::LoadConst64 { rd: Writable { reg: spec_spilltmp_reg() }, const_data: amt },
            Inst::AluRRRExtend {
                alu_op: op,
                rd: Writable { reg: spec_stack_reg() },
                rn: spec_stack_reg(),
                rm: spec_spilltmp_reg(),
                extendop: ExtendOp::UXTX,
            },
        ]
    }
}

/// Move SP by `amt` bytes, down when `is_sub`.
pub fn adjust_stack(amt: u64, is_sub: bool) -> (r: Vec<Inst>)
    ensures
        r@ == spec_adjust_stack(amt, is_sub),
{
    let alu_op = if is_sub {
        ALUOp::Sub64
    } else {
        ALUOp::Add64
    };
    let mut insts: Vec<Inst> = Vec::new();
    if amt > 0 {
        match Imm12::maybe_from_u64(amt) {
            Some(imm12) => {
                insts.push(Inst::AluRRImm12 {
                    alu_op,
                    rd: writable_stack_reg(),
                    rn: stack_reg(),
                    imm12,
                });
            },
            None => {
                insts.push(Inst::LoadConst64 { rd: writable_spilltmp_reg(), const_data: amt });
                insts.push(Inst::AluRRRExtend {
                    alu_op,
                    rd: writable_stack_reg(),
                    rn: stack_reg(),
                    rm: spilltmp_reg(),
                    extendop: ExtendOp::UXTX,
                });
            },
        }
    }
    proof {
        assert(insts@ =~= spec_adjust_stack(amt, is_sub));
    }
    insts
}

fn push_save_pairs(out: &mut Vec<Inst>, s: &Vec<Writable<RealReg>>, i: usize)
    requires
        i <= s@.len(),
    ensures
        final(out)@ == old(out)@ + spec_save_pairs_from(s@, i as int),
    decreases s@.len() - i,
{
    if i < s.len() {
        if i + 1 == s.len() {
            out.push(spec_push_pair_exec(Reg::Real(s[i].reg), zero_reg()));
            proof {
                assert(out@ =~= old(out)@ + spec_save_pairs_from(s@, i as int));
            }
        } else {
            out.push(spec_push_pair_exec(Reg::Real(s[i].reg), Reg::Real(s[i + 1].reg)));
            push_save_pairs(out, s, i + 2);
            proof {
                assert(out@ =~= old(out)@ + spec_save_pairs_from(s@, i as int));
            }
        }
    }
}

fn push_restore_pairs(out: &mut Vec<Inst>, s: &Vec<Writable<RealReg>>, i: usize)
    requires
        i <= s@.len(),
    ensures
        final(out)@ == old(out)@ + spec_restore_pairs_from(s@, i as int),
    decreases s@.len() - i,
{
    if i < s.len() {
        if i + 1 == s.len() {
            out.push(spec_pop_pair_exec(Reg::Real(s[i].reg), zero_reg()));
            proof {
                assert(out@ =~= old(out)@ + spec_restore_pairs_from(s@, i as int));
            }
        } else {
            let r1 = Reg::Real(s[i].reg);
            let r2 = Reg::Real(s[i + 1].reg);
            push_restore_pairs(out, s, i + 2);
            out.push(spec_pop_pair_exec(r1, r2));
            proof {
                assert(out@ =~= old(out)@ + spec_restore_pairs_from(s@, i as int));
            }
        }
    }
}

fn spec_push_pair_exec(r1: Reg, r2: Reg) -> (i: Inst)
    ensures
        i == spec_push_pair(r1, r2),
{
    Inst::StoreP64 {
        rt: r1,
        rt2: r2,
        mem: PairMemArg::PreIndexed(writable_stack_reg(), SImm7Scaled { value: -16i16 }),
    }
}

fn spec_pop_pair_exec(r1: Reg, r2: Reg) -> (i: Inst)
    ensures
        i == spec_pop_pair(r1, r2),
{
    Inst::LoadP64 {
        rt: Writable { reg: r1 },
        rt2: Writable { reg: r2 },
        mem: PairMemArg::PostIndexed(writable_stack_reg(), SImm7Scaled { value: 16 }),
    }
}

fn push_vec_saves(out: &mut Vec<Inst>, s: &Vec<Writable<RealReg>>, i: usize)
    requires
        i <= s@.len(),
        s@.len() <= 16,
    ensures
        final(out)@ == old(out)@ + spec_vec_saves_from(s@, i as int),
    decreases s@.len() - i,
{
    if i < s.len() {
        out.push(Inst::FpuStore128 {
            rd: Reg::Real(s[i].reg),
            mem: MemArg::Unscaled(stack_reg(), SImm9 { value: (16 * i) as i16 }),
        });
        push_vec_saves(out, s, i + 1);
        proof {
            assert(out@ =~= old(out)@ + spec_vec_saves_from(s@, i as int));
        }
    }
}

fn push_vec_restores(out: &mut Vec<Inst>, s: &Vec<Writable<RealReg>>, i: usize)
    requires
        i <= s@.len(),
        s@.len() <= 16,
    ensures
        final(out)@ == old(out)@ + spec_vec_restores_from(s@, i as int),
    decreases s@.len() - i,
{
    if i < s.len() {
        out.push(Inst::FpuLoad128 {
            rd: Writable { reg: Reg::Real(s[i].reg) },
            mem: MemArg::Unscaled(stack_reg(), SImm9 { value: (16 * i) as i16 }),
        });
        push_vec_restores(out, s, i + 1);
        proof {
            assert(out@ =~= old(out)@ + spec_vec_restores_from(s@, i as int));
        }
    }
}

impl ARM64ABIBody {
    /// The total frame allocation below the saved FP/LR pair: stack slots,
    /// spill slots, and any host-reserved words, 16-byte aligned.
    pub open spec fn spec_total_stacksize(self, flags: crate::settings::Flags) -> int {
        crate::spec_align16(
            self.stackslots_size + 8 * self.spillslots->0 + (
            if self.call_conv.spec_extends_baldrdash() {
                8 * flags.baldrdash_prologue_words as int
            } else {
                0int
            }),
        )
    }

    /// The prologue instruction sequence for this frame state.
    pub open spec fn spec_prologue(self, flags: crate::settings::Flags) -> Seq<Inst> {
        let total = self.spec_total_stacksize(flags);
        let int_saves = spec_int_callee_saves(self.clobbered@);
        let vec_saves = spec_vec_callee_saves(self.clobbered@);
        (if !self.call_conv.spec_extends_baldrdash() {
            seq![spec_push_pair(spec_fp_reg(), spec_link_reg()), spec_mov_fp_sp()]
                + spec_adjust_stack(total as u64, true)
        } else {
            Seq::empty()
        }) + spec_save_pairs_from(int_saves, 0) + (if vec_saves.len() > 0 {
            seq![
                Inst::AluRRImm12 {
                    alu_op: ALUOp::Sub64,
                    rd: Writable { reg: spec_stack_reg() },
                    rn: spec_stack_reg(),
                    imm12: Imm12 { bits: (16 * vec_saves.len()) as u16, shift12: false },
                },
            ]
        } else {
            Seq::empty()
        }) + spec_vec_saves_from(vec_saves, 0)
    }

    /// The epilogue instruction sequence: the exact reverse of the
    /// prologue's effect, then the return.
    pub open spec fn spec_epilogue(self, flags: crate::settings::Flags) -> Seq<Inst> {
        let int_saves = spec_int_callee_saves(self.clobbered@);
        let vec_saves = spec_vec_callee_saves(self.clobbered@);
        spec_vec_restores_from(vec_saves, 0) + (if vec_saves.len() > 0 {
            seq![
                Inst::AluRRImm12 {
                    alu_op: ALUOp::Add64,
                    rd: Writable { reg: spec_stack_reg() },
                    rn: spec_stack_reg(),
                    imm12: Imm12 { bits: (16 * vec_saves.len()) as u16, shift12: false },
                },
            ]
        } else {
            Seq::empty()
        }) + spec_restore_pairs_from(int_saves, 0) + (
        if !self.call_conv.spec_extends_baldrdash() {
            seq![
                spec_mov_sp_fp(),
                spec_pop_pair(spec_fp_reg(), spec_link_reg()),
                Inst::Ret,
            ]
        } else {
            Seq::empty()
        })
    }

    /// Generate the prologue: push FP and LR, point FP at the new frame,
    /// allocate the frame, and save the clobbered callee-saved registers —
    /// integer registers in pre-indexed pairs, vector registers in 16-byte
    /// slots.  Under a Baldrdash convention the host provides the frame and
    /// only the clobber saves are emitted.  Records the frame size.
    pub fn gen_prologue(&mut self, flags: &crate::settings::Flags) -> (r: Vec<Inst>)
        requires
            old(self).wf(),
            old(self).spillslots is Some,
            old(self).call_conv.spec_extends_baldrdash() ==> !flags.enable_probestack,
            spec_vec_callee_saves(old(self).clobbered@).len() <= 15,
        ensures
            r@ == old(self).spec_prologue(*flags),
            *final(self) == (ARM64ABIBody {
                total_frame_size: Some(old(self).spec_total_stacksize(*flags) as u64),
                ..*old(self)
            }),
            final(self).spec_total_stacksize(*flags) % 16 == 0,
    {
        let mut insts: Vec<Inst> = Vec::new();
        let baldrdash = self.call_conv.extends_baldrdash();
        if !baldrdash {
            insts.push(spec_push_pair_exec(fp_reg(), link_reg()));
            insts.push(Inst::AluRRImm12 {
                alu_op: ALUOp::Add64,
                rd: writable_fp_reg(),
                rn: stack_reg(),
                imm12: Imm12 { bits: 0, shift12: false },
            });
        }
        let spillslots: u32 = match self.spillslots {
            Some(n) => n,
            None => {
                proof {
                    assert(false);
                }
                0
            },
        };
        let mut total_stacksize: u64 = self.stackslots_size + 8 * (spillslots as u64);
        if baldrdash {
            total_stacksize = total_stacksize + (flags.baldrdash_prologue_words as u64) * 8;
        }
        let total_stacksize = crate::align_to_16(total_stacksize);
        proof {
            assert(total_stacksize == self.spec_total_stacksize(*flags));
            assert(crate::spec_align16(self.spec_total_stacksize(*flags))
                == self.spec_total_stacksize(*flags));
        }
        if !baldrdash && total_stacksize > 0 {
            let mut adj = adjust_stack(total_stacksize, true);
            insts.append(&mut adj);
        }
        proof {
            if !baldrdash && total_stacksize == 0 {
                assert(spec_adjust_stack(0u64, true) =~= Seq::<Inst>::empty());
            }
        }
        let saves = get_callee_saves(&self.clobbered);
        let (clobbered_int, clobbered_vec) = saves;
        push_save_pairs(&mut insts, &clobbered_int, 0);
        let vec_save_bytes: u64 = clobbered_vec.len() as u64 * 16;
        if vec_save_bytes != 0 {
            insts.push(Inst::AluRRImm12 {
                alu_op: ALUOp::Sub64,
                rd: writable_stack_reg(),
                rn: stack_reg(),
                imm12: Imm12 { bits: vec_save_bytes as u16, shift12: false },
            });
        }
        push_vec_saves(&mut insts, &clobbered_vec, 0);
        self.total_frame_size = Some(total_stacksize);
        proof {
            assert(insts@ =~= self.spec_prologue(*flags));
        }
        insts
    }

    /// Generate the epilogue: restore the clobbered vector and integer
    /// callee-saved registers in the exact reverse of the prologue's order,
    /// release the frame by restoring SP from FP, pop FP and LR, and
    /// return.  Under a Baldrdash convention only the clobber restores are
    /// emitted.
    pub fn gen_epilogue(&self, flags: &crate::settings::Flags) -> (r: Vec<Inst>)
        requires
            self.wf(),
            spec_vec_callee_saves(self.clobbered@).len() <= 15,
        ensures
            r@ == self.spec_epilogue(*flags),
    {
        let mut insts: Vec<Inst> = Vec::new();
        let saves = get_callee_saves(&self.clobbered);
        let (clobbered_int, clobbered_vec) = saves;
        push_vec_restores(&mut insts, &clobbered_vec, 0);
        let vec_save_bytes: u64 = clobbered_vec.len() as u64 * 16;
        if vec_save_bytes != 0 {
            insts.push(Inst::AluRRImm12 {
                alu_op: ALUOp::Add64,
                rd: writable_stack_reg(),
                rn: stack_reg(),
                imm12: Imm12 { bits: vec_save_bytes as u16, shift12: false },
            });
        }
        push_restore_pairs(&mut insts, &clobbered_int, 0);
        if !self.call_conv.extends_baldrdash() {
            insts.push(Inst::AluRRImm12 {
                alu_op: ALUOp::Add64,
                rd: writable_stack_reg(),
                rn: fp_reg(),
                imm12: Imm12 { bits: 0, shift12: false },
            });
            insts.push(spec_pop_pair_exec(fp_reg(), link_reg()));
            insts.push(Inst::Ret);
        }
        proof {
            assert(insts@ =~= self.spec_epilogue(*flags));
        }
        insts
    }
}

/// The destination of a call: a named external function or a register.
#[derive(Clone, Debug, PartialEq, Eq)]
pub enum CallDest {
    ExtName(ExternalName),
    Reg(Reg),
}

/// The AArch64 ABI state for one call site: the callee's resolved
/// signature, the registers the call reads and writes, and its destination.
#[derive(Clone, Debug, PartialEq, Eq)]
pub struct ARM64ABICall {
    pub sig: ABISig,
    pub uses: Vec<Reg>,
    pub defs: Vec<Writable<Reg>>,
    pub dest: CallDest,
    pub loc: SourceLoc,
}

impl ARM64ABICall {
    /// Internal consistency of a call site, as `from_func_sig` establishes
    /// it.
    pub open spec fn wf(self) -> bool {
        &&& spec_no_retmem(self.sig.args@)
        &&& spec_no_retmem(self.sig.rets@)
        &&& spec_no_stack(self.sig.rets@)
        &&& 0 <= self.sig.stack_arg_space <= 0x80000010
        &&& self.sig.stack_arg_space % 16 == 0
        &&& forall|i: int|
            0 <= i < self.sig.args@.len() ==> match #[trigger] self.sig.args@[i] {
                ABIArg::Stack(off, _) => 0 <= off <= 0x80000000 && off % 8 == 0,
                _ => true,
            }
        &&& self.uses@ == spec_arg_uses(self.sig.args@)
        &&& self.defs@ == spec_caller_saves() + spec_ret_defs(self.sig.rets@)
    }

    /// A call site for a call directly to the named function.
    pub fn from_func(sig: &Signature, extname: &ExternalName, loc: SourceLoc) -> (r: Result<
        ARM64ABICall,
        CodegenError,
    >)
        requires
            sig.params@.len() <= 0x10000000,
            sig.returns@.len() <= 0x10000000,
        ensures
            match r {
                Ok(c) => {
                    &&& c.wf()
                    &&& spec_arg_locs(sig.call_conv, sig.params@).ok
                    &&& spec_arg_locs(sig.call_conv, sig.returns@).ok
                    &&& c.sig.args@ == spec_arg_locs(sig.call_conv, sig.params@).args
                    &&& c.sig.rets@ == spec_arg_locs(sig.call_conv, sig.returns@).args
                    &&& c.sig.stack_arg_space == spec_stack_space(sig.call_conv, sig.params@)
                    &&& c.dest == CallDest::ExtName(*extname)
                    &&& c.loc == loc
                },
                Err(e) => {
                    &&& e == CodegenError::UnsupportedConstruct
                    &&& (!spec_arg_locs(sig.call_conv, sig.params@).ok || !spec_arg_locs(
                        sig.call_conv,
                        sig.returns@,
                    ).ok || !spec_no_stack(
                        spec_arg_locs(sig.call_conv, sig.returns@).args,
                    ))
                },
            },
    {
        let abisig = ABISig::from_func_sig(sig)?;
        proof {
            lemma_arg_walk_stack_aligned(
                sig.call_conv,
                sig.params@,
                sig.params@.len() as int,
            );
            lemma_arg_walk_stack_offsets(
                sig.call_conv,
                sig.params@,
                sig.params@.len() as int,
            );
            lemma_arg_walk_bounds(sig.call_conv, sig.params@, sig.params@.len() as int);
            lemma_arg_walk_no_retmem(sig.call_conv, sig.returns@, sig.returns@.len() as int);
        }
        let ud = abisig_to_uses_and_defs(&abisig);
        let (uses, defs) = ud;
        Ok(ARM64ABICall { sig: abisig, uses, defs, dest: CallDest::ExtName(*extname), loc })
    }

    /// A call site for a call through the function pointer in `ptr`.
    pub fn from_ptr(sig: &Signature, ptr: Reg, loc: SourceLoc) -> (r: Result<
        ARM64ABICall,
        CodegenError,
    >)
        requires
            sig.params@.len() <= 0x10000000,
            sig.returns@.len() <= 0x10000000,
        ensures
            match r {
                Ok(c) => {
                    &&& c.wf()
                    &&& spec_arg_locs(sig.call_conv, sig.params@).ok
                    &&& spec_arg_locs(sig.call_conv, sig.returns@).ok
                    &&& c.sig.args@ == spec_arg_locs(sig.call_conv, sig.params@).args
                    &&& c.sig.rets@ == spec_arg_locs(sig.call_conv, sig.returns@).args
                    &&& c.sig.stack_arg_space == spec_stack_space(sig.call_conv, sig.params@)
                    &&& c.dest == CallDest::Reg(ptr)
                    &&& c.loc == loc
                },
                Err(e) => {
                    &&& e == CodegenError::UnsupportedConstruct
                    &&& (!spec_arg_locs(sig.call_conv, sig.params@).ok || !spec_arg_locs(
                        sig.call_conv,
                        sig.returns@,
                    ).ok || !spec_no_stack(
                        spec_arg_locs(sig.call_conv, sig.returns@).args,
                    ))
                },
            },
    {
        let abisig = ABISig::from_func_sig(sig)?;
        proof {
            lemma_arg_walk_stack_aligned(
                sig.call_conv,
                sig.params@,
                sig.params@.len() as int,
            );
            lemma_arg_walk_stack_offsets(
                sig.call_conv,
                sig.params@,
                sig.params@.len() as int,
            );
            lemma_arg_walk_bounds(sig.call_conv, sig.params@, sig.params@.len() as int);
            lemma_arg_walk_no_retmem(sig.call_conv, sig.returns@, sig.returns@.len() as int);
        }
        let ud = abisig_to_uses_and_defs(&abisig);
        let (uses, defs) = ud;
        Ok(ARM64ABICall { sig: abisig, uses, defs, dest: CallDest::Reg(ptr), loc })
    }

    pub fn num_args(&self) -> (n: usize)
        ensures
            n == self.sig.args@.len(),
    {
        self.sig.args.len()
    }

    /// Reserve the stack-argument area before the call.  The adjustment is
    /// the 16-byte-aligned area size, so SP stays 16-byte aligned.
    pub fn gen_stack_pre_adjust(&self) -> (r: Vec<Inst>)
        requires
            0 <= self.sig.stack_arg_space,
        ensures
            r@ == spec_adjust_stack(self.sig.stack_arg_space as u64, true),
    {
        adjust_stack(self.sig.stack_arg_space as u64, true)
    }

    /// Release the stack-argument area after the call: the exact mirror of
    /// the pre-adjustment.
    pub fn gen_stack_post_adjust(&self) -> (r: Vec<Inst>)
        requires
            0 <= self.sig.stack_arg_space,
        ensures
            r@ == spec_adjust_stack(self.sig.stack_arg_space as u64, false),
    {
        adjust_stack(self.sig.stack_arg_space as u64, false)
    }

    /// The instruction that places `from_reg` into argument position `idx`:
    /// a move into the argument register, or a store into the reserved
    /// stack-argument area.  A stack offset beyond the scaled-immediate
    /// range cannot be encoded; such a store is caught by the
    /// emission-readiness check rather than rejected here.
    pub fn gen_copy_reg_to_arg(&self, idx: usize, from_reg: Reg) -> (i: Inst)
        requires
            self.wf(),
            idx < self.sig.args@.len(),
        ensures
            i == (match self.sig.args@[idx as int] {
                ABIArg::Reg(r, ty) => spec_gen_move(Writable { reg: Reg::Real(r) }, from_reg, ty),
                ABIArg::Stack(off, _) => Inst::Store64 { rd: from_reg, mem: MemArg::SPOffset(off) },
                ABIArg::RetMem(ty) => arbitrary(),
            }),
    {
        match &self.sig.args[idx] {
            ABIArg::Reg(r, ty) => Inst::gen_move(Writable { reg: Reg::Real(*r) }, from_reg, *ty),
            ABIArg::Stack(off, _) => Inst::Store64 { rd: from_reg, mem: MemArg::SPOffset(*off) },
            ABIArg::RetMem(_) => {
                proof {
                    assert(false);
                }
                Inst::Nop0
            },
        }
    }

    /// The instruction that moves return value `idx` into `into_reg`.
    pub fn gen_copy_retval_to_reg(&self, idx: usize, into_reg: Writable<Reg>) -> (i: Inst)
        requires
            self.wf(),
            idx < self.sig.rets@.len(),
        ensures
            i == (match self.sig.rets@[idx as int] {
                ABIArg::Reg(r, ty) => spec_gen_move(into_reg, Reg::Real(r), ty),
                _ => arbitrary(),
            }),
    {
        match &self.sig.rets[idx] {
            ABIArg::Reg(r, ty) => Inst::gen_move(into_reg, Reg::Real(*r), *ty),
            _ => {
                proof {
                    assert(false);
                }
                Inst::Nop0
            },
        }
    }

    /// The call instruction itself, carrying the registers the call reads
    /// (the populated argument registers) and writes (every caller-saved
    /// register and the return-value registers).  Consumes the call site.
    pub fn gen_call(self) -> (r: Vec<Inst>)
        ensures
            r@.len() == 1,
            r@[0] == (match self.dest {
                CallDest::ExtName(name) => Inst::Call {
                    dest: name,
                    uses: self.uses,
                    defs: self.defs,
                    loc: self.loc,
                },
                CallDest::Reg(reg) => Inst::CallInd {
                    rn: reg,
                    uses: self.uses,
                    defs: self.defs,
                    loc: self.loc,
                },
            }),
    {
        let ARM64ABICall { sig: _, uses, defs, dest, loc } = self;
        let mut out: Vec<Inst> = Vec::new();
        match dest {
            CallDest::ExtName(name) => out.push(Inst::Call { dest: name, uses, defs, loc }),
            CallDest::Reg(reg) => out.push(Inst::CallInd { rn: reg, uses, defs, loc }),
        }
        out
    }
}

/// Stack locations assigned by the walk are 8-byte aligned, and the walk's
/// running stack size stays 8-byte aligned.
proof fn lemma_arg_walk_stack_aligned(cc: CallConv, params: Seq<AbiParam>, n: int)
    requires
        0 <= n <= params.len(),
        params.len() <= 0x10000000,
    ensures
        spec_arg_walk(cc, params, n).stack % 8 == 0,
        forall|i: int|
            0 <= i < spec_arg_walk(cc, params, n).args.len() ==> match #[trigger] spec_arg_walk(
                cc,
                params,
                n,
            ).args[i] {
                ABIArg::Stack(off, _) => off % 8 == 0,
                _ => true,
            },
    decreases n,
{
    if n > 0 {
        lemma_arg_walk_stack_aligned(cc, params, n - 1);
        lemma_arg_walk_bounds(cc, params, n - 1);
        let st = spec_arg_walk(cc, params, n - 1);
        let next = spec_arg_step(cc, st, params[n - 1]);
        assert forall|i: int| 0 <= i < next.args.len() implies match #[trigger] next.args[i] {
            ABIArg::Stack(off, _) => off % 8 == 0,
            _ => true,
        } by {
            if i < st.args.len() {
                assert(next.args[i] == st.args[i]);
                assert(match st.args[i] {
                    ABIArg::Stack(off, _) => off % 8 == 0,
                    _ => true,
                });
            }
        }
    }
}

/// `restore` is exactly the load that undoes the store `save`: the same
/// registers through the same stack location.  Pair pushes are undone by
/// pair pops (the pre-indexed push and the post-indexed pop address the
/// same 16 bytes), and a vector save at `[sp, #off]` is undone by the load
/// at the same offset.
pub open spec fn spec_mirror(save: Inst, restore: Inst) -> bool {
    match (save, restore) {
        (Inst::StoreP64 { rt, rt2, mem: ms }, Inst::LoadP64 { rt: l1, rt2: l2, mem: ml }) => {
            &&& l1.reg == rt
            &&& l2.reg == rt2
            &&& ms == PairMemArg::PreIndexed(
                Writable { reg: spec_stack_reg() },
                SImm7Scaled { value: -16i16 },
            )
            &&& ml == PairMemArg::PostIndexed(
                Writable { reg: spec_stack_reg() },
                SImm7Scaled { value: 16 },
            )
        },
        (Inst::FpuStore128 { rd, mem: ms }, Inst::FpuLoad128 { rd: l, mem: ml }) => {
            &&& l.reg == rd
            &&& ms == ml
        },
        _ => false,
    }
}

proof fn lemma_pairs_mirror(s: Seq<Writable<RealReg>>, i: int)
    requires
        0 <= i,
    ensures
        spec_restore_pairs_from(s, i).len() == spec_save_pairs_from(s, i).len(),
        forall|j: int|
            0 <= j < spec_save_pairs_from(s, i).len() ==> spec_mirror(
                #[trigger] spec_save_pairs_from(s, i)[j],
                spec_restore_pairs_from(s, i)[spec_save_pairs_from(s, i).len() - 1 - j],
            ),
    decreases s.len() - i,
{
    if i < s.len() {
        if i + 1 == s.len() {
        } else {
            lemma_pairs_mirror(s, i + 2);
            let saves = spec_save_pairs_from(s, i);
            let restores = spec_restore_pairs_from(s, i);
            let inner_s = spec_save_pairs_from(s, i + 2);
            let inner_r = spec_restore_pairs_from(s, i + 2);
            assert forall|j: int| 0 <= j < saves.len() implies spec_mirror(
                #[trigger] saves[j],
                restores[saves.len() - 1 - j],
            ) by {
                if j == 0 {
                    assert(restores[saves.len() - 1] == spec_pop_pair(
                        Reg::Real(s[i].reg),
                        Reg::Real(s[i + 1].reg),
                    ));
                } else {
                    assert(saves[j] == inner_s[j - 1]);
                    assert(restores[saves.len() - 1 - j] == inner_r[inner_s.len() - 1 - (j - 1)]);
                }
            }
        }
    }
}

proof fn lemma_vec_mirror(s: Seq<Writable<RealReg>>, i: int)
    requires
        0 <= i,
    ensures
        spec_vec_restores_from(s, i).len() == spec_vec_saves_from(s, i).len(),
        forall|j: int|
            0 <= j < spec_vec_saves_from(s, i).len() ==> spec_mirror(
                #[trigger] spec_vec_saves_from(s, i)[j],
                spec_vec_restores_from(s, i)[j],
            ),
    decreases s.len() - i,
{
    if i < s.len() {
        lemma_vec_mirror(s, i + 1);
        let saves = spec_vec_saves_from(s, i);
        let restores = spec_vec_restores_from(s, i);
        assert forall|j: int| 0 <= j < saves.len() implies spec_mirror(
            #[trigger] saves[j],
            restores[j],
        ) by {
            if j > 0 {
                assert(saves[j] == spec_vec_saves_from(s, i + 1)[j - 1]);
                assert(restores[j] == spec_vec_restores_from(s, i + 1)[j - 1]);
            }
        }
    }
}

/// Prologue/epilogue symmetry: for the callee-saved registers of any
/// clobber set, the epilogue's restores are the exact mirror of the
/// prologue's saves — pair pops in reverse order of the pair pushes, and
/// vector loads at the very offsets of the vector stores.
pub proof fn lemma_prologue_epilogue_symmetry(clobbered: Seq<Writable<RealReg>>)
    ensures
        ({
            let saves = spec_save_pairs_from(spec_int_callee_saves(clobbered), 0);
            let restores = spec_restore_pairs_from(spec_int_callee_saves(clobbered), 0);
            &&& restores.len() == saves.len()
            &&& forall|j: int|
                0 <= j < saves.len() ==> spec_mirror(
                    #[trigger] saves[j],
                    restores[saves.len() - 1 - j],
                )
        }),
        ({
            let saves = spec_vec_saves_from(spec_vec_callee_saves(clobbered), 0);
            let restores = spec_vec_restores_from(spec_vec_callee_saves(clobbered), 0);
            &&& restores.len() == saves.len()
            &&& forall|j: int| 0 <= j < saves.len() ==> spec_mirror(#[trigger] saves[j], restores[j])
        }),
{
    lemma_pairs_mirror(spec_int_callee_saves(clobbered), 0);
    lemma_vec_mirror(spec_vec_callee_saves(clobbered), 0);
}

/// Stack alignment: the frame allocated by the prologue is a multiple of
/// 16 bytes, and so is any SP adjustment around a call site, since the
/// stack-argument area is rounded up to 16 bytes.
pub proof fn lemma_stack_alignment(body: ARM64ABIBody, call: ARM64ABICall, flags: crate::settings::Flags)
    requires
        body.spillslots is Some,
        call.wf(),
    ensures
        body.spec_total_stacksize(flags) % 16 == 0,
        call.sig.stack_arg_space % 16 == 0,
{
    let x = body.stackslots_size + 8 * body.spillslots->0 + (
    if body.call_conv.spec_extends_baldrdash() {
        8 * flags.baldrdash_prologue_words as int
    } else {
        0int
    });
    assert(crate::spec_align16(x) % 16 == 0) by {
        assert(crate::spec_align16(x) == ((x + 15) / 16) * 16);
    }
}

} // verus!
