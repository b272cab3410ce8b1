//! The lowering driver: walks the IR function and produces VCode with one
//! virtual register per IR value, fusing a single-use constant into the
//! addition that consumes it.

use vstd::prelude::*;
use crate::abi::{ARM64ABIBody, ARM64ABICall, CodegenError, spec_arg_locs};
use crate::inst::{ALUOp, CondBrKind, Imm12, Inst, spec_gen_move};
use crate::ir::{Function, InstData, TermData, Type, Value};
use crate::machinst::BlockIndex;
use crate::regs::{Reg, RegClass, VirtualReg, Writable};
use crate::vcode::{VCode, NO_IR_INST};

verus! {

/// The register class that holds values of type `t`.
pub open spec fn spec_class_of(t: Type) -> RegClass {
    match t {
        Type::F32 => RegClass::V128,
        Type::F64 => RegClass::V128,
        _ => RegClass::I64,
    }
}

/// The virtual register that carries IR value `v`: its index is the value's
/// own index, its class comes from the value's type.
pub open spec fn spec_value_reg(f: Function, v: Value) -> Reg {
    Reg::Virtual(VirtualReg { class: spec_class_of(f.value_types@[v as int]), index: v })
}

fn class_of(t: Type) -> (c: RegClass)
    ensures
        c == spec_class_of(t),
{
    match t {
        Type::F32 => RegClass::V128,
        Type::F64 => RegClass::V128,
        _ => RegClass::I64,
    }
}

fn value_reg(f: &Function, v: Value) -> (r: Reg)
    requires
        f.value_in_range(v),
    ensures
        r == spec_value_reg(*f, v),
{
    let t = f.value_types[v as usize];
    Reg::Virtual(VirtualReg { class: class_of(t), index: v })
}

fn writable_value_reg(f: &Function, v: Value) -> (r: Writable<Reg>)
    requires
        f.value_in_range(v),
    ensures
        r.reg == spec_value_reg(*f, v),
{
    Writable { reg: value_reg(f, v) }
}

/// Value `v` is read by the instruction or terminator nowhere except,
/// possibly, at instruction `(ub, uk)`.
pub open spec fn spec_no_other_use(f: Function, v: Value, ub: int, uk: int) -> bool {
    &&& forall|b: int, k: int|
        0 <= b < f.blocks@.len() && 0 <= k < f.blocks@[b].insts@.len() && !(b == ub && k == uk)
            ==> !(#[trigger] f.blocks@[b].insts@[k]).spec_args().contains(v)
    &&& forall|b: int|
        0 <= b < f.blocks@.len() ==> !(#[trigger] f.blocks@[b]).term.spec_args().contains(v)
}

/// The instruction at `(b, k)` is a constant whose only use is the second
/// operand of the addition that immediately follows it, and whose value
/// fits an immediate field: such a producer is fused into its consumer and
/// emits no machine instruction of its own.
pub open spec fn spec_fused(f: Function, b: int, k: int) -> bool {
    &&& 0 <= b < f.blocks@.len()
    &&& 0 <= k
    &&& k + 1 < f.blocks@[b].insts@.len()
    &&& match f.blocks@[b].insts@[k] {
        InstData::Iconst { result, imm } => {
            &&& (imm < 4096 || (imm % 4096 == 0 && imm < 0x1000000))
            &&& match f.blocks@[b].insts@[k + 1] {
                InstData::Iadd { result: r2, a, b: b2 } => b2 == result && a != result && r2
                    != result,
                _ => false,
            }
            &&& spec_no_other_use(f, result, b, k + 1)
        },
        _ => false,
    }
}

/// Whether `vs` holds `v`.
fn contains_value(vs: &Vec<Value>, v: Value) -> (r: bool)
    ensures
        r == vs@.contains(v),
{
    let mut i: usize = 0;
    while i < vs.len()
        invariant
            i <= vs@.len(),
            forall|j: int| 0 <= j < i ==> vs@[j] != v,
        decreases vs@.len() - i,
    {
        if vs[i] == v {
            return true;
        }
        i = i + 1;
    }
    proof {
        assert(!vs@.contains(v));
    }
    false
}

/// Whether the instruction at `(b, k)` reads `v`.
fn inst_uses_value(i: &InstData, v: Value) -> (r: bool)
    ensures
        r == i.spec_args().contains(v),
{
    match i {
        InstData::Iconst { .. } => {
            proof {
                assert(!i.spec_args().contains(v));
            }
            false
        },
        InstData::Iadd { a, b, .. } => {
            let r = *a == v || *b == v;
            proof {
                if *a == v {
                    assert(i.spec_args()[0] == v);
                } else if *b == v {
                    assert(i.spec_args()[1] == v);
                } else {
                    assert(!i.spec_args().contains(v));
                }
            }
            r
        },
        InstData::Call { args, .. } => contains_value(args, v),
    }
}

/// Whether the terminator reads `v`.
fn term_uses_value(t: &TermData, v: Value) -> (r: bool)
    ensures
        r == t.spec_args().contains(v),
{
    match t {
        TermData::Return { args } => contains_value(args, v),
        TermData::Jump { .. } => {
            proof {
                assert(!t.spec_args().contains(v));
            }
            false
        },
        TermData::Brnz { arg, .. } => {
            let r = *arg == v;
            proof {
                if *arg == v {
                    assert(t.spec_args()[0] == v);
                } else {
                    assert(!t.spec_args().contains(v));
                }
            }
            r
        },
    }
}

/// Whether the constant defined at `(cb, ck)` is fused into the addition
/// that follows it.
#[verifier::loop_isolation(false)]
fn is_fused(f: &Function, cb: usize, ck: usize) -> (r: bool)
    requires
        cb < f.blocks@.len(),
        ck < f.blocks@[cb as int].insts@.len(),
    ensures
        r == spec_fused(*f, cb as int, ck as int),
{
    let blk_len = f.blocks[cb].insts.len();
    if ck + 1 >= blk_len {
        return false;
    }
    let (result, imm): (Value, u64) = match &f.blocks[cb].insts[ck] {
        InstData::Iconst { result, imm } => (*result, *imm),
        _ => {
            return false;
        },
    };
    if !(imm < 4096 || (imm % 4096 == 0 && imm < 0x1000000)) {
        return false;
    }
    match &f.blocks[cb].insts[ck + 1] {
        InstData::Iadd { result: r2, a, b: b2 } => {
            if !(*b2 == result && *a != result && *r2 != result) {
                return false;
            }
        },
        _ => {
            return false;
        },
    }
    // Scan the whole function for any other use of the constant.
    let mut b: usize = 0;
    while b < f.blocks.len()
        invariant
            b <= f.blocks@.len(),
            cb < f.blocks@.len(),
            ck + 1 < f.blocks@[cb as int].insts@.len(),
            forall|b2: int, k2: int|
                0 <= b2 < b && 0 <= k2 < f.blocks@[b2].insts@.len() && !(b2 == cb && k2 == ck
                    + 1) ==> !(#[trigger] f.blocks@[b2].insts@[k2]).spec_args().contains(result),
            forall|b2: int|
                0 <= b2 < b ==> !(#[trigger] f.blocks@[b2]).term.spec_args().contains(result),
        decreases f.blocks@.len() - b,
    {
        let mut k: usize = 0;
        let nk = f.blocks[b].insts.len();
        while k < nk
            invariant
                b < f.blocks@.len(),
                cb < f.blocks@.len(),
                ck + 1 < f.blocks@[cb as int].insts@.len(),
                nk == f.blocks@[b as int].insts@.len(),
                k <= nk,
                forall|b2: int, k2: int|
                    0 <= b2 < b && 0 <= k2 < f.blocks@[b2].insts@.len() && !(b2 == cb && k2 == ck
                        + 1) ==> !(#[trigger] f.blocks@[b2].insts@[k2]).spec_args().contains(
                        result,
                    ),
                forall|k2: int|
                    0 <= k2 < k && !(b == cb && k2 == ck + 1) ==> !(
                    #[trigger] f.blocks@[b as int].insts@[k2]).spec_args().contains(result),
                forall|b2: int|
                    0 <= b2 < b ==> !(#[trigger] f.blocks@[b2]).term.spec_args().contains(result),
            decreases nk - k,
        {
            if !(b == cb && k == ck + 1) {
                if inst_uses_value(&f.blocks[b].insts[k], result) {
                    return false;
                }
            }
            k = k + 1;
        }
        if term_uses_value(&f.blocks[b].term, result) {
            return false;
        }
        b = b + 1;
    }
    true
}

/// The move that materializes entry-block parameter `i` into its value's
/// virtual register: a move from the argument register, or a load from the
/// caller's stack-argument area 16 bytes above FP.
pub open spec fn spec_arg_move(f: Function, args: Seq<crate::abi::ABIArg>, i: int) -> Inst {
    let v = f.blocks@[0].params@[i];
    match args[i] {
        crate::abi::ABIArg::Reg(r, ty) => spec_gen_move(
            Writable { reg: spec_value_reg(f, v) },
            Reg::Real(r),
            ty,
        ),
        crate::abi::ABIArg::Stack(off, ty) => crate::abi::spec_load_stack(
            (off + 16) as i64,
            Writable { reg: spec_value_reg(f, v) },
            ty,
        ),
        crate::abi::ABIArg::RetMem(_) => arbitrary(),
    }
}

/// The move that places value `v` into the location `loc`: into its
/// register, or into the reserved stack-argument area.
pub open spec fn spec_move_to_loc(f: Function, loc: crate::abi::ABIArg, v: Value) -> Inst {
    match loc {
        crate::abi::ABIArg::Reg(r, ty) => spec_gen_move(
            Writable { reg: Reg::Real(r) },
            spec_value_reg(f, v),
            ty,
        ),
        crate::abi::ABIArg::Stack(off, _) => Inst::Store64 {
            rd: spec_value_reg(f, v),
            mem: crate::inst::MemArg::SPOffset(off),
        },
        crate::abi::ABIArg::RetMem(_) => arbitrary(),
    }
}

/// The move that brings the location `loc` into value `v`'s register.
pub open spec fn spec_move_from_loc(f: Function, loc: crate::abi::ABIArg, v: Value) -> Inst {
    match loc {
        crate::abi::ABIArg::Reg(r, ty) => spec_gen_move(
            Writable { reg: spec_value_reg(f, v) },
            Reg::Real(r),
            ty,
        ),
        _ => arbitrary(),
    }
}

/// The width of the addition that produces `result`.
pub open spec fn spec_add_op(f: Function, result: Value) -> ALUOp {
    match f.value_types@[result as int] {
        Type::I64 => ALUOp::Add64,
        Type::B64 => ALUOp::Add64,
        _ => ALUOp::Add32,
    }
}

/// The machine instructions of a constant or an addition: a fused constant
/// emits nothing; a constant otherwise loads into its value's register; an
/// addition takes the immediate form when its second operand is a fused
/// constant, and the register form otherwise.
pub open spec fn spec_lower_simple(f: Function, b: int, k: int) -> Seq<Inst> {
    match f.blocks@[b].insts@[k] {
        InstData::Iconst { result, imm } => if spec_fused(f, b, k) {
            Seq::empty()
        } else {
            seq![
                Inst::LoadConst64 {
                    rd: Writable { reg: spec_value_reg(f, result) },
                    const_data: imm,
                },
            ]
        },
        InstData::Iadd { result, a, b: bv } => if k >= 1 && spec_fused(f, b, k - 1) {
            seq![
                Inst::AluRRImm12 {
                    alu_op: spec_add_op(f, result),
                    rd: Writable { reg: spec_value_reg(f, result) },
                    rn: spec_value_reg(f, a),
                    imm12: crate::inst::spec_imm12_of(
                        f.blocks@[b].insts@[k - 1]->Iconst_imm,
                    ),
                },
            ]
        } else {
            seq![
                Inst::AluRRR {
                    alu_op: spec_add_op(f, result),
                    rd: Writable { reg: spec_value_reg(f, result) },
                    rn: spec_value_reg(f, a),
                    rm: spec_value_reg(f, bv),
                },
            ]
        },
        InstData::Call { .. } => arbitrary(),
    }
}

/// How many machine instructions the body instruction at `(b, k)` lowers
/// to.
pub open spec fn spec_chunk_len(f: Function, b: int, k: int) -> int {
    match f.blocks@[b].insts@[k] {
        InstData::Call { sig, args, results, .. } => {
            let space = crate::abi::spec_stack_space(sig.call_conv, sig.params@);
            crate::abi::spec_adjust_stack(space as u64, true).len() + args@.len() + 1
                + results@.len() + crate::abi::spec_adjust_stack(
                space as u64,
                false,
            ).len() as int
        },
        _ => spec_lower_simple(f, b, k).len() as int,
    }
}

/// `s` is the lowered form of the call at `(b, k)`: the stack
/// pre-adjustment, the argument moves, the call instruction carrying the
/// argument registers as uses and the caller-saved and return registers as
/// defs, the return-value moves, and the post-adjustment.  Opaque: the
/// passes carry it whole; `lemma_call_assembled` establishes it.
#[verifier::opaque]
pub open spec fn spec_call_lowered(f: Function, b: int, k: int, s: Seq<Inst>) -> bool {
    match f.blocks@[b].insts@[k] {
        InstData::Call { sig, callee, args, results, loc } => {
            let aw = spec_arg_locs(sig.call_conv, sig.params@);
            let rw = spec_arg_locs(sig.call_conv, sig.returns@);
            let space = crate::abi::spec_stack_space(sig.call_conv, sig.params@);
            let pre = crate::abi::spec_adjust_stack(space as u64, true);
            let post = crate::abi::spec_adjust_stack(space as u64, false);
            let na = args@.len() as int;
            let nr = results@.len() as int;
            &&& s.len() == pre.len() + na + 1 + nr + post.len()
            &&& s.subrange(0, pre.len() as int) == pre
            &&& forall|i: int|
                0 <= i < na ==> #[trigger] s[pre.len() + i] == spec_move_to_loc(
                    f,
                    aw.args[i],
                    args@[i],
                )
            &&& s[pre.len() + na] is Call
            &&& (s[pre.len() + na] matches Inst::Call { dest, uses, defs, loc: l } ==> dest
                == callee && l == loc && uses@ == crate::abi::spec_arg_uses(aw.args) && defs@
                == crate::abi::spec_caller_saves() + crate::abi::spec_ret_defs(rw.args))
            &&& forall|i: int|
                0 <= i < nr ==> #[trigger] s[pre.len() + na + 1 + i] == spec_move_from_loc(
                    f,
                    rw.args[i],
                    results@[i],
                )
            &&& s.subrange(s.len() - post.len(), s.len() as int) == post
        },
        _ => false,
    }
}

/// Assembling the five parts of a lowered call in order yields its lowered
/// form.
#[verifier::rlimit(100)]
#[verifier::spinoff_prover]
proof fn lemma_call_assembled(
    f: Function,
    b: int,
    k: int,
    argmoves: Seq<Inst>,
    ci: Inst,
    retmoves: Seq<Inst>,
    s: Seq<Inst>,
)
    requires
        0 <= b < f.blocks@.len(),
        0 <= k < f.blocks@[b].insts@.len(),
        f.blocks@[b].insts@[k] is Call,
        ({
            let sig = f.blocks@[b].insts@[k]->Call_sig;
            let args = f.blocks@[b].insts@[k]->Call_args;
            let results = f.blocks@[b].insts@[k]->Call_results;
            let aw = spec_arg_locs(sig.call_conv, sig.params@);
            let rw = spec_arg_locs(sig.call_conv, sig.returns@);
            let space = crate::abi::spec_stack_space(sig.call_conv, sig.params@);
            let pre = crate::abi::spec_adjust_stack(space as u64, true);
            let post = crate::abi::spec_adjust_stack(space as u64, false);
            &&& argmoves == Seq::new(
                args@.len(),
                |j: int| spec_move_to_loc(f, aw.args[j], args@[j]),
            )
            &&& retmoves == Seq::new(
                results@.len(),
                |j: int| spec_move_from_loc(f, rw.args[j], results@[j]),
            )
            &&& ci is Call
            &&& (ci matches Inst::Call { dest, uses, defs, loc: l } ==> dest == f.blocks@[
                b].insts@[k]->Call_callee && l == f.blocks@[b].insts@[k]->Call_loc && uses@
                == crate::abi::spec_arg_uses(aw.args) && defs@ == crate::abi::spec_caller_saves()
                + crate::abi::spec_ret_defs(rw.args))
            &&& s == pre + argmoves + seq![ci] + retmoves + post
        }),
    ensures
        spec_call_lowered(f, b, k, s),
{
    reveal(spec_call_lowered);
    let sig = f.blocks@[b].insts@[k]->Call_sig;
    let args = f.blocks@[b].insts@[k]->Call_args;
    let results = f.blocks@[b].insts@[k]->Call_results;
    let aw = spec_arg_locs(sig.call_conv, sig.params@);
    let rw = spec_arg_locs(sig.call_conv, sig.returns@);
    let space = crate::abi::spec_stack_space(sig.call_conv, sig.params@);
    let pre = crate::abi::spec_adjust_stack(space as u64, true);
    let post = crate::abi::spec_adjust_stack(space as u64, false);
    let na = args@.len() as int;
    let nr = results@.len() as int;
    assert(s.subrange(0, pre.len() as int) =~= pre);
    assert forall|i: int| 0 <= i < na implies #[trigger] s[pre.len() + i] == spec_move_to_loc(
        f,
        aw.args[i],
        args@[i],
    ) by {
        assert(s[pre.len() + i] == argmoves[i]);
    }
    assert(s[pre.len() + na] == ci);
    assert forall|i: int| 0 <= i < nr implies #[trigger] s[pre.len() + na + 1 + i]
        == spec_move_from_loc(f, rw.args[i], results@[i]) by {
        assert(s[pre.len() + na + 1 + i] == retmoves[i]);
    }
    assert(s.subrange(s.len() - post.len(), s.len() as int) =~= post);
}

/// `s` is the lowered form of the body instruction at `(b, k)`.
pub open spec fn spec_chunk_lowered(f: Function, b: int, k: int, s: Seq<Inst>) -> bool {
    match f.blocks@[b].insts@[k] {
        InstData::Call { .. } => spec_call_lowered(f, b, k, s),
        _ => s == spec_lower_simple(f, b, k),
    }
}

/// The lowered terminator of block `b`, given the return-value locations
/// `rets` of the function's own signature: return-value moves and the
/// epilogue placeholder for a return, a single branch otherwise.
pub open spec fn spec_lower_term(f: Function, rets: Seq<crate::abi::ABIArg>, b: int) -> Seq<Inst> {
    match f.blocks@[b].term {
        TermData::Return { args } => Seq::new(
            args@.len(),
            |i: int| spec_move_to_loc(f, rets[i], args@[i]),
        ).push(Inst::EpiloguePlaceholder),
        TermData::Jump { dest } => seq![Inst::Jump { dest, rel: 0 }],
        TermData::Brnz { arg, taken, not_taken } => seq![
            Inst::CondBr {
                kind: CondBrKind::NotZero(spec_value_reg(f, arg)),
                taken,
                not_taken,
                compound: true,
                rel_taken: 0,
                rel_not_taken: 0,
            },
        ],
    }
}

/// `s` is the lowered rest of block `b`: the chunks of the body
/// instructions from `k` on, then the lowered terminator.
pub open spec fn spec_body_lowered(
    f: Function,
    rets: Seq<crate::abi::ABIArg>,
    b: int,
    k: int,
    s: Seq<Inst>,
) -> bool
    decreases f.blocks@[b].insts@.len() - k,
{
    if k < 0 || k >= f.blocks@[b].insts@.len() {
        s == spec_lower_term(f, rets, b)
    } else {
        let n = spec_chunk_len(f, b, k);
        &&& 0 <= n <= s.len()
        &&& spec_chunk_lowered(f, b, k, s.take(n))
        &&& spec_body_lowered(f, rets, b, k + 1, s.skip(n))
    }
}

/// `s` is the complete lowered block `b`: on the entry block, the argument
/// moves come first; then the lowered body and terminator.
pub open spec fn spec_block_lowered(
    f: Function,
    args: Seq<crate::abi::ABIArg>,
    rets: Seq<crate::abi::ABIArg>,
    b: int,
    s: Seq<Inst>,
) -> bool {
    if b == 0 {
        &&& s.len() >= args.len()
        &&& forall|i: int| 0 <= i < args.len() ==> #[trigger] s[i] == spec_arg_move(f, args, i)
        &&& spec_body_lowered(f, rets, b, 0, s.skip(args.len() as int))
    } else {
        spec_body_lowered(f, rets, b, 0, s)
    }
}

/// A register reference whose virtual part is consistent with the class
/// table built from the value types of `f`.
pub open spec fn classes_of(f: Function) -> Seq<RegClass> {
    Seq::new(f.value_types@.len(), |v: int| spec_class_of(f.value_types@[v]))
}

/// A move between registers never refers to a virtual register beyond the
/// table when both ends are in it.
proof fn lemma_gen_move_vregs_ok(
    to_reg: Writable<Reg>,
    from_reg: Reg,
    ty: Type,
    classes: Seq<RegClass>,
)
    requires
        crate::vcode::vreg_ok(to_reg.reg, classes),
        crate::vcode::vreg_ok(from_reg, classes),
    ensures
        crate::vcode::inst_vregs_ok(crate::inst::spec_gen_move(to_reg, from_reg, ty), classes),
        crate::inst::spec_gen_move(to_reg, from_reg, ty).spec_is_term() is NoTerm,
{
    let i = crate::inst::spec_gen_move(to_reg, from_reg, ty);
    assert forall|j: int| 0 <= j < i.spec_regs().len() implies crate::vcode::vreg_ok(
        (#[trigger] i.spec_regs()[j]).0,
        classes,
    ) by {
        assert(i.spec_regs().len() == 2);
    }
}

/// A frame load or store mentions only its data register and a real base.
proof fn lemma_load_store_vregs_ok(off: i64, rd: Writable<Reg>, from: Reg, ty: Type, classes: Seq<RegClass>)
    requires
        crate::vcode::vreg_ok(rd.reg, classes),
        crate::vcode::vreg_ok(from, classes),
    ensures
        crate::vcode::inst_vregs_ok(crate::abi::spec_load_stack(off, rd, ty), classes),
        crate::abi::spec_load_stack(off, rd, ty).spec_is_term() is NoTerm,
        crate::vcode::inst_vregs_ok(crate::abi::spec_store_stack(off, from, ty), classes),
        crate::abi::spec_store_stack(off, from, ty).spec_is_term() is NoTerm,
{
    let li = crate::abi::spec_load_stack(off, rd, ty);
    assert forall|j: int| 0 <= j < li.spec_regs().len() implies crate::vcode::vreg_ok(
        (#[trigger] li.spec_regs()[j]).0,
        classes,
    ) by {
        assert(li.spec_regs().len() == 2);
    }
    let si = crate::abi::spec_store_stack(off, from, ty);
    assert forall|j: int| 0 <= j < si.spec_regs().len() implies crate::vcode::vreg_ok(
        (#[trigger] si.spec_regs()[j]).0,
        classes,
    ) by {
        assert(si.spec_regs().len() == 2);
    }
}

/// Every register-resident argument location yields a real register.
proof fn lemma_arg_uses_real(args: Seq<crate::abi::ABIArg>)
    ensures
        forall|i: int|
            0 <= i < crate::abi::spec_arg_uses(args).len() ==> (#[trigger] crate::abi::spec_arg_uses(
                args,
            )[i]) is Real,
    decreases args.len(),
{
    if args.len() > 0 {
        lemma_arg_uses_real(args.drop_last());
    }
}

proof fn lemma_ret_defs_real(rets: Seq<crate::abi::ABIArg>)
    ensures
        forall|i: int|
            0 <= i < crate::abi::spec_ret_defs(rets).len() ==> (#[trigger] crate::abi::spec_ret_defs(
                rets,
            )[i]).reg is Real,
    decreases rets.len(),
{
    if rets.len() > 0 {
        lemma_ret_defs_real(rets.drop_last());
    }
}

proof fn lemma_x_caller_real(n: int)
    ensures
        forall|i: int|
            0 <= i < crate::abi::spec_x_caller_saves(n).len() ==> (
            #[trigger] crate::abi::spec_x_caller_saves(n)[i]).reg is Real,
    decreases n,
{
    if n > 0 {
        lemma_x_caller_real(n - 1);
    }
}

proof fn lemma_v_caller_real(n: int)
    ensures
        forall|i: int|
            0 <= i < crate::abi::spec_v_caller_saves(n).len() ==> (
            #[trigger] crate::abi::spec_v_caller_saves(n)[i]).reg is Real,
    decreases n,
{
    if n > 0 {
        lemma_v_caller_real(n - 1);
    }
}

/// A call instruction built from a resolved call site mentions only real
/// registers, and is not a terminator.
proof fn lemma_call_inst_ok(i: Inst, classes: Seq<RegClass>)
    requires
        match i {
            Inst::Call { uses, defs, .. } => (forall|j: int|
                0 <= j < uses@.len() ==> (#[trigger] uses@[j]) is Real) && (forall|j: int|
                0 <= j < defs@.len() ==> (#[trigger] defs@[j]).reg is Real),
            _ => false,
        },
    ensures
        crate::vcode::inst_vregs_ok(i, classes),
        i.spec_is_term() is NoTerm,
{
    match i {
        Inst::Call { uses, defs, .. } => {
            assert forall|j: int| 0 <= j < i.spec_regs().len() implies crate::vcode::vreg_ok(
                (#[trigger] i.spec_regs()[j]).0,
                classes,
            ) by {
                assert(i.spec_regs() == crate::inst::as_uses(uses@) + crate::inst::as_defs(
                    defs@,
                ));
                if j < uses@.len() {
                    assert(i.spec_regs()[j].0 == uses@[j]);
                } else {
                    assert(i.spec_regs()[j].0 == defs@[j - uses@.len()].reg);
                }
            }
        },
        _ => {},
    }
}

/// Adjusting the stack pointer touches only real registers and emits no
/// terminator.
proof fn lemma_adjust_stack_ok(amt: u64, is_sub: bool, classes: Seq<RegClass>)
    ensures
        forall|j: int|
            0 <= j < crate::abi::spec_adjust_stack(amt, is_sub).len()
                ==> crate::vcode::inst_vregs_ok(
                #[trigger] crate::abi::spec_adjust_stack(amt, is_sub)[j],
                classes,
            ) && crate::abi::spec_adjust_stack(amt, is_sub)[j].spec_is_term() is NoTerm,
{
    let s = crate::abi::spec_adjust_stack(amt, is_sub);
    assert forall|j: int| 0 <= j < s.len() implies crate::vcode::inst_vregs_ok(
        #[trigger] s[j],
        classes,
    ) && s[j].spec_is_term() is NoTerm by {
        let i = s[j];
        assert forall|m: int| 0 <= m < i.spec_regs().len() implies crate::vcode::vreg_ok(
            (#[trigger] i.spec_regs()[m]).0,
            classes,
        ) by {}
    }
}

/// The growing state of the lowered function: instructions, origins, block
/// ranges and successors built so far.
struct LowerState {
    insts: Vec<Inst>,
    irmap: Vec<u32>,
    ranges: Vec<(usize, usize)>,
    succs: Vec<Vec<BlockIndex>>,
}

impl LowerState {
    /// The invariant the builder maintains: a well-formed prefix of a
    /// VCode, all virtual registers in the class table, terminators only at
    /// block ends, compound conditionals, origins that never name a fused
    /// instruction, and every finished block equal to its lowered form.
    spec fn inv(
        self,
        f: Function,
        aargs: Seq<crate::abi::ABIArg>,
        arets: Seq<crate::abi::ABIArg>,
        b: int,
    ) -> bool {
        &&& self.irmap@.len() == self.insts@.len()
        &&& self.ranges@.len() == b
        &&& self.succs@.len() == b
        &&& (b == 0 ==> self.insts@.len() == 0)
        &&& b >= 1 ==> self.ranges@[0].0 == 0
        &&& forall|j: int|
            0 <= j < b - 1 ==> (#[trigger] self.ranges@[j]).1 == self.ranges@[j + 1].0
        &&& b >= 1 ==> self.ranges@[b - 1].1 == self.insts@.len()
        &&& forall|j: int|
            0 <= j < b ==> (#[trigger] self.ranges@[j]).0 <= self.ranges@[j].1
                <= self.insts@.len()
        &&& forall|j: int|
            0 <= j < self.insts@.len() ==> crate::vcode::inst_vregs_ok(
                #[trigger] self.insts@[j],
                classes_of(f),
            )
        &&& forall|j: int|
            0 <= j < b ==> {
                let bi = self.insts@.subrange(
                    (#[trigger] self.ranges@[j]).0 as int,
                    self.ranges@[j].1 as int,
                );
                &&& bi.len() >= 1
                &&& !(bi.last().spec_is_term() is NoTerm)
                &&& (bi.last() matches Inst::CondBr { compound, .. } ==> compound)
                &&& forall|m: int| 0 <= m < bi.len() - 1 ==> (#[trigger] bi[m]).spec_is_term()
                    is NoTerm
                &&& spec_block_lowered(f, aargs, arets, j, bi)
            }
        &&& forall|j: int|
            0 <= j < self.irmap@.len() ==> (#[trigger] self.irmap@[j] == NO_IR_INST || (
            self.irmap@[j] < 0xFFFF_FFFF && !spec_fused(
                f,
                self.irmap@[j] as int / 0x10000,
                self.irmap@[j] as int % 0x10000,
            )))
    }
}

/// Append one finished block to the builder.
#[verifier::rlimit(100)]
#[verifier::spinoff_prover]
fn append_block(
    st: &mut LowerState,
    cur: Vec<Inst>,
    curmap: Vec<u32>,
    succ: Vec<BlockIndex>,
    Ghost(f): Ghost<Function>,
    Ghost(aargs): Ghost<Seq<crate::abi::ABIArg>>,
    Ghost(arets): Ghost<Seq<crate::abi::ABIArg>>,
    Ghost(b): Ghost<int>,
)
    requires
        old(st).inv(f, aargs, arets, b),
        spec_block_lowered(f, aargs, arets, b, cur@),
        curmap@.len() == cur@.len(),
        cur@.len() >= 1,
        !(cur@.last().spec_is_term() is NoTerm),
        (cur@.last() matches Inst::CondBr { compound, .. } ==> compound),
        forall|m: int| 0 <= m < cur@.len() - 1 ==> (#[trigger] cur@[m]).spec_is_term() is NoTerm,
        forall|j: int|
            0 <= j < cur@.len() ==> crate::vcode::inst_vregs_ok(
                #[trigger] cur@[j],
                classes_of(f),
            ),
        forall|j: int|
            0 <= j < curmap@.len() ==> (#[trigger] curmap@[j] == NO_IR_INST || (curmap@[j]
                < 0xFFFF_FFFF && !spec_fused(
                f,
                curmap@[j] as int / 0x10000,
                curmap@[j] as int % 0x10000,
            ))),
    ensures
        final(st).inv(f, aargs, arets, b + 1),
        final(st).insts@ == old(st).insts@ + cur@,
        final(st).ranges@ == old(st).ranges@.push(
            (old(st).insts@.len() as usize, (old(st).insts@.len() + cur@.len()) as usize),
        ),
        final(st).succs@ == old(st).succs@.push(succ),
        final(st).irmap@ == old(st).irmap@ + curmap@,
{
    let s = st.insts.len();
    let ghost cur0 = cur@;
    let ghost curmap0 = curmap@;
    let mut cur = cur;
    let mut curmap = curmap;
    st.insts.append(&mut cur);
    st.irmap.append(&mut curmap);
    let e = st.insts.len();
    st.ranges.push((s, e));
    st.succs.push(succ);
    proof {
        assert forall|j: int| 0 <= j < b + 1 implies {
            let bi = st.insts@.subrange(
                (#[trigger] st.ranges@[j]).0 as int,
                st.ranges@[j].1 as int,
            );
            &&& bi.len() >= 1
            &&& !(bi.last().spec_is_term() is NoTerm)
            &&& (bi.last() matches Inst::CondBr { compound, .. } ==> compound)
            &&& forall|m: int| 0 <= m < bi.len() - 1 ==> (#[trigger] bi[m]).spec_is_term()
                is NoTerm
            &&& spec_block_lowered(f, aargs, arets, j, bi)
        } by {
            if j < b {
                assert(st.insts@.subrange(st.ranges@[j].0 as int, st.ranges@[j].1 as int)
                    =~= old(st).insts@.subrange(
                    old(st).ranges@[j].0 as int,
                    old(st).ranges@[j].1 as int,
                ));
            } else {
                assert(st.insts@.subrange(st.ranges@[j].0 as int, st.ranges@[j].1 as int)
                    =~= cur0);
            }
        }
        assert forall|j: int|
            0 <= j < st.insts@.len() implies crate::vcode::inst_vregs_ok(
            #[trigger] st.insts@[j],
            classes_of(f),
        ) by {
            if j < old(st).insts@.len() {
                assert(st.insts@[j] == old(st).insts@[j]);
            } else {
                assert(st.insts@[j] == cur0[j - old(st).insts@.len()]);
            }
        }
        assert forall|j: int|
            0 <= j < st.irmap@.len() implies (#[trigger] st.irmap@[j] == NO_IR_INST || (
        st.irmap@[j] < 0xFFFF_FFFF && !spec_fused(
            f,
            st.irmap@[j] as int / 0x10000,
            st.irmap@[j] as int % 0x10000,
        ))) by {
            if j < old(st).irmap@.len() {
                assert(st.irmap@[j] == old(st).irmap@[j]);
            } else {
                assert(st.irmap@[j] == curmap0[j - old(st).irmap@.len()]);
            }
        }
    }
}

/// Append a run of helper instructions that carry no IR origin.
#[verifier::loop_isolation(false)]
fn append_plain(
    cur: &mut Vec<Inst>,
    curmap: &mut Vec<u32>,
    v: Vec<Inst>,
    Ghost(f): Ghost<Function>,
)
    requires
        old(curmap)@.len() == old(cur)@.len(),
        forall|j: int|
            0 <= j < v@.len() ==> crate::vcode::inst_vregs_ok(#[trigger] v@[j], classes_of(f))
                && v@[j].spec_is_term() is NoTerm,
    ensures
        final(cur)@ == old(cur)@ + v@,
        final(curmap)@.len() == final(cur)@.len(),
        forall|j: int|
            old(curmap)@.len() <= j < final(curmap)@.len() ==> #[trigger] final(curmap)@[j]
                == NO_IR_INST,
        forall|j: int|
            0 <= j < old(curmap)@.len() ==> #[trigger] final(curmap)@[j] == old(curmap)@[j],
    decreases v@.len(),
{
    let ghost v0 = v@;
    let mut v = v;
    let n = v.len();
    let mut i: usize = 0;
    while i < n
        invariant
            n == v0.len(),
            i <= n,
            v@ == v0.skip(i as int),
            curmap@.len() == cur@.len(),
            cur@ == old(cur)@ + v0.subrange(0, i as int),
            forall|j: int|
                0 <= j < v0.len() ==> crate::vcode::inst_vregs_ok(
                    #[trigger] v0[j],
                    classes_of(f),
                ) && v0[j].spec_is_term() is NoTerm,
            forall|j: int|
                old(curmap)@.len() <= j < curmap@.len() ==> #[trigger] curmap@[j] == NO_IR_INST,
            forall|j: int|
                0 <= j < old(curmap)@.len() ==> #[trigger] curmap@[j] == old(curmap)@[j],
        decreases n - i,
    {
        let inst = v.remove(0);
        proof {
            assert(inst == v0[i as int]);
            assert(v@ =~= v0.skip(i + 1));
        }
        cur.push(inst);
        curmap.push(NO_IR_INST);
        proof {
            assert(cur@ =~= old(cur)@ + v0.subrange(0, i + 1));
        }
        i = i + 1;
    }
    proof {
        assert(v0.subrange(0, n as int) =~= v0);
    }
}

/// What the lowering driver needs of its inputs: a well-formed function
/// whose block and instruction counts fit the origin encoding, an ABI state
/// resolved from the same signature, return statements that match the
/// signature, and internally consistent call instructions.
pub open spec fn lower_compatible(f: Function, abi: ARM64ABIBody) -> bool {
    &&& f.wf()
    &&& abi.wf()
    &&& 1 <= f.blocks@.len() <= 0xFFFE
    &&& f.value_types@.len() <= 0xFFFF_FFFF
    &&& forall|b: int|
        0 <= b < f.blocks@.len() ==> (#[trigger] f.blocks@[b]).insts@.len() <= 0xFFFE
    &&& abi.sig.args@.len() == f.blocks@[0].params@.len()
    &&& forall|b: int|
        0 <= b < f.blocks@.len() ==> match (#[trigger] f.blocks@[b]).term {
            TermData::Return { args } => args@.len() == abi.sig.rets@.len(),
            _ => true,
        }
    &&& forall|b: int, k: int|
        0 <= b < f.blocks@.len() && 0 <= k < f.blocks@[b].insts@.len() ==> match (
        #[trigger] f.blocks@[b].insts@[k]) {
            InstData::Call { sig, args, results, .. } => {
                &&& sig.params@.len() == args@.len()
                &&& sig.returns@.len() == results@.len()
                &&& sig.params@.len() <= 0x10000000
                &&& sig.returns@.len() <= 0x10000000
            },
            _ => true,
        }
}
/// Every register a resolved call site writes is real.
proof fn lemma_call_defs_real(c: crate::abi::ARM64ABICall)
    requires
        c.wf(),
    ensures
        forall|j: int| 0 <= j < c.defs@.len() ==> (#[trigger] c.defs@[j]).reg is Real,
{
    lemma_ret_defs_real(c.sig.rets@);
    lemma_x_caller_real(29);
    lemma_v_caller_real(32);
    assert forall|j: int| 0 <= j < c.defs@.len() implies (#[trigger] c.defs@[j]).reg is Real by {
        if j < crate::abi::spec_caller_saves().len() {
            if j < crate::abi::spec_x_caller_saves(29).len() {
                assert(c.defs@[j] == crate::abi::spec_x_caller_saves(29)[j]);
            } else {
                assert(c.defs@[j] == crate::abi::spec_v_caller_saves(32)[j
                    - crate::abi::spec_x_caller_saves(29).len()]);
            }
        } else {
            assert(c.defs@[j] == crate::abi::spec_ret_defs(c.sig.rets@)[j
                - crate::abi::spec_caller_saves().len()]);
        }
    }
}

/// The argument moves of the call at `(b, k)`, in order.
#[verifier::rlimit(100)]
#[verifier::spinoff_prover]
#[verifier::loop_isolation(false)]
fn build_arg_moves(f: &Function, b: usize, k: usize, call: &ARM64ABICall) -> (v: Vec<Inst>)
    requires
        f.wf(),
        b < f.blocks@.len(),
        k < f.blocks@[b as int].insts@.len(),
        f.blocks@[b as int].insts@[k as int] is Call,
        call.wf(),
        call.sig.args@ == spec_arg_locs(
            f.blocks@[b as int].insts@[k as int]->Call_sig.call_conv,
            f.blocks@[b as int].insts@[k as int]->Call_sig.params@,
        ).args,
        call.sig.args@.len() == f.blocks@[b as int].insts@[k as int]->Call_args@.len(),
    ensures
        v@ == Seq::new(
            f.blocks@[b as int].insts@[k as int]->Call_args@.len(),
            |j: int|
                spec_move_to_loc(
                    *f,
                    spec_arg_locs(
                        f.blocks@[b as int].insts@[k as int]->Call_sig.call_conv,
                        f.blocks@[b as int].insts@[k as int]->Call_sig.params@,
                    ).args[j],
                    f.blocks@[b as int].insts@[k as int]->Call_args@[j],
                ),
        ),
        forall|j: int|
            0 <= j < v@.len() ==> crate::vcode::inst_vregs_ok(#[trigger] v@[j], classes_of(*f))
                && v@[j].spec_is_term() is NoTerm,
{
    let ghost classes = classes_of(*f);
    let ghost aw = spec_arg_locs(
        f.blocks@[b as int].insts@[k as int]->Call_sig.call_conv,
        f.blocks@[b as int].insts@[k as int]->Call_sig.params@,
    );
    let mut v: Vec<Inst> = Vec::new();
    match &f.blocks[b].insts[k] {
        InstData::Call { args, .. } => {
            let nargs = args.len();
            let mut i: usize = 0;
            while i < nargs
                invariant
                    nargs == args@.len(),
                    args@ == f.blocks@[b as int].insts@[k as int]->Call_args@,
                    i <= nargs,
                    call.wf(),
                    call.sig.args@ == aw.args,
                    call.sig.args@.len() == nargs,
                    v@ == Seq::new(
                        i as nat,
                        |j: int| spec_move_to_loc(*f, aw.args[j], args@[j]),
                    ),
                    forall|j: int|
                        0 <= j < v@.len() ==> crate::vcode::inst_vregs_ok(
                            #[trigger] v@[j],
                            classes,
                        ) && v@[j].spec_is_term() is NoTerm,
                decreases nargs - i,
            {
                let av: Value = args[i];
                proof {
                    assert(f.blocks@[b as int].insts@[k as int].spec_args().contains(av)) by {
                        assert(f.blocks@[b as int].insts@[k as int].spec_args()[i as int] == av);
                    }
                    assert(f.value_in_range(av));
                }
                let from = value_reg(f, av);
                let inst = call.gen_copy_reg_to_arg(i, from);
                proof {
                    match call.sig.args@[i as int] {
                        crate::abi::ABIArg::Reg(rr, ty) => {
                            lemma_gen_move_vregs_ok(
                                Writable { reg: Reg::Real(rr) },
                                from,
                                ty,
                                classes,
                            );
                        },
                        crate::abi::ABIArg::Stack(off, _) => {
                            assert(inst.spec_regs().len() == 2);
                        },
                        crate::abi::ABIArg::RetMem(_) => {},
                    }
                    assert(inst == spec_move_to_loc(*f, aw.args[i as int], av));
                }
                v.push(inst);
                proof {
                    assert(v@ =~= Seq::new(
                        (i + 1) as nat,
                        |j: int| spec_move_to_loc(*f, aw.args[j], args@[j]),
                    ));
                }
                i = i + 1;
            }
        },
        _ => {
            proof {
                assert(false);
            }
        },
    }
    v
}

/// The return-value moves of the call at `(b, k)`, in order.
#[verifier::rlimit(100)]
#[verifier::spinoff_prover]
#[verifier::loop_isolation(false)]
fn build_ret_moves(f: &Function, b: usize, k: usize, call: &ARM64ABICall) -> (v: Vec<Inst>)
    requires
        f.wf(),
        b < f.blocks@.len(),
        k < f.blocks@[b as int].insts@.len(),
        f.blocks@[b as int].insts@[k as int] is Call,
        call.wf(),
        call.sig.rets@ == spec_arg_locs(
            f.blocks@[b as int].insts@[k as int]->Call_sig.call_conv,
            f.blocks@[b as int].insts@[k as int]->Call_sig.returns@,
        ).args,
        call.sig.rets@.len() == f.blocks@[b as int].insts@[k as int]->Call_results@.len(),
    ensures
        v@ == Seq::new(
            f.blocks@[b as int].insts@[k as int]->Call_results@.len(),
            |j: int|
                spec_move_from_loc(
                    *f,
                    spec_arg_locs(
                        f.blocks@[b as int].insts@[k as int]->Call_sig.call_conv,
                        f.blocks@[b as int].insts@[k as int]->Call_sig.returns@,
                    ).args[j],
                    f.blocks@[b as int].insts@[k as int]->Call_results@[j],
                ),
        ),
        forall|j: int|
            0 <= j < v@.len() ==> crate::vcode::inst_vregs_ok(#[trigger] v@[j], classes_of(*f))
                && v@[j].spec_is_term() is NoTerm,
{
    let ghost classes = classes_of(*f);
    let ghost rw = spec_arg_locs(
        f.blocks@[b as int].insts@[k as int]->Call_sig.call_conv,
        f.blocks@[b as int].insts@[k as int]->Call_sig.returns@,
    );
    let mut v: Vec<Inst> = Vec::new();
    match &f.blocks[b].insts[k] {
        InstData::Call { results, .. } => {
            let nres = results.len();
            let mut i: usize = 0;
            while i < nres
                invariant
                    nres == results@.len(),
                    results@ == f.blocks@[b as int].insts@[k as int]->Call_results@,
                    i <= nres,
                    call.wf(),
                    call.sig.rets@ == rw.args,
                    call.sig.rets@.len() == nres,
                    v@ == Seq::new(
                        i as nat,
                        |j: int| spec_move_from_loc(*f, rw.args[j], results@[j]),
                    ),
                    forall|j: int|
                        0 <= j < v@.len() ==> crate::vcode::inst_vregs_ok(
                            #[trigger] v@[j],
                            classes,
                        ) && v@[j].spec_is_term() is NoTerm,
                decreases nres - i,
            {
                let rv: Value = results[i];
                proof {
                    assert(f.blocks@[b as int].insts@[k as int].spec_results().contains(rv)) by {
                        assert(f.blocks@[b as int].insts@[k as int].spec_results()[i as int]
                            == rv);
                    }
                    assert(f.value_in_range(rv));
                }
                let into = writable_value_reg(f, rv);
                let inst = call.gen_copy_retval_to_reg(i, into);
                proof {
                    match call.sig.rets@[i as int] {
                        crate::abi::ABIArg::Reg(rr, ty) => {
                            lemma_gen_move_vregs_ok(into, Reg::Real(rr), ty, classes);
                        },
                        _ => {},
                    }
                    assert(inst == spec_move_from_loc(*f, rw.args[i as int], rv));
                }
                v.push(inst);
                proof {
                    assert(v@ =~= Seq::new(
                        (i + 1) as nat,
                        |j: int| spec_move_from_loc(*f, rw.args[j], results@[j]),
                    ));
                }
                i = i + 1;
            }
        },
        _ => {
            proof {
                assert(false);
            }
        },
    }
    v
}

/// Lower the call at `(b, k)`: the stack pre-adjustment, the argument
/// moves as `build_arg_moves` pins them, the call instruction, the
/// return-value moves as `build_ret_moves` pins them, and the
/// post-adjustment.  Fails when the callee's signature cannot be
/// resolved.
#[verifier::rlimit(100)]
#[verifier::spinoff_prover]
#[verifier::loop_isolation(false)]
fn lower_call(f: &Function, b: usize, k: usize) -> (r: Result<Vec<Inst>, CodegenError>)
    requires
        f.wf(),
        b < f.blocks@.len(),
        k < f.blocks@[b as int].insts@.len(),
        f.blocks@[b as int].insts@[k as int] is Call,
        match f.blocks@[b as int].insts@[k as int] {
            InstData::Call { sig, args, results, .. } => {
                &&& sig.params@.len() == args@.len()
                &&& sig.returns@.len() == results@.len()
                &&& sig.params@.len() <= 0x10000000
                &&& sig.returns@.len() <= 0x10000000
            },
            _ => true,
        },
    ensures
        match r {
            Ok(v) => {
                &&& spec_call_lowered(*f, b as int, k as int, v@)
                &&& v@.len() == spec_chunk_len(*f, b as int, k as int)
                &&& forall|j: int|
                    0 <= j < v@.len() ==> crate::vcode::inst_vregs_ok(
                        #[trigger] v@[j],
                        classes_of(*f),
                    ) && v@[j].spec_is_term() is NoTerm
            },
            Err(e) => {
                &&& e == CodegenError::UnsupportedConstruct
                &&& (f.blocks@[b as int].insts@[k as int] matches InstData::Call { sig, .. }
                    && (!spec_arg_locs(sig.call_conv, sig.params@).ok || !spec_arg_locs(
                    sig.call_conv,
                    sig.returns@,
                ).ok || !crate::abi::spec_no_stack(
                    spec_arg_locs(sig.call_conv, sig.returns@).args,
                )))
            },
        },
{
    let ghost classes = classes_of(*f);
    match &f.blocks[b].insts[k] {
        InstData::Call { sig, callee, args, results, loc } => {
            let call = match ARM64ABICall::from_func(sig, callee, *loc) {
                Ok(c) => c,
                Err(_) => {
                    return Err(CodegenError::UnsupportedConstruct);
                },
            };
            let ghost aw = spec_arg_locs(sig.call_conv, sig.params@);
            let ghost rw = spec_arg_locs(sig.call_conv, sig.returns@);
            let ghost space_u = call.sig.stack_arg_space as u64;
            let ghost pre_s = crate::abi::spec_adjust_stack(space_u, true);
            let ghost post_s = crate::abi::spec_adjust_stack(space_u, false);
            let nargs = args.len();
            let nres = results.len();
            proof {
                crate::abi::lemma_arg_walk_lengths(
                    sig.call_conv,
                    sig.params@,
                    sig.params@.len() as int,
                );
                crate::abi::lemma_arg_walk_lengths(
                    sig.call_conv,
                    sig.returns@,
                    sig.returns@.len() as int,
                );
                lemma_adjust_stack_ok(space_u, true, classes);
                lemma_adjust_stack_ok(space_u, false, classes);
                assert(space_u == crate::abi::spec_stack_space(
                    sig.call_conv,
                    sig.params@,
                ) as u64);
                assert(f.blocks@[b as int].insts@[k as int]->Call_sig == *sig);
                assert(f.blocks@[b as int].insts@[k as int]->Call_args@ == args@);
                assert(f.blocks@[b as int].insts@[k as int]->Call_results@ == results@);
            }
            let mut callseq: Vec<Inst> = Vec::new();
            let mut pre = call.gen_stack_pre_adjust();
            callseq.append(&mut pre);
            proof {
                assert(callseq@ =~= pre_s);
                assert forall|j: int|
                    0 <= j < callseq@.len() implies crate::vcode::inst_vregs_ok(
                    #[trigger] callseq@[j],
                    classes,
                ) && callseq@[j].spec_is_term() is NoTerm by {}
            }
            let mut argmoves_v = build_arg_moves(f, b, k, &call);
            let ghost argmoves = argmoves_v@;
            callseq.append(&mut argmoves_v);
            proof {
                assert(callseq@ =~= pre_s + argmoves);
                assert forall|j: int|
                    0 <= j < callseq@.len() implies crate::vcode::inst_vregs_ok(
                    #[trigger] callseq@[j],
                    classes,
                ) && callseq@[j].spec_is_term() is NoTerm by {
                    if j < pre_s.len() {
                        assert(callseq@[j] == pre_s[j]);
                    } else {
                        assert(callseq@[j] == argmoves[j - pre_s.len()]);
                    }
                }
            }
            let mut rets_insts = build_ret_moves(f, b, k, &call);
            let ghost retmoves = rets_insts@;
            let mut post = call.gen_stack_post_adjust();
            let ghost call_g = call;
            let mut cinsts = call.gen_call();
            let ghost ci = cinsts@[0];
            proof {
                lemma_arg_uses_real(call_g.sig.args@);
                lemma_call_defs_real(call_g);
                lemma_call_inst_ok(ci, classes);
            }
            let ghost seq_before_call = callseq@;
            callseq.append(&mut cinsts);
            proof {
                assert(callseq@ =~= seq_before_call + seq![ci]);
                assert forall|j: int|
                    0 <= j < callseq@.len() implies crate::vcode::inst_vregs_ok(
                    #[trigger] callseq@[j],
                    classes,
                ) && callseq@[j].spec_is_term() is NoTerm by {
                    if j < seq_before_call.len() {
                        assert(callseq@[j] == seq_before_call[j]);
                    } else {
                        assert(callseq@[j] == ci);
                    }
                }
            }
            let ghost seq_before_rets = callseq@;
            callseq.append(&mut rets_insts);
            proof {
                assert forall|j: int|
                    0 <= j < callseq@.len() implies crate::vcode::inst_vregs_ok(
                    #[trigger] callseq@[j],
                    classes,
                ) && callseq@[j].spec_is_term() is NoTerm by {
                    if j < seq_before_rets.len() {
                        assert(callseq@[j] == seq_before_rets[j]);
                    } else {
                        assert(callseq@[j] == retmoves[j - seq_before_rets.len()]);
                    }
                }
            }
            let ghost seq_before_post = callseq@;
            callseq.append(&mut post);
            proof {
                assert forall|j: int|
                    0 <= j < callseq@.len() implies crate::vcode::inst_vregs_ok(
                    #[trigger] callseq@[j],
                    classes,
                ) && callseq@[j].spec_is_term() is NoTerm by {
                    if j < seq_before_post.len() {
                        assert(callseq@[j] == seq_before_post[j]);
                    } else {
                        assert(callseq@[j] == post_s[j - seq_before_post.len()]);
                    }
                }
                assert(callseq@ =~= pre_s + argmoves + seq![ci] + retmoves + post_s);
                assert(callseq@.len() == spec_chunk_len(*f, b as int, k as int));
                lemma_call_assembled(*f, b as int, k as int, argmoves, ci, retmoves, callseq@);
            }
            Ok(callseq)
        },
        _ => {
            proof {
                assert(false);
            }
            Err(CodegenError::UnsupportedConstruct)
        },
    }
}

/// Lower one block: the argument moves on the entry block, the body
/// instructions, and the terminator.  Returns the block's instructions,
/// their origins, and its successors.
#[verifier::rlimit(100)]
#[verifier::spinoff_prover]
#[verifier::loop_isolation(false)]
fn lower_block(f: &Function, abi: &ARM64ABIBody, b: usize) -> (r: Result<
    (Vec<Inst>, Vec<u32>, Vec<BlockIndex>),
    CodegenError,
>)
    requires
        lower_compatible(*f, *abi),
        b < f.blocks@.len(),
    ensures
        match r {
            Ok(t) => {
                &&& t.1@.len() == t.0@.len()
                &&& t.0@.len() >= 1
                &&& !(t.0@.last().spec_is_term() is NoTerm)
                &&& (t.0@.last() matches Inst::CondBr { compound, .. } ==> compound)
                &&& forall|m: int|
                    0 <= m < t.0@.len() - 1 ==> (#[trigger] t.0@[m]).spec_is_term() is NoTerm
                &&& forall|j: int|
                    0 <= j < t.0@.len() ==> crate::vcode::inst_vregs_ok(
                        #[trigger] t.0@[j],
                        classes_of(*f),
                    )
                &&& forall|j: int|
                    0 <= j < t.1@.len() ==> (#[trigger] t.1@[j] == NO_IR_INST || (t.1@[j]
                        < 0xFFFF_FFFF && !spec_fused(
                        *f,
                        t.1@[j] as int / 0x10000,
                        t.1@[j] as int % 0x10000,
                    )))
                &&& spec_block_lowered(*f, abi.sig.args@, abi.sig.rets@, b as int, t.0@)
            },
            Err(e) => {
                &&& e == CodegenError::UnsupportedConstruct
                &&& exists|k: int|
                    0 <= k < f.blocks@[b as int].insts@.len() && (
                    #[trigger] f.blocks@[b as int].insts@[k] matches InstData::Call { sig, .. }
                        && (!spec_arg_locs(sig.call_conv, sig.params@).ok || !spec_arg_locs(
                        sig.call_conv,
                        sig.returns@,
                    ).ok || !crate::abi::spec_no_stack(
                        spec_arg_locs(sig.call_conv, sig.returns@).args,
                    )))
            },
        },
{
    let ghost classes = classes_of(*f);
    let ghost aargs = abi.sig.args@;
    let ghost arets = abi.sig.rets@;
    let mut cur: Vec<Inst> = Vec::new();
    let mut curmap: Vec<u32> = Vec::new();
    // Argument moves at the top of the entry block.
    if b == 0 {
        let na = abi.num_args();
        let mut i: usize = 0;
        while i < na
            invariant
                b == 0,
                na == abi.sig.args@.len(),
                i <= na,
                cur@.len() == i,
                curmap@.len() == cur@.len(),
                forall|j: int| 0 <= j < i ==> #[trigger] cur@[j] == spec_arg_move(*f, aargs, j),
                forall|j: int|
                    0 <= j < cur@.len() ==> crate::vcode::inst_vregs_ok(
                        #[trigger] cur@[j],
                        classes,
                    ) && cur@[j].spec_is_term() is NoTerm,
                forall|j: int| 0 <= j < curmap@.len() ==> #[trigger] curmap@[j] == NO_IR_INST,
            decreases na - i,
        {
            let v: Value = f.blocks[0].params[i];
            let into = writable_value_reg(f, v);
            let inst = abi.gen_copy_arg_to_reg(i, into);
            proof {
                match abi.sig.args@[i as int] {
                    crate::abi::ABIArg::Reg(rr, ty) => {
                        lemma_gen_move_vregs_ok(into, Reg::Real(rr), ty, classes);
                    },
                    crate::abi::ABIArg::Stack(off, ty) => {
                        lemma_load_store_vregs_ok(
                            (off + 16) as i64,
                            into,
                            crate::regs::spec_zero_reg(),
                            ty,
                            classes,
                        );
                    },
                    crate::abi::ABIArg::RetMem(_) => {},
                }
                assert(inst == spec_arg_move(*f, aargs, i as int));
            }
            cur.push(inst);
            curmap.push(NO_IR_INST);
            i = i + 1;
        }
    }
    // Every suffix the body adds keeps the block in its lowered form.
    proof {
        assert forall|rest: Seq<Inst>|
            #[trigger] spec_body_lowered(*f, arets, b as int, 0, rest) implies spec_block_lowered(
            *f,
            aargs,
            arets,
            b as int,
            cur@ + rest,
        ) by {
            if b == 0 {
                assert((cur@ + rest).skip(aargs.len() as int) =~= rest);
                assert forall|i2: int| 0 <= i2 < aargs.len() implies #[trigger] (cur@ + rest)[i2]
                    == spec_arg_move(*f, aargs, i2) by {
                    assert((cur@ + rest)[i2] == cur@[i2]);
                }
            } else {
                assert(cur@ + rest =~= rest);
            }
        }
    }
    // Body instructions.
    let nk = f.blocks[b].insts.len();
    let mut k: usize = 0;
    while k < nk
        invariant
            b < f.blocks@.len(),
            nk == f.blocks@[b as int].insts@.len(),
            k <= nk,
            curmap@.len() == cur@.len(),
            forall|j: int|
                0 <= j < cur@.len() ==> crate::vcode::inst_vregs_ok(
                    #[trigger] cur@[j],
                    classes,
                ) && cur@[j].spec_is_term() is NoTerm,
            forall|j: int|
                0 <= j < curmap@.len() ==> (#[trigger] curmap@[j] == NO_IR_INST || (curmap@[j]
                    < 0xFFFF_FFFF && !spec_fused(
                    *f,
                    curmap@[j] as int / 0x10000,
                    curmap@[j] as int % 0x10000,
                ))),
            forall|rest: Seq<Inst>|
                #[trigger] spec_body_lowered(*f, arets, b as int, k as int, rest)
                    ==> spec_block_lowered(*f, aargs, arets, b as int, cur@ + rest),
        decreases nk - k,
    {
        let ghost cur0 = cur@;
        let id: u32 = (b as u32) * 0x10000 + (k as u32);
        proof {
            assert(id as int / 0x10000 == b as int);
            assert(id as int % 0x10000 == k as int);
        }
        match &f.blocks[b].insts[k] {
            InstData::Iconst { result, imm } => {
                proof {
                    assert(f.blocks@[b as int].insts@[k as int].spec_results()[0] == *result);
                    assert(f.value_in_range(*result));
                }
                if !is_fused(f, b, k) {
                    let rd = writable_value_reg(f, *result);
                    let inst = Inst::LoadConst64 { rd, const_data: *imm };
                    proof {
                        assert(inst.spec_regs().len() == 1);
                    }
                    cur.push(inst);
                    curmap.push(id);
                    proof {
                        assert(spec_lower_simple(*f, b as int, k as int) =~= seq![inst]);
                        assert(cur@.skip(cur0.len() as int) =~= seq![inst]);
                    }
                } else {
                    proof {
                        assert(spec_lower_simple(*f, b as int, k as int) =~= Seq::<Inst>::empty());
                        assert(cur@.skip(cur0.len() as int) =~= Seq::<Inst>::empty());
                    }
                }
                proof {
                    assert(cur@ =~= cur0 + cur@.skip(cur0.len() as int));
                    assert(spec_chunk_lowered(
                        *f,
                        b as int,
                        k as int,
                        cur@.skip(cur0.len() as int),
                    ));
                    assert(cur@.skip(cur0.len() as int).len() == spec_chunk_len(
                        *f,
                        b as int,
                        k as int,
                    ));
                }
            },
            InstData::Iadd { result, a, b: bv } => {
                proof {
                    assert(f.blocks@[b as int].insts@[k as int].spec_results()[0] == *result);
                    assert(f.value_in_range(*result));
                    assert(f.blocks@[b as int].insts@[k as int].spec_args()[0] == *a);
                    assert(f.value_in_range(*a));
                    assert(f.blocks@[b as int].insts@[k as int].spec_args()[1] == *bv);
                    assert(f.value_in_range(*bv));
                }
                let ty = f.value_types[*result as usize];
                let alu_op = match ty {
                    Type::I64 => ALUOp::Add64,
                    Type::B64 => ALUOp::Add64,
                    _ => ALUOp::Add32,
                };
                let rd = writable_value_reg(f, *result);
                let rn = value_reg(f, *a);
                let mut fused_imm: Option<u64> = None;
                if k >= 1 {
                    if is_fused(f, b, k - 1) {
                        match &f.blocks[b].insts[k - 1] {
                            InstData::Iconst { imm, .. } => {
                                fused_imm = Some(*imm);
                            },
                            _ => {
                                proof {
                                    assert(false);
                                }
                            },
                        }
                    }
                }
                match fused_imm {
                    Some(imm) => {
                        let imm12 = match Imm12::maybe_from_u64(imm) {
                            Some(imm12) => imm12,
                            None => {
                                proof {
                                    assert(false);
                                }
                                Imm12 { bits: 0, shift12: false }
                            },
                        };
                        let inst = Inst::AluRRImm12 { alu_op, rd, rn, imm12 };
                        proof {
                            assert(inst.spec_regs().len() == 2);
                        }
                        cur.push(inst);
                        curmap.push(id);
                        proof {
                            assert(k >= 1 && spec_fused(*f, b as int, k as int - 1));
                            assert(imm == f.blocks@[b as int].insts@[k - 1]->Iconst_imm);
                            assert(spec_lower_simple(*f, b as int, k as int) =~= seq![inst]);
                            assert(cur@.skip(cur0.len() as int) =~= seq![inst]);
                        }
                    },
                    None => {
                        let rm = value_reg(f, *bv);
                        let inst = Inst::AluRRR { alu_op, rd, rn, rm };
                        proof {
                            assert(inst.spec_regs().len() == 3);
                        }
                        cur.push(inst);
                        curmap.push(id);
                        proof {
                            assert(!(k >= 1 && spec_fused(*f, b as int, k as int - 1)));
                            assert(spec_lower_simple(*f, b as int, k as int) =~= seq![inst]);
                            assert(cur@.skip(cur0.len() as int) =~= seq![inst]);
                        }
                    },
                }
                proof {
                    assert(cur@ =~= cur0 + cur@.skip(cur0.len() as int));
                    assert(spec_chunk_lowered(
                        *f,
                        b as int,
                        k as int,
                        cur@.skip(cur0.len() as int),
                    ));
                    assert(cur@.skip(cur0.len() as int).len() == spec_chunk_len(
                        *f,
                        b as int,
                        k as int,
                    ));
                }
            },
            InstData::Call { .. } => {
                let callseq = match lower_call(f, b, k) {
                    Ok(v) => v,
                    Err(e) => {
                        return Err(e);
                    },
                };
                let ghost cs = callseq@;
                append_plain(&mut cur, &mut curmap, callseq, Ghost(*f));
                proof {
                    assert(cur@.skip(cur0.len() as int) =~= cs);
                    assert(cur@ =~= cur0 + cur@.skip(cur0.len() as int));
                    assert(spec_chunk_lowered(
                        *f,
                        b as int,
                        k as int,
                        cur@.skip(cur0.len() as int),
                    ));
                    assert(cur@.skip(cur0.len() as int).len() == spec_chunk_len(
                        *f,
                        b as int,
                        k as int,
                    ));
                }
            },
        }
        proof {
            let n = spec_chunk_len(*f, b as int, k as int);
            let chunk = cur@.skip(cur0.len() as int);
            assert forall|rest: Seq<Inst>|
                #[trigger] spec_body_lowered(*f, arets, b as int, k + 1, rest) implies
                spec_block_lowered(*f, aargs, arets, b as int, cur@ + rest) by {
                assert((chunk + rest).take(n) =~= chunk);
                assert((chunk + rest).skip(n) =~= rest);
                assert(spec_body_lowered(*f, arets, b as int, k as int, chunk + rest));
                assert(spec_block_lowered(*f, aargs, arets, b as int, cur0 + (chunk + rest)));
                assert(cur0 + (chunk + rest) =~= cur@ + rest);
            }
        }
        k = k + 1;
    }
    // The terminator.
    let ghost curb = cur@;
    let succ: Vec<BlockIndex>;
    match &f.blocks[b].term {
        TermData::Return { args } => {
            let nr = args.len();
            let mut i: usize = 0;
            while i < nr
                invariant
                    b < f.blocks@.len(),
                    f.blocks@[b as int].term matches TermData::Return { args: targs }
                        && targs@.len() == nr && targs@ == args@,
                    nr == abi.sig.rets@.len(),
                    arets == abi.sig.rets@,
                    i <= nr,
                    cur@ == curb + Seq::new(
                        i as nat,
                        |j: int| spec_move_to_loc(*f, arets[j], args@[j]),
                    ),
                    curmap@.len() == cur@.len(),
                    forall|j: int|
                        0 <= j < cur@.len() ==> crate::vcode::inst_vregs_ok(
                            #[trigger] cur@[j],
                            classes,
                        ) && cur@[j].spec_is_term() is NoTerm,
                    forall|j: int|
                        0 <= j < curmap@.len() ==> (#[trigger] curmap@[j] == NO_IR_INST || (
                        curmap@[j] < 0xFFFF_FFFF && !spec_fused(
                            *f,
                            curmap@[j] as int / 0x10000,
                            curmap@[j] as int % 0x10000,
                        ))),
                decreases nr - i,
            {
                let rv: Value = args[i];
                proof {
                    assert(f.blocks@[b as int].term.spec_args().contains(rv)) by {
                        assert(f.blocks@[b as int].term.spec_args()[i as int] == rv);
                    }
                    assert(f.value_in_range(rv));
                }
                let from = value_reg(f, rv);
                let inst = abi.gen_copy_reg_to_retval(i, from);
                proof {
                    match abi.sig.rets@[i as int] {
                        crate::abi::ABIArg::Reg(rr, ty) => {
                            lemma_gen_move_vregs_ok(
                                Writable { reg: Reg::Real(rr) },
                                from,
                                ty,
                                classes,
                            );
                        },
                        _ => {},
                    }
                    assert(inst == spec_move_to_loc(*f, arets[i as int], rv));
                }
                cur.push(inst);
                curmap.push(NO_IR_INST);
                proof {
                    assert(cur@ =~= curb + Seq::new(
                        (i + 1) as nat,
                        |j: int| spec_move_to_loc(*f, arets[j], args@[j]),
                    ));
                }
                i = i + 1;
            }
            cur.push(abi.gen_epilogue_placeholder());
            curmap.push(NO_IR_INST);
            proof {
                assert(cur@.skip(curb.len() as int) =~= spec_lower_term(*f, arets, b as int));
            }
            succ = Vec::new();
        },
        TermData::Jump { dest } => {
            cur.push(Inst::Jump { dest: *dest, rel: 0 });
            curmap.push(NO_IR_INST);
            proof {
                assert(cur@.skip(curb.len() as int) =~= spec_lower_term(*f, arets, b as int));
            }
            let mut sv: Vec<BlockIndex> = Vec::new();
            sv.push(*dest);
            succ = sv;
        },
        TermData::Brnz { arg, taken, not_taken } => {
            proof {
                assert(f.blocks@[b as int].term.spec_args().contains(*arg)) by {
                    assert(f.blocks@[b as int].term.spec_args()[0] == *arg);
                }
                assert(f.value_in_range(*arg));
            }
            let cond = value_reg(f, *arg);
            let inst = Inst::CondBr {
                kind: CondBrKind::NotZero(cond),
                taken: *taken,
                not_taken: *not_taken,
                compound: true,
                rel_taken: 0,
                rel_not_taken: 0,
            };
            proof {
                assert(inst.spec_regs().len() == 1);
            }
            cur.push(inst);
            curmap.push(NO_IR_INST);
            proof {
                assert(cur@.skip(curb.len() as int) =~= spec_lower_term(*f, arets, b as int));
            }
            let mut sv: Vec<BlockIndex> = Vec::new();
            sv.push(*taken);
            sv.push(*not_taken);
            succ = sv;
        },
    }
    proof {
        let termchunk = cur@.skip(curb.len() as int);
        assert(spec_body_lowered(*f, arets, b as int, nk as int, termchunk));
        assert(spec_block_lowered(*f, aargs, arets, b as int, curb + termchunk));
        assert(curb + termchunk =~= cur@);
    }
    Ok((cur, curmap, succ))
}

/// Lower an IR function to VCode.
///
/// Every IR value gets the virtual register of its own index; the entry
/// block starts with the argument moves; a constant whose only use is the
/// following addition is fused into an immediate form and emits nothing
/// itself; a return lowers to the return-value moves and the epilogue
/// placeholder; branches lower to an unconditional jump or a compound
/// conditional.  The result satisfies the VCode invariants — every virtual
/// register is in range with its recorded class, and every block ends in
/// exactly one terminator — and every block equals its lowered form as
/// `spec_block_lowered` states it, instruction by instruction.
#[verifier::rlimit(100)]
#[verifier::spinoff_prover]
#[verifier::loop_isolation(false)]
pub fn lower(f: &Function, abi: &ARM64ABIBody) -> (r: Result<VCode, CodegenError>)
    requires
        lower_compatible(*f, *abi),
    ensures
        match r {
            Ok(vc) => {
                &&& vc.wf_blocks()
                &&& vc.wf_vregs()
                &&& vc.wf_terms()
                &&& crate::vcode::view_cond_compound(vc.blocks_view())
                &&& vc.num_vregs == f.value_types@.len()
                &&& vc.vreg_classes@ == classes_of(*f)
                &&& vc.block_ranges@.len() == f.blocks@.len()
                &&& vc.pool@.len() == 0
                &&& vc.island@.len() == 0
                &&& forall|bb: int|
                    0 <= bb < f.blocks@.len() ==> spec_block_lowered(
                        *f,
                        abi.sig.args@,
                        abi.sig.rets@,
                        bb,
                        #[trigger] vc.blocks_view()[bb],
                    )
                &&& forall|j: int|
                    0 <= j < vc.irmap@.len() ==> (#[trigger] vc.irmap@[j] == NO_IR_INST
                        || !spec_fused(
                        *f,
                        vc.irmap@[j] as int / 0x10000,
                        vc.irmap@[j] as int % 0x10000,
                    ))
            },
            Err(e) => {
                &&& e == CodegenError::UnsupportedConstruct
                &&& exists|b: int, k: int|
                    0 <= b < f.blocks@.len() && 0 <= k < f.blocks@[b].insts@.len() && (
                    #[trigger] f.blocks@[b].insts@[k] matches InstData::Call { sig, .. }
                        && (!spec_arg_locs(sig.call_conv, sig.params@).ok || !spec_arg_locs(
                        sig.call_conv,
                        sig.returns@,
                    ).ok || !crate::abi::spec_no_stack(
                        spec_arg_locs(sig.call_conv, sig.returns@).args,
                    )))
            },
        },
{
    let ghost classes = classes_of(*f);
    let ghost aargs = abi.sig.args@;
    let ghost arets = abi.sig.rets@;
    let mut st = LowerState {
        insts: Vec::new(),
        irmap: Vec::new(),
        ranges: Vec::new(),
        succs: Vec::new(),
    };
    let nb = f.blocks.len();
    let mut b: usize = 0;
    while b < nb
        invariant
            b <= nb,
            st.inv(*f, aargs, arets, b as int),
        decreases nb - b,
    {
        let lowered = match lower_block(f, abi, b) {
            Ok(t) => t,
            Err(e) => {
                proof {
                    let bb = b as int;
                    let k0 = choose|k: int|
                        0 <= k < f.blocks@[bb].insts@.len() && (
                        #[trigger] f.blocks@[bb].insts@[k] matches InstData::Call {
                            sig,
                            ..
                        } && (!spec_arg_locs(sig.call_conv, sig.params@).ok || !spec_arg_locs(
                            sig.call_conv,
                            sig.returns@,
                        ).ok || !crate::abi::spec_no_stack(
                            spec_arg_locs(sig.call_conv, sig.returns@).args,
                        )));
                    assert(0 <= k0 < f.blocks@[bb].insts@.len());
                    assert(f.blocks@[bb].insts@[k0] matches InstData::Call { sig, .. } && (
                    !spec_arg_locs(sig.call_conv, sig.params@).ok || !spec_arg_locs(
                        sig.call_conv,
                        sig.returns@,
                    ).ok || !crate::abi::spec_no_stack(
                        spec_arg_locs(sig.call_conv, sig.returns@).args,
                    )));
                }
                return Err(e);
            },
        };
        let (cur, curmap, succ) = lowered;
        append_block(
            &mut st,
            cur,
            curmap,
            succ,
            Ghost(*f),
            Ghost(aargs),
            Ghost(arets),
            Ghost(b as int),
        );
        b = b + 1;
    }
    // The virtual-register class table.
    let nv = f.value_types.len();
    let mut vreg_classes: Vec<RegClass> = Vec::new();
    let mut v: usize = 0;
    while v < nv
        invariant
            v <= nv,
            nv == f.value_types@.len(),
            vreg_classes@.len() == v,
            forall|j: int|
                0 <= j < v ==> #[trigger] vreg_classes@[j] == spec_class_of(f.value_types@[j]),
        decreases nv - v,
    {
        vreg_classes.push(class_of(f.value_types[v]));
        v = v + 1;
    }
    proof {
        assert(vreg_classes@ =~= classes);
    }
    let LowerState { insts, irmap, ranges, succs } = st;
    let vc = VCode {
        num_vregs: nv as u32,
        vreg_classes,
        insts,
        irmap,
        block_ranges: ranges,
        block_succs: succs,
        pool: Vec::new(),
        island: Vec::new(),
    };
    proof {
        assert(vc.wf_terms()) by {
            assert forall|bb: int| 0 <= bb < vc.block_ranges@.len() implies {
                let insts2 = #[trigger] vc.block_insts(bb);
                &&& insts2.len() >= 1
                &&& !(insts2.last().spec_is_term() is NoTerm)
                &&& forall|m: int|
                    0 <= m < insts2.len() - 1 ==> (#[trigger] insts2[m]).spec_is_term() is NoTerm
            } by {}
        }
        assert(crate::vcode::view_cond_compound(vc.blocks_view())) by {
            assert forall|bb: int|
                0 <= bb < vc.blocks_view().len() && (#[trigger] vc.blocks_view()[bb]).len()
                > 0 implies (vc.blocks_view()[bb].last() matches Inst::CondBr { compound, .. }
                ==> compound) by {
                assert(vc.blocks_view()[bb] == vc.block_insts(bb));
            }
        }
        assert forall|bb: int| 0 <= bb < f.blocks@.len() implies spec_block_lowered(
            *f,
            abi.sig.args@,
            abi.sig.rets@,
            bb,
            #[trigger] vc.blocks_view()[bb],
        ) by {
            assert(vc.blocks_view()[bb] == vc.block_insts(bb));
            assert(vc.block_insts(bb) == vc.insts@.subrange(
                vc.block_ranges@[bb].0 as int,
                vc.block_ranges@[bb].1 as int,
            ));
        }
    }
    Ok(vc)
}

} // verus!
