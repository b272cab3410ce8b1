// Unit tests: immediates, register universes, argument assignment, frame
// code, branch forms, display names, and the code sink.

use vcodegen::abi::{
    adjust_stack, compute_arg_locs, get_callee_saves, get_caller_saves_set, in_int_reg,
    in_vec_reg, ABIArg, ABISig, ARM64ABIBody, ARM64ABICall, CodegenError,
};
use vcodegen::align_to_16;
use vcodegen::backend::Arm64Backend;
use vcodegen::binemit::CodeSink;
use vcodegen::branch_splitting::split_critical_edges;
use vcodegen::inst::{ALUOp, Imm12, Inst, MemArg, SImm7Scaled, SImm9};
use vcodegen::ir::{
    AbiParam, ArgumentPurpose, Block, CallConv, ExternalName, Function, InstData, Signature,
    SourceLoc, TermData, Type,
};
use vcodegen::machinst::{MachReg, MachRegConstraint, MachTerminator, RegUnit};
use vcodegen::regs::{
    fp_reg, link_reg, stack_reg, vreg, writable_xreg, xreg, zero_reg, RealReg, Reg, RegClass,
    Writable,
};
use vcodegen::settings::Flags;
use vcodegen::universe::create_reg_universe;
use vcodegen::x64::{create_reg_universe_systemv, show_ireg_sized, show_reg, Registers};

#[test]
fn imm12_encodings() {
    assert_eq!(Imm12::maybe_from_u64(0), Some(Imm12 { bits: 0, shift12: false }));
    assert_eq!(Imm12::maybe_from_u64(4095), Some(Imm12 { bits: 4095, shift12: false }));
    assert_eq!(Imm12::maybe_from_u64(4096), Some(Imm12 { bits: 1, shift12: true }));
    assert_eq!(Imm12::maybe_from_u64(4097), None);
    assert_eq!(Imm12::maybe_from_u64(0xFFF000), Some(Imm12 { bits: 0xFFF, shift12: true }));
    assert_eq!(Imm12::maybe_from_u64(0x1000000), None);
}

#[test]
fn small_immediates() {
    assert_eq!(SImm9::maybe_from_i64(-256), Some(SImm9 { value: -256 }));
    assert_eq!(SImm9::maybe_from_i64(255), Some(SImm9 { value: 255 }));
    assert_eq!(SImm9::maybe_from_i64(256), None);
    assert_eq!(SImm7Scaled::maybe_from_i64(-512), Some(SImm7Scaled { value: -512 }));
    assert_eq!(SImm7Scaled::maybe_from_i64(504), Some(SImm7Scaled { value: 504 }));
    assert_eq!(SImm7Scaled::maybe_from_i64(505), None);
    assert_eq!(SImm7Scaled::maybe_from_i64(8), Some(SImm7Scaled { value: 8 }));
}

#[test]
fn register_constructors() {
    assert_eq!(
        xreg(0),
        Reg::Real(RealReg { class: RegClass::I64, enc: 0, index: 0 })
    );
    assert_eq!(
        xreg(17),
        Reg::Real(RealReg { class: RegClass::I64, enc: 17, index: 16 })
    );
    assert_eq!(
        xreg(19),
        Reg::Real(RealReg { class: RegClass::I64, enc: 19, index: 17 })
    );
    assert_eq!(
        vreg(0),
        Reg::Real(RealReg { class: RegClass::V128, enc: 0, index: 27 })
    );
    assert_eq!(
        vreg(16),
        Reg::Real(RealReg { class: RegClass::V128, enc: 16, index: 35 })
    );
    assert_eq!(
        vreg(8),
        Reg::Real(RealReg { class: RegClass::V128, enc: 8, index: 51 })
    );
    assert_eq!(zero_reg().to_real_reg().enc, 31);
    assert_eq!(MachReg::zero(), MachReg::Zero);
    assert_eq!(
        MachRegConstraint::from_fixed(5 as RegUnit),
        MachRegConstraint::FixedReg(5)
    );
    assert_eq!(
        MachRegConstraint::from_class(RegClass::I64),
        MachRegConstraint::RegClass(1)
    );
}

#[test]
fn aarch64_universe_layout() {
    let u = create_reg_universe();
    assert_eq!(u.regs.len(), 64);
    assert_eq!(u.allocable, 59);
    for (i, r) in u.regs.iter().enumerate() {
        assert_eq!(r.index as usize, i);
    }
    assert_eq!(u.info_i64.first, 0);
    assert_eq!(u.info_i64.last, 26);
    assert_eq!(u.info_v128.first, 27);
    assert_eq!(u.info_v128.last, 58);
    // Caller-saved x0 leads; callee-saved x19..x28 trail the integer range.
    assert_eq!(u.regs[0].enc, 0);
    assert_eq!(u.regs[17].enc, 19);
    assert_eq!(u.regs[26].enc, 28);
}

#[test]
fn x64_systemv_universe() {
    let regs = Registers::systemv(false);
    assert_eq!(regs.universe.regs.len(), 32);
    assert_eq!(regs.universe.allocable, 30);
    assert_eq!(regs.universe.info_i64.suggested_scratch, 25); // r12
    assert_eq!(regs.universe.info_v128.suggested_scratch, 15); // xmm15
    assert!(regs.defs.pinned_reg.is_none());
    let pinned = Registers::systemv(true);
    assert_eq!(pinned.universe.allocable, 29);
    assert_eq!(pinned.defs.pinned_reg, Some(pinned.defs.r15));
    let flags = Flags::new();
    let viaflags = create_reg_universe_systemv(&flags);
    assert_eq!(viaflags.universe.allocable, 30);
}

#[test]
fn show_registers_at_sizes() {
    let rax = Reg::Real(RealReg { class: RegClass::I64, enc: 0, index: 18 });
    assert_eq!(show_reg(rax), "%rax");
    assert_eq!(show_ireg_sized(rax, 8), "%rax");
    assert_eq!(show_ireg_sized(rax, 4), "%eax");
    assert_eq!(show_ireg_sized(rax, 2), "%ax");
    assert_eq!(show_ireg_sized(rax, 1), "%al");
    let r10 = Reg::Real(RealReg { class: RegClass::I64, enc: 10, index: 23 });
    assert_eq!(show_ireg_sized(r10, 4), "%r10d");
    assert_eq!(show_ireg_sized(r10, 1), "%r10b");
    let xmm3 = Reg::Real(RealReg { class: RegClass::V128, enc: 3, index: 3 });
    assert_eq!(show_reg(xmm3), "%xmm3");
    assert_eq!(show_ireg_sized(xmm3, 4), "%xmm3");
    let v = Reg::Virtual(vcodegen::regs::VirtualReg { class: RegClass::I64, index: 123 });
    assert_eq!(show_reg(v), "%v123");
    assert_eq!(show_ireg_sized(v, 4), "%v123l");
    assert_eq!(show_ireg_sized(v, 2), "%v123w");
}

#[test]
fn argument_assignment_walk() {
    // Nine integer args: eight registers, then the stack; area rounded to 16.
    let mut params = Vec::new();
    for _ in 0..9 {
        params.push(AbiParam::new(Type::I64));
    }
    let (locs, space) = compute_arg_locs(CallConv::SystemV, &params).unwrap();
    assert_eq!(locs.len(), 9);
    for (i, loc) in locs.iter().take(8).enumerate() {
        assert_eq!(
            *loc,
            ABIArg::Reg(
                RealReg { class: RegClass::I64, enc: i as u8, index: i as u8 },
                Type::I64
            )
        );
    }
    assert_eq!(locs[8], ABIArg::Stack(0, Type::I64));
    assert_eq!(space, 16);
    // Floats take vector registers independently of the integer counter.
    let params = vec![
        AbiParam::new(Type::I64),
        AbiParam::new(Type::F64),
        AbiParam::new(Type::F32),
    ];
    let (locs, space) = compute_arg_locs(CallConv::SystemV, &params).unwrap();
    assert_eq!(
        locs[1],
        ABIArg::Reg(RealReg { class: RegClass::V128, enc: 0, index: 27 }, Type::F64)
    );
    assert_eq!(
        locs[2],
        ABIArg::Reg(RealReg { class: RegClass::V128, enc: 1, index: 28 }, Type::F32)
    );
    assert_eq!(space, 0);
    // The VM context is pinned to x23 under Baldrdash.
    let params = vec![AbiParam { value_type: Type::I64, purpose: ArgumentPurpose::VMContext }];
    let (locs, _) = compute_arg_locs(CallConv::BaldrdashSystemV, &params).unwrap();
    assert_eq!(
        locs[0],
        ABIArg::Reg(RealReg { class: RegClass::I64, enc: 23, index: 21 }, Type::I64)
    );
    // An unsupported purpose is a fatal error.
    let params = vec![AbiParam { value_type: Type::I64, purpose: ArgumentPurpose::StructReturn }];
    assert_eq!(
        compute_arg_locs(CallConv::SystemV, &params),
        Err(CodegenError::UnsupportedConstruct)
    );
}

#[test]
fn type_register_files() {
    assert!(in_int_reg(Type::I8));
    assert!(in_int_reg(Type::B1));
    assert!(in_int_reg(Type::I64));
    assert!(!in_int_reg(Type::F32));
    assert!(in_vec_reg(Type::F64));
    assert!(!in_vec_reg(Type::I32));
}

#[test]
fn stack_returns_are_rejected() {
    let mut sig = Signature {
        params: Vec::new(),
        returns: Vec::new(),
        call_conv: CallConv::SystemV,
    };
    for _ in 0..9 {
        sig.returns.push(AbiParam::new(Type::I64));
    }
    assert_eq!(
        ABISig::from_func_sig(&sig),
        Err(CodegenError::UnsupportedConstruct)
    );
}

#[test]
fn adjust_stack_forms() {
    assert_eq!(adjust_stack(0, true), vec![]);
    let small = adjust_stack(32, true);
    assert_eq!(small.len(), 1);
    assert!(matches!(
        small[0],
        Inst::AluRRImm12 { alu_op: ALUOp::Sub64, .. }
    ));
    let large = adjust_stack(0x123456, false);
    assert_eq!(large.len(), 2);
    assert!(matches!(large[0], Inst::LoadConst64 { const_data: 0x123456, .. }));
    assert!(matches!(large[1], Inst::AluRRRExtend { alu_op: ALUOp::Add64, .. }));
}

#[test]
fn alignment() {
    assert_eq!(align_to_16(0), 0);
    assert_eq!(align_to_16(1), 16);
    assert_eq!(align_to_16(16), 16);
    assert_eq!(align_to_16(17), 32);
    assert_eq!(align_to_16(24), 32);
}

fn body_for(sig: Signature) -> ARM64ABIBody {
    let func = Function {
        name: ExternalName { namespace: 0, index: 0 },
        signature: sig,
        stack_slots: vec![],
        value_types: vec![],
        blocks: vec![Block {
            params: vec![],
            insts: vec![],
            term: TermData::Return { args: vec![] },
        }],
    };
    ARM64ABIBody::new(&func).unwrap()
}

#[test]
fn prologue_epilogue_symmetry_on_a_sample_clobber_set() {
    let mut sig = Signature {
        params: Vec::new(),
        returns: Vec::new(),
        call_conv: CallConv::SystemV,
    };
    sig.params.push(AbiParam::new(Type::I64));
    let mut body = body_for(sig);
    body.set_num_spillslots(3);
    // Clobbered: x19, x20, x21 (odd count pairs the last with xzr), v8.
    let clob = vec![
        Writable { reg: RealReg { class: RegClass::I64, enc: 19, index: 17 } },
        Writable { reg: RealReg { class: RegClass::I64, enc: 20, index: 18 } },
        Writable { reg: RealReg { class: RegClass::I64, enc: 21, index: 19 } },
        Writable { reg: RealReg { class: RegClass::V128, enc: 8, index: 51 } },
    ];
    body.set_clobbered(clob);
    let flags = Flags::new();
    let prologue = body.gen_prologue(&flags);
    let epilogue = body.gen_epilogue(&flags);
    // Frame: 3 spill slots of 8 bytes, aligned to 16 -> 32 bytes.
    assert_eq!(body.frame_size(), 32);
    // The prologue: stp fp/lr, mov fp sp, sub sp, pair pushes, vector area.
    assert!(matches!(prologue[0], Inst::StoreP64 { .. }));
    assert!(matches!(prologue[1], Inst::AluRRImm12 { alu_op: ALUOp::Add64, .. }));
    assert!(matches!(prologue[2], Inst::AluRRImm12 { alu_op: ALUOp::Sub64, .. }));
    let saves: Vec<&Inst> = prologue.iter().filter(|i| matches!(i, Inst::StoreP64 { .. })).collect();
    assert_eq!(saves.len(), 3); // fp/lr, (x19,x20), (x21,xzr)
    assert!(matches!(saves[2], Inst::StoreP64 { rt2, .. } if *rt2 == zero_reg()));
    let vsaves: Vec<&Inst> =
        prologue.iter().filter(|i| matches!(i, Inst::FpuStore128 { .. })).collect();
    assert_eq!(vsaves.len(), 1);
    // The epilogue mirrors it: vector loads, pair pops in reverse, then the
    // frame teardown and the return.
    let vloads: Vec<&Inst> =
        epilogue.iter().filter(|i| matches!(i, Inst::FpuLoad128 { .. })).collect();
    assert_eq!(vloads.len(), 1);
    let pops: Vec<&Inst> = epilogue.iter().filter(|i| matches!(i, Inst::LoadP64 { .. })).collect();
    assert_eq!(pops.len(), 3);
    // First pop undoes the last push.
    match (saves[2], pops[0]) {
        (Inst::StoreP64 { rt, rt2, .. }, Inst::LoadP64 { rt: l1, rt2: l2, .. }) => {
            assert_eq!(l1.reg, *rt);
            assert_eq!(l2.reg, *rt2);
        },
        _ => panic!("mismatched save/restore"),
    }
    assert!(matches!(epilogue[epilogue.len() - 1], Inst::Ret));
    // Baldrdash conventions suppress the frame setup entirely.
    let mut sig2 = Signature {
        params: Vec::new(),
        returns: Vec::new(),
        call_conv: CallConv::BaldrdashSystemV,
    };
    sig2.params.push(AbiParam::new(Type::I64));
    let mut bd = body_for(sig2);
    bd.set_num_spillslots(0);
    bd.set_clobbered(vec![]);
    let p2 = bd.gen_prologue(&flags);
    assert!(p2.is_empty());
    let e2 = bd.gen_epilogue(&flags);
    assert!(e2.is_empty());
}

#[test]
fn callee_and_caller_save_sets() {
    let regs = vec![
        Writable { reg: RealReg { class: RegClass::I64, enc: 0, index: 0 } },
        Writable { reg: RealReg { class: RegClass::I64, enc: 19, index: 17 } },
        Writable { reg: RealReg { class: RegClass::V128, enc: 8, index: 51 } },
        Writable { reg: RealReg { class: RegClass::V128, enc: 0, index: 27 } },
    ];
    let (ints, vecs) = get_callee_saves(&regs);
    assert_eq!(ints.len(), 1);
    assert_eq!(ints[0].reg.enc, 19);
    assert_eq!(vecs.len(), 1);
    assert_eq!(vecs[0].reg.enc, 8);
    // Caller-saved: x0..x17 (18 registers) and v0..v7, v16..v31 (24).
    let cs = get_caller_saves_set();
    assert_eq!(cs.len(), 18 + 24);
}

#[test]
fn call_site_register_sets() {
    let mut sig = Signature {
        params: Vec::new(),
        returns: Vec::new(),
        call_conv: CallConv::SystemV,
    };
    sig.params.push(AbiParam::new(Type::I64));
    sig.params.push(AbiParam::new(Type::F64));
    sig.returns.push(AbiParam::new(Type::I64));
    let callee = ExternalName { namespace: 3, index: 4 };
    let call = ARM64ABICall::from_func(&sig, &callee, SourceLoc { bits: 9 }).unwrap();
    assert_eq!(call.num_args(), 2);
    assert_eq!(call.uses.len(), 2);
    assert_eq!(call.uses[0], xreg(0));
    assert_eq!(call.uses[1], vreg(0));
    // Defs: every caller-saved register, plus x0 again as the return.
    assert_eq!(call.defs.len(), 18 + 24 + 1);
    let pre = call.gen_stack_pre_adjust();
    assert!(pre.is_empty()); // no stack arguments
    let insts = call.gen_call();
    assert_eq!(insts.len(), 1);
    assert!(matches!(&insts[0], Inst::Call { dest, .. } if *dest == callee));
}

#[test]
fn emitted_bytes_of_single_instructions() {
    let mut sink = CodeSink::new();
    Inst::Ret.emit(&mut sink);
    assert_eq!(sink.bytes, vec![0xc0, 0x03, 0x5f, 0xd6]);
    let mut sink = CodeSink::new();
    // add w0, w0, w1
    Inst::AluRRR {
        alu_op: ALUOp::Add32,
        rd: writable_xreg(0),
        rn: xreg(0),
        rm: xreg(1),
    }
    .emit(&mut sink);
    assert_eq!(sink.bytes, vec![0x00, 0x00, 0x01, 0x0b]);
    let mut sink = CodeSink::new();
    // ldr x8, [x29, #16]
    Inst::ULoad64 { rd: writable_xreg(8), mem: MemArg::FPOffset(16) }.emit(&mut sink);
    assert_eq!(sink.bytes, vec![0xa8, 0x0b, 0x40, 0xf9]);
    let mut sink = CodeSink::new();
    // A far negative frame offset takes the scratch-register form: two words.
    let inst = Inst::Store64 { rd: xreg(1), mem: MemArg::FPOffset(-4000) };
    assert_eq!(inst.size(), 8);
    inst.emit(&mut sink);
    assert_eq!(sink.bytes.len(), 8);
    // movn x16, #3999 == 0x92800000 | 3999<<5 | 16
    let w0 = u32::from_le_bytes([sink.bytes[0], sink.bytes[1], sink.bytes[2], sink.bytes[3]]);
    assert_eq!(w0, 0x92800000 | (3999 << 5) | 16);
}

#[test]
fn sink_offsets_and_relocations() {
    let mut sink = CodeSink::new();
    assert_eq!(sink.cur_offset(), 0);
    sink.put1(0xAB);
    sink.put2(0x1234);
    sink.put4(0xDEADBEEF);
    sink.put8(0x0102030405060708);
    assert_eq!(sink.cur_offset(), 15);
    assert_eq!(&sink.bytes[0..3], &[0xAB, 0x34, 0x12]);
    let name = ExternalName { namespace: 7, index: 8 };
    sink.add_reloc(SourceLoc { bits: 3 }, name);
    assert_eq!(sink.relocs.len(), 1);
    assert_eq!(sink.relocs[0].offset, 15);
    assert_eq!(sink.relocs[0].name, name);
}

#[test]
fn gen_move_picks_the_width() {
    let w = Writable { reg: xreg(3) };
    assert!(matches!(Inst::gen_move(w, xreg(4), Type::I64), Inst::Mov { .. }));
    assert!(matches!(Inst::gen_move(w, xreg(4), Type::I32), Inst::Mov32 { .. }));
    assert!(matches!(Inst::gen_move(w, xreg(4), Type::B1), Inst::Mov32 { .. }));
    let v = Writable { reg: vreg(2) };
    assert!(matches!(Inst::gen_move(v, vreg(5), Type::F64), Inst::FpuMov { .. }));
}

#[test]
fn terminator_classification() {
    assert_eq!(Inst::Ret.is_term(), MachTerminator::Ret);
    assert_eq!(Inst::EpiloguePlaceholder.is_term(), MachTerminator::Ret);
    assert_eq!(
        Inst::Jump { dest: 4, rel: 0 }.is_term(),
        MachTerminator::Uncond(4)
    );
    assert!(matches!(
        Inst::Nop0.is_term(),
        MachTerminator::NoTerm
    ));
    let back = Arm64Backend::new();
    assert!(!back.flags().enable_probestack);
    assert_eq!(back.reg_universe().regs.len(), 64);
    assert_eq!(fp_reg().to_real_reg().enc, 29);
    assert_eq!(link_reg().to_real_reg().enc, 30);
    assert_eq!(stack_reg().to_real_reg().enc, 31);
}

#[test]
fn stack_slot_addressing() {
    let mut sig = Signature {
        params: Vec::new(),
        returns: Vec::new(),
        call_conv: CallConv::SystemV,
    };
    sig.params.push(AbiParam::new(Type::I64));
    let func = Function {
        name: ExternalName { namespace: 0, index: 0 },
        signature: sig,
        stack_slots: vec![
            vcodegen::ir::StackSlotData { size: 8 },
            vcodegen::ir::StackSlotData { size: 12 },
        ],
        value_types: vec![],
        blocks: vec![Block {
            params: vec![],
            insts: vec![],
            term: TermData::Return { args: vec![] },
        }],
    };
    let body = ARM64ABIBody::new(&func).unwrap();
    assert_eq!(body.num_stackslots(), 2);
    assert_eq!(body.stackslots, vec![0, 8]);
    assert_eq!(body.stackslots_size, 24); // 8 + 12 rounded to 16, totals 24
    // Slot 1 at offset 8 in a 24-byte area: fp offset 8 - 24 = -16.
    let ld = body.load_stackslot(1, 0, Type::I64, Writable { reg: xreg(0) });
    assert!(matches!(ld, Inst::ULoad64 { mem: MemArg::FPOffset(-16), .. }));
    let st = body.store_spillslot(0, Type::I64, xreg(1));
    assert!(matches!(st, Inst::Store64 { mem: MemArg::FPOffset(-32), .. }));
}

#[test]
fn critical_edges_get_split() {
    // Two conditional blocks both branch to the same join block: those
    // edges are critical (source with two successors, destination with two
    // or more predecessors) and get fresh empty blocks inserted.
    let f = Function {
        name: ExternalName { namespace: 0, index: 0 },
        signature: sig_one_i64(),
        stack_slots: vec![],
        value_types: vec![Type::I64, Type::I64],
        blocks: vec![
            Block {
                params: vec![0],
                insts: vec![],
                term: TermData::Brnz { arg: 0, taken: 1, not_taken: 2 },
            },
            Block {
                params: vec![],
                insts: vec![],
                term: TermData::Brnz { arg: 0, taken: 3, not_taken: 2 },
            },
            // The join block: predecessors are blocks 0 and 1.
            Block {
                params: vec![],
                insts: vec![InstData::Iconst { result: 1, imm: 5 }],
                term: TermData::Return { args: vec![1] },
            },
            Block {
                params: vec![],
                insts: vec![],
                term: TermData::Return { args: vec![0] },
            },
        ],
    };
    let r = split_critical_edges(f);
    assert_eq!(r.blocks.len(), 6);
    // Both conditional edges into block 2 now go through stubs.
    match r.blocks[0].term {
        TermData::Brnz { not_taken, .. } => {
            assert!(not_taken >= 4);
            assert_eq!(r.blocks[not_taken as usize].term, TermData::Jump { dest: 2 });
            assert!(r.blocks[not_taken as usize].insts.is_empty());
        },
        _ => panic!("terminator changed shape"),
    }
    match r.blocks[1].term {
        TermData::Brnz { taken, not_taken, .. } => {
            // Block 3 has a single predecessor, so that edge stays direct.
            assert_eq!(taken, 3);
            assert!(not_taken >= 4);
            assert_eq!(r.blocks[not_taken as usize].term, TermData::Jump { dest: 2 });
        },
        _ => panic!("terminator changed shape"),
    }
}

fn sig_one_i64() -> Signature {
    let mut sig = Signature {
        params: Vec::new(),
        returns: Vec::new(),
        call_conv: CallConv::SystemV,
    };
    sig.params.push(AbiParam::new(Type::I64));
    sig.returns.push(AbiParam::new(Type::I64));
    sig
}

#[test]
fn virtual_registers_are_rewritten() {
    let v0 = Reg::Virtual(vcodegen::regs::VirtualReg { class: RegClass::I64, index: 0 });
    let v1 = Reg::Virtual(vcodegen::regs::VirtualReg { class: RegClass::I64, index: 1 });
    let mut inst = Inst::AluRRR {
        alu_op: ALUOp::Add64,
        rd: Writable { reg: v1 },
        rn: v0,
        rm: v0,
    };
    // Uses of v0 become x3; the def of v1 becomes x4.
    let umap = vec![xreg(3), v1];
    let dmap = vec![v0, xreg(4)];
    inst.map_virtregs(&umap, &dmap);
    assert_eq!(
        inst,
        Inst::AluRRR {
            alu_op: ALUOp::Add64,
            rd: Writable { reg: xreg(4) },
            rn: xreg(3),
            rm: xreg(3),
        }
    );
    // A register beyond the map is left alone.
    let v9 = Reg::Virtual(vcodegen::regs::VirtualReg { class: RegClass::I64, index: 9 });
    let mut mv = Inst::Mov { rd: Writable { reg: v9 }, rm: xreg(0) };
    mv.map_virtregs(&umap, &dmap);
    assert_eq!(mv, Inst::Mov { rd: Writable { reg: v9 }, rm: xreg(0) });
}
