// End-to-end runs of the backend pipeline: lower, allocate registers with
// the external allocator, splice the prologue and epilogue, remove
// redundant branches, finalize branches, and emit bytes.

use std::borrow::Cow;

use regalloc::{
    allocate_registers, AlgorithmWithDefaults, BlockIx, InstIx, Range as RaRange, RealRegUniverse,
    Reg as RaReg, RegClass as RaClass, RegClassInfo, RegUsageCollector, RegUsageMapper, SpillSlot,
    Writable as RaWritable, NUM_REG_CLASSES,
};
use vcodegen::abi::ARM64ABIBody;
use vcodegen::binemit::CodeSink;
use vcodegen::branch_splitting::split_critical_edges;
use vcodegen::inst::Inst;
use vcodegen::ir::{
    AbiParam, Block, CallConv, ExternalName, Function, InstData, Signature, SourceLoc, TermData,
    Type,
};
use vcodegen::lower::lower;
use vcodegen::machinst::MachTerminator;
use vcodegen::regs::{RealReg, Reg, RegClass, RegMode, Writable};
use vcodegen::settings::Flags;
use vcodegen::universe::create_reg_universe;
use vcodegen::vcode::{RegAllocResult, VCode};

fn to_ra_class(c: RegClass) -> RaClass {
    match c {
        RegClass::I64 => RaClass::I64,
        RegClass::V128 => RaClass::V128,
    }
}

fn from_ra_class(c: RaClass) -> RegClass {
    match c {
        RaClass::I64 => RegClass::I64,
        RaClass::V128 => RegClass::V128,
        _ => panic!("unexpected register class"),
    }
}

fn to_ra_reg(r: Reg) -> RaReg {
    match r {
        Reg::Real(rr) => RaReg::new_real(to_ra_class(rr.class), rr.enc, rr.index),
        Reg::Virtual(v) => RaReg::new_virtual(to_ra_class(v.class), v.index),
    }
}

fn from_ra_real(r: regalloc::RealReg) -> RealReg {
    RealReg {
        class: from_ra_class(r.get_class()),
        enc: r.get_hw_encoding() as u8,
        index: r.get_index() as u8,
    }
}

fn class_type(c: RegClass) -> Type {
    match c {
        RegClass::I64 => Type::I64,
        RegClass::V128 => Type::F64,
    }
}

struct VFunc {
    insns: Vec<Inst>,
    ranges: Vec<(usize, usize)>,
    succs: Vec<Vec<u32>>,
    num_vregs: usize,
    abi: ARM64ABIBody,
}

impl regalloc::Function for VFunc {
    type Inst = Inst;

    fn insns(&self) -> &[Inst] {
        &self.insns
    }

    fn insns_mut(&mut self) -> &mut [Inst] {
        &mut self.insns
    }

    fn get_insn(&self, ix: InstIx) -> &Inst {
        &self.insns[ix.get() as usize]
    }

    fn get_insn_mut(&mut self, ix: InstIx) -> &mut Inst {
        &mut self.insns[ix.get() as usize]
    }

    fn blocks(&self) -> RaRange<BlockIx> {
        RaRange::new(BlockIx::new(0), self.ranges.len())
    }

    fn entry_block(&self) -> BlockIx {
        BlockIx::new(0)
    }

    fn block_insns(&self, block: BlockIx) -> RaRange<InstIx> {
        let (s, e) = self.ranges[block.get() as usize];
        RaRange::new(InstIx::new(s as u32), e - s)
    }

    fn block_succs(&self, block: BlockIx) -> Cow<[BlockIx]> {
        Cow::Owned(
            self.succs[block.get() as usize].iter().map(|&b| BlockIx::new(b)).collect(),
        )
    }

    fn is_ret(&self, insn: InstIx) -> bool {
        matches!(
            self.insns[insn.get() as usize].is_term(),
            MachTerminator::Ret
        )
    }

    fn get_regs(insn: &Inst, collector: &mut RegUsageCollector) {
        for (r, mode) in insn.regs() {
            match mode {
                RegMode::Use => collector.add_use(to_ra_reg(r)),
                RegMode::Def => collector.add_def(RaWritable::from_reg(to_ra_reg(r))),
                RegMode::Modify => collector.add_mod(RaWritable::from_reg(to_ra_reg(r))),
            }
        }
    }

    fn map_regs<RUM: RegUsageMapper>(insn: &mut Inst, maps: &RUM) {
        let mentions = insn.regs();
        let mut maxv: usize = 0;
        for (r, _) in &mentions {
            if let Reg::Virtual(v) = r {
                maxv = maxv.max(v.index as usize + 1);
            }
        }
        let mut umap: Vec<Reg> = Vec::new();
        let mut dmap: Vec<Reg> = Vec::new();
        for i in 0..maxv {
            umap.push(Reg::Virtual(vcodegen::regs::VirtualReg {
                class: RegClass::I64,
                index: i as u32,
            }));
            dmap.push(Reg::Virtual(vcodegen::regs::VirtualReg {
                class: RegClass::I64,
                index: i as u32,
            }));
        }
        for (r, mode) in &mentions {
            if let Reg::Virtual(v) = r {
                let ra_v = to_ra_reg(*r).to_virtual_reg();
                let mapped = match mode {
                    RegMode::Use => maps.get_use(ra_v),
                    RegMode::Def => maps.get_def(ra_v),
                    RegMode::Modify => maps.get_mod(ra_v),
                };
                let repl = match mapped {
                    Some(rr) => Reg::Real(from_ra_real(rr)),
                    None => *r,
                };
                match mode {
                    RegMode::Use | RegMode::Modify => umap[v.index as usize] = repl,
                    RegMode::Def => dmap[v.index as usize] = repl,
                }
            }
        }
        insn.map_virtregs(&umap, &dmap);
    }

    fn is_move(&self, insn: &Inst) -> Option<(RaWritable<RaReg>, RaReg)> {
        insn.is_move().map(|(w, s)| (RaWritable::from_reg(to_ra_reg(w.reg)), to_ra_reg(s)))
    }

    fn get_num_vregs(&self) -> usize {
        self.num_vregs
    }

    fn get_spillslot_size(&self, regclass: RaClass, _for_vreg: regalloc::VirtualReg) -> u32 {
        let c = from_ra_class(regclass);
        self.abi.get_spillslot_size(c, class_type(c))
    }

    fn gen_spill(
        &self,
        to_slot: SpillSlot,
        from_reg: regalloc::RealReg,
        _for_vreg: Option<regalloc::VirtualReg>,
    ) -> Inst {
        let rr = from_ra_real(from_reg);
        assert!(
            self.abi.stackslots_size + 8 * (to_slot.get() as u64) + 16 <= 65536,
            "spill slot out of addressable frame range"
        );
        self.abi.gen_spill(to_slot.get(), rr, class_type(rr.class))
    }

    fn gen_reload(
        &self,
        to_reg: RaWritable<regalloc::RealReg>,
        from_slot: SpillSlot,
        _for_vreg: Option<regalloc::VirtualReg>,
    ) -> Inst {
        let rr = from_ra_real(to_reg.to_reg());
        assert!(
            self.abi.stackslots_size + 8 * (from_slot.get() as u64) + 16 <= 65536,
            "spill slot out of addressable frame range"
        );
        self.abi.gen_reload(Writable { reg: rr }, from_slot.get(), class_type(rr.class))
    }

    fn gen_move(
        &self,
        to_reg: RaWritable<regalloc::RealReg>,
        from_reg: regalloc::RealReg,
        _for_vreg: regalloc::VirtualReg,
    ) -> Inst {
        let dst = from_ra_real(to_reg.to_reg());
        let src = from_ra_real(from_reg);
        Inst::gen_move(
            Writable { reg: Reg::Real(dst) },
            Reg::Real(src),
            class_type(dst.class),
        )
    }

    fn gen_zero_len_nop(&self) -> Inst {
        Inst::Nop0
    }

    fn maybe_direct_reload(
        &self,
        _insn: &Inst,
        _reg: regalloc::VirtualReg,
        _slot: SpillSlot,
    ) -> Option<Inst> {
        None
    }

    fn func_liveins(&self) -> regalloc::Set<regalloc::RealReg> {
        regalloc::Set::from_vec(
            self.abi
                .liveins()
                .into_iter()
                .map(|r| to_ra_reg(Reg::Real(r)).to_real_reg())
                .collect(),
        )
    }

    fn func_liveouts(&self) -> regalloc::Set<regalloc::RealReg> {
        regalloc::Set::from_vec(
            self.abi
                .liveouts()
                .into_iter()
                .map(|r| to_ra_reg(Reg::Real(r)).to_real_reg())
                .collect(),
        )
    }
}

fn build_ra_universe() -> RealRegUniverse {
    let u = create_reg_universe();
    let mut regs: Vec<(regalloc::RealReg, String)> = Vec::new();
    for rr in &u.regs {
        let name = format!("r{}", rr.index);
        regs.push((
            RaReg::new_real(to_ra_class(rr.class), rr.enc, rr.index).to_real_reg(),
            name,
        ));
    }
    let mut allocable_by_class = [None; NUM_REG_CLASSES];
    allocable_by_class[RaClass::I64.rc_to_usize()] = Some(RegClassInfo {
        first: u.info_i64.first,
        last: u.info_i64.last,
        suggested_scratch: Some(u.info_i64.suggested_scratch),
    });
    allocable_by_class[RaClass::V128.rc_to_usize()] = Some(RegClassInfo {
        first: u.info_v128.first,
        last: u.info_v128.last,
        suggested_scratch: Some(u.info_v128.suggested_scratch),
    });
    RealRegUniverse {
        regs,
        allocable: u.allocable,
        allocable_by_class,
    }
}

struct Compiled {
    code: Vec<u8>,
    spills: u32,
    clobbered: Vec<RealReg>,
    vcode: VCode,
    frame_size: u64,
}

fn compile_func(func: Function) -> Compiled {
    let func = split_critical_edges(func);
    let flags = Flags::new();
    let mut abi = ARM64ABIBody::new(&func).expect("abi");
    let vcode = lower(&func, &abi).expect("lower");
    let mut vf = VFunc {
        insns: vcode.insts.clone(),
        ranges: vcode.block_ranges.clone(),
        succs: vcode.block_succs.clone(),
        num_vregs: vcode.num_vregs as usize,
        abi,
    };
    let universe = build_ra_universe();
    let result =
        allocate_registers(&mut vf, &universe, None, AlgorithmWithDefaults::Backtracking)
            .expect("register allocation");
    let mut block_starts: Vec<usize> = Vec::new();
    for ix in result.target_map.iter() {
        block_starts.push(ix.get() as usize);
    }
    assert!(block_starts.len() == vcode.block_ranges.len());
    assert!(!block_starts.is_empty() && block_starts[0] == 0);
    for w in block_starts.windows(2) {
        assert!(w[0] <= w[1]);
    }
    for &s in &block_starts {
        assert!(s <= result.insns.len());
    }
    let mut clobbered: Vec<Writable<RealReg>> = result
        .clobbered_registers
        .to_vec()
        .into_iter()
        .map(|r| Writable { reg: from_ra_real(r) })
        .collect();
    clobbered.sort_by_key(|w| w.reg.index);
    let clob_plain: Vec<RealReg> = clobbered.iter().map(|w| w.reg).collect();
    let spills = result.num_spill_slots;
    let ra = RegAllocResult {
        insns: result.insns,
        block_starts,
        clobbered,
        num_spill_slots: spills,
    };
    let mut abi = vf.abi;
    let mut vcode = vcode;
    vcode.replace_insns_from_regalloc(ra, &mut abi, &flags);
    vcode.remove_redundant_branches();
    vcode.finalize_branches().expect("branch range");
    assert!(vcode.ready_to_emit(), "unresolved operand at emission");
    let mut sink = CodeSink::new();
    let expected = vcode.emitted_size();
    vcode.emit(&mut sink);
    assert_eq!(sink.bytes.len(), expected);
    Compiled {
        code: sink.bytes,
        spills,
        clobbered: clob_plain,
        vcode,
        frame_size: abi.frame_size(),
    }
}

fn sig_i(params: usize) -> Signature {
    let mut sig = Signature {
        params: Vec::new(),
        returns: Vec::new(),
        call_conv: CallConv::SystemV,
    };
    for _ in 0..params {
        sig.params.push(AbiParam::new(Type::I64));
    }
    sig.returns.push(AbiParam::new(Type::I64));
    sig
}

fn words(code: &[u8]) -> Vec<u32> {
    code.chunks(4).map(|c| u32::from_le_bytes([c[0], c[1], c[2], c[3]])).collect()
}

#[test]
fn test_compile_function() {
    // An i32 function that adds a large constant to its argument: the
    // constant is materialized from the literal island.
    let mut sig = Signature {
        params: Vec::new(),
        returns: Vec::new(),
        call_conv: CallConv::SystemV,
    };
    sig.params.push(AbiParam::new(Type::I32));
    sig.returns.push(AbiParam::new(Type::I32));
    let func = Function {
        name: ExternalName { namespace: 0, index: 0 },
        signature: sig,
        stack_slots: vec![],
        value_types: vec![Type::I32, Type::I32, Type::I32],
        blocks: vec![Block {
            params: vec![0],
            insts: vec![
                InstData::Iconst { result: 1, imm: 0x12345678 },
                InstData::Iadd { result: 2, a: 0, b: 1 },
            ],
            term: TermData::Return { args: vec![2] },
        }],
    };
    let out = compile_func(func);
    // stp x29, x30, [sp, #-16]!
    // mov x29, sp
    // ldr x1, 0x20
    // add w0, w0, w1
    // mov sp, x29
    // ldp x29, x30, [sp], #16
    // ret
    // .word 0  // padding
    // .xword 0x12345678  // at offset 0x20
    let golden = vec![
        0xfd, 0x7b, 0xbf, 0xa9, 0xfd, 0x03, 0x00, 0x91, 0xc1, 0x00, 0x00, 0x58, 0x00, 0x00, 0x01,
        0x0b, 0xbf, 0x03, 0x00, 0x91, 0xfd, 0x7b, 0xc1, 0xa8, 0xc0, 0x03, 0x5f, 0xd6, 0x00, 0x00,
        0x00, 0x00, 0x78, 0x56, 0x34, 0x12, 0x00, 0x00, 0x00, 0x00,
    ];
    assert_eq!(out.code, golden);
}

#[test]
fn identity_i32_function() {
    // (i32) -> i32 returning its argument: only the frame setup and
    // teardown remain; the move is elided by the allocator.
    let mut sig = Signature {
        params: Vec::new(),
        returns: Vec::new(),
        call_conv: CallConv::SystemV,
    };
    sig.params.push(AbiParam::new(Type::I32));
    sig.returns.push(AbiParam::new(Type::I32));
    let func = Function {
        name: ExternalName { namespace: 0, index: 1 },
        signature: sig,
        stack_slots: vec![],
        value_types: vec![Type::I32],
        blocks: vec![Block {
            params: vec![0],
            insts: vec![],
            term: TermData::Return { args: vec![0] },
        }],
    };
    let out = compile_func(func);
    assert_eq!(out.frame_size, 0);
    let golden = vec![
        0xfd, 0x7b, 0xbf, 0xa9, // stp x29, x30, [sp, #-16]!
        0xfd, 0x03, 0x00, 0x91, // mov x29, sp
        0xbf, 0x03, 0x00, 0x91, // mov sp, x29
        0xfd, 0x7b, 0xc1, 0xa8, // ldp x29, x30, [sp], #16
        0xc0, 0x03, 0x5f, 0xd6, // ret
    ];
    assert_eq!(out.code, golden);
}

#[test]
fn spill_forcing_many_live_values() {
    // Forty simultaneously-live i64 values force spills: the spill count is
    // at least 40 minus the 27 allocatable integer registers, the frame is
    // 16-byte aligned, and spill stores address the frame downward from FP.
    let n: usize = 40;
    let mut value_types = vec![Type::I64]; // v0: the argument
    let mut insts = Vec::new();
    for i in 0..n {
        value_types.push(Type::I64);
        insts.push(InstData::Iadd {
            result: (i + 1) as u32,
            a: 0,
            b: i as u32,
        });
    }
    // Now sum them all pairwise so every value stays live until used.
    let mut acc = 1u32;
    for i in 2..=n {
        value_types.push(Type::I64);
        let result = (n + i - 1) as u32;
        insts.push(InstData::Iadd { result, a: acc, b: i as u32 });
        acc = result;
    }
    let func = Function {
        name: ExternalName { namespace: 0, index: 2 },
        signature: sig_i(1),
        stack_slots: vec![],
        value_types,
        blocks: vec![Block {
            params: vec![0],
            insts,
            term: TermData::Return { args: vec![acc] },
        }],
    };
    let out = compile_func(func);
    assert!(out.spills >= 40 - 27, "expected spills, got {}", out.spills);
    assert_eq!(out.frame_size % 16, 0);
    assert_eq!(out.frame_size, (8 * out.spills as u64 + 15) & !15);
    // A spill is a store at a negative FP offset.
    let has_spill_store = out.vcode.insts.iter().any(|i| {
        matches!(
            i,
            Inst::Store64 { mem: vcodegen::inst::MemArg::FPOffset(o), .. } if *o < 0
        )
    });
    assert!(has_spill_store);
}

#[test]
fn fall_through_conditional() {
    // if c { goto B1 } else { goto B2 } where B2 follows the conditional:
    // a single conditional branch is emitted, no unconditional to B2.
    let func = Function {
        name: ExternalName { namespace: 0, index: 3 },
        signature: sig_i(1),
        stack_slots: vec![],
        value_types: vec![Type::I64, Type::I64, Type::I64],
        blocks: vec![
            Block {
                params: vec![0],
                insts: vec![],
                term: TermData::Brnz { arg: 0, taken: 2, not_taken: 1 },
            },
            Block {
                params: vec![],
                insts: vec![InstData::Iconst { result: 1, imm: 1111 }],
                term: TermData::Return { args: vec![1] },
            },
            Block {
                params: vec![],
                insts: vec![InstData::Iconst { result: 2, imm: 2222 }],
                term: TermData::Return { args: vec![2] },
            },
        ],
    };
    let out = compile_func(func);
    // The entry block ends with a fall-through conditional branch.
    let (s, e) = out.vcode.block_ranges[0];
    let last = &out.vcode.insts[e - 1];
    assert!(
        matches!(last, Inst::CondBr { compound: false, not_taken: 1, .. }),
        "expected a fall-through conditional, got {:?} (block 0 is {}..{})",
        last,
        s,
        e
    );
    // Exactly one conditional branch word (cbnz) and no unconditional
    // branch to the not-taken side right after it.
    let ws = words(&out.code);
    let ncbnz = ws.iter().filter(|w| (*w & 0xFF000000) == 0xB5000000).count();
    assert_eq!(ncbnz, 1);
}

#[test]
fn live_value_across_call() {
    // A value live across a call must be spilled or placed in a
    // callee-saved register; either way the function compiles.
    let callee_sig = sig_i(0);
    let func = Function {
        name: ExternalName { namespace: 0, index: 4 },
        signature: sig_i(1),
        stack_slots: vec![],
        value_types: vec![Type::I64, Type::I64, Type::I64],
        blocks: vec![Block {
            params: vec![0],
            insts: vec![
                InstData::Call {
                    sig: callee_sig,
                    callee: ExternalName { namespace: 1, index: 7 },
                    args: vec![],
                    results: vec![1],
                    loc: SourceLoc { bits: 0 },
                },
                InstData::Iadd { result: 2, a: 0, b: 1 },
            ],
            term: TermData::Return { args: vec![2] },
        }],
    };
    let out = compile_func(func);
    let used_callee_saved = out.clobbered.iter().any(|r| {
        r.class == RegClass::I64 && (19..=28).contains(&r.enc)
    });
    assert!(
        out.spills >= 1 || used_callee_saved,
        "live value across call neither spilled nor in a callee-saved register"
    );
    // The relocation for the callee was recorded at the bl word.
    let ws = words(&out.code);
    assert!(ws.iter().any(|w| *w == 0x94000000));
}

#[test]
fn ninth_argument_comes_from_the_stack() {
    // Nine i64 parameters: the ninth lives at [fp, #16], just above the
    // saved FP/LR pair.
    let mut value_types = Vec::new();
    let mut params = Vec::new();
    for i in 0..9 {
        value_types.push(Type::I64);
        params.push(i as u32);
    }
    let func = Function {
        name: ExternalName { namespace: 0, index: 5 },
        signature: sig_i(9),
        stack_slots: vec![],
        value_types,
        blocks: vec![Block {
            params,
            insts: vec![],
            term: TermData::Return { args: vec![8] },
        }],
    };
    let out = compile_func(func);
    // ldr xN, [x29, #16]: scaled unsigned-offset form with imm12 = 2.
    let ws = words(&out.code);
    let has_ldr_fp16 = ws.iter().any(|w| (*w & 0xFFFFFFE0) == (0xF9400000 | (2 << 10) | (29 << 5)));
    assert!(has_ldr_fp16, "no load from [fp, #16] found");
}

#[test]
fn fused_constant_emits_no_instruction() {
    // A small constant whose single use is the following addition is fused:
    // no constant-load instruction appears and the island stays empty.
    let mut sig = Signature {
        params: Vec::new(),
        returns: Vec::new(),
        call_conv: CallConv::SystemV,
    };
    sig.params.push(AbiParam::new(Type::I64));
    sig.returns.push(AbiParam::new(Type::I64));
    let func = Function {
        name: ExternalName { namespace: 0, index: 6 },
        signature: sig,
        stack_slots: vec![],
        value_types: vec![Type::I64, Type::I64, Type::I64],
        blocks: vec![Block {
            params: vec![0],
            insts: vec![
                InstData::Iconst { result: 1, imm: 42 },
                InstData::Iadd { result: 2, a: 0, b: 1 },
            ],
            term: TermData::Return { args: vec![2] },
        }],
    };
    let out = compile_func(func);
    assert!(out.vcode.pool.is_empty());
    assert!(out.vcode.island.is_empty());
    let ws = words(&out.code);
    // add x0, x0, #42
    assert!(ws.contains(&(0x91000000 | (42 << 10))));
}

#[test]
fn branch_removal_is_idempotent_on_lowered_code() {
    // Run redundant-branch removal twice over the same allocated code; the
    // second run changes nothing (checked here on bytes of a concrete
    // function; the general law is proved in the library).
    let func = Function {
        name: ExternalName { namespace: 0, index: 8 },
        signature: sig_i(1),
        stack_slots: vec![],
        value_types: vec![Type::I64, Type::I64, Type::I64],
        blocks: vec![
            Block {
                params: vec![0],
                insts: vec![],
                term: TermData::Brnz { arg: 0, taken: 2, not_taken: 1 },
            },
            Block {
                params: vec![],
                insts: vec![InstData::Iconst { result: 1, imm: 7777 }],
                term: TermData::Return { args: vec![1] },
            },
            Block {
                params: vec![],
                insts: vec![InstData::Iconst { result: 2, imm: 9999 }],
                term: TermData::Jump { dest: 1 },
            },
        ],
    };
    let out = compile_func(func);
    let mut again = out.vcode;
    let before: Vec<Inst> = again.insts.clone();
    again.remove_redundant_branches();
    assert_eq!(again.insts, before);
}

#[test]
fn finalization_is_idempotent_on_bytes() {
    // Re-running branch finalization after the first run changes no bytes.
    let func = Function {
        name: ExternalName { namespace: 0, index: 9 },
        signature: sig_i(1),
        stack_slots: vec![],
        value_types: vec![Type::I32, Type::I32, Type::I32],
        blocks: vec![Block {
            params: vec![0],
            insts: vec![
                InstData::Iconst { result: 1, imm: 0xDEAD_BEEF },
                InstData::Iadd { result: 2, a: 0, b: 1 },
            ],
            term: TermData::Return { args: vec![2] },
        }],
    };
    let out = compile_func(func);
    let mut again = out.vcode;
    again.finalize_branches().expect("second finalization");
    let mut sink = CodeSink::new();
    again.emit(&mut sink);
    assert_eq!(sink.bytes, out.code);
}
