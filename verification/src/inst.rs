//! The AArch64 machine-instruction set used by this backend: operand types,
//! register mentions, terminator classification, sizes, and binary encoding.
//!
//! Every instruction's encoding is stated as a specification (`spec_bytes`)
//! and `emit` is proved to produce exactly those bytes; `size` is proved to
//! equal their count, so layout and emission can never disagree.

use vstd::prelude::*;
use crate::binemit::{CodeSink, spec_le4, spec_le8};
use crate::ir::{ExternalName, SourceLoc, Type};
use crate::machinst::{BlockIndex, MachTerminator};
use crate::regs::{Reg, RegMode, Writable};

verus! {

/// A 12-bit unsigned immediate, optionally shifted left by 12.
#[derive(Clone, Copy, Debug, PartialEq, Eq, Structural)]
pub struct Imm12 {
    pub bits: u16,
    pub shift12: bool,
}

/// The representation `maybe_from_u64` chooses for a value that fits: the
/// plain form when the value is below 2^12, else the shifted form.
pub open spec fn spec_imm12_of(v: u64) -> Imm12 {
    if v < 4096 {
        Imm12 { bits: v as u16, shift12: false }
    } else {
        Imm12 { bits: (v / 4096) as u16, shift12: true }
    }
}

impl Imm12 {
    /// The value this immediate stands for.
    pub open spec fn spec_value(self) -> int {
        if self.shift12 {
            self.bits * 4096
        } else {
            self.bits as int
        }
    }

    pub open spec fn wf(self) -> bool {
        self.bits < 4096
    }

    /// Encode `v` if it fits: either a value below 2^12, or a multiple of
    /// 2^12 below 2^24.  The unshifted form is preferred.
    pub fn maybe_from_u64(v: u64) -> (r: Option<Imm12>)
        ensures
            match r {
                Some(imm) => imm == spec_imm12_of(v) && imm.wf() && imm.spec_value() == v,
                None => !(v < 4096 || (v % 4096 == 0 && v < 0x1000000)),
            },
    {
        if v < 4096 {
            Some(Imm12 { bits: v as u16, shift12: false })
        } else if v % 4096 == 0 && v < 0x1000000 {
            Some(Imm12 { bits: (v / 4096) as u16, shift12: true })
        } else {
            None
        }
    }

    /// The all-zero immediate.
    pub fn zero() -> (r: Imm12)
        ensures
            r.wf(),
            r.spec_value() == 0,
    {
        Imm12 { bits: 0, shift12: false }
    }
}

/// A signed 9-bit immediate for unscaled loads and stores.
#[derive(Clone, Copy, Debug, PartialEq, Eq, Structural)]
pub struct SImm9 {
    pub value: i16,
}

impl SImm9 {
    pub open spec fn wf(self) -> bool {
        -256 <= self.value <= 255
    }

    pub fn maybe_from_i64(v: i64) -> (r: Option<SImm9>)
        ensures
            match r {
                Some(s) => s.wf() && s.value == v,
                None => !(-256 <= v <= 255),
            },
    {
        if -256 <= v && v <= 255 {
            Some(SImm9 { value: v as i16 })
        } else {
            None
        }
    }
}

/// A signed 7-bit immediate scaled by 8, for 64-bit register-pair loads and
/// stores.
#[derive(Clone, Copy, Debug, PartialEq, Eq, Structural)]
pub struct SImm7Scaled {
    pub value: i16,
}

impl SImm7Scaled {
    pub open spec fn wf(self) -> bool {
        -512 <= self.value <= 504 && self.value % 8 == 0
    }

    pub fn maybe_from_i64(v: i64) -> (r: Option<SImm7Scaled>)
        ensures
            match r {
                Some(s) => s.wf() && s.value == v,
                None => !(-512 <= v <= 504 && v % 8 == 0),
            },
    {
        if -512 <= v && v <= 504 && v % 8 == 0 {
            Some(SImm7Scaled { value: v as i16 })
        } else {
            None
        }
    }
}

/// An ALU operation.
#[derive(Clone, Copy, Debug, PartialEq, Eq, Structural)]
pub enum ALUOp {
    Add32,
    Add64,
    Sub32,
    Sub64,
}

/// An extend operation for the extended-register ALU form.
#[derive(Clone, Copy, Debug, PartialEq, Eq, Structural)]
pub enum ExtendOp {
    UXTX,
}

/// A memory-operand form for single-register loads and stores.
#[derive(Clone, Copy, Debug, PartialEq, Eq, Structural)]
pub enum MemArg {
    /// A base register plus an unscaled signed 9-bit offset.
    Unscaled(Reg, SImm9),
    /// An offset from the frame pointer.  Resolved at emission: a scaled
    /// unsigned form when non-negative and aligned, an unscaled form when
    /// within the 9-bit range, and otherwise a scratch-register sequence.
    FPOffset(i64),
    /// An offset from the stack pointer; non-negative and aligned.
    SPOffset(i64),
}

/// A memory-operand form for register-pair loads and stores; both write the
/// base register back.
#[derive(Clone, Copy, Debug, PartialEq, Eq, Structural)]
pub enum PairMemArg {
    PreIndexed(Writable<Reg>, SImm7Scaled),
    PostIndexed(Writable<Reg>, SImm7Scaled),
}

/// The condition of a conditional branch.
#[derive(Clone, Copy, Debug, PartialEq, Eq, Structural)]
pub enum CondBrKind {
    /// Branch if the register is zero.
    Zero(Reg),
    /// Branch if the register is non-zero.
    NotZero(Reg),
}

impl CondBrKind {
    pub open spec fn spec_reg(self) -> Reg {
        match self {
            CondBrKind::Zero(r) => r,
            CondBrKind::NotZero(r) => r,
        }
    }
}

/// An AArch64 instruction, including the pseudo-instructions the passes use:
/// the epilogue placeholder, the zero-length nop, and the constant-island
/// entries materialized by branch finalization.
#[derive(Clone, Debug, PartialEq, Eq)]
pub enum Inst {
    AluRRImm12 { alu_op: ALUOp, rd: Writable<Reg>, rn: Reg, imm12: Imm12 },
    AluRRR { alu_op: ALUOp, rd: Writable<Reg>, rn: Reg, rm: Reg },
    AluRRRExtend { alu_op: ALUOp, rd: Writable<Reg>, rn: Reg, rm: Reg, extendop: ExtendOp },
    /// A 64-bit register move.
    Mov { rd: Writable<Reg>, rm: Reg },
    /// A 32-bit register move.
    Mov32 { rd: Writable<Reg>, rm: Reg },
    /// A vector-register move.
    FpuMov { rd: Writable<Reg>, rm: Reg },
    ULoad64 { rd: Writable<Reg>, mem: MemArg },
    Store64 { rd: Reg, mem: MemArg },
    FpuLoad32 { rd: Writable<Reg>, mem: MemArg },
    FpuLoad64 { rd: Writable<Reg>, mem: MemArg },
    FpuLoad128 { rd: Writable<Reg>, mem: MemArg },
    FpuStore32 { rd: Reg, mem: MemArg },
    FpuStore64 { rd: Reg, mem: MemArg },
    FpuStore128 { rd: Reg, mem: MemArg },
    StoreP64 { rt: Reg, rt2: Reg, mem: PairMemArg },
    LoadP64 { rt: Writable<Reg>, rt2: Writable<Reg>, mem: PairMemArg },
    /// Load a 64-bit constant.  Branch finalization turns this into a
    /// literal load from the constant island.
    LoadConst64 { rd: Writable<Reg>, const_data: u64 },
    /// A literal load, `rel` bytes forward from this instruction.
    LdrLit { rd: Writable<Reg>, rel: i32 },
    /// An unconditional branch; `rel` is filled by branch finalization.
    Jump { dest: BlockIndex, rel: i32 },
    /// A conditional branch.  When `compound` it encodes the conditional to
    /// `taken` followed by an unconditional to `not_taken`; otherwise the
    /// not-taken side falls through to the next block in layout order.
    CondBr {
        kind: CondBrKind,
        taken: BlockIndex,
        not_taken: BlockIndex,
        compound: bool,
        rel_taken: i32,
        rel_not_taken: i32,
    },
    /// A direct call, with the registers it reads and writes.
    Call { dest: ExternalName, uses: Vec<Reg>, defs: Vec<Writable<Reg>>, loc: SourceLoc },
    /// An indirect call through `rn`.
    CallInd { rn: Reg, uses: Vec<Reg>, defs: Vec<Writable<Reg>>, loc: SourceLoc },
    Ret,
    /// Stands where the epilogue will be spliced after register allocation.
    EpiloguePlaceholder,
    /// A zero-length no-op.
    Nop0,
    /// Four bytes of island padding.
    Pad,
    /// Eight bytes of island data.
    ConstData { data: u64 },
}

/// A real register with an encodable hardware number.
pub open spec fn reg_enc_ok(r: Reg) -> bool {
    match r {
        Reg::Real(rr) => rr.enc <= 31,
        Reg::Virtual(_) => false,
    }
}

/// The hardware encoding of a register, as a 32-bit field.
pub open spec fn uenc(r: Reg) -> u32 {
    match r {
        Reg::Real(rr) => rr.enc as u32,
        Reg::Virtual(_) => 0,
    }
}

/// Two's-complement 9-bit field of an offset in [-256, 255].
pub open spec fn imm9_bits(o: int) -> u32 {
    if o < 0 {
        (512 + o) as u32
    } else {
        o as u32
    }
}

/// Two's-complement 7-bit field of a byte offset in [-512, 504] scaled by 8.
pub open spec fn imm7s_bits(o: int) -> u32 {
    if o < 0 {
        (128 + o / 8) as u32
    } else {
        (o / 8) as u32
    }
}

/// Two's-complement 19-bit field of a byte displacement scaled by 4.
pub open spec fn imm19_bits(rel: int) -> u32 {
    if rel < 0 {
        (0x80000 + rel / 4) as u32
    } else {
        (rel / 4) as u32
    }
}

/// Two's-complement 26-bit field of a byte displacement scaled by 4.
pub open spec fn imm26_bits(rel: int) -> u32 {
    if rel < 0 {
        (0x4000000 + rel / 4) as u32
    } else {
        (rel / 4) as u32
    }
}

/// Well-formedness of a single-register memory operand for an access of
/// `scale` bytes.
pub open spec fn mem_wf(m: MemArg, scale: int) -> bool {
    match m {
        MemArg::Unscaled(rn, s9) => reg_enc_ok(rn) && s9.wf(),
        MemArg::FPOffset(o) => (0 <= o && o as int % scale == 0 && o as int / scale <= 4095) || (
        -256 <= o <= 255) || (-65536 <= o < -256),
        MemArg::SPOffset(o) => 0 <= o && o as int % scale == 0 && o as int / scale <= 4095,
    }
}

/// The encoded words of a load or store of `scale` bytes: `scaled`,
/// `unscaled` and `regoff` are the opcode bases of the three addressing
/// forms, `rt` the data register's encoding.  A frame-pointer offset out of
/// immediate range is materialized into the fix-up scratch register x16
/// with a move-negated instruction, then used as a register offset.
pub open spec fn spec_ldst_words(m: MemArg, scale: int, scaled: u32, unscaled: u32, regoff: u32, rt: u32) -> Seq<u32> {
    match m {
        MemArg::Unscaled(rn, s9) => seq![
            unscaled | (imm9_bits(s9.value as int) << 12) | (uenc(rn) << 5) | rt,
        ],
        MemArg::FPOffset(o) => if 0 <= o && o as int % scale == 0 && o as int / scale <= 4095 {
            seq![scaled | (((o as int / scale) as u32) << 10) | 29u32 << 5 | rt]
        } else if -256 <= o <= 255 {
            seq![unscaled | (imm9_bits(o as int) << 12) | 29u32 << 5 | rt]
        } else {
            seq![
                0x92800000u32 | (((-o - 1) as u32) << 5) | 16u32,
                regoff | 16u32 << 16 | 0x6800u32 | 29u32 << 5 | rt,
            ]
        },
        MemArg::SPOffset(o) => seq![scaled | (((o as int / scale) as u32) << 10) | 31u32 << 5 | rt],
    }
}

/// The encoded word of a register-pair load or store: `base` is the opcode
/// base of the pre- or post-indexed form.
pub open spec fn spec_pair_word(m: PairMemArg, pre_base: u32, post_base: u32, rt: u32, rt2: u32) -> u32 {
    match m {
        PairMemArg::PreIndexed(rn, s7) => pre_base | (imm7s_bits(s7.value as int) << 15) | (rt2
            << 10) | (uenc(rn.reg) << 5) | rt,
        PairMemArg::PostIndexed(rn, s7) => post_base | (imm7s_bits(s7.value as int) << 15) | (rt2
            << 10) | (uenc(rn.reg) << 5) | rt,
    }
}

pub open spec fn pair_mem_wf(m: PairMemArg) -> bool {
    match m {
        PairMemArg::PreIndexed(rn, s7) => reg_enc_ok(rn.reg) && s7.wf(),
        PairMemArg::PostIndexed(rn, s7) => reg_enc_ok(rn.reg) && s7.wf(),
    }
}

/// The opcode base of an immediate ALU operation.
pub open spec fn alu_imm_base(op: ALUOp) -> u32 {
    match op {
        ALUOp::Add32 => 0x11000000,
        ALUOp::Add64 => 0x91000000,
        ALUOp::Sub32 => 0x51000000,
        ALUOp::Sub64 => 0xD1000000,
    }
}

/// The opcode base of a shifted-register ALU operation (shift amount zero).
pub open spec fn alu_rrr_base(op: ALUOp) -> u32 {
    match op {
        ALUOp::Add32 => 0x0B000000,
        ALUOp::Add64 => 0x8B000000,
        ALUOp::Sub32 => 0x4B000000,
        ALUOp::Sub64 => 0xCB000000,
    }
}

/// The opcode base of an extended-register ALU operation.
pub open spec fn alu_ext_base(op: ALUOp) -> u32 {
    match op {
        ALUOp::Add32 => 0x0B200000,
        ALUOp::Add64 => 0x8B200000,
        ALUOp::Sub32 => 0x4B200000,
        ALUOp::Sub64 => 0xCB200000,
    }
}

impl Inst {
    /// The bytes this instruction emits.
    pub open spec fn spec_bytes(self) -> Seq<u8> {
        match self {
            Inst::AluRRImm12 { alu_op, rd, rn, imm12 } => spec_le4(
                alu_imm_base(alu_op) | (if imm12.shift12 {
                    0x400000u32
                } else {
                    0u32
                }) | ((imm12.bits as u32) << 10) | (uenc(rn) << 5) | uenc(rd.reg),
            ),
            Inst::AluRRR { alu_op, rd, rn, rm } => spec_le4(
                alu_rrr_base(alu_op) | (uenc(rm) << 16) | (uenc(rn) << 5) | uenc(rd.reg),
            ),
            Inst::AluRRRExtend { alu_op, rd, rn, rm, extendop } => spec_le4(
                alu_ext_base(alu_op) | (uenc(rm) << 16) | 0x6000u32 | (uenc(rn) << 5) | uenc(
                    rd.reg,
                ),
            ),
            Inst::Mov { rd, rm } => spec_le4(
                0xAA000000u32 | (uenc(rm) << 16) | 31u32 << 5 | uenc(rd.reg),
            ),
            Inst::Mov32 { rd, rm } => spec_le4(
                0x2A000000u32 | (uenc(rm) << 16) | 31u32 << 5 | uenc(rd.reg),
            ),
            Inst::FpuMov { rd, rm } => spec_le4(
                0x4EA01C00u32 | (uenc(rm) << 16) | (uenc(rm) << 5) | uenc(rd.reg),
            ),
            Inst::ULoad64 { rd, mem } => words_bytes(
                spec_ldst_words(mem, 8, 0xF9400000, 0xF8400000, 0xF8600000, uenc(rd.reg)),
            ),
            Inst::Store64 { rd, mem } => words_bytes(
                spec_ldst_words(mem, 8, 0xF9000000, 0xF8000000, 0xF8200000, uenc(rd)),
            ),
            Inst::FpuLoad32 { rd, mem } => words_bytes(
                spec_ldst_words(mem, 4, 0xBD400000, 0xBC400000, 0xBC600000, uenc(rd.reg)),
            ),
            Inst::FpuLoad64 { rd, mem } => words_bytes(
                spec_ldst_words(mem, 8, 0xFD400000, 0xFC400000, 0xFC600000, uenc(rd.reg)),
            ),
            Inst::FpuLoad128 { rd, mem } => words_bytes(
                spec_ldst_words(mem, 16, 0x3DC00000, 0x3CC00000, 0x3CE00000, uenc(rd.reg)),
            ),
            Inst::FpuStore32 { rd, mem } => words_bytes(
                spec_ldst_words(mem, 4, 0xBD000000, 0xBC000000, 0xBC200000, uenc(rd)),
            ),
            Inst::FpuStore64 { rd, mem } => words_bytes(
                spec_ldst_words(mem, 8, 0xFD000000, 0xFC000000, 0xFC200000, uenc(rd)),
            ),
            Inst::FpuStore128 { rd, mem } => words_bytes(
                spec_ldst_words(mem, 16, 0x3D800000, 0x3C800000, 0x3CA00000, uenc(rd)),
            ),
            Inst::StoreP64 { rt, rt2, mem } => spec_le4(
                spec_pair_word(mem, 0xA9800000, 0xA8800000, uenc(rt), uenc(rt2)),
            ),
            Inst::LoadP64 { rt, rt2, mem } => spec_le4(
                spec_pair_word(mem, 0xA9C00000, 0xA8C00000, uenc(rt.reg), uenc(rt2.reg)),
            ),
            Inst::LoadConst64 { rd, const_data } => spec_le4(0u32),
            Inst::LdrLit { rd, rel } => spec_le4(
                0x58000000u32 | (imm19_bits(rel as int) << 5) | uenc(rd.reg),
            ),
            Inst::Jump { dest, rel } => spec_le4(0x14000000u32 | imm26_bits(rel as int)),
            Inst::CondBr { kind, taken, not_taken, compound, rel_taken, rel_not_taken } => {
                let first = spec_le4(
                    (match kind {
                        CondBrKind::Zero(r) => 0xB4000000u32 | (imm19_bits(rel_taken as int) << 5)
                            | uenc(r),
                        CondBrKind::NotZero(r) => 0xB5000000u32 | (imm19_bits(rel_taken as int)
                            << 5) | uenc(r),
                    }),
                );
                if compound {
                    first + spec_le4(0x14000000u32 | imm26_bits(rel_not_taken as int))
                } else {
                    first
                }
            },
            Inst::Call { .. } => spec_le4(0x94000000u32),
            Inst::CallInd { rn, .. } => spec_le4(0xD63F0000u32 | (uenc(rn) << 5)),
            Inst::Ret => spec_le4(0xD65F03C0u32),
            Inst::EpiloguePlaceholder => Seq::empty(),
            Inst::Nop0 => Seq::empty(),
            Inst::Pad => spec_le4(0u32),
            Inst::ConstData { data } => spec_le8(data),
        }
    }

    /// Emission well-formedness: all registers are real and encodable, all
    /// immediates and displacements fit their fields, and no unresolved
    /// pseudo-instruction remains.
    pub open spec fn wf_emit(self) -> bool {
        match self {
            Inst::AluRRImm12 { alu_op, rd, rn, imm12 } => reg_enc_ok(rd.reg) && reg_enc_ok(rn)
                && imm12.wf(),
            Inst::AluRRR { alu_op, rd, rn, rm } => reg_enc_ok(rd.reg) && reg_enc_ok(rn)
                && reg_enc_ok(rm),
            Inst::AluRRRExtend { alu_op, rd, rn, rm, extendop } => reg_enc_ok(rd.reg)
                && reg_enc_ok(rn) && reg_enc_ok(rm),
            Inst::Mov { rd, rm } => reg_enc_ok(rd.reg) && reg_enc_ok(rm),
            Inst::Mov32 { rd, rm } => reg_enc_ok(rd.reg) && reg_enc_ok(rm),
            Inst::FpuMov { rd, rm } => reg_enc_ok(rd.reg) && reg_enc_ok(rm),
            Inst::ULoad64 { rd, mem } => reg_enc_ok(rd.reg) && mem_wf(mem, 8),
            Inst::Store64 { rd, mem } => reg_enc_ok(rd) && mem_wf(mem, 8),
            Inst::FpuLoad32 { rd, mem } => reg_enc_ok(rd.reg) && mem_wf(mem, 4),
            Inst::FpuLoad64 { rd, mem } => reg_enc_ok(rd.reg) && mem_wf(mem, 8),
            Inst::FpuLoad128 { rd, mem } => reg_enc_ok(rd.reg) && mem_wf(mem, 16),
            Inst::FpuStore32 { rd, mem } => reg_enc_ok(rd) && mem_wf(mem, 4),
            Inst::FpuStore64 { rd, mem } => reg_enc_ok(rd) && mem_wf(mem, 8),
            Inst::FpuStore128 { rd, mem } => reg_enc_ok(rd) && mem_wf(mem, 16),
            Inst::StoreP64 { rt, rt2, mem } => reg_enc_ok(rt) && reg_enc_ok(rt2) && pair_mem_wf(
                mem,
            ),
            Inst::LoadP64 { rt, rt2, mem } => reg_enc_ok(rt.reg) && reg_enc_ok(rt2.reg)
                && pair_mem_wf(mem),
            Inst::LoadConst64 { .. } => false,
            Inst::LdrLit { rd, rel } => reg_enc_ok(rd.reg) && rel % 4 == 0 && -0x100000 <= rel
                < 0x100000,
            Inst::Jump { dest, rel } => rel % 4 == 0 && -0x8000000 <= rel < 0x8000000,
            Inst::CondBr { kind, taken, not_taken, compound, rel_taken, rel_not_taken } => {
                &&& reg_enc_ok(kind.spec_reg())
                &&& rel_taken % 4 == 0
                &&& -0x100000 <= rel_taken < 0x100000
                &&& (compound ==> rel_not_taken % 4 == 0 && -0x8000000 <= rel_not_taken
                    < 0x8000000)
            },
            Inst::CallInd { rn, .. } => reg_enc_ok(rn),
            _ => true,
        }
    }

    /// The encoded size of this instruction in bytes.
    pub fn size(&self) -> (n: usize)
        ensures
            n == self.spec_bytes().len(),
    {
        match self {
            Inst::ULoad64 { mem, .. } => mem_size(mem, 8),
            Inst::Store64 { mem, .. } => mem_size(mem, 8),
            Inst::FpuLoad32 { mem, .. } => mem_size(mem, 4),
            Inst::FpuLoad64 { mem, .. } => mem_size(mem, 8),
            Inst::FpuLoad128 { mem, .. } => mem_size(mem, 16),
            Inst::FpuStore32 { mem, .. } => mem_size(mem, 4),
            Inst::FpuStore64 { mem, .. } => mem_size(mem, 8),
            Inst::FpuStore128 { mem, .. } => mem_size(mem, 16),
            Inst::CondBr { compound, .. } => if *compound {
                8
            } else {
                4
            },
            Inst::EpiloguePlaceholder => 0,
            Inst::Nop0 => 0,
            Inst::ConstData { .. } => 8,
            _ => 4,
        }
    }
}

/// The flattened little-endian bytes of up to two instruction words.
pub open spec fn words_bytes(ws: Seq<u32>) -> Seq<u8> {
    if ws.len() == 1 {
        spec_le4(ws[0])
    } else if ws.len() == 2 {
        spec_le4(ws[0]) + spec_le4(ws[1])
    } else {
        Seq::empty()
    }
}

/// The byte size of a load or store with operand `m` at access size
/// `scale`.
fn mem_size(m: &MemArg, scale: i64) -> (n: usize)
    requires
        1 <= scale <= 16,
    ensures
        forall|sc: u32, un: u32, ro: u32, rt: u32|
            n == words_bytes(#[trigger] spec_ldst_words(*m, scale as int, sc, un, ro, rt)).len(),
{
    match m {
        MemArg::Unscaled(..) => 4,
        MemArg::FPOffset(o) => {
            if 0 <= *o && *o % scale == 0 && *o / scale <= 4095 {
                4
            } else if -256 <= *o && *o <= 255 {
                4
            } else {
                8
            }
        },
        MemArg::SPOffset(..) => 4,
    }
}

impl Inst {
    /// Emit this instruction's encoding.  Calls by name record a relocation
    /// at the branch word.
    pub fn emit(&self, sink: &mut CodeSink)
        requires
            self.wf_emit(),
        ensures
            final(sink).bytes@ == old(sink).bytes@ + self.spec_bytes(),
    {
        match self {
            Inst::AluRRImm12 { alu_op, rd, rn, imm12 } => {
                let sh: u32 = if imm12.shift12 {
                    0x400000
                } else {
                    0
                };
                sink.put4(
                    enc_alu_imm_base(*alu_op) | sh | (imm12.bits as u32) << 10 | enc_reg(rn) << 5
                        | enc_reg(&rd.reg),
                );
            },
            Inst::AluRRR { alu_op, rd, rn, rm } => {
                sink.put4(
                    enc_alu_rrr_base(*alu_op) | enc_reg(rm) << 16 | enc_reg(rn) << 5 | enc_reg(
                        &rd.reg,
                    ),
                );
            },
            Inst::AluRRRExtend { alu_op, rd, rn, rm, extendop } => {
                sink.put4(
                    enc_alu_ext_base(*alu_op) | enc_reg(rm) << 16 | 0x6000 | enc_reg(rn) << 5
                        | enc_reg(&rd.reg),
                );
            },
            Inst::Mov { rd, rm } => {
                sink.put4(0xAA000000 | enc_reg(rm) << 16 | 31u32 << 5 | enc_reg(&rd.reg));
            },
            Inst::Mov32 { rd, rm } => {
                sink.put4(0x2A000000 | enc_reg(rm) << 16 | 31u32 << 5 | enc_reg(&rd.reg));
            },
            Inst::FpuMov { rd, rm } => {
                sink.put4(
                    0x4EA01C00 | enc_reg(rm) << 16 | enc_reg(rm) << 5 | enc_reg(&rd.reg),
                );
            },
            Inst::ULoad64 { rd, mem } => {
                emit_ldst(sink, mem, 8, 0xF9400000, 0xF8400000, 0xF8600000, enc_reg(&rd.reg));
            },
            Inst::Store64 { rd, mem } => {
                emit_ldst(sink, mem, 8, 0xF9000000, 0xF8000000, 0xF8200000, enc_reg(rd));
            },
            Inst::FpuLoad32 { rd, mem } => {
                emit_ldst(sink, mem, 4, 0xBD400000, 0xBC400000, 0xBC600000, enc_reg(&rd.reg));
            },
            Inst::FpuLoad64 { rd, mem } => {
                emit_ldst(sink, mem, 8, 0xFD400000, 0xFC400000, 0xFC600000, enc_reg(&rd.reg));
            },
            Inst::FpuLoad128 { rd, mem } => {
                emit_ldst(sink, mem, 16, 0x3DC00000, 0x3CC00000, 0x3CE00000, enc_reg(&rd.reg));
            },
            Inst::FpuStore32 { rd, mem } => {
                emit_ldst(sink, mem, 4, 0xBD000000, 0xBC000000, 0xBC200000, enc_reg(rd));
            },
            Inst::FpuStore64 { rd, mem } => {
                emit_ldst(sink, mem, 8, 0xFD000000, 0xFC000000, 0xFC200000, enc_reg(rd));
            },
            Inst::FpuStore128 { rd, mem } => {
                emit_ldst(sink, mem, 16, 0x3D800000, 0x3C800000, 0x3CA00000, enc_reg(rd));
            },
            Inst::StoreP64 { rt, rt2, mem } => {
                emit_pair(sink, mem, 0xA9800000, 0xA8800000, enc_reg(rt), enc_reg(rt2));
            },
            Inst::LoadP64 { rt, rt2, mem } => {
                emit_pair(sink, mem, 0xA9C00000, 0xA8C00000, enc_reg(&rt.reg), enc_reg(&rt2.reg));
            },
            Inst::LoadConst64 { .. } => {
                proof {
                    assert(false);
                }
            },
            Inst::LdrLit { rd, rel } => {
                sink.put4(0x58000000 | enc_imm19(*rel) << 5 | enc_reg(&rd.reg));
            },
            Inst::Jump { dest, rel } => {
                sink.put4(0x14000000 | enc_imm26(*rel));
            },
            Inst::CondBr { kind, taken, not_taken, compound, rel_taken, rel_not_taken } => {
                let w: u32 = match kind {
                    CondBrKind::Zero(r) => 0xB4000000 | enc_imm19(*rel_taken) << 5 | enc_reg(r),
                    CondBrKind::NotZero(r) => 0xB5000000 | enc_imm19(*rel_taken) << 5 | enc_reg(
                        r,
                    ),
                };
                sink.put4(w);
                if *compound {
                    sink.put4(0x14000000 | enc_imm26(*rel_not_taken));
                }
                assert(final(sink).bytes@ =~= old(sink).bytes@ + self.spec_bytes());
            },
            Inst::Call { dest, loc, .. } => {
                sink.add_reloc(*loc, *dest);
                sink.put4(0x94000000);
            },
            Inst::CallInd { rn, .. } => {
                sink.put4(0xD63F0000 | enc_reg(rn) << 5);
            },
            Inst::Ret => {
                sink.put4(0xD65F03C0);
            },
            Inst::EpiloguePlaceholder => {
                assert(final(sink).bytes@ =~= old(sink).bytes@ + self.spec_bytes());
            },
            Inst::Nop0 => {
                assert(final(sink).bytes@ =~= old(sink).bytes@ + self.spec_bytes());
            },
            Inst::Pad => {
                sink.put4(0);
            },
            Inst::ConstData { data } => {
                sink.put8(*data);
            },
        }
    }
}

/// The hardware encoding of a real register as a 32-bit field.
fn enc_reg(r: &Reg) -> (e: u32)
    requires
        reg_enc_ok(*r),
    ensures
        e == uenc(*r),
        e <= 31,
{
    match r {
        Reg::Real(rr) => rr.enc as u32,
        Reg::Virtual(_) => 0,
    }
}

fn enc_alu_imm_base(op: ALUOp) -> (w: u32)
    ensures
        w == alu_imm_base(op),
{
    match op {
        ALUOp::Add32 => 0x11000000,
        ALUOp::Add64 => 0x91000000,
        ALUOp::Sub32 => 0x51000000,
        ALUOp::Sub64 => 0xD1000000,
    }
}

fn enc_alu_rrr_base(op: ALUOp) -> (w: u32)
    ensures
        w == alu_rrr_base(op),
{
    match op {
        ALUOp::Add32 => 0x0B000000,
        ALUOp::Add64 => 0x8B000000,
        ALUOp::Sub32 => 0x4B000000,
        ALUOp::Sub64 => 0xCB000000,
    }
}

fn enc_alu_ext_base(op: ALUOp) -> (w: u32)
    ensures
        w == alu_ext_base(op),
{
    match op {
        ALUOp::Add32 => 0x0B200000,
        ALUOp::Add64 => 0x8B200000,
        ALUOp::Sub32 => 0x4B200000,
        ALUOp::Sub64 => 0xCB200000,
    }
}

fn enc_imm19(rel: i32) -> (w: u32)
    requires
        rel % 4 == 0,
        -0x100000 <= rel < 0x100000,
    ensures
        w == imm19_bits(rel as int),
{
    if rel < 0 {
        (0x80000 + rel / 4) as u32
    } else {
        (rel / 4) as u32
    }
}

fn enc_imm26(rel: i32) -> (w: u32)
    requires
        rel % 4 == 0,
        -0x8000000 <= rel < 0x8000000,
    ensures
        w == imm26_bits(rel as int),
{
    if rel < 0 {
        (0x4000000 + rel / 4) as u32
    } else {
        (rel / 4) as u32
    }
}

/// Emit a single-register load or store.
fn emit_ldst(sink: &mut CodeSink, m: &MemArg, scale: i64, scaled: u32, unscaled: u32, regoff: u32, rt: u32)
    requires
        1 <= scale <= 16,
        mem_wf(*m, scale as int),
        rt <= 31,
    ensures
        final(sink).bytes@ == old(sink).bytes@ + words_bytes(
            spec_ldst_words(*m, scale as int, scaled, unscaled, regoff, rt),
        ),
        final(sink).relocs@ == old(sink).relocs@,
{
    match m {
        MemArg::Unscaled(rn, s9) => {
            let imm9: u32 = if s9.value < 0 {
                (512 + s9.value as i32) as u32
            } else {
                s9.value as u32
            };
            sink.put4(unscaled | imm9 << 12 | enc_reg(rn) << 5 | rt);
        },
        MemArg::FPOffset(o) => {
            if 0 <= *o && *o % scale == 0 && *o / scale <= 4095 {
                sink.put4(scaled | ((*o / scale) as u32) << 10 | 29u32 << 5 | rt);
            } else if -256 <= *o && *o <= 255 {
                let imm9: u32 = if *o < 0 {
                    (512 + *o) as u32
                } else {
                    *o as u32
                };
                sink.put4(unscaled | imm9 << 12 | 29u32 << 5 | rt);
            } else {
                sink.put4(0x92800000 | ((-*o - 1) as u32) << 5 | 16u32);
                sink.put4(regoff | 16u32 << 16 | 0x6800 | 29u32 << 5 | rt);
                assert(final(sink).bytes@ =~= old(sink).bytes@ + words_bytes(
                    spec_ldst_words(*m, scale as int, scaled, unscaled, regoff, rt),
                ));
            }
        },
        MemArg::SPOffset(o) => {
            sink.put4(scaled | ((*o / scale) as u32) << 10 | 31u32 << 5 | rt);
        },
    }
}

/// Emit a register-pair load or store.
fn emit_pair(sink: &mut CodeSink, m: &PairMemArg, pre_base: u32, post_base: u32, rt: u32, rt2: u32)
    requires
        pair_mem_wf(*m),
        rt <= 31,
        rt2 <= 31,
    ensures
        final(sink).bytes@ == old(sink).bytes@ + spec_le4(
            spec_pair_word(*m, pre_base, post_base, rt, rt2),
        ),
        final(sink).relocs@ == old(sink).relocs@,
{
    match m {
        PairMemArg::PreIndexed(rn, s7) => {
            let imm7: u32 = if s7.value < 0 {
                (128 + (s7.value as i32) / 8) as u32
            } else {
                ((s7.value as i32) / 8) as u32
            };
            sink.put4(pre_base | imm7 << 15 | rt2 << 10 | enc_reg(&rn.reg) << 5 | rt);
        },
        PairMemArg::PostIndexed(rn, s7) => {
            let imm7: u32 = if s7.value < 0 {
                (128 + (s7.value as i32) / 8) as u32
            } else {
                ((s7.value as i32) / 8) as u32
            };
            sink.put4(post_base | imm7 << 15 | rt2 << 10 | enc_reg(&rn.reg) << 5 | rt);
        },
    }
}

/// The registers a memory operand mentions.  The frame- and stack-pointer
/// bases are reported as uses; the fix-up scratch register of the long
/// frame-offset form is statically reserved and never allocated, so it is
/// not reported.
pub open spec fn memarg_regs(m: MemArg) -> Seq<(Reg, RegMode)> {
    match m {
        MemArg::Unscaled(rn, _) => seq![(rn, RegMode::Use)],
        MemArg::FPOffset(_) => seq![(crate::regs::spec_fp_reg(), RegMode::Use)],
        MemArg::SPOffset(_) => seq![(crate::regs::spec_stack_reg(), RegMode::Use)],
    }
}

/// The base register a pair operand writes back.
pub open spec fn pair_base(m: PairMemArg) -> Reg {
    match m {
        PairMemArg::PreIndexed(rn, _) => rn.reg,
        PairMemArg::PostIndexed(rn, _) => rn.reg,
    }
}

pub open spec fn as_uses(rs: Seq<Reg>) -> Seq<(Reg, RegMode)> {
    rs.map_values(|r: Reg| (r, RegMode::Use))
}

pub open spec fn as_defs(rs: Seq<Writable<Reg>>) -> Seq<(Reg, RegMode)> {
    rs.map_values(|w: Writable<Reg>| (w.reg, RegMode::Def))
}

impl Inst {
    /// The registers this instruction mentions, with their modes.
    pub open spec fn spec_regs(self) -> Seq<(Reg, RegMode)> {
        match self {
            Inst::AluRRImm12 { rd, rn, .. } => seq![(rn, RegMode::Use), (rd.reg, RegMode::Def)],
            Inst::AluRRR { rd, rn, rm, .. } => seq![
                (rn, RegMode::Use),
                (rm, RegMode::Use),
                (rd.reg, RegMode::Def),
            ],
            Inst::AluRRRExtend { rd, rn, rm, .. } => seq![
                (rn, RegMode::Use),
                (rm, RegMode::Use),
                (rd.reg, RegMode::Def),
            ],
            Inst::Mov { rd, rm } => seq![(rm, RegMode::Use), (rd.reg, RegMode::Def)],
            Inst::Mov32 { rd, rm } => seq![(rm, RegMode::Use), (rd.reg, RegMode::Def)],
            Inst::FpuMov { rd, rm } => seq![(rm, RegMode::Use), (rd.reg, RegMode::Def)],
            Inst::ULoad64 { rd, mem } => memarg_regs(mem).push((rd.reg, RegMode::Def)),
            Inst::Store64 { rd, mem } => seq![(rd, RegMode::Use)] + memarg_regs(mem),
            Inst::FpuLoad32 { rd, mem } => memarg_regs(mem).push((rd.reg, RegMode::Def)),
            Inst::FpuLoad64 { rd, mem } => memarg_regs(mem).push((rd.reg, RegMode::Def)),
            Inst::FpuLoad128 { rd, mem } => memarg_regs(mem).push((rd.reg, RegMode::Def)),
            Inst::FpuStore32 { rd, mem } => seq![(rd, RegMode::Use)] + memarg_regs(mem),
            Inst::FpuStore64 { rd, mem } => seq![(rd, RegMode::Use)] + memarg_regs(mem),
            Inst::FpuStore128 { rd, mem } => seq![(rd, RegMode::Use)] + memarg_regs(mem),
            Inst::StoreP64 { rt, rt2, mem } => seq![
                (rt, RegMode::Use),
                (rt2, RegMode::Use),
                (pair_base(mem), RegMode::Modify),
            ],
            Inst::LoadP64 { rt, rt2, mem } => seq![
                (rt.reg, RegMode::Def),
                (rt2.reg, RegMode::Def),
                (pair_base(mem), RegMode::Modify),
            ],
            Inst::LoadConst64 { rd, .. } => seq![(rd.reg, RegMode::Def)],
            Inst::LdrLit { rd, .. } => seq![(rd.reg, RegMode::Def)],
            Inst::Jump { .. } => Seq::empty(),
            Inst::CondBr { kind, .. } => seq![(kind.spec_reg(), RegMode::Use)],
            Inst::Call { uses, defs, .. } => as_uses(uses@) + as_defs(defs@),
            Inst::CallInd { rn, uses, defs, .. } => seq![(rn, RegMode::Use)] + as_uses(uses@)
                + as_defs(defs@),
            Inst::Ret => Seq::empty(),
            Inst::EpiloguePlaceholder => Seq::empty(),
            Inst::Nop0 => Seq::empty(),
            Inst::Pad => Seq::empty(),
            Inst::ConstData { .. } => Seq::empty(),
        }
    }

    /// The registers this instruction mentions, with their modes.
    pub fn regs(&self) -> (r: Vec<(Reg, RegMode)>)
        ensures
            r@ == self.spec_regs(),
    {
        let mut out: Vec<(Reg, RegMode)> = Vec::new();
        match self {
            Inst::AluRRImm12 { rd, rn, .. } => {
                out.push((*rn, RegMode::Use));
                out.push((rd.reg, RegMode::Def));
            },
            Inst::AluRRR { rd, rn, rm, .. } => {
                out.push((*rn, RegMode::Use));
                out.push((*rm, RegMode::Use));
                out.push((rd.reg, RegMode::Def));
            },
            Inst::AluRRRExtend { rd, rn, rm, .. } => {
                out.push((*rn, RegMode::Use));
                out.push((*rm, RegMode::Use));
                out.push((rd.reg, RegMode::Def));
            },
            Inst::Mov { rd, rm } => {
                out.push((*rm, RegMode::Use));
                out.push((rd.reg, RegMode::Def));
            },
            Inst::Mov32 { rd, rm } => {
                out.push((*rm, RegMode::Use));
                out.push((rd.reg, RegMode::Def));
            },
            Inst::FpuMov { rd, rm } => {
                out.push((*rm, RegMode::Use));
                out.push((rd.reg, RegMode::Def));
            },
            Inst::ULoad64 { rd, mem } => {
                push_memarg_regs(&mut out, mem);
                out.push((rd.reg, RegMode::Def));
            },
            Inst::Store64 { rd, mem } => {
                out.push((*rd, RegMode::Use));
                push_memarg_regs(&mut out, mem);
            },
            Inst::FpuLoad32 { rd, mem } => {
                push_memarg_regs(&mut out, mem);
                out.push((rd.reg, RegMode::Def));
            },
            Inst::FpuLoad64 { rd, mem } => {
                push_memarg_regs(&mut out, mem);
                out.push((rd.reg, RegMode::Def));
            },
            Inst::FpuLoad128 { rd, mem } => {
                push_memarg_regs(&mut out, mem);
                out.push((rd.reg, RegMode::Def));
            },
            Inst::FpuStore32 { rd, mem } => {
                out.push((*rd, RegMode::Use));
                push_memarg_regs(&mut out, mem);
            },
            Inst::FpuStore64 { rd, mem } => {
                out.push((*rd, RegMode::Use));
                push_memarg_regs(&mut out, mem);
            },
            Inst::FpuStore128 { rd, mem } => {
                out.push((*rd, RegMode::Use));
                push_memarg_regs(&mut out, mem);
            },
            Inst::StoreP64 { rt, rt2, mem } => {
                out.push((*rt, RegMode::Use));
                out.push((*rt2, RegMode::Use));
                match mem {
                    PairMemArg::PreIndexed(rn, _) => out.push((rn.reg, RegMode::Modify)),
                    PairMemArg::PostIndexed(rn, _) => out.push((rn.reg, RegMode::Modify)),
                }
            },
            Inst::LoadP64 { rt, rt2, mem } => {
                out.push((rt.reg, RegMode::Def));
                out.push((rt2.reg, RegMode::Def));
                match mem {
                    PairMemArg::PreIndexed(rn, _) => out.push((rn.reg, RegMode::Modify)),
                    PairMemArg::PostIndexed(rn, _) => out.push((rn.reg, RegMode::Modify)),
                }
            },
            Inst::LoadConst64 { rd, .. } => {
                out.push((rd.reg, RegMode::Def));
            },
            Inst::LdrLit { rd, .. } => {
                out.push((rd.reg, RegMode::Def));
            },
            Inst::Jump { .. } => {},
            Inst::CondBr { kind, .. } => {
                match kind {
                    CondBrKind::Zero(r) => out.push((*r, RegMode::Use)),
                    CondBrKind::NotZero(r) => out.push((*r, RegMode::Use)),
                }
            },
            Inst::Call { uses, defs, .. } => {
                push_uses_defs(&mut out, uses, defs);
            },
            Inst::CallInd { rn, uses, defs, .. } => {
                out.push((*rn, RegMode::Use));
                push_uses_defs(&mut out, uses, defs);
            },
            Inst::Ret => {},
            Inst::EpiloguePlaceholder => {},
            Inst::Nop0 => {},
            Inst::Pad => {},
            Inst::ConstData { .. } => {},
        }
        assert(out@ =~= self.spec_regs());
        out
    }

    /// If this instruction is a plain register move, its destination and
    /// source.
    pub fn is_move(&self) -> (r: Option<(Writable<Reg>, Reg)>)
        ensures
            match r {
                Some(p) => (*self == Inst::Mov { rd: p.0, rm: p.1 } || *self == Inst::Mov32 {
                    rd: p.0,
                    rm: p.1,
                } || *self == Inst::FpuMov { rd: p.0, rm: p.1 }),
                None => !(self is Mov || self is Mov32 || self is FpuMov),
            },
    {
        match self {
            Inst::Mov { rd, rm } => Some((*rd, *rm)),
            Inst::Mov32 { rd, rm } => Some((*rd, *rm)),
            Inst::FpuMov { rd, rm } => Some((*rd, *rm)),
            _ => None,
        }
    }

    /// Terminator classification.
    pub open spec fn spec_is_term(self) -> MachTerminator {
        match self {
            Inst::Ret => MachTerminator::Ret,
            Inst::EpiloguePlaceholder => MachTerminator::Ret,
            Inst::Jump { dest, .. } => MachTerminator::Uncond(dest),
            Inst::CondBr { taken, not_taken, .. } => MachTerminator::Cond(taken, not_taken),
            _ => MachTerminator::NoTerm,
        }
    }

    /// Whether this instruction is a terminator, and of which kind.
    pub fn is_term(&self) -> (t: MachTerminator)
        ensures
            t == self.spec_is_term(),
    {
        match self {
            Inst::Ret => MachTerminator::Ret,
            Inst::EpiloguePlaceholder => MachTerminator::Ret,
            Inst::Jump { dest, .. } => MachTerminator::Uncond(*dest),
            Inst::CondBr { taken, not_taken, .. } => MachTerminator::Cond(*taken, *not_taken),
            _ => MachTerminator::NoTerm,
        }
    }

    /// A move of a value of type `ty` between registers.
    pub fn gen_move(to_reg: Writable<Reg>, from_reg: Reg, ty: Type) -> (i: Inst)
        ensures
            i == spec_gen_move(to_reg, from_reg, ty),
    {
        match ty {
            Type::F32 => Inst::FpuMov { rd: to_reg, rm: from_reg },
            Type::F64 => Inst::FpuMov { rd: to_reg, rm: from_reg },
            Type::I64 => Inst::Mov { rd: to_reg, rm: from_reg },
            Type::B64 => Inst::Mov { rd: to_reg, rm: from_reg },
            _ => Inst::Mov32 { rd: to_reg, rm: from_reg },
        }
    }
}

/// A move of a value of type `ty`: vector registers move with the vector
/// move, 64-bit integer types with the full-width move, narrower integer
/// and boolean types with the 32-bit move.
pub open spec fn spec_gen_move(to_reg: Writable<Reg>, from_reg: Reg, ty: Type) -> Inst {
    match ty {
        Type::F32 => Inst::FpuMov { rd: to_reg, rm: from_reg },
        Type::F64 => Inst::FpuMov { rd: to_reg, rm: from_reg },
        Type::I64 => Inst::Mov { rd: to_reg, rm: from_reg },
        Type::B64 => Inst::Mov { rd: to_reg, rm: from_reg },
        _ => Inst::Mov32 { rd: to_reg, rm: from_reg },
    }
}

fn push_memarg_regs(out: &mut Vec<(Reg, RegMode)>, m: &MemArg)
    ensures
        final(out)@ == old(out)@ + memarg_regs(*m),
{
    match m {
        MemArg::Unscaled(rn, _) => out.push((*rn, RegMode::Use)),
        MemArg::FPOffset(_) => out.push((crate::regs::fp_reg(), RegMode::Use)),
        MemArg::SPOffset(_) => out.push((crate::regs::stack_reg(), RegMode::Use)),
    }
    assert(out@ =~= old(out)@ + memarg_regs(*m));
}

fn push_uses_defs(out: &mut Vec<(Reg, RegMode)>, uses: &Vec<Reg>, defs: &Vec<Writable<Reg>>)
    ensures
        final(out)@ == old(out)@ + as_uses(uses@) + as_defs(defs@),
{
    let ghost base = out@;
    let mut i: usize = 0;
    while i < uses.len()
        invariant
            i <= uses@.len(),
            out@ == base + as_uses(uses@.subrange(0, i as int)),
        decreases uses@.len() - i,
    {
        out.push((uses[i], RegMode::Use));
        proof {
            assert(as_uses(uses@.subrange(0, i + 1)) =~= as_uses(uses@.subrange(0, i as int)).push(
                (uses@[i as int], RegMode::Use),
            ));
            assert(out@ =~= base + as_uses(uses@.subrange(0, i + 1)));
        }
        i = i + 1;
    }
    proof {
        assert(uses@.subrange(0, uses@.len() as int) =~= uses@);
    }
    let mut j: usize = 0;
    while j < defs.len()
        invariant
            j <= defs@.len(),
            out@ == base + as_uses(uses@) + as_defs(defs@.subrange(0, j as int)),
        decreases defs@.len() - j,
    {
        out.push((defs[j].reg, RegMode::Def));
        proof {
            assert(as_defs(defs@.subrange(0, j + 1)) =~= as_defs(defs@.subrange(0, j as int)).push(
                (defs@[j as int].reg, RegMode::Def),
            ));
            assert(out@ =~= base + as_uses(uses@) + as_defs(defs@.subrange(0, j + 1)));
        }
        j = j + 1;
    }
    proof {
        assert(defs@.subrange(0, defs@.len() as int) =~= defs@);
    }
}

/// `r` rewritten through the virtual-to-physical map `m`: a virtual
/// register with an entry in `m` is replaced, anything else is unchanged.
pub open spec fn spec_map_reg(m: Seq<Reg>, r: Reg) -> Reg {
    match r {
        Reg::Virtual(v) => if v.index < m.len() {
            m[v.index as int]
        } else {
            r
        },
        Reg::Real(_) => r,
    }
}

pub open spec fn spec_map_mem(m: Seq<Reg>, mem: MemArg) -> MemArg {
    match mem {
        MemArg::Unscaled(rn, s9) => MemArg::Unscaled(spec_map_reg(m, rn), s9),
        MemArg::FPOffset(o) => MemArg::FPOffset(o),
        MemArg::SPOffset(o) => MemArg::SPOffset(o),
    }
}

pub open spec fn spec_map_pair(m: Seq<Reg>, mem: PairMemArg) -> PairMemArg {
    match mem {
        PairMemArg::PreIndexed(rn, s7) => PairMemArg::PreIndexed(
            Writable { reg: spec_map_reg(m, rn.reg) },
            s7,
        ),
        PairMemArg::PostIndexed(rn, s7) => PairMemArg::PostIndexed(
            Writable { reg: spec_map_reg(m, rn.reg) },
            s7,
        ),
    }
}

/// The instruction with every use rewritten through `um` and every def
/// rewritten through `dm`; base registers written back by pair forms go
/// through the use map.
pub open spec fn spec_map_inst(um: Seq<Reg>, dm: Seq<Reg>, i: Inst) -> Inst {
    match i {
        Inst::AluRRImm12 { alu_op, rd, rn, imm12 } => Inst::AluRRImm12 {
            alu_op,
            rd: Writable { reg: spec_map_reg(dm, rd.reg) },
            rn: spec_map_reg(um, rn),
            imm12,
        },
        Inst::AluRRR { alu_op, rd, rn, rm } => Inst::AluRRR {
            alu_op,
            rd: Writable { reg: spec_map_reg(dm, rd.reg) },
            rn: spec_map_reg(um, rn),
            rm: spec_map_reg(um, rm),
        },
        Inst::AluRRRExtend { alu_op, rd, rn, rm, extendop } => Inst::AluRRRExtend {
            alu_op,
            rd: Writable { reg: spec_map_reg(dm, rd.reg) },
            rn: spec_map_reg(um, rn),
            rm: spec_map_reg(um, rm),
            extendop,
        },
        Inst::Mov { rd, rm } => Inst::Mov {
            rd: Writable { reg: spec_map_reg(dm, rd.reg) },
            rm: spec_map_reg(um, rm),
        },
        Inst::Mov32 { rd, rm } => Inst::Mov32 {
            rd: Writable { reg: spec_map_reg(dm, rd.reg) },
            rm: spec_map_reg(um, rm),
        },
        Inst::FpuMov { rd, rm } => Inst::FpuMov {
            rd: Writable { reg: spec_map_reg(dm, rd.reg) },
            rm: spec_map_reg(um, rm),
        },
        Inst::ULoad64 { rd, mem } => Inst::ULoad64 {
            rd: Writable { reg: spec_map_reg(dm, rd.reg) },
            mem: spec_map_mem(um, mem),
        },
        Inst::Store64 { rd, mem } => Inst::Store64 {
            rd: spec_map_reg(um, rd),
            mem: spec_map_mem(um, mem),
        },
        Inst::FpuLoad32 { rd, mem } => Inst::FpuLoad32 {
            rd: Writable { reg: spec_map_reg(dm, rd.reg) },
            mem: spec_map_mem(um, mem),
        },
        Inst::FpuLoad64 { rd, mem } => Inst::FpuLoad64 {
            rd: Writable { reg: spec_map_reg(dm, rd.reg) },
            mem: spec_map_mem(um, mem),
        },
        Inst::FpuLoad128 { rd, mem } => Inst::FpuLoad128 {
            rd: Writable { reg: spec_map_reg(dm, rd.reg) },
            mem: spec_map_mem(um, mem),
        },
        Inst::FpuStore32 { rd, mem } => Inst::FpuStore32 {
            rd: spec_map_reg(um, rd),
            mem: spec_map_mem(um, mem),
        },
        Inst::FpuStore64 { rd, mem } => Inst::FpuStore64 {
            rd: spec_map_reg(um, rd),
            mem: spec_map_mem(um, mem),
        },
        Inst::FpuStore128 { rd, mem } => Inst::FpuStore128 {
            rd: spec_map_reg(um, rd),
            mem: spec_map_mem(um, mem),
        },
        Inst::StoreP64 { rt, rt2, mem } => Inst::StoreP64 {
            rt: spec_map_reg(um, rt),
            rt2: spec_map_reg(um, rt2),
            mem: spec_map_pair(um, mem),
        },
        Inst::LoadP64 { rt, rt2, mem } => Inst::LoadP64 {
            rt: Writable { reg: spec_map_reg(dm, rt.reg) },
            rt2: Writable { reg: spec_map_reg(dm, rt2.reg) },
            mem: spec_map_pair(um, mem),
        },
        Inst::LoadConst64 { rd, const_data } => Inst::LoadConst64 {
            rd: Writable { reg: spec_map_reg(dm, rd.reg) },
            const_data,
        },
        Inst::LdrLit { rd, rel } => Inst::LdrLit {
            rd: Writable { reg: spec_map_reg(dm, rd.reg) },
            rel,
        },
        Inst::CondBr { kind, taken, not_taken, compound, rel_taken, rel_not_taken } => Inst::CondBr {
            kind: match kind {
                CondBrKind::Zero(r) => CondBrKind::Zero(spec_map_reg(um, r)),
                CondBrKind::NotZero(r) => CondBrKind::NotZero(spec_map_reg(um, r)),
            },
            taken,
            not_taken,
            compound,
            rel_taken,
            rel_not_taken,
        },
        Inst::Call { dest, uses, defs, loc } => Inst::Call { dest, uses, defs, loc },
        Inst::CallInd { rn, uses, defs, loc } => Inst::CallInd {
            rn: spec_map_reg(um, rn),
            uses,
            defs,
            loc,
        },
        _ => i,
    }
}

fn map_reg(m: &Vec<Reg>, r: &Reg) -> (res: Reg)
    ensures
        res == spec_map_reg(m@, *r),
{
    match r {
        Reg::Virtual(v) => {
            if (v.index as usize) < m.len() {
                m[v.index as usize]
            } else {
                *r
            }
        },
        Reg::Real(_) => *r,
    }
}

fn map_mem(m: &Vec<Reg>, mem: &MemArg) -> (res: MemArg)
    ensures
        res == spec_map_mem(m@, *mem),
{
    match mem {
        MemArg::Unscaled(rn, s9) => MemArg::Unscaled(map_reg(m, rn), *s9),
        MemArg::FPOffset(o) => MemArg::FPOffset(*o),
        MemArg::SPOffset(o) => MemArg::SPOffset(*o),
    }
}

fn map_pair(m: &Vec<Reg>, mem: &PairMemArg) -> (res: PairMemArg)
    ensures
        res == spec_map_pair(m@, *mem),
{
    match mem {
        PairMemArg::PreIndexed(rn, s7) => PairMemArg::PreIndexed(
            Writable { reg: map_reg(m, &rn.reg) },
            *s7,
        ),
        PairMemArg::PostIndexed(rn, s7) => PairMemArg::PostIndexed(
            Writable { reg: map_reg(m, &rn.reg) },
            *s7,
        ),
    }
}

impl Inst {
    /// Rewrite the remaining virtual registers: uses through `umap`, defs
    /// through `dmap`.  The call register lists name real registers only
    /// and are left as they are.
    pub fn map_virtregs(&mut self, umap: &Vec<Reg>, dmap: &Vec<Reg>)
        ensures
            *final(self) == spec_map_inst(umap@, dmap@, *old(self)),
    {
        match self {
            Inst::AluRRImm12 { rd, rn, .. } => {
                let nd: Reg = map_reg(dmap, &rd.reg);
                let nn: Reg = map_reg(umap, rn);
                *rd = Writable { reg: nd };
                *rn = nn;
            },
            Inst::AluRRR { rd, rn, rm, .. } => {
                let nd: Reg = map_reg(dmap, &rd.reg);
                let nn: Reg = map_reg(umap, rn);
                let nm: Reg = map_reg(umap, rm);
                *rd = Writable { reg: nd };
                *rn = nn;
                *rm = nm;
            },
            Inst::AluRRRExtend { rd, rn, rm, .. } => {
                let nd: Reg = map_reg(dmap, &rd.reg);
                let nn: Reg = map_reg(umap, rn);
                let nm: Reg = map_reg(umap, rm);
                *rd = Writable { reg: nd };
                *rn = nn;
                *rm = nm;
            },
            Inst::Mov { rd, rm } => {
                let nd: Reg = map_reg(dmap, &rd.reg);
                let nm: Reg = map_reg(umap, rm);
                *rd = Writable { reg: nd };
                *rm = nm;
            },
            Inst::Mov32 { rd, rm } => {
                let nd: Reg = map_reg(dmap, &rd.reg);
                let nm: Reg = map_reg(umap, rm);
                *rd = Writable { reg: nd };
                *rm = nm;
            },
            Inst::FpuMov { rd, rm } => {
                let nd: Reg = map_reg(dmap, &rd.reg);
                let nm: Reg = map_reg(umap, rm);
                *rd = Writable { reg: nd };
                *rm = nm;
            },
            Inst::ULoad64 { rd, mem } => {
                let nd: Reg = map_reg(dmap, &rd.reg);
                let m0: MemArg = *mem;
                *rd = Writable { reg: nd };
                *mem = map_mem(umap, &m0);
            },
            Inst::Store64 { rd, mem } => {
                let nd: Reg = map_reg(umap, rd);
                let m0: MemArg = *mem;
                *rd = nd;
                *mem = map_mem(umap, &m0);
            },
            Inst::FpuLoad32 { rd, mem } => {
                let nd: Reg = map_reg(dmap, &rd.reg);
                let m0: MemArg = *mem;
                *rd = Writable { reg: nd };
                *mem = map_mem(umap, &m0);
            },
            Inst::FpuLoad64 { rd, mem } => {
                let nd: Reg = map_reg(dmap, &rd.reg);
                let m0: MemArg = *mem;
                *rd = Writable { reg: nd };
                *mem = map_mem(umap, &m0);
            },
            Inst::FpuLoad128 { rd, mem } => {
                let nd: Reg = map_reg(dmap, &rd.reg);
                let m0: MemArg = *mem;
                *rd = Writable { reg: nd };
                *mem = map_mem(umap, &m0);
            },
            Inst::FpuStore32 { rd, mem } => {
                let nd: Reg = map_reg(umap, rd);
                let m0: MemArg = *mem;
                *rd = nd;
                *mem = map_mem(umap, &m0);
            },
            Inst::FpuStore64 { rd, mem } => {
                let nd: Reg = map_reg(umap, rd);
                let m0: MemArg = *mem;
                *rd = nd;
                *mem = map_mem(umap, &m0);
            },
            Inst::FpuStore128 { rd, mem } => {
                let nd: Reg = map_reg(umap, rd);
                let m0: MemArg = *mem;
                *rd = nd;
                *mem = map_mem(umap, &m0);
            },
            Inst::StoreP64 { rt, rt2, mem } => {
                let n1: Reg = map_reg(umap, rt);
                let n2: Reg = map_reg(umap, rt2);
                let m0: PairMemArg = *mem;
                *rt = n1;
                *rt2 = n2;
                *mem = map_pair(umap, &m0);
            },
            Inst::LoadP64 { rt, rt2, mem } => {
                let n1: Reg = map_reg(dmap, &rt.reg);
                let n2: Reg = map_reg(dmap, &rt2.reg);
                let m0: PairMemArg = *mem;
                *rt = Writable { reg: n1 };
                *rt2 = Writable { reg: n2 };
                *mem = map_pair(umap, &m0);
            },
            Inst::LoadConst64 { rd, .. } => {
                let nd: Reg = map_reg(dmap, &rd.reg);
                *rd = Writable { reg: nd };
            },
            Inst::LdrLit { rd, .. } => {
                let nd: Reg = map_reg(dmap, &rd.reg);
                *rd = Writable { reg: nd };
            },
            Inst::CondBr { kind, .. } => {
                let k0: CondBrKind = *kind;
                let nk: CondBrKind = match &k0 {
                    CondBrKind::Zero(r) => CondBrKind::Zero(map_reg(umap, r)),
                    CondBrKind::NotZero(r) => CondBrKind::NotZero(map_reg(umap, r)),
                };
                *kind = nk;
            },
            Inst::CallInd { rn, .. } => {
                let nr: Reg = map_reg(umap, rn);
                *rn = nr;
            },
            _ => {},
        }
    }
}

impl crate::machinst::MachInstEmit for Inst {
    open spec fn emit_wf(&self) -> bool {
        self.wf_emit()
    }

    open spec fn emitted(&self) -> Seq<u8> {
        self.spec_bytes()
    }

    fn size(&self) -> (n: usize) {
        Inst::size(self)
    }

    fn emit(&self, sink: &mut CodeSink) {
        Inst::emit(self, sink);
    }
}



fn reg_enc_ok_exec(r: &Reg) -> (b: bool)
    ensures
        b == reg_enc_ok(*r),
{
    match r {
        Reg::Real(rr) => rr.enc <= 31,
        Reg::Virtual(_) => false,
    }
}

fn mem_wf_exec(m: &MemArg, scale: i64) -> (b: bool)
    requires
        1 <= scale <= 16,
    ensures
        b == mem_wf(*m, scale as int),
{
    match m {
        MemArg::Unscaled(rn, s9) => reg_enc_ok_exec(rn) && -256 <= s9.value && s9.value <= 255,
        MemArg::FPOffset(o) => (0 <= *o && *o % scale == 0 && *o / scale <= 4095) || (-256 <= *o
            && *o <= 255) || (-65536 <= *o && *o < -256),
        MemArg::SPOffset(o) => 0 <= *o && *o % scale == 0 && *o / scale <= 4095,
    }
}

fn pair_mem_wf_exec(m: &PairMemArg) -> (b: bool)
    ensures
        b == pair_mem_wf(*m),
{
    match m {
        PairMemArg::PreIndexed(rn, s7) => reg_enc_ok_exec(&rn.reg) && -512 <= s7.value && s7.value
            <= 504 && s7.value % 8 == 0,
        PairMemArg::PostIndexed(rn, s7) => reg_enc_ok_exec(&rn.reg) && -512 <= s7.value && s7.value
            <= 504 && s7.value % 8 == 0,
    }
}

impl Inst {
    /// Whether this instruction is ready to encode; `emit` requires it.
    pub fn emit_ready(&self) -> (b: bool)
        ensures
            b == self.wf_emit(),
    {
        match self {
            Inst::AluRRImm12 { rd, rn, imm12, .. } => reg_enc_ok_exec(&rd.reg) && reg_enc_ok_exec(
                rn,
            ) && imm12.bits < 4096,
            Inst::AluRRR { rd, rn, rm, .. } => reg_enc_ok_exec(&rd.reg) && reg_enc_ok_exec(rn)
                && reg_enc_ok_exec(rm),
            Inst::AluRRRExtend { rd, rn, rm, .. } => reg_enc_ok_exec(&rd.reg) && reg_enc_ok_exec(
                rn,
            ) && reg_enc_ok_exec(rm),
            Inst::Mov { rd, rm } => reg_enc_ok_exec(&rd.reg) && reg_enc_ok_exec(rm),
            Inst::Mov32 { rd, rm } => reg_enc_ok_exec(&rd.reg) && reg_enc_ok_exec(rm),
            Inst::FpuMov { rd, rm } => reg_enc_ok_exec(&rd.reg) && reg_enc_ok_exec(rm),
            Inst::ULoad64 { rd, mem } => reg_enc_ok_exec(&rd.reg) && mem_wf_exec(mem, 8),
            Inst::Store64 { rd, mem } => reg_enc_ok_exec(rd) && mem_wf_exec(mem, 8),
            Inst::FpuLoad32 { rd, mem } => reg_enc_ok_exec(&rd.reg) && mem_wf_exec(mem, 4),
            Inst::FpuLoad64 { rd, mem } => reg_enc_ok_exec(&rd.reg) && mem_wf_exec(mem, 8),
            Inst::FpuLoad128 { rd, mem } => reg_enc_ok_exec(&rd.reg) && mem_wf_exec(mem, 16),
            Inst::FpuStore32 { rd, mem } => reg_enc_ok_exec(rd) && mem_wf_exec(mem, 4),
            Inst::FpuStore64 { rd, mem } => reg_enc_ok_exec(rd) && mem_wf_exec(mem, 8),
            Inst::FpuStore128 { rd, mem } => reg_enc_ok_exec(rd) && mem_wf_exec(mem, 16),
            Inst::StoreP64 { rt, rt2, mem } => reg_enc_ok_exec(rt) && reg_enc_ok_exec(rt2)
                && pair_mem_wf_exec(mem),
            Inst::LoadP64 { rt, rt2, mem } => reg_enc_ok_exec(&rt.reg) && reg_enc_ok_exec(
                &rt2.reg,
            ) && pair_mem_wf_exec(mem),
            Inst::LoadConst64 { .. } => false,
            Inst::LdrLit { rd, rel } => reg_enc_ok_exec(&rd.reg) && *rel % 4 == 0 && -0x100000
                <= *rel && *rel < 0x100000,
            Inst::Jump { rel, .. } => *rel % 4 == 0 && -0x8000000 <= *rel && *rel < 0x8000000,
            Inst::CondBr { kind, compound, rel_taken, rel_not_taken, .. } => {
                let kr = match kind {
                    CondBrKind::Zero(r) => reg_enc_ok_exec(r),
                    CondBrKind::NotZero(r) => reg_enc_ok_exec(r),
                };
                kr && *rel_taken % 4 == 0 && -0x100000 <= *rel_taken && *rel_taken < 0x100000 && (
                !*compound || (*rel_not_taken % 4 == 0 && -0x8000000 <= *rel_not_taken
                    && *rel_not_taken < 0x8000000))
            },
            Inst::CallInd { rn, .. } => reg_enc_ok_exec(rn),
            _ => true,
        }
    }
}

} // verus!
