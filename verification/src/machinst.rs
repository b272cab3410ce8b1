//! The machine-instruction interface: register references as the
//! target-independent layer sees them, per-operand constraints, terminator
//! classification, and the capabilities a target instruction set provides.

use vstd::prelude::*;
use crate::binemit::CodeSink;
use crate::regs::RegClass;

verus! {

/// A mask of register classes; bit `i` stands for class `i`.
pub type RegClassMask = u32;

/// A physical register unit: an index into the register universe.
pub type RegUnit = u8;

/// An index of a basic block inside a lowered function.
pub type BlockIndex = u32;

/// The mask with exactly the bit of class `rc` set.
pub open spec fn spec_class_mask(rc: RegClass) -> RegClassMask {
    match rc {
        RegClass::I64 => 1u32,
        RegClass::V128 => 2u32,
    }
}

/// A constraint on a register in a machine instruction.
#[derive(Clone, Copy, Debug, PartialEq, Eq, Structural)]
pub enum MachRegConstraint {
    /// Any register in the classes of the mask.
    RegClass(RegClassMask),
    /// A particular, fixed register.
    FixedReg(RegUnit),
}

impl MachRegConstraint {
    /// A constraint that chooses any register of the class `rc`.
    pub fn from_class(rc: RegClass) -> (c: MachRegConstraint)
        ensures
            c == MachRegConstraint::RegClass(spec_class_mask(rc)),
    {
        match rc {
            RegClass::I64 => MachRegConstraint::RegClass(1),
            RegClass::V128 => MachRegConstraint::RegClass(2),
        }
    }

    /// A constraint that pins the operand to the fixed register `ru`.
    pub fn from_fixed(ru: RegUnit) -> (c: MachRegConstraint)
        ensures
            c == MachRegConstraint::FixedReg(ru),
    {
        MachRegConstraint::FixedReg(ru)
    }
}

/// A register reference in a machine instruction.
#[derive(Clone, Copy, Debug, PartialEq, Eq, Structural)]
pub enum MachReg {
    /// Undefined; a placeholder.  An instruction with an undefined operand
    /// at emission time is a programmer error.
    Undefined,
    /// A virtual register.
    Virtual(usize),
    /// An allocated physical register.
    Allocated(RegUnit),
    /// The zero register.
    Zero,
}

impl MachReg {
    /// The zero register.
    pub fn zero() -> (r: MachReg)
        ensures
            r == MachReg::Zero,
    {
        MachReg::Zero
    }
}

/// The mode in which a register is mentioned by an instruction.
#[derive(Clone, Copy, Debug, PartialEq, Eq, Structural)]
pub enum MachRegMode {
    /// Read by the instruction.
    Use,
    /// Written by the instruction.
    Def,
    /// Both read and written.
    Modify,
}

/// A map from virtual register numbers to physical register units.
pub type MachLocations = Vec<RegUnit>;

/// Classification of an instruction as a block terminator.  The conditional
/// form names both destinations; in the encoded form the not-taken side
/// either falls through to the next block or is reached by an unconditional
/// branch that follows.
#[derive(Clone, Copy, Debug, PartialEq, Eq, Structural)]
pub enum MachTerminator {
    /// Not a terminator.
    NoTerm,
    /// A return instruction.
    Ret,
    /// An unconditional branch.
    Uncond(BlockIndex),
    /// A conditional branch to the taken and the not-taken target.
    Cond(BlockIndex, BlockIndex),
}

/// The capabilities a target's machine instruction must provide to the
/// target-independent layer.
pub trait MachInst {
    /// The registers this instruction mentions, with their modes.
    fn regs(&self) -> Vec<(MachReg, MachRegMode)>;

    /// Constraints, if any, on registers of this instruction.
    fn reg_constraints(&self) -> Vec<(MachReg, MachRegConstraint)>;

    /// Rewrite virtual registers to physical ones using the given map.
    fn map_virtregs(&mut self, locs: &MachLocations);

    /// If this is a simple move, the (source, destination) registers.
    fn is_move(&self) -> Option<(MachReg, MachReg)>;

    /// Whether this is a terminator, and of which kind.
    fn is_term(&self) -> MachTerminator;
}

/// The ability to encode an instruction into binary machine code.  The
/// bytes an instruction stands for are a specification; `size` and `emit`
/// must agree with it, so layout and emission can never diverge.
pub trait MachInstEmit {
    /// Whether this instruction is ready to encode.
    spec fn emit_wf(&self) -> bool;

    /// The bytes this instruction stands for.
    spec fn emitted(&self) -> Seq<u8>;

    /// The encoded size of the instruction in bytes.
    fn size(&self) -> (n: usize)
        ensures
            n == self.emitted().len(),
    ;

    /// Emit the instruction's bytes.
    fn emit(&self, sink: &mut CodeSink)
        requires
            self.emit_wf(),
        ensures
            final(sink).bytes@ == old(sink).bytes@ + self.emitted(),
    ;
}

} // verus!
