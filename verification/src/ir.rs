//! The input intermediate representation: a function in SSA form, with
//! explicit entry-block parameters, a list of typed values, and blocks made
//! of simple instructions plus one terminator each.

use vstd::prelude::*;

verus! {

/// A value type.  `B*` are boolean types of the given width; `F32`/`F64`
/// name floating-point storage widths (the backend never computes with
/// floating point, it only moves such values).
#[derive(Clone, Copy, Debug, PartialEq, Eq, Structural, Hash)]
pub enum Type {
    I8,
    I16,
    I32,
    I64,
    B1,
    B8,
    B16,
    B32,
    B64,
    F32,
    F64,
}

impl Type {
    /// Size of a value of this type in memory, in bytes.
    pub open spec fn spec_bytes(self) -> u64 {
        match self {
            Type::I8 => 1,
            Type::I16 => 2,
            Type::I32 => 4,
            Type::I64 => 8,
            Type::B1 => 1,
            Type::B8 => 1,
            Type::B16 => 2,
            Type::B32 => 4,
            Type::B64 => 8,
            Type::F32 => 4,
            Type::F64 => 8,
        }
    }

    pub fn bytes(&self) -> (n: u64)
        ensures
            n == self.spec_bytes(),
    {
        match self {
            Type::I8 => 1,
            Type::I16 => 2,
            Type::I32 => 4,
            Type::I64 => 8,
            Type::B1 => 1,
            Type::B8 => 1,
            Type::B16 => 2,
            Type::B32 => 4,
            Type::B64 => 8,
            Type::F32 => 4,
            Type::F64 => 8,
        }
    }
}

/// A calling convention.
#[derive(Clone, Copy, Debug, PartialEq, Eq, Structural, Hash)]
pub enum CallConv {
    SystemV,
    BaldrdashSystemV,
    BaldrdashWindows,
}

impl CallConv {
    pub open spec fn spec_extends_baldrdash(self) -> bool {
        self is BaldrdashSystemV || self is BaldrdashWindows
    }

    /// Whether this convention is hosted by the Baldrdash runtime, which
    /// provides the frame itself: prologue and epilogue are then suppressed.
    pub fn extends_baldrdash(&self) -> (b: bool)
        ensures
            b == self.spec_extends_baldrdash(),
    {
        matches!(self, CallConv::BaldrdashSystemV | CallConv::BaldrdashWindows)
    }
}

/// The purpose of a function parameter.
#[derive(Clone, Copy, Debug, PartialEq, Eq, Structural, Hash)]
pub enum ArgumentPurpose {
    Normal,
    VMContext,
    StructReturn,
}

/// One parameter or return value in a signature.
#[derive(Clone, Copy, Debug, PartialEq, Eq, Structural, Hash)]
pub struct AbiParam {
    pub value_type: Type,
    pub purpose: ArgumentPurpose,
}

impl AbiParam {
    pub fn new(value_type: Type) -> (p: AbiParam)
        ensures
            p == (AbiParam { value_type, purpose: ArgumentPurpose::Normal }),
    {
        AbiParam { value_type, purpose: ArgumentPurpose::Normal }
    }
}

/// A function signature.
#[derive(Clone, Debug, PartialEq, Eq)]
pub struct Signature {
    pub params: Vec<AbiParam>,
    pub returns: Vec<AbiParam>,
    pub call_conv: CallConv,
}

/// The name of an external function, as namespace and index.
#[derive(Clone, Copy, Debug, PartialEq, Eq, Structural, Hash)]
pub struct ExternalName {
    pub namespace: u32,
    pub index: u32,
}

/// An opaque source location carried to the relocation records.
#[derive(Clone, Copy, Debug, PartialEq, Eq, Structural, Hash)]
pub struct SourceLoc {
    pub bits: u32,
}

/// An IR-declared stack allocation.
#[derive(Clone, Copy, Debug, PartialEq, Eq, Structural, Hash)]
pub struct StackSlotData {
    pub size: u32,
}

/// An SSA value index, into `Function::value_types`.
pub type Value = u32;

/// A block index, into `Function::blocks`.
pub type IrBlockIndex = u32;

/// A non-terminating IR instruction.
#[derive(Clone, Debug, PartialEq, Eq)]
pub enum InstData {
    /// `result = iconst imm`.
    Iconst { result: Value, imm: u64 },
    /// `result = iadd a, b`.
    Iadd { result: Value, a: Value, b: Value },
    /// A direct call.  Results beyond the register-passed ones are not
    /// modeled; `results` holds one value per return of `sig`.
    Call { sig: Signature, callee: ExternalName, args: Vec<Value>, results: Vec<Value>, loc: SourceLoc },
}

/// A block terminator.
#[derive(Clone, Debug, PartialEq, Eq)]
pub enum TermData {
    Return { args: Vec<Value> },
    Jump { dest: IrBlockIndex },
    /// Branch to `taken` if `arg` is non-zero, else to `not_taken`.
    Brnz { arg: Value, taken: IrBlockIndex, not_taken: IrBlockIndex },
}

/// A basic block: parameters (used only on the entry block, where they are
/// the function arguments), body instructions, and one terminator.
#[derive(Clone, Debug, PartialEq, Eq)]
pub struct Block {
    pub params: Vec<Value>,
    pub insts: Vec<InstData>,
    pub term: TermData,
}

/// An IR function.  Block 0 is the entry block.
#[derive(Clone, Debug, PartialEq, Eq)]
pub struct Function {
    pub name: ExternalName,
    pub signature: Signature,
    pub stack_slots: Vec<StackSlotData>,
    /// The type of each SSA value; values are indices into this list.
    pub value_types: Vec<Type>,
    pub blocks: Vec<Block>,
}

impl InstData {
    /// The value this instruction defines, if any.
    pub open spec fn spec_results(self) -> Seq<Value> {
        match self {
            InstData::Iconst { result, .. } => seq![result],
            InstData::Iadd { result, .. } => seq![result],
            InstData::Call { results, .. } => results@,
        }
    }

    /// The values this instruction reads.
    pub open spec fn spec_args(self) -> Seq<Value> {
        match self {
            InstData::Iconst { .. } => seq![],
            InstData::Iadd { a, b, .. } => seq![a, b],
            InstData::Call { args, .. } => args@,
        }
    }
}

impl TermData {
    /// The values this terminator reads.
    pub open spec fn spec_args(self) -> Seq<Value> {
        match self {
            TermData::Return { args } => args@,
            TermData::Jump { .. } => seq![],
            TermData::Brnz { arg, .. } => seq![arg],
        }
    }

    /// The blocks this terminator can transfer to.
    pub open spec fn spec_succs(self) -> Seq<IrBlockIndex> {
        match self {
            TermData::Return { .. } => seq![],
            TermData::Jump { dest } => seq![dest],
            TermData::Brnz { taken, not_taken, .. } => seq![taken, not_taken],
        }
    }
}

impl Function {
    pub open spec fn value_in_range(self, v: Value) -> bool {
        v < self.value_types@.len()
    }

    pub open spec fn values_in_range(self, vs: Seq<Value>) -> bool {
        forall|i: int| 0 <= i < vs.len() ==> self.value_in_range(#[trigger] vs[i])
    }

    pub open spec fn block_wf(self, b: Block) -> bool {
        &&& self.values_in_range(b.params@)
        &&& forall|i: int|
            0 <= i < b.insts@.len() ==> self.values_in_range((#[trigger] b.insts@[i]).spec_args())
                && self.values_in_range(b.insts@[i].spec_results())
        &&& self.values_in_range(b.term.spec_args())
        &&& forall|i: int|
            0 <= i < b.term.spec_succs().len() ==> #[trigger] b.term.spec_succs()[i]
                < self.blocks@.len()
    }

    /// Well-formedness as the lowering driver needs it: every value index is
    /// in range, every branch target names a block, and the entry block has
    /// one parameter per signature parameter.
    pub open spec fn wf(self) -> bool {
        &&& self.blocks@.len() >= 1
        &&& forall|b: int| 0 <= b < self.blocks@.len() ==> self.block_wf(#[trigger] self.blocks@[b])
        &&& self.blocks@[0].params@.len() == self.signature.params@.len()
    }
}

} // verus!
