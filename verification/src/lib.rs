//! The core of a machine-code generation backend: lowering of an SSA
//! intermediate representation to virtual-register machine code (VCode),
//! the AArch64 ABI with its frame layout, prologue and epilogue, the glue
//! around an external register allocator, branch finalization, and binary
//! emission.  An x86-64 SystemV register universe is provided alongside the
//! AArch64 one.
//!
//! Everything here is verified: the VCode invariants (virtual registers in
//! range and of their recorded class; one terminator per block), the exact
//! byte encodings, the symmetry of prologue and epilogue, the 16-byte stack
//! alignment, the fusion rule for single-use constants, and the idempotence
//! of redundant-branch removal and of branch finalization.

use vstd::prelude::*;

verus! {

/// Align `x` up to the next multiple of 16. Stack frames and stack-argument
/// areas are kept 16-byte aligned throughout the backend.
pub fn align_to_16(x: u64) -> (r: u64)
    requires
        x + 15 <= u64::MAX,
    ensures
        r == spec_align16(x as int),
{
    let y: u64 = x + 15;
    proof {
        assert(y & !15u64 == y - (y % 16)) by (bit_vector);
        assert((y as int / 16) * 16 == y as int - (y as int % 16));
    }
    y & !15u64
}

/// The least multiple of 16 that is at least `x`.
pub open spec fn spec_align16(x: int) -> int {
    ((x + 15) / 16) * 16
}

/// The least multiple of 8 that is at least `x`.
pub open spec fn spec_align8(x: int) -> int {
    ((x + 7) / 8) * 8
}

} // verus!

pub mod abi;
pub mod backend;
pub mod binemit;
pub mod branch_splitting;
pub mod inst;
pub mod ir;
pub mod lower;
pub mod machinst;
pub mod regs;
pub mod settings;
pub mod universe;
pub mod vcode;
pub mod x64;
