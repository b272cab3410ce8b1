//! The AArch64 backend object: settings and the register universe.

use vstd::prelude::*;
use crate::settings::Flags;
use crate::universe::{
    RealRegUniverse, create_reg_universe, spec_aarch64_universe, spec_is_callee_saved,
};

verus! {

/// An AArch64 backend.
pub struct Arm64Backend {
    pub flags: Flags,
}

impl Arm64Backend {
    /// Create a new AArch64 backend with default settings.
    pub fn new() -> (b: Arm64Backend)
        ensures
            b.flags == (Flags {
                enable_pinned_reg: false,
                enable_probestack: false,
                baldrdash_prologue_words: 0u32,
            }),
    {
        Arm64Backend { flags: Flags::new() }
    }

    /// The backend's settings.
    pub fn flags(&self) -> (f: &Flags)
        ensures
            f == self.flags,
    {
        &self.flags
    }

    /// The register universe this backend offers to the allocator: the
    /// AArch64 universe, entry by entry.
    pub fn reg_universe(&self) -> (u: RealRegUniverse)
        ensures
            spec_aarch64_universe(u),
            u.wf(),
            u.caller_saved_first(|r| spec_is_callee_saved(r)),
    {
        create_reg_universe()
    }
}

} // verus!
