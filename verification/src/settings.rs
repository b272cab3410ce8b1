//! Compilation settings recognized by this backend.

use vstd::prelude::*;

verus! {

/// The flag set: whether a register is pinned for runtime use, whether
/// stack probes are emitted, and how many extra stack words the Baldrdash
/// host runtime reserves in the prologue.
#[derive(Clone, Copy, Debug, PartialEq, Eq, Structural)]
pub struct Flags {
    pub enable_pinned_reg: bool,
    pub enable_probestack: bool,
    pub baldrdash_prologue_words: u32,
}

impl Flags {
    /// The default flags: no pinned register, no stack probes, no host
    /// prologue words.
    pub fn new() -> (f: Flags)
        ensures
            f == (Flags {
                enable_pinned_reg: false,
                enable_probestack: false,
                baldrdash_prologue_words: 0u32,
            }),
    {
        Flags { enable_pinned_reg: false, enable_probestack: false, baldrdash_prologue_words: 0 }
    }
}

} // verus!
