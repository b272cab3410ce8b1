//! The register universe: the ordered list of real registers offered to the
//! register allocator, with per-class allocatable ranges and a suggested
//! scratch register.
//!
//! The order of the list is the allocator's preference order.  Within each
//! class the caller-saved registers come first: preferring them keeps
//! callee-save stores and loads out of the prologue and epilogue, and the
//! allocator itself balances that against the clobber pressure it sees at
//! call sites.

use vstd::prelude::*;
use crate::regs::{
    RealReg, RegClass, spec_xreg_index, spec_vreg_index, ENC_SPILLTMP, ENC_PLATFORM, ENC_FP,
    ENC_LINK, ENC_SP, IDX_SPILLTMP, IDX_PLATFORM, IDX_FP, IDX_LINK, IDX_SP,
};

verus! {

/// The allocatable range of one register class inside the universe, and the
/// register the allocator should prefer for mandatory fix-up moves.
#[derive(Clone, Copy, Debug, PartialEq, Eq, Structural)]
pub struct RegClassInfo {
    pub first: usize,
    pub last: usize,
    pub suggested_scratch: usize,
}

/// The universe of real registers, in allocation-preference order.
pub struct RealRegUniverse {
    /// All registers.  The entry at position `i` has universe index `i`.
    pub regs: Vec<RealReg>,
    /// The first `allocable` entries are available to the allocator; the
    /// rest are the reserved tail (scratch, platform register, FP, LR, SP).
    pub allocable: usize,
    /// Allocatable range of the integer class.
    pub info_i64: RegClassInfo,
    /// Allocatable range of the vector class.
    pub info_v128: RegClassInfo,
}

/// AArch64 callee-saved registers: x19..x28 and v8..v15.
pub open spec fn spec_is_callee_saved(r: RealReg) -> bool {
    match r.class {
        RegClass::I64 => 19 <= r.enc && r.enc <= 28,
        RegClass::V128 => 8 <= r.enc && r.enc <= 15,
    }
}

/// AArch64 caller-saved registers: x0..x17, v0..v7 and v16..v31.
pub open spec fn spec_is_caller_saved(r: RealReg) -> bool {
    match r.class {
        RegClass::I64 => r.enc <= 17,
        RegClass::V128 => r.enc <= 7 || (16 <= r.enc && r.enc <= 31),
    }
}

impl RealRegUniverse {
    /// Universe indices are dense and self-describing, every entry has a
    /// valid encoding for its class, and within each class's allocatable
    /// range no callee-saved register comes before a caller-saved one.
    pub open spec fn wf(self) -> bool {
        &&& self.allocable <= self.regs@.len()
        &&& forall|i: int|
            0 <= i < self.regs@.len() ==> (#[trigger] self.regs@[i]).index == i
        &&& self.info_i64.first <= self.info_i64.last < self.allocable
        &&& self.info_v128.first <= self.info_v128.last < self.allocable
        &&& self.info_i64.first <= self.info_i64.suggested_scratch <= self.info_i64.last
        &&& self.info_v128.first <= self.info_v128.suggested_scratch <= self.info_v128.last
        &&& forall|i: int|
            self.info_i64.first <= i <= self.info_i64.last ==> (#[trigger] self.regs@[i]).class
                == RegClass::I64
        &&& forall|i: int|
            self.info_v128.first <= i <= self.info_v128.last ==> (#[trigger] self.regs@[i]).class
                == RegClass::V128
    }

    /// Within each class's allocatable range, no register that `saved`
    /// classifies as callee-saved comes before a caller-saved one: the
    /// allocator prefers registers that cost nothing in the prologue.
    pub open spec fn caller_saved_first(self, saved: spec_fn(RealReg) -> bool) -> bool {
        &&& forall|i: int, j: int|
            self.info_i64.first <= i < j <= self.info_i64.last && saved(
                #[trigger] self.regs@[i],
            ) ==> saved(#[trigger] self.regs@[j])
        &&& forall|i: int, j: int|
            self.info_v128.first <= i < j <= self.info_v128.last && saved(
                #[trigger] self.regs@[i],
            ) ==> saved(#[trigger] self.regs@[j])
    }
}

/// The register at position `i` of the AArch64 universe.
///
/// Layout: x0..x15 and x17 (caller-saved) at 0..17, x19..x28 (callee-saved)
/// at 17..27, v0..v7 and v16..v31 (caller-saved) at 27..51, v8..v15
/// (callee-saved) at 51..59, then the non-allocatable tail: x16 (fix-up
/// scratch), x18 (platform register), x29 (FP), x30 (LR), SP.
pub open spec fn spec_aarch64_reg(i: int) -> RealReg {
    if i < 16 {
        RealReg { class: RegClass::I64, enc: i as u8, index: i as u8 }
    } else if i == 16 {
        RealReg { class: RegClass::I64, enc: 17, index: 16 }
    } else if i < 27 {
        RealReg { class: RegClass::I64, enc: (i + 2) as u8, index: i as u8 }
    } else if i < 35 {
        RealReg { class: RegClass::V128, enc: (i - 27) as u8, index: i as u8 }
    } else if i < 51 {
        RealReg { class: RegClass::V128, enc: (i - 19) as u8, index: i as u8 }
    } else if i < 59 {
        RealReg { class: RegClass::V128, enc: (i - 43) as u8, index: i as u8 }
    } else if i == 59 {
        RealReg { class: RegClass::I64, enc: ENC_SPILLTMP, index: IDX_SPILLTMP }
    } else if i == 60 {
        RealReg { class: RegClass::I64, enc: ENC_PLATFORM, index: IDX_PLATFORM }
    } else if i == 61 {
        RealReg { class: RegClass::I64, enc: ENC_FP, index: IDX_FP }
    } else if i == 62 {
        RealReg { class: RegClass::I64, enc: ENC_LINK, index: IDX_LINK }
    } else {
        RealReg { class: RegClass::I64, enc: ENC_SP, index: IDX_SP }
    }
}

/// The AArch64 universe, entry by entry: 64 registers in the layout of
/// `spec_aarch64_reg`, 59 of them allocatable, with the stated class ranges
/// and suggested scratch registers.
pub open spec fn spec_aarch64_universe(u: RealRegUniverse) -> bool {
    &&& u.regs@.len() == 64
    &&& u.allocable == 59
    &&& u.info_i64 == (RegClassInfo { first: 0, last: 26, suggested_scratch: 26 })
    &&& u.info_v128 == (RegClassInfo { first: 27, last: 58, suggested_scratch: 58 })
    &&& forall|i: int| 0 <= i < 64 ==> #[trigger] u.regs@[i] == spec_aarch64_reg(i)
}

/// Build the AArch64 register universe.
///
/// The order is the allocation preference: within each class the
/// caller-saved registers come first.
pub fn create_reg_universe() -> (u: RealRegUniverse)
    ensures
        spec_aarch64_universe(u),
        u.wf(),
        u.caller_saved_first(|r: RealReg| spec_is_callee_saved(r)),
        forall|i: int|
            0 <= i < 27 ==> (#[trigger] u.regs@[i]).index == spec_xreg_index(u.regs@[i].enc),
        forall|i: int|
            27 <= i < 59 ==> (#[trigger] u.regs@[i]).index == spec_vreg_index(u.regs@[i].enc),
{
    let mut regs: Vec<RealReg> = Vec::new();
    // Caller-saved integer registers: x0..x15, then x17.
    let mut enc: u8 = 0;
    while enc < 16
        invariant
            enc <= 16,
            regs@.len() == enc,
            forall|i: int| 0 <= i < enc ==> #[trigger] regs@[i] == spec_aarch64_reg(i),
        decreases 16 - enc,
    {
        regs.push(RealReg { class: RegClass::I64, enc, index: enc });
        enc = enc + 1;
    }
    regs.push(RealReg { class: RegClass::I64, enc: 17, index: 16 });
    // Callee-saved integer registers: x19..x28.
    let mut enc: u8 = 19;
    while enc < 29
        invariant
            19 <= enc <= 29,
            regs@.len() == enc - 2,
            forall|i: int| 0 <= i < enc - 2 ==> #[trigger] regs@[i] == spec_aarch64_reg(i),
        decreases 29 - enc,
    {
        regs.push(RealReg { class: RegClass::I64, enc, index: enc - 2 });
        enc = enc + 1;
    }
    // Caller-saved vector registers: v0..v7, then v16..v31.
    let mut enc: u8 = 0;
    while enc < 8
        invariant
            enc <= 8,
            regs@.len() == 27 + enc,
            forall|i: int| 0 <= i < 27 + enc ==> #[trigger] regs@[i] == spec_aarch64_reg(i),
        decreases 8 - enc,
    {
        regs.push(RealReg { class: RegClass::V128, enc, index: 27 + enc });
        enc = enc + 1;
    }
    let mut enc: u8 = 16;
    while enc < 32
        invariant
            16 <= enc <= 32,
            regs@.len() == 19 + enc,
            forall|i: int| 0 <= i < 19 + enc ==> #[trigger] regs@[i] == spec_aarch64_reg(i),
        decreases 32 - enc,
    {
        regs.push(RealReg { class: RegClass::V128, enc, index: 19 + enc });
        enc = enc + 1;
    }
    // Callee-saved vector registers: v8..v15.
    let mut enc: u8 = 8;
    while enc < 16
        invariant
            8 <= enc <= 16,
            regs@.len() == 43 + enc,
            forall|i: int| 0 <= i < 43 + enc ==> #[trigger] regs@[i] == spec_aarch64_reg(i),
        decreases 16 - enc,
    {
        regs.push(RealReg { class: RegClass::V128, enc, index: 43 + enc });
        enc = enc + 1;
    }
    // Non-allocatable tail.
    regs.push(RealReg { class: RegClass::I64, enc: ENC_SPILLTMP, index: IDX_SPILLTMP });
    regs.push(RealReg { class: RegClass::I64, enc: ENC_PLATFORM, index: IDX_PLATFORM });
    regs.push(RealReg { class: RegClass::I64, enc: ENC_FP, index: IDX_FP });
    regs.push(RealReg { class: RegClass::I64, enc: ENC_LINK, index: IDX_LINK });
    regs.push(RealReg { class: RegClass::I64, enc: ENC_SP, index: IDX_SP });
    RealRegUniverse {
        regs,
        allocable: 59,
        info_i64: RegClassInfo { first: 0, last: 26, suggested_scratch: 26 },
        info_v128: RegClassInfo { first: 27, last: 58, suggested_scratch: 58 },
    }
}

} // verus!
