//! The x86-64 SystemV register universe and register display.
//!
//! As on AArch64, the caller-saved registers are placed first so that the
//! allocator prefers registers that need no prologue save and epilogue
//! restore; the allocator sees the opposing pressure at call sites because
//! every call clobbers the caller-saved set.

use vstd::prelude::*;
use crate::regs::{RealReg, Reg, RegClass, VirtualReg};
use crate::universe::{RegClassInfo, RealRegUniverse};
use crate::settings::Flags;

verus! {

// Hardware encodings for a few registers.
pub const ENC_RBX: u8 = 3;
pub const ENC_RSP: u8 = 4;
pub const ENC_RBP: u8 = 5;
pub const ENC_R12: u8 = 12;
pub const ENC_R13: u8 = 13;
pub const ENC_R14: u8 = 14;
pub const ENC_R15: u8 = 15;

/// x86-64 SystemV callee-saved registers: rbx, rbp, r12..r15.  No vector
/// register is callee-saved.
pub open spec fn spec_is_callee_saved_systemv(r: RealReg) -> bool {
    match r.class {
        RegClass::I64 => r.enc == ENC_RBX || r.enc == ENC_RBP || r.enc == ENC_R12 || r.enc
            == ENC_R13 || r.enc == ENC_R14 || r.enc == ENC_R15,
        RegClass::V128 => false,
    }
}

/// A general-purpose register with encoding `enc` at universe index
/// `index`.
pub fn gpr(enc: u8, index: u8) -> (r: Reg)
    ensures
        r == Reg::Real(RealReg { class: RegClass::I64, enc, index }),
{
    Reg::Real(RealReg { class: RegClass::I64, enc, index })
}

/// A vector register with encoding `enc` at universe index `index`.
pub fn fpr(enc: u8, index: u8) -> (r: Reg)
    ensures
        r == Reg::Real(RealReg { class: RegClass::V128, enc, index }),
{
    Reg::Real(RealReg { class: RegClass::V128, enc, index })
}

/// The register at position `i` of the SystemV universe: xmm0..xmm15, then
/// the caller-saved general-purpose registers rsi, rdi, rax, rcx, rdx,
/// r8..r11, then the callee-saved r12, r13, r14, rbx, then r15, rsp, rbp.
pub open spec fn spec_systemv_reg(i: int) -> RealReg {
    if i < 16 {
        RealReg { class: RegClass::V128, enc: i as u8, index: i as u8 }
    } else {
        let enc: u8 = if i == 16 {
            6
        } else if i == 17 {
            7
        } else if i == 18 {
            0
        } else if i == 19 {
            1
        } else if i == 20 {
            2
        } else if i == 21 {
            8
        } else if i == 22 {
            9
        } else if i == 23 {
            10
        } else if i == 24 {
            11
        } else if i == 25 {
            ENC_R12
        } else if i == 26 {
            ENC_R13
        } else if i == 27 {
            ENC_R14
        } else if i == 28 {
            ENC_RBX
        } else if i == 29 {
            ENC_R15
        } else if i == 30 {
            ENC_RSP
        } else {
            ENC_RBP
        };
        RealReg { class: RegClass::I64, enc, index: i as u8 }
    }
}

/// The SystemV universe, entry by entry: 32 registers in the layout of
/// `spec_systemv_reg`, with the stated allocatable ranges and suggested
/// scratch registers; r15 is withheld from the allocator when it is pinned
/// for the host runtime.
pub open spec fn spec_systemv_universe(u: RealRegUniverse, use_pinned_reg: bool) -> bool {
    &&& u.regs@.len() == 32
    &&& u.allocable == (if use_pinned_reg {
        29int
    } else {
        30int
    })
    &&& u.info_v128 == (RegClassInfo { first: 0, last: 15, suggested_scratch: 15 })
    &&& u.info_i64 == (RegClassInfo {
        first: 16,
        last: (if use_pinned_reg {
            28int
        } else {
            29int
        }) as usize,
        suggested_scratch: 25,
    })
    &&& forall|i: int| 0 <= i < 32 ==> #[trigger] u.regs@[i] == spec_systemv_reg(i)
}

/// Every x86-64 register by name.  `pinned_reg` is r15 when the pinned
/// register is enabled, and absent otherwise.
#[derive(Clone)]
pub struct RegDefs {
    pub xmm0: Reg,
    pub xmm1: Reg,
    pub xmm2: Reg,
    pub xmm3: Reg,
    pub xmm4: Reg,
    pub xmm5: Reg,
    pub xmm6: Reg,
    pub xmm7: Reg,
    pub xmm8: Reg,
    pub xmm9: Reg,
    pub xmm10: Reg,
    pub xmm11: Reg,
    pub xmm12: Reg,
    pub xmm13: Reg,
    pub xmm14: Reg,
    pub xmm15: Reg,
    pub rsi: Reg,
    pub rdi: Reg,
    pub rax: Reg,
    pub rcx: Reg,
    pub rdx: Reg,
    pub r8: Reg,
    pub r9: Reg,
    pub r10: Reg,
    pub r11: Reg,
    pub r12: Reg,
    pub r13: Reg,
    pub r14: Reg,
    pub r15: Reg,
    pub rbx: Reg,
    pub rsp: Reg,
    pub rbp: Reg,
    /// The register reserved for the host runtime when pinning is enabled.
    pub pinned_reg: Option<Reg>,
}

/// The x86-64 register definitions together with the universe offered to
/// the allocator.
pub struct Registers {
    pub defs: RegDefs,
    pub universe: RealRegUniverse,
}

impl Registers {
    /// Build the SystemV universe: xmm0..xmm15 first, then the caller-saved
    /// general-purpose registers rsi, rdi, rax, rcx, rdx, r8..r11, then the
    /// callee-saved r12, r13, r14, rbx, then r15 (allocatable only when no
    /// pinned register is requested), and the non-allocatable rsp and rbp.
    pub fn systemv(use_pinned_reg: bool) -> (r: Registers)
        ensures
            spec_systemv_universe(r.universe, use_pinned_reg),
            r.universe.wf(),
            r.universe.caller_saved_first(|rr: RealReg| spec_is_callee_saved_systemv(rr)),
            r.universe.regs@.len() == 32,
            r.universe.allocable == (if use_pinned_reg {
                29int
            } else {
                30int
            }),
            r.universe.info_v128 == (RegClassInfo { first: 0, last: 15, suggested_scratch: 15 }),
            r.universe.info_i64 == (RegClassInfo {
                first: 16,
                last: (if use_pinned_reg {
                    28int
                } else {
                    29int
                }) as usize,
                suggested_scratch: 25,
            }),
            forall|i: int|
                0 <= i < 16 ==> #[trigger] r.universe.regs@[i] == (RealReg {
                    class: RegClass::V128,
                    enc: i as u8,
                    index: i as u8,
                }),
            r.defs.rsi == Reg::Real(r.universe.regs@[16]) && r.universe.regs@[16].enc == 6,
            r.defs.rdi == Reg::Real(r.universe.regs@[17]) && r.universe.regs@[17].enc == 7,
            r.defs.rax == Reg::Real(r.universe.regs@[18]) && r.universe.regs@[18].enc == 0,
            r.defs.rcx == Reg::Real(r.universe.regs@[19]) && r.universe.regs@[19].enc == 1,
            r.defs.rdx == Reg::Real(r.universe.regs@[20]) && r.universe.regs@[20].enc == 2,
            r.defs.r8 == Reg::Real(r.universe.regs@[21]) && r.universe.regs@[21].enc == 8,
            r.defs.r9 == Reg::Real(r.universe.regs@[22]) && r.universe.regs@[22].enc == 9,
            r.defs.r10 == Reg::Real(r.universe.regs@[23]) && r.universe.regs@[23].enc == 10,
            r.defs.r11 == Reg::Real(r.universe.regs@[24]) && r.universe.regs@[24].enc == 11,
            r.defs.r12 == Reg::Real(r.universe.regs@[25]) && r.universe.regs@[25].enc == ENC_R12,
            r.defs.r13 == Reg::Real(r.universe.regs@[26]) && r.universe.regs@[26].enc == ENC_R13,
            r.defs.r14 == Reg::Real(r.universe.regs@[27]) && r.universe.regs@[27].enc == ENC_R14,
            r.defs.rbx == Reg::Real(r.universe.regs@[28]) && r.universe.regs@[28].enc == ENC_RBX,
            r.defs.r15 == Reg::Real(r.universe.regs@[29]) && r.universe.regs@[29].enc == ENC_R15,
            r.defs.rsp == Reg::Real(r.universe.regs@[30]) && r.universe.regs@[30].enc == ENC_RSP,
            r.defs.rbp == Reg::Real(r.universe.regs@[31]) && r.universe.regs@[31].enc == ENC_RBP,
            r.defs.pinned_reg == (if use_pinned_reg {
                Some(r.defs.r15)
            } else {
                Option::<Reg>::None
            }),
    {
        let mut regs: Vec<RealReg> = Vec::new();
        // All the vector registers first.
        let mut enc: u8 = 0;
        while enc < 16
            invariant
                enc <= 16,
                regs@.len() == enc,
                forall|i: int| 0 <= i < enc ==> #[trigger] regs@[i] == spec_systemv_reg(i),
            decreases 16 - enc,
        {
            regs.push(RealReg { class: RegClass::V128, enc, index: enc });
            enc = enc + 1;
        }
        let xmm0 = fpr(0, 0);
        let xmm15 = fpr(15, 15);
        // Caller-saved general-purpose registers.
        let rsi = gpr(6, 16);
        regs.push(RealReg { class: RegClass::I64, enc: 6, index: 16 });
        let rdi = gpr(7, 17);
        regs.push(RealReg { class: RegClass::I64, enc: 7, index: 17 });
        let rax = gpr(0, 18);
        regs.push(RealReg { class: RegClass::I64, enc: 0, index: 18 });
        let rcx = gpr(1, 19);
        regs.push(RealReg { class: RegClass::I64, enc: 1, index: 19 });
        let rdx = gpr(2, 20);
        regs.push(RealReg { class: RegClass::I64, enc: 2, index: 20 });
        let r8 = gpr(8, 21);
        regs.push(RealReg { class: RegClass::I64, enc: 8, index: 21 });
        let r9 = gpr(9, 22);
        regs.push(RealReg { class: RegClass::I64, enc: 9, index: 22 });
        let r10 = gpr(10, 23);
        regs.push(RealReg { class: RegClass::I64, enc: 10, index: 23 });
        let r11 = gpr(11, 24);
        regs.push(RealReg { class: RegClass::I64, enc: 11, index: 24 });
        // Callee-saved general-purpose registers.
        let r12 = gpr(ENC_R12, 25);
        regs.push(RealReg { class: RegClass::I64, enc: ENC_R12, index: 25 });
        let r13 = gpr(ENC_R13, 26);
        regs.push(RealReg { class: RegClass::I64, enc: ENC_R13, index: 26 });
        let r14 = gpr(ENC_R14, 27);
        regs.push(RealReg { class: RegClass::I64, enc: ENC_R14, index: 27 });
        let rbx = gpr(ENC_RBX, 28);
        regs.push(RealReg { class: RegClass::I64, enc: ENC_RBX, index: 28 });
        // r15 is reserved for the host runtime when pinning is enabled; the
        // allocatable range then stops just before it.
        let r15 = gpr(ENC_R15, 29);
        regs.push(RealReg { class: RegClass::I64, enc: ENC_R15, index: 29 });
        let (pinned_reg, allocable): (Option<Reg>, usize) = if use_pinned_reg {
            (Some(r15), 29)
        } else {
            (None, 30)
        };
        // Never allocatable: the stack and frame pointers.
        let rsp = gpr(ENC_RSP, 30);
        regs.push(RealReg { class: RegClass::I64, enc: ENC_RSP, index: 30 });
        let rbp = gpr(ENC_RBP, 31);
        regs.push(RealReg { class: RegClass::I64, enc: ENC_RBP, index: 31 });
        let defs = RegDefs {
            xmm0,
            xmm1: fpr(1, 1),
            xmm2: fpr(2, 2),
            xmm3: fpr(3, 3),
            xmm4: fpr(4, 4),
            xmm5: fpr(5, 5),
            xmm6: fpr(6, 6),
            xmm7: fpr(7, 7),
            xmm8: fpr(8, 8),
            xmm9: fpr(9, 9),
            xmm10: fpr(10, 10),
            xmm11: fpr(11, 11),
            xmm12: fpr(12, 12),
            xmm13: fpr(13, 13),
            xmm14: fpr(14, 14),
            xmm15,
            rsi,
            rdi,
            rax,
            rcx,
            rdx,
            r8,
            r9,
            r10,
            r11,
            r12,
            r13,
            r14,
            rbx,
            r15,
            rsp,
            rbp,
            pinned_reg,
        };
        let universe = RealRegUniverse {
            regs,
            allocable,
            info_i64: RegClassInfo {
                first: 16,
                last: if use_pinned_reg {
                    28
                } else {
                    29
                },
                suggested_scratch: 25,
            },
            info_v128: RegClassInfo { first: 0, last: 15, suggested_scratch: 15 },
        };
        proof {
            assert forall|i: int| 0 <= i < 32 implies #[trigger] universe.regs@[i]
                == spec_systemv_reg(i) by {}
        }
        Registers { defs, universe }
    }
}

/// Create the register universe for x86-64, assuming the SystemV calling
/// convention.
pub fn create_reg_universe_systemv(flags: &Flags) -> (r: Registers)
    ensures
        spec_systemv_universe(r.universe, flags.enable_pinned_reg),
        r.universe.wf(),
        r.universe.caller_saved_first(|rr: RealReg| spec_is_callee_saved_systemv(rr)),
        r.defs.pinned_reg == (if flags.enable_pinned_reg {
            Some(Reg::Real(spec_systemv_reg(29)))
        } else {
            Option::<Reg>::None
        }),
{
    Registers::systemv(flags.enable_pinned_reg)
}

/// The decimal digits of `n`, most significant first.
pub open spec fn spec_decimal(n: int) -> Seq<char>
    decreases n,
{
    if n < 0 {
        Seq::empty()
    } else if n < 10 {
        seq![spec_digit_char(n)]
    } else {
        spec_decimal(n / 10) + seq![spec_digit_char(n % 10)]
    }
}

pub open spec fn spec_digit_char(d: int) -> char {
    if d == 0 {
        '0'
    } else if d == 1 {
        '1'
    } else if d == 2 {
        '2'
    } else if d == 3 {
        '3'
    } else if d == 4 {
        '4'
    } else if d == 5 {
        '5'
    } else if d == 6 {
        '6'
    } else if d == 7 {
        '7'
    } else if d == 8 {
        '8'
    } else {
        '9'
    }
}

fn digit_str(d: u32) -> (r: &'static str)
    requires
        d < 10,
    ensures
        r@ =~= seq![spec_digit_char(d as int)],
{
    proof {
        reveal_strlit("0");
        reveal_strlit("1");
        reveal_strlit("2");
        reveal_strlit("3");
        reveal_strlit("4");
        reveal_strlit("5");
        reveal_strlit("6");
        reveal_strlit("7");
        reveal_strlit("8");
        reveal_strlit("9");
    }
    if d == 0 {
        "0"
    } else if d == 1 {
        "1"
    } else if d == 2 {
        "2"
    } else if d == 3 {
        "3"
    } else if d == 4 {
        "4"
    } else if d == 5 {
        "5"
    } else if d == 6 {
        "6"
    } else if d == 7 {
        "7"
    } else if d == 8 {
        "8"
    } else {
        "9"
    }
}

/// Append the decimal form of `n`.
fn append_decimal(s: &mut String, n: u32)
    ensures
        final(s)@ == old(s)@ + spec_decimal(n as int),
    decreases n,
{
    if n >= 10 {
        append_decimal(s, n / 10);
    }
    s.append(digit_str(n % 10));
    proof {
        assert(s@ =~= old(s)@ + spec_decimal(n as int));
    }
}

/// The display name of an x86-64 register: general-purpose and vector
/// registers by their hardware names, virtual registers as `%v` and their
/// number.
pub open spec fn spec_show_reg(r: Reg) -> Seq<char> {
    match r {
        Reg::Real(rr) => match rr.class {
            RegClass::I64 => spec_gpr_name(rr.enc),
            RegClass::V128 => spec_xmm_name(rr.enc),
        },
        Reg::Virtual(v) => "%v"@ + spec_decimal(v.index as int),
    }
}

pub open spec fn spec_gpr_name(enc: u8) -> Seq<char> {
    if enc == 0 {
        "%rax"@
    } else if enc == 1 {
        "%rcx"@
    } else if enc == 2 {
        "%rdx"@
    } else if enc == 3 {
        "%rbx"@
    } else if enc == 4 {
        "%rsp"@
    } else if enc == 5 {
        "%rbp"@
    } else if enc == 6 {
        "%rsi"@
    } else if enc == 7 {
        "%rdi"@
    } else if enc == 8 {
        "%r8"@
    } else if enc == 9 {
        "%r9"@
    } else if enc == 10 {
        "%r10"@
    } else if enc == 11 {
        "%r11"@
    } else if enc == 12 {
        "%r12"@
    } else if enc == 13 {
        "%r13"@
    } else if enc == 14 {
        "%r14"@
    } else {
        "%r15"@
    }
}

pub open spec fn spec_xmm_name(enc: u8) -> Seq<char> {
    "%xmm"@ + spec_decimal(enc as int)
}

/// The display name of a register.
pub fn show_reg(r: Reg) -> (s: String)
    ensures
        s@ == spec_show_reg(r),
{
    match r {
        Reg::Real(rr) => match rr.class {
            RegClass::I64 => {
                let name: &str = if rr.enc == 0 {
                    "%rax"
                } else if rr.enc == 1 {
                    "%rcx"
                } else if rr.enc == 2 {
                    "%rdx"
                } else if rr.enc == 3 {
                    "%rbx"
                } else if rr.enc == 4 {
                    "%rsp"
                } else if rr.enc == 5 {
                    "%rbp"
                } else if rr.enc == 6 {
                    "%rsi"
                } else if rr.enc == 7 {
                    "%rdi"
                } else if rr.enc == 8 {
                    "%r8"
                } else if rr.enc == 9 {
                    "%r9"
                } else if rr.enc == 10 {
                    "%r10"
                } else if rr.enc == 11 {
                    "%r11"
                } else if rr.enc == 12 {
                    "%r12"
                } else if rr.enc == 13 {
                    "%r13"
                } else if rr.enc == 14 {
                    "%r14"
                } else {
                    "%r15"
                };
                String::from_str(name)
            },
            RegClass::V128 => {
                let mut s = String::from_str("%xmm");
                append_decimal(&mut s, rr.enc as u32);
                s
            },
        },
        Reg::Virtual(v) => {
            let mut s = String::from_str("%v");
            append_decimal(&mut s, v.index);
            s
        },
    }
}

/// The name of the `size`-byte form of the general-purpose register `enc`:
/// `%rax` becomes `%eax`, `%ax` or `%al`, and so on.
pub open spec fn spec_sized_gpr_name(enc: u8, size: u8) -> Seq<char> {
    if size == 4 {
        if enc == 0 {
            "%eax"@
        } else if enc == 1 {
            "%ecx"@
        } else if enc == 2 {
            "%edx"@
        } else if enc == 3 {
            "%ebx"@
        } else if enc == 4 {
            "%esp"@
        } else if enc == 5 {
            "%ebp"@
        } else if enc == 6 {
            "%esi"@
        } else if enc == 7 {
            "%edi"@
        } else {
            spec_gpr_name(enc) + "d"@
        }
    } else if size == 2 {
        if enc == 0 {
            "%ax"@
        } else if enc == 1 {
            "%cx"@
        } else if enc == 2 {
            "%dx"@
        } else if enc == 3 {
            "%bx"@
        } else if enc == 4 {
            "%sp"@
        } else if enc == 5 {
            "%bp"@
        } else if enc == 6 {
            "%si"@
        } else if enc == 7 {
            "%di"@
        } else {
            spec_gpr_name(enc) + "w"@
        }
    } else {
        if enc == 0 {
            "%al"@
        } else if enc == 1 {
            "%cl"@
        } else if enc == 2 {
            "%dl"@
        } else if enc == 3 {
            "%bl"@
        } else if enc == 4 {
            "%spl"@
        } else if enc == 5 {
            "%bpl"@
        } else if enc == 6 {
            "%sil"@
        } else if enc == 7 {
            "%dil"@
        } else {
            spec_gpr_name(enc) + "b"@
        }
    }
}

/// The name `show_ireg_sized` gives a register: an integer register viewed
/// at fewer than 8 bytes shows under its narrower name, a virtual integer
/// register gains an `l`, `w` or `b` suffix, and anything else shows under
/// its plain name.
pub open spec fn spec_show_ireg_sized(r: Reg, size: u8) -> Seq<char> {
    if r.spec_class() != RegClass::I64 || size == 8 {
        spec_show_reg(r)
    } else {
        match r {
            Reg::Real(rr) => spec_sized_gpr_name(rr.enc, size),
            Reg::Virtual(_) => spec_show_reg(r) + (if size == 4 {
                "l"@
            } else if size == 2 {
                "w"@
            } else {
                "b"@
            }),
        }
    }
}

/// Show an integer-class register at a smaller operand size (4, 2 or 1
/// bytes), using the architectural sub-register names for real registers
/// and a size suffix for virtual ones.
pub fn show_ireg_sized(reg: Reg, size: u8) -> (s: String)
    requires
        size == 1 || size == 2 || size == 4 || size == 8,
        reg is Real ==> reg->Real_0.enc <= 15,
    ensures
        s@ == spec_show_ireg_sized(reg, size),
{
    if !matches!(reg.get_class(), RegClass::I64) || size == 8 {
        return show_reg(reg);
    }
    match reg {
        Reg::Real(rr) => {
            let name: &str = if size == 4 {
                if rr.enc == 0 {
                    "%eax"
                } else if rr.enc == 1 {
                    "%ecx"
                } else if rr.enc == 2 {
                    "%edx"
                } else if rr.enc == 3 {
                    "%ebx"
                } else if rr.enc == 4 {
                    "%esp"
                } else if rr.enc == 5 {
                    "%ebp"
                } else if rr.enc == 6 {
                    "%esi"
                } else if rr.enc == 7 {
                    "%edi"
                } else {
                    ""
                }
            } else if size == 2 {
                if rr.enc == 0 {
                    "%ax"
                } else if rr.enc == 1 {
                    "%cx"
                } else if rr.enc == 2 {
                    "%dx"
                } else if rr.enc == 3 {
                    "%bx"
                } else if rr.enc == 4 {
                    "%sp"
                } else if rr.enc == 5 {
                    "%bp"
                } else if rr.enc == 6 {
                    "%si"
                } else if rr.enc == 7 {
                    "%di"
                } else {
                    ""
                }
            } else {
                if rr.enc == 0 {
                    "%al"
                } else if rr.enc == 1 {
                    "%cl"
                } else if rr.enc == 2 {
                    "%dl"
                } else if rr.enc == 3 {
                    "%bl"
                } else if rr.enc == 4 {
                    "%spl"
                } else if rr.enc == 5 {
                    "%bpl"
                } else if rr.enc == 6 {
                    "%sil"
                } else if rr.enc == 7 {
                    "%dil"
                } else {
                    ""
                }
            };
            if rr.enc <= 7 {
                String::from_str(name)
            } else {
                // r8..r15 gain a plain size suffix on their full name.
                let mut s = show_reg(reg);
                let suffix: &str = if size == 4 {
                    "d"
                } else if size == 2 {
                    "w"
                } else {
                    "b"
                };
                s.append(suffix);
                s
            }
        },
        Reg::Virtual(_) => {
            let mut s = show_reg(reg);
            let suffix: &str = if size == 4 {
                "l"
            } else if size == 2 {
                "w"
            } else {
                "b"
            };
            s.append(suffix);
            s
        },
    }
}

} // verus!
