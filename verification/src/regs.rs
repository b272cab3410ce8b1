//! Register references and the AArch64 register universe.
//!
//! A register is either virtual (assigned during lowering, with a class) or
//! real (a hardware register with its encoding and its index in the
//! universe).  The universe enumerates the real registers in allocation
//! order: caller-saved registers come before callee-saved ones, so that the
//! allocator prefers registers that cost nothing to save in the prologue.

use vstd::prelude::*;

verus! {

/// A register class: 64-bit integer registers or 128-bit vector registers.
#[derive(Clone, Copy, Debug, PartialEq, Eq, Structural, Hash)]
pub enum RegClass {
    I64,
    V128,
}

/// A real (hardware) register: its class, its hardware encoding, and its
/// index in the register universe.
#[derive(Clone, Copy, Debug, PartialEq, Eq, Structural, Hash)]
pub struct RealReg {
    pub class: RegClass,
    pub enc: u8,
    pub index: u8,
}

/// A virtual register, assigned during lowering.  Every virtual register
/// carries its class.
#[derive(Clone, Copy, Debug, PartialEq, Eq, Structural, Hash)]
pub struct VirtualReg {
    pub class: RegClass,
    pub index: u32,
}

/// A register reference: virtual before allocation, real after.
#[derive(Clone, Copy, Debug, PartialEq, Eq, Structural, Hash)]
pub enum Reg {
    Real(RealReg),
    Virtual(VirtualReg),
}

/// The mode in which an instruction mentions a register.
#[derive(Clone, Copy, Debug, PartialEq, Eq, Structural, Hash)]
pub enum RegMode {
    Use,
    Def,
    Modify,
}

impl RealReg {
    pub fn get_class(&self) -> (c: RegClass)
        ensures
            c == self.class,
    {
        self.class
    }

    pub fn get_hw_encoding(&self) -> (e: u8)
        ensures
            e == self.enc,
    {
        self.enc
    }

    pub fn get_index(&self) -> (i: u8)
        ensures
            i == self.index,
    {
        self.index
    }

    pub fn to_reg(&self) -> (r: Reg)
        ensures
            r == Reg::Real(*self),
    {
        Reg::Real(*self)
    }
}

impl Reg {
    pub open spec fn spec_class(self) -> RegClass {
        match self {
            Reg::Real(r) => r.class,
            Reg::Virtual(v) => v.class,
        }
    }

    pub fn get_class(&self) -> (c: RegClass)
        ensures
            c == self.spec_class(),
    {
        match self {
            Reg::Real(r) => r.class,
            Reg::Virtual(v) => v.class,
        }
    }

    pub open spec fn spec_is_real(self) -> bool {
        self is Real
    }

    pub fn is_real(&self) -> (b: bool)
        ensures
            b == self.spec_is_real(),
    {
        matches!(self, Reg::Real(_))
    }

    pub fn is_virtual(&self) -> (b: bool)
        ensures
            b == !self.spec_is_real(),
    {
        matches!(self, Reg::Virtual(_))
    }

    pub fn to_real_reg(&self) -> (r: RealReg)
        requires
            self.spec_is_real(),
        ensures
            Reg::Real(r) == *self,
    {
        match self {
            Reg::Real(r) => *r,
            Reg::Virtual(_) => {
                proof {
                    assert(false);
                }
                RealReg { class: RegClass::I64, enc: 0, index: 0 }
            },
        }
    }
}

/// A wrapper that marks a register slot as written by an instruction.
#[derive(Clone, Copy, Debug, PartialEq, Eq, Structural, Hash)]
pub struct Writable<R> {
    pub reg: R,
}

impl<R: Copy> Writable<R> {
    pub fn from_reg(reg: R) -> (w: Writable<R>)
        ensures
            w.reg == reg,
    {
        Writable { reg }
    }

    pub fn to_reg(&self) -> (r: R)
        ensures
            r == self.reg,
    {
        self.reg
    }
}

// Hardware encodings of the special AArch64 registers.
pub const ENC_SPILLTMP: u8 = 16;
pub const ENC_PLATFORM: u8 = 18;
pub const ENC_FP: u8 = 29;
pub const ENC_LINK: u8 = 30;
pub const ENC_SP: u8 = 31;
pub const ENC_ZERO: u8 = 31;

// Universe indices of the special AArch64 registers (the non-allocatable
// tail of the universe).
pub const IDX_SPILLTMP: u8 = 59;
pub const IDX_PLATFORM: u8 = 60;
pub const IDX_FP: u8 = 61;
pub const IDX_LINK: u8 = 62;
pub const IDX_SP: u8 = 63;
/// The zero register is a sentinel, not a universe entry.
pub const IDX_ZERO: u8 = 64;

/// Universe index of the integer register with hardware encoding `enc`.
/// The universe lists x0..x15 and x17 (caller-saved), then x19..x28
/// (callee-saved), then the non-allocatable tail.
pub open spec fn spec_xreg_index(enc: u8) -> u8 {
    if enc <= 15 {
        enc
    } else if enc == 17 {
        16
    } else if 19 <= enc && enc <= 28 {
        (enc - 2) as u8
    } else if enc == 16 {
        IDX_SPILLTMP
    } else if enc == 18 {
        IDX_PLATFORM
    } else if enc == 29 {
        IDX_FP
    } else {
        IDX_LINK
    }
}

/// An integer register by hardware encoding.
pub fn xreg(enc: u8) -> (r: Reg)
    requires
        enc <= 30,
    ensures
        r == Reg::Real(
            RealReg { class: RegClass::I64, enc, index: spec_xreg_index(enc) },
        ),
{
    let index: u8 = if enc <= 15 {
        enc
    } else if enc == 17 {
        16
    } else if 19 <= enc && enc <= 28 {
        enc - 2
    } else if enc == 16 {
        IDX_SPILLTMP
    } else if enc == 18 {
        IDX_PLATFORM
    } else if enc == 29 {
        IDX_FP
    } else {
        IDX_LINK
    };
    Reg::Real(RealReg { class: RegClass::I64, enc, index })
}

pub fn writable_xreg(enc: u8) -> (w: Writable<Reg>)
    requires
        enc <= 30,
    ensures
        w.reg == Reg::Real(
            RealReg { class: RegClass::I64, enc, index: spec_xreg_index(enc) },
        ),
{
    Writable { reg: xreg(enc) }
}

/// Universe index of the vector register with hardware encoding `enc`.
/// The universe lists v0..v7 and v16..v31 (caller-saved), then v8..v15
/// (callee-saved).
pub open spec fn spec_vreg_index(enc: u8) -> u8 {
    if enc <= 7 {
        (27 + enc) as u8
    } else if 16 <= enc && enc <= 31 {
        (19 + enc) as u8
    } else {
        (43 + enc) as u8
    }
}

/// A vector register by hardware encoding.
pub fn vreg(enc: u8) -> (r: Reg)
    requires
        enc <= 31,
    ensures
        r == Reg::Real(
            RealReg { class: RegClass::V128, enc, index: spec_vreg_index(enc) },
        ),
{
    let index: u8 = if enc <= 7 {
        27 + enc
    } else if 16 <= enc {
        19 + enc
    } else {
        43 + enc
    };
    Reg::Real(RealReg { class: RegClass::V128, enc, index })
}

pub fn writable_vreg(enc: u8) -> (w: Writable<Reg>)
    requires
        enc <= 31,
    ensures
        w.reg == Reg::Real(
            RealReg { class: RegClass::V128, enc, index: spec_vreg_index(enc) },
        ),
{
    Writable { reg: vreg(enc) }
}

pub open spec fn spec_stack_reg() -> Reg {
    Reg::Real(RealReg { class: RegClass::I64, enc: ENC_SP, index: IDX_SP })
}

/// The stack pointer.
pub fn stack_reg() -> (r: Reg)
    ensures
        r == spec_stack_reg(),
{
    Reg::Real(RealReg { class: RegClass::I64, enc: ENC_SP, index: IDX_SP })
}

pub fn writable_stack_reg() -> (w: Writable<Reg>)
    ensures
        w.reg == spec_stack_reg(),
{
    Writable { reg: stack_reg() }
}

pub open spec fn spec_fp_reg() -> Reg {
    Reg::Real(RealReg { class: RegClass::I64, enc: ENC_FP, index: IDX_FP })
}

/// The frame pointer, x29.
pub fn fp_reg() -> (r: Reg)
    ensures
        r == spec_fp_reg(),
{
    Reg::Real(RealReg { class: RegClass::I64, enc: ENC_FP, index: IDX_FP })
}

pub fn writable_fp_reg() -> (w: Writable<Reg>)
    ensures
        w.reg == spec_fp_reg(),
{
    Writable { reg: fp_reg() }
}

pub open spec fn spec_link_reg() -> Reg {
    Reg::Real(RealReg { class: RegClass::I64, enc: ENC_LINK, index: IDX_LINK })
}

/// The link register, x30.
pub fn link_reg() -> (r: Reg)
    ensures
        r == spec_link_reg(),
{
    Reg::Real(RealReg { class: RegClass::I64, enc: ENC_LINK, index: IDX_LINK })
}

pub fn writable_link_reg() -> (w: Writable<Reg>)
    ensures
        w.reg == spec_link_reg(),
{
    Writable { reg: link_reg() }
}

pub open spec fn spec_zero_reg() -> Reg {
    Reg::Real(RealReg { class: RegClass::I64, enc: ENC_ZERO, index: IDX_ZERO })
}

/// The zero register, xzr.
pub fn zero_reg() -> (r: Reg)
    ensures
        r == spec_zero_reg(),
{
    Reg::Real(RealReg { class: RegClass::I64, enc: ENC_ZERO, index: IDX_ZERO })
}

pub fn writable_zero_reg() -> (w: Writable<Reg>)
    ensures
        w.reg == spec_zero_reg(),
{
    Writable { reg: zero_reg() }
}

pub open spec fn spec_spilltmp_reg() -> Reg {
    Reg::Real(RealReg { class: RegClass::I64, enc: ENC_SPILLTMP, index: IDX_SPILLTMP })
}

/// The scratch register statically reserved for frame fix-up code, x16.
/// It is not available to the allocator.
pub fn spilltmp_reg() -> (r: Reg)
    ensures
        r == spec_spilltmp_reg(),
{
    Reg::Real(RealReg { class: RegClass::I64, enc: ENC_SPILLTMP, index: IDX_SPILLTMP })
}

pub fn writable_spilltmp_reg() -> (w: Writable<Reg>)
    ensures
        w.reg == spec_spilltmp_reg(),
{
    Writable { reg: spilltmp_reg() }
}

} // verus!
