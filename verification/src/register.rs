//! The CPU-visible register file: seven 8-bit registers, the program counter,
//! the stack pointer and the five condition flags.  Register pairs are views
//! over the 8-bit halves, never separate storage.

use vstd::prelude::*;

use crate::alu::Flags8;
use crate::alu::spec_word;
use crate::alu::word_hi;
use crate::alu::word_lo;
use crate::alu::make_word;
use crate::alu::split_hi;
use crate::alu::split_lo;
use crate::instr::Cond;
use crate::instr::PushPair;
use crate::instr::Reg;
use crate::instr::RegPair;

verus! {

#[derive(Clone, Copy)]
pub struct Register {
    pub a: u8,
    pub b: u8,
    pub c: u8,
    pub d: u8,
    pub e: u8,
    pub h: u8,
    pub l: u8,
    pub pc: u16,
    pub sp: u16,
    pub flag_z: bool,
    pub flag_s: bool,
    pub flag_p: bool,
    pub flag_cy: bool,
    pub flag_ac: bool,
}

pub open spec fn spec_bc(r: Register) -> u16 {
    spec_word(r.c, r.b)
}

pub open spec fn spec_de(r: Register) -> u16 {
    spec_word(r.e, r.d)
}

pub open spec fn spec_hl(r: Register) -> u16 {
    spec_word(r.l, r.h)
}

/// The flags packed into one byte, the layout the real processor uses for
/// PSW: S at bit 7, Z at bit 6, AC at bit 4, P at bit 2, a constant 1 at
/// bit 1 and CY at bit 0 (bits 3 and 5 always zero).
pub open spec fn spec_flags_byte(r: Register) -> u8 {
    ((if r.flag_cy {
        1int
    } else {
        0
    }) + 2 + (if r.flag_p {
        4int
    } else {
        0
    }) + (if r.flag_ac {
        16int
    } else {
        0
    }) + (if r.flag_z {
        64int
    } else {
        0
    }) + (if r.flag_s {
        128int
    } else {
        0
    })) as u8
}

/// The register file with the flags replaced by those packed in `b`.
pub open spec fn spec_unpack_flags(r: Register, b: u8) -> Register {
    Register {
        flag_cy: b as int % 2 == 1,
        flag_p: (b as int / 4) % 2 == 1,
        flag_ac: (b as int / 16) % 2 == 1,
        flag_z: (b as int / 64) % 2 == 1,
        flag_s: (b as int / 128) % 2 == 1,
        ..r
    }
}

/// Packing the flags and unpacking the byte restores the same five flags:
/// the PSW byte layout is internally consistent across PUSH and POP.
pub proof fn lemma_flags_byte_roundtrip(r: Register)
    ensures
        spec_unpack_flags(r, spec_flags_byte(r)) == (Register {
            flag_cy: r.flag_cy,
            flag_p: r.flag_p,
            flag_ac: r.flag_ac,
            flag_z: r.flag_z,
            flag_s: r.flag_s,
            ..r
        }),
{
}

/// The value of an 8-bit register operand (`M` is resolved by the caller
/// against memory; here it reads as 0).
pub open spec fn reg_val(r: Register, g: Reg) -> u8 {
    match g {
        Reg::B => r.b,
        Reg::C => r.c,
        Reg::D => r.d,
        Reg::E => r.e,
        Reg::H => r.h,
        Reg::L => r.l,
        Reg::M => 0,
        Reg::A => r.a,
    }
}

/// The register file with one 8-bit register replaced (`M` changes nothing).
pub open spec fn set_reg(r: Register, g: Reg, v: u8) -> Register {
    match g {
        Reg::B => Register { b: v, ..r },
        Reg::C => Register { c: v, ..r },
        Reg::D => Register { d: v, ..r },
        Reg::E => Register { e: v, ..r },
        Reg::H => Register { h: v, ..r },
        Reg::L => Register { l: v, ..r },
        Reg::M => r,
        Reg::A => Register { a: v, ..r },
    }
}

pub open spec fn pair_val(r: Register, p: RegPair) -> u16 {
    match p {
        RegPair::BC => spec_bc(r),
        RegPair::DE => spec_de(r),
        RegPair::HL => spec_hl(r),
        RegPair::SP => r.sp,
    }
}

pub open spec fn set_pair(r: Register, p: RegPair, w: u16) -> Register {
    match p {
        RegPair::BC => Register { b: word_hi(w), c: word_lo(w), ..r },
        RegPair::DE => Register { d: word_hi(w), e: word_lo(w), ..r },
        RegPair::HL => Register { h: word_hi(w), l: word_lo(w), ..r },
        RegPair::SP => Register { sp: w, ..r },
    }
}

/// The 16-bit value a PUSH operand contributes; PSW is A in the high byte
/// and the packed flags in the low byte.
pub open spec fn push_val(r: Register, p: PushPair) -> u16 {
    match p {
        PushPair::BC => spec_bc(r),
        PushPair::DE => spec_de(r),
        PushPair::HL => spec_hl(r),
        PushPair::PSW => spec_word(spec_flags_byte(r), r.a),
    }
}

/// The register file after a POP into the operand; PSW restores A and the
/// five flags from the packed byte.
pub open spec fn set_push_pair(r: Register, p: PushPair, w: u16) -> Register {
    match p {
        PushPair::BC => Register { b: word_hi(w), c: word_lo(w), ..r },
        PushPair::DE => Register { d: word_hi(w), e: word_lo(w), ..r },
        PushPair::HL => Register { h: word_hi(w), l: word_lo(w), ..r },
        PushPair::PSW => Register { a: word_hi(w), ..spec_unpack_flags(r, word_lo(w)) },
    }
}

/// Whether a branch condition holds of the current flags.
pub open spec fn cond_val(r: Register, c: Cond) -> bool {
    match c {
        Cond::NZ => !r.flag_z,
        Cond::Z => r.flag_z,
        Cond::NC => !r.flag_cy,
        Cond::C => r.flag_cy,
        Cond::PO => !r.flag_p,
        Cond::PE => r.flag_p,
        Cond::P => !r.flag_s,
        Cond::M => r.flag_s,
    }
}

/// The register file after an ALU outcome: all five flags taken from the
/// outcome, and the result stored in A unless `store` is false (CMP).
pub open spec fn set_flags(r: Register, f: Flags8, store: bool) -> Register {
    Register {
        a: if store {
            f.result
        } else {
            r.a
        },
        flag_z: f.z,
        flag_s: f.s,
        flag_p: f.p,
        flag_cy: f.cy,
        flag_ac: f.ac,
        ..r
    }
}

/// The register file with only the flags taken from an ALU outcome, for
/// operations whose result goes to memory (INR M / DCR M).
pub open spec fn set_flags_only(r: Register, f: Flags8) -> Register {
    Register { flag_z: f.z, flag_s: f.s, flag_p: f.p, flag_cy: f.cy, flag_ac: f.ac, ..r }
}

impl Register {
    /// Power-on state: PC at the configured entry point, everything else 0.
    pub open spec fn new_spec(entry: u16) -> Register {
        Register {
            a: 0u8,
            b: 0u8,
            c: 0u8,
            d: 0u8,
            e: 0u8,
            h: 0u8,
            l: 0u8,
            pc: entry,
            sp: 0u16,
            flag_z: false,
            flag_s: false,
            flag_p: false,
            flag_cy: false,
            flag_ac: false,
        }
    }

    /// Power-on state: PC at the configured entry point, everything else 0.
    pub fn new(entry: u16) -> (r: Register)
        ensures
            r == Register::new_spec(entry),
    {
        Register {
            a: 0,
            b: 0,
            c: 0,
            d: 0,
            e: 0,
            h: 0,
            l: 0,
            pc: entry,
            sp: 0,
            flag_z: false,
            flag_s: false,
            flag_p: false,
            flag_cy: false,
            flag_ac: false,
        }
    }

    pub fn get_bc(&self) -> (w: u16)
        ensures
            w == spec_bc(*self),
    {
        make_word(self.c, self.b)
    }

    pub fn get_de(&self) -> (w: u16)
        ensures
            w == spec_de(*self),
    {
        make_word(self.e, self.d)
    }

    pub fn get_hl(&self) -> (w: u16)
        ensures
            w == spec_hl(*self),
    {
        make_word(self.l, self.h)
    }

    pub fn set_bc(&mut self, w: u16)
        ensures
            *final(self) == (Register { b: word_hi(w), c: word_lo(w), ..*old(self) }),
    {
        self.b = split_hi(w);
        self.c = split_lo(w);
    }

    pub fn set_de(&mut self, w: u16)
        ensures
            *final(self) == (Register { d: word_hi(w), e: word_lo(w), ..*old(self) }),
    {
        self.d = split_hi(w);
        self.e = split_lo(w);
    }

    pub fn set_hl(&mut self, w: u16)
        ensures
            *final(self) == (Register { h: word_hi(w), l: word_lo(w), ..*old(self) }),
    {
        self.h = split_hi(w);
        self.l = split_lo(w);
    }

    /// The flags packed into one byte, for PUSH PSW.
    pub fn flags_byte(&self) -> (b: u8)
        ensures
            b == spec_flags_byte(*self),
    {
        (if self.flag_cy {
            1u8
        } else {
            0
        }) + 2 + (if self.flag_p {
            4u8
        } else {
            0
        }) + (if self.flag_ac {
            16u8
        } else {
            0
        }) + (if self.flag_z {
            64u8
        } else {
            0
        }) + (if self.flag_s {
            128u8
        } else {
            0
        })
    }

    /// Restores the five flags from a packed byte, for POP PSW.
    pub fn unpack_flags(&mut self, b: u8)
        ensures
            *final(self) == spec_unpack_flags(*old(self), b),
    {
        self.flag_cy = b % 2 == 1;
        self.flag_p = (b / 4) % 2 == 1;
        self.flag_ac = (b / 16) % 2 == 1;
        self.flag_z = (b / 64) % 2 == 1;
        self.flag_s = (b / 128) % 2 == 1;
    }

    /// Reads one 8-bit register; `M` must be resolved against memory first.
    pub fn get8(&self, g: Reg) -> (v: u8)
        requires
            !(g is M),
        ensures
            v == reg_val(*self, g),
    {
        match g {
            Reg::B => self.b,
            Reg::C => self.c,
            Reg::D => self.d,
            Reg::E => self.e,
            Reg::H => self.h,
            Reg::L => self.l,
            Reg::M => 0,
            Reg::A => self.a,
        }
    }

    /// Writes one 8-bit register; `M` must be resolved against memory first.
    pub fn set8(&mut self, g: Reg, v: u8)
        requires
            !(g is M),
        ensures
            *final(self) == set_reg(*old(self), g, v),
    {
        match g {
            Reg::B => self.b = v,
            Reg::C => self.c = v,
            Reg::D => self.d = v,
            Reg::E => self.e = v,
            Reg::H => self.h = v,
            Reg::L => self.l = v,
            Reg::M => (),
            Reg::A => self.a = v,
        }
    }

    pub fn get_pair(&self, p: RegPair) -> (w: u16)
        ensures
            w == pair_val(*self, p),
    {
        match p {
            RegPair::BC => self.get_bc(),
            RegPair::DE => self.get_de(),
            RegPair::HL => self.get_hl(),
            RegPair::SP => self.sp,
        }
    }

    pub fn put_pair(&mut self, p: RegPair, w: u16)
        ensures
            *final(self) == set_pair(*old(self), p, w),
    {
        match p {
            RegPair::BC => self.set_bc(w),
            RegPair::DE => self.set_de(w),
            RegPair::HL => self.set_hl(w),
            RegPair::SP => self.sp = w,
        }
    }

    pub fn get_push_pair(&self, p: PushPair) -> (w: u16)
        ensures
            w == push_val(*self, p),
    {
        match p {
            PushPair::BC => self.get_bc(),
            PushPair::DE => self.get_de(),
            PushPair::HL => self.get_hl(),
            PushPair::PSW => make_word(self.flags_byte(), self.a),
        }
    }

    pub fn put_push_pair(&mut self, p: PushPair, w: u16)
        ensures
            *final(self) == set_push_pair(*old(self), p, w),
    {
        match p {
            PushPair::BC => self.set_bc(w),
            PushPair::DE => self.set_de(w),
            PushPair::HL => self.set_hl(w),
            PushPair::PSW => {
                self.unpack_flags(split_lo(w));
                self.a = split_hi(w);
            },
        }
    }

    pub fn cond_eval(&self, c: Cond) -> (b: bool)
        ensures
            b == cond_val(*self, c),
    {
        match c {
            Cond::NZ => !self.flag_z,
            Cond::Z => self.flag_z,
            Cond::NC => !self.flag_cy,
            Cond::C => self.flag_cy,
            Cond::PO => !self.flag_p,
            Cond::PE => self.flag_p,
            Cond::P => !self.flag_s,
            Cond::M => self.flag_s,
        }
    }

    /// Applies an ALU outcome: flags always, the result into A unless
    /// `store` is false (CMP discards it).
    pub fn apply_alu(&mut self, f: Flags8, store: bool)
        ensures
            *final(self) == set_flags(*old(self), f, store),
    {
        if store {
            self.a = f.result;
        }
        self.flag_z = f.z;
        self.flag_s = f.s;
        self.flag_p = f.p;
        self.flag_cy = f.cy;
        self.flag_ac = f.ac;
    }

    /// Applies only the flags of an ALU outcome (INR M / DCR M, whose
    /// result goes to memory).
    pub fn apply_flags_only(&mut self, f: Flags8)
        ensures
            *final(self) == set_flags_only(*old(self), f),
    {
        self.flag_z = f.z;
        self.flag_s = f.s;
        self.flag_p = f.p;
        self.flag_cy = f.cy;
        self.flag_ac = f.ac;
    }
}

} // verus!
