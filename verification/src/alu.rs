//! Arithmetic/logic semantics of the 8-bit ALU: results together with the
//! five condition flags (Z, S, P, CY, AC), plus the 16-bit helpers.
//!
//! Every executable function here mirrors a spec function exactly, so the
//! instruction semantics can be stated purely over the spec functions.

use vstd::prelude::*;

verus! {

/// The eight register-operand ALU operations, in opcode order.
#[derive(Clone, Copy)]
pub enum AluOp {
    Add,
    Adc,
    Sub,
    Sbb,
    Ana,
    Xra,
    Ora,
    Cmp,
}

/// An 8-bit ALU outcome: the result byte and the five flags it produces.
#[derive(Clone, Copy)]
pub struct Flags8 {
    pub result: u8,
    pub z: bool,
    pub s: bool,
    pub p: bool,
    pub cy: bool,
    pub ac: bool,
}

pub open spec fn bit7(v: u8) -> bool {
    v & 0x80 != 0
}

pub open spec fn carry_in(c: bool) -> int {
    if c {
        1
    } else {
        0
    }
}

/// Number of set bits in a byte.
pub open spec fn popcount8(v: u8) -> int {
    (if v & 0x01 != 0 { 1int } else { 0 }) + (if v & 0x02 != 0 { 1int } else { 0 }) + (if v & 0x04
        != 0 { 1int } else { 0 }) + (if v & 0x08 != 0 { 1int } else { 0 }) + (if v & 0x10 != 0 {
        1int
    } else {
        0
    }) + (if v & 0x20 != 0 { 1int } else { 0 }) + (if v & 0x40 != 0 { 1int } else { 0 }) + (if v
        & 0x80 != 0 { 1int } else { 0 })
}

/// The 8080 parity flag is set when the result has an even number of set bits.
pub open spec fn parity_even(v: u8) -> bool {
    popcount8(v) % 2 == 0
}

/// Addition (with optional incoming carry): wraparound result, CY = carry out
/// of bit 7, AC = carry out of bit 3.
pub open spec fn spec_add8(a: u8, b: u8, c: bool) -> Flags8 {
    let total = a as int + b as int + carry_in(c);
    let r = (total % 256) as u8;
    Flags8 {
        result: r,
        z: r == 0,
        s: bit7(r),
        p: parity_even(r),
        cy: total > 255,
        ac: (a as int % 16) + (b as int % 16) + carry_in(c) > 15,
    }
}

/// Subtraction (with optional incoming borrow): wraparound result, CY =
/// borrow out of bit 7, AC = borrow out of bit 3.
pub open spec fn spec_sub8(a: u8, b: u8, c: bool) -> Flags8 {
    let r = ((a as int - b as int - carry_in(c) + 256) % 256) as u8;
    Flags8 {
        result: r,
        z: r == 0,
        s: bit7(r),
        p: parity_even(r),
        cy: a as int - b as int - carry_in(c) < 0,
        ac: (a as int % 16) - (b as int % 16) - carry_in(c) < 0,
    }
}

/// AND clears CY; AC comes from bit 3 of the OR of the operands (a quirk of
/// the real hardware's ANA implementation).
pub open spec fn spec_and8(a: u8, b: u8) -> Flags8 {
    let r = a & b;
    Flags8 { result: r, z: r == 0, s: bit7(r), p: parity_even(r), cy: false, ac: (a | b) & 0x08
        != 0 }
}

/// XOR clears both CY and AC.
pub open spec fn spec_xor8(a: u8, b: u8) -> Flags8 {
    let r = a ^ b;
    Flags8 { result: r, z: r == 0, s: bit7(r), p: parity_even(r), cy: false, ac: false }
}

/// OR clears both CY and AC.
pub open spec fn spec_or8(a: u8, b: u8) -> Flags8 {
    let r = a | b;
    Flags8 { result: r, z: r == 0, s: bit7(r), p: parity_even(r), cy: false, ac: false }
}

/// Flag outcome of each ALU operation; for CMP the `result` field is the
/// difference used for the flags, which the instruction does not store.
pub open spec fn spec_alu(op: AluOp, a: u8, b: u8, cy: bool) -> Flags8 {
    match op {
        AluOp::Add => spec_add8(a, b, false),
        AluOp::Adc => spec_add8(a, b, cy),
        AluOp::Sub => spec_sub8(a, b, false),
        AluOp::Sbb => spec_sub8(a, b, cy),
        AluOp::Ana => spec_and8(a, b),
        AluOp::Xra => spec_xor8(a, b),
        AluOp::Ora => spec_or8(a, b),
        AluOp::Cmp => spec_sub8(a, b, false),
    }
}

/// INR: wraparound increment; Z, S, P, AC from the result, CY untouched (the
/// `cy` argument is the caller's current carry flag, passed through).
pub open spec fn spec_inr8(v: u8, cy: bool) -> Flags8 {
    let r = ((v as int + 1) % 256) as u8;
    Flags8 { result: r, z: r == 0, s: bit7(r), p: parity_even(r), cy, ac: v as int % 16 == 15 }
}

/// DCR: wraparound decrement; Z, S, P, AC from the result, CY untouched.
pub open spec fn spec_dcr8(v: u8, cy: bool) -> Flags8 {
    let r = ((v as int + 255) % 256) as u8;
    Flags8 { result: r, z: r == 0, s: bit7(r), p: parity_even(r), cy, ac: v as int % 16 == 0 }
}

/// DAA: corrects the accumulator's two nibbles into packed BCD.  A low-nibble
/// value above 9 (or a set AC) adds 6; an accumulator above 0x99 (or a set
/// CY) adds 0x60 and sets CY.  AC is the carry out of bit 3 of the low
/// correction; Z, S, P come from the corrected value.
pub open spec fn spec_daa(a: u8, cy: bool, ac: bool) -> Flags8 {
    let lo_adj = a as int % 16 > 9 || ac;
    let hi_adj = a as int > 0x99 || cy;
    let corr = (if lo_adj { 6int } else { 0 }) + (if hi_adj { 0x60int } else { 0 });
    let r = ((a as int + corr) % 256) as u8;
    Flags8 {
        result: r,
        z: r == 0,
        s: bit7(r),
        p: parity_even(r),
        cy: hi_adj,
        ac: (a as int % 16) + (if lo_adj { 6int } else { 0 }) > 15,
    }
}

/// RLC: rotate left; bit 7 goes to both bit 0 and CY.
pub open spec fn spec_rlc(a: u8) -> (u8, bool) {
    ((((2 * a as int) + (if bit7(a) { 1int } else { 0 })) % 256) as u8, bit7(a))
}

/// RRC: rotate right; bit 0 goes to both bit 7 and CY.
pub open spec fn spec_rrc(a: u8) -> (u8, bool) {
    ((a as int / 2 + (if a & 1 != 0 { 128int } else { 0 })) as u8, a & 1 != 0)
}

/// RAL: rotate left through carry; CY feeds bit 0, bit 7 becomes the new CY.
pub open spec fn spec_ral(a: u8, cy: bool) -> (u8, bool) {
    ((((2 * a as int) + carry_in(cy)) % 256) as u8, bit7(a))
}

/// RAR: rotate right through carry; CY feeds bit 7, bit 0 becomes the new CY.
pub open spec fn spec_rar(a: u8, cy: bool) -> (u8, bool) {
    ((a as int / 2 + (if cy { 128int } else { 0 })) as u8, a & 1 != 0)
}

/// 16-bit wraparound addition.
pub open spec fn spec_add16(x: u16, d: u16) -> u16 {
    ((x as int + d as int) % 0x10000) as u16
}

/// 16-bit wraparound subtraction.
pub open spec fn spec_sub16(x: u16, d: u16) -> u16 {
    ((x as int - d as int + 0x10000) % 0x10000) as u16
}

/// DAD: 16-bit wraparound addition plus the carry out of bit 15.
pub open spec fn spec_dad(hl: u16, rp: u16) -> (u16, bool) {
    (spec_add16(hl, rp), hl as int + rp as int > 0xFFFF)
}

/// What 16-bit wraparound addition computes, case by case.
pub proof fn lemma_add16(x: u16, d: u16)
    ensures
        ((x as int + d as int) < 0x10000) ==> spec_add16(x, d) == x as int + d as int,
        (x as int + d as int >= 0x10000) ==> spec_add16(x, d) == x as int + d as int - 0x10000,
{
    let s = x as int + d as int;
    if s < 0x10000 {
        vstd::arithmetic::div_mod::lemma_small_mod(s as nat, 0x10000);
    } else {
        vstd::arithmetic::div_mod::lemma_mod_sub_multiples_vanish(s, 0x10000);
        vstd::arithmetic::div_mod::lemma_small_mod((s - 0x10000) as nat, 0x10000);
    }
}

/// What 16-bit wraparound subtraction computes, case by case.
pub proof fn lemma_sub16(x: u16, d: u16)
    ensures
        x >= d ==> spec_sub16(x, d) == x as int - d as int,
        x < d ==> spec_sub16(x, d) == x as int - d as int + 0x10000,
{
    let b = x as int - d as int;
    if x >= d {
        vstd::arithmetic::div_mod::lemma_mod_add_multiples_vanish(b, 0x10000);
        vstd::arithmetic::div_mod::lemma_small_mod(b as nat, 0x10000);
    } else {
        vstd::arithmetic::div_mod::lemma_small_mod((b + 0x10000) as nat, 0x10000);
    }
}

/// A 16-bit word from its little-endian bytes.
pub open spec fn spec_word(lo: u8, hi: u8) -> u16 {
    (hi as int * 256 + lo as int) as u16
}

/// Splitting a word built from two bytes gives the bytes back.
pub proof fn lemma_word_parts(lo: u8, hi: u8)
    ensures
        word_lo(spec_word(lo, hi)) == lo,
        word_hi(spec_word(lo, hi)) == hi,
{
    vstd::arithmetic::div_mod::lemma_fundamental_div_mod_converse_mod(
        hi as int * 256 + lo as int,
        256,
        hi as int,
        lo as int,
    );
    vstd::arithmetic::div_mod::lemma_fundamental_div_mod_converse_div(
        hi as int * 256 + lo as int,
        256,
        hi as int,
        lo as int,
    );
}

/// Joining a word's two bytes gives the word back.
pub proof fn lemma_word_join(w: u16)
    ensures
        spec_word(word_lo(w), word_hi(w)) == w,
{
    vstd::arithmetic::div_mod::lemma_fundamental_div_mod(w as int, 256);
}

pub open spec fn word_lo(w: u16) -> u8 {
    (w as int % 256) as u8
}

pub open spec fn word_hi(w: u16) -> u8 {
    (w as int / 256) as u8
}

pub fn parity_even8(v: u8) -> (r: bool)
    ensures
        r == parity_even(v),
{
    let n: u8 = (if v & 0x01 != 0 {
        1
    } else {
        0
    }) + (if v & 0x02 != 0 {
        1
    } else {
        0
    }) + (if v & 0x04 != 0 {
        1
    } else {
        0
    }) + (if v & 0x08 != 0 {
        1
    } else {
        0
    }) + (if v & 0x10 != 0 {
        1
    } else {
        0
    }) + (if v & 0x20 != 0 {
        1
    } else {
        0
    }) + (if v & 0x40 != 0 {
        1
    } else {
        0
    }) + (if v & 0x80 != 0 {
        1
    } else {
        0
    });
    n % 2 == 0
}

pub fn add8(a: u8, b: u8, c: bool) -> (f: Flags8)
    ensures
        f == spec_add8(a, b, c),
{
    let ci: u16 = if c {
        1
    } else {
        0
    };
    let total: u16 = a as u16 + b as u16 + ci;
    let r: u8 = (total % 256) as u8;
    let half: u16 = (a % 16) as u16 + (b % 16) as u16 + ci;
    Flags8 {
        result: r,
        z: r == 0,
        s: r & 0x80 != 0,
        p: parity_even8(r),
        cy: total > 255,
        ac: half > 15,
    }
}

pub fn sub8(a: u8, b: u8, c: bool) -> (f: Flags8)
    ensures
        f == spec_sub8(a, b, c),
{
    let ci: u16 = if c {
        1
    } else {
        0
    };
    let total: u16 = 256 + a as u16 - b as u16 - ci;
    let r: u8 = (total % 256) as u8;
    Flags8 {
        result: r,
        z: r == 0,
        s: r & 0x80 != 0,
        p: parity_even8(r),
        cy: (a as u16) < b as u16 + ci,
        ac: ((a % 16) as u16) < (b % 16) as u16 + ci,
    }
}

pub fn and8(a: u8, b: u8) -> (f: Flags8)
    ensures
        f == spec_and8(a, b),
{
    let r = a & b;
    Flags8 {
        result: r,
        z: r == 0,
        s: r & 0x80 != 0,
        p: parity_even8(r),
        cy: false,
        ac: (a | b) & 0x08 != 0,
    }
}

pub fn xor8(a: u8, b: u8) -> (f: Flags8)
    ensures
        f == spec_xor8(a, b),
{
    let r = a ^ b;
    Flags8 { result: r, z: r == 0, s: r & 0x80 != 0, p: parity_even8(r), cy: false, ac: false }
}

pub fn or8(a: u8, b: u8) -> (f: Flags8)
    ensures
        f == spec_or8(a, b),
{
    let r = a | b;
    Flags8 { result: r, z: r == 0, s: r & 0x80 != 0, p: parity_even8(r), cy: false, ac: false }
}

pub fn alu8(op: AluOp, a: u8, b: u8, cy: bool) -> (f: Flags8)
    ensures
        f == spec_alu(op, a, b, cy),
{
    match op {
        AluOp::Add => add8(a, b, false),
        AluOp::Adc => add8(a, b, cy),
        AluOp::Sub => sub8(a, b, false),
        AluOp::Sbb => sub8(a, b, cy),
        AluOp::Ana => and8(a, b),
        AluOp::Xra => xor8(a, b),
        AluOp::Ora => or8(a, b),
        AluOp::Cmp => sub8(a, b, false),
    }
}

pub fn inr8(v: u8, cy: bool) -> (f: Flags8)
    ensures
        f == spec_inr8(v, cy),
{
    let r: u8 = ((v as u16 + 1) % 256) as u8;
    Flags8 { result: r, z: r == 0, s: r & 0x80 != 0, p: parity_even8(r), cy, ac: v % 16 == 15 }
}

pub fn dcr8(v: u8, cy: bool) -> (f: Flags8)
    ensures
        f == spec_dcr8(v, cy),
{
    let r: u8 = ((v as u16 + 255) % 256) as u8;
    Flags8 { result: r, z: r == 0, s: r & 0x80 != 0, p: parity_even8(r), cy, ac: v % 16 == 0 }
}

pub fn daa8(a: u8, cy: bool, ac: bool) -> (f: Flags8)
    ensures
        f == spec_daa(a, cy, ac),
{
    let lo_adj = a % 16 > 9 || ac;
    let hi_adj = a > 0x99 || cy;
    let corr: u16 = (if lo_adj {
        6
    } else {
        0
    }) + (if hi_adj {
        0x60
    } else {
        0
    });
    let r: u8 = ((a as u16 + corr) % 256) as u8;
    let half: u16 = (a % 16) as u16 + (if lo_adj {
        6
    } else {
        0
    });
    Flags8 {
        result: r,
        z: r == 0,
        s: r & 0x80 != 0,
        p: parity_even8(r),
        cy: hi_adj,
        ac: half > 15,
    }
}

pub fn rlc8(a: u8) -> (r: (u8, bool))
    ensures
        r == spec_rlc(a),
{
    let c = a & 0x80 != 0;
    ((((2 * a as u16) + (if c {
        1
    } else {
        0
    })) % 256) as u8, c)
}

pub fn rrc8(a: u8) -> (r: (u8, bool))
    ensures
        r == spec_rrc(a),
{
    let c = a & 1 != 0;
    (a / 2 + (if c {
        128
    } else {
        0
    }), c)
}

pub fn ral8(a: u8, cy: bool) -> (r: (u8, bool))
    ensures
        r == spec_ral(a, cy),
{
    ((((2 * a as u16) + (if cy {
        1
    } else {
        0
    })) % 256) as u8, a & 0x80 != 0)
}

pub fn rar8(a: u8, cy: bool) -> (r: (u8, bool))
    ensures
        r == spec_rar(a, cy),
{
    (a / 2 + (if cy {
        128
    } else {
        0
    }), a & 1 != 0)
}

pub fn wadd16(x: u16, d: u16) -> (r: u16)
    ensures
        r == spec_add16(x, d),
{
    ((x as u32 + d as u32) % 0x10000) as u16
}

pub fn wsub16(x: u16, d: u16) -> (r: u16)
    ensures
        r == spec_sub16(x, d),
{
    ((x as u32 + 0x10000 - d as u32) % 0x10000) as u16
}

pub fn dad16(hl: u16, rp: u16) -> (r: (u16, bool))
    ensures
        r == spec_dad(hl, rp),
{
    (wadd16(hl, rp), hl as u32 + rp as u32 > 0xFFFF)
}

pub fn make_word(lo: u8, hi: u8) -> (w: u16)
    ensures
        w == spec_word(lo, hi),
{
    hi as u16 * 256 + lo as u16
}

pub fn split_lo(w: u16) -> (b: u8)
    ensures
        b == word_lo(w),
{
    (w % 256) as u8
}

pub fn split_hi(w: u16) -> (b: u8)
    ensures
        b == word_hi(w),
{
    (w / 256) as u8
}

} // verus!
