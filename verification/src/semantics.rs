//! The mathematical model of the whole machine and the meaning of every
//! instruction: `step_view` maps a machine state to the state after one
//! fetch-decode-execute step together with the instruction's cycle cost, or
//! to the bus fault that aborts the step.  A faulting step applies nothing.

use vstd::prelude::*;

use crate::alu::spec_add16;
use crate::alu::spec_alu;
use crate::alu::spec_daa;
use crate::alu::spec_dad;
use crate::alu::spec_dcr8;
use crate::alu::spec_inr8;
use crate::alu::spec_ral;
use crate::alu::spec_rar;
use crate::alu::spec_rlc;
use crate::alu::spec_rrc;
use crate::alu::spec_sub16;
use crate::alu::spec_word;
use crate::alu::word_hi;
use crate::alu::word_lo;
use crate::alu::AluOp;
use crate::instr::Instr;
use crate::instr::Reg;
use crate::instr::RegPair;
use crate::instr::spec_decode;
use crate::memory::MemError;
use crate::register::cond_val;
use crate::register::pair_val;
use crate::register::push_val;
use crate::register::reg_val;
use crate::register::set_flags;
use crate::register::set_flags_only;
use crate::register::set_pair;
use crate::register::set_push_pair;
use crate::register::set_reg;
use crate::register::spec_bc;
use crate::register::spec_de;
use crate::register::spec_hl;
use crate::register::Register;

verus! {

/// The machine as mathematics: the register file, the mapped memory (one
/// byte per claimed address), the set of writable addresses, and the
/// engine/interrupt state bits.
#[verifier::ext_equal]
pub ghost struct MachineView {
    pub regs: Register,
    pub mem: Map<u16, u8>,
    pub writable: Set<u16>,
    pub halted: bool,
    pub int_enabled: bool,
}

/// Every writable address is mapped.
pub open spec fn view_wf(v: MachineView) -> bool {
    forall|a: u16| v.writable.contains(a) ==> v.mem.dom().contains(a)
}

/// A bus read: the byte at a mapped address, `Unmapped` elsewhere.
pub open spec fn sread(v: MachineView, a: u16) -> Result<u8, MemError> {
    if v.mem.dom().contains(a) {
        Ok(v.mem[a])
    } else {
        Err(MemError::Unmapped)
    }
}

/// A bus write: replaces the byte at a writable address and nothing else;
/// rejected with `Unmapped` outside every region and `ReadOnlyWrite` on ROM.
pub open spec fn swrite(v: MachineView, a: u16, b: u8) -> Result<MachineView, MemError> {
    if v.writable.contains(a) {
        Ok(MachineView { mem: v.mem.insert(a, b), ..v })
    } else if !v.mem.dom().contains(a) {
        Err(MemError::Unmapped)
    } else {
        Err(MemError::ReadOnlyWrite)
    }
}

/// A 16-bit read, little-endian, the low byte first.
pub open spec fn sread16(v: MachineView, a: u16) -> Result<u16, MemError> {
    match sread(v, a) {
        Err(e) => Err(e),
        Ok(lo) => match sread(v, spec_add16(a, 1)) {
            Err(e) => Err(e),
            Ok(hi) => Ok(spec_word(lo, hi)),
        },
    }
}

/// The state with different registers, memory untouched.
pub open spec fn with_regs(v: MachineView, r: Register) -> MachineView {
    MachineView { regs: r, ..v }
}

/// An immediate-operand fetch: one byte at PC, PC advanced past it.
pub open spec fn fetch8(v: MachineView) -> Result<(MachineView, u8), MemError> {
    match sread(v, v.regs.pc) {
        Err(e) => Err(e),
        Ok(b) => Ok(
            (with_regs(v, Register { pc: spec_add16(v.regs.pc, 1), ..v.regs }), b),
        ),
    }
}

/// A two-byte immediate fetch (little-endian), PC advanced past both.
pub open spec fn fetch16(v: MachineView) -> Result<(MachineView, u16), MemError> {
    match sread16(v, v.regs.pc) {
        Err(e) => Err(e),
        Ok(w) => Ok(
            (with_regs(v, Register { pc: spec_add16(v.regs.pc, 2), ..v.regs }), w),
        ),
    }
}

/// CALL-style push: the word's high byte at SP-1, low byte at SP-2, SP
/// lowered by two.  The SP-1 write is attempted first.
pub open spec fn spush(v: MachineView, w: u16) -> Result<MachineView, MemError> {
    let a1 = spec_sub16(v.regs.sp, 1);
    let a2 = spec_sub16(v.regs.sp, 2);
    match swrite(v, a1, word_hi(w)) {
        Err(e) => Err(e),
        Ok(v1) => match swrite(v1, a2, word_lo(w)) {
            Err(e) => Err(e),
            Ok(v2) => Ok(with_regs(v2, Register { sp: a2, ..v2.regs })),
        },
    }
}

/// RET-style pop: the low byte at SP, high byte at SP+1, SP raised by two.
pub open spec fn spop(v: MachineView) -> Result<(MachineView, u16), MemError> {
    match sread16(v, v.regs.sp) {
        Err(e) => Err(e),
        Ok(w) => Ok(
            (with_regs(v, Register { sp: spec_add16(v.regs.sp, 2), ..v.regs }), w),
        ),
    }
}

/// The effect of one decoded instruction on the machine state `s` as it
/// stands after the opcode fetch (PC past the opcode byte), with the
/// instruction's cycle cost.  Opaque: proofs open it one instruction at a
/// time.
#[verifier::opaque]
pub open spec fn exec_instr(s: MachineView, i: Instr) -> Result<(MachineView, u32), MemError> {
    match i {
        Instr::Nop => Ok((s, 4)),
        Instr::Hlt => Ok((MachineView { halted: true, ..s }, 7)),
        Instr::Ei => Ok((MachineView { int_enabled: true, ..s }, 4)),
        Instr::Di => Ok((MachineView { int_enabled: false, ..s }, 4)),
        Instr::Mov(d, src) => match src {
            Reg::M => match sread(s, spec_hl(s.regs)) {
                Err(e) => Err(e),
                Ok(b) => match d {
                    Reg::M => match swrite(s, spec_hl(s.regs), b) {
                        Err(e) => Err(e),
                        Ok(s2) => Ok((s2, 7)),
                    },
                    _ => Ok((with_regs(s, set_reg(s.regs, d, b)), 7)),
                },
            },
            _ => {
                let b = reg_val(s.regs, src);
                match d {
                    Reg::M => match swrite(s, spec_hl(s.regs), b) {
                        Err(e) => Err(e),
                        Ok(s2) => Ok((s2, 7)),
                    },
                    _ => Ok((with_regs(s, set_reg(s.regs, d, b)), 5)),
                }
            },
        },
        Instr::Mvi(d) => match fetch8(s) {
            Err(e) => Err(e),
            Ok((s1, b)) => match d {
                Reg::M => match swrite(s1, spec_hl(s1.regs), b) {
                    Err(e) => Err(e),
                    Ok(s2) => Ok((s2, 10)),
                },
                _ => Ok((with_regs(s1, set_reg(s1.regs, d, b)), 7)),
            },
        },
        Instr::Alu(op, src) => match src {
            Reg::M => match sread(s, spec_hl(s.regs)) {
                Err(e) => Err(e),
                Ok(b) => Ok(
                    (
                        with_regs(
                            s,
                            set_flags(
                                s.regs,
                                spec_alu(op, s.regs.a, b, s.regs.flag_cy),
                                !(op is Cmp),
                            ),
                        ),
                        7,
                    ),
                ),
            },
            _ => Ok(
                (
                    with_regs(
                        s,
                        set_flags(
                            s.regs,
                            spec_alu(op, s.regs.a, reg_val(s.regs, src), s.regs.flag_cy),
                            !(op is Cmp),
                        ),
                    ),
                    4,
                ),
            ),
        },
        Instr::AluImm(op) => match fetch8(s) {
            Err(e) => Err(e),
            Ok((s1, b)) => Ok(
                (
                    with_regs(
                        s1,
                        set_flags(
                            s1.regs,
                            spec_alu(op, s1.regs.a, b, s1.regs.flag_cy),
                            !(op is Cmp),
                        ),
                    ),
                    7,
                ),
            ),
        },
        Instr::Inr(g) => match g {
            Reg::M => match sread(s, spec_hl(s.regs)) {
                Err(e) => Err(e),
                Ok(b) => {
                    let f = spec_inr8(b, s.regs.flag_cy);
                    match swrite(s, spec_hl(s.regs), f.result) {
                        Err(e) => Err(e),
                        Ok(s2) => Ok((with_regs(s2, set_flags_only(s2.regs, f)), 10)),
                    }
                },
            },
            _ => {
                let f = spec_inr8(reg_val(s.regs, g), s.regs.flag_cy);
                Ok((with_regs(s, set_reg(set_flags_only(s.regs, f), g, f.result)), 5))
            },
        },
        Instr::Dcr(g) => match g {
            Reg::M => match sread(s, spec_hl(s.regs)) {
                Err(e) => Err(e),
                Ok(b) => {
                    let f = spec_dcr8(b, s.regs.flag_cy);
                    match swrite(s, spec_hl(s.regs), f.result) {
                        Err(e) => Err(e),
                        Ok(s2) => Ok((with_regs(s2, set_flags_only(s2.regs, f)), 10)),
                    }
                },
            },
            _ => {
                let f = spec_dcr8(reg_val(s.regs, g), s.regs.flag_cy);
                Ok((with_regs(s, set_reg(set_flags_only(s.regs, f), g, f.result)), 5))
            },
        },
        Instr::Lxi(rp) => match fetch16(s) {
            Err(e) => Err(e),
            Ok((s1, w)) => Ok((with_regs(s1, set_pair(s1.regs, rp, w)), 10)),
        },
        Instr::Inx(rp) => Ok(
            (with_regs(s, set_pair(s.regs, rp, spec_add16(pair_val(s.regs, rp), 1))), 5),
        ),
        Instr::Dcx(rp) => Ok(
            (with_regs(s, set_pair(s.regs, rp, spec_sub16(pair_val(s.regs, rp), 1))), 5),
        ),
        Instr::Dad(rp) => {
            let (w, c) = spec_dad(spec_hl(s.regs), pair_val(s.regs, rp));
            Ok((with_regs(s, Register { flag_cy: c, ..set_pair(s.regs, RegPair::HL, w) }), 10))
        },
        Instr::StaxB => match swrite(s, spec_bc(s.regs), s.regs.a) {
            Err(e) => Err(e),
            Ok(s2) => Ok((s2, 7)),
        },
        Instr::StaxD => match swrite(s, spec_de(s.regs), s.regs.a) {
            Err(e) => Err(e),
            Ok(s2) => Ok((s2, 7)),
        },
        Instr::LdaxB => match sread(s, spec_bc(s.regs)) {
            Err(e) => Err(e),
            Ok(b) => Ok((with_regs(s, Register { a: b, ..s.regs }), 7)),
        },
        Instr::LdaxD => match sread(s, spec_de(s.regs)) {
            Err(e) => Err(e),
            Ok(b) => Ok((with_regs(s, Register { a: b, ..s.regs }), 7)),
        },
        Instr::Shld => match fetch16(s) {
            Err(e) => Err(e),
            Ok((s1, w)) => match swrite(s1, w, s1.regs.l) {
                Err(e) => Err(e),
                Ok(s2) => match swrite(s2, spec_add16(w, 1), s1.regs.h) {
                    Err(e) => Err(e),
                    Ok(s3) => Ok((s3, 16)),
                },
            },
        },
        Instr::Lhld => match fetch16(s) {
            Err(e) => Err(e),
            Ok((s1, w)) => match sread16(s1, w) {
                Err(e) => Err(e),
                Ok(v) => Ok(
                    (with_regs(s1, Register { h: word_hi(v), l: word_lo(v), ..s1.regs }), 16),
                ),
            },
        },
        Instr::Sta => match fetch16(s) {
            Err(e) => Err(e),
            Ok((s1, w)) => match swrite(s1, w, s1.regs.a) {
                Err(e) => Err(e),
                Ok(s2) => Ok((s2, 13)),
            },
        },
        Instr::Lda => match fetch16(s) {
            Err(e) => Err(e),
            Ok((s1, w)) => match sread(s1, w) {
                Err(e) => Err(e),
                Ok(b) => Ok((with_regs(s1, Register { a: b, ..s1.regs }), 13)),
            },
        },
        Instr::Rlc => {
            let (a, c) = spec_rlc(s.regs.a);
            Ok((with_regs(s, Register { a, flag_cy: c, ..s.regs }), 4))
        },
        Instr::Rrc => {
            let (a, c) = spec_rrc(s.regs.a);
            Ok((with_regs(s, Register { a, flag_cy: c, ..s.regs }), 4))
        },
        Instr::Ral => {
            let (a, c) = spec_ral(s.regs.a, s.regs.flag_cy);
            Ok((with_regs(s, Register { a, flag_cy: c, ..s.regs }), 4))
        },
        Instr::Rar => {
            let (a, c) = spec_rar(s.regs.a, s.regs.flag_cy);
            Ok((with_regs(s, Register { a, flag_cy: c, ..s.regs }), 4))
        },
        Instr::Daa => Ok(
            (
                with_regs(s, set_flags(s.regs, spec_daa(s.regs.a, s.regs.flag_cy, s.regs.flag_ac), true)),
                4,
            ),
        ),
        Instr::Cma => Ok((with_regs(s, Register { a: (255 - s.regs.a as int) as u8, ..s.regs }), 4)),
        Instr::Stc => Ok((with_regs(s, Register { flag_cy: true, ..s.regs }), 4)),
        Instr::Cmc => Ok((with_regs(s, Register { flag_cy: !s.regs.flag_cy, ..s.regs }), 4)),
        Instr::Jmp => match fetch16(s) {
            Err(e) => Err(e),
            Ok((s1, w)) => Ok((with_regs(s1, Register { pc: w, ..s1.regs }), 10)),
        },
        Instr::Jcc(c) => match fetch16(s) {
            Err(e) => Err(e),
            Ok((s1, w)) => Ok(
                (
                    with_regs(
                        s1,
                        Register {
                            pc: if cond_val(s1.regs, c) {
                                w
                            } else {
                                s1.regs.pc
                            },
                            ..s1.regs
                        },
                    ),
                    10,
                ),
            ),
        },
        Instr::Call => match fetch16(s) {
            Err(e) => Err(e),
            Ok((s1, w)) => match spush(s1, s1.regs.pc) {
                Err(e) => Err(e),
                Ok(s2) => Ok((with_regs(s2, Register { pc: w, ..s2.regs }), 17)),
            },
        },
        Instr::Ccc(c) => match fetch16(s) {
            Err(e) => Err(e),
            Ok((s1, w)) => if cond_val(s1.regs, c) {
                match spush(s1, s1.regs.pc) {
                    Err(e) => Err(e),
                    Ok(s2) => Ok((with_regs(s2, Register { pc: w, ..s2.regs }), 17)),
                }
            } else {
                Ok((s1, 11))
            },
        },
        Instr::Ret => match spop(s) {
            Err(e) => Err(e),
            Ok((s1, w)) => Ok((with_regs(s1, Register { pc: w, ..s1.regs }), 10)),
        },
        Instr::Rcc(c) => if cond_val(s.regs, c) {
            match spop(s) {
                Err(e) => Err(e),
                Ok((s1, w)) => Ok((with_regs(s1, Register { pc: w, ..s1.regs }), 11)),
            }
        } else {
            Ok((s, 5))
        },
        Instr::Rst(n) => match spush(s, s.regs.pc) {
            Err(e) => Err(e),
            Ok(s1) => Ok((with_regs(s1, Register { pc: (n as int * 8) as u16, ..s1.regs }), 11)),
        },
        Instr::Pchl => Ok((with_regs(s, Register { pc: spec_hl(s.regs), ..s.regs }), 5)),
        Instr::Sphl => Ok((with_regs(s, Register { sp: spec_hl(s.regs), ..s.regs }), 5)),
        Instr::Xthl => match sread16(s, s.regs.sp) {
            Err(e) => Err(e),
            Ok(v) => match swrite(s, s.regs.sp, s.regs.l) {
                Err(e) => Err(e),
                Ok(s1) => match swrite(s1, spec_add16(s.regs.sp, 1), s.regs.h) {
                    Err(e) => Err(e),
                    Ok(s2) => Ok(
                        (with_regs(s2, Register { h: word_hi(v), l: word_lo(v), ..s2.regs }), 18),
                    ),
                },
            },
        },
        Instr::Xchg => Ok(
            (
                with_regs(
                    s,
                    Register { h: s.regs.d, l: s.regs.e, d: s.regs.h, e: s.regs.l, ..s.regs },
                ),
                5,
            ),
        ),
        Instr::Push(pp) => match spush(s, push_val(s.regs, pp)) {
            Err(e) => Err(e),
            Ok(s1) => Ok((s1, 11)),
        },
        Instr::Pop(pp) => match spop(s) {
            Err(e) => Err(e),
            Ok((s1, w)) => Ok((with_regs(s1, set_push_pair(s1.regs, pp, w)), 10)),
        },
        Instr::InPort => match fetch8(s) {
            Err(e) => Err(e),
            Ok((s1, _)) => Ok((s1, 10)),
        },
        Instr::OutPort => match fetch8(s) {
            Err(e) => Err(e),
            Ok((s1, _)) => Ok((s1, 10)),
        },
    }
}

/// One fetch-decode-execute step.  A halted engine does not advance PC and
/// idles for the cost of a NOP; an accepted interrupt is what resumes it.
pub open spec fn step_view(pre: MachineView) -> Result<(MachineView, u32), MemError> {
    if pre.halted {
        Ok((pre, 4))
    } else {
        match sread(pre, pre.regs.pc) {
            Err(e) => Err(e),
            Ok(op) => exec_instr(
                with_regs(pre, Register { pc: spec_add16(pre.regs.pc, 1), ..pre.regs }),
                spec_decode(op),
            ),
        }
    }
}

/// Every instruction costs between 4 and 18 cycles.
pub proof fn lemma_exec_cycles(s: MachineView, i: Instr)
    ensures
        exec_instr(s, i) matches Ok((v, c)) ==> 4 <= c <= 18,
{
    reveal(exec_instr);
    match i {
        Instr::Nop => {
        },
        Instr::Hlt => {
        },
        Instr::Ei => {
        },
        Instr::Di => {
        },
        Instr::Mov(d, src) => {
        },
        Instr::Mvi(d) => {
        },
        Instr::Alu(op, src) => {
        },
        Instr::AluImm(op) => {
        },
        Instr::Inr(g) => {
        },
        Instr::Dcr(g) => {
        },
        Instr::Lxi(rp) => {
        },
        Instr::Inx(rp) => {
        },
        Instr::Dcx(rp) => {
        },
        Instr::Dad(rp) => {
        },
        Instr::StaxB => {
        },
        Instr::StaxD => {
        },
        Instr::LdaxB => {
        },
        Instr::LdaxD => {
        },
        Instr::Shld => {
        },
        Instr::Lhld => {
        },
        Instr::Sta => {
        },
        Instr::Lda => {
        },
        Instr::Rlc => {
        },
        Instr::Rrc => {
        },
        Instr::Ral => {
        },
        Instr::Rar => {
        },
        Instr::Daa => {
        },
        Instr::Cma => {
        },
        Instr::Stc => {
        },
        Instr::Cmc => {
        },
        Instr::Jmp => {
        },
        Instr::Jcc(c) => {
        },
        Instr::Call => {
        },
        Instr::Ccc(c) => {
        },
        Instr::Ret => {
        },
        Instr::Rcc(c) => {
        },
        Instr::Rst(n) => {
        },
        Instr::Pchl => {
        },
        Instr::Sphl => {
        },
        Instr::Xthl => {
        },
        Instr::Xchg => {
        },
        Instr::Push(pp) => {
        },
        Instr::Pop(pp) => {
        },
        Instr::InPort => {
        },
        Instr::OutPort => {
        },
    }
}

/// Every step costs between 4 and 18 cycles.
pub proof fn lemma_step_cycles(pre: MachineView)
    ensures
        step_view(pre) matches Ok((v, c)) ==> 4 <= c <= 18,
{
    if !pre.halted {
        match sread(pre, pre.regs.pc) {
            Err(_) => {
            },
            Ok(op) => {
                lemma_exec_cycles(
                    with_regs(pre, Register { pc: spec_add16(pre.regs.pc, 1), ..pre.regs }),
                    spec_decode(op),
                );
            },
        }
    }
}

/// The outcome of stepping until the accumulated cycle count exceeds a
/// budget: the final state with the total, or the state standing when a
/// step faulted.
pub ghost enum RunOutcome {
    Done(MachineView, int),
    Fault(MachineView, MemError),
}

/// Runs whole instructions, accumulating their cycle costs onto `acc`,
/// until the total exceeds `budget` (overshoot is intended: instruction
/// granularity is coarser than the budget).  A faulting step ends the run
/// with the machine as it stood before that step.
pub open spec fn run_view(v: MachineView, acc: int, budget: int) -> RunOutcome
    decreases
            (if acc <= budget {
                budget + 1 - acc
            } else {
                0
            }),
        when true
        via run_view_decreases
{
    if acc > budget {
        RunOutcome::Done(v, acc)
    } else {
        match step_view(v) {
            Err(e) => RunOutcome::Fault(v, e),
            Ok((v2, c)) => run_view(v2, acc + c, budget),
        }
    }
}

#[via_fn]
proof fn run_view_decreases(v: MachineView, acc: int, budget: int) {
    if acc <= budget {
        lemma_step_cycles(v);
    }
}

/// What an executable instruction body must achieve: the post state and
/// result follow `exec_instr`, and a fault leaves the pre state.
pub open spec fn instr_matches(
    pre: MachineView,
    i: Instr,
    post: MachineView,
    r: Result<u32, MemError>,
) -> bool {
    match exec_instr(pre, i) {
        Ok((v, c)) => r == Ok::<u32, MemError>(c) && post == v,
        Err(e) => r == Err::<u32, MemError>(e) && post == pre,
    }
}

/// What one executable step must achieve: the post state and cycle count
/// follow `step_view`, and a fault leaves the pre state.
pub open spec fn step_matches(pre: MachineView, post: MachineView, r: Result<u32, MemError>) -> bool {
    match step_view(pre) {
        Ok((v, c)) => r == Ok::<u32, MemError>(c) && post == v,
        Err(e) => r == Err::<u32, MemError>(e) && post == pre,
    }
}

/// What an executable interrupt request must achieve.
pub open spec fn int_matches(
    pre: MachineView,
    vector: u16,
    post: MachineView,
    r: Result<bool, MemError>,
) -> bool {
    match int_view(pre, vector) {
        Ok((v, b)) => r == Ok::<bool, MemError>(b) && post == v,
        Err(e) => r == Err::<bool, MemError>(e) && post == pre,
    }
}

/// Interrupt acceptance.  Disarmed: the request is dropped, nothing
/// changes.  Armed: the prior PC is pushed exactly as CALL pushes it, PC
/// becomes the vector, further acceptance is disabled until EI, and a
/// halted engine resumes.
pub open spec fn int_view(pre: MachineView, vector: u16) -> Result<(MachineView, bool), MemError> {
    if !pre.int_enabled {
        Ok((pre, false))
    } else {
        match spush(pre, pre.regs.pc) {
            Err(e) => Err(e),
            Ok(v1) => Ok(
                (
                    MachineView {
                        regs: Register { pc: vector, ..v1.regs },
                        int_enabled: false,
                        halted: false,
                        ..v1
                    },
                    true,
                ),
            ),
        }
    }
}

} // verus!
