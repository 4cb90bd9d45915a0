//! Laws of the machine, stated and proved once and for all inputs: the
//! flag characterizations of the ALU, the carry discipline of INR/DCR, the
//! CALL/RET and PUSH/POP round-trips, interrupt acceptance, and the
//! scheduler's vector alternation.

use vstd::prelude::*;

use crate::alu::bit7;
use crate::alu::lemma_add16;
use crate::alu::lemma_sub16;
use crate::alu::lemma_word_join;
use crate::alu::lemma_word_parts;
use crate::alu::parity_even;
use crate::alu::spec_add16;
use crate::alu::spec_alu;
use crate::alu::spec_daa;
use crate::alu::spec_dcr8;
use crate::alu::spec_inr8;
use crate::alu::spec_sub16;
use crate::alu::spec_word;
use crate::alu::word_hi;
use crate::alu::word_lo;
use crate::alu::AluOp;
use crate::instr::Instr;
use crate::instr::PushPair;
use crate::instr::Reg;
use crate::register::lemma_flags_byte_roundtrip;
use crate::register::push_val;
use crate::register::Register;
use crate::semantics::exec_instr;
use crate::semantics::int_view;
use crate::semantics::lemma_step_cycles;
use crate::semantics::run_view;
use crate::semantics::sread;
use crate::semantics::step_view;
use crate::semantics::swrite;
use crate::semantics::view_wf;
use crate::semantics::MachineView;
use crate::semantics::RunOutcome;

verus! {

/// Every 8-bit ALU operation sets Z exactly when its result is zero, S
/// exactly to bit 7 of the result, and P exactly when the result's
/// population count is even, whatever the operands.
pub proof fn lemma_alu_zsp(op: AluOp, a: u8, b: u8, cy: bool)
    ensures
        spec_alu(op, a, b, cy).z <==> spec_alu(op, a, b, cy).result == 0,
        spec_alu(op, a, b, cy).s <==> bit7(spec_alu(op, a, b, cy).result),
        spec_alu(op, a, b, cy).p <==> parity_even(spec_alu(op, a, b, cy).result),
{
}

/// INR, DCR and DAA obey the same Z/S/P characterization.
pub proof fn lemma_inr_dcr_daa_zsp(v: u8, cy: bool, ac: bool)
    ensures
        spec_inr8(v, cy).z <==> spec_inr8(v, cy).result == 0,
        spec_inr8(v, cy).s <==> bit7(spec_inr8(v, cy).result),
        spec_inr8(v, cy).p <==> parity_even(spec_inr8(v, cy).result),
        spec_dcr8(v, cy).z <==> spec_dcr8(v, cy).result == 0,
        spec_dcr8(v, cy).s <==> bit7(spec_dcr8(v, cy).result),
        spec_dcr8(v, cy).p <==> parity_even(spec_dcr8(v, cy).result),
        spec_daa(v, cy, ac).z <==> spec_daa(v, cy, ac).result == 0,
        spec_daa(v, cy, ac).s <==> bit7(spec_daa(v, cy, ac).result),
        spec_daa(v, cy, ac).p <==> parity_even(spec_daa(v, cy, ac).result),
{
}

/// INR and DCR never change CY: for every operand (register or memory) and
/// every starting carry, the carry after the instruction equals the carry
/// before it.
pub proof fn lemma_inr_dcr_preserve_cy(s: MachineView, g: Reg)
    ensures
        exec_instr(s, Instr::Inr(g)) matches Ok((v, c)) ==> v.regs.flag_cy == s.regs.flag_cy,
        exec_instr(s, Instr::Dcr(g)) matches Ok((v, c)) ==> v.regs.flag_cy == s.regs.flag_cy,
{
    reveal(crate::semantics::exec_instr);
}

/// CALL then RET is a PC/SP round-trip: from any state whose next two
/// bytes at PC spell `target` and whose stack tops are writable, CALL
/// pushes the return address and jumps, and RET from the resulting state
/// restores PC to the instruction after the CALL and SP to its old value.
/// (`s` stands after the CALL opcode fetch, so the return address is
/// `s.regs.pc + 2`.)
pub proof fn lemma_call_ret_roundtrip(s: MachineView, target: u16)
    requires
        view_wf(s),
        s.writable.contains(spec_sub16(s.regs.sp, 1)),
        s.writable.contains(spec_sub16(s.regs.sp, 2)),
        s.mem.dom().contains(s.regs.pc),
        s.mem.dom().contains(spec_add16(s.regs.pc, 1)),
        spec_word(s.mem[s.regs.pc], s.mem[spec_add16(s.regs.pc, 1)]) == target,
    ensures
        ({
            let r1 = exec_instr(s, Instr::Call);
            &&& r1 matches Ok((v1, c1))
            &&& c1 == 17
            &&& v1.regs.pc == target
            &&& v1.regs.sp == spec_sub16(s.regs.sp, 2)
            &&& ({
                let r2 = exec_instr(r1->Ok_0.0, Instr::Ret);
                &&& r2 matches Ok((v2, c2))
                &&& c2 == 10
                &&& v2.regs.pc == spec_add16(s.regs.pc, 2)
                &&& v2.regs.sp == s.regs.sp
            })
        }),
{
    reveal(crate::semantics::exec_instr);
    let sp = s.regs.sp;
    let a1 = spec_sub16(sp, 1);
    let a2 = spec_sub16(sp, 2);
    lemma_sub16(sp, 1);
    lemma_sub16(sp, 2);
    lemma_add16(a2, 1);
    lemma_add16(a2, 2);
    let ret = spec_add16(s.regs.pc, 2);
    lemma_word_parts(word_lo(ret), word_hi(ret));
    lemma_word_join(ret);
    assert(spec_add16(a2, 1) == a1);
    assert(spec_add16(a2, 2) == sp);
}

/// PUSH then POP on any register pair, and on PSW with the packed flags,
/// restores the entire register file: the exact 16-bit value round-trips.
#[verifier::rlimit(100)]
pub proof fn lemma_push_pop_roundtrip(s: MachineView, pp: PushPair)
    requires
        view_wf(s),
        s.writable.contains(spec_sub16(s.regs.sp, 1)),
        s.writable.contains(spec_sub16(s.regs.sp, 2)),
    ensures
        ({
            let r1 = exec_instr(s, Instr::Push(pp));
            &&& r1 matches Ok((v1, c1))
            &&& c1 == 11
            &&& ({
                let r2 = exec_instr(r1->Ok_0.0, Instr::Pop(pp));
                &&& r2 matches Ok((v2, c2))
                &&& c2 == 10
                &&& v2.regs == s.regs
                &&& push_val(v2.regs, pp) == push_val(s.regs, pp)
            })
        }),
{
    reveal(crate::semantics::exec_instr);
    let sp = s.regs.sp;
    let a1 = spec_sub16(sp, 1);
    let a2 = spec_sub16(sp, 2);
    lemma_sub16(sp, 1);
    lemma_sub16(sp, 2);
    lemma_add16(a2, 1);
    lemma_add16(a2, 2);
    let w = push_val(s.regs, pp);
    lemma_word_parts(word_lo(w), word_hi(w));
    lemma_word_join(w);
    assert(spec_add16(a2, 1) == a1);
    assert(spec_add16(a2, 2) == sp);
    match pp {
        PushPair::BC => {
            lemma_word_parts(s.regs.c, s.regs.b);
        },
        PushPair::DE => {
            lemma_word_parts(s.regs.e, s.regs.d);
        },
        PushPair::HL => {
            lemma_word_parts(s.regs.l, s.regs.h);
        },
        PushPair::PSW => {
            lemma_word_parts(crate::register::spec_flags_byte(s.regs), s.regs.a);
            lemma_flags_byte_roundtrip(s.regs);
        },
    }
}

/// Reading a written address returns exactly the byte last written there,
/// and writing changes no other address.
pub proof fn lemma_read_after_write(v: MachineView, a: u16, b: u8)
    ensures
        swrite(v, a, b) matches Ok(v2) ==> sread(v2, a) == Ok::<u8, crate::memory::MemError>(b)
            && (forall|x: u16| x != a ==> sread(v2, x) == sread(v, x)),
{
}

/// The budget loop overshoots by at most part of one instruction: whenever
/// it completes, the accumulated cycle count strictly exceeds the budget.
pub proof fn lemma_run_overshoot(v: MachineView, acc: int, budget: int)
    ensures
        run_view(v, acc, budget) matches RunOutcome::Done(v2, c) ==> c > budget,
    decreases
            (if acc <= budget {
                budget + 1 - acc
            } else {
                0
            }),
{
    if acc <= budget {
        match step_view(v) {
            Err(_) => {
            },
            Ok((v2, c)) => {
                lemma_step_cycles(v);
                lemma_run_overshoot(v2, acc + c, budget);
            },
        }
    }
}

/// With the controller armed and the stack writable, a request is
/// accepted: the prior PC's bytes land at SP-1/SP-2, PC becomes the
/// vector, and acceptance is disabled until EI runs.
pub proof fn lemma_interrupt_accepted(s: MachineView, vector: u16)
    requires
        view_wf(s),
        s.int_enabled,
        s.writable.contains(spec_sub16(s.regs.sp, 1)),
        s.writable.contains(spec_sub16(s.regs.sp, 2)),
    ensures
        ({
            let r = int_view(s, vector);
            &&& r matches Ok((v, accepted))
            &&& accepted
            &&& v.regs.pc == vector
            &&& v.regs.sp == spec_sub16(s.regs.sp, 2)
            &&& v.mem[spec_sub16(s.regs.sp, 1)] == word_hi(s.regs.pc)
            &&& v.mem[spec_sub16(s.regs.sp, 2)] == word_lo(s.regs.pc)
            &&& !v.int_enabled
            &&& !v.halted
        }),
{
    lemma_sub16(s.regs.sp, 1);
    lemma_sub16(s.regs.sp, 2);
}

/// With the controller disarmed, a request is dropped: it reports false
/// and changes nothing at all.
pub proof fn lemma_interrupt_rejected(s: MachineView, vector: u16)
    requires
        !s.int_enabled,
    ensures
        int_view(s, vector) == Ok::<(MachineView, bool), crate::memory::MemError>((s, false)),
{
}

/// Across three consecutive frames, the scheduler requests the vectors
/// mid, end, mid, end, mid, end: each half-frame takes the vector that is
/// due and hands the turn to the other.
pub proof fn lemma_vector_alternation(s0: crate::scheduler::FrameScheduler)
    requires
        !s0.phase,
    ensures
        ({
            let s1 = s0.spec_toggle();
            let s2 = s1.spec_toggle();
            let s3 = s2.spec_toggle();
            let s4 = s3.spec_toggle();
            let s5 = s4.spec_toggle();
            &&& s0.current_vector() == s0.vector_mid
            &&& s1.current_vector() == s0.vector_end
            &&& s2.current_vector() == s0.vector_mid
            &&& s3.current_vector() == s0.vector_end
            &&& s4.current_vector() == s0.vector_mid
            &&& s5.current_vector() == s0.vector_end
        }),
{
}

} // verus!
