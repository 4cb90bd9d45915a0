//! The execution engine: fetch-decode-execute over an address bus and the
//! register file.  `next` performs one instruction and returns its cycle
//! cost; `interrupt` offers a vector to the interrupt logic.  Both are
//! proved to implement the spec-level transitions of `semantics`, and a
//! faulting step applies nothing at all.

use vstd::prelude::*;

use crate::alu::alu8;
use crate::alu::daa8;
use crate::alu::dad16;
use crate::alu::dcr8;
use crate::alu::inr8;
use crate::alu::lemma_sub16;
use crate::alu::make_word;
use crate::alu::word_hi;
use crate::alu::ral8;
use crate::alu::rar8;
use crate::alu::rlc8;
use crate::alu::rrc8;
use crate::alu::split_hi;
use crate::alu::split_lo;
use crate::alu::wadd16;
use crate::alu::wsub16;
use crate::alu::AluOp;
use crate::instr::decode;
use crate::instr::Cond;
use crate::instr::Instr;
use crate::instr::PushPair;
use crate::instr::Reg;
use crate::instr::RegPair;
use crate::memory::Addressing;
use crate::memory::MemError;
use crate::register::Register;
use crate::semantics::fetch8;
use crate::semantics::fetch16;
use crate::semantics::instr_matches;
use crate::semantics::int_matches;
use crate::semantics::lemma_step_cycles;
use crate::semantics::run_view;
use crate::semantics::RunOutcome;
use crate::semantics::spop;
use crate::semantics::spush;
use crate::semantics::sread;
use crate::semantics::step_matches;
use crate::semantics::step_view;
use crate::semantics::swrite;
use crate::semantics::MachineView;

verus! {

/// The processor: register file, address bus, the halt latch and the
/// interrupt-enable latch.
pub struct Cpu<A: Addressing> {
    pub register: Register,
    pub addring: A,
    pub halted: bool,
    pub int_enabled: bool,
}

impl<A: Addressing> View for Cpu<A> {
    type V = MachineView;

    open spec fn view(&self) -> MachineView {
        MachineView {
            regs: self.register,
            mem: Map::new(|a: u16| self.addring.mapped(a), |a: u16| self.addring.byte_at(a)),
            writable: Set::new(|a: u16| self.addring.writable(a)),
            halted: self.halted,
            int_enabled: self.int_enabled,
        }
    }
}

impl<A: Addressing> Cpu<A> {
    pub open spec fn wf(&self) -> bool {
        self.addring.inv()
    }

    /// Power-on: PC at the entry point, every other register and flag 0,
    /// running, interrupts disarmed.
    pub fn new(addring: A, entry: u16) -> (c: Cpu<A>)
        requires
            addring.inv(),
        ensures
            c.wf(),
            c.register == Register::new_spec(entry),
            c.addring == addring,
            !c.halted,
            !c.int_enabled,
    {
        Cpu { register: Register::new(entry), addring, halted: false, int_enabled: false }
    }

    /// A bus read, named against the machine model.
    fn read_bus(&self, addr: u16) -> (r: Result<u8, MemError>)
        requires
            self.wf(),
        ensures
            r == sread(self@, addr),
    {
        let r = self.addring.get_mem(addr);
        proof {
            if self.addring.mapped(addr) {
                assert(self@.mem.dom().contains(addr));
                assert(self@.mem[addr] == self.addring.byte_at(addr));
            } else {
                assert(!self@.mem.dom().contains(addr));
            }
        }
        r
    }

    /// A bus write, named against the machine model; a rejected write
    /// changes nothing.
    fn write_bus(&mut self, addr: u16, val: u8) -> (r: Result<(), MemError>)
        requires
            old(self).wf(),
        ensures
            final(self).wf(),
            final(self).register == old(self).register,
            final(self).halted == old(self).halted,
            final(self).int_enabled == old(self).int_enabled,
            match swrite(old(self)@, addr, val) {
                Ok(v) => r == Ok::<(), MemError>(()) && final(self)@ == v,
                Err(e) => r == Err::<(), MemError>(e) && *final(self) == *old(self),
            },
    {
        let ghost pre = self@;
        let r = self.addring.set_mem(addr, val);
        proof {
            assert(pre.writable.contains(addr) == old(self).addring.writable(addr));
            assert(pre.mem.dom().contains(addr) == old(self).addring.mapped(addr));
            if old(self).addring.writable(addr) {
                old(self).addring.lemma_writable_mapped(addr);
                assert(self@.mem =~= pre.mem.insert(addr, val));
                assert(self@.writable =~= pre.writable);
                assert(self@ =~= (MachineView { mem: pre.mem.insert(addr, val), ..pre }));
            }
        }
        r
    }

    /// Asks whether a write would succeed, with the error it would give.
    fn probe_bus(&self, addr: u16) -> (r: Result<(), MemError>)
        requires
            self.wf(),
        ensures
            (r is Ok) <==> self@.writable.contains(addr),
            !self@.writable.contains(addr) ==> r == Err::<(), MemError>(
                if !self@.mem.dom().contains(addr) {
                    MemError::Unmapped
                } else {
                    MemError::ReadOnlyWrite
                },
            ),
    {
        let r = self.addring.probe_write(addr);
        proof {
            assert(self@.writable.contains(addr) == self.addring.writable(addr));
            assert(self@.mem.dom().contains(addr) == self.addring.mapped(addr));
        }
        r
    }

    /// Fetches the byte at PC and advances PC past it.
    fn get_next_byte(&mut self) -> (r: Result<u8, MemError>)
        requires
            old(self).wf(),
        ensures
            final(self).wf(),
            match fetch8(old(self)@) {
                Ok((v, b)) => r == Ok::<u8, MemError>(b) && final(self)@ == v,
                Err(e) => r == Err::<u8, MemError>(e) && *final(self) == *old(self),
            },
    {
        match self.read_bus(self.register.pc) {
            Err(e) => Err(e),
            Ok(b) => {
                self.register.pc = wadd16(self.register.pc, 1);
                Ok(b)
            },
        }
    }

    /// Fetches the little-endian word at PC and advances PC past it.
    fn get_next_word(&mut self) -> (r: Result<u16, MemError>)
        requires
            old(self).wf(),
        ensures
            final(self).wf(),
            match fetch16(old(self)@) {
                Ok((v, w)) => r == Ok::<u16, MemError>(w) && final(self)@ == v,
                Err(e) => r == Err::<u16, MemError>(e) && *final(self) == *old(self),
            },
    {
        let pc = self.register.pc;
        let lo = match self.read_bus(pc) {
            Err(e) => {
                return Err(e);
            },
            Ok(b) => b,
        };
        let hi = match self.read_bus(wadd16(pc, 1)) {
            Err(e) => {
                return Err(e);
            },
            Ok(b) => b,
        };
        self.register.pc = wadd16(pc, 2);
        Ok(make_word(lo, hi))
    }

    /// CALL-style push of one word; checks both stack bytes are writable
    /// before writing either, so a rejected push changes nothing.
    fn push_word(&mut self, w: u16) -> (r: Result<(), MemError>)
        requires
            old(self).wf(),
        ensures
            final(self).wf(),
            match spush(old(self)@, w) {
                Ok(v) => r == Ok::<(), MemError>(()) && final(self)@ == v,
                Err(e) => r == Err::<(), MemError>(e) && *final(self) == *old(self),
            },
    {
        let ghost pre = self@;
        let a1 = wsub16(self.register.sp, 1);
        let a2 = wsub16(self.register.sp, 2);
        proof {
            lemma_sub16(pre.regs.sp, 1);
            lemma_sub16(pre.regs.sp, 2);
            assert(a1 != a2);
        }
        match self.probe_bus(a1) {
            Err(e) => {
                return Err(e);
            },
            Ok(_) => (),
        }
        match self.probe_bus(a2) {
            Err(e) => {
                proof {
                    let v1 = swrite(pre, a1, word_hi(w))->Ok_0;
                    assert(v1.mem.dom().contains(a2) == pre.mem.dom().contains(a2));
                }
                return Err(e);
            },
            Ok(_) => (),
        }
        let _ = self.write_bus(a1, split_hi(w));
        let _ = self.write_bus(a2, split_lo(w));
        self.register.sp = a2;
        Ok(())
    }

    fn ex_nop(&mut self) -> (r: Result<u32, MemError>)
        requires
            old(self).wf(),
        ensures
            final(self).wf(),
            instr_matches(old(self)@, Instr::Nop, final(self)@, r),
    {
        proof {
            reveal(crate::semantics::exec_instr);
        }
        Ok(4)
    }

    fn ex_hlt(&mut self) -> (r: Result<u32, MemError>)
        requires
            old(self).wf(),
        ensures
            final(self).wf(),
            instr_matches(old(self)@, Instr::Hlt, final(self)@, r),
    {
        proof {
            reveal(crate::semantics::exec_instr);
        }
        self.halted = true;
        Ok(7)
    }

    fn ex_ei(&mut self) -> (r: Result<u32, MemError>)
        requires
            old(self).wf(),
        ensures
            final(self).wf(),
            instr_matches(old(self)@, Instr::Ei, final(self)@, r),
    {
        proof {
            reveal(crate::semantics::exec_instr);
        }
        self.int_enabled = true;
        Ok(4)
    }

    fn ex_di(&mut self) -> (r: Result<u32, MemError>)
        requires
            old(self).wf(),
        ensures
            final(self).wf(),
            instr_matches(old(self)@, Instr::Di, final(self)@, r),
    {
        proof {
            reveal(crate::semantics::exec_instr);
        }
        self.int_enabled = false;
        Ok(4)
    }

    #[verifier::rlimit(60)]
    fn ex_mov(&mut self, d: Reg, s: Reg) -> (r: Result<u32, MemError>)
        requires
            old(self).wf(),
        ensures
            final(self).wf(),
            instr_matches(old(self)@, Instr::Mov(d, s), final(self)@, r),
    {
        proof {
            reveal(crate::semantics::exec_instr);
        }
        match s {
            Reg::M => {
                let hl = self.register.get_hl();
                let b = match self.read_bus(hl) {
                    Err(e) => {
                        return Err(e);
                    },
                    Ok(b) => b,
                };
                match d {
                    Reg::M => match self.write_bus(hl, b) {
                        Err(e) => Err(e),
                        Ok(_) => Ok(7),
                    },
                    _ => {
                        self.register.set8(d, b);
                        Ok(7)
                    },
                }
            },
            _ => {
                let b = self.register.get8(s);
                match d {
                    Reg::M => {
                        let hl = self.register.get_hl();
                        match self.write_bus(hl, b) {
                            Err(e) => Err(e),
                            Ok(_) => Ok(7),
                        }
                    },
                    _ => {
                        self.register.set8(d, b);
                        Ok(5)
                    },
                }
            },
        }
    }

    fn ex_mvi(&mut self, d: Reg) -> (r: Result<u32, MemError>)
        requires
            old(self).wf(),
        ensures
            final(self).wf(),
            instr_matches(old(self)@, Instr::Mvi(d), final(self)@, r),
    {
        proof {
            reveal(crate::semantics::exec_instr);
        }
        let pc0 = self.register.pc;
        let b = match self.get_next_byte() {
            Err(e) => {
                return Err(e);
            },
            Ok(b) => b,
        };
        match d {
            Reg::M => {
                let hl = self.register.get_hl();
                match self.write_bus(hl, b) {
                    Err(e) => {
                        self.register.pc = pc0;
                        Err(e)
                    },
                    Ok(_) => Ok(10),
                }
            },
            _ => {
                self.register.set8(d, b);
                Ok(7)
            },
        }
    }

    fn ex_alu(&mut self, op: AluOp, src: Reg) -> (r: Result<u32, MemError>)
        requires
            old(self).wf(),
        ensures
            final(self).wf(),
            instr_matches(old(self)@, Instr::Alu(op, src), final(self)@, r),
    {
        proof {
            reveal(crate::semantics::exec_instr);
        }
        let (b, cyc): (u8, u32) = match src {
            Reg::M => {
                let hl = self.register.get_hl();
                match self.read_bus(hl) {
                    Err(e) => {
                        return Err(e);
                    },
                    Ok(v) => (v, 7),
                }
            },
            _ => (self.register.get8(src), 4),
        };
        let f = alu8(op, self.register.a, b, self.register.flag_cy);
        self.register.apply_alu(f, !(matches!(op, AluOp::Cmp)));
        Ok(cyc)
    }

    fn ex_alu_imm(&mut self, op: AluOp) -> (r: Result<u32, MemError>)
        requires
            old(self).wf(),
        ensures
            final(self).wf(),
            instr_matches(old(self)@, Instr::AluImm(op), final(self)@, r),
    {
        proof {
            reveal(crate::semantics::exec_instr);
        }
        let b = match self.get_next_byte() {
            Err(e) => {
                return Err(e);
            },
            Ok(b) => b,
        };
        let f = alu8(op, self.register.a, b, self.register.flag_cy);
        self.register.apply_alu(f, !(matches!(op, AluOp::Cmp)));
        Ok(7)
    }

    /// INR: increment, Z/S/P/AC from the result, CY untouched.
    fn ex_inr(&mut self, g: Reg) -> (r: Result<u32, MemError>)
        requires
            old(self).wf(),
        ensures
            final(self).wf(),
            instr_matches(old(self)@, Instr::Inr(g), final(self)@, r),
    {
        proof {
            reveal(crate::semantics::exec_instr);
        }
        match g {
            Reg::M => {
                let hl = self.register.get_hl();
                let b = match self.read_bus(hl) {
                    Err(e) => {
                        return Err(e);
                    },
                    Ok(v) => v,
                };
                let f = inr8(b, self.register.flag_cy);
                match self.write_bus(hl, f.result) {
                    Err(e) => Err(e),
                    Ok(_) => {
                        self.register.apply_flags_only(f);
                        Ok(10)
                    },
                }
            },
            _ => {
                let f = inr8(self.register.get8(g), self.register.flag_cy);
                self.register.apply_flags_only(f);
                self.register.set8(g, f.result);
                Ok(5)
            },
        }
    }

    /// DCR: decrement, Z/S/P/AC from the result, CY untouched.
    fn ex_dcr(&mut self, g: Reg) -> (r: Result<u32, MemError>)
        requires
            old(self).wf(),
        ensures
            final(self).wf(),
            instr_matches(old(self)@, Instr::Dcr(g), final(self)@, r),
    {
        proof {
            reveal(crate::semantics::exec_instr);
        }
        match g {
            Reg::M => {
                let hl = self.register.get_hl();
                let b = match self.read_bus(hl) {
                    Err(e) => {
                        return Err(e);
                    },
                    Ok(v) => v,
                };
                let f = dcr8(b, self.register.flag_cy);
                match self.write_bus(hl, f.result) {
                    Err(e) => Err(e),
                    Ok(_) => {
                        self.register.apply_flags_only(f);
                        Ok(10)
                    },
                }
            },
            _ => {
                let f = dcr8(self.register.get8(g), self.register.flag_cy);
                self.register.apply_flags_only(f);
                self.register.set8(g, f.result);
                Ok(5)
            },
        }
    }

    fn ex_lxi(&mut self, rp: RegPair) -> (r: Result<u32, MemError>)
        requires
            old(self).wf(),
        ensures
            final(self).wf(),
            instr_matches(old(self)@, Instr::Lxi(rp), final(self)@, r),
    {
        proof {
            reveal(crate::semantics::exec_instr);
        }
        let w = match self.get_next_word() {
            Err(e) => {
                return Err(e);
            },
            Ok(w) => w,
        };
        self.register.put_pair(rp, w);
        Ok(10)
    }

    fn ex_inx(&mut self, rp: RegPair) -> (r: Result<u32, MemError>)
        requires
            old(self).wf(),
        ensures
            final(self).wf(),
            instr_matches(old(self)@, Instr::Inx(rp), final(self)@, r),
    {
        proof {
            reveal(crate::semantics::exec_instr);
        }
        let w = wadd16(self.register.get_pair(rp), 1);
        self.register.put_pair(rp, w);
        Ok(5)
    }

    fn ex_dcx(&mut self, rp: RegPair) -> (r: Result<u32, MemError>)
        requires
            old(self).wf(),
        ensures
            final(self).wf(),
            instr_matches(old(self)@, Instr::Dcx(rp), final(self)@, r),
    {
        proof {
            reveal(crate::semantics::exec_instr);
        }
        let w = wsub16(self.register.get_pair(rp), 1);
        self.register.put_pair(rp, w);
        Ok(5)
    }

    /// DAD: 16-bit add into HL, CY from the carry out of bit 15.
    fn ex_dad(&mut self, rp: RegPair) -> (r: Result<u32, MemError>)
        requires
            old(self).wf(),
        ensures
            final(self).wf(),
            instr_matches(old(self)@, Instr::Dad(rp), final(self)@, r),
    {
        proof {
            reveal(crate::semantics::exec_instr);
        }
        let (w, c) = dad16(self.register.get_hl(), self.register.get_pair(rp));
        self.register.set_hl(w);
        self.register.flag_cy = c;
        Ok(10)
    }

    fn ex_stax_b(&mut self) -> (r: Result<u32, MemError>)
        requires
            old(self).wf(),
        ensures
            final(self).wf(),
            instr_matches(old(self)@, Instr::StaxB, final(self)@, r),
    {
        proof {
            reveal(crate::semantics::exec_instr);
        }
        let a = self.register.get_bc();
        let v = self.register.a;
        match self.write_bus(a, v) {
            Err(e) => Err(e),
            Ok(_) => Ok(7),
        }
    }

    fn ex_stax_d(&mut self) -> (r: Result<u32, MemError>)
        requires
            old(self).wf(),
        ensures
            final(self).wf(),
            instr_matches(old(self)@, Instr::StaxD, final(self)@, r),
    {
        proof {
            reveal(crate::semantics::exec_instr);
        }
        let a = self.register.get_de();
        let v = self.register.a;
        match self.write_bus(a, v) {
            Err(e) => Err(e),
            Ok(_) => Ok(7),
        }
    }

    fn ex_ldax_b(&mut self) -> (r: Result<u32, MemError>)
        requires
            old(self).wf(),
        ensures
            final(self).wf(),
            instr_matches(old(self)@, Instr::LdaxB, final(self)@, r),
    {
        proof {
            reveal(crate::semantics::exec_instr);
        }
        let a = self.register.get_bc();
        match self.read_bus(a) {
            Err(e) => Err(e),
            Ok(b) => {
                self.register.a = b;
                Ok(7)
            },
        }
    }

    fn ex_ldax_d(&mut self) -> (r: Result<u32, MemError>)
        requires
            old(self).wf(),
        ensures
            final(self).wf(),
            instr_matches(old(self)@, Instr::LdaxD, final(self)@, r),
    {
        proof {
            reveal(crate::semantics::exec_instr);
        }
        let a = self.register.get_de();
        match self.read_bus(a) {
            Err(e) => Err(e),
            Ok(b) => {
                self.register.a = b;
                Ok(7)
            },
        }
    }

    fn ex_sta(&mut self) -> (r: Result<u32, MemError>)
        requires
            old(self).wf(),
        ensures
            final(self).wf(),
            instr_matches(old(self)@, Instr::Sta, final(self)@, r),
    {
        proof {
            reveal(crate::semantics::exec_instr);
        }
        let pc0 = self.register.pc;
        let w = match self.get_next_word() {
            Err(e) => {
                return Err(e);
            },
            Ok(w) => w,
        };
        let v = self.register.a;
        match self.write_bus(w, v) {
            Err(e) => {
                self.register.pc = pc0;
                Err(e)
            },
            Ok(_) => Ok(13),
        }
    }

    fn ex_lda(&mut self) -> (r: Result<u32, MemError>)
        requires
            old(self).wf(),
        ensures
            final(self).wf(),
            instr_matches(old(self)@, Instr::Lda, final(self)@, r),
    {
        proof {
            reveal(crate::semantics::exec_instr);
        }
        let pc0 = self.register.pc;
        let w = match self.get_next_word() {
            Err(e) => {
                return Err(e);
            },
            Ok(w) => w,
        };
        match self.read_bus(w) {
            Err(e) => {
                self.register.pc = pc0;
                Err(e)
            },
            Ok(b) => {
                self.register.a = b;
                Ok(13)
            },
        }
    }

    /// SHLD: checks both target bytes are writable before writing either.
    fn ex_shld(&mut self) -> (r: Result<u32, MemError>)
        requires
            old(self).wf(),
        ensures
            final(self).wf(),
            instr_matches(old(self)@, Instr::Shld, final(self)@, r),
    {
        proof {
            reveal(crate::semantics::exec_instr);
        }
        let pc0 = self.register.pc;
        let w = match self.get_next_word() {
            Err(e) => {
                return Err(e);
            },
            Ok(w) => w,
        };
        let ghost s1 = self@;
        let w1 = wadd16(w, 1);
        proof {
            crate::alu::lemma_add16(w, 1);
        }
        match self.probe_bus(w) {
            Err(e) => {
                self.register.pc = pc0;
                return Err(e);
            },
            Ok(_) => (),
        }
        match self.probe_bus(w1) {
            Err(e) => {
                proof {
                    let v2 = swrite(s1, w, s1.regs.l)->Ok_0;
                    assert(v2.mem.dom().contains(w1) == s1.mem.dom().contains(w1));
                }
                self.register.pc = pc0;
                return Err(e);
            },
            Ok(_) => (),
        }
        let l = self.register.l;
        let h = self.register.h;
        let _ = self.write_bus(w, l);
        let _ = self.write_bus(w1, h);
        Ok(16)
    }

    fn ex_lhld(&mut self) -> (r: Result<u32, MemError>)
        requires
            old(self).wf(),
        ensures
            final(self).wf(),
            instr_matches(old(self)@, Instr::Lhld, final(self)@, r),
    {
        proof {
            reveal(crate::semantics::exec_instr);
        }
        let pc0 = self.register.pc;
        let w = match self.get_next_word() {
            Err(e) => {
                return Err(e);
            },
            Ok(w) => w,
        };
        let lo = match self.read_bus(w) {
            Err(e) => {
                self.register.pc = pc0;
                return Err(e);
            },
            Ok(b) => b,
        };
        let hi = match self.read_bus(wadd16(w, 1)) {
            Err(e) => {
                self.register.pc = pc0;
                return Err(e);
            },
            Ok(b) => b,
        };
        let v = make_word(lo, hi);
        self.register.h = split_hi(v);
        self.register.l = split_lo(v);
        Ok(16)
    }

    fn ex_rlc(&mut self) -> (r: Result<u32, MemError>)
        requires
            old(self).wf(),
        ensures
            final(self).wf(),
            instr_matches(old(self)@, Instr::Rlc, final(self)@, r),
    {
        proof {
            reveal(crate::semantics::exec_instr);
        }
        let (a, c) = rlc8(self.register.a);
        self.register.a = a;
        self.register.flag_cy = c;
        Ok(4)
    }

    fn ex_rrc(&mut self) -> (r: Result<u32, MemError>)
        requires
            old(self).wf(),
        ensures
            final(self).wf(),
            instr_matches(old(self)@, Instr::Rrc, final(self)@, r),
    {
        proof {
            reveal(crate::semantics::exec_instr);
        }
        let (a, c) = rrc8(self.register.a);
        self.register.a = a;
        self.register.flag_cy = c;
        Ok(4)
    }

    fn ex_ral(&mut self) -> (r: Result<u32, MemError>)
        requires
            old(self).wf(),
        ensures
            final(self).wf(),
            instr_matches(old(self)@, Instr::Ral, final(self)@, r),
    {
        proof {
            reveal(crate::semantics::exec_instr);
        }
        let (a, c) = ral8(self.register.a, self.register.flag_cy);
        self.register.a = a;
        self.register.flag_cy = c;
        Ok(4)
    }

    fn ex_rar(&mut self) -> (r: Result<u32, MemError>)
        requires
            old(self).wf(),
        ensures
            final(self).wf(),
            instr_matches(old(self)@, Instr::Rar, final(self)@, r),
    {
        proof {
            reveal(crate::semantics::exec_instr);
        }
        let (a, c) = rar8(self.register.a, self.register.flag_cy);
        self.register.a = a;
        self.register.flag_cy = c;
        Ok(4)
    }

    fn ex_daa(&mut self) -> (r: Result<u32, MemError>)
        requires
            old(self).wf(),
        ensures
            final(self).wf(),
            instr_matches(old(self)@, Instr::Daa, final(self)@, r),
    {
        proof {
            reveal(crate::semantics::exec_instr);
        }
        let f = daa8(self.register.a, self.register.flag_cy, self.register.flag_ac);
        self.register.apply_alu(f, true);
        Ok(4)
    }

    fn ex_cma(&mut self) -> (r: Result<u32, MemError>)
        requires
            old(self).wf(),
        ensures
            final(self).wf(),
            instr_matches(old(self)@, Instr::Cma, final(self)@, r),
    {
        proof {
            reveal(crate::semantics::exec_instr);
        }
        self.register.a = 255 - self.register.a;
        Ok(4)
    }

    fn ex_stc(&mut self) -> (r: Result<u32, MemError>)
        requires
            old(self).wf(),
        ensures
            final(self).wf(),
            instr_matches(old(self)@, Instr::Stc, final(self)@, r),
    {
        proof {
            reveal(crate::semantics::exec_instr);
        }
        self.register.flag_cy = true;
        Ok(4)
    }

    fn ex_cmc(&mut self) -> (r: Result<u32, MemError>)
        requires
            old(self).wf(),
        ensures
            final(self).wf(),
            instr_matches(old(self)@, Instr::Cmc, final(self)@, r),
    {
        proof {
            reveal(crate::semantics::exec_instr);
        }
        self.register.flag_cy = !self.register.flag_cy;
        Ok(4)
    }

    fn ex_jmp(&mut self) -> (r: Result<u32, MemError>)
        requires
            old(self).wf(),
        ensures
            final(self).wf(),
            instr_matches(old(self)@, Instr::Jmp, final(self)@, r),
    {
        proof {
            reveal(crate::semantics::exec_instr);
        }
        let w = match self.get_next_word() {
            Err(e) => {
                return Err(e);
            },
            Ok(w) => w,
        };
        self.register.pc = w;
        Ok(10)
    }

    fn ex_jcc(&mut self, c: Cond) -> (r: Result<u32, MemError>)
        requires
            old(self).wf(),
        ensures
            final(self).wf(),
            instr_matches(old(self)@, Instr::Jcc(c), final(self)@, r),
    {
        proof {
            reveal(crate::semantics::exec_instr);
        }
        let w = match self.get_next_word() {
            Err(e) => {
                return Err(e);
            },
            Ok(w) => w,
        };
        if self.register.cond_eval(c) {
            self.register.pc = w;
        }
        Ok(10)
    }

    fn ex_call(&mut self) -> (r: Result<u32, MemError>)
        requires
            old(self).wf(),
        ensures
            final(self).wf(),
            instr_matches(old(self)@, Instr::Call, final(self)@, r),
    {
        proof {
            reveal(crate::semantics::exec_instr);
        }
        let pc0 = self.register.pc;
        let w = match self.get_next_word() {
            Err(e) => {
                return Err(e);
            },
            Ok(w) => w,
        };
        let ret = self.register.pc;
        match self.push_word(ret) {
            Err(e) => {
                self.register.pc = pc0;
                Err(e)
            },
            Ok(_) => {
                self.register.pc = w;
                Ok(17)
            },
        }
    }

    fn ex_ccc(&mut self, c: Cond) -> (r: Result<u32, MemError>)
        requires
            old(self).wf(),
        ensures
            final(self).wf(),
            instr_matches(old(self)@, Instr::Ccc(c), final(self)@, r),
    {
        proof {
            reveal(crate::semantics::exec_instr);
        }
        let pc0 = self.register.pc;
        let w = match self.get_next_word() {
            Err(e) => {
                return Err(e);
            },
            Ok(w) => w,
        };
        if self.register.cond_eval(c) {
            let ret = self.register.pc;
            match self.push_word(ret) {
                Err(e) => {
                    self.register.pc = pc0;
                    Err(e)
                },
                Ok(_) => {
                    self.register.pc = w;
                    Ok(17)
                },
            }
        } else {
            Ok(11)
        }
    }

    fn ex_ret(&mut self) -> (r: Result<u32, MemError>)
        requires
            old(self).wf(),
        ensures
            final(self).wf(),
            instr_matches(old(self)@, Instr::Ret, final(self)@, r),
    {
        proof {
            reveal(crate::semantics::exec_instr);
        }
        let w = match self.pop_word() {
            Err(e) => {
                return Err(e);
            },
            Ok(w) => w,
        };
        self.register.pc = w;
        Ok(10)
    }

    fn ex_rcc(&mut self, c: Cond) -> (r: Result<u32, MemError>)
        requires
            old(self).wf(),
        ensures
            final(self).wf(),
            instr_matches(old(self)@, Instr::Rcc(c), final(self)@, r),
    {
        proof {
            reveal(crate::semantics::exec_instr);
        }
        if self.register.cond_eval(c) {
            let w = match self.pop_word() {
                Err(e) => {
                    return Err(e);
                },
                Ok(w) => w,
            };
            self.register.pc = w;
            Ok(11)
        } else {
            Ok(5)
        }
    }

    fn ex_rst(&mut self, n: u8) -> (r: Result<u32, MemError>)
        requires
            old(self).wf(),
        ensures
            final(self).wf(),
            instr_matches(old(self)@, Instr::Rst(n), final(self)@, r),
    {
        proof {
            reveal(crate::semantics::exec_instr);
        }
        let ret = self.register.pc;
        match self.push_word(ret) {
            Err(e) => Err(e),
            Ok(_) => {
                self.register.pc = (n as u16) * 8;
                Ok(11)
            },
        }
    }

    fn ex_pchl(&mut self) -> (r: Result<u32, MemError>)
        requires
            old(self).wf(),
        ensures
            final(self).wf(),
            instr_matches(old(self)@, Instr::Pchl, final(self)@, r),
    {
        proof {
            reveal(crate::semantics::exec_instr);
        }
        self.register.pc = self.register.get_hl();
        Ok(5)
    }

    fn ex_sphl(&mut self) -> (r: Result<u32, MemError>)
        requires
            old(self).wf(),
        ensures
            final(self).wf(),
            instr_matches(old(self)@, Instr::Sphl, final(self)@, r),
    {
        proof {
            reveal(crate::semantics::exec_instr);
        }
        self.register.sp = self.register.get_hl();
        Ok(5)
    }

    /// XTHL: exchanges HL with the word on the stack; checks both stack
    /// bytes are writable before writing either.
    fn ex_xthl(&mut self) -> (r: Result<u32, MemError>)
        requires
            old(self).wf(),
        ensures
            final(self).wf(),
            instr_matches(old(self)@, Instr::Xthl, final(self)@, r),
    {
        proof {
            reveal(crate::semantics::exec_instr);
        }
        let ghost s0 = self@;
        let sp = self.register.sp;
        let sp1 = wadd16(sp, 1);
        proof {
            crate::alu::lemma_add16(sp, 1);
        }
        let lo = match self.read_bus(sp) {
            Err(e) => {
                return Err(e);
            },
            Ok(b) => b,
        };
        let hi = match self.read_bus(sp1) {
            Err(e) => {
                return Err(e);
            },
            Ok(b) => b,
        };
        match self.probe_bus(sp) {
            Err(e) => {
                return Err(e);
            },
            Ok(_) => (),
        }
        match self.probe_bus(sp1) {
            Err(e) => {
                proof {
                    let v1 = swrite(s0, sp, s0.regs.l)->Ok_0;
                    assert(v1.mem.dom().contains(sp1) == s0.mem.dom().contains(sp1));
                }
                return Err(e);
            },
            Ok(_) => (),
        }
        let l = self.register.l;
        let h = self.register.h;
        let _ = self.write_bus(sp, l);
        let _ = self.write_bus(sp1, h);
        let v = make_word(lo, hi);
        self.register.h = split_hi(v);
        self.register.l = split_lo(v);
        Ok(18)
    }

    fn ex_xchg(&mut self) -> (r: Result<u32, MemError>)
        requires
            old(self).wf(),
        ensures
            final(self).wf(),
            instr_matches(old(self)@, Instr::Xchg, final(self)@, r),
    {
        proof {
            reveal(crate::semantics::exec_instr);
        }
        let h = self.register.h;
        let l = self.register.l;
        self.register.h = self.register.d;
        self.register.l = self.register.e;
        self.register.d = h;
        self.register.e = l;
        Ok(5)
    }

    fn ex_push(&mut self, pp: PushPair) -> (r: Result<u32, MemError>)
        requires
            old(self).wf(),
        ensures
            final(self).wf(),
            instr_matches(old(self)@, Instr::Push(pp), final(self)@, r),
    {
        proof {
            reveal(crate::semantics::exec_instr);
        }
        let w = self.register.get_push_pair(pp);
        match self.push_word(w) {
            Err(e) => Err(e),
            Ok(_) => Ok(11),
        }
    }

    fn ex_pop(&mut self, pp: PushPair) -> (r: Result<u32, MemError>)
        requires
            old(self).wf(),
        ensures
            final(self).wf(),
            instr_matches(old(self)@, Instr::Pop(pp), final(self)@, r),
    {
        proof {
            reveal(crate::semantics::exec_instr);
        }
        let w = match self.pop_word() {
            Err(e) => {
                return Err(e);
            },
            Ok(w) => w,
        };
        self.register.put_push_pair(pp, w);
        Ok(10)
    }

    /// IN/OUT: the port byte is consumed; no device exists in this core.
    fn ex_in(&mut self) -> (r: Result<u32, MemError>)
        requires
            old(self).wf(),
        ensures
            final(self).wf(),
            instr_matches(old(self)@, Instr::InPort, final(self)@, r),
    {
        proof {
            reveal(crate::semantics::exec_instr);
        }
        match self.get_next_byte() {
            Err(e) => Err(e),
            Ok(_) => Ok(10),
        }
    }

    fn ex_out(&mut self) -> (r: Result<u32, MemError>)
        requires
            old(self).wf(),
        ensures
            final(self).wf(),
            instr_matches(old(self)@, Instr::OutPort, final(self)@, r),
    {
        proof {
            reveal(crate::semantics::exec_instr);
        }
        match self.get_next_byte() {
            Err(e) => Err(e),
            Ok(_) => Ok(10),
        }
    }

    /// Executes one decoded instruction against the machine as it stands
    /// after the opcode fetch.
    #[verifier::rlimit(100)]
    fn dispatch(&mut self, i: Instr) -> (r: Result<u32, MemError>)
        requires
            old(self).wf(),
        ensures
            final(self).wf(),
            instr_matches(old(self)@, i, final(self)@, r),
    {
        match i {
            Instr::Nop => self.ex_nop(),
            Instr::Hlt => self.ex_hlt(),
            Instr::Ei => self.ex_ei(),
            Instr::Di => self.ex_di(),
            Instr::Mov(d, s) => self.ex_mov(d, s),
            Instr::Mvi(d) => self.ex_mvi(d),
            Instr::Alu(op2, src) => self.ex_alu(op2, src),
            Instr::AluImm(op2) => self.ex_alu_imm(op2),
            Instr::Inr(g) => self.ex_inr(g),
            Instr::Dcr(g) => self.ex_dcr(g),
            Instr::Lxi(rp) => self.ex_lxi(rp),
            Instr::Inx(rp) => self.ex_inx(rp),
            Instr::Dcx(rp) => self.ex_dcx(rp),
            Instr::Dad(rp) => self.ex_dad(rp),
            Instr::StaxB => self.ex_stax_b(),
            Instr::StaxD => self.ex_stax_d(),
            Instr::LdaxB => self.ex_ldax_b(),
            Instr::LdaxD => self.ex_ldax_d(),
            Instr::Shld => self.ex_shld(),
            Instr::Lhld => self.ex_lhld(),
            Instr::Sta => self.ex_sta(),
            Instr::Lda => self.ex_lda(),
            Instr::Rlc => self.ex_rlc(),
            Instr::Rrc => self.ex_rrc(),
            Instr::Ral => self.ex_ral(),
            Instr::Rar => self.ex_rar(),
            Instr::Daa => self.ex_daa(),
            Instr::Cma => self.ex_cma(),
            Instr::Stc => self.ex_stc(),
            Instr::Cmc => self.ex_cmc(),
            Instr::Jmp => self.ex_jmp(),
            Instr::Jcc(c) => self.ex_jcc(c),
            Instr::Call => self.ex_call(),
            Instr::Ccc(c) => self.ex_ccc(c),
            Instr::Ret => self.ex_ret(),
            Instr::Rcc(c) => self.ex_rcc(c),
            Instr::Rst(n) => self.ex_rst(n),
            Instr::Pchl => self.ex_pchl(),
            Instr::Sphl => self.ex_sphl(),
            Instr::Xthl => self.ex_xthl(),
            Instr::Xchg => self.ex_xchg(),
            Instr::Push(pp) => self.ex_push(pp),
            Instr::Pop(pp) => self.ex_pop(pp),
            Instr::InPort => self.ex_in(),
            Instr::OutPort => self.ex_out(),
        }
    }

    /// Performs one instruction: fetch at PC, decode, execute; reports the
    /// instruction's cycle cost, or the bus fault that aborted the step
    /// with the machine unchanged.  A halted engine idles at 4 cycles.
    pub fn next(&mut self) -> (r: Result<u32, MemError>)
        requires
            old(self).wf(),
        ensures
            final(self).wf(),
            step_matches(old(self)@, final(self)@, r),
    {
        if self.halted {
            return Ok(4);
        }
        let pc0 = self.register.pc;
        let op = match self.read_bus(pc0) {
            Err(e) => {
                return Err(e);
            },
            Ok(b) => b,
        };
        self.register.pc = wadd16(pc0, 1);
        let i = decode(op);
        match self.dispatch(i) {
            Ok(c) => Ok(c),
            Err(e) => {
                self.register.pc = pc0;
                Err(e)
            },
        }
    }

    /// Bounded-step mode: performs whole instructions, accumulating their
    /// cycle costs, until the total exceeds `budget`; the loop breaks only
    /// once the total exceeds the budget, never exactly at it, so slight
    /// overshoot is expected.  A bus fault ends the run with the machine as
    /// it stood before the faulting step.
    pub fn run_budget(&mut self, budget: u32) -> (r: Result<u32, MemError>)
        requires
            old(self).wf(),
            budget <= 0x7FFF_FFFF,
        ensures
            final(self).wf(),
            match run_view(old(self)@, 0, budget as int) {
                RunOutcome::Done(v, c) => r is Ok && r->Ok_0 as int == c && final(self)@ == v,
                RunOutcome::Fault(v, e) => r == Err::<u32, MemError>(e) && final(self)@ == v,
            },
    {
        let ghost pre = self@;
        let mut acc: u32 = 0;
        loop
            invariant
                self.wf(),
                budget <= 0x7FFF_FFFF,
                acc <= budget,
                pre == old(self)@,
                run_view(pre, 0, budget as int) == run_view(self@, acc as int, budget as int),
            decreases budget + 1 - acc,
        {
            let ghost cur = self@;
            let ghost acc0 = acc;
            proof {
                lemma_step_cycles(cur);
            }
            let c = match self.next() {
                Err(e) => {
                    proof {
                        assert(run_view(cur, acc0 as int, budget as int) == RunOutcome::Fault(
                            cur,
                            e,
                        ));
                    }
                    return Err(e);
                },
                Ok(c) => c,
            };
            acc = acc + c;
            proof {
                assert(step_view(cur) == Ok::<(MachineView, u32), MemError>((self@, c)));
                assert(run_view(cur, acc0 as int, budget as int) == run_view(
                    self@,
                    acc as int,
                    budget as int,
                ));
            }
            if acc > budget {
                proof {
                    assert(run_view(self@, acc as int, budget as int) == RunOutcome::Done(
                        self@,
                        acc as int,
                    ));
                }
                return Ok(acc);
            }
        }
    }

    /// Offers an interrupt vector.  Disarmed: dropped, `Ok(false)`, nothing
    /// changes.  Armed: the prior PC is pushed at SP-1/SP-2, PC becomes the
    /// vector, acceptance is disabled until EI, a halted engine resumes,
    /// and the call reports `Ok(true)`.  A rejected stack push aborts the
    /// acceptance with the machine unchanged.
    pub fn interrupt(&mut self, vector: u16) -> (r: Result<bool, MemError>)
        requires
            old(self).wf(),
        ensures
            final(self).wf(),
            int_matches(old(self)@, vector, final(self)@, r),
    {
        if !self.int_enabled {
            return Ok(false);
        }
        let pc = self.register.pc;
        match self.push_word(pc) {
            Err(e) => Err(e),
            Ok(_) => {
                self.register.pc = vector;
                self.int_enabled = false;
                self.halted = false;
                Ok(true)
            },
        }
    }

    /// RET-style pop of one word.
    fn pop_word(&mut self) -> (r: Result<u16, MemError>)
        requires
            old(self).wf(),
        ensures
            final(self).wf(),
            match spop(old(self)@) {
                Ok((v, w)) => r == Ok::<u16, MemError>(w) && final(self)@ == v,
                Err(e) => r == Err::<u16, MemError>(e) && *final(self) == *old(self),
            },
    {
        let sp = self.register.sp;
        let lo = match self.read_bus(sp) {
            Err(e) => {
                return Err(e);
            },
            Ok(b) => b,
        };
        let hi = match self.read_bus(wadd16(sp, 1)) {
            Err(e) => {
                return Err(e);
            },
            Ok(b) => b,
        };
        self.register.sp = wadd16(sp, 2);
        Ok(make_word(lo, hi))
    }
}

} // verus!
