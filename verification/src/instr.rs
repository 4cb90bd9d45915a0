//! The instruction set: operand encodings and the decoder that maps each of
//! the 256 opcode bytes to its operation.  Opcodes the processor leaves
//! undefined behave as NOP, as does the real part.

use vstd::prelude::*;

use crate::alu::AluOp;

verus! {

/// An 8-bit operand: a register, or `M`, the byte addressed by HL.
#[derive(Clone, Copy)]
pub enum Reg {
    B,
    C,
    D,
    E,
    H,
    L,
    M,
    A,
}

/// A 16-bit register pair operand (LXI/INX/DCX/DAD).
#[derive(Clone, Copy)]
pub enum RegPair {
    BC,
    DE,
    HL,
    SP,
}

/// A stack operand (PUSH/POP): a register pair or the processor status
/// word, A paired with the packed flags.
#[derive(Clone, Copy)]
pub enum PushPair {
    BC,
    DE,
    HL,
    PSW,
}

/// A branch condition, in encoding order.
#[derive(Clone, Copy)]
pub enum Cond {
    NZ,
    Z,
    NC,
    C,
    PO,
    PE,
    P,
    M,
}

/// One decoded operation.
#[derive(Clone, Copy)]
pub enum Instr {
    Nop,
    Hlt,
    Mov(Reg, Reg),
    Mvi(Reg),
    Alu(AluOp, Reg),
    AluImm(AluOp),
    Inr(Reg),
    Dcr(Reg),
    Lxi(RegPair),
    Inx(RegPair),
    Dcx(RegPair),
    Dad(RegPair),
    StaxB,
    StaxD,
    LdaxB,
    LdaxD,
    Shld,
    Lhld,
    Sta,
    Lda,
    Rlc,
    Rrc,
    Ral,
    Rar,
    Daa,
    Cma,
    Stc,
    Cmc,
    Jmp,
    Jcc(Cond),
    Call,
    Ccc(Cond),
    Ret,
    Rcc(Cond),
    Rst(u8),
    Pchl,
    Sphl,
    Xthl,
    Xchg,
    Push(PushPair),
    Pop(PushPair),
    InPort,
    OutPort,
    Ei,
    Di,
}

/// The three-bit register field: 0..=7 is B, C, D, E, H, L, M, A.
pub open spec fn spec_reg_code(n: u8) -> Reg {
    if n == 0 {
        Reg::B
    } else if n == 1 {
        Reg::C
    } else if n == 2 {
        Reg::D
    } else if n == 3 {
        Reg::E
    } else if n == 4 {
        Reg::H
    } else if n == 5 {
        Reg::L
    } else if n == 6 {
        Reg::M
    } else {
        Reg::A
    }
}

pub open spec fn spec_rp_code(n: u8) -> RegPair {
    if n == 0 {
        RegPair::BC
    } else if n == 1 {
        RegPair::DE
    } else if n == 2 {
        RegPair::HL
    } else {
        RegPair::SP
    }
}

pub open spec fn spec_pp_code(n: u8) -> PushPair {
    if n == 0 {
        PushPair::BC
    } else if n == 1 {
        PushPair::DE
    } else if n == 2 {
        PushPair::HL
    } else {
        PushPair::PSW
    }
}

pub open spec fn spec_cond_code(n: u8) -> Cond {
    if n == 0 {
        Cond::NZ
    } else if n == 1 {
        Cond::Z
    } else if n == 2 {
        Cond::NC
    } else if n == 3 {
        Cond::C
    } else if n == 4 {
        Cond::PO
    } else if n == 5 {
        Cond::PE
    } else if n == 6 {
        Cond::P
    } else {
        Cond::M
    }
}

pub open spec fn spec_alu_code(n: u8) -> AluOp {
    if n == 0 {
        AluOp::Add
    } else if n == 1 {
        AluOp::Adc
    } else if n == 2 {
        AluOp::Sub
    } else if n == 3 {
        AluOp::Sbb
    } else if n == 4 {
        AluOp::Ana
    } else if n == 5 {
        AluOp::Xra
    } else if n == 6 {
        AluOp::Ora
    } else {
        AluOp::Cmp
    }
}

/// The rotate/flag corner of the 0x00..0x3F block (low octal digit 7).
pub open spec fn spec_decode_misc07(op: u8) -> Instr {
    if op == 0x07 {
        Instr::Rlc
    } else if op == 0x0F {
        Instr::Rrc
    } else if op == 0x17 {
        Instr::Ral
    } else if op == 0x1F {
        Instr::Rar
    } else if op == 0x27 {
        Instr::Daa
    } else if op == 0x2F {
        Instr::Cma
    } else if op == 0x37 {
        Instr::Stc
    } else {
        Instr::Cmc
    }
}

/// The direct/indirect load-store corner of the 0x00..0x3F block (low
/// octal digit 2).
pub open spec fn spec_decode_misc02(op: u8) -> Instr {
    if op == 0x02 {
        Instr::StaxB
    } else if op == 0x0A {
        Instr::LdaxB
    } else if op == 0x12 {
        Instr::StaxD
    } else if op == 0x1A {
        Instr::LdaxD
    } else if op == 0x22 {
        Instr::Shld
    } else if op == 0x2A {
        Instr::Lhld
    } else if op == 0x32 {
        Instr::Sta
    } else {
        Instr::Lda
    }
}

/// The operation each opcode byte performs.
pub open spec fn spec_decode(op: u8) -> Instr {
    if op < 0x40 {
        let low = op % 8;
        if low == 0 {
            Instr::Nop
        } else if low == 1 {
            if (op / 8) % 2 == 0 {
                Instr::Lxi(spec_rp_code(op / 16))
            } else {
                Instr::Dad(spec_rp_code(op / 16))
            }
        } else if low == 2 {
            spec_decode_misc02(op)
        } else if low == 3 {
            if (op / 8) % 2 == 0 {
                Instr::Inx(spec_rp_code(op / 16))
            } else {
                Instr::Dcx(spec_rp_code(op / 16))
            }
        } else if low == 4 {
            Instr::Inr(spec_reg_code(op / 8))
        } else if low == 5 {
            Instr::Dcr(spec_reg_code(op / 8))
        } else if low == 6 {
            Instr::Mvi(spec_reg_code(op / 8))
        } else {
            spec_decode_misc07(op)
        }
    } else if op < 0x80 {
        if op == 0x76 {
            Instr::Hlt
        } else {
            Instr::Mov(spec_reg_code((op / 8) % 8), spec_reg_code(op % 8))
        }
    } else if op < 0xC0 {
        Instr::Alu(spec_alu_code((op / 8) % 8), spec_reg_code(op % 8))
    } else {
        let low = op % 8;
        if low == 0 {
            Instr::Rcc(spec_cond_code((op / 8) % 8))
        } else if low == 1 {
            if (op / 8) % 2 == 0 {
                Instr::Pop(spec_pp_code((op / 16) % 4))
            } else if op == 0xC9 {
                Instr::Ret
            } else if op == 0xE9 {
                Instr::Pchl
            } else if op == 0xF9 {
                Instr::Sphl
            } else {
                Instr::Nop
            }
        } else if low == 2 {
            Instr::Jcc(spec_cond_code((op / 8) % 8))
        } else if low == 3 {
            if op == 0xC3 {
                Instr::Jmp
            } else if op == 0xD3 {
                Instr::OutPort
            } else if op == 0xDB {
                Instr::InPort
            } else if op == 0xE3 {
                Instr::Xthl
            } else if op == 0xEB {
                Instr::Xchg
            } else if op == 0xF3 {
                Instr::Di
            } else if op == 0xFB {
                Instr::Ei
            } else {
                Instr::Nop
            }
        } else if low == 4 {
            Instr::Ccc(spec_cond_code((op / 8) % 8))
        } else if low == 5 {
            if (op / 8) % 2 == 0 {
                Instr::Push(spec_pp_code((op / 16) % 4))
            } else if op == 0xCD {
                Instr::Call
            } else {
                Instr::Nop
            }
        } else if low == 6 {
            Instr::AluImm(spec_alu_code((op / 8) % 8))
        } else {
            Instr::Rst((op / 8) % 8)
        }
    }
}

pub fn reg_code(n: u8) -> (r: Reg)
    ensures
        r == spec_reg_code(n),
{
    if n == 0 {
        Reg::B
    } else if n == 1 {
        Reg::C
    } else if n == 2 {
        Reg::D
    } else if n == 3 {
        Reg::E
    } else if n == 4 {
        Reg::H
    } else if n == 5 {
        Reg::L
    } else if n == 6 {
        Reg::M
    } else {
        Reg::A
    }
}

pub fn rp_code(n: u8) -> (r: RegPair)
    ensures
        r == spec_rp_code(n),
{
    if n == 0 {
        RegPair::BC
    } else if n == 1 {
        RegPair::DE
    } else if n == 2 {
        RegPair::HL
    } else {
        RegPair::SP
    }
}

pub fn pp_code(n: u8) -> (r: PushPair)
    ensures
        r == spec_pp_code(n),
{
    if n == 0 {
        PushPair::BC
    } else if n == 1 {
        PushPair::DE
    } else if n == 2 {
        PushPair::HL
    } else {
        PushPair::PSW
    }
}

pub fn cond_code(n: u8) -> (r: Cond)
    ensures
        r == spec_cond_code(n),
{
    if n == 0 {
        Cond::NZ
    } else if n == 1 {
        Cond::Z
    } else if n == 2 {
        Cond::NC
    } else if n == 3 {
        Cond::C
    } else if n == 4 {
        Cond::PO
    } else if n == 5 {
        Cond::PE
    } else if n == 6 {
        Cond::P
    } else {
        Cond::M
    }
}

pub fn alu_code(n: u8) -> (r: AluOp)
    ensures
        r == spec_alu_code(n),
{
    if n == 0 {
        AluOp::Add
    } else if n == 1 {
        AluOp::Adc
    } else if n == 2 {
        AluOp::Sub
    } else if n == 3 {
        AluOp::Sbb
    } else if n == 4 {
        AluOp::Ana
    } else if n == 5 {
        AluOp::Xra
    } else if n == 6 {
        AluOp::Ora
    } else {
        AluOp::Cmp
    }
}

/// Decodes one opcode byte against the 256-entry operation table.
pub fn decode(op: u8) -> (r: Instr)
    ensures
        r == spec_decode(op),
{
    if op < 0x40 {
        let low = op % 8;
        if low == 0 {
            Instr::Nop
        } else if low == 1 {
            if (op / 8) % 2 == 0 {
                Instr::Lxi(rp_code(op / 16))
            } else {
                Instr::Dad(rp_code(op / 16))
            }
        } else if low == 2 {
            if op == 0x02 {
                Instr::StaxB
            } else if op == 0x0A {
                Instr::LdaxB
            } else if op == 0x12 {
                Instr::StaxD
            } else if op == 0x1A {
                Instr::LdaxD
            } else if op == 0x22 {
                Instr::Shld
            } else if op == 0x2A {
                Instr::Lhld
            } else if op == 0x32 {
                Instr::Sta
            } else {
                Instr::Lda
            }
        } else if low == 3 {
            if (op / 8) % 2 == 0 {
                Instr::Inx(rp_code(op / 16))
            } else {
                Instr::Dcx(rp_code(op / 16))
            }
        } else if low == 4 {
            Instr::Inr(reg_code(op / 8))
        } else if low == 5 {
            Instr::Dcr(reg_code(op / 8))
        } else if low == 6 {
            Instr::Mvi(reg_code(op / 8))
        } else {
            if op == 0x07 {
                Instr::Rlc
            } else if op == 0x0F {
                Instr::Rrc
            } else if op == 0x17 {
                Instr::Ral
            } else if op == 0x1F {
                Instr::Rar
            } else if op == 0x27 {
                Instr::Daa
            } else if op == 0x2F {
                Instr::Cma
            } else if op == 0x37 {
                Instr::Stc
            } else {
                Instr::Cmc
            }
        }
    } else if op < 0x80 {
        if op == 0x76 {
            Instr::Hlt
        } else {
            Instr::Mov(reg_code((op / 8) % 8), reg_code(op % 8))
        }
    } else if op < 0xC0 {
        Instr::Alu(alu_code((op / 8) % 8), reg_code(op % 8))
    } else {
        let low = op % 8;
        if low == 0 {
            Instr::Rcc(cond_code((op / 8) % 8))
        } else if low == 1 {
            if (op / 8) % 2 == 0 {
                Instr::Pop(pp_code((op / 16) % 4))
            } else if op == 0xC9 {
                Instr::Ret
            } else if op == 0xE9 {
                Instr::Pchl
            } else if op == 0xF9 {
                Instr::Sphl
            } else {
                Instr::Nop
            }
        } else if low == 2 {
            Instr::Jcc(cond_code((op / 8) % 8))
        } else if low == 3 {
            if op == 0xC3 {
                Instr::Jmp
            } else if op == 0xD3 {
                Instr::OutPort
            } else if op == 0xDB {
                Instr::InPort
            } else if op == 0xE3 {
                Instr::Xthl
            } else if op == 0xEB {
                Instr::Xchg
            } else if op == 0xF3 {
                Instr::Di
            } else if op == 0xFB {
                Instr::Ei
            } else {
                Instr::Nop
            }
        } else if low == 4 {
            Instr::Ccc(cond_code((op / 8) % 8))
        } else if low == 5 {
            if (op / 8) % 2 == 0 {
                Instr::Push(pp_code((op / 16) % 4))
            } else if op == 0xCD {
                Instr::Call
            } else {
                Instr::Nop
            }
        } else if low == 6 {
            Instr::AluImm(alu_code((op / 8) % 8))
        } else {
            Instr::Rst((op / 8) % 8)
        }
    }
}

} // verus!
