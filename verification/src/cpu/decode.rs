//! The opcode tables: which instruction each byte stands for.

use vstd::prelude::*;
use crate::cpu::alu::{AluOp, RotOp};
use crate::cpu::registers::{Reg16, Reg8};

verus! {

/// The conditions of the conditional jumps, calls and returns.
#[derive(Debug, Clone, Copy, PartialEq, Eq, Structural)]
pub enum Cond {
    /// The zero flag is clear.
    NZ,
    /// The zero flag is set.
    Z,
    /// The carry is clear.
    NC,
    /// The carry is set.
    C,
}

/// The address registers of the loads and stores of the accumulator.
#[derive(Debug, Clone, Copy, PartialEq, Eq, Structural)]
pub enum Indirect {
    BC,
    DE,
    /// `HL`, which counts up after the access.
    HLInc,
    /// `HL`, which counts down after the access.
    HLDec,
}

/// The pairs that can be pushed and popped.
#[derive(Debug, Clone, Copy, PartialEq, Eq, Structural)]
pub enum Stack16 {
    BC,
    DE,
    HL,
    AF,
}

/// An instruction of the primary table.
#[derive(Debug, Clone, Copy, PartialEq, Eq, Structural)]
pub enum Instr {
    Nop,
    Stop,
    Halt,
    Di,
    Ei,
    /// A byte that stands for no instruction.
    Undefined,
    /// The byte `0xCB`: the next byte selects from the second table.
    Prefix,
    /// `LD dst,src`
    Ld(Reg8, Reg8),
    /// `LD r,n`
    LdImm(Reg8),
    /// `LD rr,nn`
    LdImm16(Reg16),
    /// `LD (rr),A`
    StoreA(Indirect),
    /// `LD A,(rr)`
    LoadA(Indirect),
    /// `LD (nn),SP`
    StoreSp,
    /// `LD SP,HL`
    LdSpHl,
    /// `LDHL SP,n`
    LdHlSp,
    /// `LDH (n),A`
    StoreHigh,
    /// `LDH A,(n)`
    LoadHigh,
    /// `LD (C),A`
    StoreHighC,
    /// `LD A,(C)`
    LoadHighC,
    /// `LD (nn),A`
    StoreAbs,
    /// `LD A,(nn)`
    LoadAbs,
    Push(Stack16),
    Pop(Stack16),
    /// An operation on the accumulator with a register or `(HL)`.
    Alu(AluOp, Reg8),
    /// An operation on the accumulator with the next byte.
    AluImm(AluOp),
    Inc(Reg8),
    Dec(Reg8),
    Inc16(Reg16),
    Dec16(Reg16),
    /// `ADD HL,rr`
    AddHl(Reg16),
    /// `ADD SP,n`
    AddSp,
    Rlca,
    Rrca,
    Rla,
    Rra,
    Daa,
    Cpl,
    Scf,
    Ccf,
    Jp,
    JpIf(Cond),
    JpHl,
    Jr,
    JrIf(Cond),
    Call,
    CallIf(Cond),
    Ret,
    RetIf(Cond),
    Reti,
    /// A call to one of the eight fixed addresses `0x00`, `0x08`, ... `0x38`.
    Rst(u8),
}

/// An instruction of the table behind the prefix `0xCB`.
#[derive(Debug, Clone, Copy, PartialEq, Eq, Structural)]
pub enum CbInstr {
    /// A rotation or shift.
    Rot(RotOp, Reg8),
    /// A test of one bit.
    TestBit(u8, Reg8),
    /// Clears one bit.
    ResBit(u8, Reg8),
    /// Sets one bit.
    SetBit(u8, Reg8),
}

/// The 8-bit operand that three bits of an opcode name.
pub open spec fn reg8_of(i: int) -> Reg8 {
    if i == 0 {
        Reg8::B
    } else if i == 1 {
        Reg8::C
    } else if i == 2 {
        Reg8::D
    } else if i == 3 {
        Reg8::E
    } else if i == 4 {
        Reg8::H
    } else if i == 5 {
        Reg8::L
    } else if i == 6 {
        Reg8::HlInd
    } else {
        Reg8::A
    }
}

/// The 16-bit register that two bits of an opcode name.
pub open spec fn reg16_of(i: int) -> Reg16 {
    if i == 0 {
        Reg16::BC
    } else if i == 1 {
        Reg16::DE
    } else if i == 2 {
        Reg16::HL
    } else {
        Reg16::SP
    }
}

/// The pair that two bits of a push or a pop name.
pub open spec fn stack16_of(i: int) -> Stack16 {
    if i == 0 {
        Stack16::BC
    } else if i == 1 {
        Stack16::DE
    } else if i == 2 {
        Stack16::HL
    } else {
        Stack16::AF
    }
}

/// The address register that two bits of a load or store name.
pub open spec fn indirect_of(i: int) -> Indirect {
    if i == 0 {
        Indirect::BC
    } else if i == 1 {
        Indirect::DE
    } else if i == 2 {
        Indirect::HLInc
    } else {
        Indirect::HLDec
    }
}

/// The condition that two bits of an opcode name.
pub open spec fn cond_of(i: int) -> Cond {
    if i == 0 {
        Cond::NZ
    } else if i == 1 {
        Cond::Z
    } else if i == 2 {
        Cond::NC
    } else {
        Cond::C
    }
}

/// The operation on the accumulator that three bits of an opcode name.
pub open spec fn alu_of(i: int) -> AluOp {
    if i == 0 {
        AluOp::Add
    } else if i == 1 {
        AluOp::Adc
    } else if i == 2 {
        AluOp::Sub
    } else if i == 3 {
        AluOp::Sbc
    } else if i == 4 {
        AluOp::And
    } else if i == 5 {
        AluOp::Xor
    } else if i == 6 {
        AluOp::Or
    } else {
        AluOp::Cp
    }
}

/// The rotation or shift that three bits of a prefixed opcode name.
pub open spec fn rot_of(i: int) -> RotOp {
    if i == 0 {
        RotOp::Rlc
    } else if i == 1 {
        RotOp::Rrc
    } else if i == 2 {
        RotOp::Rl
    } else if i == 3 {
        RotOp::Rr
    } else if i == 4 {
        RotOp::Sla
    } else if i == 5 {
        RotOp::Sra
    } else if i == 6 {
        RotOp::Swap
    } else {
        RotOp::Srl
    }
}

/// The first quarter of the primary table, by the low three bits `z` and
/// the middle three bits `y` of the opcode.
pub open spec fn decode_low(y: int, z: int) -> Instr {
    if z == 0 {
        if y == 0 {
            Instr::Nop
        } else if y == 1 {
            Instr::StoreSp
        } else if y == 2 {
            Instr::Stop
        } else if y == 3 {
            Instr::Jr
        } else {
            Instr::JrIf(cond_of(y - 4))
        }
    } else if z == 1 {
        if y % 2 == 0 {
            Instr::LdImm16(reg16_of(y / 2))
        } else {
            Instr::AddHl(reg16_of(y / 2))
        }
    } else if z == 2 {
        if y % 2 == 0 {
            Instr::StoreA(indirect_of(y / 2))
        } else {
            Instr::LoadA(indirect_of(y / 2))
        }
    } else if z == 3 {
        if y % 2 == 0 {
            Instr::Inc16(reg16_of(y / 2))
        } else {
            Instr::Dec16(reg16_of(y / 2))
        }
    } else if z == 4 {
        Instr::Inc(reg8_of(y))
    } else if z == 5 {
        Instr::Dec(reg8_of(y))
    } else if z == 6 {
        Instr::LdImm(reg8_of(y))
    } else if y == 0 {
        Instr::Rlca
    } else if y == 1 {
        Instr::Rrca
    } else if y == 2 {
        Instr::Rla
    } else if y == 3 {
        Instr::Rra
    } else if y == 4 {
        Instr::Daa
    } else if y == 5 {
        Instr::Cpl
    } else if y == 6 {
        Instr::Scf
    } else {
        Instr::Ccf
    }
}

/// The last quarter of the primary table, by the low three bits `z` and
/// the middle three bits `y` of the opcode.
pub open spec fn decode_high(y: int, z: int) -> Instr {
    if z == 0 {
        if y < 4 {
            Instr::RetIf(cond_of(y))
        } else if y == 4 {
            Instr::StoreHigh
        } else if y == 5 {
            Instr::AddSp
        } else if y == 6 {
            Instr::LoadHigh
        } else {
            Instr::LdHlSp
        }
    } else if z == 1 {
        if y % 2 == 0 {
            Instr::Pop(stack16_of(y / 2))
        } else if y == 1 {
            Instr::Ret
        } else if y == 3 {
            Instr::Reti
        } else if y == 5 {
            Instr::JpHl
        } else {
            Instr::LdSpHl
        }
    } else if z == 2 {
        if y < 4 {
            Instr::JpIf(cond_of(y))
        } else if y == 4 {
            Instr::StoreHighC
        } else if y == 5 {
            Instr::StoreAbs
        } else if y == 6 {
            Instr::LoadHighC
        } else {
            Instr::LoadAbs
        }
    } else if z == 3 {
        if y == 0 {
            Instr::Jp
        } else if y == 1 {
            Instr::Prefix
        } else if y == 6 {
            Instr::Di
        } else if y == 7 {
            Instr::Ei
        } else {
            Instr::Undefined
        }
    } else if z == 4 {
        if y < 4 {
            Instr::CallIf(cond_of(y))
        } else {
            Instr::Undefined
        }
    } else if z == 5 {
        if y % 2 == 0 {
            Instr::Push(stack16_of(y / 2))
        } else if y == 1 {
            Instr::Call
        } else {
            Instr::Undefined
        }
    } else if z == 6 {
        Instr::AluImm(alu_of(y))
    } else {
        Instr::Rst((y * 8) as u8)
    }
}

/// The instruction that a byte of the primary table stands for. The top
/// two bits of the byte select a quarter of the table: the second quarter
/// holds the loads between registers, with the halt in the place of a load
/// from `(HL)` to `(HL)`, and the third the operations on the accumulator.
pub open spec fn decode_spec(op: u8) -> Instr {
    let x = op as int / 64;
    let y = (op as int / 8) % 8;
    let z = op as int % 8;
    if x == 0 {
        decode_low(y, z)
    } else if x == 1 {
        if op == 0x76 {
            Instr::Halt
        } else {
            Instr::Ld(reg8_of(y), reg8_of(z))
        }
    } else if x == 2 {
        Instr::Alu(alu_of(y), reg8_of(z))
    } else {
        decode_high(y, z)
    }
}

/// The instruction that a byte stands for behind the prefix: the top two
/// bits select rotation, test, reset or set, the middle three the kind of
/// rotation or the bit, the low three the operand.
pub open spec fn decode_cb_spec(op: u8) -> CbInstr {
    let x = op as int / 64;
    let y = (op as int / 8) % 8;
    let z = op as int % 8;
    if x == 0 {
        CbInstr::Rot(rot_of(y), reg8_of(z))
    } else if x == 1 {
        CbInstr::TestBit(y as u8, reg8_of(z))
    } else if x == 2 {
        CbInstr::ResBit(y as u8, reg8_of(z))
    } else {
        CbInstr::SetBit(y as u8, reg8_of(z))
    }
}

impl CbInstr {
    /// The bit that the instruction names is one of the eight of a byte.
    pub open spec fn wf(self) -> bool {
        match self {
            CbInstr::Rot(_, _) => true,
            CbInstr::TestBit(b, _) => b < 8,
            CbInstr::ResBit(b, _) => b < 8,
            CbInstr::SetBit(b, _) => b < 8,
        }
    }
}

/// Looks a byte up in the primary table.
pub fn decode(op: u8) -> (i: Instr)
    ensures
        i == decode_spec(op),
{
    match op {
        0x00 => Instr::Nop,
        0x01 => Instr::LdImm16(Reg16::BC),
        0x02 => Instr::StoreA(Indirect::BC),
        0x03 => Instr::Inc16(Reg16::BC),
        0x04 => Instr::Inc(Reg8::B),
        0x05 => Instr::Dec(Reg8::B),
        0x06 => Instr::LdImm(Reg8::B),
        0x07 => Instr::Rlca,
        0x08 => Instr::StoreSp,
        0x09 => Instr::AddHl(Reg16::BC),
        0x0A => Instr::LoadA(Indirect::BC),
        0x0B => Instr::Dec16(Reg16::BC),
        0x0C => Instr::Inc(Reg8::C),
        0x0D => Instr::Dec(Reg8::C),
        0x0E => Instr::LdImm(Reg8::C),
        0x0F => Instr::Rrca,
        0x10 => Instr::Stop,
        0x11 => Instr::LdImm16(Reg16::DE),
        0x12 => Instr::StoreA(Indirect::DE),
        0x13 => Instr::Inc16(Reg16::DE),
        0x14 => Instr::Inc(Reg8::D),
        0x15 => Instr::Dec(Reg8::D),
        0x16 => Instr::LdImm(Reg8::D),
        0x17 => Instr::Rla,
        0x18 => Instr::Jr,
        0x19 => Instr::AddHl(Reg16::DE),
        0x1A => Instr::LoadA(Indirect::DE),
        0x1B => Instr::Dec16(Reg16::DE),
        0x1C => Instr::Inc(Reg8::E),
        0x1D => Instr::Dec(Reg8::E),
        0x1E => Instr::LdImm(Reg8::E),
        0x1F => Instr::Rra,
        0x20 => Instr::JrIf(Cond::NZ),
        0x21 => Instr::LdImm16(Reg16::HL),
        0x22 => Instr::StoreA(Indirect::HLInc),
        0x23 => Instr::Inc16(Reg16::HL),
        0x24 => Instr::Inc(Reg8::H),
        0x25 => Instr::Dec(Reg8::H),
        0x26 => Instr::LdImm(Reg8::H),
        0x27 => Instr::Daa,
        0x28 => Instr::JrIf(Cond::Z),
        0x29 => Instr::AddHl(Reg16::HL),
        0x2A => Instr::LoadA(Indirect::HLInc),
        0x2B => Instr::Dec16(Reg16::HL),
        0x2C => Instr::Inc(Reg8::L),
        0x2D => Instr::Dec(Reg8::L),
        0x2E => Instr::LdImm(Reg8::L),
        0x2F => Instr::Cpl,
        0x30 => Instr::JrIf(Cond::NC),
        0x31 => Instr::LdImm16(Reg16::SP),
        0x32 => Instr::StoreA(Indirect::HLDec),
        0x33 => Instr::Inc16(Reg16::SP),
        0x34 => Instr::Inc(Reg8::HlInd),
        0x35 => Instr::Dec(Reg8::HlInd),
        0x36 => Instr::LdImm(Reg8::HlInd),
        0x37 => Instr::Scf,
        0x38 => Instr::JrIf(Cond::C),
        0x39 => Instr::AddHl(Reg16::SP),
        0x3A => Instr::LoadA(Indirect::HLDec),
        0x3B => Instr::Dec16(Reg16::SP),
        0x3C => Instr::Inc(Reg8::A),
        0x3D => Instr::Dec(Reg8::A),
        0x3E => Instr::LdImm(Reg8::A),
        0x3F => Instr::Ccf,
        0x40 => Instr::Ld(Reg8::B, Reg8::B),
        0x41 => Instr::Ld(Reg8::B, Reg8::C),
        0x42 => Instr::Ld(Reg8::B, Reg8::D),
        0x43 => Instr::Ld(Reg8::B, Reg8::E),
        0x44 => Instr::Ld(Reg8::B, Reg8::H),
        0x45 => Instr::Ld(Reg8::B, Reg8::L),
        0x46 => Instr::Ld(Reg8::B, Reg8::HlInd),
        0x47 => Instr::Ld(Reg8::B, Reg8::A),
        0x48 => Instr::Ld(Reg8::C, Reg8::B),
        0x49 => Instr::Ld(Reg8::C, Reg8::C),
        0x4A => Instr::Ld(Reg8::C, Reg8::D),
        0x4B => Instr::Ld(Reg8::C, Reg8::E),
        0x4C => Instr::Ld(Reg8::C, Reg8::H),
        0x4D => Instr::Ld(Reg8::C, Reg8::L),
        0x4E => Instr::Ld(Reg8::C, Reg8::HlInd),
        0x4F => Instr::Ld(Reg8::C, Reg8::A),
        0x50 => Instr::Ld(Reg8::D, Reg8::B),
        0x51 => Instr::Ld(Reg8::D, Reg8::C),
        0x52 => Instr::Ld(Reg8::D, Reg8::D),
        0x53 => Instr::Ld(Reg8::D, Reg8::E),
        0x54 => Instr::Ld(Reg8::D, Reg8::H),
        0x55 => Instr::Ld(Reg8::D, Reg8::L),
        0x56 => Instr::Ld(Reg8::D, Reg8::HlInd),
        0x57 => Instr::Ld(Reg8::D, Reg8::A),
        0x58 => Instr::Ld(Reg8::E, Reg8::B),
        0x59 => Instr::Ld(Reg8::E, Reg8::C),
        0x5A => Instr::Ld(Reg8::E, Reg8::D),
        0x5B => Instr::Ld(Reg8::E, Reg8::E),
        0x5C => Instr::Ld(Reg8::E, Reg8::H),
        0x5D => Instr::Ld(Reg8::E, Reg8::L),
        0x5E => Instr::Ld(Reg8::E, Reg8::HlInd),
        0x5F => Instr::Ld(Reg8::E, Reg8::A),
        0x60 => Instr::Ld(Reg8::H, Reg8::B),
        0x61 => Instr::Ld(Reg8::H, Reg8::C),
        0x62 => Instr::Ld(Reg8::H, Reg8::D),
        0x63 => Instr::Ld(Reg8::H, Reg8::E),
        0x64 => Instr::Ld(Reg8::H, Reg8::H),
        0x65 => Instr::Ld(Reg8::H, Reg8::L),
        0x66 => Instr::Ld(Reg8::H, Reg8::HlInd),
        0x67 => Instr::Ld(Reg8::H, Reg8::A),
        0x68 => Instr::Ld(Reg8::L, Reg8::B),
        0x69 => Instr::Ld(Reg8::L, Reg8::C),
        0x6A => Instr::Ld(Reg8::L, Reg8::D),
        0x6B => Instr::Ld(Reg8::L, Reg8::E),
        0x6C => Instr::Ld(Reg8::L, Reg8::H),
        0x6D => Instr::Ld(Reg8::L, Reg8::L),
        0x6E => Instr::Ld(Reg8::L, Reg8::HlInd),
        0x6F => Instr::Ld(Reg8::L, Reg8::A),
        0x70 => Instr::Ld(Reg8::HlInd, Reg8::B),
        0x71 => Instr::Ld(Reg8::HlInd, Reg8::C),
        0x72 => Instr::Ld(Reg8::HlInd, Reg8::D),
        0x73 => Instr::Ld(Reg8::HlInd, Reg8::E),
        0x74 => Instr::Ld(Reg8::HlInd, Reg8::H),
        0x75 => Instr::Ld(Reg8::HlInd, Reg8::L),
        0x76 => Instr::Halt,
        0x77 => Instr::Ld(Reg8::HlInd, Reg8::A),
        0x78 => Instr::Ld(Reg8::A, Reg8::B),
        0x79 => Instr::Ld(Reg8::A, Reg8::C),
        0x7A => Instr::Ld(Reg8::A, Reg8::D),
        0x7B => Instr::Ld(Reg8::A, Reg8::E),
        0x7C => Instr::Ld(Reg8::A, Reg8::H),
        0x7D => Instr::Ld(Reg8::A, Reg8::L),
        0x7E => Instr::Ld(Reg8::A, Reg8::HlInd),
        0x7F => Instr::Ld(Reg8::A, Reg8::A),
        0x80 => Instr::Alu(AluOp::Add, Reg8::B),
        0x81 => Instr::Alu(AluOp::Add, Reg8::C),
        0x82 => Instr::Alu(AluOp::Add, Reg8::D),
        0x83 => Instr::Alu(AluOp::Add, Reg8::E),
        0x84 => Instr::Alu(AluOp::Add, Reg8::H),
        0x85 => Instr::Alu(AluOp::Add, Reg8::L),
        0x86 => Instr::Alu(AluOp::Add, Reg8::HlInd),
        0x87 => Instr::Alu(AluOp::Add, Reg8::A),
        0x88 => Instr::Alu(AluOp::Adc, Reg8::B),
        0x89 => Instr::Alu(AluOp::Adc, Reg8::C),
        0x8A => Instr::Alu(AluOp::Adc, Reg8::D),
        0x8B => Instr::Alu(AluOp::Adc, Reg8::E),
        0x8C => Instr::Alu(AluOp::Adc, Reg8::H),
        0x8D => Instr::Alu(AluOp::Adc, Reg8::L),
        0x8E => Instr::Alu(AluOp::Adc, Reg8::HlInd),
        0x8F => Instr::Alu(AluOp::Adc, Reg8::A),
        0x90 => Instr::Alu(AluOp::Sub, Reg8::B),
        0x91 => Instr::Alu(AluOp::Sub, Reg8::C),
        0x92 => Instr::Alu(AluOp::Sub, Reg8::D),
        0x93 => Instr::Alu(AluOp::Sub, Reg8::E),
        0x94 => Instr::Alu(AluOp::Sub, Reg8::H),
        0x95 => Instr::Alu(AluOp::Sub, Reg8::L),
        0x96 => Instr::Alu(AluOp::Sub, Reg8::HlInd),
        0x97 => Instr::Alu(AluOp::Sub, Reg8::A),
        0x98 => Instr::Alu(AluOp::Sbc, Reg8::B),
        0x99 => Instr::Alu(AluOp::Sbc, Reg8::C),
        0x9A => Instr::Alu(AluOp::Sbc, Reg8::D),
        0x9B => Instr::Alu(AluOp::Sbc, Reg8::E),
        0x9C => Instr::Alu(AluOp::Sbc, Reg8::H),
        0x9D => Instr::Alu(AluOp::Sbc, Reg8::L),
        0x9E => Instr::Alu(AluOp::Sbc, Reg8::HlInd),
        0x9F => Instr::Alu(AluOp::Sbc, Reg8::A),
        0xA0 => Instr::Alu(AluOp::And, Reg8::B),
        0xA1 => Instr::Alu(AluOp::And, Reg8::C),
        0xA2 => Instr::Alu(AluOp::And, Reg8::D),
        0xA3 => Instr::Alu(AluOp::And, Reg8::E),
        0xA4 => Instr::Alu(AluOp::And, Reg8::H),
        0xA5 => Instr::Alu(AluOp::And, Reg8::L),
        0xA6 => Instr::Alu(AluOp::And, Reg8::HlInd),
        0xA7 => Instr::Alu(AluOp::And, Reg8::A),
        0xA8 => Instr::Alu(AluOp::Xor, Reg8::B),
        0xA9 => Instr::Alu(AluOp::Xor, Reg8::C),
        0xAA => Instr::Alu(AluOp::Xor, Reg8::D),
        0xAB => Instr::Alu(AluOp::Xor, Reg8::E),
        0xAC => Instr::Alu(AluOp::Xor, Reg8::H),
        0xAD => Instr::Alu(AluOp::Xor, Reg8::L),
        0xAE => Instr::Alu(AluOp::Xor, Reg8::HlInd),
        0xAF => Instr::Alu(AluOp::Xor, Reg8::A),
        0xB0 => Instr::Alu(AluOp::Or, Reg8::B),
        0xB1 => Instr::Alu(AluOp::Or, Reg8::C),
        0xB2 => Instr::Alu(AluOp::Or, Reg8::D),
        0xB3 => Instr::Alu(AluOp::Or, Reg8::E),
        0xB4 => Instr::Alu(AluOp::Or, Reg8::H),
        0xB5 => Instr::Alu(AluOp::Or, Reg8::L),
        0xB6 => Instr::Alu(AluOp::Or, Reg8::HlInd),
        0xB7 => Instr::Alu(AluOp::Or, Reg8::A),
        0xB8 => Instr::Alu(AluOp::Cp, Reg8::B),
        0xB9 => Instr::Alu(AluOp::Cp, Reg8::C),
        0xBA => Instr::Alu(AluOp::Cp, Reg8::D),
        0xBB => Instr::Alu(AluOp::Cp, Reg8::E),
        0xBC => Instr::Alu(AluOp::Cp, Reg8::H),
        0xBD => Instr::Alu(AluOp::Cp, Reg8::L),
        0xBE => Instr::Alu(AluOp::Cp, Reg8::HlInd),
        0xBF => Instr::Alu(AluOp::Cp, Reg8::A),
        0xC0 => Instr::RetIf(Cond::NZ),
        0xC1 => Instr::Pop(Stack16::BC),
        0xC2 => Instr::JpIf(Cond::NZ),
        0xC3 => Instr::Jp,
        0xC4 => Instr::CallIf(Cond::NZ),
        0xC5 => Instr::Push(Stack16::BC),
        0xC6 => Instr::AluImm(AluOp::Add),
        0xC7 => Instr::Rst(0x00),
        0xC8 => Instr::RetIf(Cond::Z),
        0xC9 => Instr::Ret,
        0xCA => Instr::JpIf(Cond::Z),
        0xCB => Instr::Prefix,
        0xCC => Instr::CallIf(Cond::Z),
        0xCD => Instr::Call,
        0xCE => Instr::AluImm(AluOp::Adc),
        0xCF => Instr::Rst(0x08),
        0xD0 => Instr::RetIf(Cond::NC),
        0xD1 => Instr::Pop(Stack16::DE),
        0xD2 => Instr::JpIf(Cond::NC),
        0xD3 => Instr::Undefined,
        0xD4 => Instr::CallIf(Cond::NC),
        0xD5 => Instr::Push(Stack16::DE),
        0xD6 => Instr::AluImm(AluOp::Sub),
        0xD7 => Instr::Rst(0x10),
        0xD8 => Instr::RetIf(Cond::C),
        0xD9 => Instr::Reti,
        0xDA => Instr::JpIf(Cond::C),
        0xDB => Instr::Undefined,
        0xDC => Instr::CallIf(Cond::C),
        0xDD => Instr::Undefined,
        0xDE => Instr::AluImm(AluOp::Sbc),
        0xDF => Instr::Rst(0x18),
        0xE0 => Instr::StoreHigh,
        0xE1 => Instr::Pop(Stack16::HL),
        0xE2 => Instr::StoreHighC,
        0xE3 => Instr::Undefined,
        0xE4 => Instr::Undefined,
        0xE5 => Instr::Push(Stack16::HL),
        0xE6 => Instr::AluImm(AluOp::And),
        0xE7 => Instr::Rst(0x20),
        0xE8 => Instr::AddSp,
        0xE9 => Instr::JpHl,
        0xEA => Instr::StoreAbs,
        0xEB => Instr::Undefined,
        0xEC => Instr::Undefined,
        0xED => Instr::Undefined,
        0xEE => Instr::AluImm(AluOp::Xor),
        0xEF => Instr::Rst(0x28),
        0xF0 => Instr::LoadHigh,
        0xF1 => Instr::Pop(Stack16::AF),
        0xF2 => Instr::LoadHighC,
        0xF3 => Instr::Di,
        0xF4 => Instr::Undefined,
        0xF5 => Instr::Push(Stack16::AF),
        0xF6 => Instr::AluImm(AluOp::Or),
        0xF7 => Instr::Rst(0x30),
        0xF8 => Instr::LdHlSp,
        0xF9 => Instr::LdSpHl,
        0xFA => Instr::LoadAbs,
        0xFB => Instr::Ei,
        0xFC => Instr::Undefined,
        0xFD => Instr::Undefined,
        0xFE => Instr::AluImm(AluOp::Cp),
        0xFF => Instr::Rst(0x38),
    }
}

/// Looks a byte up in the table behind the prefix.
pub fn decode_cb(op: u8) -> (i: CbInstr)
    ensures
        i == decode_cb_spec(op),
        i.wf(),
{
    match op {
        0x00 => CbInstr::Rot(RotOp::Rlc, Reg8::B),
        0x01 => CbInstr::Rot(RotOp::Rlc, Reg8::C),
        0x02 => CbInstr::Rot(RotOp::Rlc, Reg8::D),
        0x03 => CbInstr::Rot(RotOp::Rlc, Reg8::E),
        0x04 => CbInstr::Rot(RotOp::Rlc, Reg8::H),
        0x05 => CbInstr::Rot(RotOp::Rlc, Reg8::L),
        0x06 => CbInstr::Rot(RotOp::Rlc, Reg8::HlInd),
        0x07 => CbInstr::Rot(RotOp::Rlc, Reg8::A),
        0x08 => CbInstr::Rot(RotOp::Rrc, Reg8::B),
        0x09 => CbInstr::Rot(RotOp::Rrc, Reg8::C),
        0x0A => CbInstr::Rot(RotOp::Rrc, Reg8::D),
        0x0B => CbInstr::Rot(RotOp::Rrc, Reg8::E),
        0x0C => CbInstr::Rot(RotOp::Rrc, Reg8::H),
        0x0D => CbInstr::Rot(RotOp::Rrc, Reg8::L),
        0x0E => CbInstr::Rot(RotOp::Rrc, Reg8::HlInd),
        0x0F => CbInstr::Rot(RotOp::Rrc, Reg8::A),
        0x10 => CbInstr::Rot(RotOp::Rl, Reg8::B),
        0x11 => CbInstr::Rot(RotOp::Rl, Reg8::C),
        0x12 => CbInstr::Rot(RotOp::Rl, Reg8::D),
        0x13 => CbInstr::Rot(RotOp::Rl, Reg8::E),
        0x14 => CbInstr::Rot(RotOp::Rl, Reg8::H),
        0x15 => CbInstr::Rot(RotOp::Rl, Reg8::L),
        0x16 => CbInstr::Rot(RotOp::Rl, Reg8::HlInd),
        0x17 => CbInstr::Rot(RotOp::Rl, Reg8::A),
        0x18 => CbInstr::Rot(RotOp::Rr, Reg8::B),
        0x19 => CbInstr::Rot(RotOp::Rr, Reg8::C),
        0x1A => CbInstr::Rot(RotOp::Rr, Reg8::D),
        0x1B => CbInstr::Rot(RotOp::Rr, Reg8::E),
        0x1C => CbInstr::Rot(RotOp::Rr, Reg8::H),
        0x1D => CbInstr::Rot(RotOp::Rr, Reg8::L),
        0x1E => CbInstr::Rot(RotOp::Rr, Reg8::HlInd),
        0x1F => CbInstr::Rot(RotOp::Rr, Reg8::A),
        0x20 => CbInstr::Rot(RotOp::Sla, Reg8::B),
        0x21 => CbInstr::Rot(RotOp::Sla, Reg8::C),
        0x22 => CbInstr::Rot(RotOp::Sla, Reg8::D),
        0x23 => CbInstr::Rot(RotOp::Sla, Reg8::E),
        0x24 => CbInstr::Rot(RotOp::Sla, Reg8::H),
        0x25 => CbInstr::Rot(RotOp::Sla, Reg8::L),
        0x26 => CbInstr::Rot(RotOp::Sla, Reg8::HlInd),
        0x27 => CbInstr::Rot(RotOp::Sla, Reg8::A),
        0x28 => CbInstr::Rot(RotOp::Sra, Reg8::B),
        0x29 => CbInstr::Rot(RotOp::Sra, Reg8::C),
        0x2A => CbInstr::Rot(RotOp::Sra, Reg8::D),
        0x2B => CbInstr::Rot(RotOp::Sra, Reg8::E),
        0x2C => CbInstr::Rot(RotOp::Sra, Reg8::H),
        0x2D => CbInstr::Rot(RotOp::Sra, Reg8::L),
        0x2E => CbInstr::Rot(RotOp::Sra, Reg8::HlInd),
        0x2F => CbInstr::Rot(RotOp::Sra, Reg8::A),
        0x30 => CbInstr::Rot(RotOp::Swap, Reg8::B),
        0x31 => CbInstr::Rot(RotOp::Swap, Reg8::C),
        0x32 => CbInstr::Rot(RotOp::Swap, Reg8::D),
        0x33 => CbInstr::Rot(RotOp::Swap, Reg8::E),
        0x34 => CbInstr::Rot(RotOp::Swap, Reg8::H),
        0x35 => CbInstr::Rot(RotOp::Swap, Reg8::L),
        0x36 => CbInstr::Rot(RotOp::Swap, Reg8::HlInd),
        0x37 => CbInstr::Rot(RotOp::Swap, Reg8::A),
        0x38 => CbInstr::Rot(RotOp::Srl, Reg8::B),
        0x39 => CbInstr::Rot(RotOp::Srl, Reg8::C),
        0x3A => CbInstr::Rot(RotOp::Srl, Reg8::D),
        0x3B => CbInstr::Rot(RotOp::Srl, Reg8::E),
        0x3C => CbInstr::Rot(RotOp::Srl, Reg8::H),
        0x3D => CbInstr::Rot(RotOp::Srl, Reg8::L),
        0x3E => CbInstr::Rot(RotOp::Srl, Reg8::HlInd),
        0x3F => CbInstr::Rot(RotOp::Srl, Reg8::A),
        0x40 => CbInstr::TestBit(0, Reg8::B),
        0x41 => CbInstr::TestBit(0, Reg8::C),
        0x42 => CbInstr::TestBit(0, Reg8::D),
        0x43 => CbInstr::TestBit(0, Reg8::E),
        0x44 => CbInstr::TestBit(0, Reg8::H),
        0x45 => CbInstr::TestBit(0, Reg8::L),
        0x46 => CbInstr::TestBit(0, Reg8::HlInd),
        0x47 => CbInstr::TestBit(0, Reg8::A),
        0x48 => CbInstr::TestBit(1, Reg8::B),
        0x49 => CbInstr::TestBit(1, Reg8::C),
        0x4A => CbInstr::TestBit(1, Reg8::D),
        0x4B => CbInstr::TestBit(1, Reg8::E),
        0x4C => CbInstr::TestBit(1, Reg8::H),
        0x4D => CbInstr::TestBit(1, Reg8::L),
        0x4E => CbInstr::TestBit(1, Reg8::HlInd),
        0x4F => CbInstr::TestBit(1, Reg8::A),
        0x50 => CbInstr::TestBit(2, Reg8::B),
        0x51 => CbInstr::TestBit(2, Reg8::C),
        0x52 => CbInstr::TestBit(2, Reg8::D),
        0x53 => CbInstr::TestBit(2, Reg8::E),
        0x54 => CbInstr::TestBit(2, Reg8::H),
        0x55 => CbInstr::TestBit(2, Reg8::L),
        0x56 => CbInstr::TestBit(2, Reg8::HlInd),
        0x57 => CbInstr::TestBit(2, Reg8::A),
        0x58 => CbInstr::TestBit(3, Reg8::B),
        0x59 => CbInstr::TestBit(3, Reg8::C),
        0x5A => CbInstr::TestBit(3, Reg8::D),
        0x5B => CbInstr::TestBit(3, Reg8::E),
        0x5C => CbInstr::TestBit(3, Reg8::H),
        0x5D => CbInstr::TestBit(3, Reg8::L),
        0x5E => CbInstr::TestBit(3, Reg8::HlInd),
        0x5F => CbInstr::TestBit(3, Reg8::A),
        0x60 => CbInstr::TestBit(4, Reg8::B),
        0x61 => CbInstr::TestBit(4, Reg8::C),
        0x62 => CbInstr::TestBit(4, Reg8::D),
        0x63 => CbInstr::TestBit(4, Reg8::E),
        0x64 => CbInstr::TestBit(4, Reg8::H),
        0x65 => CbInstr::TestBit(4, Reg8::L),
        0x66 => CbInstr::TestBit(4, Reg8::HlInd),
        0x67 => CbInstr::TestBit(4, Reg8::A),
        0x68 => CbInstr::TestBit(5, Reg8::B),
        0x69 => CbInstr::TestBit(5, Reg8::C),
        0x6A => CbInstr::TestBit(5, Reg8::D),
        0x6B => CbInstr::TestBit(5, Reg8::E),
        0x6C => CbInstr::TestBit(5, Reg8::H),
        0x6D => CbInstr::TestBit(5, Reg8::L),
        0x6E => CbInstr::TestBit(5, Reg8::HlInd),
        0x6F => CbInstr::TestBit(5, Reg8::A),
        0x70 => CbInstr::TestBit(6, Reg8::B),
        0x71 => CbInstr::TestBit(6, Reg8::C),
        0x72 => CbInstr::TestBit(6, Reg8::D),
        0x73 => CbInstr::TestBit(6, Reg8::E),
        0x74 => CbInstr::TestBit(6, Reg8::H),
        0x75 => CbInstr::TestBit(6, Reg8::L),
        0x76 => CbInstr::TestBit(6, Reg8::HlInd),
        0x77 => CbInstr::TestBit(6, Reg8::A),
        0x78 => CbInstr::TestBit(7, Reg8::B),
        0x79 => CbInstr::TestBit(7, Reg8::C),
        0x7A => CbInstr::TestBit(7, Reg8::D),
        0x7B => CbInstr::TestBit(7, Reg8::E),
        0x7C => CbInstr::TestBit(7, Reg8::H),
        0x7D => CbInstr::TestBit(7, Reg8::L),
        0x7E => CbInstr::TestBit(7, Reg8::HlInd),
        0x7F => CbInstr::TestBit(7, Reg8::A),
        0x80 => CbInstr::ResBit(0, Reg8::B),
        0x81 => CbInstr::ResBit(0, Reg8::C),
        0x82 => CbInstr::ResBit(0, Reg8::D),
        0x83 => CbInstr::ResBit(0, Reg8::E),
        0x84 => CbInstr::ResBit(0, Reg8::H),
        0x85 => CbInstr::ResBit(0, Reg8::L),
        0x86 => CbInstr::ResBit(0, Reg8::HlInd),
        0x87 => CbInstr::ResBit(0, Reg8::A),
        0x88 => CbInstr::ResBit(1, Reg8::B),
        0x89 => CbInstr::ResBit(1, Reg8::C),
        0x8A => CbInstr::ResBit(1, Reg8::D),
        0x8B => CbInstr::ResBit(1, Reg8::E),
        0x8C => CbInstr::ResBit(1, Reg8::H),
        0x8D => CbInstr::ResBit(1, Reg8::L),
        0x8E => CbInstr::ResBit(1, Reg8::HlInd),
        0x8F => CbInstr::ResBit(1, Reg8::A),
        0x90 => CbInstr::ResBit(2, Reg8::B),
        0x91 => CbInstr::ResBit(2, Reg8::C),
        0x92 => CbInstr::ResBit(2, Reg8::D),
        0x93 => CbInstr::ResBit(2, Reg8::E),
        0x94 => CbInstr::ResBit(2, Reg8::H),
        0x95 => CbInstr::ResBit(2, Reg8::L),
        0x96 => CbInstr::ResBit(2, Reg8::HlInd),
        0x97 => CbInstr::ResBit(2, Reg8::A),
        0x98 => CbInstr::ResBit(3, Reg8::B),
        0x99 => CbInstr::ResBit(3, Reg8::C),
        0x9A => CbInstr::ResBit(3, Reg8::D),
        0x9B => CbInstr::ResBit(3, Reg8::E),
        0x9C => CbInstr::ResBit(3, Reg8::H),
        0x9D => CbInstr::ResBit(3, Reg8::L),
        0x9E => CbInstr::ResBit(3, Reg8::HlInd),
        0x9F => CbInstr::ResBit(3, Reg8::A),
        0xA0 => CbInstr::ResBit(4, Reg8::B),
        0xA1 => CbInstr::ResBit(4, Reg8::C),
        0xA2 => CbInstr::ResBit(4, Reg8::D),
        0xA3 => CbInstr::ResBit(4, Reg8::E),
        0xA4 => CbInstr::ResBit(4, Reg8::H),
        0xA5 => CbInstr::ResBit(4, Reg8::L),
        0xA6 => CbInstr::ResBit(4, Reg8::HlInd),
        0xA7 => CbInstr::ResBit(4, Reg8::A),
        0xA8 => CbInstr::ResBit(5, Reg8::B),
        0xA9 => CbInstr::ResBit(5, Reg8::C),
        0xAA => CbInstr::ResBit(5, Reg8::D),
        0xAB => CbInstr::ResBit(5, Reg8::E),
        0xAC => CbInstr::ResBit(5, Reg8::H),
        0xAD => CbInstr::ResBit(5, Reg8::L),
        0xAE => CbInstr::ResBit(5, Reg8::HlInd),
        0xAF => CbInstr::ResBit(5, Reg8::A),
        0xB0 => CbInstr::ResBit(6, Reg8::B),
        0xB1 => CbInstr::ResBit(6, Reg8::C),
        0xB2 => CbInstr::ResBit(6, Reg8::D),
        0xB3 => CbInstr::ResBit(6, Reg8::E),
        0xB4 => CbInstr::ResBit(6, Reg8::H),
        0xB5 => CbInstr::ResBit(6, Reg8::L),
        0xB6 => CbInstr::ResBit(6, Reg8::HlInd),
        0xB7 => CbInstr::ResBit(6, Reg8::A),
        0xB8 => CbInstr::ResBit(7, Reg8::B),
        0xB9 => CbInstr::ResBit(7, Reg8::C),
        0xBA => CbInstr::ResBit(7, Reg8::D),
        0xBB => CbInstr::ResBit(7, Reg8::E),
        0xBC => CbInstr::ResBit(7, Reg8::H),
        0xBD => CbInstr::ResBit(7, Reg8::L),
        0xBE => CbInstr::ResBit(7, Reg8::HlInd),
        0xBF => CbInstr::ResBit(7, Reg8::A),
        0xC0 => CbInstr::SetBit(0, Reg8::B),
        0xC1 => CbInstr::SetBit(0, Reg8::C),
        0xC2 => CbInstr::SetBit(0, Reg8::D),
        0xC3 => CbInstr::SetBit(0, Reg8::E),
        0xC4 => CbInstr::SetBit(0, Reg8::H),
        0xC5 => CbInstr::SetBit(0, Reg8::L),
        0xC6 => CbInstr::SetBit(0, Reg8::HlInd),
        0xC7 => CbInstr::SetBit(0, Reg8::A),
        0xC8 => CbInstr::SetBit(1, Reg8::B),
        0xC9 => CbInstr::SetBit(1, Reg8::C),
        0xCA => CbInstr::SetBit(1, Reg8::D),
        0xCB => CbInstr::SetBit(1, Reg8::E),
        0xCC => CbInstr::SetBit(1, Reg8::H),
        0xCD => CbInstr::SetBit(1, Reg8::L),
        0xCE => CbInstr::SetBit(1, Reg8::HlInd),
        0xCF => CbInstr::SetBit(1, Reg8::A),
        0xD0 => CbInstr::SetBit(2, Reg8::B),
        0xD1 => CbInstr::SetBit(2, Reg8::C),
        0xD2 => CbInstr::SetBit(2, Reg8::D),
        0xD3 => CbInstr::SetBit(2, Reg8::E),
        0xD4 => CbInstr::SetBit(2, Reg8::H),
        0xD5 => CbInstr::SetBit(2, Reg8::L),
        0xD6 => CbInstr::SetBit(2, Reg8::HlInd),
        0xD7 => CbInstr::SetBit(2, Reg8::A),
        0xD8 => CbInstr::SetBit(3, Reg8::B),
        0xD9 => CbInstr::SetBit(3, Reg8::C),
        0xDA => CbInstr::SetBit(3, Reg8::D),
        0xDB => CbInstr::SetBit(3, Reg8::E),
        0xDC => CbInstr::SetBit(3, Reg8::H),
        0xDD => CbInstr::SetBit(3, Reg8::L),
        0xDE => CbInstr::SetBit(3, Reg8::HlInd),
        0xDF => CbInstr::SetBit(3, Reg8::A),
        0xE0 => CbInstr::SetBit(4, Reg8::B),
        0xE1 => CbInstr::SetBit(4, Reg8::C),
        0xE2 => CbInstr::SetBit(4, Reg8::D),
        0xE3 => CbInstr::SetBit(4, Reg8::E),
        0xE4 => CbInstr::SetBit(4, Reg8::H),
        0xE5 => CbInstr::SetBit(4, Reg8::L),
        0xE6 => CbInstr::SetBit(4, Reg8::HlInd),
        0xE7 => CbInstr::SetBit(4, Reg8::A),
        0xE8 => CbInstr::SetBit(5, Reg8::B),
        0xE9 => CbInstr::SetBit(5, Reg8::C),
        0xEA => CbInstr::SetBit(5, Reg8::D),
        0xEB => CbInstr::SetBit(5, Reg8::E),
        0xEC => CbInstr::SetBit(5, Reg8::H),
        0xED => CbInstr::SetBit(5, Reg8::L),
        0xEE => CbInstr::SetBit(5, Reg8::HlInd),
        0xEF => CbInstr::SetBit(5, Reg8::A),
        0xF0 => CbInstr::SetBit(6, Reg8::B),
        0xF1 => CbInstr::SetBit(6, Reg8::C),
        0xF2 => CbInstr::SetBit(6, Reg8::D),
        0xF3 => CbInstr::SetBit(6, Reg8::E),
        0xF4 => CbInstr::SetBit(6, Reg8::H),
        0xF5 => CbInstr::SetBit(6, Reg8::L),
        0xF6 => CbInstr::SetBit(6, Reg8::HlInd),
        0xF7 => CbInstr::SetBit(6, Reg8::A),
        0xF8 => CbInstr::SetBit(7, Reg8::B),
        0xF9 => CbInstr::SetBit(7, Reg8::C),
        0xFA => CbInstr::SetBit(7, Reg8::D),
        0xFB => CbInstr::SetBit(7, Reg8::E),
        0xFC => CbInstr::SetBit(7, Reg8::H),
        0xFD => CbInstr::SetBit(7, Reg8::L),
        0xFE => CbInstr::SetBit(7, Reg8::HlInd),
        0xFF => CbInstr::SetBit(7, Reg8::A),
    }
}

} // verus!
