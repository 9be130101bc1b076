//! The register file: eight 8-bit registers that pair up into four 16-bit
//! ones, the stack pointer, the program counter and the interrupt state.

use vstd::prelude::*;
use crate::mem::{Memory, MemoryView};

verus! {

/// The four flags in the high bits of register `F`.
#[derive(Debug, Clone, Copy, PartialEq, Eq, Structural)]
pub struct Flags {
    /// Zero: the result was zero.
    pub z: bool,
    /// Subtract: the operation was a subtraction.
    pub n: bool,
    /// Half-carry: a carry or borrow crossed bit 3 (bit 11 of a 16-bit sum).
    pub h: bool,
    /// Carry: a carry or borrow crossed the top bit.
    pub c: bool,
}

impl Flags {
    /// The flags as register `F` holds them: Z, N, H, C in bits 7 to 4.
    pub open spec fn byte(self) -> u8 {
        ((if self.z {
            0x80int
        } else {
            0
        }) + (if self.n {
            0x40int
        } else {
            0
        }) + (if self.h {
            0x20int
        } else {
            0
        }) + (if self.c {
            0x10int
        } else {
            0
        })) as u8
    }

    /// The flags that a value of register `F` holds.
    pub open spec fn of_byte(v: u8) -> Flags {
        Flags { z: v >= 0x80, n: (v / 0x40) % 2 == 1, h: (v / 0x20) % 2 == 1, c: (v / 0x10) % 2 == 1 }
    }

    /// Packs the flags into a value of register `F`.
    pub fn f(&self) -> (v: u8)
        ensures
            v == self.byte(),
            v % 16 == 0,
    {
        let z: u8 = if self.z {
            0x80
        } else {
            0
        };
        let n: u8 = if self.n {
            0x40
        } else {
            0
        };
        let h: u8 = if self.h {
            0x20
        } else {
            0
        };
        let c: u8 = if self.c {
            0x10
        } else {
            0
        };
        z + n + h + c
    }

    /// Takes the flags from a value of register `F`.
    pub fn set_f(&mut self, v: u8)
        ensures
            *final(self) == Flags::of_byte(v),
    {
        self.z = v >= 0x80;
        self.n = (v / 0x40) % 2 == 1;
        self.h = (v / 0x20) % 2 == 1;
        self.c = (v / 0x10) % 2 == 1;
    }

    /// The flags that a value of register `F` holds.
    pub fn from_byte(v: u8) -> (fl: Flags)
        ensures
            fl == Flags::of_byte(v),
    {
        Flags { z: v >= 0x80, n: (v / 0x40) % 2 == 1, h: (v / 0x20) % 2 == 1, c: (v / 0x10) % 2 == 1 }
    }
}

/// Packing flags and taking them apart again gives the same flags, and the
/// other way round the same byte without its low four bits.
pub proof fn law_flags_round_trip(fl: Flags, v: u8)
    ensures
        Flags::of_byte(fl.byte()) == fl,
        Flags::of_byte(v).byte() == v - v % 16,
{
}

/// An operand of eight bits: a register, or the byte that `HL` points to.
#[derive(Debug, Clone, Copy, PartialEq, Eq, Structural)]
pub enum Reg8 {
    B,
    C,
    D,
    E,
    H,
    L,
    HlInd,
    A,
}

/// A pair of registers, or the stack pointer.
#[derive(Debug, Clone, Copy, PartialEq, Eq, Structural)]
pub enum Reg16 {
    BC,
    DE,
    HL,
    SP,
}

/// The registers of the processor.
#[derive(Debug, Clone, Copy, PartialEq, Eq, Structural)]
pub struct Registers {
    pub a: u8,
    pub b: u8,
    pub c: u8,
    pub d: u8,
    pub e: u8,
    /// The flags, in the high four bits.
    pub f: u8,
    pub h: u8,
    pub l: u8,
    /// Stack pointer.
    pub sp: u16,
    /// Program counter.
    pub pc: u16,
    /// Interrupt master enable: not zero while interrupts are served.
    pub ime: u32,
    /// Not zero while the processor waits for an interrupt.
    pub halt: u32,
    /// Not zero while the processor is stopped.
    pub stop: u32,
    /// Steps until interrupts are enabled: 0 means none are scheduled.
    pub delay: u32,
}

/// The 16-bit value whose high byte is `hi` and whose low byte is `lo`.
pub open spec fn word_of(hi: u8, lo: u8) -> u16 {
    (hi * 256 + lo) as u16
}

/// The high byte of a 16-bit value.
pub open spec fn high_byte(w: u16) -> u8 {
    (w / 256) as u8
}

/// The low byte of a 16-bit value.
pub open spec fn low_byte(w: u16) -> u8 {
    (w % 256) as u8
}

/// `w` modulo 65536, for a `w` of either sign.
pub open spec fn wrap16(w: int) -> u16 {
    (w % 0x1_0000) as u16
}

/// `v` modulo 256, for a `v` of either sign.
pub open spec fn wrap8(v: int) -> u8 {
    (v % 0x100) as u8
}

impl Registers {
    /// The low four bits of `F` are zero.
    pub open spec fn wf(self) -> bool {
        self.f % 16 == 0
    }

    /// The registers as they are after the boot program of the console.
    pub open spec fn initial() -> Registers {
        Registers {
            a: 0x01,
            b: 0x00,
            c: 0x13,
            d: 0x00,
            e: 0xD8,
            f: 0xB0,
            h: 0x01,
            l: 0x4D,
            sp: 0xFFFE,
            pc: 0x100,
            ime: 0,
            halt: 0,
            stop: 0,
            delay: 0,
        }
    }

    pub open spec fn spec_af(&self) -> u16 {
        word_of(self.a, self.f)
    }

    pub open spec fn spec_bc(&self) -> u16 {
        word_of(self.b, self.c)
    }

    pub open spec fn spec_de(&self) -> u16 {
        word_of(self.d, self.e)
    }

    pub open spec fn spec_hl(&self) -> u16 {
        word_of(self.h, self.l)
    }

    /// The flags.
    pub open spec fn flags(self) -> Flags {
        Flags::of_byte(self.f)
    }

    /// The registers with other flags.
    pub open spec fn with_flags(self, fl: Flags) -> Registers {
        Registers { f: fl.byte(), ..self }
    }

    /// The registers with `w` in `HL`.
    pub open spec fn with_hl(self, w: u16) -> Registers {
        Registers { h: high_byte(w), l: low_byte(w), ..self }
    }

    /// The value of a register that is no memory operand.
    pub open spec fn get8(self, r: Reg8) -> u8 {
        match r {
            Reg8::B => self.b,
            Reg8::C => self.c,
            Reg8::D => self.d,
            Reg8::E => self.e,
            Reg8::H => self.h,
            Reg8::L => self.l,
            Reg8::HlInd => 0,
            Reg8::A => self.a,
        }
    }

    /// The registers with `v` in a register that is no memory operand.
    pub open spec fn with8(self, r: Reg8, v: u8) -> Registers {
        match r {
            Reg8::B => Registers { b: v, ..self },
            Reg8::C => Registers { c: v, ..self },
            Reg8::D => Registers { d: v, ..self },
            Reg8::E => Registers { e: v, ..self },
            Reg8::H => Registers { h: v, ..self },
            Reg8::L => Registers { l: v, ..self },
            Reg8::HlInd => self,
            Reg8::A => Registers { a: v, ..self },
        }
    }

    /// The value of a pair of registers or of the stack pointer.
    pub open spec fn get16(self, r: Reg16) -> u16 {
        match r {
            Reg16::BC => self.spec_bc(),
            Reg16::DE => self.spec_de(),
            Reg16::HL => self.spec_hl(),
            Reg16::SP => self.sp,
        }
    }

    /// The registers with `w` in a pair of registers or in the stack pointer.
    pub open spec fn with16(self, r: Reg16, w: u16) -> Registers {
        match r {
            Reg16::BC => Registers { b: high_byte(w), c: low_byte(w), ..self },
            Reg16::DE => Registers { d: high_byte(w), e: low_byte(w), ..self },
            Reg16::HL => Registers { h: high_byte(w), l: low_byte(w), ..self },
            Reg16::SP => Registers { sp: w, ..self },
        }
    }

    /// The registers with the program counter moved on by `n`.
    pub open spec fn skip(self, n: int) -> Registers {
        Registers { pc: wrap16(self.pc + n), ..self }
    }

    /// The registers after a return: the program counter comes off the stack.
    pub open spec fn spec_ret(self, mem: MemoryView) -> Registers {
        Registers { pc: mem.read_word(self.sp), sp: wrap16(self.sp + 2), ..self }
    }

    /// The registers after a jump to `target` that leaves the program
    /// counter on the stack.
    pub open spec fn spec_rst(self, target: u16) -> Registers {
        Registers { sp: wrap16(self.sp - 2), pc: target, ..self }
    }

    /// The registers after the instruction that enables interrupts: they
    /// are enabled two steps later, or one step later if this is already
    /// scheduled or the next instruction is a halt.
    pub open spec fn spec_ei(self, mem: MemoryView) -> Registers {
        Registers {
            delay: if self.delay == 2 || mem.read_byte(self.pc) == 0x76 {
                1
            } else {
                2
            },
            ..self
        }
    }

    /// The registers after the instruction that disables interrupts.
    pub open spec fn spec_di(self) -> Registers {
        Registers { ime: 0, delay: 0, ..self }
    }

    /// The registers after one step of the delay that enables interrupts.
    pub open spec fn spec_interrupt_step(self) -> Registers {
        if self.delay == 1 {
            Registers { delay: 0, ime: 1, ..self }
        } else if self.delay == 2 {
            Registers { delay: 1, ..self }
        } else {
            self
        }
    }

    /// The registers as they are after the boot program of the console.
    pub fn new() -> (regs: Registers)
        ensures
            regs == Registers::initial(),
            regs.wf(),
    {
        Registers {
            a: 0x01,
            b: 0x00,
            c: 0x13,
            d: 0x00,
            e: 0xD8,
            f: 0xB0,
            h: 0x01,
            l: 0x4D,
            sp: 0xFFFE,
            pc: 0x100,
            ime: 0,
            halt: 0,
            stop: 0,
            delay: 0,
        }
    }

    /// Moves the program counter on by one and returns its value before.
    pub fn adv(&mut self) -> (pc: u16)
        ensures
            pc == old(self).pc,
            *final(self) == old(self).skip(1),
    {
        let pc = self.pc;
        self.pc = self.pc.wrapping_add(1);
        pc
    }

    /// The pair `AF`.
    #[verifier::when_used_as_spec(spec_af)]
    pub fn af(&self) -> (w: u16)
        ensures
            w == self.spec_af(),
    {
        self.a as u16 * 256 + self.f as u16
    }

    /// The pair `BC`.
    #[verifier::when_used_as_spec(spec_bc)]
    pub fn bc(&self) -> (w: u16)
        ensures
            w == self.spec_bc(),
    {
        self.b as u16 * 256 + self.c as u16
    }

    /// The pair `DE`.
    #[verifier::when_used_as_spec(spec_de)]
    pub fn de(&self) -> (w: u16)
        ensures
            w == self.spec_de(),
    {
        self.d as u16 * 256 + self.e as u16
    }

    /// The pair `HL`.
    #[verifier::when_used_as_spec(spec_hl)]
    pub fn hl(&self) -> (w: u16)
        ensures
            w == self.spec_hl(),
    {
        self.h as u16 * 256 + self.l as u16
    }

    /// Puts `w` into the pair `HL`.
    pub fn set_hl(&mut self, w: u16)
        ensures
            *final(self) == old(self).with_hl(w),
    {
        self.h = (w / 256) as u8;
        self.l = (w % 256) as u8;
    }

    /// Counts `HL` down by one, from 0 to `0xFFFF`.
    pub fn dec_hl(&mut self)
        ensures
            *final(self) == old(self).with_hl(wrap16(old(self).spec_hl() - 1)),
    {
        self.l = self.l.wrapping_sub(1);
        if self.l == 0xFF {
            self.h = self.h.wrapping_sub(1);
        }
    }

    /// Counts `HL` up by one, from `0xFFFF` to 0.
    pub fn inc_hl(&mut self)
        ensures
            *final(self) == old(self).with_hl(wrap16(old(self).spec_hl() + 1)),
    {
        self.l = self.l.wrapping_add(1);
        if self.l == 0 {
            self.h = self.h.wrapping_add(1);
        }
    }

    /// Returns from a routine: takes the program counter off the stack.
    pub fn ret(&mut self, mem: &mut Memory)
        requires
            old(mem).wf(),
        ensures
            *final(mem) == *old(mem),
            *final(self) == old(self).spec_ret(old(mem)@),
    {
        self.pc = mem.read_word(self.sp);
        self.sp = self.sp.wrapping_add(2);
    }

    /// Jumps to `i` and leaves the program counter on the stack.
    pub fn rst(&mut self, i: u16, mem: &mut Memory)
        requires
            old(mem).wf(),
        ensures
            final(mem).wf(),
            *final(self) == old(self).spec_rst(i),
            final(mem)@ == old(mem)@.write_word(wrap16(old(self).sp - 2), old(self).pc),
    {
        self.sp = self.sp.wrapping_sub(2);
        mem.write_word(self.sp, self.pc);
        self.pc = i;
    }

    /// Schedules the enabling of interrupts.
    pub fn ei(&mut self, m: &mut Memory)
        requires
            old(m).wf(),
        ensures
            *final(m) == *old(m),
            *final(self) == old(self).spec_ei(old(m)@),
    {
        if self.delay == 2 || m.read_byte(self.pc) == 0x76 {
            self.delay = 1;
        } else {
            self.delay = 2;
        }
    }

    /// Disables interrupts at once.
    pub fn di(&mut self)
        ensures
            *final(self) == old(self).spec_di(),
    {
        self.ime = 0;
        self.delay = 0;
    }

    /// Moves the delay that enables interrupts on by one step.
    pub fn interrupt_step(&mut self)
        ensures
            *final(self) == old(self).spec_interrupt_step(),
    {
        if self.delay == 1 {
            self.delay = 0;
            self.ime = 1;
        } else if self.delay == 2 {
            self.delay = 1;
        }
    }

    /// Reads a register that is no memory operand.
    pub fn read8(&self, r: Reg8) -> (v: u8)
        ensures
            v == self.get8(r),
    {
        match r {
            Reg8::B => self.b,
            Reg8::C => self.c,
            Reg8::D => self.d,
            Reg8::E => self.e,
            Reg8::H => self.h,
            Reg8::L => self.l,
            Reg8::HlInd => 0,
            Reg8::A => self.a,
        }
    }

    /// Writes a register that is no memory operand.
    pub fn write8(&mut self, r: Reg8, v: u8)
        ensures
            *final(self) == old(self).with8(r, v),
    {
        match r {
            Reg8::B => {
                self.b = v;
            },
            Reg8::C => {
                self.c = v;
            },
            Reg8::D => {
                self.d = v;
            },
            Reg8::E => {
                self.e = v;
            },
            Reg8::H => {
                self.h = v;
            },
            Reg8::L => {
                self.l = v;
            },
            Reg8::HlInd => {},
            Reg8::A => {
                self.a = v;
            },
        }
    }

    /// Reads a pair of registers or the stack pointer.
    pub fn read16(&self, r: Reg16) -> (w: u16)
        ensures
            w == self.get16(r),
    {
        match r {
            Reg16::BC => self.bc(),
            Reg16::DE => self.de(),
            Reg16::HL => self.hl(),
            Reg16::SP => self.sp,
        }
    }

    /// Writes a pair of registers or the stack pointer.
    pub fn write16(&mut self, r: Reg16, w: u16)
        ensures
            *final(self) == old(self).with16(r, w),
    {
        let hi: u8 = (w / 256) as u8;
        let lo: u8 = (w % 256) as u8;
        match r {
            Reg16::BC => {
                self.b = hi;
                self.c = lo;
            },
            Reg16::DE => {
                self.d = hi;
                self.e = lo;
            },
            Reg16::HL => {
                self.h = hi;
                self.l = lo;
            },
            Reg16::SP => {
                self.sp = w;
            },
        }
    }

    /// The flags.
    pub fn get_flags(&self) -> (fl: Flags)
        ensures
            fl == self.flags(),
    {
        Flags::from_byte(self.f)
    }

    /// Replaces the flags.
    pub fn set_flags(&mut self, fl: Flags)
        ensures
            *final(self) == old(self).with_flags(fl),
            final(self).wf(),
    {
        self.f = fl.f();
    }
}

/// The pairs are made of their two registers and nothing else: writing a
/// pair and reading it gives the value back, and the value of a pair is
/// its high register times 256 plus its low register.
pub proof fn law_pairs_are_compositions(regs: Registers, r: Reg16, w: u16)
    ensures
        regs.with16(r, w).get16(r) == w,
        regs.spec_bc() == regs.b * 256 + regs.c,
        regs.spec_de() == regs.d * 256 + regs.e,
        regs.spec_hl() == regs.h * 256 + regs.l,
        regs.spec_af() == regs.a * 256 + regs.f,
{
}

} // verus!
