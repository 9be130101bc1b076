//! What each instruction does to the registers and the bus, and how many
//! machine cycles it takes.

use vstd::prelude::*;
use crate::bits::{clear_bit, set_bit, with_bit, without_bit};
use crate::cpu::alu::{add16, add16_spec, add_signed, add_signed_spec, alu, alu_spec, bit, bit_spec,
    ccf_spec, cpl, cpl_spec, daa, daa_spec, dec, dec_spec, inc, inc_spec, rot, rot_spec, scf_spec,
    signed, AluOp, RotOp};
use crate::cpu::decode::{decode, decode_cb, decode_cb_spec, decode_spec, CbInstr, Cond, Indirect,
    Instr, Stack16};
use crate::cpu::registers::{high_byte, low_byte, wrap16, Flags, Reg16, Reg8, Registers};
use crate::mem::{Memory, MemoryView};

verus! {

/// What an instruction leaves behind: the registers, the bus, and the
/// machine cycles it took.
pub struct Outcome {
    pub regs: Registers,
    pub mem: MemoryView,
    pub ticks: u32,
}

/// Whether an outcome is made of these registers, this bus and these cycles.
#[verifier::opaque]
pub open spec fn yields(o: Outcome, regs: Registers, mem: MemoryView, ticks: u32) -> bool {
    o.regs == regs && o.mem == mem && o.ticks == ticks
}

/// The value of an 8-bit operand: a register, or the byte that `HL` points to.
pub open spec fn operand(regs: Registers, mem: MemoryView, r: Reg8) -> u8 {
    if r == Reg8::HlInd {
        mem.read_byte(regs.spec_hl())
    } else {
        regs.get8(r)
    }
}

/// The registers and the bus after `v` was stored in an 8-bit operand.
pub open spec fn stored(regs: Registers, mem: MemoryView, r: Reg8, v: u8) -> (Registers, MemoryView) {
    if r == Reg8::HlInd {
        (regs, mem.write_byte(regs.spec_hl(), v))
    } else {
        (regs.with8(r, v), mem)
    }
}

/// The extra machine cycles that an access to a memory operand takes.
pub open spec fn access(r: Reg8) -> u32 {
    if r == Reg8::HlInd {
        1
    } else {
        0
    }
}

/// Whether a condition holds of the flags.
pub open spec fn holds(cc: Cond, fl: Flags) -> bool {
    match cc {
        Cond::NZ => !fl.z,
        Cond::Z => fl.z,
        Cond::NC => !fl.c,
        Cond::C => fl.c,
    }
}

/// The address that a load or store of the accumulator uses.
pub open spec fn indirect_addr(regs: Registers, ind: Indirect) -> u16 {
    match ind {
        Indirect::BC => regs.spec_bc(),
        Indirect::DE => regs.spec_de(),
        Indirect::HLInc => regs.spec_hl(),
        Indirect::HLDec => regs.spec_hl(),
    }
}

/// The registers after a load or store of the accumulator moved `HL`.
pub open spec fn indirect_moved(regs: Registers, ind: Indirect) -> Registers {
    match ind {
        Indirect::BC => regs,
        Indirect::DE => regs,
        Indirect::HLInc => regs.with_hl(wrap16(regs.spec_hl() + 1)),
        Indirect::HLDec => regs.with_hl(wrap16(regs.spec_hl() - 1)),
    }
}

/// The value of a pair that can be pushed.
pub open spec fn stack_pair(regs: Registers, rr: Stack16) -> u16 {
    match rr {
        Stack16::BC => regs.spec_bc(),
        Stack16::DE => regs.spec_de(),
        Stack16::HL => regs.spec_hl(),
        Stack16::AF => regs.spec_af(),
    }
}

/// The registers after a pair was popped: of a value popped into `AF` the
/// low four bits are dropped.
pub open spec fn with_stack_pair(regs: Registers, rr: Stack16, hi: u8, lo: u8) -> Registers {
    match rr {
        Stack16::BC => Registers { b: hi, c: lo, ..regs },
        Stack16::DE => Registers { d: hi, e: lo, ..regs },
        Stack16::HL => Registers { h: hi, l: lo, ..regs },
        Stack16::AF => Registers { a: hi, f: (lo - lo % 16) as u8, ..regs },
    }
}

/// The address in the last page of the address space at offset `n`.
pub open spec fn high_addr(n: u8) -> u16 {
    (0xFF00 + n) as u16
}

/// No operation.
#[verifier::opaque]
pub open spec fn nop_spec(regs: Registers, mem: MemoryView) -> Outcome {
    Outcome { regs, mem, ticks: 1 }
}

/// Stops the processor until a button is pressed.
#[verifier::opaque]
pub open spec fn stop_spec(regs: Registers, mem: MemoryView) -> Outcome {
    Outcome { regs: Registers { stop: 1, ..regs }, mem, ticks: 1 }
}

/// Halts the processor until an interrupt is pending.
#[verifier::opaque]
pub open spec fn halt_spec(regs: Registers, mem: MemoryView) -> Outcome {
    Outcome { regs: Registers { halt: 1, ..regs }, mem, ticks: 1 }
}

/// Disables interrupts.
#[verifier::opaque]
pub open spec fn di_spec(regs: Registers, mem: MemoryView) -> Outcome {
    Outcome { regs: regs.spec_di(), mem, ticks: 1 }
}

/// Schedules the enabling of interrupts.
#[verifier::opaque]
pub open spec fn ei_spec(regs: Registers, mem: MemoryView) -> Outcome {
    Outcome { regs: regs.spec_ei(mem), mem, ticks: 1 }
}

/// A byte that stands for no instruction: the program counter goes back to
/// it, so that it is fetched again, and no cycle passes.
#[verifier::opaque]
pub open spec fn undefined_spec(regs: Registers, mem: MemoryView) -> Outcome {
    Outcome { regs: regs.skip(-1), mem, ticks: 0 }
}

/// `LD dst,src`: copies an 8-bit operand.
#[verifier::opaque]
pub open spec fn ld_spec(regs: Registers, mem: MemoryView, dst: Reg8, src: Reg8) -> Outcome {
    let (r, m) = stored(regs, mem, dst, operand(regs, mem, src));
    Outcome { regs: r, mem: m, ticks: (1 + access(dst) + access(src)) as u32 }
}

/// `LD r,n`: puts the byte after the opcode into an 8-bit operand.
#[verifier::opaque]
pub open spec fn ld_imm_spec(regs: Registers, mem: MemoryView, dst: Reg8) -> Outcome {
    let (r, m) = stored(regs.skip(1), mem, dst, mem.read_byte(regs.pc));
    Outcome { regs: r, mem: m, ticks: (2 + access(dst)) as u32 }
}

/// `LD rr,nn`: puts the two bytes after the opcode into a 16-bit register.
#[verifier::opaque]
pub open spec fn ld_imm16_spec(regs: Registers, mem: MemoryView, rr: Reg16) -> Outcome {
    Outcome { regs: regs.skip(2).with16(rr, mem.read_word(regs.pc)), mem, ticks: 3 }
}

/// `LD (rr),A`: stores the accumulator where a pair points to.
#[verifier::opaque]
pub open spec fn store_a_spec(regs: Registers, mem: MemoryView, ind: Indirect) -> Outcome {
    Outcome { regs: indirect_moved(regs, ind), mem: mem.write_byte(indirect_addr(regs, ind), regs.a), ticks: 2 }
}

/// `LD A,(rr)`: loads the accumulator from where a pair points to.
#[verifier::opaque]
pub open spec fn load_a_spec(regs: Registers, mem: MemoryView, ind: Indirect) -> Outcome {
    Outcome { regs: indirect_moved(Registers { a: mem.read_byte(indirect_addr(regs, ind)), ..regs }, ind), mem, ticks: 2 }
}

/// `LD (nn),SP`: stores the stack pointer at the address after the opcode.
#[verifier::opaque]
pub open spec fn store_sp_spec(regs: Registers, mem: MemoryView) -> Outcome {
    Outcome { regs: regs.skip(2), mem: mem.write_word(mem.read_word(regs.pc), regs.sp), ticks: 5 }
}

/// `LD SP,HL`
#[verifier::opaque]
pub open spec fn ld_sp_hl_spec(regs: Registers, mem: MemoryView) -> Outcome {
    Outcome { regs: Registers { sp: regs.spec_hl(), ..regs }, mem, ticks: 2 }
}

/// `LDHL SP,n`: puts into `HL` the stack pointer plus the signed byte after
/// the opcode.
#[verifier::opaque]
pub open spec fn ld_hl_sp_spec(regs: Registers, mem: MemoryView) -> Outcome {
    let (w, fl) = add_signed_spec(regs.sp, mem.read_byte(regs.pc));
    Outcome { regs: regs.skip(1).with_hl(w).with_flags(fl), mem, ticks: 3 }
}

/// `LDH (n),A`: stores the accumulator in the last page, at the offset after
/// the opcode.
#[verifier::opaque]
pub open spec fn store_high_spec(regs: Registers, mem: MemoryView) -> Outcome {
    Outcome { regs: regs.skip(1), mem: mem.write_byte(high_addr(mem.read_byte(regs.pc)), regs.a), ticks: 3 }
}

/// `LDH A,(n)`: loads the accumulator from the last page, at the offset
/// after the opcode.
#[verifier::opaque]
pub open spec fn load_high_spec(regs: Registers, mem: MemoryView) -> Outcome {
    Outcome { regs: Registers { a: mem.read_byte(high_addr(mem.read_byte(regs.pc))), ..regs.skip(1) }, mem, ticks: 3 }
}

/// `LD (C),A`: stores the accumulator in the last page, at the offset in `C`.
#[verifier::opaque]
pub open spec fn store_high_c_spec(regs: Registers, mem: MemoryView) -> Outcome {
    Outcome { regs, mem: mem.write_byte(high_addr(regs.c), regs.a), ticks: 2 }
}

/// `LD A,(C)`: loads the accumulator from the last page, at the offset in `C`.
#[verifier::opaque]
pub open spec fn load_high_c_spec(regs: Registers, mem: MemoryView) -> Outcome {
    Outcome { regs: Registers { a: mem.read_byte(high_addr(regs.c)), ..regs }, mem, ticks: 2 }
}

/// `LD (nn),A`: stores the accumulator at the address after the opcode.
#[verifier::opaque]
pub open spec fn store_abs_spec(regs: Registers, mem: MemoryView) -> Outcome {
    Outcome { regs: regs.skip(2), mem: mem.write_byte(mem.read_word(regs.pc), regs.a), ticks: 4 }
}

/// `LD A,(nn)`: loads the accumulator from the address after the opcode.
#[verifier::opaque]
pub open spec fn load_abs_spec(regs: Registers, mem: MemoryView) -> Outcome {
    Outcome { regs: Registers { a: mem.read_byte(mem.read_word(regs.pc)), ..regs.skip(2) }, mem, ticks: 4 }
}

/// Pushes a pair: the high byte goes below the stack pointer, the low byte
/// below that.
#[verifier::opaque]
pub open spec fn push_spec(regs: Registers, mem: MemoryView, rr: Stack16) -> Outcome {
    let w = stack_pair(regs, rr);
    Outcome {
        regs: Registers { sp: wrap16(regs.sp - 2), ..regs },
        mem: mem.write_byte(wrap16(regs.sp - 1), high_byte(w)).write_byte(
            wrap16(regs.sp - 2),
            low_byte(w),
        ),
        ticks: 4,
    }
}

/// Pops a pair: the low byte comes from the stack pointer, the high byte
/// from above it.
#[verifier::opaque]
pub open spec fn pop_spec(regs: Registers, mem: MemoryView, rr: Stack16) -> Outcome {
    Outcome {
        regs: with_stack_pair(
            Registers { sp: wrap16(regs.sp + 2), ..regs },
            rr,
            mem.read_byte(wrap16(regs.sp + 1)),
            mem.read_byte(regs.sp),
        ),
        mem,
        ticks: 3,
    }
}

/// An operation on the accumulator with an 8-bit operand.
#[verifier::opaque]
pub open spec fn alu_a_spec(regs: Registers, mem: MemoryView, op: AluOp, src: Reg8) -> Outcome {
    let (v, fl) = alu_spec(op, regs.a, operand(regs, mem, src), regs.flags());
    Outcome { regs: Registers { a: v, ..regs }.with_flags(fl), mem, ticks: (1 + access(src)) as u32 }
}

/// An operation on the accumulator with the byte after the opcode.
#[verifier::opaque]
pub open spec fn alu_imm_spec(regs: Registers, mem: MemoryView, op: AluOp) -> Outcome {
    let (v, fl) = alu_spec(op, regs.a, mem.read_byte(regs.pc), regs.flags());
    Outcome { regs: Registers { a: v, ..regs.skip(1) }.with_flags(fl), mem, ticks: 2 }
}

/// `INC r`: counts an 8-bit operand up.
#[verifier::opaque]
pub open spec fn inc8_spec(regs: Registers, mem: MemoryView, r: Reg8) -> Outcome {
    let (v, fl) = inc_spec(operand(regs, mem, r), regs.flags());
    let (r2, m2) = stored(regs, mem, r, v);
    Outcome { regs: r2.with_flags(fl), mem: m2, ticks: (1 + 2 * access(r)) as u32 }
}

/// `DEC r`: counts an 8-bit operand down.
#[verifier::opaque]
pub open spec fn dec8_spec(regs: Registers, mem: MemoryView, r: Reg8) -> Outcome {
    let (v, fl) = dec_spec(operand(regs, mem, r), regs.flags());
    let (r2, m2) = stored(regs, mem, r, v);
    Outcome { regs: r2.with_flags(fl), mem: m2, ticks: (1 + 2 * access(r)) as u32 }
}

/// `INC rr`: counts a 16-bit register up; the flags stay.
#[verifier::opaque]
pub open spec fn inc16_spec(regs: Registers, mem: MemoryView, rr: Reg16) -> Outcome {
    Outcome { regs: regs.with16(rr, wrap16(regs.get16(rr) + 1)), mem, ticks: 2 }
}

/// `DEC rr`: counts a 16-bit register down; the flags stay.
#[verifier::opaque]
pub open spec fn dec16_spec(regs: Registers, mem: MemoryView, rr: Reg16) -> Outcome {
    Outcome { regs: regs.with16(rr, wrap16(regs.get16(rr) - 1)), mem, ticks: 2 }
}

/// `ADD HL,rr`
#[verifier::opaque]
pub open spec fn add_hl_spec(regs: Registers, mem: MemoryView, rr: Reg16) -> Outcome {
    let (w, fl) = add16_spec(regs.spec_hl(), regs.get16(rr), regs.flags());
    Outcome { regs: regs.with_hl(w).with_flags(fl), mem, ticks: 2 }
}

/// `ADD SP,n`: adds the signed byte after the opcode to the stack pointer.
#[verifier::opaque]
pub open spec fn add_sp_spec(regs: Registers, mem: MemoryView) -> Outcome {
    let (w, fl) = add_signed_spec(regs.sp, mem.read_byte(regs.pc));
    Outcome { regs: Registers { sp: w, ..regs.skip(1) }.with_flags(fl), mem, ticks: 4 }
}

/// A rotation of the accumulator.
#[verifier::opaque]
pub open spec fn rotate_a_spec(regs: Registers, mem: MemoryView, op: RotOp) -> Outcome {
    let (v, fl) = rot_spec(op, regs.a, regs.flags());
    Outcome { regs: Registers { a: v, ..regs }.with_flags(fl), mem, ticks: 1 }
}

/// `DAA`: adjusts the accumulator to two decimal digits.
#[verifier::opaque]
pub open spec fn daa_a_spec(regs: Registers, mem: MemoryView) -> Outcome {
    let (v, fl) = daa_spec(regs.a, regs.flags());
    Outcome { regs: Registers { a: v, ..regs }.with_flags(fl), mem, ticks: 1 }
}

/// `CPL`: flips every bit of the accumulator.
#[verifier::opaque]
pub open spec fn cpl_a_spec(regs: Registers, mem: MemoryView) -> Outcome {
    let (v, fl) = cpl_spec(regs.a, regs.flags());
    Outcome { regs: Registers { a: v, ..regs }.with_flags(fl), mem, ticks: 1 }
}

/// `SCF`: sets the carry.
#[verifier::opaque]
pub open spec fn scf_spec_of(regs: Registers, mem: MemoryView) -> Outcome {
    Outcome { regs: regs.with_flags(scf_spec(regs.flags())), mem, ticks: 1 }
}

/// `CCF`: flips the carry.
#[verifier::opaque]
pub open spec fn ccf_spec_of(regs: Registers, mem: MemoryView) -> Outcome {
    Outcome { regs: regs.with_flags(ccf_spec(regs.flags())), mem, ticks: 1 }
}

/// `JP nn`: jumps to the address after the opcode.
#[verifier::opaque]
pub open spec fn jp_spec(regs: Registers, mem: MemoryView) -> Outcome {
    Outcome { regs: Registers { pc: mem.read_word(regs.pc), ..regs }, mem, ticks: 3 }
}

/// `JP cc,nn`: jumps if the condition holds, else goes on behind the address.
#[verifier::opaque]
pub open spec fn jp_if_spec(regs: Registers, mem: MemoryView, cc: Cond) -> Outcome {
    if holds(cc, regs.flags()) {
        jp_spec(regs, mem)
    } else {
        Outcome { regs: regs.skip(2), mem, ticks: 3 }
    }
}

/// `JP (HL)`: jumps to the address in `HL`.
#[verifier::opaque]
pub open spec fn jp_hl_spec(regs: Registers, mem: MemoryView) -> Outcome {
    Outcome { regs: Registers { pc: regs.spec_hl(), ..regs }, mem, ticks: 1 }
}

/// `JR n`: jumps by the signed byte after the opcode, counted from behind it.
#[verifier::opaque]
pub open spec fn jr_spec(regs: Registers, mem: MemoryView) -> Outcome {
    Outcome { regs: Registers { pc: wrap16(regs.pc + 1 + signed(mem.read_byte(regs.pc))), ..regs }, mem, ticks: 3 }
}

/// `JR cc,n`: jumps if the condition holds, else goes on behind the offset.
#[verifier::opaque]
pub open spec fn jr_if_spec(regs: Registers, mem: MemoryView, cc: Cond) -> Outcome {
    if holds(cc, regs.flags()) {
        jr_spec(regs, mem)
    } else {
        Outcome { regs: regs.skip(1), mem, ticks: 2 }
    }
}

/// `CALL nn`: pushes the address behind the instruction and jumps to the
/// address after the opcode, read after the push.
#[verifier::opaque]
pub open spec fn call_spec(regs: Registers, mem: MemoryView) -> Outcome {
    let pushed = mem.write_word(wrap16(regs.sp - 2), wrap16(regs.pc + 2));
    Outcome {
        regs: Registers { sp: wrap16(regs.sp - 2), pc: pushed.read_word(regs.pc), ..regs },
        mem: pushed,
        ticks: 6,
    }
}

/// `CALL cc,nn`: calls if the condition holds, else goes on behind the address.
#[verifier::opaque]
pub open spec fn call_if_spec(regs: Registers, mem: MemoryView, cc: Cond) -> Outcome {
    if holds(cc, regs.flags()) {
        call_spec(regs, mem)
    } else {
        Outcome { regs: regs.skip(2), mem, ticks: 3 }
    }
}

/// `RET`: pops the program counter.
#[verifier::opaque]
pub open spec fn ret_spec(regs: Registers, mem: MemoryView) -> Outcome {
    Outcome { regs: regs.spec_ret(mem), mem, ticks: 4 }
}

/// `RET cc`: returns if the condition holds.
#[verifier::opaque]
pub open spec fn ret_if_spec(regs: Registers, mem: MemoryView, cc: Cond) -> Outcome {
    if holds(cc, regs.flags()) {
        Outcome { regs: regs.spec_ret(mem), mem, ticks: 5 }
    } else {
        Outcome { regs, mem, ticks: 2 }
    }
}

/// `RETI`: returns and schedules the enabling of interrupts.
#[verifier::opaque]
pub open spec fn reti_spec(regs: Registers, mem: MemoryView) -> Outcome {
    Outcome { regs: regs.spec_ret(mem).spec_ei(mem), mem, ticks: 4 }
}

/// `RST n`: calls a fixed address.
#[verifier::opaque]
pub open spec fn rst_spec(regs: Registers, mem: MemoryView, target: u8) -> Outcome {
    Outcome {
        regs: regs.spec_rst(target as u16),
        mem: mem.write_word(wrap16(regs.sp - 2), regs.pc),
        ticks: 8,
    }
}

/// A rotation or shift of an 8-bit operand.
#[verifier::opaque]
pub open spec fn rotate_spec(regs: Registers, mem: MemoryView, op: RotOp, r: Reg8) -> Outcome {
    let (v, fl) = rot_spec(op, operand(regs, mem, r), regs.flags());
    let (r2, m2) = stored(regs, mem, r, v);
    Outcome { regs: r2.with_flags(fl), mem: m2, ticks: (2 + 2 * access(r)) as u32 }
}

/// `BIT b,r`: tests one bit of an 8-bit operand.
#[verifier::opaque]
pub open spec fn test_bit_spec(regs: Registers, mem: MemoryView, b: u8, r: Reg8) -> Outcome {
    Outcome {
        regs: regs.with_flags(bit_spec(operand(regs, mem, r), b, regs.flags())),
        mem,
        ticks: (2 + access(r)) as u32,
    }
}

/// `RES b,r`: clears one bit of an 8-bit operand.
#[verifier::opaque]
pub open spec fn reset_bit_spec(regs: Registers, mem: MemoryView, b: u8, r: Reg8) -> Outcome {
    let (r2, m2) = stored(regs, mem, r, without_bit(operand(regs, mem, r), b));
    Outcome { regs: r2, mem: m2, ticks: (2 + 2 * access(r)) as u32 }
}

/// `SET b,r`: sets one bit of an 8-bit operand.
#[verifier::opaque]
pub open spec fn set_bit_of_spec(regs: Registers, mem: MemoryView, b: u8, r: Reg8) -> Outcome {
    let (r2, m2) = stored(regs, mem, r, with_bit(operand(regs, mem, r), b));
    Outcome { regs: r2, mem: m2, ticks: (2 + 2 * access(r)) as u32 }
}

/// Reads an 8-bit operand.
pub fn read_operand(regs: &Registers, mem: &Memory, r: Reg8) -> (v: u8)
    requires
        mem.wf(),
    ensures
        v == operand(*regs, mem@, r),
{
    match r {
        Reg8::HlInd => mem.read_byte(regs.hl()),
        _ => regs.read8(r),
    }
}

/// Writes an 8-bit operand.
pub fn write_operand(regs: &mut Registers, mem: &mut Memory, r: Reg8, v: u8)
    requires
        old(mem).wf(),
    ensures
        final(mem).wf(),
        (*final(regs), final(mem)@) == stored(*old(regs), old(mem)@, r, v),
{
    match r {
        Reg8::HlInd => {
            mem.write_byte(regs.hl(), v);
        },
        _ => {
            regs.write8(r, v);
        },
    }
}

/// The extra machine cycles that an access to a memory operand takes.
pub fn access_ticks(r: Reg8) -> (t: u32)
    ensures
        t == access(r),
{
    match r {
        Reg8::HlInd => 1,
        _ => 0,
    }
}

/// Tests a condition on the flags.
pub fn test(cc: Cond, fl: Flags) -> (b: bool)
    ensures
        b == holds(cc, fl),
{
    match cc {
        Cond::NZ => !fl.z,
        Cond::Z => fl.z,
        Cond::NC => !fl.c,
        Cond::C => fl.c,
    }
}

/// The address that a load or store of the accumulator uses.
pub fn indirect(regs: &Registers, ind: Indirect) -> (addr: u16)
    ensures
        addr == indirect_addr(*regs, ind),
{
    match ind {
        Indirect::BC => regs.bc(),
        Indirect::DE => regs.de(),
        Indirect::HLInc => regs.hl(),
        Indirect::HLDec => regs.hl(),
    }
}

/// Moves `HL` after a load or store of the accumulator that asks for it.
pub fn move_indirect(regs: &mut Registers, ind: Indirect)
    ensures
        *final(regs) == indirect_moved(*old(regs), ind),
{
    match ind {
        Indirect::BC => {},
        Indirect::DE => {},
        Indirect::HLInc => {
            regs.inc_hl();
        },
        Indirect::HLDec => {
            regs.dec_hl();
        },
    }
}

/// The value of a pair that can be pushed.
pub fn pair(regs: &Registers, rr: Stack16) -> (w: u16)
    ensures
        w == stack_pair(*regs, rr),
{
    match rr {
        Stack16::BC => regs.bc(),
        Stack16::DE => regs.de(),
        Stack16::HL => regs.hl(),
        Stack16::AF => regs.af(),
    }
}

/// Puts two popped bytes into a pair.
pub fn set_pair(regs: &mut Registers, rr: Stack16, hi: u8, lo: u8)
    requires
        old(regs).wf(),
    ensures
        final(regs).wf(),
        *final(regs) == with_stack_pair(*old(regs), rr, hi, lo),
{
    match rr {
        Stack16::BC => {
            regs.b = hi;
            regs.c = lo;
        },
        Stack16::DE => {
            regs.d = hi;
            regs.e = lo;
        },
        Stack16::HL => {
            regs.h = hi;
            regs.l = lo;
        },
        Stack16::AF => {
            regs.a = hi;
            regs.f = lo - lo % 16;
        },
    }
}

/// No operation.
pub fn nop(regs: &mut Registers, mem: &mut Memory) -> (ticks: u32)
    requires
        old(regs).wf(),
        old(mem).wf(),
    ensures
        final(regs).wf(),
        final(mem).wf(),
        yields(nop_spec(*old(regs), old(mem)@), *final(regs), final(mem)@, ticks),
        ticks <= 8,
{
    reveal(yields);
    reveal(nop_spec);
    1
}

/// Stops the processor until a button is pressed.
pub fn stop(regs: &mut Registers, mem: &mut Memory) -> (ticks: u32)
    requires
        old(regs).wf(),
        old(mem).wf(),
    ensures
        final(regs).wf(),
        final(mem).wf(),
        yields(stop_spec(*old(regs), old(mem)@), *final(regs), final(mem)@, ticks),
        ticks <= 8,
{
    reveal(yields);
    reveal(stop_spec);
    regs.stop = 1;
    1
}

/// Halts the processor until an interrupt is pending.
pub fn halt(regs: &mut Registers, mem: &mut Memory) -> (ticks: u32)
    requires
        old(regs).wf(),
        old(mem).wf(),
    ensures
        final(regs).wf(),
        final(mem).wf(),
        yields(halt_spec(*old(regs), old(mem)@), *final(regs), final(mem)@, ticks),
        ticks <= 8,
{
    reveal(yields);
    reveal(halt_spec);
    regs.halt = 1;
    1
}

/// Disables interrupts.
pub fn di(regs: &mut Registers, mem: &mut Memory) -> (ticks: u32)
    requires
        old(regs).wf(),
        old(mem).wf(),
    ensures
        final(regs).wf(),
        final(mem).wf(),
        yields(di_spec(*old(regs), old(mem)@), *final(regs), final(mem)@, ticks),
        ticks <= 8,
{
    reveal(yields);
    reveal(di_spec);
    regs.di();
    1
}

/// Schedules the enabling of interrupts.
pub fn ei(regs: &mut Registers, mem: &mut Memory) -> (ticks: u32)
    requires
        old(regs).wf(),
        old(mem).wf(),
    ensures
        final(regs).wf(),
        final(mem).wf(),
        yields(ei_spec(*old(regs), old(mem)@), *final(regs), final(mem)@, ticks),
        ticks <= 8,
{
    reveal(yields);
    reveal(ei_spec);
    regs.ei(mem);
    1
}

/// A byte that stands for no instruction: the program counter goes back to
/// it, so that it is fetched again, and no cycle passes.
pub fn undefined(regs: &mut Registers, mem: &mut Memory) -> (ticks: u32)
    requires
        old(regs).wf(),
        old(mem).wf(),
    ensures
        final(regs).wf(),
        final(mem).wf(),
        yields(undefined_spec(*old(regs), old(mem)@), *final(regs), final(mem)@, ticks),
        ticks <= 8,
{
    reveal(yields);
    reveal(undefined_spec);
    regs.pc = regs.pc.wrapping_sub(1);
    0
}

/// `LD dst,src`: copies an 8-bit operand.
pub fn ld(regs: &mut Registers, mem: &mut Memory, dst: Reg8, src: Reg8) -> (ticks: u32)
    requires
        old(regs).wf(),
        old(mem).wf(),
    ensures
        final(regs).wf(),
        final(mem).wf(),
        yields(ld_spec(*old(regs), old(mem)@, dst, src), *final(regs), final(mem)@, ticks),
        ticks <= 8,
{
    reveal(yields);
    reveal(ld_spec);
    let v: u8 = read_operand(regs, mem, src);
    write_operand(regs, mem, dst, v);
    1 + access_ticks(dst) + access_ticks(src)
}

/// `LD r,n`: puts the byte after the opcode into an 8-bit operand.
pub fn ld_imm(regs: &mut Registers, mem: &mut Memory, dst: Reg8) -> (ticks: u32)
    requires
        old(regs).wf(),
        old(mem).wf(),
    ensures
        final(regs).wf(),
        final(mem).wf(),
        yields(ld_imm_spec(*old(regs), old(mem)@, dst), *final(regs), final(mem)@, ticks),
        ticks <= 8,
{
    reveal(yields);
    reveal(ld_imm_spec);
    let v: u8 = mem.read_byte(regs.adv());
    write_operand(regs, mem, dst, v);
    2 + access_ticks(dst)
}

/// `LD rr,nn`: puts the two bytes after the opcode into a 16-bit register.
pub fn ld_imm16(regs: &mut Registers, mem: &mut Memory, rr: Reg16) -> (ticks: u32)
    requires
        old(regs).wf(),
        old(mem).wf(),
    ensures
        final(regs).wf(),
        final(mem).wf(),
        yields(ld_imm16_spec(*old(regs), old(mem)@, rr), *final(regs), final(mem)@, ticks),
        ticks <= 8,
{
    reveal(yields);
    reveal(ld_imm16_spec);
    let w: u16 = mem.read_word(regs.pc);
    regs.pc = regs.pc.wrapping_add(2);
    regs.write16(rr, w);
    3
}

/// `LD (rr),A`: stores the accumulator where a pair points to.
pub fn store_a(regs: &mut Registers, mem: &mut Memory, ind: Indirect) -> (ticks: u32)
    requires
        old(regs).wf(),
        old(mem).wf(),
    ensures
        final(regs).wf(),
        final(mem).wf(),
        yields(store_a_spec(*old(regs), old(mem)@, ind), *final(regs), final(mem)@, ticks),
        ticks <= 8,
{
    reveal(yields);
    reveal(store_a_spec);
    let addr: u16 = indirect(regs, ind);
    mem.write_byte(addr, regs.a);
    move_indirect(regs, ind);
    2
}

/// `LD A,(rr)`: loads the accumulator from where a pair points to.
pub fn load_a(regs: &mut Registers, mem: &mut Memory, ind: Indirect) -> (ticks: u32)
    requires
        old(regs).wf(),
        old(mem).wf(),
    ensures
        final(regs).wf(),
        final(mem).wf(),
        yields(load_a_spec(*old(regs), old(mem)@, ind), *final(regs), final(mem)@, ticks),
        ticks <= 8,
{
    reveal(yields);
    reveal(load_a_spec);
    let addr: u16 = indirect(regs, ind);
    regs.a = mem.read_byte(addr);
    move_indirect(regs, ind);
    2
}

/// `LD (nn),SP`: stores the stack pointer at the address after the opcode.
pub fn store_sp(regs: &mut Registers, mem: &mut Memory) -> (ticks: u32)
    requires
        old(regs).wf(),
        old(mem).wf(),
    ensures
        final(regs).wf(),
        final(mem).wf(),
        yields(store_sp_spec(*old(regs), old(mem)@), *final(regs), final(mem)@, ticks),
        ticks <= 8,
{
    reveal(yields);
    reveal(store_sp_spec);
    let addr: u16 = mem.read_word(regs.pc);
    mem.write_word(addr, regs.sp);
    regs.pc = regs.pc.wrapping_add(2);
    5
}

/// `LD SP,HL`
pub fn ld_sp_hl(regs: &mut Registers, mem: &mut Memory) -> (ticks: u32)
    requires
        old(regs).wf(),
        old(mem).wf(),
    ensures
        final(regs).wf(),
        final(mem).wf(),
        yields(ld_sp_hl_spec(*old(regs), old(mem)@), *final(regs), final(mem)@, ticks),
        ticks <= 8,
{
    reveal(yields);
    reveal(ld_sp_hl_spec);
    regs.sp = regs.hl();
    2
}

/// `LDHL SP,n`: puts into `HL` the stack pointer plus the signed byte after
/// the opcode.
pub fn ld_hl_sp(regs: &mut Registers, mem: &mut Memory) -> (ticks: u32)
    requires
        old(regs).wf(),
        old(mem).wf(),
    ensures
        final(regs).wf(),
        final(mem).wf(),
        yields(ld_hl_sp_spec(*old(regs), old(mem)@), *final(regs), final(mem)@, ticks),
        ticks <= 8,
{
    reveal(yields);
    reveal(ld_hl_sp_spec);
    let n: u8 = mem.read_byte(regs.adv());
    let (w, fl) = add_signed(regs.sp, n);
    regs.set_hl(w);
    regs.set_flags(fl);
    3
}

/// `LDH (n),A`: stores the accumulator in the last page, at the offset after
/// the opcode.
pub fn store_high(regs: &mut Registers, mem: &mut Memory) -> (ticks: u32)
    requires
        old(regs).wf(),
        old(mem).wf(),
    ensures
        final(regs).wf(),
        final(mem).wf(),
        yields(store_high_spec(*old(regs), old(mem)@), *final(regs), final(mem)@, ticks),
        ticks <= 8,
{
    reveal(yields);
    reveal(store_high_spec);
    let n: u8 = mem.read_byte(regs.adv());
    mem.write_byte(0xFF00 + n as u16, regs.a);
    3
}

/// `LDH A,(n)`: loads the accumulator from the last page, at the offset
/// after the opcode.
pub fn load_high(regs: &mut Registers, mem: &mut Memory) -> (ticks: u32)
    requires
        old(regs).wf(),
        old(mem).wf(),
    ensures
        final(regs).wf(),
        final(mem).wf(),
        yields(load_high_spec(*old(regs), old(mem)@), *final(regs), final(mem)@, ticks),
        ticks <= 8,
{
    reveal(yields);
    reveal(load_high_spec);
    let n: u8 = mem.read_byte(regs.adv());
    regs.a = mem.read_byte(0xFF00 + n as u16);
    3
}

/// `LD (C),A`: stores the accumulator in the last page, at the offset in `C`.
pub fn store_high_c(regs: &mut Registers, mem: &mut Memory) -> (ticks: u32)
    requires
        old(regs).wf(),
        old(mem).wf(),
    ensures
        final(regs).wf(),
        final(mem).wf(),
        yields(store_high_c_spec(*old(regs), old(mem)@), *final(regs), final(mem)@, ticks),
        ticks <= 8,
{
    reveal(yields);
    reveal(store_high_c_spec);
    mem.write_byte(0xFF00 + regs.c as u16, regs.a);
    2
}

/// `LD A,(C)`: loads the accumulator from the last page, at the offset in `C`.
pub fn load_high_c(regs: &mut Registers, mem: &mut Memory) -> (ticks: u32)
    requires
        old(regs).wf(),
        old(mem).wf(),
    ensures
        final(regs).wf(),
        final(mem).wf(),
        yields(load_high_c_spec(*old(regs), old(mem)@), *final(regs), final(mem)@, ticks),
        ticks <= 8,
{
    reveal(yields);
    reveal(load_high_c_spec);
    regs.a = mem.read_byte(0xFF00 + regs.c as u16);
    2
}

/// `LD (nn),A`: stores the accumulator at the address after the opcode.
pub fn store_abs(regs: &mut Registers, mem: &mut Memory) -> (ticks: u32)
    requires
        old(regs).wf(),
        old(mem).wf(),
    ensures
        final(regs).wf(),
        final(mem).wf(),
        yields(store_abs_spec(*old(regs), old(mem)@), *final(regs), final(mem)@, ticks),
        ticks <= 8,
{
    reveal(yields);
    reveal(store_abs_spec);
    let addr: u16 = mem.read_word(regs.pc);
    mem.write_byte(addr, regs.a);
    regs.pc = regs.pc.wrapping_add(2);
    4
}

/// `LD A,(nn)`: loads the accumulator from the address after the opcode.
pub fn load_abs(regs: &mut Registers, mem: &mut Memory) -> (ticks: u32)
    requires
        old(regs).wf(),
        old(mem).wf(),
    ensures
        final(regs).wf(),
        final(mem).wf(),
        yields(load_abs_spec(*old(regs), old(mem)@), *final(regs), final(mem)@, ticks),
        ticks <= 8,
{
    reveal(yields);
    reveal(load_abs_spec);
    let addr: u16 = mem.read_word(regs.pc);
    regs.a = mem.read_byte(addr);
    regs.pc = regs.pc.wrapping_add(2);
    4
}

/// Pushes a pair: the high byte goes below the stack pointer, the low byte
/// below that.
pub fn push(regs: &mut Registers, mem: &mut Memory, rr: Stack16) -> (ticks: u32)
    requires
        old(regs).wf(),
        old(mem).wf(),
    ensures
        final(regs).wf(),
        final(mem).wf(),
        yields(push_spec(*old(regs), old(mem)@, rr), *final(regs), final(mem)@, ticks),
        ticks <= 8,
{
    reveal(yields);
    reveal(push_spec);
    let w: u16 = pair(regs, rr);
    mem.write_byte(regs.sp.wrapping_sub(1), (w / 256) as u8);
    mem.write_byte(regs.sp.wrapping_sub(2), (w % 256) as u8);
    regs.sp = regs.sp.wrapping_sub(2);
    4
}

/// Pops a pair: the low byte comes from the stack pointer, the high byte
/// from above it.
pub fn pop(regs: &mut Registers, mem: &mut Memory, rr: Stack16) -> (ticks: u32)
    requires
        old(regs).wf(),
        old(mem).wf(),
    ensures
        final(regs).wf(),
        final(mem).wf(),
        yields(pop_spec(*old(regs), old(mem)@, rr), *final(regs), final(mem)@, ticks),
        ticks <= 8,
{
    reveal(yields);
    reveal(pop_spec);
    let lo: u8 = mem.read_byte(regs.sp);
    let hi: u8 = mem.read_byte(regs.sp.wrapping_add(1));
    regs.sp = regs.sp.wrapping_add(2);
    set_pair(regs, rr, hi, lo);
    3
}

/// An operation on the accumulator with an 8-bit operand.
pub fn alu_a(regs: &mut Registers, mem: &mut Memory, op: AluOp, src: Reg8) -> (ticks: u32)
    requires
        old(regs).wf(),
        old(mem).wf(),
    ensures
        final(regs).wf(),
        final(mem).wf(),
        yields(alu_a_spec(*old(regs), old(mem)@, op, src), *final(regs), final(mem)@, ticks),
        ticks <= 8,
{
    reveal(yields);
    reveal(alu_a_spec);
    let n: u8 = read_operand(regs, mem, src);
    let (v, fl) = alu(op, regs.a, n, regs.get_flags());
    regs.a = v;
    regs.set_flags(fl);
    1 + access_ticks(src)
}

/// An operation on the accumulator with the byte after the opcode.
pub fn alu_imm(regs: &mut Registers, mem: &mut Memory, op: AluOp) -> (ticks: u32)
    requires
        old(regs).wf(),
        old(mem).wf(),
    ensures
        final(regs).wf(),
        final(mem).wf(),
        yields(alu_imm_spec(*old(regs), old(mem)@, op), *final(regs), final(mem)@, ticks),
        ticks <= 8,
{
    reveal(yields);
    reveal(alu_imm_spec);
    let n: u8 = mem.read_byte(regs.adv());
    let (v, fl) = alu(op, regs.a, n, regs.get_flags());
    regs.a = v;
    regs.set_flags(fl);
    2
}

/// `INC r`: counts an 8-bit operand up.
pub fn inc8(regs: &mut Registers, mem: &mut Memory, r: Reg8) -> (ticks: u32)
    requires
        old(regs).wf(),
        old(mem).wf(),
    ensures
        final(regs).wf(),
        final(mem).wf(),
        yields(inc8_spec(*old(regs), old(mem)@, r), *final(regs), final(mem)@, ticks),
        ticks <= 8,
{
    reveal(yields);
    reveal(inc8_spec);
    let n: u8 = read_operand(regs, mem, r);
    let (v, fl) = inc(n, regs.get_flags());
    write_operand(regs, mem, r, v);
    regs.set_flags(fl);
    1 + 2 * access_ticks(r)
}

/// `DEC r`: counts an 8-bit operand down.
pub fn dec8(regs: &mut Registers, mem: &mut Memory, r: Reg8) -> (ticks: u32)
    requires
        old(regs).wf(),
        old(mem).wf(),
    ensures
        final(regs).wf(),
        final(mem).wf(),
        yields(dec8_spec(*old(regs), old(mem)@, r), *final(regs), final(mem)@, ticks),
        ticks <= 8,
{
    reveal(yields);
    reveal(dec8_spec);
    let n: u8 = read_operand(regs, mem, r);
    let (v, fl) = dec(n, regs.get_flags());
    write_operand(regs, mem, r, v);
    regs.set_flags(fl);
    1 + 2 * access_ticks(r)
}

/// `INC rr`: counts a 16-bit register up; the flags stay.
pub fn inc16(regs: &mut Registers, mem: &mut Memory, rr: Reg16) -> (ticks: u32)
    requires
        old(regs).wf(),
        old(mem).wf(),
    ensures
        final(regs).wf(),
        final(mem).wf(),
        yields(inc16_spec(*old(regs), old(mem)@, rr), *final(regs), final(mem)@, ticks),
        ticks <= 8,
{
    reveal(yields);
    reveal(inc16_spec);
    let w: u16 = regs.read16(rr);
    regs.write16(rr, w.wrapping_add(1));
    2
}

/// `DEC rr`: counts a 16-bit register down; the flags stay.
pub fn dec16(regs: &mut Registers, mem: &mut Memory, rr: Reg16) -> (ticks: u32)
    requires
        old(regs).wf(),
        old(mem).wf(),
    ensures
        final(regs).wf(),
        final(mem).wf(),
        yields(dec16_spec(*old(regs), old(mem)@, rr), *final(regs), final(mem)@, ticks),
        ticks <= 8,
{
    reveal(yields);
    reveal(dec16_spec);
    let w: u16 = regs.read16(rr);
    regs.write16(rr, w.wrapping_sub(1));
    2
}

/// `ADD HL,rr`
pub fn add_hl(regs: &mut Registers, mem: &mut Memory, rr: Reg16) -> (ticks: u32)
    requires
        old(regs).wf(),
        old(mem).wf(),
    ensures
        final(regs).wf(),
        final(mem).wf(),
        yields(add_hl_spec(*old(regs), old(mem)@, rr), *final(regs), final(mem)@, ticks),
        ticks <= 8,
{
    reveal(yields);
    reveal(add_hl_spec);
    let (w, fl) = add16(regs.hl(), regs.read16(rr), regs.get_flags());
    regs.set_hl(w);
    regs.set_flags(fl);
    2
}

/// `ADD SP,n`: adds the signed byte after the opcode to the stack pointer.
pub fn add_sp(regs: &mut Registers, mem: &mut Memory) -> (ticks: u32)
    requires
        old(regs).wf(),
        old(mem).wf(),
    ensures
        final(regs).wf(),
        final(mem).wf(),
        yields(add_sp_spec(*old(regs), old(mem)@), *final(regs), final(mem)@, ticks),
        ticks <= 8,
{
    reveal(yields);
    reveal(add_sp_spec);
    let n: u8 = mem.read_byte(regs.adv());
    let (w, fl) = add_signed(regs.sp, n);
    regs.sp = w;
    regs.set_flags(fl);
    4
}

/// A rotation of the accumulator.
pub fn rotate_a(regs: &mut Registers, mem: &mut Memory, op: RotOp) -> (ticks: u32)
    requires
        old(regs).wf(),
        old(mem).wf(),
    ensures
        final(regs).wf(),
        final(mem).wf(),
        yields(rotate_a_spec(*old(regs), old(mem)@, op), *final(regs), final(mem)@, ticks),
        ticks <= 8,
{
    reveal(yields);
    reveal(rotate_a_spec);
    let (v, fl) = rot(op, regs.a, regs.get_flags());
    regs.a = v;
    regs.set_flags(fl);
    1
}

/// `DAA`: adjusts the accumulator to two decimal digits.
pub fn daa_a(regs: &mut Registers, mem: &mut Memory) -> (ticks: u32)
    requires
        old(regs).wf(),
        old(mem).wf(),
    ensures
        final(regs).wf(),
        final(mem).wf(),
        yields(daa_a_spec(*old(regs), old(mem)@), *final(regs), final(mem)@, ticks),
        ticks <= 8,
{
    reveal(yields);
    reveal(daa_a_spec);
    let (v, fl) = daa(regs.a, regs.get_flags());
    regs.a = v;
    regs.set_flags(fl);
    1
}

/// `CPL`: flips every bit of the accumulator.
pub fn cpl_a(regs: &mut Registers, mem: &mut Memory) -> (ticks: u32)
    requires
        old(regs).wf(),
        old(mem).wf(),
    ensures
        final(regs).wf(),
        final(mem).wf(),
        yields(cpl_a_spec(*old(regs), old(mem)@), *final(regs), final(mem)@, ticks),
        ticks <= 8,
{
    reveal(yields);
    reveal(cpl_a_spec);
    let (v, fl) = cpl(regs.a, regs.get_flags());
    regs.a = v;
    regs.set_flags(fl);
    1
}

/// `SCF`: sets the carry.
pub fn scf(regs: &mut Registers, mem: &mut Memory) -> (ticks: u32)
    requires
        old(regs).wf(),
        old(mem).wf(),
    ensures
        final(regs).wf(),
        final(mem).wf(),
        yields(scf_spec_of(*old(regs), old(mem)@), *final(regs), final(mem)@, ticks),
        ticks <= 8,
{
    reveal(yields);
    reveal(scf_spec_of);
    let fl = regs.get_flags();
    regs.set_flags(Flags { z: fl.z, n: false, h: false, c: true });
    1
}

/// `CCF`: flips the carry.
pub fn ccf(regs: &mut Registers, mem: &mut Memory) -> (ticks: u32)
    requires
        old(regs).wf(),
        old(mem).wf(),
    ensures
        final(regs).wf(),
        final(mem).wf(),
        yields(ccf_spec_of(*old(regs), old(mem)@), *final(regs), final(mem)@, ticks),
        ticks <= 8,
{
    reveal(yields);
    reveal(ccf_spec_of);
    let fl = regs.get_flags();
    regs.set_flags(Flags { z: fl.z, n: false, h: false, c: !fl.c });
    1
}

/// `JP nn`: jumps to the address after the opcode.
pub fn jp(regs: &mut Registers, mem: &mut Memory) -> (ticks: u32)
    requires
        old(regs).wf(),
        old(mem).wf(),
    ensures
        final(regs).wf(),
        final(mem).wf(),
        yields(jp_spec(*old(regs), old(mem)@), *final(regs), final(mem)@, ticks),
        ticks <= 8,
{
    reveal(yields);
    reveal(jp_spec);
    regs.pc = mem.read_word(regs.pc);
    3
}

/// `JP cc,nn`: jumps if the condition holds, else goes on behind the address.
pub fn jp_if(regs: &mut Registers, mem: &mut Memory, cc: Cond) -> (ticks: u32)
    requires
        old(regs).wf(),
        old(mem).wf(),
    ensures
        final(regs).wf(),
        final(mem).wf(),
        yields(jp_if_spec(*old(regs), old(mem)@, cc), *final(regs), final(mem)@, ticks),
        ticks <= 8,
{
    reveal(yields);
    reveal(jp_if_spec);
    if test(cc, regs.get_flags()) {
        jp(regs, mem)
    } else {
        regs.pc = regs.pc.wrapping_add(2);
        3
    }
}

/// `JP (HL)`: jumps to the address in `HL`.
pub fn jp_hl(regs: &mut Registers, mem: &mut Memory) -> (ticks: u32)
    requires
        old(regs).wf(),
        old(mem).wf(),
    ensures
        final(regs).wf(),
        final(mem).wf(),
        yields(jp_hl_spec(*old(regs), old(mem)@), *final(regs), final(mem)@, ticks),
        ticks <= 8,
{
    reveal(yields);
    reveal(jp_hl_spec);
    regs.pc = regs.hl();
    1
}

/// `JR n`: jumps by the signed byte after the opcode, counted from behind it.
pub fn jr(regs: &mut Registers, mem: &mut Memory) -> (ticks: u32)
    requires
        old(regs).wf(),
        old(mem).wf(),
    ensures
        final(regs).wf(),
        final(mem).wf(),
        yields(jr_spec(*old(regs), old(mem)@), *final(regs), final(mem)@, ticks),
        ticks <= 8,
{
    reveal(yields);
    reveal(jr_spec);
    let n: u8 = mem.read_byte(regs.adv());
    regs.pc = if n < 128 {
        regs.pc.wrapping_add(n as u16)
    } else {
        regs.pc.wrapping_sub(256 - n as u16)
    };
    3
}

/// `JR cc,n`: jumps if the condition holds, else goes on behind the offset.
pub fn jr_if(regs: &mut Registers, mem: &mut Memory, cc: Cond) -> (ticks: u32)
    requires
        old(regs).wf(),
        old(mem).wf(),
    ensures
        final(regs).wf(),
        final(mem).wf(),
        yields(jr_if_spec(*old(regs), old(mem)@, cc), *final(regs), final(mem)@, ticks),
        ticks <= 8,
{
    reveal(yields);
    reveal(jr_if_spec);
    if test(cc, regs.get_flags()) {
        jr(regs, mem)
    } else {
        regs.adv();
        2
    }
}

/// `CALL nn`: pushes the address behind the instruction and jumps to the
/// address after the opcode, read after the push.
pub fn call(regs: &mut Registers, mem: &mut Memory) -> (ticks: u32)
    requires
        old(regs).wf(),
        old(mem).wf(),
    ensures
        final(regs).wf(),
        final(mem).wf(),
        yields(call_spec(*old(regs), old(mem)@), *final(regs), final(mem)@, ticks),
        ticks <= 8,
{
    reveal(yields);
    reveal(call_spec);
    regs.sp = regs.sp.wrapping_sub(2);
    mem.write_word(regs.sp, regs.pc.wrapping_add(2));
    regs.pc = mem.read_word(regs.pc);
    6
}

/// `CALL cc,nn`: calls if the condition holds, else goes on behind the address.
pub fn call_if(regs: &mut Registers, mem: &mut Memory, cc: Cond) -> (ticks: u32)
    requires
        old(regs).wf(),
        old(mem).wf(),
    ensures
        final(regs).wf(),
        final(mem).wf(),
        yields(call_if_spec(*old(regs), old(mem)@, cc), *final(regs), final(mem)@, ticks),
        ticks <= 8,
{
    reveal(yields);
    reveal(call_if_spec);
    if test(cc, regs.get_flags()) {
        call(regs, mem)
    } else {
        regs.pc = regs.pc.wrapping_add(2);
        3
    }
}

/// `RET`: pops the program counter.
pub fn ret(regs: &mut Registers, mem: &mut Memory) -> (ticks: u32)
    requires
        old(regs).wf(),
        old(mem).wf(),
    ensures
        final(regs).wf(),
        final(mem).wf(),
        yields(ret_spec(*old(regs), old(mem)@), *final(regs), final(mem)@, ticks),
        ticks <= 8,
{
    reveal(yields);
    reveal(ret_spec);
    regs.ret(mem);
    4
}

/// `RET cc`: returns if the condition holds.
pub fn ret_if(regs: &mut Registers, mem: &mut Memory, cc: Cond) -> (ticks: u32)
    requires
        old(regs).wf(),
        old(mem).wf(),
    ensures
        final(regs).wf(),
        final(mem).wf(),
        yields(ret_if_spec(*old(regs), old(mem)@, cc), *final(regs), final(mem)@, ticks),
        ticks <= 8,
{
    reveal(yields);
    reveal(ret_if_spec);
    if test(cc, regs.get_flags()) {
        regs.ret(mem);
        5
    } else {
        2
    }
}

/// `RETI`: returns and schedules the enabling of interrupts.
pub fn reti(regs: &mut Registers, mem: &mut Memory) -> (ticks: u32)
    requires
        old(regs).wf(),
        old(mem).wf(),
    ensures
        final(regs).wf(),
        final(mem).wf(),
        yields(reti_spec(*old(regs), old(mem)@), *final(regs), final(mem)@, ticks),
        ticks <= 8,
{
    reveal(yields);
    reveal(reti_spec);
    regs.ret(mem);
    regs.ei(mem);
    4
}

/// `RST n`: calls a fixed address.
pub fn rst(regs: &mut Registers, mem: &mut Memory, target: u8) -> (ticks: u32)
    requires
        old(regs).wf(),
        old(mem).wf(),
    ensures
        final(regs).wf(),
        final(mem).wf(),
        yields(rst_spec(*old(regs), old(mem)@, target), *final(regs), final(mem)@, ticks),
        ticks <= 8,
{
    reveal(yields);
    reveal(rst_spec);
    regs.rst(target as u16, mem);
    8
}

/// A rotation or shift of an 8-bit operand.
pub fn rotate(regs: &mut Registers, mem: &mut Memory, op: RotOp, r: Reg8) -> (ticks: u32)
    requires
        old(regs).wf(),
        old(mem).wf(),
    ensures
        final(regs).wf(),
        final(mem).wf(),
        yields(rotate_spec(*old(regs), old(mem)@, op, r), *final(regs), final(mem)@, ticks),
        ticks <= 8,
{
    reveal(yields);
    reveal(rotate_spec);
    let n: u8 = read_operand(regs, mem, r);
    let (v, fl) = rot(op, n, regs.get_flags());
    write_operand(regs, mem, r, v);
    regs.set_flags(fl);
    2 + 2 * access_ticks(r)
}

/// `BIT b,r`: tests one bit of an 8-bit operand.
pub fn test_bit(regs: &mut Registers, mem: &mut Memory, b: u8, r: Reg8) -> (ticks: u32)
    requires
        old(regs).wf(),
        old(mem).wf(),
        b < 8,
    ensures
        final(regs).wf(),
        final(mem).wf(),
        yields(test_bit_spec(*old(regs), old(mem)@, b, r), *final(regs), final(mem)@, ticks),
        ticks <= 8,
{
    reveal(yields);
    reveal(test_bit_spec);
    let n: u8 = read_operand(regs, mem, r);
    let fl = bit(n, b, regs.get_flags());
    regs.set_flags(fl);
    2 + access_ticks(r)
}

/// `RES b,r`: clears one bit of an 8-bit operand.
pub fn reset_bit(regs: &mut Registers, mem: &mut Memory, b: u8, r: Reg8) -> (ticks: u32)
    requires
        old(regs).wf(),
        old(mem).wf(),
        b < 8,
    ensures
        final(regs).wf(),
        final(mem).wf(),
        yields(reset_bit_spec(*old(regs), old(mem)@, b, r), *final(regs), final(mem)@, ticks),
        ticks <= 8,
{
    reveal(yields);
    reveal(reset_bit_spec);
    let n: u8 = read_operand(regs, mem, r);
    write_operand(regs, mem, r, clear_bit(n, b));
    2 + 2 * access_ticks(r)
}

/// `SET b,r`: sets one bit of an 8-bit operand.
pub fn set_bit_of(regs: &mut Registers, mem: &mut Memory, b: u8, r: Reg8) -> (ticks: u32)
    requires
        old(regs).wf(),
        old(mem).wf(),
        b < 8,
    ensures
        final(regs).wf(),
        final(mem).wf(),
        yields(set_bit_of_spec(*old(regs), old(mem)@, b, r), *final(regs), final(mem)@, ticks),
        ticks <= 8,
{
    reveal(yields);
    reveal(set_bit_of_spec);
    let n: u8 = read_operand(regs, mem, r);
    write_operand(regs, mem, r, set_bit(n, b));
    2 + 2 * access_ticks(r)
}

/// What an instruction of the table behind the prefix does.
pub open spec fn step_cb_spec(i: CbInstr, regs: Registers, mem: MemoryView) -> Outcome {
    match i {
        CbInstr::Rot(op, r) => rotate_spec(regs, mem, op, r),
        CbInstr::TestBit(b, r) => test_bit_spec(regs, mem, b, r),
        CbInstr::ResBit(b, r) => reset_bit_spec(regs, mem, b, r),
        CbInstr::SetBit(b, r) => set_bit_of_spec(regs, mem, b, r),
    }
}

/// What the instruction behind the prefix does that the byte `op` stands for.
pub open spec fn exec_cb_spec(op: u8, regs: Registers, mem: MemoryView) -> Outcome {
    step_cb_spec(decode_cb_spec(op), regs, mem)
}

/// What an instruction does that moves data.
pub open spec fn step_load_spec(i: Instr, regs: Registers, mem: MemoryView) -> Outcome {
    match i {
        Instr::Ld(dst, src) => ld_spec(regs, mem, dst, src),
        Instr::LdImm(dst) => ld_imm_spec(regs, mem, dst),
        Instr::LdImm16(rr) => ld_imm16_spec(regs, mem, rr),
        Instr::StoreA(ind) => store_a_spec(regs, mem, ind),
        Instr::LoadA(ind) => load_a_spec(regs, mem, ind),
        Instr::StoreSp => store_sp_spec(regs, mem),
        Instr::LdSpHl => ld_sp_hl_spec(regs, mem),
        Instr::LdHlSp => ld_hl_sp_spec(regs, mem),
        Instr::StoreHigh => store_high_spec(regs, mem),
        Instr::LoadHigh => load_high_spec(regs, mem),
        Instr::StoreHighC => store_high_c_spec(regs, mem),
        Instr::LoadHighC => load_high_c_spec(regs, mem),
        Instr::StoreAbs => store_abs_spec(regs, mem),
        Instr::LoadAbs => load_abs_spec(regs, mem),
        Instr::Push(rr) => push_spec(regs, mem, rr),
        _ => pop_spec(regs, mem, i->Pop_0),
    }
}

/// What an instruction does that computes with an operand.
pub open spec fn step_compute_spec(i: Instr, regs: Registers, mem: MemoryView) -> Outcome {
    match i {
        Instr::Alu(op, src) => alu_a_spec(regs, mem, op, src),
        Instr::AluImm(op) => alu_imm_spec(regs, mem, op),
        Instr::Inc(r) => inc8_spec(regs, mem, r),
        Instr::Dec(r) => dec8_spec(regs, mem, r),
        Instr::Inc16(rr) => inc16_spec(regs, mem, rr),
        Instr::Dec16(rr) => dec16_spec(regs, mem, rr),
        Instr::AddHl(rr) => add_hl_spec(regs, mem, rr),
        _ => add_sp_spec(regs, mem),
    }
}

/// What an instruction does that works on the accumulator or the flags alone.
pub open spec fn step_adjust_spec(i: Instr, regs: Registers, mem: MemoryView) -> Outcome {
    match i {
        Instr::Rlca => rotate_a_spec(regs, mem, RotOp::Rlc),
        Instr::Rrca => rotate_a_spec(regs, mem, RotOp::Rrc),
        Instr::Rla => rotate_a_spec(regs, mem, RotOp::Rl),
        Instr::Rra => rotate_a_spec(regs, mem, RotOp::Rr),
        Instr::Daa => daa_a_spec(regs, mem),
        Instr::Cpl => cpl_a_spec(regs, mem),
        Instr::Scf => scf_spec_of(regs, mem),
        _ => ccf_spec_of(regs, mem),
    }
}

/// What an instruction does that steers the program or the processor. The
/// prefix fetches one more byte and carries out the instruction it selects.
pub open spec fn step_control_spec(i: Instr, regs: Registers, mem: MemoryView) -> Outcome {
    match i {
        Instr::Nop => nop_spec(regs, mem),
        Instr::Stop => stop_spec(regs, mem),
        Instr::Halt => halt_spec(regs, mem),
        Instr::Di => di_spec(regs, mem),
        Instr::Ei => ei_spec(regs, mem),
        Instr::Prefix => exec_cb_spec(mem.read_byte(regs.pc), regs.skip(1), mem),
        Instr::Jp => jp_spec(regs, mem),
        Instr::JpIf(cc) => jp_if_spec(regs, mem, cc),
        Instr::JpHl => jp_hl_spec(regs, mem),
        Instr::Jr => jr_spec(regs, mem),
        Instr::JrIf(cc) => jr_if_spec(regs, mem, cc),
        Instr::Call => call_spec(regs, mem),
        Instr::CallIf(cc) => call_if_spec(regs, mem, cc),
        Instr::Ret => ret_spec(regs, mem),
        Instr::RetIf(cc) => ret_if_spec(regs, mem, cc),
        Instr::Reti => reti_spec(regs, mem),
        Instr::Rst(target) => rst_spec(regs, mem, target),
        _ => undefined_spec(regs, mem),
    }
}

/// What an instruction of the primary table does.
pub open spec fn step_spec(i: Instr, regs: Registers, mem: MemoryView) -> Outcome {
    if is_load(i) {
        step_load_spec(i, regs, mem)
    } else if is_compute(i) {
        step_compute_spec(i, regs, mem)
    } else if is_adjust(i) {
        step_adjust_spec(i, regs, mem)
    } else {
        step_control_spec(i, regs, mem)
    }
}

/// What the instruction does that the byte `op` of the primary table
/// stands for, with the program counter behind that byte.
pub open spec fn exec_spec(op: u8, regs: Registers, mem: MemoryView) -> Outcome {
    step_spec(decode_spec(op), regs, mem)
}

/// Carries out an instruction of the table behind the prefix.
pub fn step_cb(i: CbInstr, regs: &mut Registers, mem: &mut Memory) -> (ticks: u32)
    requires
        old(regs).wf(),
        old(mem).wf(),
        i.wf(),
    ensures
        final(regs).wf(),
        final(mem).wf(),
        yields(step_cb_spec(i, *old(regs), old(mem)@), *final(regs), final(mem)@, ticks),
        ticks <= 8,
{
    match i {
        CbInstr::Rot(op, r) => rotate(regs, mem, op, r),
        CbInstr::TestBit(b, r) => test_bit(regs, mem, b, r),
        CbInstr::ResBit(b, r) => reset_bit(regs, mem, b, r),
        CbInstr::SetBit(b, r) => set_bit_of(regs, mem, b, r),
    }
}

/// Carries out the instruction behind the prefix that the byte `op` stands
/// for and returns the machine cycles it took.
pub fn exec_cb(op: u8, regs: &mut Registers, mem: &mut Memory) -> (ticks: u32)
    requires
        old(regs).wf(),
        old(mem).wf(),
    ensures
        final(regs).wf(),
        final(mem).wf(),
        *final(regs) == exec_cb_spec(op, *old(regs), old(mem)@).regs,
        final(mem)@ == exec_cb_spec(op, *old(regs), old(mem)@).mem,
        ticks == exec_cb_spec(op, *old(regs), old(mem)@).ticks,
        ticks <= 8,
{
    reveal(yields);
    step_cb(decode_cb(op), regs, mem)
}

/// Carries out an instruction that moves data.
fn step_load(i: Instr, regs: &mut Registers, mem: &mut Memory) -> (ticks: u32)
    requires
        old(regs).wf(),
        old(mem).wf(),
        is_load(i),
    ensures
        final(regs).wf(),
        final(mem).wf(),
        yields(step_load_spec(i, *old(regs), old(mem)@), *final(regs), final(mem)@, ticks),
        ticks <= 8,
{
    match i {
        Instr::Ld(dst, src) => ld(regs, mem, dst, src),
        Instr::LdImm(dst) => ld_imm(regs, mem, dst),
        Instr::LdImm16(rr) => ld_imm16(regs, mem, rr),
        Instr::StoreA(ind) => store_a(regs, mem, ind),
        Instr::LoadA(ind) => load_a(regs, mem, ind),
        Instr::StoreSp => store_sp(regs, mem),
        Instr::LdSpHl => ld_sp_hl(regs, mem),
        Instr::LdHlSp => ld_hl_sp(regs, mem),
        Instr::StoreHigh => store_high(regs, mem),
        Instr::LoadHigh => load_high(regs, mem),
        Instr::StoreHighC => store_high_c(regs, mem),
        Instr::LoadHighC => load_high_c(regs, mem),
        Instr::StoreAbs => store_abs(regs, mem),
        Instr::LoadAbs => load_abs(regs, mem),
        Instr::Push(rr) => push(regs, mem, rr),
        Instr::Pop(rr) => pop(regs, mem, rr),
        _ => 0,
    }
}

/// Carries out an instruction that computes with an operand.
fn step_compute(i: Instr, regs: &mut Registers, mem: &mut Memory) -> (ticks: u32)
    requires
        old(regs).wf(),
        old(mem).wf(),
        is_compute(i),
    ensures
        final(regs).wf(),
        final(mem).wf(),
        yields(step_compute_spec(i, *old(regs), old(mem)@), *final(regs), final(mem)@, ticks),
        ticks <= 8,
{
    match i {
        Instr::Alu(op, src) => alu_a(regs, mem, op, src),
        Instr::AluImm(op) => alu_imm(regs, mem, op),
        Instr::Inc(r) => inc8(regs, mem, r),
        Instr::Dec(r) => dec8(regs, mem, r),
        Instr::Inc16(rr) => inc16(regs, mem, rr),
        Instr::Dec16(rr) => dec16(regs, mem, rr),
        Instr::AddHl(rr) => add_hl(regs, mem, rr),
        _ => add_sp(regs, mem),
    }
}

/// Carries out an instruction that works on the accumulator or the flags
/// alone.
fn step_adjust(i: Instr, regs: &mut Registers, mem: &mut Memory) -> (ticks: u32)
    requires
        old(regs).wf(),
        old(mem).wf(),
        is_adjust(i),
    ensures
        final(regs).wf(),
        final(mem).wf(),
        yields(step_adjust_spec(i, *old(regs), old(mem)@), *final(regs), final(mem)@, ticks),
        ticks <= 8,
{
    match i {
        Instr::Rlca => rotate_a(regs, mem, RotOp::Rlc),
        Instr::Rrca => rotate_a(regs, mem, RotOp::Rrc),
        Instr::Rla => rotate_a(regs, mem, RotOp::Rl),
        Instr::Rra => rotate_a(regs, mem, RotOp::Rr),
        Instr::Daa => daa_a(regs, mem),
        Instr::Cpl => cpl_a(regs, mem),
        Instr::Scf => scf(regs, mem),
        _ => ccf(regs, mem),
    }
}

/// Carries out an instruction that steers the program or the processor.
fn step_control(i: Instr, regs: &mut Registers, mem: &mut Memory) -> (ticks: u32)
    requires
        old(regs).wf(),
        old(mem).wf(),
        !is_load(i),
        !is_compute(i),
        !is_adjust(i),
    ensures
        final(regs).wf(),
        final(mem).wf(),
        yields(step_control_spec(i, *old(regs), old(mem)@), *final(regs), final(mem)@, ticks),
        ticks <= 8,
{
    match i {
        Instr::Nop => nop(regs, mem),
        Instr::Stop => stop(regs, mem),
        Instr::Halt => halt(regs, mem),
        Instr::Di => di(regs, mem),
        Instr::Ei => ei(regs, mem),
        Instr::Prefix => {
            proof {
                reveal(yields);
            }
            let op: u8 = mem.read_byte(regs.adv());
            exec_cb(op, regs, mem)
        },
        Instr::Jp => jp(regs, mem),
        Instr::JpIf(cc) => jp_if(regs, mem, cc),
        Instr::JpHl => jp_hl(regs, mem),
        Instr::Jr => jr(regs, mem),
        Instr::JrIf(cc) => jr_if(regs, mem, cc),
        Instr::Call => call(regs, mem),
        Instr::CallIf(cc) => call_if(regs, mem, cc),
        Instr::Ret => ret(regs, mem),
        Instr::RetIf(cc) => ret_if(regs, mem, cc),
        Instr::Reti => reti(regs, mem),
        Instr::Rst(target) => rst(regs, mem, target),
        _ => undefined(regs, mem),
    }
}

/// Whether an instruction moves data between registers, memory and stack.
pub open spec fn is_load(i: Instr) -> bool {
    match i {
        Instr::Ld(_, _) | Instr::LdImm(_) | Instr::LdImm16(_) | Instr::StoreA(_) | Instr::LoadA(_)
        | Instr::StoreSp | Instr::LdSpHl | Instr::LdHlSp | Instr::StoreHigh | Instr::LoadHigh
        | Instr::StoreHighC | Instr::LoadHighC | Instr::StoreAbs | Instr::LoadAbs | Instr::Push(_)
        | Instr::Pop(_) => true,
        _ => false,
    }
}

/// Whether an instruction computes with an operand: arithmetic, logic,
/// counting.
pub open spec fn is_compute(i: Instr) -> bool {
    match i {
        Instr::Alu(_, _) | Instr::AluImm(_) | Instr::Inc(_) | Instr::Dec(_) | Instr::Inc16(_)
        | Instr::Dec16(_) | Instr::AddHl(_) | Instr::AddSp => true,
        _ => false,
    }
}

/// Whether an instruction works on the accumulator or the flags alone.
pub open spec fn is_adjust(i: Instr) -> bool {
    match i {
        Instr::Rlca | Instr::Rrca | Instr::Rla | Instr::Rra | Instr::Daa | Instr::Cpl | Instr::Scf
        | Instr::Ccf => true,
        _ => false,
    }
}

/// The kind of an instruction: 0 if it moves data, 1 if it computes with
/// an operand, 2 if it works on the accumulator or the flags alone, 3 if it
/// steers the program or the processor.
pub fn kind(i: Instr) -> (k: u8)
    ensures
        k == 0 <==> is_load(i),
        k == 1 <==> is_compute(i),
        k == 2 <==> is_adjust(i),
        k <= 3,
{
    match i {
        Instr::Ld(_, _) | Instr::LdImm(_) | Instr::LdImm16(_) | Instr::StoreA(_) | Instr::LoadA(_)
        | Instr::StoreSp | Instr::LdSpHl | Instr::LdHlSp | Instr::StoreHigh | Instr::LoadHigh
        | Instr::StoreHighC | Instr::LoadHighC | Instr::StoreAbs | Instr::LoadAbs | Instr::Push(_)
        | Instr::Pop(_) => 0,
        Instr::Alu(_, _) | Instr::AluImm(_) | Instr::Inc(_) | Instr::Dec(_) | Instr::Inc16(_)
        | Instr::Dec16(_) | Instr::AddHl(_) | Instr::AddSp => 1,
        Instr::Rlca | Instr::Rrca | Instr::Rla | Instr::Rra | Instr::Daa | Instr::Cpl | Instr::Scf
        | Instr::Ccf => 2,
        _ => 3,
    }
}

/// Carries out an instruction of the primary table.
pub fn step(i: Instr, regs: &mut Registers, mem: &mut Memory) -> (ticks: u32)
    requires
        old(regs).wf(),
        old(mem).wf(),
    ensures
        final(regs).wf(),
        final(mem).wf(),
        yields(step_spec(i, *old(regs), old(mem)@), *final(regs), final(mem)@, ticks),
        ticks <= 8,
{
    let k: u8 = kind(i);
    if k == 0 {
        step_load(i, regs, mem)
    } else if k == 1 {
        step_compute(i, regs, mem)
    } else if k == 2 {
        step_adjust(i, regs, mem)
    } else {
        step_control(i, regs, mem)
    }
}

/// Carries out the instruction that the byte `op` stands for, with the
/// program counter behind that byte, and returns the machine cycles it took.
pub fn exec(op: u8, regs: &mut Registers, mem: &mut Memory) -> (ticks: u32)
    requires
        old(regs).wf(),
        old(mem).wf(),
    ensures
        final(regs).wf(),
        final(mem).wf(),
        *final(regs) == exec_spec(op, *old(regs), old(mem)@).regs,
        final(mem)@ == exec_spec(op, *old(regs), old(mem)@).mem,
        ticks == exec_spec(op, *old(regs), old(mem)@).ticks,
        ticks <= 8,
{
    reveal(yields);
    step(decode(op), regs, mem)
}

/// An operation on the accumulator puts its result there, sets the flags
/// it computes and leaves the bus and every other operand alone.
pub proof fn lemma_alu_a(regs: Registers, mem: MemoryView, op: AluOp, r: Reg8)
    ensures
        alu_a_spec(regs, mem, op, r).regs.a == alu_spec(
            op,
            regs.a,
            operand(regs, mem, r),
            regs.flags(),
        ).0,
        alu_a_spec(regs, mem, op, r).regs.flags() == alu_spec(
            op,
            regs.a,
            operand(regs, mem, r),
            regs.flags(),
        ).1,
        alu_a_spec(regs, mem, op, r).mem == mem,
        r != Reg8::A ==> operand(alu_a_spec(regs, mem, op, r).regs, mem, r) == operand(regs, mem, r),
{
    reveal(alu_a_spec);
    crate::cpu::registers::law_flags_round_trip(
        alu_spec(op, regs.a, operand(regs, mem, r), regs.flags()).1,
        0,
    );
}

/// An addition to the accumulator followed by the subtraction of the same
/// operand brings the accumulator back, for every operand but the
/// accumulator itself; the subtraction borrows exactly where the addition
/// carried, so it leaves carry and half-carry clear if and only if the
/// addition did.
pub proof fn law_add_then_sub_restores(regs: Registers, mem: MemoryView, r: Reg8)
    requires
        r != Reg8::A,
    ensures
        ({
            let added = alu_a_spec(regs, mem, AluOp::Add, r);
            let back = alu_a_spec(added.regs, added.mem, AluOp::Sub, r);
            &&& back.regs.a == regs.a
            &&& back.mem == mem
            &&& back.regs.flags().c == (regs.a + operand(regs, mem, r) > 255)
            &&& back.regs.flags().h == (regs.a % 16 + operand(regs, mem, r) % 16 > 15)
        }),
        step_spec(Instr::Alu(AluOp::Add, r), regs, mem) == alu_a_spec(regs, mem, AluOp::Add, r),
        step_spec(Instr::Alu(AluOp::Sub, r), regs, mem) == alu_a_spec(regs, mem, AluOp::Sub, r),
        decode_spec(0x80) == Instr::Alu(AluOp::Add, Reg8::B),
        decode_spec(0x90) == Instr::Alu(AluOp::Sub, Reg8::B),
{
    let added = alu_a_spec(regs, mem, AluOp::Add, r);
    lemma_alu_a(regs, mem, AluOp::Add, r);
    lemma_alu_a(added.regs, mem, AluOp::Sub, r);
    crate::cpu::alu::law_add_then_sub(regs.a, operand(regs, mem, r));
}

/// Counting a 16-bit register up or down leaves every flag alone, and
/// counting an 8-bit operand leaves the carry alone.
pub proof fn law_counting_keeps_flags(regs: Registers, mem: MemoryView, rr: Reg16, r: Reg8)
    requires
        regs.wf(),
    ensures
        inc16_spec(regs, mem, rr).regs.f == regs.f,
        dec16_spec(regs, mem, rr).regs.f == regs.f,
        inc8_spec(regs, mem, r).regs.flags().c == regs.flags().c,
        dec8_spec(regs, mem, r).regs.flags().c == regs.flags().c,
{
    reveal(inc16_spec);
    reveal(dec16_spec);
    reveal(inc8_spec);
    reveal(dec8_spec);
    crate::cpu::registers::law_flags_round_trip(
        inc_spec(operand(regs, mem, r), regs.flags()).1,
        0,
    );
    crate::cpu::registers::law_flags_round_trip(
        dec_spec(operand(regs, mem, r), regs.flags()).1,
        0,
    );
}

/// The exclusive or of the accumulator with itself, opcode `0xAF`, leaves
/// zero in the accumulator, sets the zero flag and clears all others.
pub proof fn law_xor_a_clears(regs: Registers, mem: MemoryView)
    ensures
        decode_spec(0xAF) == Instr::Alu(AluOp::Xor, Reg8::A),
        exec_spec(0xAF, regs, mem).regs.a == 0,
        exec_spec(0xAF, regs, mem).regs.f == 0x80,
        exec_spec(0xAF, regs, mem).regs.flags() == (Flags { z: true, n: false, h: false, c: false }),
        exec_spec(0xAF, regs, mem).mem == mem,
        exec_spec(0xAF, regs, mem).ticks == 1,
{
    reveal(alu_a_spec);
    crate::cpu::alu::law_xor_self(regs.a);
}

} // verus!
