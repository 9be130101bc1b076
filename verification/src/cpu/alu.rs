//! The arithmetic unit: what each operation makes of its operands and
//! which flags it leaves, stated in plain arithmetic.

use vstd::prelude::*;
use crate::bits::{bit_of, test_bit};
use crate::cpu::registers::{wrap16, wrap8, Flags};

verus! {

/// The eight operations on the accumulator, in the order in which the
/// opcodes encode them.
#[derive(Debug, Clone, Copy, PartialEq, Eq, Structural)]
pub enum AluOp {
    Add,
    Adc,
    Sub,
    Sbc,
    And,
    Xor,
    Or,
    Cp,
}

/// The eight rotations and shifts, in the order in which the prefixed
/// opcodes encode them.
#[derive(Debug, Clone, Copy, PartialEq, Eq, Structural)]
pub enum RotOp {
    Rlc,
    Rrc,
    Rl,
    Rr,
    Sla,
    Sra,
    Swap,
    Srl,
}

/// 1 for a set carry, else 0.
pub open spec fn carry_in(c: bool) -> int {
    if c {
        1
    } else {
        0
    }
}

/// `a + b + c`: the sum modulo 256, a half-carry out of bit 3 and a carry
/// out of bit 7.
pub open spec fn add_spec(a: u8, b: u8, c: bool) -> (u8, Flags) {
    let r = wrap8(a + b + carry_in(c));
    (r, Flags { z: r == 0, n: false, h: a % 16 + b % 16 + carry_in(c) > 15, c: a + b + carry_in(c) > 255 })
}

/// `a - b - c`: the difference modulo 256, a half-carry where bit 4 is
/// borrowed from and a carry where the whole difference is negative.
pub open spec fn sub_spec(a: u8, b: u8, c: bool) -> (u8, Flags) {
    let r = wrap8(a - b - carry_in(c));
    (r, Flags { z: r == 0, n: true, h: a % 16 < b % 16 + carry_in(c), c: a < b + carry_in(c) })
}

/// Bitwise and: half-carry set, carry clear.
pub open spec fn and_spec(a: u8, b: u8) -> (u8, Flags) {
    (a & b, Flags { z: a & b == 0, n: false, h: true, c: false })
}

/// Bitwise or: half-carry and carry clear.
pub open spec fn or_spec(a: u8, b: u8) -> (u8, Flags) {
    (a | b, Flags { z: a | b == 0, n: false, h: false, c: false })
}

/// Bitwise exclusive or: half-carry and carry clear.
pub open spec fn xor_spec(a: u8, b: u8) -> (u8, Flags) {
    (a ^ b, Flags { z: a ^ b == 0, n: false, h: false, c: false })
}

/// What an operation on the accumulator `a` with the operand `b` leaves in
/// the accumulator, and the flags. A comparison subtracts and keeps `a`.
pub open spec fn alu_spec(op: AluOp, a: u8, b: u8, fl: Flags) -> (u8, Flags) {
    match op {
        AluOp::Add => add_spec(a, b, false),
        AluOp::Adc => add_spec(a, b, fl.c),
        AluOp::Sub => sub_spec(a, b, false),
        AluOp::Sbc => sub_spec(a, b, fl.c),
        AluOp::And => and_spec(a, b),
        AluOp::Xor => xor_spec(a, b),
        AluOp::Or => or_spec(a, b),
        AluOp::Cp => (a, sub_spec(a, b, false).1),
    }
}

/// `v + 1` modulo 256; the carry stays.
pub open spec fn inc_spec(v: u8, fl: Flags) -> (u8, Flags) {
    let r = wrap8(v + 1);
    (r, Flags { z: r == 0, n: false, h: r % 16 == 0, c: fl.c })
}

/// `v - 1` modulo 256; the carry stays.
pub open spec fn dec_spec(v: u8, fl: Flags) -> (u8, Flags) {
    let r = wrap8(v - 1);
    (r, Flags { z: r == 0, n: true, h: r % 16 == 15, c: fl.c })
}

/// `a + b` modulo 65536, with a half-carry out of bit 11 and a carry out
/// of bit 15; the zero flag stays.
pub open spec fn add16_spec(a: u16, b: u16, fl: Flags) -> (u16, Flags) {
    (wrap16(a + b), Flags { z: fl.z, n: false, h: a % 0x1000 + b % 0x1000 > 0xFFF, c: a + b > 0xFFFF })
}

/// The value of a byte read as a signed number.
pub open spec fn signed(n: u8) -> int {
    if n < 128 {
        n as int
    } else {
        n - 256
    }
}

/// `sp` plus the signed byte `n` modulo 65536; half-carry and carry are
/// those of adding `n` to the low byte of `sp`.
pub open spec fn add_signed_spec(sp: u16, n: u8) -> (u16, Flags) {
    (
        wrap16(sp + signed(n)),
        Flags { z: false, n: false, h: sp % 16 + n % 16 > 15, c: sp % 256 + n > 255 },
    )
}

/// The correction that brings the accumulator back to two decimal digits
/// after an addition or subtraction of such numbers: 6 for the low digit
/// and `0x60` for the high digit, each where the last operation carried
/// there or, after an addition, the digit is above 9.
pub open spec fn daa_adjust(a: u8, fl: Flags) -> u8 {
    let low: u8 = if fl.h || (!fl.n && a % 16 > 9) {
        0x06
    } else {
        0
    };
    let high: u8 = if fl.c || (!fl.n && a > 0x99) {
        0x60
    } else {
        0
    };
    (low + high) as u8
}

/// Decimal adjustment: the correction is added after an addition and
/// subtracted after a subtraction; the carry tells whether the high digit
/// was corrected, and the subtract flag and the half-carry are cleared.
pub open spec fn daa_spec(a: u8, fl: Flags) -> (u8, Flags) {
    let adj = daa_adjust(a, fl);
    let r = if fl.n {
        wrap8(a - adj)
    } else {
        wrap8(a + adj)
    };
    (r, Flags { z: r == 0, n: false, h: false, c: adj >= 0x60 })
}

/// Complement: every bit of `a` flipped.
pub open spec fn cpl_spec(a: u8, fl: Flags) -> (u8, Flags) {
    ((255 - a) as u8, Flags { z: fl.z, n: true, h: true, c: fl.c })
}

/// The flags after the carry was set.
pub open spec fn scf_spec(fl: Flags) -> Flags {
    Flags { z: fl.z, n: false, h: false, c: true }
}

/// The flags after the carry was flipped.
pub open spec fn ccf_spec(fl: Flags) -> Flags {
    Flags { z: fl.z, n: false, h: false, c: !fl.c }
}

/// What a rotation or shift makes of `v`, and the bit that falls out.
pub open spec fn rot_value(op: RotOp, v: u8, c: bool) -> (u8, bool) {
    match op {
        RotOp::Rlc => (((v * 2) % 256 + v / 128) as u8, v >= 128),
        RotOp::Rrc => ((v / 2 + (v % 2) * 128) as u8, v % 2 == 1),
        RotOp::Rl => (((v * 2) % 256 + carry_in(c)) as u8, v >= 128),
        RotOp::Rr => ((v / 2 + carry_in(c) * 128) as u8, v % 2 == 1),
        RotOp::Sla => (((v * 2) % 256) as u8, v >= 128),
        RotOp::Sra => ((v / 2 + (v / 128) * 128) as u8, v % 2 == 1),
        RotOp::Swap => (((v % 16) * 16 + v / 16) as u8, false),
        RotOp::Srl => (v / 2, v % 2 == 1),
    }
}

/// A rotation or shift with its flags: zero for a zero result, carry for
/// the bit that fell out.
pub open spec fn rot_spec(op: RotOp, v: u8, fl: Flags) -> (u8, Flags) {
    let (r, out) = rot_value(op, v, fl.c);
    (r, Flags { z: r == 0, n: false, h: false, c: out })
}

/// The flags after a test of bit `b` of `v`: zero if the bit is clear.
pub open spec fn bit_spec(v: u8, b: u8, fl: Flags) -> Flags {
    Flags { z: !bit_of(v, b), n: false, h: true, c: fl.c }
}

/// Adds with carry in.
pub fn add8(a: u8, b: u8, c: bool) -> (r: (u8, Flags))
    ensures
        r == add_spec(a, b, c),
{
    let cin: u16 = if c {
        1
    } else {
        0
    };
    let sum: u16 = a as u16 + b as u16 + cin;
    let res: u8 = (sum % 256) as u8;
    (res, Flags { z: res == 0, n: false, h: (a % 16) as u16 + (b % 16) as u16 + cin > 15, c: sum > 255 })
}

/// Subtracts with borrow in.
pub fn sub8(a: u8, b: u8, c: bool) -> (r: (u8, Flags))
    ensures
        r == sub_spec(a, b, c),
{
    let cin: u16 = if c {
        1
    } else {
        0
    };
    let res: u8 = ((a as u16 + 512 - b as u16 - cin) % 256) as u8;
    (
        res,
        Flags {
            z: res == 0,
            n: true,
            h: ((a % 16) as u16) < (b % 16) as u16 + cin,
            c: (a as u16) < b as u16 + cin,
        },
    )
}

/// Carries out an operation on the accumulator.
pub fn alu(op: AluOp, a: u8, b: u8, fl: Flags) -> (r: (u8, Flags))
    ensures
        r == alu_spec(op, a, b, fl),
{
    match op {
        AluOp::Add => add8(a, b, false),
        AluOp::Adc => add8(a, b, fl.c),
        AluOp::Sub => sub8(a, b, false),
        AluOp::Sbc => sub8(a, b, fl.c),
        AluOp::And => (a & b, Flags { z: a & b == 0, n: false, h: true, c: false }),
        AluOp::Xor => (a ^ b, Flags { z: a ^ b == 0, n: false, h: false, c: false }),
        AluOp::Or => (a | b, Flags { z: a | b == 0, n: false, h: false, c: false }),
        AluOp::Cp => {
            let (_, flags) = sub8(a, b, false);
            (a, flags)
        },
    }
}

/// Counts a byte up by one.
pub fn inc(v: u8, fl: Flags) -> (r: (u8, Flags))
    ensures
        r == inc_spec(v, fl),
{
    let res: u8 = v.wrapping_add(1);
    (res, Flags { z: res == 0, n: false, h: res % 16 == 0, c: fl.c })
}

/// Counts a byte down by one.
pub fn dec(v: u8, fl: Flags) -> (r: (u8, Flags))
    ensures
        r == dec_spec(v, fl),
{
    let res: u8 = v.wrapping_sub(1);
    (res, Flags { z: res == 0, n: true, h: res % 16 == 15, c: fl.c })
}

/// Adds two 16-bit values.
pub fn add16(a: u16, b: u16, fl: Flags) -> (r: (u16, Flags))
    ensures
        r == add16_spec(a, b, fl),
{
    let sum: u32 = a as u32 + b as u32;
    (
        (sum % 0x1_0000) as u16,
        Flags { z: fl.z, n: false, h: (a % 0x1000) as u32 + (b % 0x1000) as u32 > 0xFFF, c: sum > 0xFFFF },
    )
}

/// Adds a signed byte to a 16-bit value.
pub fn add_signed(sp: u16, n: u8) -> (r: (u16, Flags))
    ensures
        r == add_signed_spec(sp, n),
{
    let offset: u32 = if n < 128 {
        n as u32 + 0x1_0000
    } else {
        n as u32 + 0x1_0000 - 256
    };
    (
        ((sp as u32 + offset) % 0x1_0000) as u16,
        Flags { z: false, n: false, h: sp % 16 + (n % 16) as u16 > 15, c: sp % 256 + n as u16 > 255 },
    )
}

/// Adjusts the accumulator to two decimal digits.
pub fn daa(a: u8, fl: Flags) -> (r: (u8, Flags))
    ensures
        r == daa_spec(a, fl),
{
    let low: u8 = if fl.h || (!fl.n && a % 16 > 9) {
        0x06
    } else {
        0
    };
    let high: u8 = if fl.c || (!fl.n && a > 0x99) {
        0x60
    } else {
        0
    };
    let adj: u8 = low + high;
    let res: u8 = if fl.n {
        a.wrapping_sub(adj)
    } else {
        a.wrapping_add(adj)
    };
    (res, Flags { z: res == 0, n: false, h: false, c: adj >= 0x60 })
}

/// Flips every bit of the accumulator.
pub fn cpl(a: u8, fl: Flags) -> (r: (u8, Flags))
    ensures
        r == cpl_spec(a, fl),
{
    (255 - a, Flags { z: fl.z, n: true, h: true, c: fl.c })
}

/// Rotates or shifts a byte.
pub fn rot(op: RotOp, v: u8, fl: Flags) -> (r: (u8, Flags))
    ensures
        r == rot_spec(op, v, fl),
{
    let cin: u8 = if fl.c {
        1
    } else {
        0
    };
    let (res, out): (u8, bool) = match op {
        RotOp::Rlc => ((v % 128) * 2 + v / 128, v >= 128),
        RotOp::Rrc => (v / 2 + (v % 2) * 128, v % 2 == 1),
        RotOp::Rl => ((v % 128) * 2 + cin, v >= 128),
        RotOp::Rr => (v / 2 + cin * 128, v % 2 == 1),
        RotOp::Sla => ((v % 128) * 2, v >= 128),
        RotOp::Sra => (v / 2 + (v / 128) * 128, v % 2 == 1),
        RotOp::Swap => ((v % 16) * 16 + v / 16, false),
        RotOp::Srl => (v / 2, v % 2 == 1),
    };
    (res, Flags { z: res == 0, n: false, h: false, c: out })
}

/// Tests bit `b` of a byte.
pub fn bit(v: u8, b: u8, fl: Flags) -> (r: Flags)
    requires
        b < 8,
    ensures
        r == bit_spec(v, b, fl),
{
    Flags { z: !test_bit(v, b), n: false, h: true, c: fl.c }
}

/// Adding and then subtracting the same value gives the first operand
/// back, and the subtraction borrows exactly where the addition carried:
/// its carry and half-carry are clear if and only if the addition left
/// them clear.
pub proof fn law_add_then_sub(a: u8, b: u8)
    ensures
        sub_spec(add_spec(a, b, false).0, b, false).0 == a,
        sub_spec(add_spec(a, b, false).0, b, false).1.c == add_spec(a, b, false).1.c,
        sub_spec(add_spec(a, b, false).0, b, false).1.h == add_spec(a, b, false).1.h,
        a + b <= 255 ==> !sub_spec(add_spec(a, b, false).0, b, false).1.c,
        a % 16 + b % 16 <= 15 ==> !sub_spec(add_spec(a, b, false).0, b, false).1.h,
{
}

/// The exclusive or of a value with itself is zero, with the zero flag set
/// and every other flag clear.
pub proof fn law_xor_self(a: u8)
    ensures
        xor_spec(a, a) == (0u8, Flags { z: true, n: false, h: false, c: false }),
{
    assert(a ^ a == 0) by (bit_vector);
}

} // verus!
