use rustboy::cpu::instructions::{exec, exec_cb, nop};
use rustboy::cpu::registers::Registers;
use rustboy::mem::Memory;
use rustboy::Target;

/// A bus with a program in work RAM at `0xC000` and registers that are
/// about to run it, with a stack below `0xDFFE`.
fn machine(program: &[u8]) -> (Registers, Memory) {
    let mut mem = Memory::new(Target::GameBoy);
    for (i, b) in program.iter().enumerate() {
        mem.write_byte(0xC000 + i as u16, *b);
    }
    let mut regs = Registers::new();
    regs.pc = 0xC000;
    regs.sp = 0xDFFE;
    regs.f = 0;
    (regs, mem)
}

/// Fetches the byte at the program counter and carries it out.
fn run(regs: &mut Registers, mem: &mut Memory) -> u32 {
    let op = mem.read_byte(regs.adv());
    exec(op, regs, mem)
}

#[test]
fn nop_takes_one_cycle_and_changes_nothing() {
    let (mut regs, mut mem) = machine(&[0x00]);
    let before = regs;
    assert_eq!(nop(&mut regs, &mut mem), 1);
    assert_eq!(regs, before);
    assert_eq!(run(&mut regs, &mut mem), 1);
    assert_eq!(regs.pc, 0xC001);
}

#[test]
fn ld_immediate_8() {
    let (mut regs, mut mem) = machine(&[0x06, 0x12, 0x3E, 0x34, 0x36, 0x56]);
    assert_eq!(run(&mut regs, &mut mem), 2);
    assert_eq!(regs.b, 0x12);
    assert_eq!(run(&mut regs, &mut mem), 2);
    assert_eq!(regs.a, 0x34);
    regs.h = 0xC1;
    regs.l = 0x00;
    assert_eq!(run(&mut regs, &mut mem), 3);
    assert_eq!(mem.read_byte(0xC100), 0x56);
    assert_eq!(regs.pc, 0xC006);
}

#[test]
fn ld_immediate_16_is_little_endian() {
    let (mut regs, mut mem) = machine(&[0x01, 0x34, 0x12, 0x31, 0xFE, 0xCF, 0x21, 0xCD, 0xAB]);
    assert_eq!(run(&mut regs, &mut mem), 3);
    assert_eq!((regs.b, regs.c), (0x12, 0x34));
    assert_eq!(regs.bc(), 0x1234);
    assert_eq!(run(&mut regs, &mut mem), 3);
    assert_eq!(regs.sp, 0xCFFE);
    assert_eq!(run(&mut regs, &mut mem), 3);
    assert_eq!(regs.hl(), 0xABCD);
    assert_eq!(regs.pc, 0xC009);
}

#[test]
fn ld_between_registers_and_memory() {
    let (mut regs, mut mem) = machine(&[0x41, 0x70, 0x7E, 0x66]);
    regs.c = 0x77;
    regs.h = 0xC2;
    regs.l = 0x10;
    assert_eq!(run(&mut regs, &mut mem), 1);
    assert_eq!(regs.b, 0x77);
    assert_eq!(run(&mut regs, &mut mem), 2);
    assert_eq!(mem.read_byte(0xC210), 0x77);
    assert_eq!(run(&mut regs, &mut mem), 2);
    assert_eq!(regs.a, 0x77);
    assert_eq!(run(&mut regs, &mut mem), 2);
    assert_eq!(regs.h, 0x77);
}

#[test]
fn add_then_sub_restores_the_accumulator() {
    let (mut regs, mut mem) = machine(&[0x80, 0x90]);
    regs.a = 0x3A;
    regs.b = 0xC6;
    assert_eq!(run(&mut regs, &mut mem), 1);
    assert_eq!(regs.a, 0x00);
    assert_eq!(regs.f, 0xB0);
    assert_eq!(run(&mut regs, &mut mem), 1);
    assert_eq!(regs.a, 0x3A);
    assert_eq!(regs.f, 0x70);
}

#[test]
fn add_then_sub_without_carry_clears_carry_and_half_carry() {
    let (mut regs, mut mem) = machine(&[0x81, 0x91]);
    regs.a = 0x21;
    regs.c = 0x43;
    run(&mut regs, &mut mem);
    assert_eq!(regs.a, 0x64);
    assert_eq!(regs.f, 0x00);
    run(&mut regs, &mut mem);
    assert_eq!(regs.a, 0x21);
    assert_eq!(regs.f, 0x40);
}

#[test]
fn xor_a_clears_the_accumulator() {
    let (mut regs, mut mem) = machine(&[0xAF]);
    regs.a = 0x5C;
    regs.f = 0x70;
    assert_eq!(run(&mut regs, &mut mem), 1);
    assert_eq!(regs.a, 0);
    assert_eq!(regs.f, 0x80);
}

#[test]
fn sbc_uses_its_own_operand() {
    let (mut regs, mut mem) = machine(&[0x99, 0x9A]);
    regs.a = 0x10;
    regs.b = 0xFF;
    regs.c = 0x01;
    regs.d = 0x02;
    regs.f = 0x10;
    run(&mut regs, &mut mem);
    assert_eq!(regs.a, 0x0E);
    assert_eq!(regs.f, 0x60);
    run(&mut regs, &mut mem);
    assert_eq!(regs.a, 0x0C);
    assert_eq!(regs.f, 0x40);
}

#[test]
fn alu_with_memory_and_immediate_operands() {
    let (mut regs, mut mem) = machine(&[0x86, 0xC6, 0x05, 0xFE, 0x0F, 0xE6, 0x0C]);
    mem.write_byte(0xC300, 0x08);
    regs.h = 0xC3;
    regs.l = 0x00;
    regs.a = 0x02;
    assert_eq!(run(&mut regs, &mut mem), 2);
    assert_eq!(regs.a, 0x0A);
    assert_eq!(run(&mut regs, &mut mem), 2);
    assert_eq!(regs.a, 0x0F);
    assert_eq!(run(&mut regs, &mut mem), 2);
    assert_eq!(regs.a, 0x0F);
    assert_eq!(regs.f, 0xC0);
    assert_eq!(run(&mut regs, &mut mem), 2);
    assert_eq!(regs.a, 0x0C);
    assert_eq!(regs.f, 0x20);
}

#[test]
fn inc_and_dec_of_registers_and_memory() {
    let (mut regs, mut mem) = machine(&[0x04, 0x05, 0x34, 0x35, 0x35]);
    regs.b = 0xFF;
    regs.f = 0x10;
    assert_eq!(run(&mut regs, &mut mem), 1);
    assert_eq!(regs.b, 0);
    assert_eq!(regs.f, 0xB0);
    assert_eq!(run(&mut regs, &mut mem), 1);
    assert_eq!(regs.b, 0xFF);
    assert_eq!(regs.f, 0x70);
    mem.write_byte(0xC400, 0x00);
    regs.h = 0xC4;
    regs.l = 0x00;
    assert_eq!(run(&mut regs, &mut mem), 3);
    assert_eq!(mem.read_byte(0xC400), 1);
    assert_eq!(regs.f, 0x10);
    assert_eq!(run(&mut regs, &mut mem), 3);
    assert_eq!(mem.read_byte(0xC400), 0);
    assert_eq!(regs.f, 0xD0);
    assert_eq!(run(&mut regs, &mut mem), 3);
    assert_eq!(mem.read_byte(0xC400), 0xFF);
    assert_eq!(regs.f, 0x70);
}

#[test]
fn sixteen_bit_counting_leaves_the_flags() {
    let (mut regs, mut mem) = machine(&[0x03, 0x0B, 0x0B, 0x33, 0x3B]);
    regs.b = 0x00;
    regs.c = 0xFF;
    regs.f = 0xF0;
    assert_eq!(run(&mut regs, &mut mem), 2);
    assert_eq!(regs.bc(), 0x0100);
    run(&mut regs, &mut mem);
    assert_eq!(regs.bc(), 0x00FF);
    regs.b = 0;
    regs.c = 0;
    run(&mut regs, &mut mem);
    assert_eq!(regs.bc(), 0xFFFF);
    regs.sp = 0xFFFF;
    run(&mut regs, &mut mem);
    assert_eq!(regs.sp, 0x0000);
    run(&mut regs, &mut mem);
    assert_eq!(regs.sp, 0xFFFF);
    assert_eq!(regs.f, 0xF0);
}

#[test]
fn add_hl_keeps_the_zero_flag() {
    let (mut regs, mut mem) = machine(&[0x09, 0x29]);
    regs.h = 0x8A;
    regs.l = 0x23;
    regs.b = 0x06;
    regs.c = 0x05;
    regs.f = 0x80;
    assert_eq!(run(&mut regs, &mut mem), 2);
    assert_eq!(regs.hl(), 0x9028);
    assert_eq!(regs.f, 0xA0);
    run(&mut regs, &mut mem);
    assert_eq!(regs.hl(), 0x2050);
    assert_eq!(regs.f, 0x90);
}

#[test]
fn stack_pointer_arithmetic() {
    let (mut regs, mut mem) = machine(&[0xE8, 0xFF, 0xF8, 0x02, 0xF9]);
    regs.sp = 0x0001;
    assert_eq!(run(&mut regs, &mut mem), 4);
    assert_eq!(regs.sp, 0x0000);
    assert_eq!(regs.f, 0x30);
    regs.sp = 0xFFF8;
    assert_eq!(run(&mut regs, &mut mem), 3);
    assert_eq!(regs.hl(), 0xFFFA);
    assert_eq!(regs.sp, 0xFFF8);
    assert_eq!(regs.f, 0x00);
    assert_eq!(run(&mut regs, &mut mem), 2);
    assert_eq!(regs.sp, 0xFFFA);
}

#[test]
fn push_and_pop() {
    let (mut regs, mut mem) = machine(&[0xC5, 0xD1, 0xF5, 0xE1]);
    regs.b = 0x12;
    regs.c = 0x34;
    assert_eq!(run(&mut regs, &mut mem), 4);
    assert_eq!(regs.sp, 0xDFFC);
    assert_eq!(mem.read_byte(0xDFFD), 0x12);
    assert_eq!(mem.read_byte(0xDFFC), 0x34);
    assert_eq!(run(&mut regs, &mut mem), 3);
    assert_eq!((regs.d, regs.e), (0x12, 0x34));
    assert_eq!(regs.sp, 0xDFFE);
    regs.a = 0x9A;
    regs.f = 0x50;
    run(&mut regs, &mut mem);
    run(&mut regs, &mut mem);
    assert_eq!((regs.h, regs.l), (0x9A, 0x50));
}

#[test]
fn pop_af_drops_the_low_bits_of_the_flags() {
    let (mut regs, mut mem) = machine(&[0xF1]);
    mem.write_byte(0xDFFC, 0xFF);
    mem.write_byte(0xDFFD, 0x12);
    regs.sp = 0xDFFC;
    run(&mut regs, &mut mem);
    assert_eq!(regs.a, 0x12);
    assert_eq!(regs.f, 0xF0);
}

#[test]
fn stack_wraps_around_the_address_space() {
    let (mut regs, mut mem) = machine(&[0xC5]);
    regs.sp = 0x0001;
    regs.b = 0xAA;
    regs.c = 0xBB;
    run(&mut regs, &mut mem);
    assert_eq!(regs.sp, 0xFFFF);
    assert_eq!(mem.read_byte(0xFFFF), 0xBB);
}

#[test]
fn loads_through_pairs() {
    let (mut regs, mut mem) = machine(&[0x02, 0x1A, 0x22, 0x3A, 0x2A, 0x32]);
    regs.a = 0x42;
    regs.b = 0xC5;
    regs.c = 0x00;
    assert_eq!(run(&mut regs, &mut mem), 2);
    assert_eq!(mem.read_byte(0xC500), 0x42);
    regs.d = 0xC5;
    regs.e = 0x00;
    regs.a = 0;
    assert_eq!(run(&mut regs, &mut mem), 2);
    assert_eq!(regs.a, 0x42);
    regs.h = 0xC5;
    regs.l = 0xFF;
    run(&mut regs, &mut mem);
    assert_eq!(mem.read_byte(0xC5FF), 0x42);
    assert_eq!(regs.hl(), 0xC600);
    mem.write_byte(0xC600, 0x99);
    run(&mut regs, &mut mem);
    assert_eq!(regs.a, 0x99);
    assert_eq!(regs.hl(), 0xC5FF);
    run(&mut regs, &mut mem);
    assert_eq!(regs.a, 0x42);
    assert_eq!(regs.hl(), 0xC600);
    run(&mut regs, &mut mem);
    assert_eq!(mem.read_byte(0xC600), 0x42);
    assert_eq!(regs.hl(), 0xC5FF);
}

#[test]
fn loads_through_the_last_page_and_absolute_addresses() {
    let (mut regs, mut mem) = machine(&[0xE0, 0x80, 0xF0, 0x80, 0xE2, 0xF2, 0xEA, 0x00, 0xC7, 0xFA, 0x00, 0xC7, 0x08, 0x10, 0xC7]);
    regs.a = 0x5A;
    assert_eq!(run(&mut regs, &mut mem), 3);
    assert_eq!(mem.read_byte(0xFF80), 0x5A);
    regs.a = 0;
    assert_eq!(run(&mut regs, &mut mem), 3);
    assert_eq!(regs.a, 0x5A);
    regs.c = 0x81;
    assert_eq!(run(&mut regs, &mut mem), 2);
    assert_eq!(mem.read_byte(0xFF81), 0x5A);
    regs.a = 0;
    assert_eq!(run(&mut regs, &mut mem), 2);
    assert_eq!(regs.a, 0x5A);
    assert_eq!(run(&mut regs, &mut mem), 4);
    assert_eq!(mem.read_byte(0xC700), 0x5A);
    regs.a = 0;
    assert_eq!(run(&mut regs, &mut mem), 4);
    assert_eq!(regs.a, 0x5A);
    regs.sp = 0xBEEF;
    assert_eq!(run(&mut regs, &mut mem), 5);
    assert_eq!(mem.read_byte(0xC710), 0xEF);
    assert_eq!(mem.read_byte(0xC711), 0xBE);
    assert_eq!(regs.pc, 0xC00F);
}

#[test]
fn jumps() {
    let (mut regs, mut mem) = machine(&[0xC3, 0x10, 0xC0]);
    assert_eq!(run(&mut regs, &mut mem), 3);
    assert_eq!(regs.pc, 0xC010);
    let (mut regs, mut mem) = machine(&[0xCA, 0x10, 0xC0, 0xC2, 0x20, 0xC0]);
    assert_eq!(run(&mut regs, &mut mem), 3);
    assert_eq!(regs.pc, 0xC003);
    assert_eq!(run(&mut regs, &mut mem), 3);
    assert_eq!(regs.pc, 0xC020);
    let (mut regs, mut mem) = machine(&[0xE9]);
    regs.h = 0x12;
    regs.l = 0x34;
    assert_eq!(run(&mut regs, &mut mem), 1);
    assert_eq!(regs.pc, 0x1234);
}

#[test]
fn relative_jumps_count_from_behind_the_offset() {
    let (mut regs, mut mem) = machine(&[0x18, 0x05]);
    assert_eq!(run(&mut regs, &mut mem), 3);
    assert_eq!(regs.pc, 0xC007);
    let (mut regs, mut mem) = machine(&[0x18, 0xFE]);
    assert_eq!(run(&mut regs, &mut mem), 3);
    assert_eq!(regs.pc, 0xC000);
    let (mut regs, mut mem) = machine(&[0x38, 0x05, 0x30, 0x80]);
    assert_eq!(run(&mut regs, &mut mem), 2);
    assert_eq!(regs.pc, 0xC002);
    assert_eq!(run(&mut regs, &mut mem), 3);
    assert_eq!(regs.pc, 0xBF84);
}

#[test]
fn call_and_return() {
    let (mut regs, mut mem) = machine(&[0xCD, 0x00, 0xC8]);
    mem.write_byte(0xC800, 0xC9);
    assert_eq!(run(&mut regs, &mut mem), 6);
    assert_eq!(regs.pc, 0xC800);
    assert_eq!(regs.sp, 0xDFFC);
    assert_eq!(mem.read_word(0xDFFC), 0xC003);
    assert_eq!(run(&mut regs, &mut mem), 4);
    assert_eq!(regs.pc, 0xC003);
    assert_eq!(regs.sp, 0xDFFE);
}

#[test]
fn conditional_call_and_return() {
    let (mut regs, mut mem) = machine(&[0xDC, 0x00, 0xC8, 0xD4, 0x00, 0xC8]);
    mem.write_byte(0xC800, 0xD8);
    mem.write_byte(0xC801, 0xD0);
    assert_eq!(run(&mut regs, &mut mem), 3);
    assert_eq!(regs.pc, 0xC003);
    assert_eq!(run(&mut regs, &mut mem), 6);
    assert_eq!(regs.pc, 0xC800);
    assert_eq!(run(&mut regs, &mut mem), 2);
    assert_eq!(regs.pc, 0xC801);
    assert_eq!(run(&mut regs, &mut mem), 5);
    assert_eq!(regs.pc, 0xC006);
}

#[test]
fn restart_calls_a_fixed_address() {
    let (mut regs, mut mem) = machine(&[0xEF]);
    assert_eq!(run(&mut regs, &mut mem), 8);
    assert_eq!(regs.pc, 0x0028);
    assert_eq!(regs.sp, 0xDFFC);
    assert_eq!(mem.read_word(0xDFFC), 0xC001);
}

#[test]
fn undefined_opcode_parks_the_program_counter() {
    for op in [0xD3u8, 0xDB, 0xDD, 0xE3, 0xE4, 0xEB, 0xEC, 0xED, 0xF4, 0xFC, 0xFD] {
        let (mut regs, mut mem) = machine(&[op]);
        let before = regs;
        assert_eq!(run(&mut regs, &mut mem), 0);
        assert_eq!(regs, before);
        assert_eq!(run(&mut regs, &mut mem), 0);
        assert_eq!(regs.pc, 0xC000);
    }
}

#[test]
fn halt_stop_and_interrupt_switches() {
    let (mut regs, mut mem) = machine(&[0x76, 0x10, 0xF3, 0xFB, 0x00]);
    assert_eq!(run(&mut regs, &mut mem), 1);
    assert_eq!(regs.halt, 1);
    assert_eq!(run(&mut regs, &mut mem), 1);
    assert_eq!(regs.stop, 1);
    regs.ime = 1;
    regs.delay = 2;
    assert_eq!(run(&mut regs, &mut mem), 1);
    assert_eq!((regs.ime, regs.delay), (0, 0));
    assert_eq!(run(&mut regs, &mut mem), 1);
    assert_eq!((regs.ime, regs.delay), (0, 2));
}

#[test]
fn enabling_interrupts_before_a_halt_takes_one_step() {
    let (mut regs, mut mem) = machine(&[0xFB, 0x76]);
    run(&mut regs, &mut mem);
    assert_eq!(regs.delay, 1);
}

#[test]
fn accumulator_rotations_and_flag_instructions() {
    let (mut regs, mut mem) = machine(&[0x07, 0x17, 0x0F, 0x1F, 0x2F, 0x37, 0x3F, 0x27]);
    regs.a = 0x85;
    assert_eq!(run(&mut regs, &mut mem), 1);
    assert_eq!((regs.a, regs.f), (0x0B, 0x10));
    run(&mut regs, &mut mem);
    assert_eq!((regs.a, regs.f), (0x17, 0x00));
    run(&mut regs, &mut mem);
    assert_eq!((regs.a, regs.f), (0x8B, 0x10));
    run(&mut regs, &mut mem);
    assert_eq!((regs.a, regs.f), (0xC5, 0x10));
    run(&mut regs, &mut mem);
    assert_eq!((regs.a, regs.f), (0x3A, 0x70));
    run(&mut regs, &mut mem);
    assert_eq!(regs.f, 0x10);
    run(&mut regs, &mut mem);
    assert_eq!(regs.f, 0x00);
    run(&mut regs, &mut mem);
    assert_eq!((regs.a, regs.f), (0x40, 0x00));
}

#[test]
fn prefixed_instructions_on_registers() {
    let (mut regs, mut mem) = machine(&[0xCB, 0x37, 0xCB, 0x7F, 0xCB, 0xC0, 0xCB, 0x80, 0xCB, 0x11]);
    regs.a = 0xF1;
    assert_eq!(run(&mut regs, &mut mem), 2);
    assert_eq!((regs.a, regs.f), (0x1F, 0x00));
    assert_eq!(run(&mut regs, &mut mem), 2);
    assert_eq!(regs.f, 0xA0);
    regs.b = 0x00;
    assert_eq!(run(&mut regs, &mut mem), 2);
    assert_eq!(regs.b, 0x01);
    assert_eq!(regs.f, 0xA0);
    assert_eq!(run(&mut regs, &mut mem), 2);
    assert_eq!(regs.b, 0x00);
    regs.c = 0x80;
    regs.f = 0x00;
    assert_eq!(run(&mut regs, &mut mem), 2);
    assert_eq!((regs.c, regs.f), (0x00, 0x90));
    assert_eq!(regs.pc, 0xC00A);
}

#[test]
fn prefixed_instructions_on_memory() {
    let (mut regs, mut mem) = machine(&[]);
    regs.h = 0xC9;
    regs.l = 0x00;
    mem.write_byte(0xC900, 0x81);
    assert_eq!(exec_cb(0x06, &mut regs, &mut mem), 4);
    assert_eq!(mem.read_byte(0xC900), 0x03);
    assert_eq!(regs.f, 0x10);
    assert_eq!(exec_cb(0x46, &mut regs, &mut mem), 3);
    assert_eq!(regs.f, 0x30);
    assert_eq!(exec_cb(0x56, &mut regs, &mut mem), 3);
    assert_eq!(regs.f, 0xB0);
    assert_eq!(exec_cb(0xFE, &mut regs, &mut mem), 4);
    assert_eq!(mem.read_byte(0xC900), 0x83);
    assert_eq!(exec_cb(0x86, &mut regs, &mut mem), 4);
    assert_eq!(mem.read_byte(0xC900), 0x82);
    assert_eq!(regs.f, 0xB0);
}

#[test]
fn program_counter_wraps_around() {
    let (mut regs, mut mem) = machine(&[]);
    regs.pc = 0xFFFF;
    mem.write_byte(0xFFFF, 0x00);
    run(&mut regs, &mut mem);
    assert_eq!(regs.pc, 0x0000);
}
