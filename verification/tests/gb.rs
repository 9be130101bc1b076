use rustboy::gb::{power_on, power_on_sequence, Gameboy, FRAME_CYCLES};
use rustboy::gpu::palette::Color;
use rustboy::mem::cartridge::LoadError;
use rustboy::mem::Memory;
use rustboy::{Button, Target, DISPLAY_HEIGHT, DISPLAY_WIDTH};

/// An image of two banks with its program at `0x0150` and a jump to it at
/// the entry point `0x0100`.
fn image(title: &[u8], program: &[u8]) -> Vec<u8> {
    let mut rom = vec![0u8; 0x8000];
    rom[0x0100] = 0xC3;
    rom[0x0101] = 0x50;
    rom[0x0102] = 0x01;
    for (i, b) in title.iter().enumerate() {
        rom[0x0134 + i] = *b;
    }
    for (i, b) in program.iter().enumerate() {
        rom[0x0150 + i] = *b;
    }
    rom
}

fn boot(program: &[u8]) -> Gameboy {
    match Gameboy::new(image(b"TEST", program), None) {
        Ok(gb) => gb,
        Err(e) => panic!("image refused: {:?}", e),
    }
}

#[test]
fn screen_is_160_by_144() {
    assert_eq!(DISPLAY_WIDTH, 160);
    assert_eq!(DISPLAY_HEIGHT, 144);
    assert_eq!(FRAME_CYCLES, 154 * 456);
}

#[test]
fn new_machine_is_booted() {
    let gb = boot(&[]);
    assert_eq!(gb.title, "TEST");
    let regs = gb.registers();
    assert_eq!(regs.pc, 0x0100);
    assert_eq!(regs.sp, 0xFFFE);
    assert_eq!(gb.read_byte(0xFF40), 0x91);
    assert_eq!(gb.read_byte(0xFF47), 0xFC);
    assert_eq!(gb.read_byte(0xFF48), 0xFF);
    assert_eq!(gb.read_byte(0xFF49), 0xFF);
    assert_eq!(gb.read_byte(0xFFFF), 0x00);
    assert_eq!(gb.read_byte(0xFF05), 0x00);
    assert_eq!(gb.read_byte(0x0100), 0xC3);
    assert_eq!(gb.get_image_data().len(), 160 * 144 * 4);
}

#[test]
fn refused_image_gives_its_error() {
    assert!(matches!(Gameboy::new(vec![0u8; 0x100], None), Err(LoadError::HeaderMissing)));
    let mut rom = image(b"", &[]);
    rom[0x0147] = 0xFC;
    assert!(matches!(Gameboy::new(rom, None), Err(LoadError::UnknownType(0xFC))));
    let mut rom = image(b"", &[]);
    rom[0x0148] = 0x01;
    assert!(matches!(Gameboy::new(rom, None), Err(LoadError::Truncated)));
    let mut rom = image(b"", &[]);
    rom[0x0147] = 0x03;
    rom[0x0149] = 0x02;
    assert!(matches!(Gameboy::new(rom, Some(vec![0u8; 5])), Err(LoadError::SaveSizeMismatch)));
}

#[test]
fn power_on_writes_the_registers_in_order() {
    let writes = power_on_sequence(Target::GameBoy);
    assert_eq!(writes.len(), 31);
    assert_eq!(writes[0], (0xFF05, 0x00));
    assert_eq!(writes[3], (0xFF10, 0x80));
    assert_eq!(writes[21], (0xFF40, 0x91));
    assert_eq!(writes[25], (0xFF47, 0xFC));
    assert_eq!(writes[30], (0xFFFF, 0x00));
    let color = power_on_sequence(Target::GameBoyColor);
    assert_eq!(color.len(), 33);
    assert_eq!(&color[..31], &writes[..]);
    assert_eq!(color[31], (0xFF68, 0xC0));
    assert_eq!(color[32], (0xFF6A, 0xC0));
    assert_eq!(power_on_sequence(Target::SuperGameBoy), writes);
}

#[test]
fn power_on_sets_the_bus() {
    let mut mem = Memory::new(Target::GameBoyColor);
    mem.write_byte(0xFFFF, 0x1F);
    power_on(&mut mem);
    assert_eq!(mem.read_byte(0xFF40), 0x91);
    assert_eq!(mem.read_byte(0xFFFF), 0x00);
    assert_eq!(mem.read_byte(0xFF68), 0x80);
    assert_eq!(mem.read_byte(0xFF6A), 0x80);
    assert_eq!(mem.gpu.regs().clock, 4);
}

#[test]
fn one_run_is_one_frame_of_cycles() {
    let mut gb = boot(&[0x18, 0xFE]);
    gb.run();
    assert_eq!(gb.registers().pc, 0x0150);
    assert_eq!(gb.read_byte(0xFF44), 0);
    assert_eq!(gb.read_byte(0xFF0F) & 0x01, 0x01);
    gb.run();
    assert_eq!(gb.read_byte(0xFF44), 0);
}

#[test]
fn program_runs_on_the_machine() {
    let mut gb = boot(&[
        0x3E, 0x12, // LD A,0x12
        0xEA, 0x00, 0xC0, // LD (0xC000),A
        0x3C, // INC A
        0xE0, 0x80, // LDH (0x80),A
        0x18, 0xFE, // JR -2
    ]);
    gb.run();
    assert_eq!(gb.read_byte(0xC000), 0x12);
    assert_eq!(gb.read_byte(0xFF80), 0x13);
    assert_eq!(gb.registers().a, 0x13);
    assert_eq!(gb.registers().pc, 0x0158);
}

#[test]
fn stalled_program_ends_the_run_early() {
    let mut gb = boot(&[0x00, 0x00, 0xDD]);
    assert!(!gb.is_stalled());
    gb.run();
    assert_eq!(gb.registers().pc, 0x0152);
    assert!(gb.is_stalled());
    gb.run();
    assert_eq!(gb.registers().pc, 0x0152);
    assert!(gb.is_stalled());
}

#[test]
fn frame_is_painted_white_for_empty_video_memory() {
    let mut gb = boot(&[0x18, 0xFE]);
    gb.run();
    assert!(gb.get_image_data().iter().all(|b| *b == 0xFF));
    assert_eq!(gb.get_pixel_color(0, 0), Some(Color { r: 255, g: 255, b: 255, a: 255 }));
    assert_eq!(gb.get_pixel_color(159, 143), Some(Color { r: 255, g: 255, b: 255, a: 255 }));
}

#[test]
fn program_paints_the_screen() {
    let mut gb = boot(&[
        0x21, 0x00, 0x80, // LD HL,0x8000
        0x3E, 0xFF, // LD A,0xFF
        0x06, 0x10, // LD B,16
        0x22, // LDI (HL),A
        0x05, // DEC B
        0x20, 0xFC, // JR NZ,-4
        0x18, 0xFE, // JR -2
    ]);
    gb.run();
    gb.run();
    let black = Color { r: 0, g: 0, b: 0, a: 255 };
    assert_eq!(gb.get_pixel_color(0, 0), Some(black));
    assert_eq!(gb.get_pixel_color(159, 143), Some(black));
    assert_eq!(gb.get_image_data()[0..4], [0, 0, 0, 255]);
}

#[test]
fn pixels_outside_the_screen_have_no_color() {
    let gb = boot(&[]);
    assert_eq!(gb.get_pixel_color(160, 0), None);
    assert_eq!(gb.get_pixel_color(0, 144), None);
    assert_eq!(gb.get_pixel_color(usize::MAX, usize::MAX), None);
}

#[test]
fn key_down_raises_the_joypad_interrupt() {
    let mut gb = boot(&[0x18, 0xFE]);
    assert_eq!(gb.read_byte(0xFF0F) & 0x10, 0);
    gb.key_down(Button::Start);
    assert_eq!(gb.read_byte(0xFF0F) & 0x10, 0x10);
    assert_eq!(gb.read_byte(0xFF00), 0x0F);
}

#[test]
fn keys_are_read_through_the_joypad_register() {
    let mut gb = boot(&[
        0x3E, 0x10, // LD A,0x10: select the buttons
        0xE0, 0x00, // LDH (0x00),A
        0xF0, 0x00, // LDH A,(0x00)
        0xE0, 0x80, // LDH (0x80),A
        0x18, 0xF6, // JR -10
    ]);
    gb.key_down(Button::A);
    gb.key_down(Button::Left);
    gb.run();
    assert_eq!(gb.read_byte(0xFF80), 0x0E);
    gb.key_up(Button::A);
    gb.key_down(Button::Start);
    gb.run();
    assert_eq!(gb.read_byte(0xFF80), 0x07);
}

#[test]
fn frame_count_is_read_and_set_back() {
    let mut gb = boot(&[]);
    assert_eq!(gb.fps(), 0);
    assert_eq!(gb.fps(), 0);
}

#[test]
fn interrupt_routine_runs_on_vblank() {
    let mut rom = image(b"IRQ", &[
        0x3E, 0x01, // LD A,0x01
        0xE0, 0xFF, // LDH (0xFF),A: enable the vertical blank interrupt
        0xFB, // EI
        0x18, 0xFE, // JR -2
    ]);
    // The routine at 0x40 counts in high RAM and returns.
    let routine = [0xF0, 0x81, 0x3C, 0xE0, 0x81, 0xD9];
    for (i, b) in routine.iter().enumerate() {
        rom[0x0040 + i] = *b;
    }
    let mut gb = Gameboy::new(rom, None).ok().unwrap();
    gb.run();
    let first = gb.read_byte(0xFF81);
    gb.run();
    let second = gb.read_byte(0xFF81);
    assert_eq!(first, 0xCA + 1);
    assert_eq!(second, 0xCA + 2);
}
