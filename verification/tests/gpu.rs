use rustboy::gpu::palette::{shade, update_cgb_palette, update_palette, Color, Palettes, Shades};
use rustboy::gpu::{Mode, GPU};
use rustboy::Target;

const WHITE: [u8; 4] = [255, 255, 255, 255];
const LIGHT: [u8; 4] = [192, 192, 192, 255];
const DARK: [u8; 4] = [96, 96, 96, 255];
const BLACK: [u8; 4] = [0, 0, 0, 255];

/// A pixel unit with the screen on, the background shown with tiles counted
/// from `0x8000`, and palettes that map each color index to its own shade.
fn screen(lcdc: u8) -> GPU {
    let mut gpu = GPU::new(Target::GameBoy);
    gpu.write_byte(0xFF47, 0xE4);
    gpu.write_byte(0xFF48, 0xE4);
    gpu.write_byte(0xFF49, 0x1B);
    gpu.write_byte(0xFF40, lcdc);
    gpu
}

/// Fills a row of a tile with one color index.
fn fill_row(gpu: &mut GPU, tile: u16, row: u16, index: u8) {
    let addr = 0x8000 + tile * 16 + row * 2;
    gpu.write_byte(addr, if index & 1 != 0 { 0xFF } else { 0x00 });
    gpu.write_byte(addr + 1, if index & 2 != 0 { 0xFF } else { 0x00 });
}

/// Fills a whole tile with one color index.
fn fill_tile(gpu: &mut GPU, tile: u16, index: u8) {
    for row in 0..8 {
        fill_row(gpu, tile, row, index);
    }
}

/// Runs the unit from the start of a line into its horizontal blank.
fn paint_line(gpu: &mut GPU) {
    let mut intf = 0u8;
    let clock = gpu.regs().clock;
    gpu.step(253 - clock, &mut intf);
    assert_eq!(gpu.regs().mode, Mode::HBlank);
}

/// Runs the unit to the start of the next line.
fn next_line(gpu: &mut GPU) {
    let mut intf = 0u8;
    let clock = gpu.regs().clock;
    gpu.step(456 - clock, &mut intf);
}

fn pixel(gpu: &GPU, x: usize, y: usize) -> [u8; 4] {
    let at = (y * 160 + x) * 4;
    let image = gpu.image_data();
    [image[at], image[at + 1], image[at + 2], image[at + 3]]
}

fn sprite(gpu: &mut GPU, n: u16, y: u8, x: u8, tile: u8, attrs: u8) {
    gpu.write_byte(0xFE00 + n * 4, y);
    gpu.write_byte(0xFE00 + n * 4 + 1, x);
    gpu.write_byte(0xFE00 + n * 4 + 2, tile);
    gpu.write_byte(0xFE00 + n * 4 + 3, attrs);
}

#[test]
fn new_unit_is_off_and_white() {
    let gpu = GPU::new(Target::GameBoy);
    assert_eq!(gpu.image_data().len(), 160 * 144 * 4);
    assert!(gpu.image_data().iter().all(|b| *b == 0xFF));
    assert_eq!(gpu.read_byte(0xFF40), 0x00);
    assert_eq!(gpu.read_byte(0xFF44), 0x00);
    assert_eq!(gpu.regs().mode, Mode::RdOAM);
    assert_eq!(gpu.read_byte(0x8000), 0x00);
    assert_eq!(gpu.read_byte(0xFE00), 0x00);
}

#[test]
fn control_register_is_taken_apart_and_put_together() {
    let mut gpu = GPU::new(Target::GameBoy);
    for val in [0x00u8, 0x91, 0xFF, 0x55, 0xAA, 0x80, 0x01] {
        gpu.write_byte(0xFF40, val);
        assert_eq!(gpu.read_byte(0xFF40), val);
    }
    gpu.write_byte(0xFF40, 0x91);
    let regs = gpu.regs();
    assert!(regs.lcd_enabled && regs.tile_data && regs.bg_enabled);
    assert!(!regs.win_tmap && !regs.win_enabled && !regs.bg_tmap && !regs.obj_size && !regs.obj_enabled);
}

#[test]
fn switching_the_screen_on_restarts_the_frame() {
    let mut gpu = GPU::new(Target::GameBoy);
    let mut intf = 0u8;
    gpu.step(456 * 3 + 100, &mut intf);
    assert_eq!(gpu.read_byte(0xFF44), 3);
    gpu.write_byte(0xFF40, 0x80);
    assert_eq!(gpu.read_byte(0xFF44), 0);
    assert_eq!(gpu.regs().clock, 4);
    gpu.step(456, &mut intf);
    gpu.write_byte(0xFF40, 0x81);
    assert_eq!(gpu.read_byte(0xFF44), 1);
}

#[test]
fn status_register_shows_selections_compare_and_mode() {
    let mut gpu = GPU::new(Target::GameBoy);
    assert_eq!(gpu.read_byte(0xFF41), 0x06);
    gpu.write_byte(0xFF41, 0xFF);
    assert_eq!(gpu.read_byte(0xFF41), 0x7E);
    gpu.write_byte(0xFF45, 0x05);
    assert_eq!(gpu.read_byte(0xFF41), 0x7A);
    gpu.write_byte(0xFF41, 0x00);
    let mut intf = 0u8;
    gpu.step(100, &mut intf);
    assert_eq!(gpu.read_byte(0xFF41), 0x03);
    gpu.step(200, &mut intf);
    assert_eq!(gpu.read_byte(0xFF41), 0x00);
}

#[test]
fn line_register_cannot_be_written() {
    let mut gpu = GPU::new(Target::GameBoy);
    let mut intf = 0u8;
    gpu.step(456 * 2, &mut intf);
    gpu.write_byte(0xFF44, 0x55);
    assert_eq!(gpu.read_byte(0xFF44), 2);
}

#[test]
fn plain_registers_keep_what_is_written() {
    let mut gpu = GPU::new(Target::GameBoy);
    let addrs = [0xFF42u16, 0xFF43, 0xFF45, 0xFF47, 0xFF48, 0xFF49, 0xFF4A, 0xFF4B];
    for (i, addr) in addrs.iter().enumerate() {
        gpu.write_byte(*addr, 0x10 + i as u8);
    }
    for (i, addr) in addrs.iter().enumerate() {
        assert_eq!(gpu.read_byte(*addr), 0x10 + i as u8);
    }
    assert_eq!(gpu.read_byte(0xFF4C), 0xFF);
    assert_eq!(gpu.read_byte(0x0000), 0xFF);
}

#[test]
fn dma_registers_hold_two_words() {
    let mut gpu = GPU::new(Target::GameBoy);
    gpu.write_byte(0xFF51, 0x12);
    gpu.write_byte(0xFF52, 0x34);
    gpu.write_byte(0xFF53, 0x56);
    gpu.write_byte(0xFF54, 0x78);
    assert_eq!(gpu.regs().hdma_src, 0x1234);
    assert_eq!(gpu.regs().hdma_dst, 0x5678);
    assert_eq!(gpu.read_byte(0xFF51), 0x12);
    assert_eq!(gpu.read_byte(0xFF52), 0x34);
    assert_eq!(gpu.read_byte(0xFF53), 0x56);
    assert_eq!(gpu.read_byte(0xFF54), 0x78);
    gpu.write_byte(0xFF55, 0xFF);
    assert_eq!(gpu.read_byte(0xFF55), 0x00);
}

#[test]
fn video_bank_switches_on_the_color_machine_only() {
    let mut gpu = GPU::new(Target::GameBoy);
    gpu.write_byte(0x8000, 0x11);
    gpu.write_byte(0xFF4F, 0x01);
    assert_eq!(gpu.read_byte(0xFF4F), 0);
    gpu.set_modes(true, false);
    gpu.write_byte(0xFF4F, 0xFF);
    assert_eq!(gpu.read_byte(0xFF4F), 1);
    assert_eq!(gpu.read_byte(0x8000), 0x00);
    gpu.write_byte(0x8000, 0x22);
    gpu.write_byte(0xFF4F, 0x00);
    assert_eq!(gpu.read_byte(0x8000), 0x11);
}

#[test]
fn color_palette_ports_step_through_the_memory() {
    let mut gpu = GPU::new(Target::GameBoyColor);
    gpu.write_byte(0xFF68, 0xFF);
    assert_eq!(gpu.read_byte(0xFF68), 0xBF);
    assert_eq!(gpu.read_byte(0xFF69), 0xFF);
    gpu.write_byte(0xFF69, 0x12);
    assert_eq!(gpu.read_byte(0xFF68), 0x80);
    gpu.write_byte(0xFF69, 0x34);
    assert_eq!(gpu.read_byte(0xFF68), 0x81);
    gpu.write_byte(0xFF68, 0x3F);
    assert_eq!(gpu.read_byte(0xFF69), 0x12);
    gpu.write_byte(0xFF69, 0x56);
    assert_eq!(gpu.read_byte(0xFF68), 0x3F);
    assert_eq!(gpu.read_byte(0xFF69), 0x56);
    gpu.write_byte(0xFF6A, 0x82);
    gpu.write_byte(0xFF6B, 0x9A);
    assert_eq!(gpu.read_byte(0xFF6A), 0x83);
    gpu.write_byte(0xFF6A, 0x02);
    assert_eq!(gpu.read_byte(0xFF6B), 0x9A);
}

#[test]
fn one_line_goes_through_three_modes_in_456_cycles() {
    let mut gpu = GPU::new(Target::GameBoy);
    let mut intf = 0u8;
    let mut seen = vec![gpu.regs().mode];
    for _ in 0..114 {
        assert_eq!(gpu.read_byte(0xFF44), 0);
        gpu.step(4, &mut intf);
        if *seen.last().unwrap() != gpu.regs().mode {
            seen.push(gpu.regs().mode);
        }
    }
    assert_eq!(seen, vec![Mode::RdOAM, Mode::RdVRAM, Mode::HBlank, Mode::RdOAM]);
    assert_eq!(gpu.read_byte(0xFF44), 1);
    assert_eq!(gpu.regs().clock, 0);
}

#[test]
fn modes_change_at_80_and_252_cycles() {
    let mut gpu = GPU::new(Target::GameBoy);
    let mut intf = 0u8;
    gpu.step(80, &mut intf);
    assert_eq!(gpu.regs().mode, Mode::RdOAM);
    gpu.step(1, &mut intf);
    assert_eq!(gpu.regs().mode, Mode::RdVRAM);
    gpu.step(171, &mut intf);
    assert_eq!(gpu.regs().mode, Mode::RdVRAM);
    gpu.step(1, &mut intf);
    assert_eq!(gpu.regs().mode, Mode::HBlank);
    gpu.step(202, &mut intf);
    assert_eq!(gpu.regs().mode, Mode::HBlank);
    assert_eq!(gpu.read_byte(0xFF44), 0);
    gpu.step(1, &mut intf);
    assert_eq!(gpu.regs().mode, Mode::RdOAM);
    assert_eq!(gpu.read_byte(0xFF44), 1);
    assert_eq!(intf, 0);
}

#[test]
fn frame_has_154_lines() {
    let mut gpu = GPU::new(Target::GameBoy);
    let mut intf = 0u8;
    for line in 1..154u32 {
        gpu.step(456, &mut intf);
        assert_eq!(gpu.read_byte(0xFF44) as u32, line);
    }
    gpu.step(456, &mut intf);
    assert_eq!(gpu.read_byte(0xFF44), 0);
    assert_eq!(gpu.regs().mode, Mode::RdOAM);
}

#[test]
fn one_step_can_cover_a_whole_frame() {
    let mut gpu = GPU::new(Target::GameBoy);
    let mut intf = 0u8;
    gpu.step(154 * 456, &mut intf);
    assert_eq!(gpu.read_byte(0xFF44), 0);
    assert_eq!(gpu.regs().clock, 0);
    assert_eq!(intf & 0x01, 0x01);
    gpu.step(10 * 456 + 7, &mut intf);
    assert_eq!(gpu.read_byte(0xFF44), 10);
    assert_eq!(gpu.regs().clock, 7);
}

#[test]
fn vertical_blank_begins_with_line_144() {
    let mut gpu = GPU::new(Target::GameBoy);
    let mut intf = 0u8;
    gpu.step(456 * 143, &mut intf);
    assert_eq!(intf, 0);
    assert_ne!(gpu.regs().mode, Mode::VBlank);
    gpu.step(456, &mut intf);
    assert_eq!(gpu.read_byte(0xFF44), 144);
    assert_eq!(gpu.regs().mode, Mode::VBlank);
    assert_eq!(intf, 0x01);
    intf = 0;
    gpu.step(456 * 9, &mut intf);
    assert_eq!(gpu.read_byte(0xFF44), 153);
    assert_eq!(gpu.regs().mode, Mode::VBlank);
    assert_eq!(intf, 0);
}

#[test]
fn status_interrupt_sources() {
    let mut gpu = GPU::new(Target::GameBoy);
    let mut intf = 0u8;
    gpu.write_byte(0xFF41, 0x08);
    gpu.step(252, &mut intf);
    assert_eq!(intf, 0);
    gpu.step(1, &mut intf);
    assert_eq!(intf, 0x02);
    let mut gpu = GPU::new(Target::GameBoy);
    let mut intf = 0u8;
    gpu.write_byte(0xFF41, 0x20);
    gpu.step(455, &mut intf);
    assert_eq!(intf, 0);
    gpu.step(1, &mut intf);
    assert_eq!(intf, 0x02);
    let mut gpu = GPU::new(Target::GameBoy);
    let mut intf = 0u8;
    gpu.write_byte(0xFF41, 0x10);
    gpu.step(456 * 144, &mut intf);
    assert_eq!(intf, 0x03);
}

#[test]
fn line_compare_interrupt() {
    let mut gpu = GPU::new(Target::GameBoy);
    let mut intf = 0u8;
    gpu.write_byte(0xFF45, 2);
    gpu.write_byte(0xFF41, 0x40);
    gpu.step(456, &mut intf);
    assert_eq!(intf, 0);
    gpu.step(456, &mut intf);
    assert_eq!(intf, 0x02);
    assert_eq!(gpu.read_byte(0xFF41) & 0x04, 0x04);
    intf = 0;
    gpu.step(456, &mut intf);
    assert_eq!(intf, 0);
    assert_eq!(gpu.read_byte(0xFF41) & 0x04, 0x00);
}

#[test]
fn nothing_is_painted_while_the_screen_is_off() {
    let mut gpu = screen(0x11);
    fill_tile(&mut gpu, 0, 3);
    paint_line(&mut gpu);
    assert_eq!(pixel(&gpu, 0, 0), WHITE);
}

#[test]
fn background_line_takes_the_row_of_its_tile() {
    let mut gpu = screen(0x91);
    fill_row(&mut gpu, 0, 0, 1);
    fill_row(&mut gpu, 0, 1, 2);
    paint_line(&mut gpu);
    for x in 0..160 {
        assert_eq!(pixel(&gpu, x, 0), LIGHT);
    }
    assert_eq!(pixel(&gpu, 0, 1), WHITE);
    next_line(&mut gpu);
    paint_line(&mut gpu);
    for x in 0..160 {
        assert_eq!(pixel(&gpu, x, 1), DARK);
    }
    assert_eq!(pixel(&gpu, 0, 0), LIGHT);
    next_line(&mut gpu);
    paint_line(&mut gpu);
    assert_eq!(pixel(&gpu, 0, 2), WHITE);
}

#[test]
fn tile_pixels_come_from_two_bit_planes() {
    let mut gpu = screen(0x91);
    gpu.write_byte(0x8000, 0b0101_0101);
    gpu.write_byte(0x8001, 0b0011_0011);
    paint_line(&mut gpu);
    let expected = [WHITE, LIGHT, DARK, BLACK, WHITE, LIGHT, DARK, BLACK];
    for x in 0..8 {
        assert_eq!(pixel(&gpu, x, 0), expected[x]);
    }
}

#[test]
fn tile_map_names_the_tile_of_each_column() {
    let mut gpu = screen(0x91);
    fill_tile(&mut gpu, 1, 3);
    gpu.write_byte(0x9801, 1);
    paint_line(&mut gpu);
    assert_eq!(pixel(&gpu, 7, 0), WHITE);
    assert_eq!(pixel(&gpu, 8, 0), BLACK);
    assert_eq!(pixel(&gpu, 15, 0), BLACK);
    assert_eq!(pixel(&gpu, 16, 0), WHITE);
}

#[test]
fn scroll_registers_move_the_background() {
    let mut gpu = screen(0x91);
    fill_tile(&mut gpu, 1, 3);
    gpu.write_byte(0x9801, 1);
    gpu.write_byte(0xFF43, 3);
    paint_line(&mut gpu);
    assert_eq!(pixel(&gpu, 4, 0), WHITE);
    assert_eq!(pixel(&gpu, 5, 0), BLACK);
    assert_eq!(pixel(&gpu, 12, 0), BLACK);
    assert_eq!(pixel(&gpu, 13, 0), WHITE);
    let mut gpu = screen(0x91);
    fill_tile(&mut gpu, 1, 3);
    gpu.write_byte(0x9820, 1);
    gpu.write_byte(0xFF42, 8);
    paint_line(&mut gpu);
    assert_eq!(pixel(&gpu, 0, 0), BLACK);
    assert_eq!(pixel(&gpu, 8, 0), WHITE);
}

#[test]
fn background_wraps_around_its_map() {
    let mut gpu = screen(0x91);
    fill_tile(&mut gpu, 1, 3);
    gpu.write_byte(0x9800, 1);
    gpu.write_byte(0xFF43, 0xFC);
    gpu.write_byte(0xFF42, 0xFF);
    paint_line(&mut gpu);
    assert_eq!(pixel(&gpu, 3, 0), WHITE);
    next_line(&mut gpu);
    paint_line(&mut gpu);
    assert_eq!(pixel(&gpu, 3, 1), WHITE);
    assert_eq!(pixel(&gpu, 4, 1), BLACK);
    assert_eq!(pixel(&gpu, 11, 1), BLACK);
    assert_eq!(pixel(&gpu, 12, 1), WHITE);
}

#[test]
fn signed_tile_numbers_count_from_tile_256() {
    let mut gpu = screen(0x81);
    fill_tile(&mut gpu, 256, 1);
    fill_tile(&mut gpu, 255, 2);
    fill_tile(&mut gpu, 128, 3);
    gpu.write_byte(0x9801, 0xFF);
    gpu.write_byte(0x9802, 0x80);
    paint_line(&mut gpu);
    assert_eq!(pixel(&gpu, 0, 0), LIGHT);
    assert_eq!(pixel(&gpu, 8, 0), DARK);
    assert_eq!(pixel(&gpu, 16, 0), BLACK);
}

#[test]
fn second_tile_map_is_selected_by_bit_3() {
    let mut gpu = screen(0x99);
    fill_tile(&mut gpu, 1, 2);
    gpu.write_byte(0x9C00, 1);
    paint_line(&mut gpu);
    assert_eq!(pixel(&gpu, 0, 0), DARK);
    assert_eq!(pixel(&gpu, 8, 0), WHITE);
}

#[test]
fn background_palette_maps_indices_to_shades() {
    let mut gpu = screen(0x91);
    fill_tile(&mut gpu, 0, 1);
    gpu.write_byte(0xFF47, 0x0C);
    paint_line(&mut gpu);
    assert_eq!(pixel(&gpu, 0, 0), BLACK);
}

#[test]
fn changed_tile_is_decoded_again_before_the_next_line() {
    let mut gpu = screen(0x91);
    fill_tile(&mut gpu, 0, 1);
    paint_line(&mut gpu);
    assert_eq!(pixel(&gpu, 0, 0), LIGHT);
    fill_tile(&mut gpu, 0, 2);
    next_line(&mut gpu);
    paint_line(&mut gpu);
    assert_eq!(pixel(&gpu, 0, 1), DARK);
    assert_eq!(pixel(&gpu, 0, 0), LIGHT);
}

#[test]
fn window_covers_the_background_from_its_corner() {
    let mut gpu = screen(0xF1);
    fill_tile(&mut gpu, 1, 3);
    for i in 0..32 {
        gpu.write_byte(0x9C00 + i, 1);
    }
    gpu.write_byte(0xFF4B, 7 + 80);
    gpu.write_byte(0xFF4A, 1);
    paint_line(&mut gpu);
    assert_eq!(pixel(&gpu, 80, 0), WHITE);
    next_line(&mut gpu);
    paint_line(&mut gpu);
    assert_eq!(pixel(&gpu, 79, 1), WHITE);
    assert_eq!(pixel(&gpu, 80, 1), BLACK);
    assert_eq!(pixel(&gpu, 159, 1), BLACK);
}

#[test]
fn window_off_the_right_edge_is_not_shown() {
    let mut gpu = screen(0xF1);
    fill_tile(&mut gpu, 1, 3);
    for i in 0..32 {
        gpu.write_byte(0x9C00 + i, 1);
    }
    gpu.write_byte(0xFF4B, 167);
    paint_line(&mut gpu);
    assert_eq!(pixel(&gpu, 159, 0), WHITE);
    let mut gpu = screen(0xF1);
    fill_tile(&mut gpu, 1, 3);
    for i in 0..32 {
        gpu.write_byte(0x9C00 + i, 1);
    }
    gpu.write_byte(0xFF4B, 166);
    paint_line(&mut gpu);
    assert_eq!(pixel(&gpu, 158, 0), WHITE);
    assert_eq!(pixel(&gpu, 159, 0), BLACK);
}

#[test]
fn sprite_is_painted_over_the_background() {
    let mut gpu = screen(0x93);
    fill_tile(&mut gpu, 2, 3);
    sprite(&mut gpu, 0, 16, 8 + 10, 2, 0x00);
    paint_line(&mut gpu);
    assert_eq!(pixel(&gpu, 9, 0), WHITE);
    for x in 10..18 {
        assert_eq!(pixel(&gpu, x, 0), BLACK);
    }
    assert_eq!(pixel(&gpu, 18, 0), WHITE);
}

#[test]
fn sprite_covers_eight_lines() {
    let mut gpu = screen(0x93);
    fill_tile(&mut gpu, 2, 3);
    sprite(&mut gpu, 0, 16 + 1, 8, 2, 0x00);
    for line in 0..10 {
        paint_line(&mut gpu);
        let expected = if (1..9).contains(&line) { BLACK } else { WHITE };
        assert_eq!(pixel(&gpu, 0, line), expected, "line {}", line);
        next_line(&mut gpu);
    }
}

#[test]
fn tall_sprite_uses_two_tiles() {
    let mut gpu = screen(0x97);
    fill_tile(&mut gpu, 4, 1);
    fill_tile(&mut gpu, 5, 2);
    sprite(&mut gpu, 0, 16, 8, 5, 0x00);
    for line in 0..17 {
        paint_line(&mut gpu);
        let expected = if line < 8 {
            LIGHT
        } else if line < 16 {
            DARK
        } else {
            WHITE
        };
        assert_eq!(pixel(&gpu, 0, line), expected, "line {}", line);
        next_line(&mut gpu);
    }
}

#[test]
fn color_index_zero_of_a_sprite_is_transparent() {
    let mut gpu = screen(0x93);
    gpu.write_byte(0x8020, 0xF0);
    sprite(&mut gpu, 0, 16, 8, 2, 0x00);
    paint_line(&mut gpu);
    assert_eq!(pixel(&gpu, 3, 0), LIGHT);
    assert_eq!(pixel(&gpu, 4, 0), WHITE);
}

#[test]
fn sprite_flips() {
    let mut gpu = screen(0x93);
    gpu.write_byte(0x8020, 0x80);
    gpu.write_byte(0x802E, 0x01);
    sprite(&mut gpu, 0, 16, 8, 2, 0x20);
    sprite(&mut gpu, 1, 16, 8 + 16, 2, 0x40);
    sprite(&mut gpu, 2, 16, 8 + 32, 2, 0x60);
    paint_line(&mut gpu);
    assert_eq!(pixel(&gpu, 0, 0), WHITE);
    assert_eq!(pixel(&gpu, 7, 0), LIGHT);
    assert_eq!(pixel(&gpu, 16 + 7, 0), LIGHT);
    assert_eq!(pixel(&gpu, 16, 0), WHITE);
    assert_eq!(pixel(&gpu, 32, 0), LIGHT);
    assert_eq!(pixel(&gpu, 32 + 7, 0), WHITE);
}

#[test]
fn sprite_palette_is_selected_by_bit_4() {
    let mut gpu = screen(0x93);
    fill_tile(&mut gpu, 2, 1);
    sprite(&mut gpu, 0, 16, 8, 2, 0x00);
    sprite(&mut gpu, 1, 16, 8 + 8, 2, 0x10);
    paint_line(&mut gpu);
    assert_eq!(pixel(&gpu, 0, 0), LIGHT);
    assert_eq!(pixel(&gpu, 8, 0), DARK);
}

#[test]
fn sprite_behind_the_background_shows_through_index_zero_only() {
    let mut gpu = screen(0x93);
    fill_tile(&mut gpu, 1, 1);
    fill_tile(&mut gpu, 2, 3);
    gpu.write_byte(0x9801, 1);
    sprite(&mut gpu, 0, 16, 8 + 4, 2, 0x80);
    paint_line(&mut gpu);
    assert_eq!(pixel(&gpu, 3, 0), WHITE);
    assert_eq!(pixel(&gpu, 4, 0), BLACK);
    assert_eq!(pixel(&gpu, 7, 0), BLACK);
    assert_eq!(pixel(&gpu, 8, 0), LIGHT);
    assert_eq!(pixel(&gpu, 11, 0), LIGHT);
}

#[test]
fn sprite_further_left_shows_over_one_further_right() {
    let mut gpu = screen(0x93);
    fill_tile(&mut gpu, 2, 3);
    fill_tile(&mut gpu, 3, 1);
    sprite(&mut gpu, 0, 16, 8, 2, 0x00);
    sprite(&mut gpu, 5, 16, 8 + 4, 3, 0x00);
    paint_line(&mut gpu);
    assert_eq!(pixel(&gpu, 3, 0), BLACK);
    assert_eq!(pixel(&gpu, 4, 0), BLACK);
    assert_eq!(pixel(&gpu, 7, 0), BLACK);
    assert_eq!(pixel(&gpu, 8, 0), LIGHT);
    assert_eq!(pixel(&gpu, 11, 0), LIGHT);
    assert_eq!(pixel(&gpu, 12, 0), WHITE);
    let mut gpu = screen(0x93);
    fill_tile(&mut gpu, 2, 3);
    fill_tile(&mut gpu, 3, 1);
    sprite(&mut gpu, 0, 16, 8 + 4, 3, 0x00);
    sprite(&mut gpu, 5, 16, 8, 2, 0x00);
    paint_line(&mut gpu);
    assert_eq!(pixel(&gpu, 4, 0), BLACK);
    assert_eq!(pixel(&gpu, 7, 0), BLACK);
    assert_eq!(pixel(&gpu, 8, 0), LIGHT);
}

#[test]
fn of_sprites_equally_far_left_the_later_one_shows() {
    let mut gpu = screen(0x93);
    fill_tile(&mut gpu, 2, 3);
    fill_tile(&mut gpu, 3, 1);
    sprite(&mut gpu, 3, 16, 8, 2, 0x00);
    sprite(&mut gpu, 4, 16, 8, 3, 0x00);
    paint_line(&mut gpu);
    assert_eq!(pixel(&gpu, 0, 0), LIGHT);
    assert_eq!(pixel(&gpu, 7, 0), LIGHT);
}

#[test]
fn transparent_pixels_do_not_hide_a_sprite_further_right() {
    let mut gpu = screen(0x93);
    gpu.write_byte(0x8020, 0xF0);
    fill_tile(&mut gpu, 3, 3);
    sprite(&mut gpu, 0, 16, 8, 2, 0x00);
    sprite(&mut gpu, 1, 16, 8 + 2, 3, 0x00);
    paint_line(&mut gpu);
    assert_eq!(pixel(&gpu, 1, 0), LIGHT);
    assert_eq!(pixel(&gpu, 2, 0), LIGHT);
    assert_eq!(pixel(&gpu, 3, 0), LIGHT);
    assert_eq!(pixel(&gpu, 4, 0), BLACK);
    assert_eq!(pixel(&gpu, 9, 0), BLACK);
    assert_eq!(pixel(&gpu, 10, 0), WHITE);
}

#[test]
fn sprite_at_the_left_edge_is_clipped() {
    let mut gpu = screen(0x93);
    fill_tile(&mut gpu, 2, 3);
    sprite(&mut gpu, 0, 16, 3, 2, 0x00);
    sprite(&mut gpu, 1, 16, 0, 2, 0x00);
    sprite(&mut gpu, 2, 16, 165, 2, 0x00);
    sprite(&mut gpu, 3, 16, 168, 2, 0x00);
    paint_line(&mut gpu);
    assert_eq!(pixel(&gpu, 0, 0), BLACK);
    assert_eq!(pixel(&gpu, 2, 0), BLACK);
    assert_eq!(pixel(&gpu, 3, 0), WHITE);
    assert_eq!(pixel(&gpu, 156, 0), WHITE);
    assert_eq!(pixel(&gpu, 157, 0), BLACK);
    assert_eq!(pixel(&gpu, 159, 0), BLACK);
}

#[test]
fn sprites_are_not_painted_when_switched_off() {
    let mut gpu = screen(0x91);
    fill_tile(&mut gpu, 2, 3);
    sprite(&mut gpu, 0, 16, 8, 2, 0x00);
    paint_line(&mut gpu);
    assert_eq!(pixel(&gpu, 0, 0), WHITE);
}

#[test]
fn line_without_background_keeps_its_pixels() {
    let mut gpu = screen(0x92);
    fill_tile(&mut gpu, 0, 3);
    fill_tile(&mut gpu, 2, 3);
    sprite(&mut gpu, 0, 16, 8 + 8, 2, 0x00);
    paint_line(&mut gpu);
    assert_eq!(pixel(&gpu, 0, 0), WHITE);
    assert_eq!(pixel(&gpu, 8, 0), BLACK);
}

#[test]
fn color_machine_takes_palette_and_flips_from_the_attributes() {
    let mut gpu = GPU::new(Target::GameBoyColor);
    gpu.set_modes(true, false);
    gpu.write_byte(0xFF68, 0x88);
    for b in [0x1Fu8, 0x00, 0xE0, 0x03, 0x00, 0x7C, 0xFF, 0x7F] {
        gpu.write_byte(0xFF69, b);
    }
    gpu.write_byte(0x8010, 0x80);
    gpu.write_byte(0x8011, 0x80);
    gpu.write_byte(0x9800, 1);
    gpu.write_byte(0x9801, 1);
    gpu.write_byte(0xFF4F, 1);
    gpu.write_byte(0x9800, 0x01);
    gpu.write_byte(0x9801, 0x21);
    gpu.write_byte(0xFF4F, 0);
    gpu.write_byte(0xFF40, 0x91);
    paint_line(&mut gpu);
    assert_eq!(pixel(&gpu, 0, 0), [248, 248, 248, 255]);
    assert_eq!(pixel(&gpu, 1, 0), [248, 0, 0, 255]);
    assert_eq!(pixel(&gpu, 8, 0), [248, 0, 0, 255]);
    assert_eq!(pixel(&gpu, 15, 0), [248, 248, 248, 255]);
}

#[test]
fn clear_paints_the_screen_white() {
    let mut gpu = screen(0x91);
    fill_tile(&mut gpu, 0, 3);
    paint_line(&mut gpu);
    assert_eq!(pixel(&gpu, 0, 0), BLACK);
    gpu.clear();
    assert!(gpu.image_data().iter().all(|b| *b == 0xFF));
}

#[test]
fn shades_of_the_monochrome_screen() {
    assert_eq!(shade(0), Color { r: 255, g: 255, b: 255, a: 255 });
    assert_eq!(shade(1), Color { r: 192, g: 192, b: 192, a: 255 });
    assert_eq!(shade(2), Color { r: 96, g: 96, b: 96, a: 255 });
    assert_eq!(shade(3), Color { r: 0, g: 0, b: 0, a: 255 });
    assert_eq!(update_palette(0xE4), vec![shade(0), shade(1), shade(2), shade(3)]);
    assert_eq!(update_palette(0x1B), vec![shade(3), shade(2), shade(1), shade(0)]);
}

#[test]
fn color_palette_bytes_hold_five_bits_per_channel() {
    let mut mem = vec![0u8; 64];
    mem[2] = 0x1F;
    mem[3] = 0x00;
    mem[4] = 0xE0;
    mem[5] = 0x03;
    mem[6] = 0x00;
    mem[7] = 0x7C;
    mem[8] = 0xFF;
    mem[9] = 0xFF;
    assert_eq!(update_cgb_palette(&mem, 2), Color { r: 248, g: 0, b: 0, a: 255 });
    assert_eq!(update_cgb_palette(&mem, 3), Color { r: 248, g: 0, b: 0, a: 255 });
    assert_eq!(update_cgb_palette(&mem, 4), Color { r: 0, g: 248, b: 0, a: 255 });
    assert_eq!(update_cgb_palette(&mem, 7), Color { r: 0, g: 0, b: 248, a: 255 });
    assert_eq!(update_cgb_palette(&mem, 8), Color { r: 248, g: 248, b: 248, a: 255 });
    assert_eq!(update_cgb_palette(&mem, 0), Color { r: 0, g: 0, b: 0, a: 255 });
    assert_eq!(update_cgb_palette(&mem, 64 + 5), Color { r: 0, g: 248, b: 0, a: 255 });
}

#[test]
fn palettes_start_transparent() {
    let pal = Palettes::new();
    let clear = Color { r: 0, g: 0, b: 0, a: 0 };
    assert_eq!(pal.shade_color(Shades::Background, 0), clear);
    assert_eq!(pal.shade_color(Shades::Object1, 3), clear);
    assert_eq!(pal.cgb_bg_color(0, 0), Color { r: 255, g: 255, b: 255, a: 255 });
    assert_eq!(pal.cgb_obj_color(7, 3), Color { r: 0, g: 0, b: 0, a: 255 });
    assert_eq!(pal.sgb_map(0, Color { r: 255, g: 255, b: 255, a: 255 }), Color { r: 0, g: 0, b: 0, a: 255 });
    assert_eq!(pal.sgb_map(359, clear), Color { r: 0, g: 0, b: 0, a: 255 });
    assert_eq!(pal.sgb_map(1, Color { r: 1, g: 0, b: 0, a: 0 }), clear);
}
