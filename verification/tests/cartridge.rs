use rustboy::mem::cartridge::{Cartridge, LoadError, MBC};
use rustboy::Target;

/// An image with a header of the given type and size codes: `banks` banks
/// of zeros, the first byte of each bank holding the number of the bank.
fn image(kind: u8, rom_code: u8, ram_code: u8, banks: usize) -> Vec<u8> {
    let mut rom = vec![0u8; banks * 0x4000];
    for bank in 0..banks {
        rom[bank * 0x4000] = bank as u8;
    }
    rom[0x0147] = kind;
    rom[0x0148] = rom_code;
    rom[0x0149] = ram_code;
    rom
}

fn load(kind: u8, rom_code: u8, ram_code: u8, banks: usize) -> Cartridge {
    match Cartridge::from_bytes(image(kind, rom_code, ram_code, banks), None) {
        Ok(cart) => cart,
        Err(e) => panic!("image refused: {:?}", e),
    }
}

fn refusal(rom: Vec<u8>, save: Option<Vec<u8>>) -> LoadError {
    match Cartridge::from_bytes(rom, save) {
        Ok(_) => panic!("image accepted"),
        Err(e) => e,
    }
}

#[test]
fn mbc1_without_ram_starts_on_bank_one_with_ram_disabled() {
    let cart = load(0x01, 0x00, 0x00, 2);
    assert_eq!(cart.mbc(), MBC::MBC1);
    assert_eq!(cart.rom_bank(), 1);
    assert_eq!(cart.rom_bank_count(), 2);
    assert!(!cart.ram_enabled());
    assert!(!cart.has_battery());
    assert_eq!(cart.ram_image().len(), 0);
}

#[test]
fn selecting_bank_two_reads_the_first_byte_of_bank_two() {
    let mut cart = load(0x01, 0x01, 0x00, 4);
    cart.write_rom(0x2000, 0x02);
    assert_eq!(cart.rom_bank(), 2);
    assert_eq!(cart.read_rom(0x4000), 2);
}

#[test]
fn a_bank_beyond_the_image_reads_open_bus() {
    let mut cart = load(0x01, 0x00, 0x00, 2);
    cart.write_rom(0x2000, 0x02);
    assert_eq!(cart.rom_bank(), 2);
    assert_eq!(cart.read_rom(0x4000), 0xFF);
    assert_eq!(cart.read_rom(0x7FFF), 0xFF);
}

#[test]
fn every_bank_of_the_image_can_be_read() {
    let mut cart = load(0x11, 0x03, 0x00, 16);
    for bank in 1..16u8 {
        cart.write_rom(0x2000, bank);
        assert_eq!(cart.read_rom(0x4000), bank);
        assert_eq!(cart.read_rom(0x0000), 0);
    }
}

#[test]
fn selecting_bank_zero_gives_bank_one() {
    let mut mbc1 = load(0x01, 0x01, 0x00, 4);
    mbc1.write_rom(0x2000, 0x03);
    mbc1.write_rom(0x2000, 0x00);
    assert_eq!(mbc1.rom_bank(), 1);
    mbc1.write_rom(0x3FFF, 0x20);
    assert_eq!(mbc1.rom_bank(), 1);
    let mut mbc3 = load(0x11, 0x01, 0x00, 4);
    mbc3.write_rom(0x2000, 0x03);
    mbc3.write_rom(0x2000, 0x00);
    assert_eq!(mbc3.rom_bank(), 1);
    mbc3.write_rom(0x2000, 0x80);
    assert_eq!(mbc3.rom_bank(), 1);
}

#[test]
fn mbc1_upper_bits_extend_the_rom_bank() {
    let mut cart = load(0x01, 0x05, 0x00, 64);
    cart.write_rom(0x2000, 0x05);
    cart.write_rom(0x4000, 0x01);
    assert_eq!(cart.rom_bank(), 0x25);
    assert_eq!(cart.read_rom(0x4000), 0x25);
    cart.write_rom(0x2000, 0x1F);
    assert_eq!(cart.rom_bank(), 0x3F);
    cart.write_rom(0x2000, 0x00);
    assert_eq!(cart.rom_bank(), 0x20);
    cart.write_rom(0x4000, 0x00);
    assert_eq!(cart.rom_bank(), 1);
}

#[test]
fn mbc1_banking_mode_turns_the_upper_bits_to_the_ram() {
    let mut cart = load(0x03, 0x01, 0x03, 4);
    cart.write_rom(0x6000, 0x01);
    cart.write_rom(0x4000, 0x02);
    assert_eq!(cart.ram_bank(), 2);
    assert_eq!(cart.rom_bank(), 1);
    cart.write_rom(0x6000, 0x00);
    cart.write_rom(0x4000, 0x03);
    assert_eq!(cart.ram_bank(), 2);
    assert_eq!(cart.rom_bank(), 0x61);
}

#[test]
fn mbc2_listens_to_bit_8_of_the_address() {
    let mut cart = load(0x05, 0x01, 0x00, 4);
    assert_eq!(cart.mbc(), MBC::MBC2);
    cart.write_rom(0x2000, 0x03);
    assert_eq!(cart.rom_bank(), 1);
    cart.write_rom(0x2100, 0x13);
    assert_eq!(cart.rom_bank(), 3);
    cart.write_rom(0x2100, 0x00);
    assert_eq!(cart.rom_bank(), 0);
    assert_eq!(cart.read_rom(0x4000), 0);
    assert!(cart.ram_enabled());
    cart.write_rom(0x0100, 0x00);
    assert!(cart.ram_enabled());
    cart.write_rom(0x0000, 0x00);
    assert!(!cart.ram_enabled());
    cart.write_rom(0x0000, 0x00);
    assert!(cart.ram_enabled());
}

#[test]
fn mbc2_ram_has_256_bytes_of_four_bits() {
    let mut cart = load(0x06, 0x01, 0x00, 4);
    assert_eq!(cart.ram_image().len(), 256);
    assert!(cart.has_battery());
    cart.write_ram(0xA000, 0xAB);
    assert_eq!(cart.read_ram(0xA000), 0x0B);
    assert_eq!(cart.read_ram(0xA100), 0xFF);
}

#[test]
fn mbc5_selects_nine_bits_in_two_registers() {
    let mut cart = load(0x19, 0x06, 0x00, 128);
    assert_eq!(cart.mbc(), MBC::MBC5);
    cart.write_rom(0x2000, 0x7F);
    assert_eq!(cart.rom_bank(), 0x7F);
    assert_eq!(cart.read_rom(0x4000), 0x7F);
    cart.write_rom(0x3000, 0x01);
    assert_eq!(cart.rom_bank(), 0x17F);
    assert_eq!(cart.read_rom(0x4000), 0xFF);
    cart.write_rom(0x2000, 0x00);
    assert_eq!(cart.rom_bank(), 0x100);
    cart.write_rom(0x3000, 0x00);
    assert_eq!(cart.rom_bank(), 0);
    assert_eq!(cart.read_rom(0x4000), 0);
    cart.write_rom(0x4000, 0x0F);
    assert_eq!(cart.ram_bank(), 15);
}

#[test]
fn rom_only_ignores_every_command() {
    let mut cart = load(0x00, 0x00, 0x00, 2);
    assert_eq!(cart.mbc(), MBC::ROM);
    for addr in [0x0000u16, 0x2000, 0x4000, 0x6000, 0x7FFF] {
        cart.write_rom(addr, 0xFF);
    }
    assert_eq!(cart.rom_bank(), 1);
    assert_eq!(cart.ram_bank(), 0);
    assert!(!cart.ram_enabled());
    assert_eq!(cart.read_rom(0x4000), 1);
}

#[test]
fn ram_enable_follows_the_low_nibble() {
    let mut cart = load(0x13, 0x01, 0x03, 4);
    assert!(cart.ram_enabled());
    cart.write_rom(0x0000, 0x00);
    assert!(!cart.ram_enabled());
    assert_eq!(cart.read_ram(0xA000), 0xFF);
    cart.write_ram(0xA000, 0x12);
    cart.write_rom(0x1FFF, 0x3A);
    assert!(cart.ram_enabled());
    assert_eq!(cart.read_ram(0xA000), 0x00);
    cart.write_ram(0xA000, 0x12);
    assert_eq!(cart.read_ram(0xA000), 0x12);
}

#[test]
fn ram_banks_are_eight_kib_apart() {
    let mut cart = load(0x13, 0x01, 0x03, 4);
    assert_eq!(cart.ram_image().len(), 0x8000);
    cart.write_ram(0xA000, 0x11);
    cart.write_ram(0xBFFF, 0x1F);
    cart.write_rom(0x4000, 0x01);
    assert_eq!(cart.read_ram(0xA000), 0x00);
    cart.write_ram(0xA000, 0x22);
    cart.write_rom(0x4000, 0x00);
    assert_eq!(cart.read_ram(0xA000), 0x11);
    assert_eq!(cart.ram_image()[0x0000], 0x11);
    assert_eq!(cart.ram_image()[0x1FFF], 0x1F);
    assert_eq!(cart.ram_image()[0x2000], 0x22);
}

#[test]
fn small_ram_reads_open_bus_behind_its_end() {
    let mut cart = load(0x02, 0x01, 0x01, 4);
    assert_eq!(cart.ram_image().len(), 0x800);
    cart.write_ram(0xA7FF, 0x33);
    cart.write_ram(0xA800, 0x44);
    assert_eq!(cart.read_ram(0xA7FF), 0x33);
    assert_eq!(cart.read_ram(0xA800), 0xFF);
}

#[test]
fn addresses_outside_the_rom_window_read_open_bus() {
    let mut cart = load(0x01, 0x00, 0x00, 2);
    assert_eq!(cart.read_rom(0x8000), 0xFF);
    assert_eq!(cart.read_rom(0xFFFF), 0xFF);
    cart.write_rom(0x8000, 0x02);
    assert_eq!(cart.rom_bank(), 1);
}

#[test]
fn rom_size_codes() {
    let codes: [(u8, u8); 10] = [
        (0x00, 2),
        (0x01, 4),
        (0x02, 8),
        (0x03, 16),
        (0x04, 32),
        (0x05, 64),
        (0x06, 128),
        (0x52, 72),
        (0x53, 80),
        (0x54, 96),
    ];
    for (code, banks) in codes {
        assert_eq!(Cartridge::rom_banks(code), Some(banks));
    }
    assert_eq!(Cartridge::rom_banks(0x07), None);
    assert_eq!(Cartridge::rom_banks(0x51), None);
}

#[test]
fn ram_size_codes() {
    assert_eq!(Cartridge::ram_banks(MBC::MBC1, 0x00), Some((0, 0)));
    assert_eq!(Cartridge::ram_banks(MBC::MBC1, 0x01), Some((1, 0x800)));
    assert_eq!(Cartridge::ram_banks(MBC::MBC1, 0x02), Some((1, 0x2000)));
    assert_eq!(Cartridge::ram_banks(MBC::MBC3, 0x03), Some((4, 0x2000)));
    assert_eq!(Cartridge::ram_banks(MBC::MBC5, 0x04), Some((16, 0x2000)));
    assert_eq!(Cartridge::ram_banks(MBC::MBC5, 0x05), None);
    assert_eq!(Cartridge::ram_banks(MBC::MBC2, 0x05), Some((1, 256)));
}

#[test]
fn type_codes() {
    for code in [0x00u8, 0x08, 0x09] {
        assert_eq!(Cartridge::mbc_kind(code), Some(MBC::ROM));
    }
    for code in [0x01u8, 0x02, 0x03] {
        assert_eq!(Cartridge::mbc_kind(code), Some(MBC::MBC1));
    }
    for code in [0x05u8, 0x06] {
        assert_eq!(Cartridge::mbc_kind(code), Some(MBC::MBC2));
    }
    for code in [0x0Fu8, 0x10, 0x11, 0x12, 0x13] {
        assert_eq!(Cartridge::mbc_kind(code), Some(MBC::MBC3));
    }
    for code in [0x19u8, 0x1A, 0x1B, 0x1C, 0x1D, 0x1E] {
        assert_eq!(Cartridge::mbc_kind(code), Some(MBC::MBC5));
    }
    for code in [0x04u8, 0x07, 0x0A, 0x14, 0x18, 0x1F, 0xFF] {
        assert_eq!(Cartridge::mbc_kind(code), None);
    }
}

#[test]
fn short_image_is_refused() {
    assert_eq!(refusal(vec![0u8; 0x14F], None), LoadError::HeaderMissing);
    assert_eq!(refusal(Vec::new(), None), LoadError::HeaderMissing);
}

#[test]
fn unknown_type_is_refused() {
    assert_eq!(refusal(image(0x04, 0x00, 0x00, 2), None), LoadError::UnknownType(0x04));
}

#[test]
fn unknown_rom_size_is_refused() {
    assert_eq!(refusal(image(0x00, 0x07, 0x00, 2), None), LoadError::UnknownRomSize(0x07));
}

#[test]
fn unknown_ram_size_is_refused() {
    assert_eq!(refusal(image(0x01, 0x00, 0x05, 2), None), LoadError::UnknownRamSize(0x05));
}

#[test]
fn truncated_image_is_refused() {
    assert_eq!(refusal(image(0x01, 0x01, 0x00, 3), None), LoadError::Truncated);
    assert_eq!(refusal(image(0x00, 0x00, 0x00, 1), None), LoadError::Truncated);
}

#[test]
fn save_of_another_size_is_refused() {
    assert_eq!(
        refusal(image(0x03, 0x00, 0x02, 2), Some(vec![0u8; 0x1FFF])),
        LoadError::SaveSizeMismatch
    );
}

#[test]
fn errors_come_in_the_order_of_the_checks() {
    assert_eq!(refusal(image(0x04, 0x07, 0x05, 1), None), LoadError::UnknownType(0x04));
    assert_eq!(refusal(image(0x01, 0x07, 0x05, 1), None), LoadError::UnknownRomSize(0x07));
    assert_eq!(refusal(image(0x01, 0x01, 0x05, 1), None), LoadError::UnknownRamSize(0x05));
    assert_eq!(
        refusal(image(0x03, 0x01, 0x02, 1), Some(vec![0u8; 3])),
        LoadError::Truncated
    );
}

#[test]
fn bytes_behind_the_declared_banks_are_dropped() {
    let cart = match Cartridge::from_bytes(image(0x00, 0x00, 0x00, 3), None) {
        Ok(cart) => cart,
        Err(e) => panic!("image refused: {:?}", e),
    };
    assert_eq!(cart.rom_len(), 0x8000);
    assert_eq!(cart.rom_bank_count(), 2);
}

#[test]
fn saved_ram_is_taken_over() {
    let mut save = vec![0u8; 0x2000];
    save[0] = 0x99;
    save[0x1FFF] = 0x77;
    let cart = match Cartridge::from_bytes(image(0x03, 0x00, 0x02, 2), Some(save)) {
        Ok(cart) => cart,
        Err(e) => panic!("image refused: {:?}", e),
    };
    assert!(cart.ram_enabled());
    assert!(cart.has_battery());
    assert_eq!(cart.read_ram(0xA000), 0x99);
    assert_eq!(cart.read_ram(0xBFFF), 0x77);
}

#[test]
fn empty_save_gives_zero_filled_ram() {
    let cart = match Cartridge::from_bytes(image(0x03, 0x00, 0x02, 2), Some(Vec::new())) {
        Ok(cart) => cart,
        Err(e) => panic!("image refused: {:?}", e),
    };
    assert_eq!(cart.ram_image().len(), 0x2000);
    assert!(cart.ram_image().iter().all(|b| *b == 0));
}

#[test]
fn save_is_ignored_without_ram() {
    let cart = match Cartridge::from_bytes(image(0x01, 0x00, 0x00, 2), Some(vec![1, 2, 3])) {
        Ok(cart) => cart,
        Err(e) => panic!("image refused: {:?}", e),
    };
    assert_eq!(cart.ram_image().len(), 0);
    assert!(!cart.ram_enabled());
}

#[test]
fn title_ends_at_the_first_zero_byte() {
    let mut rom = image(0x00, 0x00, 0x00, 2);
    for (i, b) in b"TETRIS".iter().enumerate() {
        rom[0x0134 + i] = *b;
    }
    let cart = Cartridge::from_bytes(rom, None).ok().unwrap();
    assert_eq!(cart.get_title(), "TETRIS");
}

#[test]
fn title_has_at_most_sixteen_characters() {
    let mut rom = image(0x00, 0x00, 0x00, 2);
    for i in 0..16 {
        rom[0x0134 + i] = b'A' + i as u8;
    }
    rom[0x0144] = b'Z';
    let cart = Cartridge::from_bytes(rom, None).ok().unwrap();
    assert_eq!(cart.get_title(), "ABCDEFGHIJKLMNOP");
}

#[test]
fn title_of_an_image_without_one_is_empty() {
    let cart = load(0x00, 0x00, 0x00, 2);
    assert_eq!(cart.get_title(), "");
}

#[test]
fn target_follows_the_header() {
    let plain = load(0x00, 0x00, 0x00, 2);
    assert_eq!(plain.get_target(), Target::GameBoy);
    let mut rom = image(0x00, 0x00, 0x00, 2);
    rom[0x0146] = 0x03;
    let sgb = Cartridge::from_bytes(rom, None).ok().unwrap();
    assert_eq!(sgb.get_target(), Target::SuperGameBoy);
    let mut rom = image(0x00, 0x00, 0x00, 2);
    rom[0x0143] = 0x80;
    rom[0x0146] = 0x03;
    let cgb = Cartridge::from_bytes(rom, None).ok().unwrap();
    assert_eq!(cgb.get_target(), Target::GameBoyColor);
}

#[test]
fn empty_slot_reads_open_bus() {
    let mut cart = Cartridge::empty();
    assert_eq!(cart.mbc(), MBC::Unknown);
    assert_eq!(cart.read_rom(0x0000), 0xFF);
    assert_eq!(cart.read_rom(0x4000), 0xFF);
    assert_eq!(cart.read_ram(0xA000), 0xFF);
    cart.write_rom(0x2000, 0x05);
    cart.write_ram(0xA000, 0x05);
    assert_eq!(cart.rom_bank(), 1);
    assert_eq!(cart.read_ram(0xA000), 0xFF);
}
