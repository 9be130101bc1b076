//! The cartridge: the ROM image, the optional RAM, and the bank controller
//! that maps the two windows of the bus onto them.

use vstd::prelude::*;
use crate::Target;

verus! {

/// Size of one ROM bank in bytes.
pub const ROM_BANK_SIZE: usize = 0x4000;

/// Size of one RAM bank in bytes.
pub const RAM_BANK_SIZE: usize = 0x2000;

/// First byte of the title in the header.
pub const TITLE: usize = 0x0134;

/// Header byte whose bit 7 marks a cartridge made for the color machine.
pub const TARGET_CGB: usize = 0x0143;

/// Header byte that marks a cartridge with functions of the Super Game Boy.
pub const TARGET_SGB: usize = 0x0146;

/// Header byte that names the bank controller.
pub const TYPE: usize = 0x0147;

/// Header byte that encodes the size of the ROM.
pub const ROM_SIZE: usize = 0x0148;

/// Header byte that encodes the size of the RAM.
pub const RAM_SIZE: usize = 0x0149;

/// Length of the shortest image that holds a whole header.
pub const HEADER_END: usize = 0x0150;

/// Value that a read returns where nothing is mapped.
pub const OPEN_BUS: u8 = 0xFF;

/// The kinds of bank controller.
#[derive(Debug, Clone, Copy, PartialEq, Eq, Structural)]
pub enum MBC {
    /// No cartridge is inserted.
    Unknown,
    ROM,
    MBC1,
    MBC2,
    MBC3,
    MBC5,
}

/// Why an image was refused.
#[derive(Debug, Clone, Copy, PartialEq, Eq, Structural)]
pub enum LoadError {
    /// The image ends before its header does.
    HeaderMissing,
    /// The header names a controller that is not known.
    UnknownType(u8),
    /// The header's ROM-size code is not known.
    UnknownRomSize(u8),
    /// The header's RAM-size code is not known.
    UnknownRamSize(u8),
    /// The image is shorter than the banks its header declares.
    Truncated,
    /// The saved RAM has another length than the header declares.
    SaveSizeMismatch,
}

/// A cartridge as the bus sees it.
pub struct Cartridge {
    rom: Vec<u8>,
    ram: Vec<u8>,
    rom_banks: u8,
    rom_bank: u16,
    ram_enabled: bool,
    ram_bank: u8,
    mbc: MBC,
    bank_mode: bool,
    battery: bool,
}

/// The mathematical model of a cartridge.
pub struct CartridgeView {
    /// The ROM image, whole banks only.
    pub rom: Seq<u8>,
    /// The RAM, empty where the cartridge has none.
    pub ram: Seq<u8>,
    /// Number of ROM banks.
    pub rom_banks: u8,
    /// ROM bank mapped at `0x4000`.
    pub rom_bank: u16,
    /// Whether reads and writes reach the RAM.
    pub ram_enabled: bool,
    /// RAM bank mapped at `0xA000`.
    pub ram_bank: u8,
    pub mbc: MBC,
    /// MBC1 only: whether the upper select bits choose the RAM bank
    /// (`true`) or extend the ROM bank (`false`).
    pub bank_mode: bool,
    /// Whether a battery keeps the RAM.
    pub battery: bool,
}

/// The controller that a type byte of the header names.
pub open spec fn mbc_of(code: u8) -> Option<MBC> {
    if code == 0x00 || code == 0x08 || code == 0x09 {
        Some(MBC::ROM)
    } else if code == 0x01 || code == 0x02 || code == 0x03 {
        Some(MBC::MBC1)
    } else if code == 0x05 || code == 0x06 {
        Some(MBC::MBC2)
    } else if code == 0x0F || code == 0x10 || code == 0x11 || code == 0x12 || code == 0x13 {
        Some(MBC::MBC3)
    } else if 0x19 <= code <= 0x1E {
        Some(MBC::MBC5)
    } else {
        None
    }
}

/// Whether a type byte of the header names a cartridge with a battery.
pub open spec fn battery_of(code: u8) -> bool {
    code == 0x03 || code == 0x06 || code == 0x09 || code == 0x0F || code == 0x10 || code == 0x13
        || code == 0x1B || code == 0x1E
}

/// The number of ROM banks that a size code of the header declares.
pub open spec fn rom_banks_of(code: u8) -> Option<u8> {
    if code <= 0x06 {
        Some((2 * pow2_small(code)) as u8)
    } else if code == 0x52 {
        Some(72)
    } else if code == 0x53 {
        Some(80)
    } else if code == 0x54 {
        Some(96)
    } else {
        None
    }
}

/// Two to the power `k`, for `k` up to 6.
pub open spec fn pow2_small(k: u8) -> int {
    if k == 0 {
        1
    } else if k == 1 {
        2
    } else if k == 2 {
        4
    } else if k == 3 {
        8
    } else if k == 4 {
        16
    } else if k == 5 {
        32
    } else {
        64
    }
}

/// The number of RAM bytes that a controller and a size code declare.
/// An MBC2 carries 256 bytes of its own whatever the code says.
pub open spec fn ram_size_of(mbc: MBC, code: u8) -> Option<int> {
    if mbc == MBC::MBC2 {
        Some(256)
    } else if code == 0x00 {
        Some(0)
    } else if code == 0x01 {
        Some(0x800)
    } else if code == 0x02 {
        Some(0x2000)
    } else if code == 0x03 {
        Some(0x8000)
    } else if code == 0x04 {
        Some(0x2_0000)
    } else {
        None
    }
}

/// The ROM bank that a controller maps at `0x4000` after a write of `val`
/// at `addr` in `0x2000..0x6000`, given the bank it mapped before.
///
/// The MBC1 and the MBC3 never map bank 0 there: where the selected index
/// is 0, bank 1 is mapped.
pub open spec fn select_rom_bank(mbc: MBC, bank_mode: bool, bank: u16, addr: u16, val: u8) -> u16 {
    let low = 0x2000 <= addr < 0x4000;
    let picked: int = match mbc {
        MBC::MBC1 => if low {
            ((bank / 32) % 4) * 32 + val % 32
        } else if !bank_mode {
            bank % 32 + (val % 4) * 32
        } else {
            bank as int
        },
        MBC::MBC2 => if low && (addr / 256) % 2 == 1 {
            val as int % 16
        } else {
            bank as int
        },
        MBC::MBC3 => if low {
            val as int % 128
        } else {
            bank as int
        },
        MBC::MBC5 => if 0x2000 <= addr < 0x3000 {
            (bank / 256) * 256 + val
        } else if low {
            bank % 256 + (val % 2) * 256
        } else {
            bank as int
        },
        _ => bank as int,
    };
    if (mbc == MBC::MBC1 || mbc == MBC::MBC3) && picked == 0 {
        1
    } else {
        picked as u16
    }
}

/// The RAM bank that a controller maps at `0xA000` after a write of `val`
/// at an address in `0x4000..0x6000`, given the bank it mapped before.
pub open spec fn select_ram_bank(mbc: MBC, bank_mode: bool, bank: u8, val: u8) -> u8 {
    match mbc {
        MBC::MBC1 => if bank_mode {
            val % 4
        } else {
            bank
        },
        MBC::MBC3 => val % 4,
        MBC::MBC5 => val % 16,
        _ => bank,
    }
}

/// Whether the RAM is enabled after a write of `val` at `addr` in `0..0x2000`.
pub open spec fn select_ram_enable(mbc: MBC, enabled: bool, addr: u16, val: u8) -> bool {
    match mbc {
        MBC::MBC1 | MBC::MBC3 | MBC::MBC5 => val % 16 == 0x0A,
        MBC::MBC2 => if (addr / 256) % 2 == 0 {
            !enabled
        } else {
            enabled
        },
        _ => enabled,
    }
}

impl CartridgeView {
    /// The image holds whole banks, as many as declared, and the bank
    /// registers are in range.
    pub open spec fn wf(self) -> bool {
        &&& self.rom.len() == self.rom_banks * ROM_BANK_SIZE
        &&& self.rom_bank < 512
        &&& self.ram_bank < 16
        &&& (self.mbc == MBC::MBC1 || self.mbc == MBC::MBC3) ==> self.rom_bank != 0
    }

    /// Offset into the image of the byte that the bus sees at `addr`, for
    /// `addr` below `0x8000`: bank 0 in the lower half, the selected bank in
    /// the upper half.
    pub open spec fn rom_offset(self, addr: u16) -> int {
        if addr < 0x4000 {
            addr as int
        } else {
            self.rom_bank * ROM_BANK_SIZE + (addr - 0x4000)
        }
    }

    /// The byte that the bus reads at a ROM address; `OPEN_BUS` where the
    /// image has no byte.
    pub open spec fn read_rom(self, addr: u16) -> u8 {
        if addr < 0x8000 && self.rom_offset(addr) < self.rom.len() {
            self.rom[self.rom_offset(addr)]
        } else {
            OPEN_BUS
        }
    }

    /// The cartridge after the bus writes `val` at a ROM address, which
    /// commands the bank controller.
    pub open spec fn write_rom(self, addr: u16, val: u8) -> CartridgeView {
        if addr < 0x2000 {
            CartridgeView {
                ram_enabled: select_ram_enable(self.mbc, self.ram_enabled, addr, val),
                ..self
            }
        } else if addr < 0x6000 {
            CartridgeView {
                rom_bank: select_rom_bank(self.mbc, self.bank_mode, self.rom_bank, addr, val),
                ram_bank: if addr < 0x4000 {
                    self.ram_bank
                } else {
                    select_ram_bank(self.mbc, self.bank_mode, self.ram_bank, val)
                },
                ..self
            }
        } else if addr < 0x8000 {
            CartridgeView {
                bank_mode: if self.mbc == MBC::MBC1 {
                    val % 2 == 1
                } else {
                    self.bank_mode
                },
                ..self
            }
        } else {
            self
        }
    }

    /// Offset into the RAM of the byte that the bus sees at `addr`.
    pub open spec fn ram_offset(self, addr: u16) -> int {
        self.ram_bank * RAM_BANK_SIZE + addr % 0x2000
    }

    /// Whether an access at `addr` reaches a byte of the RAM.
    pub open spec fn ram_mapped(self, addr: u16) -> bool {
        self.ram_enabled && self.ram_offset(addr) < self.ram.len()
    }

    /// The byte that the bus reads at a RAM address; `OPEN_BUS` while the
    /// RAM is disabled or where it has no byte.
    pub open spec fn read_ram(self, addr: u16) -> u8 {
        if self.ram_mapped(addr) {
            self.ram[self.ram_offset(addr)]
        } else {
            OPEN_BUS
        }
    }

    /// The cartridge after the bus writes `val` at a RAM address. The RAM
    /// of an MBC2 keeps the low four bits only.
    pub open spec fn write_ram(self, addr: u16, val: u8) -> CartridgeView {
        if self.ram_mapped(addr) {
            CartridgeView {
                ram: self.ram.update(
                    self.ram_offset(addr),
                    if self.mbc == MBC::MBC2 {
                        val % 16
                    } else {
                        val
                    },
                ),
                ..self
            }
        } else {
            self
        }
    }

    /// The machine that the header asks for.
    pub open spec fn target(self) -> Target
        recommends
            self.rom.len() >= HEADER_END,
    {
        if self.rom[TARGET_CGB as int] >= 0x80 {
            Target::GameBoyColor
        } else if self.rom[TARGET_SGB as int] % 4 != 0 {
            Target::SuperGameBoy
        } else {
            Target::GameBoy
        }
    }

    /// The cartridge that stands for an empty slot.
    pub open spec fn empty() -> CartridgeView {
        CartridgeView {
            rom: Seq::empty(),
            ram: Seq::empty(),
            rom_banks: 0,
            rom_bank: 1,
            ram_enabled: false,
            ram_bank: 0,
            mbc: MBC::Unknown,
            bank_mode: false,
            battery: false,
        }
    }
}

/// Why an image with an optional saved RAM is refused, if it is. The checks
/// come in the order of the variants of `LoadError`.
pub open spec fn load_error(rom: Seq<u8>, save: Option<Seq<u8>>) -> Option<LoadError> {
    if rom.len() < HEADER_END {
        Some(LoadError::HeaderMissing)
    } else if mbc_of(rom[TYPE as int]) is None {
        Some(LoadError::UnknownType(rom[TYPE as int]))
    } else if rom_banks_of(rom[ROM_SIZE as int]) is None {
        Some(LoadError::UnknownRomSize(rom[ROM_SIZE as int]))
    } else if ram_size_of(mbc_of(rom[TYPE as int])->0, rom[RAM_SIZE as int]) is None {
        Some(LoadError::UnknownRamSize(rom[RAM_SIZE as int]))
    } else if rom.len() < rom_banks_of(rom[ROM_SIZE as int])->0 * ROM_BANK_SIZE {
        Some(LoadError::Truncated)
    } else if save is Some && save->0.len() != 0 && save->0.len() != ram_size_of(
        mbc_of(rom[TYPE as int])->0,
        rom[RAM_SIZE as int],
    )->0 && ram_size_of(mbc_of(rom[TYPE as int])->0, rom[RAM_SIZE as int])->0 != 0 {
        Some(LoadError::SaveSizeMismatch)
    } else {
        None
    }
}

/// The cartridge that an accepted image gives: the declared banks of the
/// image, bank 1 selected, and RAM of the declared size, enabled if there is
/// any, filled from the saved RAM or else with zeros.
pub open spec fn loaded(rom: Seq<u8>, save: Option<Seq<u8>>) -> CartridgeView
    recommends
        load_error(rom, save) is None,
{
    let mbc = mbc_of(rom[TYPE as int])->0;
    let banks = rom_banks_of(rom[ROM_SIZE as int])->0;
    let ram_size = ram_size_of(mbc, rom[RAM_SIZE as int])->0;
    CartridgeView {
        rom: rom.subrange(0, banks * ROM_BANK_SIZE),
        ram: if ram_size != 0 && save is Some && save->0.len() != 0 {
            save->0
        } else {
            Seq::new(ram_size as nat, |i: int| 0u8)
        },
        rom_banks: banks,
        rom_bank: 1,
        ram_enabled: ram_size != 0,
        ram_bank: 0,
        mbc,
        bank_mode: false,
        battery: battery_of(rom[TYPE as int]),
    }
}

/// The characters of a title: the bytes of `bytes` from `from` on, each as
/// the character with that code, up to the first zero byte or the end.
pub open spec fn title_chars(bytes: Seq<u8>, from: int) -> Seq<char>
    decreases bytes.len() - from,
{
    if from < 0 || from >= bytes.len() || bytes[from] == 0 {
        Seq::empty()
    } else {
        seq![bytes[from] as char] + title_chars(bytes, from + 1)
    }
}

/// The model of an optional saved RAM.
pub open spec fn save_view(save: Option<Vec<u8>>) -> Option<Seq<u8>> {
    match save {
        Some(bytes) => Some(bytes@),
        None => None,
    }
}

impl View for Cartridge {
    type V = CartridgeView;

    closed spec fn view(&self) -> CartridgeView {
        CartridgeView {
            rom: self.rom@,
            ram: self.ram@,
            rom_banks: self.rom_banks,
            rom_bank: self.rom_bank,
            ram_enabled: self.ram_enabled,
            ram_bank: self.ram_bank,
            mbc: self.mbc,
            bank_mode: self.bank_mode,
            battery: self.battery,
        }
    }
}

/// Appends to `s` the character whose code is `b`.
///
/// Trusted: wraps `String::push` of the standard library, which appends the
/// given character to the end of the string.
#[verifier::external_body]
fn push_char(s: &mut String, b: u8)
    ensures
        final(s)@ == old(s)@.push(b as char),
{
    s.push(b as char);
}

impl Cartridge {
    /// The cartridge that stands for an empty slot: every read of it gives
    /// `OPEN_BUS` and every write is lost.
    pub fn empty() -> (cart: Cartridge)
        ensures
            cart@ == CartridgeView::empty(),
            cart@.wf(),
    {
        Cartridge {
            rom: Vec::new(),
            ram: Vec::new(),
            rom_banks: 0,
            rom_bank: 1,
            ram_enabled: false,
            ram_bank: 0,
            mbc: MBC::Unknown,
            bank_mode: false,
            battery: false,
        }
    }

    /// The controller that a type byte of the header names.
    pub fn mbc_kind(code: u8) -> (r: Option<MBC>)
        ensures
            r == mbc_of(code),
    {
        match code {
            0x00 | 0x08 | 0x09 => Some(MBC::ROM),
            0x01 | 0x02 | 0x03 => Some(MBC::MBC1),
            0x05 | 0x06 => Some(MBC::MBC2),
            0x11 | 0x12 | 0x0F | 0x10 | 0x13 => Some(MBC::MBC3),
            0x19 | 0x1A | 0x1C | 0x1D | 0x1B | 0x1E => Some(MBC::MBC5),
            _ => None,
        }
    }

    /// The number of ROM banks that a size code of the header declares.
    pub fn rom_banks(code: u8) -> (r: Option<u8>)
        ensures
            r == rom_banks_of(code),
    {
        match code {
            0x00 => Some(2),
            0x01 => Some(4),
            0x02 => Some(8),
            0x03 => Some(16),
            0x04 => Some(32),
            0x05 => Some(64),
            0x06 => Some(128),
            0x52 => Some(72),
            0x53 => Some(80),
            0x54 => Some(96),
            _ => None,
        }
    }

    /// The number of RAM banks that a controller and a size code declare,
    /// with the size of each bank in bytes.
    pub fn ram_banks(mbc: MBC, code: u8) -> (r: Option<(usize, usize)>)
        ensures
            match r {
                Some((n, size)) => ram_size_of(mbc, code) == Some(n * size) && n <= 16 && size
                    <= RAM_BANK_SIZE,
                None => ram_size_of(mbc, code) is None,
            },
    {
        if mbc == MBC::MBC2 {
            return Some((1, 256));
        }
        match code {
            0x00 => Some((0, 0)),
            0x01 => Some((1, 0x800)),
            0x02 => Some((1, 0x2000)),
            0x03 => Some((4, 0x2000)),
            0x04 => Some((16, 0x2000)),
            _ => None,
        }
    }

    /// Builds a cartridge from the bytes of a ROM image and, where a save
    /// file exists, the bytes of the saved RAM.
    ///
    /// The image is refused if its header is cut off or names a controller
    /// or a size that is not known, or if it is shorter than the banks it
    /// declares; bytes after the declared banks are dropped. A saved RAM is
    /// refused if it is neither empty nor of the declared size.
    pub fn from_bytes(rom: Vec<u8>, save: Option<Vec<u8>>) -> (r: Result<Cartridge, LoadError>)
        ensures
            match r {
                Ok(cart) => load_error(rom@, save_view(save)) is None && cart@ == loaded(
                    rom@,
                    save_view(save),
                ) && cart@.wf(),
                Err(e) => load_error(rom@, save_view(save)) == Some(e),
            },
    {
        let ghost image = rom@;
        let ghost saved = save_view(save);
        let mut rom = rom;
        if rom.len() < HEADER_END {
            return Err(LoadError::HeaderMissing);
        }
        let kind: u8 = rom[TYPE];
        let mbc = match Cartridge::mbc_kind(kind) {
            Some(m) => m,
            None => {
                return Err(LoadError::UnknownType(kind));
            },
        };
        let rom_code: u8 = rom[ROM_SIZE];
        let banks: u8 = match Cartridge::rom_banks(rom_code) {
            Some(n) => n,
            None => {
                return Err(LoadError::UnknownRomSize(rom_code));
            },
        };
        let ram_code: u8 = rom[RAM_SIZE];
        let ram_size: usize = match Cartridge::ram_banks(mbc, ram_code) {
            Some((n, size)) => {
                assert(n * size <= 16 * 0x2000) by (nonlinear_arith)
                    requires
                        n <= 16,
                        size <= 0x2000,
                ;
                n * size
            },
            None => {
                return Err(LoadError::UnknownRamSize(ram_code));
            },
        };
        let rom_len: usize = banks as usize * ROM_BANK_SIZE;
        if rom.len() < rom_len {
            return Err(LoadError::Truncated);
        }
        let battery = kind == 0x03 || kind == 0x06 || kind == 0x09 || kind == 0x0F || kind == 0x10
            || kind == 0x13 || kind == 0x1B || kind == 0x1E;
        let ram: Vec<u8> = if ram_size == 0 {
            Vec::new()
        } else {
            match save {
                Some(bytes) => {
                    if bytes.len() == 0 {
                        vec![0u8; ram_size]
                    } else if bytes.len() == ram_size {
                        bytes
                    } else {
                        return Err(LoadError::SaveSizeMismatch);
                    }
                },
                None => vec![0u8; ram_size],
            }
        };
        rom.truncate(rom_len);
        let cart = Cartridge {
            rom,
            ram,
            rom_banks: banks,
            rom_bank: 1,
            ram_enabled: ram_size != 0,
            ram_bank: 0,
            mbc,
            bank_mode: false,
            battery,
        };
        assert(cart@.ram =~= loaded(image, saved).ram);
        Ok(cart)
    }

    /// The machine that the header asks for.
    pub fn get_target(&self) -> (t: Target)
        requires
            self@.rom.len() >= HEADER_END,
        ensures
            t == self@.target(),
    {
        if self.rom[TARGET_CGB] >= 0x80 {
            Target::GameBoyColor
        } else if self.rom[TARGET_SGB] % 4 != 0 {
            Target::SuperGameBoy
        } else {
            Target::GameBoy
        }
    }

    /// The title of the game: up to sixteen characters of the header, ending
    /// before the first zero byte.
    pub fn get_title(&self) -> (title: String)
        requires
            self@.rom.len() >= HEADER_END,
        ensures
            title@ == title_chars(self@.rom.subrange(TITLE as int, TITLE + 16), 0),
    {
        let mut title = String::new();
        let ghost field = self.rom@.subrange(TITLE as int, TITLE + 16);
        let mut i: usize = 0;
        while i < 16 && self.rom[TITLE + i] != 0
            invariant
                i <= 16,
                self.rom@.len() >= HEADER_END,
                field == self.rom@.subrange(TITLE as int, TITLE + 16),
                title@ + title_chars(field, i as int) == title_chars(field, 0),
            decreases 16 - i,
        {
            let ghost before = title@;
            push_char(&mut title, self.rom[TITLE + i]);
            assert(title@ + title_chars(field, i + 1) =~= before + title_chars(field, i as int));
            i += 1;
        }
        assert(title_chars(field, i as int) =~= Seq::empty());
        assert(title@ + Seq::<char>::empty() =~= title@);
        title
    }

    /// Reads a byte through the ROM windows of the bus: bank 0 below
    /// `0x4000`, the selected bank from there to `0x7FFF`.
    pub fn read_rom(&self, addr: u16) -> (r: u8)
        ensures
            r == self@.read_rom(addr),
    {
        if addr < 0x4000 {
            if (addr as usize) < self.rom.len() {
                self.rom[addr as usize]
            } else {
                OPEN_BUS
            }
        } else if addr < 0x8000 {
            let offset: usize = self.rom_bank as usize * ROM_BANK_SIZE + (addr as usize - 0x4000);
            if offset < self.rom.len() {
                self.rom[offset]
            } else {
                OPEN_BUS
            }
        } else {
            OPEN_BUS
        }
    }

    /// Takes a write to a ROM address as a command to the bank controller.
    pub fn write_rom(&mut self, addr: u16, val: u8)
        requires
            old(self)@.wf(),
        ensures
            final(self)@.wf(),
            final(self)@ == old(self)@.write_rom(addr, val),
    {
        if addr < 0x2000 {
            match self.mbc {
                MBC::MBC1 | MBC::MBC3 | MBC::MBC5 => {
                    self.ram_enabled = val % 16 == 0x0A;
                },
                MBC::MBC2 => {
                    if (addr / 256) % 2 == 0 {
                        self.ram_enabled = !self.ram_enabled;
                    }
                },
                MBC::Unknown | MBC::ROM => {},
            }
        } else if addr < 0x4000 {
            let val: u16 = val as u16;
            match self.mbc {
                MBC::MBC1 => {
                    self.rom_bank = ((self.rom_bank / 32) % 4) * 32 + val % 32;
                    if self.rom_bank == 0 {
                        self.rom_bank = 1;
                    }
                },
                MBC::MBC2 => {
                    if (addr / 256) % 2 == 1 {
                        self.rom_bank = val % 16;
                    }
                },
                MBC::MBC3 => {
                    let val: u16 = val % 128;
                    self.rom_bank = if val != 0 {
                        val
                    } else {
                        1
                    };
                },
                MBC::MBC5 => {
                    if addr < 0x3000 {
                        self.rom_bank = (self.rom_bank / 256) * 256 + val;
                    } else {
                        self.rom_bank = self.rom_bank % 256 + (val % 2) * 256;
                    }
                },
                MBC::Unknown | MBC::ROM => {},
            }
        } else if addr < 0x6000 {
            match self.mbc {
                MBC::MBC1 => {
                    if !self.bank_mode {
                        self.rom_bank = self.rom_bank % 32 + ((val as u16) % 4) * 32;
                        if self.rom_bank == 0 {
                            self.rom_bank = 1;
                        }
                    } else {
                        self.ram_bank = val % 4;
                    }
                },
                MBC::MBC3 => {
                    self.ram_bank = val % 4;
                },
                MBC::MBC5 => {
                    self.ram_bank = val % 16;
                },
                MBC::Unknown | MBC::ROM | MBC::MBC2 => {},
            }
        } else if addr < 0x8000 {
            match self.mbc {
                MBC::MBC1 => {
                    self.bank_mode = val % 2 == 1;
                },
                _ => {},
            }
        }
    }

    /// Reads a byte through the RAM window of the bus.
    pub fn read_ram(&self, addr: u16) -> (r: u8)
        requires
            self@.wf(),
        ensures
            r == self@.read_ram(addr),
    {
        let offset: usize = self.ram_bank as usize * RAM_BANK_SIZE + (addr % 0x2000) as usize;
        if self.ram_enabled && offset < self.ram.len() {
            self.ram[offset]
        } else {
            OPEN_BUS
        }
    }

    /// Writes a byte through the RAM window of the bus.
    pub fn write_ram(&mut self, addr: u16, val: u8)
        requires
            old(self)@.wf(),
        ensures
            final(self)@.wf(),
            final(self)@ == old(self)@.write_ram(addr, val),
    {
        let offset: usize = self.ram_bank as usize * RAM_BANK_SIZE + (addr % 0x2000) as usize;
        if self.ram_enabled && offset < self.ram.len() {
            let val: u8 = if self.mbc == MBC::MBC2 {
                val % 16
            } else {
                val
            };
            self.ram[offset] = val;
        }
    }

    /// A byte of the header.
    pub fn header_byte(&self, at: usize) -> (b: u8)
        requires
            self@.rom.len() >= HEADER_END,
            at < HEADER_END,
        ensures
            b == self@.rom[at as int],
    {
        self.rom[at]
    }

    /// Number of bytes in the ROM image.
    pub fn rom_len(&self) -> (n: usize)
        ensures
            n == self@.rom.len(),
    {
        self.rom.len()
    }

    /// The content of the RAM, as a save file holds it.
    pub fn ram_image(&self) -> (bytes: &Vec<u8>)
        ensures
            bytes@ == self@.ram,
    {
        &self.ram
    }

    /// Whether a battery keeps the RAM, so that it is worth saving.
    pub fn has_battery(&self) -> (b: bool)
        ensures
            b == self@.battery,
    {
        self.battery
    }

    /// The kind of bank controller.
    pub fn mbc(&self) -> (m: MBC)
        ensures
            m == self@.mbc,
    {
        self.mbc
    }

    /// The ROM bank mapped at `0x4000`.
    pub fn rom_bank(&self) -> (n: u16)
        ensures
            n == self@.rom_bank,
    {
        self.rom_bank
    }

    /// The RAM bank mapped at `0xA000`.
    pub fn ram_bank(&self) -> (n: u8)
        ensures
            n == self@.ram_bank,
    {
        self.ram_bank
    }

    /// Whether reads and writes reach the RAM.
    pub fn ram_enabled(&self) -> (b: bool)
        ensures
            b == self@.ram_enabled,
    {
        self.ram_enabled
    }

    /// Number of banks in the ROM image.
    pub fn rom_bank_count(&self) -> (n: u8)
        ensures
            n == self@.rom_banks,
    {
        self.rom_banks
    }
}

/// Whether a write at `addr` reaches the register that selects the ROM
/// bank of a controller: the low select register, for the MBC2 with bit 8
/// of the address set, for the MBC5 the register of the low eight bits.
pub open spec fn selects_rom_bank(mbc: MBC, addr: u16) -> bool {
    match mbc {
        MBC::MBC1 | MBC::MBC3 => 0x2000 <= addr < 0x4000,
        MBC::MBC2 => 0x2000 <= addr < 0x4000 && (addr / 256) % 2 == 1,
        MBC::MBC5 => 0x2000 <= addr < 0x3000,
        _ => false,
    }
}

/// The MBC1 and the MBC3 never map bank 0 in the upper half: whatever is
/// written, a bank other than 0 stays selected, and selecting bank 0 with
/// no upper select bits set gives bank 1.
pub proof fn law_bank_zero_is_bank_one(c: CartridgeView, addr: u16, val: u8)
    requires
        c.wf(),
        c.mbc == MBC::MBC1 || c.mbc == MBC::MBC3,
    ensures
        c.write_rom(addr, val).rom_bank != 0,
        c.write_rom(addr, val).wf(),
        selects_rom_bank(c.mbc, addr) && c.mbc == MBC::MBC3 && val % 128 == 0 ==> c.write_rom(
            addr,
            val,
        ).rom_bank == 1,
        selects_rom_bank(c.mbc, addr) && c.mbc == MBC::MBC1 && val % 32 == 0 && c.rom_bank < 32
            ==> c.write_rom(addr, val).rom_bank == 1,
{
}

/// Selecting bank `n` maps that bank at `0x4000`: a read in the upper half
/// of the ROM window then gives the byte of the image at `n` times the size
/// of a bank plus the offset in the window, for a bank that the image
/// holds. The bank must fit the select register, with the upper select bits
/// of the controller clear, and bank 0 can be selected on the MBC2 and the
/// MBC5 only.
pub proof fn law_selected_bank_is_read(c: CartridgeView, select: u16, n: u8, addr: u16)
    requires
        c.wf(),
        selects_rom_bank(c.mbc, select),
        n < c.rom_banks,
        0x4000 <= addr < 0x8000,
        match c.mbc {
            MBC::MBC1 => 1 <= n < 32 && c.rom_bank < 32,
            MBC::MBC2 => n < 16,
            MBC::MBC3 => 1 <= n < 128,
            _ => c.rom_bank < 256,
        },
    ensures
        c.write_rom(select, n).rom_bank == n,
        c.write_rom(select, n).read_rom(addr) == c.rom[n * 0x4000 + (addr - 0x4000)],
        c.write_rom(select, n).read_rom(0x4000) == c.rom[n * 0x4000],
{
}

/// Whatever is selected, the lower half of the ROM window shows bank 0.
pub proof fn law_lower_half_is_bank_zero(c: CartridgeView, addr: u16)
    requires
        c.wf(),
        addr < 0x4000,
        c.rom_banks > 0,
    ensures
        c.read_rom(addr) == c.rom[addr as int],
{
}

/// A disabled RAM reads as open bus and takes no write.
pub proof fn law_disabled_ram(c: CartridgeView, addr: u16, val: u8)
    requires
        !c.ram_enabled,
    ensures
        c.read_ram(addr) == OPEN_BUS,
        c.write_ram(addr, val) == c,
{
}

} // verus!
