//! The memory bus: one 64 KiB address space routed to its owners.
//!
//! | addresses       | owner                                            |
//! |-----------------|--------------------------------------------------|
//! | `0x0000-0x7FFF` | cartridge ROM; writes command the bank controller |
//! | `0x8000-0x9FFF` | video memory                                     |
//! | `0xA000-0xBFFF` | cartridge RAM                                    |
//! | `0xC000-0xDFFF` | work RAM: bank 0, then the selected bank         |
//! | `0xE000-0xFDFF` | mirror of `0xC000-0xDDFF`                        |
//! | `0xFE00-0xFE9F` | sprite table                                     |
//! | `0xFEA0-0xFEFF` | nothing                                          |
//! | `0xFF00-0xFF7F` | registers                                        |
//! | `0xFF80-0xFFFE` | high RAM                                         |
//! | `0xFFFF`        | interrupt enable mask                            |

use vstd::prelude::*;
use crate::gpu::{GPU, GpuView};
use crate::keypad::Keypad;
use crate::timer::Timer;
use crate::Target;

pub mod cartridge;
pub mod map;
pub mod ram;

use cartridge::{Cartridge, CartridgeView, LoadError, OPEN_BUS, TARGET_CGB, TARGET_SGB};
use map::{in_range, range_size, HRAM};
use ram::RAM;

verus! {

/// Bytes of work RAM: eight banks of 4 KiB.
pub const WRAM_SIZE: usize = 0x8000;

/// Bytes of high RAM.
pub const HRAM_SIZE: usize = 0x7F;

/// The speed at which the processor runs.
#[derive(Debug, Clone, Copy, PartialEq, Eq, Structural)]
pub enum Speed {
    Normal,
    Double,
}

/// The registers that the bus itself owns.
#[derive(Debug, Clone, Copy, PartialEq, Eq, Structural)]
pub struct SystemRegs {
    /// The machine that is emulated.
    pub target: Target,
    /// Pending interrupts, one bit for each source.
    pub intf: u8,
    /// Enabled interrupts, one bit for each source.
    pub inte: u8,
    /// The speed at which the processor runs.
    pub speed: Speed,
    /// Whether the program asked for a change of speed.
    pub speed_switch: bool,
    /// Bank of work RAM mapped at `0xD000`.
    pub wram_bank: u8,
    /// Whether the functions of the Super Game Boy are in use.
    pub sgb: bool,
    /// Whether the functions of the color machine are in use.
    pub cgb: bool,
}

/// The memory bus with all that is attached to it.
pub struct Memory {
    pub sys: SystemRegs,
    pub cart: Cartridge,
    pub wram: RAM,
    pub hram: RAM,
    pub timer: Timer,
    pub gpu: GPU,
    pub keypad: Keypad,
}

/// The mathematical model of the bus.
pub struct MemoryView {
    pub sys: SystemRegs,
    pub cart: CartridgeView,
    pub wram: Seq<u8>,
    pub hram: Seq<u8>,
    pub timer: Timer,
    pub gpu: GpuView,
    pub keypad: Keypad,
}

impl View for Memory {
    type V = MemoryView;

    open spec fn view(&self) -> MemoryView {
        MemoryView {
            sys: self.sys,
            cart: self.cart@,
            wram: self.wram@,
            hram: self.hram@,
            timer: self.timer,
            gpu: self.gpu@,
            keypad: self.keypad,
        }
    }
}

/// Two models of the bus are equal if they agree field by field.
pub proof fn lemma_same_memory(a: MemoryView, b: MemoryView)
    requires
        a.sys == b.sys,
        a.cart == b.cart,
        a.wram == b.wram,
        a.hram == b.hram,
        a.timer == b.timer,
        a.gpu == b.gpu,
        a.keypad == b.keypad,
    ensures
        a == b,
{
}

/// The bank of work RAM that a write of `val` to its select register maps
/// at `0xD000`: the low three bits, and bank 1 where they are zero.
pub open spec fn wram_bank_of(val: u8) -> u8 {
    if val % 8 == 0 {
        1
    } else {
        val % 8
    }
}

impl MemoryView {
    /// The bus as it is when the machine is switched on: the cartridge
    /// slot empty, no interrupt pending or enabled, normal speed, and the
    /// work RAM and high RAM filled with the byte of fresh memory.
    pub open spec fn initial(target: Target) -> MemoryView {
        MemoryView {
            sys: SystemRegs {
                target,
                intf: 0,
                inte: 0,
                speed: Speed::Normal,
                speed_switch: false,
                wram_bank: 1,
                sgb: false,
                cgb: false,
            },
            cart: CartridgeView::empty(),
            wram: Seq::new(WRAM_SIZE as nat, |i: int| ram::FILL),
            hram: Seq::new(HRAM_SIZE as nat, |i: int| ram::FILL),
            timer: Timer::initial(),
            gpu: GpuView::initial(),
            keypad: Keypad::initial(),
        }
    }

    /// Every part is well formed, both RAMs have their size and a bank of
    /// work RAM other than bank 0 is mapped at `0xD000`.
    pub open spec fn wf(self) -> bool {
        &&& self.cart.wf()
        &&& self.wram.len() == WRAM_SIZE
        &&& self.hram.len() == HRAM_SIZE
        &&& self.timer.wf()
        &&& self.gpu.wf()
        &&& self.keypad.wf()
        &&& 1 <= self.sys.wram_bank < 8
    }

    /// Index into the work RAM of the byte that the bus sees at `addr`, for
    /// `addr` in `0xC000..0xFE00`: the lower 4 KiB of the range and of its
    /// mirror are bank 0, the upper the selected bank.
    pub open spec fn wram_index(self, addr: u16) -> int {
        if (addr / 0x1000) % 2 == 0 {
            addr as int % 0x1000
        } else {
            self.sys.wram_bank * 0x1000 + addr % 0x1000
        }
    }

    /// The speed register as the color machine shows it: bit 7 is the
    /// current speed, bit 0 a pending request to change it.
    pub open spec fn key1(self) -> u8 {
        let speed: u8 = match self.sys.speed {
            Speed::Normal => 0x00,
            Speed::Double => 0x80,
        };
        let request: u8 = if self.sys.speed_switch {
            1
        } else {
            0
        };
        (speed + request) as u8
    }

    /// The byte that the bus reads at a register address.
    pub open spec fn read_byte_io(self, addr: u16) -> u8 {
        if addr == 0xFF00 {
            self.keypad.spec_read_byte()
        } else if 0xFF04 <= addr <= 0xFF07 {
            self.timer.spec_read_byte(addr)
        } else if addr == 0xFF0F {
            self.sys.intf
        } else if 0xFF10 <= addr <= 0xFF3F {
            OPEN_BUS
        } else if addr == 0xFF4D && self.sys.cgb {
            self.key1()
        } else if 0xFF40 <= addr <= 0xFF6F {
            self.gpu.read_byte(addr)
        } else if addr == 0xFF70 && self.sys.target == Target::GameBoyColor {
            self.sys.wram_bank
        } else {
            OPEN_BUS
        }
    }

    /// The byte that the bus reads at `addr`.
    #[verifier::opaque]
    pub open spec fn read_byte(self, addr: u16) -> u8 {
        if addr < 0x8000 {
            self.cart.read_rom(addr)
        } else if addr < 0xA000 {
            self.gpu.read_byte(addr)
        } else if addr < 0xC000 {
            self.cart.read_ram(addr)
        } else if addr < 0xFE00 {
            self.wram[self.wram_index(addr)]
        } else if addr < 0xFEA0 {
            self.gpu.read_byte(addr)
        } else if addr < 0xFF00 {
            OPEN_BUS
        } else if addr < 0xFF80 {
            self.read_byte_io(addr)
        } else if addr < 0xFFFF {
            self.hram[addr - 0xFF80]
        } else {
            self.sys.inte
        }
    }

    /// The 16-bit value that the bus reads at `addr`: the low byte at
    /// `addr`, the high byte at the next address, which after `0xFFFF` is 0.
    pub open spec fn read_word(self, addr: u16) -> u16 {
        (self.read_byte(addr) + 256 * self.read_byte(next_addr(addr))) as u16
    }

    /// The bus after the sprite table was filled with the 160 bytes that
    /// the bus shows from `val * 256` on.
    pub open spec fn oam_dma(self, val: u8) -> MemoryView {
        MemoryView {
            gpu: GpuView {
                oam: Seq::new(0xA0, |i: int| self.read_byte((val * 256 + i) as u16)),
                ..self.gpu
            },
            ..self
        }
    }

    /// The bus after a write of `val` at a register address.
    pub open spec fn write_byte_io(self, addr: u16, val: u8) -> MemoryView {
        if addr == 0xFF00 {
            MemoryView { keypad: self.keypad.spec_write_byte(val), ..self }
        } else if 0xFF04 <= addr <= 0xFF07 {
            MemoryView { timer: self.timer.spec_write_byte(addr, val), ..self }
        } else if addr == 0xFF0F {
            MemoryView { sys: SystemRegs { intf: val, ..self.sys }, ..self }
        } else if addr == 0xFF46 {
            self.oam_dma(val)
        } else if addr == 0xFF55 {
            self
        } else if addr == 0xFF4D && self.sys.cgb {
            MemoryView { sys: SystemRegs { speed_switch: val % 2 == 1, ..self.sys }, ..self }
        } else if 0xFF40 <= addr <= 0xFF6F {
            MemoryView { gpu: self.gpu.write_byte(addr, val), ..self }
        } else if addr == 0xFF70 && self.sys.cgb {
            MemoryView { sys: SystemRegs { wram_bank: wram_bank_of(val), ..self.sys }, ..self }
        } else {
            self
        }
    }

    /// The bus after a write of `val` at `addr`. A write to a ROM address
    /// commands the bank controller; a write where nothing is mapped is lost.
    #[verifier::opaque]
    pub open spec fn write_byte(self, addr: u16, val: u8) -> MemoryView {
        if addr < 0x8000 {
            MemoryView { cart: self.cart.write_rom(addr, val), ..self }
        } else if addr < 0xA000 {
            MemoryView { gpu: self.gpu.write_byte(addr, val), ..self }
        } else if addr < 0xC000 {
            MemoryView { cart: self.cart.write_ram(addr, val), ..self }
        } else if addr < 0xFE00 {
            MemoryView { wram: self.wram.update(self.wram_index(addr), val), ..self }
        } else if addr < 0xFEA0 {
            MemoryView { gpu: self.gpu.write_byte(addr, val), ..self }
        } else if addr < 0xFF00 {
            self
        } else if addr < 0xFF80 {
            self.write_byte_io(addr, val)
        } else if addr < 0xFFFF {
            MemoryView { hram: self.hram.update(addr - 0xFF80, val), ..self }
        } else {
            MemoryView { sys: SystemRegs { inte: val, ..self.sys }, ..self }
        }
    }

    /// The bus after a write of a 16-bit value at `addr`: the low byte
    /// first, then the high byte at the next address.
    pub open spec fn write_word(self, addr: u16, val: u16) -> MemoryView {
        self.write_byte(addr, (val % 256) as u8).write_byte(next_addr(addr), (val / 256) as u8)
    }

    /// The bus after `time` base-clock cycles went by: the timer and the
    /// pixel unit move on, the timer first, and set the interrupts they raise.
    pub open spec fn step(self, time: u32) -> MemoryView {
        let timed = if self.timer.spec_fires(time, self.sys.speed) {
            self.sys.intf | crate::cpu::Interrupts::Timer.spec_mask()
        } else {
            self.sys.intf
        };
        MemoryView {
            timer: self.timer.spec_step(time, self.sys.speed),
            gpu: self.gpu.step(time, timed).0,
            sys: SystemRegs { intf: self.gpu.step(time, timed).1, ..self.sys },
            ..self
        }
    }

    /// Whether a cartridge switches the functions of the color machine
    /// on: the emulated machine must have them and the header ask for them.
    pub open spec fn wants_cgb(self, cart: CartridgeView) -> bool {
        if self.sys.target == Target::GameBoyColor {
            cart.rom[TARGET_CGB as int] >= 0x80
        } else {
            self.sys.cgb
        }
    }

    /// Whether a cartridge switches the functions of the Super Game Boy on.
    pub open spec fn wants_sgb(self, cart: CartridgeView) -> bool {
        if self.sys.target == Target::GameBoyColor || self.sys.target == Target::SuperGameBoy {
            cart.rom[TARGET_SGB as int] == 0x03
        } else {
            self.sys.sgb
        }
    }

    /// Whether the pixel unit uses the functions of the color machine with
    /// a cartridge: it follows the bus on the color machine.
    pub open spec fn gpu_wants_cgb(self, cart: CartridgeView) -> bool {
        if self.sys.target == Target::GameBoyColor {
            self.wants_cgb(cart)
        } else {
            self.gpu.regs.is_cgb
        }
    }

    /// Whether the pixel unit uses the functions of the Super Game Boy
    /// with a cartridge: a cartridge can switch them on and never off.
    pub open spec fn gpu_wants_sgb(self, cart: CartridgeView) -> bool {
        self.gpu.regs.is_sgb || ((self.sys.target == Target::GameBoyColor || self.sys.target
            == Target::SuperGameBoy) && self.wants_sgb(cart))
    }

    /// The bus with the functions of the color machine and of the Super
    /// Game Boy switched on or off, on the bus and in the pixel unit.
    pub open spec fn with_modes(self, cgb: bool, sgb: bool, gpu_cgb: bool, gpu_sgb: bool) -> MemoryView {
        MemoryView {
            sys: SystemRegs { cgb, sgb, ..self.sys },
            gpu: self.gpu.with_modes(gpu_cgb, gpu_sgb),
            ..self
        }
    }

    /// The bus after a cartridge was put into the slot. A cartridge made
    /// for the color machine or the Super Game Boy switches their functions
    /// on if the emulated machine has them.
    #[verifier::opaque]
    pub open spec fn with_cartridge(self, cart: CartridgeView) -> MemoryView {
        MemoryView {
            cart,
            ..self.with_modes(
                self.wants_cgb(cart),
                self.wants_sgb(cart),
                self.gpu_wants_cgb(cart),
                self.gpu_wants_sgb(cart),
            )
        }
    }

    /// The bus after the change of speed that the program asked for.
    pub open spec fn switch_speed(self) -> MemoryView {
        MemoryView {
            sys: SystemRegs {
                speed_switch: false,
                speed: match self.sys.speed {
                    Speed::Normal => Speed::Double,
                    Speed::Double => Speed::Normal,
                },
                ..self.sys
            },
            ..self
        }
    }
}

/// Putting a cartridge into the slot switches the functions of the color
/// machine and of the Super Game Boy as the cartridge and the emulated
/// machine ask for, and changes nothing else.
pub proof fn lemma_with_cartridge(m: MemoryView, cart: CartridgeView)
    ensures
        m.with_cartridge(cart) == (MemoryView {
            cart,
            ..m.with_modes(
                m.wants_cgb(cart),
                m.wants_sgb(cart),
                m.gpu_wants_cgb(cart),
                m.gpu_wants_sgb(cart),
            )
        }),
{
    reveal(MemoryView::with_cartridge);
}

/// Only a write to the register of the pending interrupts changes which
/// interrupts are pending.
pub proof fn lemma_write_keeps_intf(mem: MemoryView, addr: u16, val: u8)
    requires
        addr != 0xFF0F,
    ensures
        mem.write_byte(addr, val).sys.intf == mem.sys.intf,
{
    reveal(MemoryView::write_byte);
}

/// Through the bus, selecting a ROM bank and reading the upper half of the
/// ROM window gives the bytes of that bank: a write of `n` to the register
/// that selects the bank, then a read at `0x4000`, returns the byte of the
/// image at `n` times the size of a bank.
pub proof fn law_bus_reads_selected_bank(mem: MemoryView, select: u16, n: u8)
    requires
        mem.cart.wf(),
        cartridge::selects_rom_bank(mem.cart.mbc, select),
        n < mem.cart.rom_banks,
        match mem.cart.mbc {
            cartridge::MBC::MBC1 => 1 <= n < 32 && mem.cart.rom_bank < 32,
            cartridge::MBC::MBC2 => n < 16,
            cartridge::MBC::MBC3 => 1 <= n < 128,
            _ => mem.cart.rom_bank < 256,
        },
    ensures
        mem.write_byte(select, n).read_byte(0x4000) == mem.cart.rom[n * 0x4000],
{
    reveal(MemoryView::write_byte);
    reveal(MemoryView::read_byte);
    cartridge::law_selected_bank_is_read(mem.cart, select, n, 0x4000);
}

/// The range from `0xE000` to `0xFDFF` mirrors the work RAM from `0xC000`
/// on: a read at a mirrored address gives what the read at the address
/// itself gives, and a write at either has the same effect.
pub proof fn law_echo_mirrors_work_ram(mem: MemoryView, addr: u16, val: u8)
    requires
        0xC000 <= addr < 0xDE00,
    ensures
        mem.read_byte((addr + 0x2000) as u16) == mem.read_byte(addr),
        mem.write_byte((addr + 0x2000) as u16, val) == mem.write_byte(addr, val),
{
    reveal(MemoryView::read_byte);
    reveal(MemoryView::write_byte);
}

/// Where nothing is mapped, between the sprite table and the registers,
/// a read gives `0xFF` and a write is lost.
pub proof fn law_unused_range_is_open_bus(mem: MemoryView, addr: u16, val: u8)
    requires
        0xFEA0 <= addr < 0xFF00,
    ensures
        mem.read_byte(addr) == OPEN_BUS,
        mem.write_byte(addr, val) == mem,
{
    reveal(MemoryView::read_byte);
    reveal(MemoryView::write_byte);
}

/// The work RAM and the high RAM keep what is written: a read after a
/// write at the same address gives the value written, and a read at
/// another address of the two RAMs, which is not its mirror, gives what it
/// gave before.
pub proof fn law_ram_keeps_what_is_written(mem: MemoryView, addr: u16, val: u8, other: u16)
    requires
        mem.wf(),
        0xC000 <= addr < 0xE000 || 0xFF80 <= addr < 0xFFFF,
        0xC000 <= other < 0xE000 || 0xFF80 <= other < 0xFFFF,
        other != addr,
    ensures
        mem.write_byte(addr, val).read_byte(addr) == val,
        mem.write_byte(addr, val).read_byte(other) == mem.read_byte(other),
{
    reveal(MemoryView::read_byte);
    reveal(MemoryView::write_byte);
}

/// A 16-bit value is stored with its low byte first.
pub proof fn law_words_are_little_endian(mem: MemoryView, addr: u16, val: u16)
    ensures
        mem.write_word(addr, val) == mem.write_byte(addr, (val % 256) as u8).write_byte(
            next_addr(addr),
            (val / 256) as u8,
        ),
        mem.read_word(addr) == mem.read_byte(addr) + 256 * mem.read_byte(next_addr(addr)),
{
}

/// No write changes which machine is emulated.
pub proof fn lemma_write_keeps_target(mem: MemoryView, addr: u16, val: u8)
    ensures
        mem.write_byte(addr, val).sys.target == mem.sys.target,
{
    reveal(MemoryView::write_byte);
}

/// The address after `addr`, which after `0xFFFF` is 0.
pub open spec fn next_addr(addr: u16) -> u16 {
    if addr == 0xFFFF {
        0
    } else {
        (addr + 1) as u16
    }
}

impl Memory {
    /// Every part is well formed.
    pub open spec fn wf(&self) -> bool {
        self@.wf() && self.gpu.wf()
    }

    /// A bus with an empty cartridge slot, as it is when the machine is
    /// switched on.
    pub fn new(target: Target) -> (mem: Memory)
        ensures
            mem.wf(),
            mem@ == MemoryView::initial(target),
    {
        let mem = Memory {
            sys: SystemRegs {
                target,
                intf: 0,
                inte: 0,
                speed: Speed::Normal,
                speed_switch: false,
                wram_bank: 1,
                sgb: false,
                cgb: false,
            },
            cart: Cartridge::empty(),
            wram: RAM::new(WRAM_SIZE),
            hram: RAM::new(range_size(HRAM) as usize),
            timer: Timer::new(),
            gpu: GPU::new(target),
            keypad: Keypad::new(),
        };
        proof {
            lemma_same_memory(mem@, MemoryView::initial(target));
        }
        mem
    }

    /// Reads a byte at a register address.
    fn read_byte_io(&self, addr: u16) -> (r: u8)
        requires
            self.wf(),
        ensures
            r == self@.read_byte_io(addr),
    {
        if addr == 0xFF00 {
            self.keypad.read_byte(addr)
        } else if 0xFF04 <= addr && addr <= 0xFF07 {
            self.timer.read_byte(addr)
        } else if addr == 0xFF0F {
            self.sys.intf
        } else if 0xFF10 <= addr && addr <= 0xFF3F {
            OPEN_BUS
        } else if addr == 0xFF4D && self.sys.cgb {
            let speed: u8 = match self.sys.speed {
                Speed::Normal => 0x00,
                Speed::Double => 0x80,
            };
            let request: u8 = if self.sys.speed_switch {
                1
            } else {
                0
            };
            speed + request
        } else if 0xFF40 <= addr && addr <= 0xFF6F {
            self.gpu.read_byte(addr)
        } else if addr == 0xFF70 && self.sys.target == Target::GameBoyColor {
            self.sys.wram_bank
        } else {
            OPEN_BUS
        }
    }

    /// Index into the work RAM of the byte at `addr`.
    fn wram_index(&self, addr: u16) -> (r: u16)
        requires
            self.wf(),
            0xC000 <= addr < 0xFE00,
        ensures
            r == self@.wram_index(addr),
            r < WRAM_SIZE,
    {
        if (addr / 0x1000) % 2 == 0 {
            addr % 0x1000
        } else {
            self.sys.wram_bank as u16 * 0x1000 + addr % 0x1000
        }
    }

    /// Reads the byte at `addr`.
    pub fn read_byte(&self, addr: u16) -> (r: u8)
        requires
            self.wf(),
        ensures
            r == self@.read_byte(addr),
    {
        reveal(MemoryView::read_byte);
        if addr < 0x8000 {
            self.cart.read_rom(addr)
        } else if addr < 0xA000 {
            self.gpu.read_byte(addr)
        } else if addr < 0xC000 {
            self.cart.read_ram(addr)
        } else if addr < 0xFE00 {
            self.wram.read_byte(self.wram_index(addr))
        } else if addr < 0xFEA0 {
            self.gpu.read_byte(addr)
        } else if addr < 0xFF00 {
            OPEN_BUS
        } else if addr < 0xFF80 {
            self.read_byte_io(addr)
        } else {
            match in_range(addr, HRAM) {
                Some(offset) => self.hram.read_byte(offset),
                None => self.sys.inte,
            }
        }
    }

    /// Reads the 16-bit value at `addr`, low byte first.
    pub fn read_word(&self, addr: u16) -> (r: u16)
        requires
            self.wf(),
        ensures
            r == self@.read_word(addr),
    {
        let lo: u16 = self.read_byte(addr) as u16;
        let hi: u16 = self.read_byte(addr.wrapping_add(1)) as u16;
        lo + 256 * hi
    }

    /// Writes `val` at a register address that the bus itself owns or that
    /// belongs to the keypad or the timer.
    fn write_byte_sys(&mut self, addr: u16, val: u8)
        requires
            old(self).wf(),
            addr == 0xFF00 || 0xFF04 <= addr <= 0xFF07 || addr == 0xFF0F || addr == 0xFF4D
                || addr == 0xFF70 || addr == 0xFFFF,
            addr == 0xFF4D ==> old(self).sys.cgb,
        ensures
            final(self).wf(),
            final(self)@ == old(self)@.write_byte(addr, val),
    {
        reveal(MemoryView::write_byte);
        let sys = self.sys;
        if addr == 0xFF00 {
            self.keypad.write_byte(addr, val);
        } else if 0xFF04 <= addr && addr <= 0xFF07 {
            self.timer.write_byte(addr, val);
        } else if addr == 0xFF0F {
            self.sys = SystemRegs { intf: val, ..sys };
        } else if addr == 0xFF4D {
            self.sys = SystemRegs { speed_switch: val % 2 == 1, ..sys };
        } else if addr == 0xFF70 {
            if sys.cgb {
                let bank: u8 = if val % 8 == 0 {
                    1
                } else {
                    val % 8
                };
                self.sys = SystemRegs { wram_bank: bank, ..sys };
            }
        } else {
            self.sys = SystemRegs { inte: val, ..sys };
        }
        proof {
            lemma_same_memory(self@, old(self)@.write_byte(addr, val));
        }
    }

    /// Writes `val` at an address of the cartridge.
    fn write_byte_cart(&mut self, addr: u16, val: u8)
        requires
            old(self).wf(),
            addr < 0x8000 || 0xA000 <= addr < 0xC000,
        ensures
            final(self).wf(),
            final(self)@ == old(self)@.write_byte(addr, val),
    {
        reveal(MemoryView::write_byte);
        if addr < 0x8000 {
            self.cart.write_rom(addr, val);
        } else {
            self.cart.write_ram(addr, val);
        }
        proof {
            lemma_same_memory(self@, old(self)@.write_byte(addr, val));
        }
    }

    /// Writes `val` at an address of the work RAM or the high RAM.
    fn write_byte_ram(&mut self, addr: u16, val: u8)
        requires
            old(self).wf(),
            0xC000 <= addr < 0xFE00 || 0xFF80 <= addr < 0xFFFF,
        ensures
            final(self).wf(),
            final(self)@ == old(self)@.write_byte(addr, val),
    {
        reveal(MemoryView::write_byte);
        if addr < 0xFE00 {
            let index: u16 = self.wram_index(addr);
            self.wram.write_byte(index, val);
        } else {
            match in_range(addr, HRAM) {
                Some(offset) => {
                    self.hram.write_byte(offset, val);
                },
                None => {},
            }
        }
        proof {
            lemma_same_memory(self@, old(self)@.write_byte(addr, val));
        }
    }

    /// Writes `val` at an address of the pixel unit.
    fn write_byte_gpu(&mut self, addr: u16, val: u8)
        requires
            old(self).wf(),
            0x8000 <= addr < 0xA000 || 0xFE00 <= addr < 0xFEA0 || 0xFF40 <= addr <= 0xFF6F,
            addr != 0xFF46,
            addr != 0xFF55,
            addr == 0xFF4D ==> !old(self).sys.cgb,
        ensures
            final(self).wf(),
            final(self)@ == old(self)@.write_byte(addr, val),
    {
        reveal(MemoryView::write_byte);
        self.gpu.write_byte(addr, val);
        proof {
            lemma_same_memory(self@, old(self)@.write_byte(addr, val));
        }
    }

    /// Writes `val` at a register address.
    fn write_byte_io(&mut self, addr: u16, val: u8)
        requires
            old(self).wf(),
            0xFF00 <= addr < 0xFF80,
        ensures
            final(self).wf(),
            final(self)@ == old(self)@.write_byte(addr, val),
    {
        reveal(MemoryView::write_byte);
        if addr == 0xFF00 || (0xFF04 <= addr && addr <= 0xFF07) || addr == 0xFF0F || addr == 0xFF70 {
            self.write_byte_sys(addr, val);
        } else if addr == 0xFF46 {
            GPU::oam_dma_transfer(self, val);
        } else if addr == 0xFF55 {
            GPU::hdma_dma_transfer(self, val);
        } else if addr == 0xFF4D && self.sys.cgb {
            self.write_byte_sys(addr, val);
        } else if 0xFF40 <= addr && addr <= 0xFF6F {
            self.write_byte_gpu(addr, val);
        }
    }

    /// Writes `val` at `addr`.
    pub fn write_byte(&mut self, addr: u16, val: u8)
        requires
            old(self).wf(),
        ensures
            final(self).wf(),
            final(self)@ == old(self)@.write_byte(addr, val),
    {
        reveal(MemoryView::write_byte);
        if addr < 0x8000 {
            self.write_byte_cart(addr, val);
        } else if addr < 0xA000 {
            self.write_byte_gpu(addr, val);
        } else if addr < 0xC000 {
            self.write_byte_cart(addr, val);
        } else if addr < 0xFE00 {
            self.write_byte_ram(addr, val);
        } else if addr < 0xFEA0 {
            self.write_byte_gpu(addr, val);
        } else if addr < 0xFF00 {
        } else if addr < 0xFF80 {
            self.write_byte_io(addr, val);
        } else if addr < 0xFFFF {
            self.write_byte_ram(addr, val);
        } else {
            self.write_byte_sys(addr, val);
        }
    }

    /// Writes a 16-bit value at `addr`, low byte first.
    pub fn write_word(&mut self, addr: u16, val: u16)
        requires
            old(self).wf(),
        ensures
            final(self).wf(),
            final(self)@ == old(self)@.write_word(addr, val),
    {
        self.write_byte(addr, (val % 256) as u8);
        self.write_byte(addr.wrapping_add(1), (val / 256) as u8);
    }

    /// Moves the timer and the pixel unit on by `time` base-clock cycles.
    pub fn step(&mut self, time: u32)
        requires
            old(self).wf(),
        ensures
            final(self).wf(),
            final(self)@ == old(self)@.step(time),
    {
        let sys = self.sys;
        let mut intf: u8 = sys.intf;
        self.timer.step(time, &mut intf, sys.speed);
        self.gpu.step(time, &mut intf);
        self.sys = SystemRegs { intf, ..sys };
        proof {
            lemma_same_memory(self@, old(self)@.step(time));
        }
    }

    /// The functions that a cartridge switches on: those of the color
    /// machine and of the Super Game Boy on the bus, then the same two in
    /// the pixel unit.
    fn modes_for(&self, cart: &Cartridge) -> (modes: [bool; 4])
        requires
            self.wf(),
            cart@.rom.len() >= cartridge::HEADER_END,
        ensures
            modes[0] == self@.wants_cgb(cart@),
            modes[1] == self@.wants_sgb(cart@),
            modes[2] == self@.gpu_wants_cgb(cart@),
            modes[3] == self@.gpu_wants_sgb(cart@),
    {
        let colors = self.sys.target == Target::GameBoyColor;
        let extras = colors || self.sys.target == Target::SuperGameBoy;
        let regs = self.gpu.regs();
        let cgb = if colors {
            cart.header_byte(TARGET_CGB) >= 0x80
        } else {
            self.sys.cgb
        };
        let sgb = if extras {
            cart.header_byte(TARGET_SGB) == 0x03
        } else {
            self.sys.sgb
        };
        let gpu_cgb = if colors {
            cgb
        } else {
            regs.is_cgb
        };
        let gpu_sgb = regs.is_sgb || (extras && sgb);
        [cgb, sgb, gpu_cgb, gpu_sgb]
    }

    /// Puts a cartridge into the slot and switches the functions of the
    /// color machine and of the Super Game Boy as told.
    fn install(&mut self, cart: Cartridge, cgb: bool, sgb: bool, gpu_cgb: bool, gpu_sgb: bool)
        requires
            old(self).wf(),
            cart@.wf(),
        ensures
            final(self).wf(),
            final(self)@ == (MemoryView {
                cart: cart@,
                ..old(self)@.with_modes(cgb, sgb, gpu_cgb, gpu_sgb)
            }),
    {
        let sys = self.sys;
        self.gpu.set_modes(gpu_cgb, gpu_sgb);
        self.sys = SystemRegs { cgb, sgb, ..sys };
        self.cart = cart;
        proof {
            lemma_same_memory(
                self@,
                MemoryView { cart: cart@, ..old(self)@.with_modes(cgb, sgb, gpu_cgb, gpu_sgb) },
            );
        }
    }

    /// Puts a cartridge into the slot.
    pub fn insert_cartridge(&mut self, cart: Cartridge)
        requires
            old(self).wf(),
            cart@.wf(),
            cart@.rom.len() >= cartridge::HEADER_END,
        ensures
            final(self).wf(),
            final(self)@ == old(self)@.with_cartridge(cart@),
    {
        let modes = self.modes_for(&cart);
        proof {
            lemma_with_cartridge(self@, cart@);
        }
        self.install(cart, modes[0], modes[1], modes[2], modes[3]);
    }

    /// Builds a cartridge from the bytes of a ROM image and puts it into
    /// the slot. An image that is refused leaves the bus as it is.
    pub fn load_cartridge(&mut self, rom: Vec<u8>) -> (r: Result<(), LoadError>)
        requires
            old(self).wf(),
        ensures
            final(self).wf(),
            match r {
                Ok(_) => cartridge::load_error(rom@, None) is None && final(self)@ == old(
                    self,
                )@.with_cartridge(cartridge::loaded(rom@, None)),
                Err(e) => cartridge::load_error(rom@, None) == Some(e) && final(self)@ == old(self)@,
            },
    {
        match Cartridge::from_bytes(rom, None) {
            Ok(cart) => {
                self.insert_cartridge(cart);
                Ok(())
            },
            Err(e) => Err(e),
        }
    }

    /// Changes the speed as the program asked for.
    pub fn switch_speed(&mut self)
        requires
            old(self).wf(),
        ensures
            final(self).wf(),
            final(self)@ == old(self)@.switch_speed(),
    {
        let sys = self.sys;
        self.sys = SystemRegs {
            speed_switch: false,
            speed: match sys.speed {
                Speed::Normal => Speed::Double,
                Speed::Double => Speed::Normal,
            },
            ..sys
        };
        proof {
            lemma_same_memory(self@, old(self)@.switch_speed());
        }
    }
}

} // verus!
