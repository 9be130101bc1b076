//! The pixel unit: video memory, sprite table, registers, and the cycle of
//! four modes that paints one line of the screen at a time.

use vstd::prelude::*;
use crate::mem::{lemma_same_memory, Memory};
use crate::Target;

pub mod palette;
pub mod raster;
pub mod render;
pub mod tiles;
pub mod timing;

use palette::{index_register, Palettes, PaletteView, Shades};
use tiles::{TileCache, VRAM_SIZE};

verus! {

/// Bytes in the sprite table: 40 entries of 4 bytes.
pub const OAM_SIZE: usize = 0xA0;

/// Width of the screen in pixels.
pub const WIDTH: usize = 160;

/// Height of the screen in pixels.
pub const HEIGHT: usize = 144;

/// Bytes in the framebuffer: four for each pixel.
pub const IMAGE_SIZE: usize = 92160;

/// Base-clock cycles that one line of the screen takes.
pub const LINE_CYCLES: u32 = 456;

/// Lines in one frame, the ten of the vertical blank included.
pub const FRAME_LINES: u8 = 154;

/// The four modes that the pixel unit goes through.
#[derive(Debug, Clone, Copy, PartialEq, Eq, Structural)]
pub enum Mode {
    HBlank,
    VBlank,
    RdOAM,
    RdVRAM,
}

impl Mode {
    /// The mode as the two low bits of the status register show it.
    pub open spec fn spec_number(self) -> u8 {
        match self {
            Mode::HBlank => 0,
            Mode::VBlank => 1,
            Mode::RdOAM => 2,
            Mode::RdVRAM => 3,
        }
    }

    /// The mode as the two low bits of the status register show it.
    #[verifier::when_used_as_spec(spec_number)]
    pub fn number(self) -> (n: u8)
        ensures
            n == self.spec_number(),
    {
        match self {
            Mode::HBlank => 0,
            Mode::VBlank => 1,
            Mode::RdOAM => 2,
            Mode::RdVRAM => 3,
        }
    }
}

/// The registers of the pixel unit, the control and status registers taken
/// apart into their flags.
#[derive(Debug, Clone, Copy, PartialEq, Eq, Structural)]
pub struct LcdRegs {
    /// Whether the functions of the color machine are in use.
    pub is_cgb: bool,
    /// Whether the functions of the Super Game Boy are in use.
    pub is_sgb: bool,
    /// Cycles gone by in the current line.
    pub clock: u32,
    /// Bank of video memory that the bus sees.
    pub vram_bank: u8,
    pub mode: Mode,
    pub hdma_src: u16,
    pub hdma_dst: u16,
    pub hdma5: u8,
    /// Control bit 7: the screen is on.
    pub lcd_enabled: bool,
    /// Control bit 6: the window's tile map is the one at `0x9C00`.
    pub win_tmap: bool,
    /// Control bit 5: the window is shown.
    pub win_enabled: bool,
    /// Control bit 4: tile numbers count from `0x8000`, not signed from `0x9000`.
    pub tile_data: bool,
    /// Control bit 3: the background's tile map is the one at `0x9C00`.
    pub bg_tmap: bool,
    /// Control bit 2: sprites are 16 lines high, not 8.
    pub obj_size: bool,
    /// Control bit 1: sprites are shown.
    pub obj_enabled: bool,
    /// Control bit 0: the background is shown.
    pub bg_enabled: bool,
    /// Status bit 6: a line that equals the compare register interrupts.
    pub lycly: bool,
    /// Status bit 5: entering the scan of the sprite table interrupts.
    pub mode2_int: bool,
    /// Status bit 4: entering the vertical blank interrupts.
    pub mode1_int: bool,
    /// Status bit 3: entering the horizontal blank interrupts.
    pub mode0_int: bool,
    pub scy: u8,
    pub scx: u8,
    /// The current line.
    pub ly: u8,
    /// The line compare register.
    pub lyc: u8,
    pub bgp: u8,
    pub obp0: u8,
    pub obp1: u8,
    pub wy: u8,
    pub wx: u8,
}

/// The pixel unit.
pub struct GPU {
    regs: LcdRegs,
    image_data: Vec<u8>,
    vram: Vec<u8>,
    oam: Vec<u8>,
    pal: Palettes,
    cache: TileCache,
}

/// The mathematical model of the pixel unit. The cache of decoded tiles is
/// no part of it: what the unit paints is stated over the video memory.
pub struct GpuView {
    pub regs: LcdRegs,
    /// The framebuffer: for each pixel, line by line, red, green, blue, alpha.
    pub image: Seq<u8>,
    /// Both banks of video memory, bank 0 first.
    pub vram: Seq<u8>,
    /// The sprite table.
    pub oam: Seq<u8>,
    pub pal: PaletteView,
}

/// `weight` if `b` holds, else 0: one flag's share of a register.
pub open spec fn flag_bits(b: bool, weight: u8) -> u8 {
    if b {
        weight
    } else {
        0
    }
}

/// `weight` if `b` holds, else 0.
pub fn flag(b: bool, weight: u8) -> (r: u8)
    ensures
        r == flag_bits(b, weight),
{
    if b {
        weight
    } else {
        0
    }
}

impl LcdRegs {
    /// The control register as the bus reads it.
    pub open spec fn lcdc(self) -> u8 {
        (flag_bits(self.lcd_enabled, 128) + flag_bits(self.win_tmap, 64) + flag_bits(
            self.win_enabled,
            32,
        ) + flag_bits(self.tile_data, 16) + flag_bits(self.bg_tmap, 8) + flag_bits(
            self.obj_size,
            4,
        ) + flag_bits(self.obj_enabled, 2) + flag_bits(self.bg_enabled, 1)) as u8
    }

    /// The status register as the bus reads it: the four interrupt
    /// selections, whether the line equals the compare register, and the mode.
    pub open spec fn stat(self) -> u8 {
        (flag_bits(self.lycly, 64) + flag_bits(self.mode2_int, 32) + flag_bits(self.mode1_int, 16)
            + flag_bits(self.mode0_int, 8) + flag_bits(self.lyc == self.ly, 4)
            + self.mode.spec_number()) as u8
    }

    /// The registers after a write of `val` to the control register.
    /// Switching the screen on restarts the frame.
    pub open spec fn with_lcdc(self, val: u8) -> LcdRegs {
        let on = val >= 128;
        LcdRegs {
            lcd_enabled: on,
            win_tmap: (val / 64) % 2 == 1,
            win_enabled: (val / 32) % 2 == 1,
            tile_data: (val / 16) % 2 == 1,
            bg_tmap: (val / 8) % 2 == 1,
            obj_size: (val / 4) % 2 == 1,
            obj_enabled: (val / 2) % 2 == 1,
            bg_enabled: val % 2 == 1,
            clock: if !self.lcd_enabled && on {
                4
            } else {
                self.clock
            },
            ly: if !self.lcd_enabled && on {
                0
            } else {
                self.ly
            },
            ..self
        }
    }

    /// The registers after a write of `val` to the status register, of
    /// which only the four interrupt selections can be written.
    pub open spec fn with_stat(self, val: u8) -> LcdRegs {
        LcdRegs {
            lycly: (val / 64) % 2 == 1,
            mode2_int: (val / 32) % 2 == 1,
            mode1_int: (val / 16) % 2 == 1,
            mode0_int: (val / 8) % 2 == 1,
            ..self
        }
    }

    /// The line, the bank and the clock are in range.
    pub open spec fn wf(self) -> bool {
        &&& self.ly < FRAME_LINES
        &&& self.vram_bank < 2
        &&& self.clock < LINE_CYCLES
    }

    /// Puts the control register together from its flags.
    pub fn read_lcdc(&self) -> (r: u8)
        ensures
            r == self.lcdc(),
    {
        flag(self.lcd_enabled, 128) + flag(self.win_tmap, 64) + flag(self.win_enabled, 32) + flag(
            self.tile_data,
            16,
        ) + flag(self.bg_tmap, 8) + flag(self.obj_size, 4) + flag(self.obj_enabled, 2) + flag(
            self.bg_enabled,
            1,
        )
    }

    /// Puts the status register together from its flags and the mode.
    pub fn read_stat(&self) -> (r: u8)
        ensures
            r == self.stat(),
    {
        flag(self.lycly, 64) + flag(self.mode2_int, 32) + flag(self.mode1_int, 16) + flag(
            self.mode0_int,
            8,
        ) + flag(self.lyc == self.ly, 4) + self.mode.number()
    }

    /// Takes a value of the control register apart into its flags.
    pub fn write_lcdc(self, val: u8) -> (r: LcdRegs)
        ensures
            r == self.with_lcdc(val),
    {
        let on = val >= 128;
        let restart = !self.lcd_enabled && on;
        LcdRegs {
            lcd_enabled: on,
            win_tmap: (val / 64) % 2 == 1,
            win_enabled: (val / 32) % 2 == 1,
            tile_data: (val / 16) % 2 == 1,
            bg_tmap: (val / 8) % 2 == 1,
            obj_size: (val / 4) % 2 == 1,
            obj_enabled: (val / 2) % 2 == 1,
            bg_enabled: val % 2 == 1,
            clock: if restart {
                4
            } else {
                self.clock
            },
            ly: if restart {
                0
            } else {
                self.ly
            },
            ..self
        }
    }

    /// Takes the four interrupt selections from a value of the status register.
    pub fn write_stat(self, val: u8) -> (r: LcdRegs)
        ensures
            r == self.with_stat(val),
    {
        LcdRegs {
            lycly: (val / 64) % 2 == 1,
            mode2_int: (val / 32) % 2 == 1,
            mode1_int: (val / 16) % 2 == 1,
            mode0_int: (val / 8) % 2 == 1,
            ..self
        }
    }
}

impl GpuView {
    /// Every memory has its size and the registers are in range.
    pub open spec fn wf(self) -> bool {
        &&& self.regs.wf()
        &&& self.image.len() == IMAGE_SIZE
        &&& self.vram.len() == 2 * VRAM_SIZE
        &&& self.oam.len() == OAM_SIZE
        &&& self.pal.wf()
    }

    /// Index into the video memory of the byte that the bus sees at `addr`,
    /// for `addr` in `0x8000..0xA000`.
    pub open spec fn vram_index(self, addr: u16) -> int {
        self.regs.vram_bank * VRAM_SIZE + (addr - 0x8000)
    }

    /// The byte that the bus reads at `addr`: video memory, sprite table or
    /// a register, and `0xFF` at any other address.
    pub open spec fn read_byte(self, addr: u16) -> u8 {
        if 0x8000 <= addr < 0xA000 {
            self.vram[self.vram_index(addr)]
        } else if 0xFE00 <= addr < 0xFEA0 {
            self.oam[addr - 0xFE00]
        } else if addr == 0xFF40 {
            self.regs.lcdc()
        } else if addr == 0xFF41 {
            self.regs.stat()
        } else if addr == 0xFF42 {
            self.regs.scy
        } else if addr == 0xFF43 {
            self.regs.scx
        } else if addr == 0xFF44 {
            self.regs.ly
        } else if addr == 0xFF45 {
            self.regs.lyc
        } else if addr == 0xFF47 {
            self.regs.bgp
        } else if addr == 0xFF48 {
            self.regs.obp0
        } else if addr == 0xFF49 {
            self.regs.obp1
        } else if addr == 0xFF4A {
            self.regs.wy
        } else if addr == 0xFF4B {
            self.regs.wx
        } else if addr == 0xFF4F {
            self.regs.vram_bank
        } else if addr == 0xFF51 {
            (self.regs.hdma_src / 256) as u8
        } else if addr == 0xFF52 {
            (self.regs.hdma_src % 256) as u8
        } else if addr == 0xFF53 {
            (self.regs.hdma_dst / 256) as u8
        } else if addr == 0xFF54 {
            (self.regs.hdma_dst % 256) as u8
        } else if addr == 0xFF55 {
            self.regs.hdma5
        } else if addr == 0xFF68 {
            index_register(self.pal.bgp_index, self.pal.bgp_step)
        } else if addr == 0xFF69 {
            self.pal.cgb_bgp[self.pal.bgp_index as int]
        } else if addr == 0xFF6A {
            index_register(self.pal.obp_index, self.pal.obp_step)
        } else if addr == 0xFF6B {
            self.pal.cgb_obp[self.pal.obp_index as int]
        } else {
            0xFF
        }
    }

    /// The pixel unit after the bus writes `val` at `addr`. The line
    /// register cannot be written, and a write to a palette register
    /// compiles its colors anew.
    pub open spec fn write_byte(self, addr: u16, val: u8) -> GpuView {
        let regs = self.regs;
        if 0x8000 <= addr < 0xA000 {
            GpuView { vram: self.vram.update(self.vram_index(addr), val), ..self }
        } else if 0xFE00 <= addr < 0xFEA0 {
            GpuView { oam: self.oam.update(addr - 0xFE00, val), ..self }
        } else if addr == 0xFF40 {
            GpuView { regs: regs.with_lcdc(val), ..self }
        } else if addr == 0xFF41 {
            GpuView { regs: regs.with_stat(val), ..self }
        } else if addr == 0xFF42 {
            GpuView { regs: LcdRegs { scy: val, ..regs }, ..self }
        } else if addr == 0xFF43 {
            GpuView { regs: LcdRegs { scx: val, ..regs }, ..self }
        } else if addr == 0xFF45 {
            GpuView { regs: LcdRegs { lyc: val, ..regs }, ..self }
        } else if addr == 0xFF47 {
            GpuView {
                regs: LcdRegs { bgp: val, ..regs },
                pal: self.pal.with_shades(Shades::Background, val),
                ..self
            }
        } else if addr == 0xFF48 {
            GpuView {
                regs: LcdRegs { obp0: val, ..regs },
                pal: self.pal.with_shades(Shades::Object0, val),
                ..self
            }
        } else if addr == 0xFF49 {
            GpuView {
                regs: LcdRegs { obp1: val, ..regs },
                pal: self.pal.with_shades(Shades::Object1, val),
                ..self
            }
        } else if addr == 0xFF4A {
            GpuView { regs: LcdRegs { wy: val, ..regs }, ..self }
        } else if addr == 0xFF4B {
            GpuView { regs: LcdRegs { wx: val, ..regs }, ..self }
        } else if addr == 0xFF4F {
            if regs.is_cgb {
                GpuView { regs: LcdRegs { vram_bank: val % 2, ..regs }, ..self }
            } else {
                self
            }
        } else if addr == 0xFF51 {
            GpuView {
                regs: LcdRegs { hdma_src: (regs.hdma_src % 256 + val * 256) as u16, ..regs },
                ..self
            }
        } else if addr == 0xFF52 {
            GpuView {
                regs: LcdRegs { hdma_src: ((regs.hdma_src / 256) * 256 + val) as u16, ..regs },
                ..self
            }
        } else if addr == 0xFF53 {
            GpuView {
                regs: LcdRegs { hdma_dst: (regs.hdma_dst % 256 + val * 256) as u16, ..regs },
                ..self
            }
        } else if addr == 0xFF54 {
            GpuView {
                regs: LcdRegs { hdma_dst: ((regs.hdma_dst / 256) * 256 + val) as u16, ..regs },
                ..self
            }
        } else if addr == 0xFF68 {
            GpuView { pal: self.pal.with_bg_index(val), ..self }
        } else if addr == 0xFF69 {
            GpuView { pal: self.pal.with_bg_byte(val), ..self }
        } else if addr == 0xFF6A {
            GpuView { pal: self.pal.with_obj_index(val), ..self }
        } else if addr == 0xFF6B {
            GpuView { pal: self.pal.with_obj_byte(val), ..self }
        } else {
            self
        }
    }
}

impl GpuView {
    /// The unit with the functions of the color machine and of the Super
    /// Game Boy switched on or off.
    pub open spec fn with_modes(self, cgb: bool, sgb: bool) -> GpuView {
        GpuView { regs: LcdRegs { is_cgb: cgb, is_sgb: sgb, ..self.regs }, ..self }
    }

    /// The pixel unit as it is when the machine is switched on.
    pub open spec fn initial() -> GpuView {
        GpuView {
            regs: LcdRegs {
                is_cgb: false,
                is_sgb: false,
                clock: 0,
                vram_bank: 0,
                mode: Mode::RdOAM,
                hdma_src: 0,
                hdma_dst: 0,
                hdma5: 0,
                lcd_enabled: false,
                win_tmap: false,
                win_enabled: false,
                tile_data: false,
                bg_tmap: false,
                obj_size: false,
                obj_enabled: false,
                bg_enabled: false,
                lycly: false,
                mode2_int: false,
                mode1_int: false,
                mode0_int: false,
                scy: 0,
                scx: 0,
                ly: 0,
                lyc: 0,
                bgp: 0,
                obp0: 0,
                obp1: 0,
                wy: 0,
                wx: 0,
            },
            image: Seq::new(IMAGE_SIZE as nat, |i: int| 0xFFu8),
            vram: Seq::new((2 * VRAM_SIZE) as nat, |i: int| 0u8),
            oam: Seq::new(OAM_SIZE as nat, |i: int| 0u8),
            pal: PaletteView::initial(),
        }
    }
}

impl View for GPU {
    type V = GpuView;

    closed spec fn view(&self) -> GpuView {
        GpuView {
            regs: self.regs,
            image: self.image_data@,
            vram: self.vram@,
            oam: self.oam@,
            pal: self.pal@,
        }
    }
}

/// The line register cannot be written: a write to it changes nothing.
pub proof fn law_line_register_is_read_only(g: GpuView, val: u8)
    ensures
        g.write_byte(0xFF44, val) == g,
        g.read_byte(0xFF44) == g.regs.ly,
{
}

/// Two models of the pixel unit are equal if they agree field by field.
pub proof fn lemma_same_view(a: GpuView, b: GpuView)
    requires
        a.regs == b.regs,
        a.image == b.image,
        a.vram == b.vram,
        a.oam == b.oam,
        a.pal == b.pal,
    ensures
        a == b,
{
}

impl GPU {
    /// The cache of decoded tiles is in order for the video memory.
    pub closed spec fn cache_ok(&self) -> bool {
        self.cache@.agrees(self.vram@)
    }

    /// The unit's memories and registers are well formed and its tile cache
    /// is in order.
    pub open spec fn wf(&self) -> bool {
        self@.wf() && self.cache_ok()
    }

    /// The pixel unit as it is when the machine is switched on: the screen
    /// off and white, all memories and registers zero.
    pub fn new(_target: Target) -> (gpu: GPU)
        ensures
            gpu.wf(),
            gpu@ == GpuView::initial(),
    {
        let gpu = GPU {
            regs: LcdRegs {
                is_cgb: false,
                is_sgb: false,
                clock: 0,
                vram_bank: 0,
                mode: Mode::RdOAM,
                hdma_src: 0,
                hdma_dst: 0,
                hdma5: 0,
                lcd_enabled: false,
                win_tmap: false,
                win_enabled: false,
                tile_data: false,
                bg_tmap: false,
                obj_size: false,
                obj_enabled: false,
                bg_enabled: false,
                lycly: false,
                mode2_int: false,
                mode1_int: false,
                mode0_int: false,
                scy: 0,
                scx: 0,
                ly: 0,
                lyc: 0,
                bgp: 0,
                obp0: 0,
                obp1: 0,
                wy: 0,
                wx: 0,
            },
            image_data: vec![0xFFu8; IMAGE_SIZE],
            vram: vec![0u8; 2 * VRAM_SIZE],
            oam: vec![0u8; OAM_SIZE],
            pal: Palettes::new(),
            cache: TileCache::new(),
        };
        proof {
            let v = GpuView::initial();
            assert(gpu@.image =~= v.image);
            assert(gpu@.vram =~= v.vram);
            assert(gpu@.oam =~= v.oam);
            lemma_same_view(gpu@, v);
        }
        gpu
    }

    /// Reads a byte of video memory, of the sprite table or of a register.
    pub fn read_byte(&self, addr: u16) -> (r: u8)
        requires
            self@.wf(),
        ensures
            r == self@.read_byte(addr),
    {
        let regs = &self.regs;
        if 0x8000 <= addr && addr < 0xA000 {
            self.vram[regs.vram_bank as usize * VRAM_SIZE + (addr - 0x8000) as usize]
        } else if 0xFE00 <= addr && addr < 0xFEA0 {
            self.oam[(addr - 0xFE00) as usize]
        } else if addr == 0xFF40 {
            regs.read_lcdc()
        } else if addr == 0xFF41 {
            regs.read_stat()
        } else if addr == 0xFF42 {
            regs.scy
        } else if addr == 0xFF43 {
            regs.scx
        } else if addr == 0xFF44 {
            regs.ly
        } else if addr == 0xFF45 {
            regs.lyc
        } else if addr == 0xFF47 {
            regs.bgp
        } else if addr == 0xFF48 {
            regs.obp0
        } else if addr == 0xFF49 {
            regs.obp1
        } else if addr == 0xFF4A {
            regs.wy
        } else if addr == 0xFF4B {
            regs.wx
        } else if addr == 0xFF4F {
            regs.vram_bank
        } else if addr == 0xFF51 {
            (regs.hdma_src / 256) as u8
        } else if addr == 0xFF52 {
            (regs.hdma_src % 256) as u8
        } else if addr == 0xFF53 {
            (regs.hdma_dst / 256) as u8
        } else if addr == 0xFF54 {
            (regs.hdma_dst % 256) as u8
        } else if addr == 0xFF55 {
            regs.hdma5
        } else if addr == 0xFF68 {
            self.pal.bg_index()
        } else if addr == 0xFF69 {
            self.pal.bg_byte()
        } else if addr == 0xFF6A {
            self.pal.obj_index()
        } else if addr == 0xFF6B {
            self.pal.obj_byte()
        } else {
            0xFF
        }
    }

    /// Writes a byte of video memory and, where it belongs to a tile, marks
    /// that tile for decoding.
    fn write_vram(&mut self, addr: u16, val: u8)
        requires
            old(self).wf(),
            0x8000 <= addr < 0xA000,
        ensures
            final(self).wf(),
            final(self)@ == old(self)@.write_byte(addr, val),
    {
        let index: usize = self.regs.vram_bank as usize * VRAM_SIZE + (addr - 0x8000) as usize;
        self.cache.touch(index, Ghost(self.vram@), Ghost(val));
        self.vram[index] = val;
        proof {
            lemma_same_view(self@, old(self)@.write_byte(addr, val));
        }
    }

    /// Writes a byte of the sprite table.
    fn write_oam(&mut self, addr: u16, val: u8)
        requires
            old(self).wf(),
            0xFE00 <= addr < 0xFEA0,
        ensures
            final(self).wf(),
            final(self)@ == old(self)@.write_byte(addr, val),
    {
        self.oam[(addr - 0xFE00) as usize] = val;
        proof {
            lemma_same_view(self@, old(self)@.write_byte(addr, val));
        }
    }

    /// Writes one of the four palette ports of the color machine.
    fn write_palette_port(&mut self, addr: u16, val: u8)
        requires
            old(self).wf(),
            0xFF68 <= addr <= 0xFF6B,
        ensures
            final(self).wf(),
            final(self)@ == old(self)@.write_byte(addr, val),
    {
        if addr == 0xFF68 {
            self.pal.set_bg_index(val);
        } else if addr == 0xFF69 {
            self.pal.set_bg_byte(val);
        } else if addr == 0xFF6A {
            self.pal.set_obj_index(val);
        } else {
            self.pal.set_obj_byte(val);
        }
        proof {
            lemma_same_view(self@, old(self)@.write_byte(addr, val));
        }
    }

    /// Writes one of the three palette registers of the monochrome machine
    /// and compiles its colors.
    fn write_shades(&mut self, addr: u16, val: u8)
        requires
            old(self).wf(),
            addr == 0xFF47 || addr == 0xFF48 || addr == 0xFF49,
        ensures
            final(self).wf(),
            final(self)@ == old(self)@.write_byte(addr, val),
    {
        let regs = self.regs;
        if addr == 0xFF47 {
            self.pal.set_shades(Shades::Background, val);
            self.regs = LcdRegs { bgp: val, ..regs };
        } else if addr == 0xFF48 {
            self.pal.set_shades(Shades::Object0, val);
            self.regs = LcdRegs { obp0: val, ..regs };
        } else {
            self.pal.set_shades(Shades::Object1, val);
            self.regs = LcdRegs { obp1: val, ..regs };
        }
        proof {
            lemma_same_view(self@, old(self)@.write_byte(addr, val));
        }
    }

    /// Writes a register that has no memory behind it.
    fn write_reg(&mut self, addr: u16, val: u8)
        requires
            old(self).wf(),
            addr >= 0xFF00,
            addr != 0xFF47,
            addr != 0xFF48,
            addr != 0xFF49,
            addr < 0xFF68 || addr > 0xFF6B,
        ensures
            final(self).wf(),
            final(self)@ == old(self)@.write_byte(addr, val),
    {
        let regs = self.regs;
        let next = if addr == 0xFF40 {
            regs.write_lcdc(val)
        } else if addr == 0xFF41 {
            regs.write_stat(val)
        } else if addr == 0xFF42 {
            LcdRegs { scy: val, ..regs }
        } else if addr == 0xFF43 {
            LcdRegs { scx: val, ..regs }
        } else if addr == 0xFF45 {
            LcdRegs { lyc: val, ..regs }
        } else if addr == 0xFF4A {
            LcdRegs { wy: val, ..regs }
        } else if addr == 0xFF4B {
            LcdRegs { wx: val, ..regs }
        } else if addr == 0xFF4F && regs.is_cgb {
            LcdRegs { vram_bank: val % 2, ..regs }
        } else if addr == 0xFF51 {
            LcdRegs { hdma_src: regs.hdma_src % 256 + (val as u16) * 256, ..regs }
        } else if addr == 0xFF52 {
            LcdRegs { hdma_src: (regs.hdma_src / 256) * 256 + val as u16, ..regs }
        } else if addr == 0xFF53 {
            LcdRegs { hdma_dst: regs.hdma_dst % 256 + (val as u16) * 256, ..regs }
        } else if addr == 0xFF54 {
            LcdRegs { hdma_dst: (regs.hdma_dst / 256) * 256 + val as u16, ..regs }
        } else {
            regs
        };
        assert(next == self@.write_byte(addr, val).regs);
        self.regs = next;
        proof {
            lemma_same_view(self@, old(self)@.write_byte(addr, val));
        }
    }

    /// Writes a byte of video memory, of the sprite table or of a register.
    pub fn write_byte(&mut self, addr: u16, val: u8)
        requires
            old(self).wf(),
        ensures
            final(self).wf(),
            final(self)@ == old(self)@.write_byte(addr, val),
    {
        if 0x8000 <= addr && addr < 0xA000 {
            self.write_vram(addr, val);
        } else if 0xFE00 <= addr && addr < 0xFEA0 {
            self.write_oam(addr, val);
        } else if 0xFF68 <= addr && addr <= 0xFF6B {
            self.write_palette_port(addr, val);
        } else if addr == 0xFF47 || addr == 0xFF48 || addr == 0xFF49 {
            self.write_shades(addr, val);
        } else if addr >= 0xFF00 {
            self.write_reg(addr, val);
        }
    }

    /// Fills the sprite table with the 160 bytes that the bus shows from
    /// `val * 256` on, as they are before the transfer.
    pub fn oam_dma_transfer(mem: &mut Memory, val: u8)
        requires
            old(mem).wf(),
        ensures
            final(mem).wf(),
            final(mem)@ == old(mem)@.oam_dma(val),
    {
        let base: u16 = val as u16 * 256;
        let mut bytes: Vec<u8> = Vec::new();
        let mut i: u16 = 0;
        while i < 0xA0
            invariant
                i <= 0xA0,
                base == val * 256,
                mem.wf(),
                bytes@.len() == i,
                forall|j: int| 0 <= j < i ==> #[trigger] bytes@[j] == mem@.read_byte((base + j) as u16),
            decreases 0xA0 - i,
        {
            bytes.push(mem.read_byte(base + i));
            i += 1;
        }
        let ghost before = mem@;
        mem.gpu.oam = bytes;
        proof {
            let copied = Seq::new(0xA0, |i: int| before.read_byte((val * 256 + i) as u16));
            assert(mem.gpu@.oam =~= copied);
            lemma_same_view(mem.gpu@, GpuView { oam: copied, ..before.gpu });
            lemma_same_memory(mem@, before.oam_dma(val));
        }
    }

    /// Starts a transfer into video memory on the color machine. No such
    /// transfer is carried out: the bus stays as it is.
    pub fn hdma_dma_transfer(mem: &mut Memory, _val: u8)
        ensures
            *final(mem) == *old(mem),
    {
    }

    /// The framebuffer: 160 by 144 pixels, line by line, four bytes each.
    pub fn image_data(&self) -> (image: &Vec<u8>)
        ensures
            image@ == self@.image,
    {
        &self.image_data
    }

    /// The registers.
    pub fn regs(&self) -> (regs: LcdRegs)
        ensures
            regs == self@.regs,
    {
        self.regs
    }

    /// Switches the functions of the color machine and of the Super Game
    /// Boy on or off.
    pub fn set_modes(&mut self, cgb: bool, sgb: bool)
        requires
            old(self).wf(),
        ensures
            final(self).wf(),
            final(self)@ == old(self)@.with_modes(cgb, sgb),
    {
        let regs = self.regs;
        self.regs = LcdRegs { is_cgb: cgb, is_sgb: sgb, ..regs };
        proof {
            lemma_same_view(self@, old(self)@.with_modes(cgb, sgb));
        }
    }

    /// Paints the whole screen white.
    pub fn clear(&mut self)
        requires
            old(self).wf(),
        ensures
            final(self).wf(),
            final(self)@ == (GpuView {
                image: Seq::new(IMAGE_SIZE as nat, |i: int| 0xFFu8),
                ..old(self)@
            }),
    {
        self.image_data = vec![0xFFu8; IMAGE_SIZE];
        proof {
            assert(self.image_data@ =~= Seq::new(IMAGE_SIZE as nat, |i: int| 0xFFu8));
            lemma_same_view(
                self@,
                GpuView { image: Seq::new(IMAGE_SIZE as nat, |i: int| 0xFFu8), ..old(self)@ },
            );
        }
    }
}

} // verus!
