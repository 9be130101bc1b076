//! Colors and the palettes that turn color indices into them.

use vstd::prelude::*;

verus! {

/// A color as four bytes: red, green, blue, alpha.
#[derive(Debug, Clone, Copy, PartialEq, Eq, Structural)]
pub struct Color {
    pub r: u8,
    pub g: u8,
    pub b: u8,
    pub a: u8,
}

/// Number of bytes in each of the two palette memories of the color machine.
pub const CGB_BP_SIZE: usize = 64;

/// The three palette registers of the monochrome machine.
#[derive(Debug, Clone, Copy, PartialEq, Eq, Structural)]
pub enum Shades {
    Background,
    Object0,
    Object1,
}

/// The palettes of the pixel unit, each compiled into colors.
pub struct Palettes {
    bg: Vec<Color>,
    obp0: Vec<Color>,
    obp1: Vec<Color>,
    cgb_bgp: Vec<u8>,
    cgb_obp: Vec<u8>,
    cbgp: Vec<Color>,
    cobp: Vec<Color>,
    sgb_atf: Vec<u8>,
    sgb_pal: Vec<Color>,
    bgp_index: u8,
    bgp_step: bool,
    obp_index: u8,
    obp_step: bool,
}

/// The mathematical model of the palettes.
pub struct PaletteView {
    /// The colors that the background palette register stands for.
    pub bg: Seq<Color>,
    /// The colors that the first sprite palette register stands for.
    pub obp0: Seq<Color>,
    /// The colors that the second sprite palette register stands for.
    pub obp1: Seq<Color>,
    /// Background palette memory of the color machine.
    pub cgb_bgp: Seq<u8>,
    /// Sprite palette memory of the color machine.
    pub cgb_obp: Seq<u8>,
    /// The eight background palettes of the color machine, four colors each.
    pub cbgp: Seq<Color>,
    /// The eight sprite palettes of the color machine, four colors each.
    pub cobp: Seq<Color>,
    /// Super Game Boy: the palette that each block of 8 by 8 pixels uses.
    pub sgb_atf: Seq<u8>,
    /// Super Game Boy: four palettes of four colors each.
    pub sgb_pal: Seq<Color>,
    /// Byte of the background palette memory that its data port reaches.
    pub bgp_index: u8,
    /// Whether a write to the data port moves `bgp_index` on.
    pub bgp_step: bool,
    /// Byte of the sprite palette memory that its data port reaches.
    pub obp_index: u8,
    /// Whether a write to the data port moves `obp_index` on.
    pub obp_step: bool,
}

/// A palette index register as the bus reads it: the index in the low six
/// bits, and bit 7 set if writes to the data port move the index on.
pub open spec fn index_register(index: u8, step: bool) -> u8 {
    if step {
        (index + 128) as u8
    } else {
        index
    }
}

/// A palette index after a write to the data port: it moves on by one,
/// from 63 back to 0, if it is set to.
pub open spec fn index_advanced(index: u8, step: bool) -> u8 {
    if step {
        ((index + 1) % 64) as u8
    } else {
        index
    }
}

/// The four shades of the monochrome screen, lightest first.
pub open spec fn shade_of(k: int) -> Color {
    if k == 0 {
        Color { r: 255, g: 255, b: 255, a: 255 }
    } else if k == 1 {
        Color { r: 192, g: 192, b: 192, a: 255 }
    } else if k == 2 {
        Color { r: 96, g: 96, b: 96, a: 255 }
    } else {
        Color { r: 0, g: 0, b: 0, a: 255 }
    }
}

/// The shade that a palette register assigns to color index `i`: the
/// register holds four shades of two bits each, index 0 lowest.
pub open spec fn palette_shade(val: u8, i: int) -> int {
    if i == 0 {
        val as int % 4
    } else if i == 1 {
        (val as int / 4) % 4
    } else if i == 2 {
        (val as int / 16) % 4
    } else {
        val as int / 64
    }
}

/// The four colors that a palette register stands for.
pub open spec fn compiled_palette(val: u8) -> Seq<Color> {
    seq![
        shade_of(palette_shade(val, 0)),
        shade_of(palette_shade(val, 1)),
        shade_of(palette_shade(val, 2)),
        shade_of(palette_shade(val, 3)),
    ]
}

/// The color that two bytes of palette memory hold: five bits each of red,
/// green and blue from the low end of the 16-bit value, each scaled by 8.
pub open spec fn rgb555(lo: u8, hi: u8) -> Color {
    let w = hi as int * 256 + lo as int;
    Color {
        r: ((w % 32) * 8) as u8,
        g: (((w / 32) % 32) * 8) as u8,
        b: (((w / 1024) % 32) * 8) as u8,
        a: 255,
    }
}

/// The compiled colors of the color machine after the byte at `addr` of its
/// palette memory `mem` changed: the one color that the byte belongs to is
/// decoded anew.
pub open spec fn recompiled(pal: Seq<Color>, mem: Seq<u8>, addr: u8) -> Seq<Color> {
    pal.update(addr as int / 2, rgb555(mem[addr - addr % 2], mem[addr - addr % 2 + 1]))
}

/// The color that the Super Game Boy shows in place of a shade of the
/// monochrome screen, from the palette `mapped` of its four: white maps to
/// the palette's first color, black to its last.
pub open spec fn sgb_color(sgb_pal: Seq<Color>, mapped: int, shade: Color) -> Color {
    if shade.r == 0 {
        sgb_pal[mapped * 4 + 3]
    } else if shade.r == 96 {
        sgb_pal[mapped * 4 + 2]
    } else if shade.r == 192 {
        sgb_pal[mapped * 4 + 1]
    } else if shade.r == 255 {
        sgb_pal[mapped * 4]
    } else {
        Color { r: 0, g: 0, b: 0, a: 0 }
    }
}

impl PaletteView {
    /// Every palette has its size and each block of the Super Game Boy
    /// names one of its four palettes.
    pub open spec fn wf(self) -> bool {
        &&& self.bg.len() == 4
        &&& self.obp0.len() == 4
        &&& self.obp1.len() == 4
        &&& self.cgb_bgp.len() == CGB_BP_SIZE
        &&& self.cgb_obp.len() == CGB_BP_SIZE
        &&& self.cbgp.len() == 32
        &&& self.cobp.len() == 32
        &&& self.sgb_atf.len() == 360
        &&& self.sgb_pal.len() == 16
        &&& self.bgp_index < 64
        &&& self.obp_index < 64
        &&& forall|i: int| 0 <= i < 360 ==> #[trigger] self.sgb_atf[i] < 4
    }

    /// The palettes as they are when the machine is switched on.
    pub open spec fn initial() -> PaletteView {
        PaletteView {
            bg: Seq::new(4, |i: int| Color { r: 0, g: 0, b: 0, a: 0 }),
            obp0: Seq::new(4, |i: int| Color { r: 0, g: 0, b: 0, a: 0 }),
            obp1: Seq::new(4, |i: int| Color { r: 0, g: 0, b: 0, a: 0 }),
            cgb_bgp: Seq::new(CGB_BP_SIZE as nat, |i: int| 255u8),
            cgb_obp: Seq::new(CGB_BP_SIZE as nat, |i: int| 0u8),
            cbgp: Seq::new(32, |i: int| Color { r: 255, g: 255, b: 255, a: 255 }),
            cobp: Seq::new(32, |i: int| Color { r: 0, g: 0, b: 0, a: 255 }),
            sgb_atf: Seq::new(360, |i: int| 0u8),
            sgb_pal: Seq::new(16, |i: int| Color { r: 0, g: 0, b: 0, a: 255 }),
            bgp_index: 0,
            bgp_step: false,
            obp_index: 0,
            obp_step: false,
        }
    }

    /// The four colors of one of the palettes of the monochrome machine.
    pub open spec fn shades(self, which: Shades) -> Seq<Color> {
        match which {
            Shades::Background => self.bg,
            Shades::Object0 => self.obp0,
            Shades::Object1 => self.obp1,
        }
    }

    /// The color that the Super Game Boy shows for a shade in the block
    /// `block` of the screen.
    pub open spec fn sgb_mapped(self, block: int, shade: Color) -> Color {
        sgb_color(self.sgb_pal, self.sgb_atf[block] as int, shade)
    }

    /// The palettes after a palette register of the monochrome machine
    /// took the value `val`.
    pub open spec fn with_shades(self, which: Shades, val: u8) -> PaletteView {
        match which {
            Shades::Background => PaletteView { bg: compiled_palette(val), ..self },
            Shades::Object0 => PaletteView { obp0: compiled_palette(val), ..self },
            Shades::Object1 => PaletteView { obp1: compiled_palette(val), ..self },
        }
    }

    /// The palettes after a write of `val` to the index register of the
    /// color machine's background palette memory.
    pub open spec fn with_bg_index(self, val: u8) -> PaletteView {
        PaletteView { bgp_index: val % 64, bgp_step: val >= 128, ..self }
    }

    /// The palettes after a write of `val` to the index register of the
    /// color machine's sprite palette memory.
    pub open spec fn with_obj_index(self, val: u8) -> PaletteView {
        PaletteView { obp_index: val % 64, obp_step: val >= 128, ..self }
    }

    /// The palettes after a write of `val` to the data port of the color
    /// machine's background palette memory: the byte under the index takes
    /// the value, its color is decoded anew, and the index moves on.
    pub open spec fn with_bg_byte(self, val: u8) -> PaletteView {
        let mem = self.cgb_bgp.update(self.bgp_index as int, val);
        PaletteView {
            cgb_bgp: mem,
            cbgp: recompiled(self.cbgp, mem, self.bgp_index),
            bgp_index: index_advanced(self.bgp_index, self.bgp_step),
            ..self
        }
    }

    /// The palettes after a write of `val` to the data port of the color
    /// machine's sprite palette memory.
    pub open spec fn with_obj_byte(self, val: u8) -> PaletteView {
        let mem = self.cgb_obp.update(self.obp_index as int, val);
        PaletteView {
            cgb_obp: mem,
            cobp: recompiled(self.cobp, mem, self.obp_index),
            obp_index: index_advanced(self.obp_index, self.obp_step),
            ..self
        }
    }
}

impl View for Palettes {
    type V = PaletteView;

    closed spec fn view(&self) -> PaletteView {
        PaletteView {
            bg: self.bg@,
            obp0: self.obp0@,
            obp1: self.obp1@,
            cgb_bgp: self.cgb_bgp@,
            cgb_obp: self.cgb_obp@,
            cbgp: self.cbgp@,
            cobp: self.cobp@,
            sgb_atf: self.sgb_atf@,
            sgb_pal: self.sgb_pal@,
            bgp_index: self.bgp_index,
            bgp_step: self.bgp_step,
            obp_index: self.obp_index,
            obp_step: self.obp_step,
        }
    }
}

/// One of the four shades of the monochrome screen.
pub fn shade(k: u8) -> (c: Color)
    requires
        k < 4,
    ensures
        c == shade_of(k as int),
{
    if k == 0 {
        Color { r: 255, g: 255, b: 255, a: 255 }
    } else if k == 1 {
        Color { r: 192, g: 192, b: 192, a: 255 }
    } else if k == 2 {
        Color { r: 96, g: 96, b: 96, a: 255 }
    } else {
        Color { r: 0, g: 0, b: 0, a: 255 }
    }
}

/// Compiles a palette register into its four colors.
pub fn update_palette(val: u8) -> (pal: Vec<Color>)
    ensures
        pal@ == compiled_palette(val),
{
    let pal = vec![shade(val % 4), shade((val / 4) % 4), shade((val / 16) % 4), shade(val / 64)];
    assert(pal@ =~= compiled_palette(val));
    pal
}

/// Index of the first of the two bytes of palette memory that hold the
/// color which the byte at `addr`, taken modulo the size of the memory,
/// belongs to.
pub open spec fn pair_start(addr: u8) -> int {
    let at = addr % 64;
    at - at % 2
}

/// Decodes the color that a byte of a palette memory belongs to.
pub fn update_cgb_palette(mem: &Vec<u8>, addr: u8) -> (c: Color)
    requires
        mem@.len() == CGB_BP_SIZE,
    ensures
        c == rgb555(mem@[pair_start(addr)], mem@[pair_start(addr) + 1]),
{
    let at: u8 = addr % 64;
    let even: usize = (at - at % 2) as usize;
    let lo: u8 = mem[even];
    let hi: u8 = mem[even + 1];
    let w: u16 = hi as u16 * 256 + lo as u16;
    Color {
        r: ((w % 32) * 8) as u8,
        g: (((w / 32) % 32) * 8) as u8,
        b: (((w / 1024) % 32) * 8) as u8,
        a: 255,
    }
}

impl Palettes {
    /// The palettes as they are when the machine is switched on: the
    /// monochrome ones transparent black, the color machine's background
    /// white and its sprites black.
    pub fn new() -> (p: Palettes)
        ensures
            p@ == PaletteView::initial(),
            p@.wf(),
    {
        let white = Color { r: 255, g: 255, b: 255, a: 255 };
        let black = Color { r: 0, g: 0, b: 0, a: 255 };
        let clear = Color { r: 0, g: 0, b: 0, a: 0 };
        let p = Palettes {
            bg: vec![clear; 4],
            obp0: vec![clear; 4],
            obp1: vec![clear; 4],
            cgb_bgp: vec![255u8; CGB_BP_SIZE],
            cgb_obp: vec![0u8; CGB_BP_SIZE],
            cbgp: vec![white; 32],
            cobp: vec![black; 32],
            sgb_atf: vec![0u8; 360],
            sgb_pal: vec![black; 16],
            bgp_index: 0,
            bgp_step: false,
            obp_index: 0,
            obp_step: false,
        };
        proof {
            let v = PaletteView::initial();
            assert(p@.bg =~= v.bg);
            assert(p@.obp0 =~= v.obp0);
            assert(p@.obp1 =~= v.obp1);
            assert(p@.cgb_bgp =~= v.cgb_bgp);
            assert(p@.cgb_obp =~= v.cgb_obp);
            assert(p@.cbgp =~= v.cbgp);
            assert(p@.cobp =~= v.cobp);
            assert(p@.sgb_atf =~= v.sgb_atf);
            assert(p@.sgb_pal =~= v.sgb_pal);
        }
        p
    }

    /// Compiles anew the colors of a palette register of the monochrome
    /// machine that took the value `val`.
    pub fn set_shades(&mut self, which: Shades, val: u8)
        requires
            old(self)@.wf(),
        ensures
            final(self)@.wf(),
            final(self)@ == old(self)@.with_shades(which, val),
    {
        let pal = update_palette(val);
        match which {
            Shades::Background => {
                self.bg = pal;
            },
            Shades::Object0 => {
                self.obp0 = pal;
            },
            Shades::Object1 => {
                self.obp1 = pal;
            },
        }
    }

    /// Writes the index register of the background palette memory.
    pub fn set_bg_index(&mut self, val: u8)
        requires
            old(self)@.wf(),
        ensures
            final(self)@.wf(),
            final(self)@ == old(self)@.with_bg_index(val),
    {
        self.bgp_index = val % 64;
        self.bgp_step = val >= 128;
    }

    /// Writes the index register of the sprite palette memory.
    pub fn set_obj_index(&mut self, val: u8)
        requires
            old(self)@.wf(),
        ensures
            final(self)@.wf(),
            final(self)@ == old(self)@.with_obj_index(val),
    {
        self.obp_index = val % 64;
        self.obp_step = val >= 128;
    }

    /// Reads the index register of the background palette memory.
    pub fn bg_index(&self) -> (r: u8)
        requires
            self@.wf(),
        ensures
            r == index_register(self@.bgp_index, self@.bgp_step),
    {
        if self.bgp_step {
            self.bgp_index + 128
        } else {
            self.bgp_index
        }
    }

    /// Reads the index register of the sprite palette memory.
    pub fn obj_index(&self) -> (r: u8)
        requires
            self@.wf(),
        ensures
            r == index_register(self@.obp_index, self@.obp_step),
    {
        if self.obp_step {
            self.obp_index + 128
        } else {
            self.obp_index
        }
    }

    /// Writes the data port of the background palette memory.
    pub fn set_bg_byte(&mut self, val: u8)
        requires
            old(self)@.wf(),
        ensures
            final(self)@.wf(),
            final(self)@ == old(self)@.with_bg_byte(val),
    {
        let index: u8 = self.bgp_index;
        self.cgb_bgp[index as usize] = val;
        let color = update_cgb_palette(&self.cgb_bgp, index);
        self.cbgp[(index / 2) as usize] = color;
        if self.bgp_step {
            self.bgp_index = (index + 1) % 64;
        }
    }

    /// Writes the data port of the sprite palette memory.
    pub fn set_obj_byte(&mut self, val: u8)
        requires
            old(self)@.wf(),
        ensures
            final(self)@.wf(),
            final(self)@ == old(self)@.with_obj_byte(val),
    {
        let index: u8 = self.obp_index;
        self.cgb_obp[index as usize] = val;
        let color = update_cgb_palette(&self.cgb_obp, index);
        self.cobp[(index / 2) as usize] = color;
        if self.obp_step {
            self.obp_index = (index + 1) % 64;
        }
    }

    /// Color `index` of a palette of the monochrome machine.
    pub fn shade_color(&self, which: Shades, index: u8) -> (c: Color)
        requires
            self@.wf(),
            index < 4,
        ensures
            c == self@.shades(which)[index as int],
    {
        match which {
            Shades::Background => self.bg[index as usize],
            Shades::Object0 => self.obp0[index as usize],
            Shades::Object1 => self.obp1[index as usize],
        }
    }

    /// Color `index` of background palette `palette` of the color machine.
    pub fn cgb_bg_color(&self, palette: u8, index: u8) -> (c: Color)
        requires
            self@.wf(),
            palette < 8,
            index < 4,
        ensures
            c == self@.cbgp[palette * 4 + index],
    {
        self.cbgp[palette as usize * 4 + index as usize]
    }

    /// Color `index` of sprite palette `palette` of the color machine.
    pub fn cgb_obj_color(&self, palette: u8, index: u8) -> (c: Color)
        requires
            self@.wf(),
            palette < 8,
            index < 4,
        ensures
            c == self@.cobp[palette * 4 + index],
    {
        self.cobp[palette as usize * 4 + index as usize]
    }

    /// The color that the Super Game Boy shows for a shade in a block of
    /// the screen.
    pub fn sgb_map(&self, block: usize, shade: Color) -> (c: Color)
        requires
            self@.wf(),
            block < 360,
        ensures
            c == self@.sgb_mapped(block as int, shade),
    {
        let mapped: usize = self.sgb_atf[block] as usize;
        if shade.r == 0 {
            self.sgb_pal[mapped * 4 + 3]
        } else if shade.r == 96 {
            self.sgb_pal[mapped * 4 + 2]
        } else if shade.r == 192 {
            self.sgb_pal[mapped * 4 + 1]
        } else if shade.r == 255 {
            self.sgb_pal[mapped * 4]
        } else {
            Color { r: 0, g: 0, b: 0, a: 0 }
        }
    }

    /// Reads the data port of the background palette memory.
    pub fn bg_byte(&self) -> (r: u8)
        requires
            self@.wf(),
        ensures
            r == self@.cgb_bgp[self@.bgp_index as int],
    {
        self.cgb_bgp[self.bgp_index as usize]
    }

    /// Reads the data port of the sprite palette memory.
    pub fn obj_byte(&self) -> (r: u8)
        requires
            self@.wf(),
        ensures
            r == self@.cgb_obp[self@.obp_index as int],
    {
        self.cgb_obp[self.obp_index as usize]
    }
}

} // verus!
