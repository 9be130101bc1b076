//! What the pixel unit paints: for each pixel of a line, the color that the
//! background, the window and the sprites give it.

use vstd::prelude::*;
use crate::gpu::palette::{Color, PaletteView};
use crate::gpu::tiles::tile_pixel;
use crate::gpu::{GpuView, LcdRegs, IMAGE_SIZE};

verus! {

/// All that decides what the unit paints: everything but the framebuffer.
pub struct Scene {
    pub regs: LcdRegs,
    pub vram: Seq<u8>,
    pub oam: Seq<u8>,
    pub pal: PaletteView,
}

/// A pixel of the background or the window.
pub struct Dot {
    /// Color index within its palette.
    pub index: u8,
    /// Whether the tile asks to stand before the sprites.
    pub priority: bool,
    pub color: Color,
}

impl GpuView {
    /// All of the unit but its framebuffer.
    pub open spec fn scene(self) -> Scene {
        Scene { regs: self.regs, vram: self.vram, oam: self.oam, pal: self.pal }
    }
}

/// The pixel whose four bytes start at `4 * p` of a framebuffer.
pub open spec fn pixel_at(image: Seq<u8>, p: int) -> Color {
    Color { r: image[4 * p], g: image[4 * p + 1], b: image[4 * p + 2], a: image[4 * p + 3] }
}

/// One of the four bytes of a color.
pub open spec fn channel(c: Color, k: int) -> u8 {
    if k == 0 {
        c.r
    } else if k == 1 {
        c.g
    } else if k == 2 {
        c.b
    } else {
        c.a
    }
}

/// The tile that a byte of a tile map names: counted from the first tile
/// if the control register says so, else signed from tile 256.
pub open spec fn tile_number(s: Scene, tile_i: u8) -> int {
    if s.regs.tile_data || tile_i >= 128 {
        tile_i as int
    } else {
        256 + tile_i
    }
}

/// The block of the Super Game Boy that column `px` of the current line
/// lies in.
pub open spec fn sgb_block(s: Scene, px: int) -> int {
    px / 8 + (s.regs.ly / 8) * 20
}

/// The color of a shade of the monochrome machine at column `px`, which
/// the Super Game Boy maps through the palette of the block.
pub open spec fn shown(s: Scene, px: int, shade: Color) -> Color {
    if s.regs.is_sgb {
        s.pal.sgb_mapped(sgb_block(s, px), shade)
    } else {
        shade
    }
}

/// The pixel at row `y` and column `x` of the tile that entry `map_index`
/// of a tile map names, shown at column `px` of the screen. On the color
/// machine the entry's attributes in bank 1 choose the bank of the tile,
/// one of eight palettes, and whether the tile is flipped.
pub open spec fn map_dot(s: Scene, map_index: int, y: int, x: int, px: int) -> Dot {
    let number = tile_number(s, s.vram[map_index]);
    if s.regs.is_cgb {
        let attrs = s.vram[0x2000 + map_index];
        let row = if (attrs / 64) % 2 == 1 {
            7 - y
        } else {
            y
        };
        let col = if (attrs / 32) % 2 == 1 {
            7 - x
        } else {
            x
        };
        let index = tile_pixel(s.vram, number + ((attrs / 8) % 2) * 384, row, col);
        Dot { index, priority: attrs >= 128, color: s.pal.cbgp[(attrs % 8) * 4 + index] }
    } else {
        let index = tile_pixel(s.vram, number, y, x);
        Dot { index, priority: false, color: shown(s, px, s.pal.bg[index as int]) }
    }
}

/// Offset in video memory of the tile map that a control bit selects.
pub open spec fn map_base(second: bool) -> int {
    if second {
        0x1C00
    } else {
        0x1800
    }
}

/// The background's pixel at column `px` of the current line: the
/// background is a map of 32 by 32 tiles that wraps around, scrolled by the
/// scroll registers.
pub open spec fn bg_dot(s: Scene, px: int) -> Dot {
    let line = (s.regs.ly + s.regs.scy) % 256;
    let column = (px + s.regs.scx) % 256;
    map_dot(s, map_base(s.regs.bg_tmap) + (line / 8) * 32 + column / 8, line % 8, column % 8, px)
}

/// First column of the screen that the window covers.
pub open spec fn win_start(s: Scene) -> int {
    if s.regs.wx < 7 {
        0
    } else {
        s.regs.wx - 7
    }
}

/// Column within its first tile at which the window starts.
pub open spec fn win_skip(s: Scene) -> int {
    if s.regs.wx < 7 {
        7 - s.regs.wx
    } else {
        (s.regs.wx - 7) % 8
    }
}

/// Whether the window covers column `px` of the current line.
pub open spec fn window_covers(s: Scene, px: int) -> bool {
    s.regs.win_enabled && s.regs.ly >= s.regs.wy && s.regs.wx < 167 && px >= win_start(s)
}

/// The window's pixel at column `px` of the current line.
pub open spec fn win_dot(s: Scene, px: int) -> Dot {
    let line = s.regs.ly - s.regs.wy;
    let column = px - win_start(s) + win_skip(s);
    map_dot(s, map_base(s.regs.win_tmap) + (line / 8) * 32 + column / 8, line % 8, column % 8, px)
}

/// What the sprites see of a pixel of the background or the window: its
/// color index, or 4 where the tile asks to stand before them.
pub open spec fn dot_mark(d: Dot) -> u8 {
    if d.priority {
        4
    } else {
        d.index
    }
}

/// What lies behind the sprites at column `px`: the window where it covers
/// the column, else the background if it is shown.
pub open spec fn layer(s: Scene, px: int) -> Option<Dot> {
    if window_covers(s, px) {
        Some(win_dot(s, px))
    } else if s.regs.bg_enabled {
        Some(bg_dot(s, px))
    } else {
        None
    }
}

/// What the sprites see of the layer behind them at column `px`: its color
/// index, 4 where the tile asks to stand before them, 0 where nothing lies.
#[verifier::opaque]
pub open spec fn mark(s: Scene, px: int) -> u8 {
    match layer(s, px) {
        Some(d) => dot_mark(d),
        None => 0,
    }
}

/// Height of a sprite in lines.
pub open spec fn obj_height(s: Scene) -> int {
    if s.regs.obj_size {
        16
    } else {
        8
    }
}

/// Screen line of the top of sprite `n`.
pub open spec fn obj_top(s: Scene, n: int) -> int {
    s.oam[4 * n] - 16
}

/// Screen column of the left edge of sprite `n`.
pub open spec fn obj_left(s: Scene, n: int) -> int {
    s.oam[4 * n + 1] - 8
}

/// Whether sprite `n` has a row on the current line and a column on the screen.
pub open spec fn obj_on_line(s: Scene, n: int) -> bool {
    obj_top(s, n) <= s.regs.ly < obj_top(s, n) + obj_height(s) && -8 < obj_left(s, n) < 160
}

/// The color index that sprite `n` has at column `px` of the current line.
/// A sprite of 16 lines is made of two tiles, the upper with an even
/// number; bit 6 of the attributes flips each tile top to bottom and bit 5
/// left to right.
pub open spec fn obj_index(s: Scene, n: int, px: int) -> u8 {
    let attrs = s.oam[4 * n + 3];
    let line = s.regs.ly - obj_top(s, n);
    let tile = if s.regs.obj_size {
        s.oam[4 * n + 2] - s.oam[4 * n + 2] % 2 + line / 8
    } else {
        s.oam[4 * n + 2] as int
    };
    let row = if (attrs / 64) % 2 == 1 {
        7 - line % 8
    } else {
        line % 8
    };
    let col = if (attrs / 32) % 2 == 1 {
        7 - (px - obj_left(s, n))
    } else {
        px - obj_left(s, n)
    };
    tile_pixel(s.vram, tile, row, col)
}

/// The color of sprite `n` for a color index: on the color machine from
/// one of the first four sprite palettes, else from the palette that bit 4
/// of the attributes selects.
pub open spec fn obj_color(s: Scene, n: int, px: int, index: u8) -> Color {
    let attrs = s.oam[4 * n + 3];
    if s.regs.is_cgb {
        s.pal.cobp[(attrs % 4) * 4 + index]
    } else if (attrs / 16) % 2 == 1 {
        shown(s, px, s.pal.obp1[index as int])
    } else {
        shown(s, px, s.pal.obp0[index as int])
    }
}

/// The color that sprite `n` paints at column `px` of the current line, if
/// it paints there: the sprite must cover the pixel with a color index
/// other than 0, the layer behind must not ask to stand before the
/// sprites, and a sprite that stands behind the layer (bit 7 of its
/// attributes) shows only where the layer has color index 0.
pub open spec fn obj_hit(s: Scene, n: int, px: int) -> Option<Color> {
    if obj_on_line(s, n) && obj_left(s, n) <= px < obj_left(s, n) + 8 && mark(s, px) <= 3 && obj_index(
        s,
        n,
        px,
    ) != 0 && !(s.oam[4 * n + 3] >= 128 && mark(s, px) != 0) {
        Some(obj_color(s, n, px, obj_index(s, n, px)))
    } else {
        None
    }
}

/// The sprite among the first `n` of the table that shows at column `px`,
/// if any of them paints there: the one that stands furthest left, and of
/// several that stand equally far left the last in the table.
pub open spec fn obj_winner(s: Scene, n: int, px: int) -> Option<int>
    decreases n,
{
    if n <= 0 {
        None
    } else {
        let earlier = obj_winner(s, n - 1, px);
        if obj_hit(s, n - 1, px) is Some && (earlier is None || obj_left(s, n - 1) <= obj_left(
            s,
            earlier->0,
        )) {
            Some(n - 1)
        } else {
            earlier
        }
    }
}

/// The sprite that shows at column `px` among the first `n` of the table,
/// as a number: its place in the table, or 40 for none.
pub open spec fn owner_of(s: Scene, n: int, px: int) -> u8 {
    match obj_winner(s, n, px) {
        Some(k) => k as u8,
        None => 40,
    }
}

/// Whether sprite `n` shows at column `px` over the sprite `owner` that
/// shows there so far, or over none if `owner` is 40: it must paint there
/// and stand no further right.
pub open spec fn shows_over(s: Scene, n: int, px: int, owner: u8) -> bool {
    obj_hit(s, n, px) is Some && (owner == 40 || s.oam[4 * n + 1] <= s.oam[4 * owner + 1])
}

/// The color that the first `n` sprites of the table leave at column `px`:
/// that of the one that shows there.
pub open spec fn objs_color(s: Scene, n: int, px: int) -> Option<Color> {
    match obj_winner(s, n, px) {
        Some(k) => obj_hit(s, k, px),
        None => None,
    }
}

/// The sprite that shows at a column is one of those that were looked at,
/// and it paints there.
pub proof fn lemma_obj_winner(s: Scene, n: int, px: int)
    ensures
        obj_winner(s, n, px) is Some ==> 0 <= obj_winner(s, n, px)->0 < n && obj_hit(
            s,
            obj_winner(s, n, px)->0,
            px,
        ) is Some,
    decreases n,
{
    if n > 0 {
        lemma_obj_winner(s, n - 1, px);
    }
}

/// The color that column `px` of the current line gets, if any layer
/// paints there: that of the sprites where they are shown and one paints,
/// else that of the window or the background.
pub open spec fn line_color(s: Scene, px: int) -> Option<Color> {
    if s.regs.obj_enabled && objs_color(s, 40, px) is Some {
        objs_color(s, 40, px)
    } else {
        match layer(s, px) {
            Some(d) => Some(d.color),
            None => None,
        }
    }
}

/// The framebuffer after the current line was painted: each pixel of the
/// line takes the color that the layers give it and keeps its color where
/// no layer paints; the other lines stay.
pub open spec fn painted(s: Scene, image: Seq<u8>) -> Seq<u8> {
    Seq::new(
        IMAGE_SIZE as nat,
        |k: int|
            if (k / 4) / 160 == s.regs.ly && line_color(s, (k / 4) % 160) is Some {
                channel(line_color(s, (k / 4) % 160)->0, k % 4)
            } else {
                image[k]
            },
    )
}

impl GpuView {
    /// The unit after it painted the current line. It paints only while
    /// the screen is on and the line is one of the 144 of the screen.
    #[verifier::opaque]
    pub open spec fn render_line(self) -> GpuView {
        if self.regs.lcd_enabled && self.regs.ly < 144 {
            GpuView { image: painted(self.scene(), self.image), ..self }
        } else {
            self
        }
    }
}

/// Two framebuffers are equal if they agree pixel by pixel.
pub proof fn lemma_same_image(a: Seq<u8>, b: Seq<u8>)
    requires
        a.len() == IMAGE_SIZE,
        b.len() == IMAGE_SIZE,
        forall|p: int| 0 <= p < 23040 ==> #[trigger] pixel_at(a, p) == pixel_at(b, p),
    ensures
        a == b,
{
    assert forall|k: int| 0 <= k < a.len() implies a[k] == b[k] by {
        let p = k / 4;
        assert(pixel_at(a, p) == pixel_at(b, p));
    }
    assert(a =~= b);
}

/// The pixels of a painted framebuffer: those of the current line take
/// the color that the layers give them, all others stay.
pub proof fn lemma_painted_pixels(s: Scene, image: Seq<u8>)
    requires
        image.len() == IMAGE_SIZE,
    ensures
        painted(s, image).len() == IMAGE_SIZE,
        forall|p: int|
            0 <= p < 23040 ==> #[trigger] pixel_at(painted(s, image), p) == if p / 160 == s.regs.ly
                && line_color(s, p % 160) is Some {
                line_color(s, p % 160)->0
            } else {
                pixel_at(image, p)
            },
{
    assert forall|p: int| 0 <= p < 23040 implies #[trigger] pixel_at(painted(s, image), p) == if p
        / 160 == s.regs.ly && line_color(s, p % 160) is Some {
        line_color(s, p % 160)->0
    } else {
        pixel_at(image, p)
    } by {
        assert((4 * p) / 4 == p && (4 * p + 1) / 4 == p && (4 * p + 2) / 4 == p && (4 * p + 3) / 4 == p);
        assert((4 * p) % 4 == 0 && (4 * p + 1) % 4 == 1 && (4 * p + 2) % 4 == 2 && (4 * p + 3) % 4 == 3);
    }
}

} // verus!
