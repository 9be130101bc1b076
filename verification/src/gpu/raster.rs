//! How the pixel unit paints a line: the background, then the window over
//! it, then the sprites over both.

use vstd::prelude::*;
use crate::gpu::palette::{Color, Shades};
use crate::gpu::render::{bg_dot, dot_mark, layer, lemma_obj_winner, lemma_painted_pixels,
    lemma_same_image, map_dot, mark, obj_color, obj_hit, obj_index, obj_left, obj_on_line,
    objs_color, owner_of, painted, pixel_at, shows_over, win_dot, window_covers, Dot};
use crate::gpu::tiles::{tile_pixel, NUM_TILES};
use crate::gpu::{lemma_same_view, GpuView, GPU, IMAGE_SIZE, WIDTH};

verus! {

/// Stores a color in the four bytes of pixel `p` of a framebuffer.
pub fn put_pixel(image: &mut Vec<u8>, p: usize, c: Color)
    requires
        old(image)@.len() == IMAGE_SIZE,
        p < 23040,
    ensures
        final(image)@.len() == IMAGE_SIZE,
        pixel_at(final(image)@, p as int) == c,
        forall|q: int| 0 <= q < 23040 && q != p ==> #[trigger] pixel_at(final(image)@, q) == pixel_at(
            old(image)@,
            q,
        ),
{
    image[4 * p] = c.r;
    image[4 * p + 1] = c.g;
    image[4 * p + 2] = c.b;
    image[4 * p + 3] = c.a;
}

impl GPU {
    /// The unit is well formed, its tile cache holds every tile as the
    /// video memory gives it, and the current line is one of the screen.
    pub closed spec fn ready(&self) -> bool {
        self.wf() && !self.cache@.pending && self.regs.ly < 144
    }

    /// Color index of a pixel of a tile, from the cache of decoded tiles.
    fn tile_pixel(&self, tile: usize, row: usize, col: usize) -> (index: u8)
        requires
            self.ready(),
            tile < 2 * NUM_TILES,
            row < 8,
            col < 8,
        ensures
            index == tile_pixel(self@.vram, tile as int, row as int, col as int),
            index < 4,
    {
        let index: u8 = self.cache.pixel(tile, row, col);
        proof {
            let p = row * 8 + col;
            assert(!self.cache@.dirty[tile as int]);
            assert(self.cache@.pixel(tile as int, p) == tile_pixel(self.vram@, tile as int, p / 8, p % 8));
        }
        index
    }

    /// The pixel of a tile that an entry of a tile map names.
    fn map_dot(&self, map_index: usize, y: usize, x: usize, px: usize) -> (d: Dot)
        requires
            self.ready(),
            0x1800 <= map_index < 0x2000,
            y < 8,
            x < 8,
            px < 160,
        ensures
            d == map_dot(self@.scene(), map_index as int, y as int, x as int, px as int),
            d.index < 4,
    {
        let tile_i: u8 = self.vram[map_index];
        let number: usize = if self.regs.tile_data || tile_i >= 128 {
            tile_i as usize
        } else {
            256 + tile_i as usize
        };
        if self.regs.is_cgb {
            let attrs: u8 = self.vram[0x2000 + map_index];
            let row: usize = if (attrs / 64) % 2 == 1 {
                7 - y
            } else {
                y
            };
            let col: usize = if (attrs / 32) % 2 == 1 {
                7 - x
            } else {
                x
            };
            let tile: usize = number + ((attrs / 8) % 2) as usize * NUM_TILES;
            let index: u8 = self.tile_pixel(tile, row, col);
            Dot { index, priority: attrs >= 128, color: self.pal.cgb_bg_color(attrs % 8, index) }
        } else {
            let index: u8 = self.tile_pixel(number, y, x);
            let shade = self.pal.shade_color(Shades::Background, index);
            Dot { index, priority: false, color: self.shown(px, shade) }
        }
    }

    /// The color of a shade of the monochrome machine at a column of the
    /// current line.
    fn shown(&self, px: usize, shade: Color) -> (c: Color)
        requires
            self.ready(),
            px < 160,
        ensures
            c == crate::gpu::render::shown(self@.scene(), px as int, shade),
    {
        if self.regs.is_sgb {
            self.pal.sgb_map(px / 8 + (self.regs.ly as usize / 8) * 20, shade)
        } else {
            shade
        }
    }

    /// The background's pixel at a column of the current line.
    fn bg_dot(&self, px: usize) -> (d: Dot)
        requires
            self.ready(),
            px < 160,
        ensures
            d == bg_dot(self@.scene(), px as int),
            d.index < 4,
    {
        let line: usize = (self.regs.ly as usize + self.regs.scy as usize) % 256;
        let column: usize = (px + self.regs.scx as usize) % 256;
        let base: usize = if self.regs.bg_tmap {
            0x1C00
        } else {
            0x1800
        };
        self.map_dot(base + (line / 8) * 32 + column / 8, line % 8, column % 8, px)
    }

    /// Whether the window covers a column of the current line.
    fn window_covers(&self, px: usize) -> (b: bool)
        requires
            self.ready(),
            px < 160,
        ensures
            b == window_covers(self@.scene(), px as int),
    {
        let start: usize = if self.regs.wx < 7 {
            0
        } else {
            (self.regs.wx - 7) as usize
        };
        self.regs.win_enabled && self.regs.ly >= self.regs.wy && self.regs.wx < 167 && px >= start
    }

    /// The window's pixel at a column of the current line that it covers.
    fn win_dot(&self, px: usize) -> (d: Dot)
        requires
            self.ready(),
            px < 160,
            window_covers(self@.scene(), px as int),
        ensures
            d == win_dot(self@.scene(), px as int),
            d.index < 4,
    {
        let line: usize = (self.regs.ly - self.regs.wy) as usize;
        let start: usize = if self.regs.wx < 7 {
            0
        } else {
            (self.regs.wx - 7) as usize
        };
        let skip: usize = if self.regs.wx < 7 {
            (7 - self.regs.wx) as usize
        } else {
            ((self.regs.wx - 7) % 8) as usize
        };
        let column: usize = px - start + skip;
        let base: usize = if self.regs.win_tmap {
            0x1C00
        } else {
            0x1800
        };
        self.map_dot(base + (line / 8) * 32 + column / 8, line % 8, column % 8, px)
    }

    /// Paints the background into the current line and notes for each
    /// column what the sprites see of it.
    fn render_background(&mut self, scanline: &mut Vec<u8>)
        requires
            old(self).ready(),
            old(scanline)@.len() == 160,
        ensures
            final(self).ready(),
            final(self)@.scene() == old(self)@.scene(),
            final(scanline)@.len() == 160,
            forall|px: int|
                0 <= px < 160 ==> #[trigger] pixel_at(final(self)@.image, old(self)@.regs.ly * 160 + px)
                    == bg_dot(old(self)@.scene(), px).color,
            forall|px: int|
                0 <= px < 160 ==> #[trigger] final(scanline)@[px] == dot_mark(
                    bg_dot(old(self)@.scene(), px),
                ),
            forall|p: int|
                0 <= p < 23040 && p / 160 != old(self)@.regs.ly ==> #[trigger] pixel_at(
                    final(self)@.image,
                    p,
                ) == pixel_at(old(self)@.image, p),
    {
        let first: usize = self.regs.ly as usize * WIDTH;
        let ghost s = self@.scene();
        let mut px: usize = 0;
        while px < WIDTH
            invariant
                px <= WIDTH,
                self.ready(),
                self@.scene() == s,
                s == old(self)@.scene(),
                first == s.regs.ly * 160,
                scanline@.len() == 160,
                forall|q: int|
                    0 <= q < px ==> #[trigger] pixel_at(self@.image, first + q) == bg_dot(s, q).color,
                forall|q: int| 0 <= q < px ==> #[trigger] scanline@[q] == dot_mark(bg_dot(s, q)),
                forall|p: int|
                    0 <= p < 23040 && p / 160 != s.regs.ly ==> #[trigger] pixel_at(self@.image, p)
                        == pixel_at(old(self)@.image, p),
            decreases WIDTH - px,
        {
            let d = self.bg_dot(px);
            scanline[px] = if d.priority {
                4
            } else {
                d.index
            };
            put_pixel(&mut self.image_data, first + px, d.color);
            px += 1;
        }
    }

    /// Paints the window over the current line, where it covers it, and
    /// notes for each column that it covers what the sprites see of it.
    fn render_window(&mut self, scanline: &mut Vec<u8>)
        requires
            old(self).ready(),
            old(scanline)@.len() == 160,
        ensures
            final(self).ready(),
            final(self)@.scene() == old(self)@.scene(),
            final(scanline)@.len() == 160,
            forall|px: int|
                0 <= px < 160 ==> #[trigger] pixel_at(final(self)@.image, old(self)@.regs.ly * 160 + px)
                    == if window_covers(old(self)@.scene(), px) {
                    win_dot(old(self)@.scene(), px).color
                } else {
                    pixel_at(old(self)@.image, old(self)@.regs.ly * 160 + px)
                },
            forall|px: int|
                0 <= px < 160 ==> #[trigger] final(scanline)@[px] == if window_covers(
                    old(self)@.scene(),
                    px,
                ) {
                    dot_mark(win_dot(old(self)@.scene(), px))
                } else {
                    old(scanline)@[px]
                },
            forall|p: int|
                0 <= p < 23040 && p / 160 != old(self)@.regs.ly ==> #[trigger] pixel_at(
                    final(self)@.image,
                    p,
                ) == pixel_at(old(self)@.image, p),
    {
        let first: usize = self.regs.ly as usize * WIDTH;
        let ghost s = self@.scene();
        let mut px: usize = 0;
        while px < WIDTH
            invariant
                px <= WIDTH,
                self.ready(),
                self@.scene() == s,
                s == old(self)@.scene(),
                first == s.regs.ly * 160,
                scanline@.len() == 160,
                forall|q: int|
                    0 <= q < 160 ==> #[trigger] pixel_at(self@.image, first + q) == if q < px
                        && window_covers(s, q) {
                        win_dot(s, q).color
                    } else {
                        pixel_at(old(self)@.image, first + q)
                    },
                forall|q: int|
                    0 <= q < 160 ==> #[trigger] scanline@[q] == if q < px && window_covers(s, q) {
                        dot_mark(win_dot(s, q))
                    } else {
                        old(scanline)@[q]
                    },
                forall|p: int|
                    0 <= p < 23040 && p / 160 != s.regs.ly ==> #[trigger] pixel_at(self@.image, p)
                        == pixel_at(old(self)@.image, p),
            decreases WIDTH - px,
        {
            if self.window_covers(px) {
                let d = self.win_dot(px);
                scanline[px] = if d.priority {
                    4
                } else {
                    d.index
                };
                put_pixel(&mut self.image_data, first + px, d.color);
            }
            px += 1;
        }
    }

    /// Whether a sprite has a row on the current line and a column on the
    /// screen.
    fn obj_on_line(&self, n: usize) -> (b: bool)
        requires
            self.ready(),
            n < 40,
        ensures
            b == obj_on_line(self@.scene(), n as int),
    {
        let ly: i32 = self.regs.ly as i32;
        let top: i32 = self.oam[4 * n] as i32 - 16;
        let left: i32 = self.oam[4 * n + 1] as i32 - 8;
        let height: i32 = if self.regs.obj_size {
            16
        } else {
            8
        };
        top <= ly && ly < top + height && -8 < left && left < 160
    }

    /// The color index that a sprite on the current line has at a column
    /// that it covers.
    fn obj_index(&self, n: usize, px: usize) -> (index: u8)
        requires
            self.ready(),
            n < 40,
            px < 160,
            obj_on_line(self@.scene(), n as int),
            obj_left(self@.scene(), n as int) <= px < obj_left(self@.scene(), n as int) + 8,
        ensures
            index == obj_index(self@.scene(), n as int, px as int),
            index < 4,
    {
        let attrs: u8 = self.oam[4 * n + 3];
        let number: u8 = self.oam[4 * n + 2];
        let line: usize = (self.regs.ly as i32 - (self.oam[4 * n] as i32 - 16)) as usize;
        let x: usize = (px as i32 - (self.oam[4 * n + 1] as i32 - 8)) as usize;
        let tile: usize = if self.regs.obj_size {
            (number - number % 2) as usize + line / 8
        } else {
            number as usize
        };
        let row: usize = if (attrs / 64) % 2 == 1 {
            7 - line % 8
        } else {
            line % 8
        };
        let col: usize = if (attrs / 32) % 2 == 1 {
            7 - x
        } else {
            x
        };
        self.tile_pixel(tile, row, col)
    }

    /// The color of a sprite for a color index.
    fn obj_color(&self, n: usize, px: usize, index: u8) -> (c: Color)
        requires
            self.ready(),
            n < 40,
            px < 160,
            index < 4,
        ensures
            c == obj_color(self@.scene(), n as int, px as int, index),
    {
        let attrs: u8 = self.oam[4 * n + 3];
        if self.regs.is_cgb {
            self.pal.cgb_obj_color(attrs % 4, index)
        } else if (attrs / 16) % 2 == 1 {
            let shade = self.pal.shade_color(Shades::Object1, index);
            self.shown(px, shade)
        } else {
            let shade = self.pal.shade_color(Shades::Object0, index);
            self.shown(px, shade)
        }
    }

    /// The color that a sprite paints at a column of the current line, if
    /// it paints there.
    fn obj_hit(&self, scanline: &Vec<u8>, n: usize, px: usize) -> (r: Option<Color>)
        requires
            self.ready(),
            n < 40,
            px < 160,
            scanline@.len() == 160,
            scanline@[px as int] == mark(self@.scene(), px as int),
        ensures
            r == obj_hit(self@.scene(), n as int, px as int),
    {
        if !self.obj_on_line(n) {
            return None;
        }
        let x: i32 = px as i32 - (self.oam[4 * n + 1] as i32 - 8);
        if x < 0 || x >= 8 {
            return None;
        }
        let behind: u8 = scanline[px];
        if behind > 3 {
            return None;
        }
        let index: u8 = self.obj_index(n, px);
        if index == 0 {
            return None;
        }
        if self.oam[4 * n + 3] >= 128 && behind != 0 {
            return None;
        }
        Some(self.obj_color(n, px, index))
    }

    /// Paints one sprite over the current line, where it shows: where it
    /// paints and no sprite painted before that stands further left.
    /// `owners` holds for each column the sprite that shows there so far,
    /// or 40 for none.
    fn render_one_obj(&mut self, scanline: &Vec<u8>, owners: &mut Vec<u8>, n: usize)
        requires
            old(self).ready(),
            n < 40,
            scanline@.len() == 160,
            old(owners)@.len() == 160,
            forall|px: int| 0 <= px < 160 ==> #[trigger] scanline@[px] == mark(old(self)@.scene(), px),
            forall|px: int| 0 <= px < 160 ==> #[trigger] old(owners)@[px] <= 40,
        ensures
            final(self).ready(),
            final(self)@.scene() == old(self)@.scene(),
            final(owners)@.len() == 160,
            forall|px: int|
                0 <= px < 160 ==> #[trigger] final(owners)@[px] == if shows_over(
                    old(self)@.scene(),
                    n as int,
                    px,
                    old(owners)@[px],
                ) {
                    n as u8
                } else {
                    old(owners)@[px]
                },
            forall|px: int|
                0 <= px < 160 ==> #[trigger] pixel_at(final(self)@.image, old(self)@.regs.ly * 160 + px)
                    == if shows_over(old(self)@.scene(), n as int, px, old(owners)@[px]) {
                    obj_hit(old(self)@.scene(), n as int, px)->0
                } else {
                    pixel_at(old(self)@.image, old(self)@.regs.ly * 160 + px)
                },
            forall|p: int|
                0 <= p < 23040 && p / 160 != old(self)@.regs.ly ==> #[trigger] pixel_at(
                    final(self)@.image,
                    p,
                ) == pixel_at(old(self)@.image, p),
    {
        let first: usize = self.regs.ly as usize * WIDTH;
        let left: u8 = self.oam[4 * n + 1];
        let ghost s = self@.scene();
        let mut px: usize = 0;
        while px < WIDTH
            invariant
                px <= WIDTH,
                n < 40,
                self.ready(),
                self@.scene() == s,
                s == old(self)@.scene(),
                left == s.oam[4 * n + 1],
                first == s.regs.ly * 160,
                scanline@.len() == 160,
                owners@.len() == 160,
                forall|q: int| 0 <= q < 160 ==> #[trigger] scanline@[q] == mark(s, q),
                forall|q: int| 0 <= q < 160 ==> #[trigger] old(owners)@[q] <= 40,
                forall|q: int|
                    0 <= q < 160 ==> #[trigger] owners@[q] == if q < px && shows_over(
                        s,
                        n as int,
                        q,
                        old(owners)@[q],
                    ) {
                        n as u8
                    } else {
                        old(owners)@[q]
                    },
                forall|q: int|
                    0 <= q < 160 ==> #[trigger] pixel_at(self@.image, first + q) == if q < px
                        && shows_over(s, n as int, q, old(owners)@[q]) {
                        obj_hit(s, n as int, q)->0
                    } else {
                        pixel_at(old(self)@.image, first + q)
                    },
                forall|p: int|
                    0 <= p < 23040 && p / 160 != s.regs.ly ==> #[trigger] pixel_at(self@.image, p)
                        == pixel_at(old(self)@.image, p),
            decreases WIDTH - px,
        {
            match self.obj_hit(scanline, n, px) {
                Some(color) => {
                    let owner: u8 = owners[px];
                    if owner == 40 || left <= self.oam[4 * owner as usize + 1] {
                        put_pixel(&mut self.image_data, first + px, color);
                        owners[px] = n as u8;
                    }
                },
                None => {},
            }
            px += 1;
        }
    }

    /// Paints the sprites over the current line. Where several sprites
    /// paint the same pixel, the one that stands furthest left shows, and
    /// of several that stand equally far left the last in the sprite table.
    fn render_obj(&mut self, scanline: &Vec<u8>)
        requires
            old(self).ready(),
            scanline@.len() == 160,
            forall|px: int| 0 <= px < 160 ==> #[trigger] scanline@[px] == mark(old(self)@.scene(), px),
        ensures
            final(self).ready(),
            final(self)@.scene() == old(self)@.scene(),
            forall|px: int|
                0 <= px < 160 ==> #[trigger] pixel_at(final(self)@.image, old(self)@.regs.ly * 160 + px)
                    == if objs_color(old(self)@.scene(), 40, px) is Some {
                    objs_color(old(self)@.scene(), 40, px)->0
                } else {
                    pixel_at(old(self)@.image, old(self)@.regs.ly * 160 + px)
                },
            forall|p: int|
                0 <= p < 23040 && p / 160 != old(self)@.regs.ly ==> #[trigger] pixel_at(
                    final(self)@.image,
                    p,
                ) == pixel_at(old(self)@.image, p),
    {
        let ghost s = self@.scene();
        let ghost first = s.regs.ly * 160;
        let mut owners: Vec<u8> = vec![40u8; WIDTH];
        let mut n: usize = 0;
        while n < 40
            invariant
                n <= 40,
                self.ready(),
                self@.scene() == s,
                s == old(self)@.scene(),
                first == s.regs.ly * 160,
                scanline@.len() == 160,
                owners@.len() == 160,
                forall|q: int| 0 <= q < 160 ==> #[trigger] scanline@[q] == mark(s, q),
                forall|q: int| 0 <= q < 160 ==> #[trigger] owners@[q] == owner_of(s, n as int, q),
                forall|q: int|
                    0 <= q < 160 ==> #[trigger] pixel_at(self@.image, first + q) == if objs_color(
                        s,
                        n as int,
                        q,
                    ) is Some {
                        objs_color(s, n as int, q)->0
                    } else {
                        pixel_at(old(self)@.image, first + q)
                    },
                forall|p: int|
                    0 <= p < 23040 && p / 160 != s.regs.ly ==> #[trigger] pixel_at(self@.image, p)
                        == pixel_at(old(self)@.image, p),
            decreases 40 - n,
        {
            let ghost before = self@.image;
            let ghost owned = owners@;
            proof {
                assert forall|q: int| 0 <= q < 160 implies #[trigger] owners@[q] <= 40 by {
                    lemma_obj_winner(s, n as int, q);
                    assert(owners@[q] == owner_of(s, n as int, q));
                }
            }
            if self.obj_on_line(n) {
                self.render_one_obj(scanline, &mut owners, n);
            }
            proof {
                assert forall|q: int| 0 <= q < 160 implies #[trigger] owners@[q] == owner_of(
                    s,
                    n + 1,
                    q,
                ) by {
                    lemma_obj_winner(s, n as int, q);
                    assert(owned[q] == owner_of(s, n as int, q));
                }
                assert forall|q: int| 0 <= q < 160 implies #[trigger] pixel_at(self@.image, first + q)
                    == if objs_color(s, n + 1, q) is Some {
                    objs_color(s, n + 1, q)->0
                } else {
                    pixel_at(old(self)@.image, first + q)
                } by {
                    lemma_obj_winner(s, n as int, q);
                    assert(owned[q] == owner_of(s, n as int, q));
                    assert(pixel_at(before, first + q) == if objs_color(s, n as int, q) is Some {
                        objs_color(s, n as int, q)->0
                    } else {
                        pixel_at(old(self)@.image, first + q)
                    });
                }
                assert forall|p: int|
                    0 <= p < 23040 && p / 160 != s.regs.ly implies #[trigger] pixel_at(self@.image, p)
                        == pixel_at(old(self)@.image, p) by {
                    assert(pixel_at(before, p) == pixel_at(old(self)@.image, p));
                }
            }
            n += 1;
        }
    }

    /// Paints the current line: the background, the window and the sprites,
    /// each if it is shown. Nothing is painted while the screen is off.
    pub fn render_line(&mut self)
        requires
            old(self).wf(),
        ensures
            final(self).wf(),
            final(self)@ == old(self)@.render_line(),
    {
        reveal(GpuView::render_line);
        if !self.regs.lcd_enabled || self.regs.ly >= 144 {
            return ;
        }
        if self.cache.pending() {
            self.cache.update_tileset(&self.vram);
        }
        let ghost s = self@.scene();
        let ghost first = s.regs.ly * 160;
        let mut scanline: Vec<u8> = vec![0u8; WIDTH];
        if self.regs.bg_enabled {
            self.render_background(&mut scanline);
        }
        if self.regs.win_enabled {
            self.render_window(&mut scanline);
        }
        let ghost behind = self@.image;
        proof {
            reveal(mark);
            assert forall|px: int| 0 <= px < 160 implies #[trigger] scanline@[px] == mark(s, px) by {}
            assert forall|px: int| 0 <= px < 160 implies #[trigger] pixel_at(behind, first + px) == (
            match layer(s, px) {
                Some(d) => d.color,
                None => pixel_at(old(self)@.image, first + px),
            }) by {}
        }
        if self.regs.obj_enabled {
            self.render_obj(&scanline);
        }
        proof {
            let goal = painted(s, old(self)@.image);
            lemma_painted_pixels(s, old(self)@.image);
            assert forall|p: int| 0 <= p < 23040 implies #[trigger] pixel_at(self@.image, p) == pixel_at(
                goal,
                p,
            ) by {
                if p / 160 == s.regs.ly {
                    let px = p % 160;
                    assert(p == first + px);
                    assert(pixel_at(behind, first + px) == (match layer(s, px) {
                        Some(d) => d.color,
                        None => pixel_at(old(self)@.image, first + px),
                    }));
                } else {
                    assert(pixel_at(behind, p) == pixel_at(old(self)@.image, p));
                }
            }
            lemma_same_image(self@.image, goal);
            lemma_same_view(self@, old(self)@.render_line());
        }
    }
}

} // verus!
