//! Tiles: how video memory encodes them, and a cache of decoded tiles.

use vstd::prelude::*;
use crate::bits::{bit_of, test_bit};

verus! {

/// Tiles that one bank of video memory holds.
pub const NUM_TILES: usize = 384;

/// Bytes in one bank of video memory.
pub const VRAM_SIZE: usize = 0x2000;

/// Index into the video memory of the first byte of a row of a tile, where
/// tiles 0 to 383 lie in bank 0 and 384 to 767 in bank 1.
pub open spec fn row_base(tile: int, row: int) -> int {
    (tile / 384) * 0x2000 + (tile % 384) * 16 + row * 2
}

/// Color index of the pixel at `row` and `col` of tile `tile`. A tile is 16
/// bytes, two for each row: the first holds the low bit of each pixel, the
/// second the high bit, the leftmost pixel in bit 7.
pub open spec fn tile_pixel(vram: Seq<u8>, tile: int, row: int, col: int) -> u8 {
    let lo: u8 = if bit_of(vram[row_base(tile, row)], (7 - col) as u8) {
        1
    } else {
        0
    };
    let hi: u8 = if bit_of(vram[row_base(tile, row) + 1], (7 - col) as u8) {
        2
    } else {
        0
    };
    (hi + lo) as u8
}

/// The tile that a byte of video memory belongs to, if it lies in the tile
/// data, which is the first `0x1800` bytes of each bank.
pub open spec fn tile_of(index: int) -> Option<int> {
    if index % 0x2000 < 0x1800 {
        Some((index / 0x2000) * 384 + (index % 0x2000) / 16)
    } else {
        None
    }
}

/// A cache of decoded tiles: 64 color indices for each tile, row by row,
/// and a mark on each tile whose bytes changed since it was decoded.
pub struct TileCache {
    tiles: Vec<u8>,
    dirty: Vec<bool>,
    need_update: bool,
}

/// The mathematical model of the cache.
pub struct TileCacheView {
    pub tiles: Seq<u8>,
    pub dirty: Seq<bool>,
    /// Whether a tile may be marked.
    pub pending: bool,
}

impl View for TileCache {
    type V = TileCacheView;

    closed spec fn view(&self) -> TileCacheView {
        TileCacheView { tiles: self.tiles@, dirty: self.dirty@, pending: self.need_update }
    }
}

impl TileCacheView {
    /// Pixel `p`, counted row by row, of a tile in the cache.
    pub open spec fn pixel(self, tile: int, p: int) -> u8 {
        self.tiles[tile * 64 + p]
    }

    /// Whether the cache is in order for a video memory: where no decoding
    /// is pending no tile is marked, and every tile that is not marked holds
    /// the pixels that the video memory gives it.
    pub open spec fn agrees(self, vram: Seq<u8>) -> bool {
        &&& self.tiles.len() == 2 * NUM_TILES * 64
        &&& self.dirty.len() == 2 * NUM_TILES
        &&& vram.len() == 2 * VRAM_SIZE
        &&& !self.pending ==> forall|t: int| 0 <= t < 2 * NUM_TILES ==> !(#[trigger] self.dirty[t])
        &&& forall|t: int, p: int|
            0 <= t < 2 * NUM_TILES && 0 <= p < 64 && !self.dirty[t] ==> #[trigger] self.pixel(t, p)
                == tile_pixel(vram, t, p / 8, p % 8)
    }
}

/// No bit of zero is set.
pub proof fn lemma_zero_has_no_bit(k: u8)
    by (bit_vector)
    requires
        k < 8,
    ensures
        !bit_of(0, k),
{
}

impl TileCache {
    /// A cache that is in order for a video memory of zeros.
    pub fn new() -> (cache: TileCache)
        ensures
            cache@.agrees(Seq::new((2 * VRAM_SIZE) as nat, |i: int| 0u8)),
            !cache@.pending,
    {
        let cache = TileCache {
            tiles: vec![0u8; 2 * NUM_TILES * 64],
            dirty: vec![false; 2 * NUM_TILES],
            need_update: false,
        };
        proof {
            let vram = Seq::new((2 * VRAM_SIZE) as nat, |i: int| 0u8);
            assert forall|t: int, p: int| 0 <= t < 2 * NUM_TILES && 0 <= p < 64 implies #[trigger] cache@.pixel(
                t,
                p,
            ) == tile_pixel(vram, t, p / 8, p % 8) by {
                lemma_zero_has_no_bit((7 - p % 8) as u8);
                assert(0 <= row_base(t, p / 8) && row_base(t, p / 8) + 1 < 0x4000);
                assert(0 <= t * 64 + p < 2 * NUM_TILES * 64);
            }
        }
        cache
    }

    /// Takes note that byte `index` of the video memory changed: the tile
    /// it belongs to, if any, is marked for decoding.
    pub fn touch(&mut self, index: usize, Ghost(before): Ghost<Seq<u8>>, Ghost(val): Ghost<u8>)
        requires
            old(self)@.agrees(before),
            index < 2 * VRAM_SIZE,
        ensures
            final(self)@.agrees(before.update(index as int, val)),
    {
        let in_tile = index % VRAM_SIZE < 0x1800;
        let tile: usize = if in_tile {
            (index / VRAM_SIZE) * NUM_TILES + (index % VRAM_SIZE) / 16
        } else {
            0
        };
        let marked = self.dirty[tile];
        self.dirty[tile] = marked || in_tile;
        self.need_update = self.need_update || in_tile;
        proof {
            let after = before.update(index as int, val);
            assert forall|t: int, p: int|
                0 <= t < 2 * NUM_TILES && 0 <= p < 64 && !self@.dirty[t] implies #[trigger] self@.pixel(
                t,
                p,
            ) == tile_pixel(after, t, p / 8, p % 8) by {
                assert(!old(self)@.dirty[t]);
                assert(old(self)@.pixel(t, p) == tile_pixel(before, t, p / 8, p % 8));
                assert(row_base(t, p / 8) != index && row_base(t, p / 8) + 1 != index);
            }
        }
    }

    /// Whether a tile is marked for decoding.
    pub fn pending(&self) -> (b: bool)
        ensures
            b == self@.pending,
    {
        self.need_update
    }

    /// Decodes every marked tile from the video memory and takes the marks off.
    pub fn update_tileset(&mut self, vram: &Vec<u8>)
        requires
            old(self)@.agrees(vram@),
        ensures
            final(self)@.agrees(vram@),
            !final(self)@.pending,
    {
        let mut t: usize = 0;
        while t < 2 * NUM_TILES
            invariant
                t <= 2 * NUM_TILES,
                self@.tiles.len() == 2 * NUM_TILES * 64,
                self@.dirty.len() == 2 * NUM_TILES,
                vram@.len() == 2 * VRAM_SIZE,
                forall|u: int| 0 <= u < t ==> !(#[trigger] self@.dirty[u]),
                forall|u: int, p: int|
                    0 <= u < 2 * NUM_TILES && 0 <= p < 64 && !self@.dirty[u] ==> #[trigger] self@.pixel(
                        u,
                        p,
                    ) == tile_pixel(vram@, u, p / 8, p % 8),
            decreases 2 * NUM_TILES - t,
        {
            let ghost prev = self@;
            if self.dirty[t] {
                self.decode_tile(t, vram);
            }
            proof {
                assert forall|u: int, p: int|
                    0 <= u < 2 * NUM_TILES && 0 <= p < 64 && !self@.dirty[u] implies #[trigger] self@.pixel(
                    u,
                    p,
                ) == tile_pixel(vram@, u, p / 8, p % 8) by {
                    if u != t {
                        assert(prev.pixel(u, p) == tile_pixel(vram@, u, p / 8, p % 8));
                    }
                }
            }
            t += 1;
        }
        let ghost decoded = self@;
        self.need_update = false;
        proof {
            assert(self@.tiles == decoded.tiles && self@.dirty == decoded.dirty);
            assert forall|u: int, p: int|
                0 <= u < 2 * NUM_TILES && 0 <= p < 64 && !self@.dirty[u] implies #[trigger] self@.pixel(
                u,
                p,
            ) == tile_pixel(vram@, u, p / 8, p % 8) by {
                assert(decoded.pixel(u, p) == tile_pixel(vram@, u, p / 8, p % 8));
            }
        }
    }

    /// Decodes one tile from the video memory and takes its mark off.
    fn decode_tile(&mut self, t: usize, vram: &Vec<u8>)
        requires
            t < 2 * NUM_TILES,
            old(self)@.tiles.len() == 2 * NUM_TILES * 64,
            old(self)@.dirty.len() == 2 * NUM_TILES,
            vram@.len() == 2 * VRAM_SIZE,
        ensures
            final(self)@.tiles.len() == 2 * NUM_TILES * 64,
            final(self)@.dirty == old(self)@.dirty.update(t as int, false),
            final(self)@.pending == old(self)@.pending,
            forall|p: int| 0 <= p < 64 ==> #[trigger] final(self)@.pixel(t as int, p) == tile_pixel(
                vram@,
                t as int,
                p / 8,
                p % 8,
            ),
            forall|u: int, p: int|
                0 <= u < 2 * NUM_TILES && u != t && 0 <= p < 64 ==> #[trigger] final(self)@.pixel(u, p)
                    == old(self)@.pixel(u, p),
    {
        let base: usize = (t / NUM_TILES) * VRAM_SIZE + (t % NUM_TILES) * 16;
        let mut p: usize = 0;
        while p < 64
            invariant
                p <= 64,
                t < 2 * NUM_TILES,
                base == row_base(t as int, 0),
                self@.tiles.len() == 2 * NUM_TILES * 64,
                self@.dirty == old(self)@.dirty,
                self@.pending == old(self)@.pending,
                vram@.len() == 2 * VRAM_SIZE,
                forall|q: int| 0 <= q < p ==> #[trigger] self@.pixel(t as int, q) == tile_pixel(
                    vram@,
                    t as int,
                    q / 8,
                    q % 8,
                ),
                forall|u: int, q: int|
                    0 <= u < 2 * NUM_TILES && u != t && 0 <= q < 64 ==> #[trigger] self@.pixel(u, q)
                        == old(self)@.pixel(u, q),
            decreases 64 - p,
        {
            let row: usize = p / 8;
            let bit: u8 = (7 - p % 8) as u8;
            let lo: u8 = if test_bit(vram[base + row * 2], bit) {
                1
            } else {
                0
            };
            let hi: u8 = if test_bit(vram[base + row * 2 + 1], bit) {
                2
            } else {
                0
            };
            let ghost prev = self@;
            self.tiles[t * 64 + p] = hi + lo;
            proof {
                assert forall|q: int| 0 <= q < p + 1 implies #[trigger] self@.pixel(t as int, q)
                    == tile_pixel(vram@, t as int, q / 8, q % 8) by {
                    if q < p {
                        assert(prev.pixel(t as int, q) == tile_pixel(vram@, t as int, q / 8, q % 8));
                    }
                }
                assert forall|u: int, q: int|
                    0 <= u < 2 * NUM_TILES && u != t && 0 <= q < 64 implies #[trigger] self@.pixel(u, q)
                        == old(self)@.pixel(u, q) by {
                    assert(prev.pixel(u, q) == old(self)@.pixel(u, q));
                    assert(u * 64 + q != t * 64 + p);
                }
            }
            p += 1;
        }
        let ghost decoded = self@;
        self.dirty[t] = false;
        proof {
            assert(self@.tiles == decoded.tiles);
            assert forall|q: int| 0 <= q < 64 implies #[trigger] self@.pixel(t as int, q) == tile_pixel(
                vram@,
                t as int,
                q / 8,
                q % 8,
            ) by {
                assert(decoded.pixel(t as int, q) == tile_pixel(vram@, t as int, q / 8, q % 8));
            }
            assert forall|u: int, q: int|
                0 <= u < 2 * NUM_TILES && u != t && 0 <= q < 64 implies #[trigger] self@.pixel(u, q)
                    == old(self)@.pixel(u, q) by {
                assert(decoded.pixel(u, q) == old(self)@.pixel(u, q));
            }
        }
    }

    /// Color index of pixel `col` in row `row` of a tile.
    pub fn pixel(&self, tile: usize, row: usize, col: usize) -> (r: u8)
        requires
            self@.tiles.len() == 2 * NUM_TILES * 64,
            tile < 2 * NUM_TILES,
            row < 8,
            col < 8,
        ensures
            r == self@.pixel(tile as int, row * 8 + col),
    {
        self.tiles[tile * 64 + row * 8 + col]
    }
}

} // verus!
