//! Scanline rendering: the background layer, the window layer and the
//! sprite layer, each drawn into one row of the framebuffer, with a
//! functional description of every pixel.

use vstd::prelude::*;

verus! {

use crate::ppu::{palette_color, spec_palette_color, Ppu, PpuView};

/// The base address in video memory of a tile's pattern data, per the
/// tile-data-select bit of LCDC: unsigned addressing from 0x8000, or
/// signed addressing around 0x9000.
pub open spec fn spec_tile_base(lcdc: u8, tile_index: u8) -> int {
    if lcdc & 0x10 != 0 {
        tile_index as int * 16
    } else if tile_index < 128 {
        0x1000 + tile_index as int * 16
    } else {
        tile_index as int * 16
    }
}

/// The two-bit color index of a pixel: the high bit from the second
/// pattern byte, the low bit from the first, at the named bit position.
pub open spec fn spec_color_index(b1: u8, b2: u8, bit: u8) -> u8 {
    (((b2 >> bit) & 1) << 1) | ((b1 >> bit) & 1)
}

/// A color index run through a palette byte: two bits per index.
pub open spec fn spec_palette_shade(palette: u8, color_index: u8) -> u8 {
    (palette >> ((color_index & 0x03) * 2)) & 0x03
}

/// A color index is at most three.
proof fn lemma_color_index_le3(b1: u8, b2: u8, bit: u8)
    ensures
        spec_color_index(b1, b2, bit) <= 3,
{
    assert(((((b2 >> bit) & 1) << 1) | ((b1 >> bit) & 1)) <= 3) by (bit_vector);
}

/// A two-bit mask leaves at most three.
proof fn lemma_and3_le3(x: u8)
    ensures
        x & 0x03 <= 3,
{
    assert(x & 0x03 <= 3) by (bit_vector);
}

/// The screen color of one background pixel of line `ly`: the scrolled
/// position picks a tile from the selected map, the tile row's two
/// pattern bytes give a color index, and BGP maps it to a shade.
pub open spec fn spec_bg_pixel(
    lcdc: u8,
    scy: u8,
    scx: u8,
    bgp: u8,
    vram: Seq<u8>,
    ly: int,
    x: int,
) -> u32 {
    let bg_y = (ly + scy) % 256;
    let tile_row = bg_y / 8;
    let py = bg_y % 8;
    let bg_x = (x + scx) % 256;
    let tile_col = bg_x / 8;
    let px = bg_x % 8;
    let map_base: int = if lcdc & 0x08 != 0 {
        0x1C00
    } else {
        0x1800
    };
    let tile_index = vram[map_base + tile_row * 32 + tile_col];
    let base = spec_tile_base(lcdc, tile_index);
    let b1 = vram[base + py * 2];
    let b2 = vram[base + py * 2 + 1];
    let bit = (7 - px) as u8;
    spec_palette_color(spec_palette_shade(bgp, spec_color_index(b1, b2, bit)))
}

/// A framebuffer with row `ly` replaced by background pixels.
pub open spec fn spec_render_bg(
    fb: Seq<u32>,
    lcdc: u8,
    scy: u8,
    scx: u8,
    bgp: u8,
    vram: Seq<u8>,
    ly: int,
) -> Seq<u32> {
    Seq::new(
        fb.len(),
        |i: int|
            if 160 * ly <= i < 160 * ly + 160 {
                spec_bg_pixel(lcdc, scy, scx, bgp, vram, ly, i - 160 * ly)
            } else {
                fb[i]
            },
    )
}

/// A framebuffer with row `ly` filled with the lightest shade.
pub open spec fn spec_fill_row(fb: Seq<u32>, ly: int) -> Seq<u32> {
    Seq::new(
        fb.len(),
        |i: int|
            if 160 * ly <= i < 160 * ly + 160 {
                spec_palette_color(0)
            } else {
                fb[i]
            },
    )
}

/// The screen color of one window pixel: like a background pixel, but
/// against the window's own line counter and left edge, from the window
/// tile map.
pub open spec fn spec_window_pixel(
    lcdc: u8,
    bgp: u8,
    vram: Seq<u8>,
    window_line: int,
    window_x: int,
) -> u32 {
    let tile_row = window_line / 8;
    let py = window_line % 8;
    let tile_col = window_x / 8;
    let px = window_x % 8;
    let map_base: int = if lcdc & 0x40 != 0 {
        0x1C00
    } else {
        0x1800
    };
    let tile_index = vram[map_base + tile_row * 32 + tile_col];
    let base = spec_tile_base(lcdc, tile_index);
    let b1 = vram[base + py * 2];
    let b2 = vram[base + py * 2 + 1];
    let bit = (7 - px) as u8;
    spec_palette_color(spec_palette_shade(bgp, spec_color_index(b1, b2, bit)))
}

/// The window's first screen column: WX minus seven, cut off at zero.
pub open spec fn spec_window_start(wx: u8) -> int {
    if wx >= 7 {
        wx - 7
    } else {
        0
    }
}

/// A framebuffer with the window drawn over row `ly`, from the window's
/// left edge to the screen's right edge. A window starting past the
/// screen leaves the row alone.
pub open spec fn spec_render_window(
    fb: Seq<u32>,
    lcdc: u8,
    bgp: u8,
    wy: u8,
    wx: u8,
    vram: Seq<u8>,
    ly: int,
) -> Seq<u32> {
    let start = spec_window_start(wx);
    if start >= 160 {
        fb
    } else {
        Seq::new(
            fb.len(),
            |i: int|
                if 160 * ly + start <= i < 160 * ly + 160 {
                    spec_window_pixel(lcdc, bgp, vram, ly - wy, i - (160 * ly + start))
                } else {
                    fb[i]
                },
        )
    }
}

/// Sprite height per the sprite-size bit of LCDC.
pub open spec fn spec_sprite_height(lcdc: u8) -> int {
    if lcdc & 0x04 != 0 {
        16
    } else {
        8
    }
}

/// A sprite's top screen line: its OAM Y byte minus sixteen.
pub open spec fn spec_sprite_y(oam: Seq<u8>, idx: int) -> int {
    oam[idx * 4] - 16
}

/// A sprite's left screen column: its OAM X byte minus eight.
pub open spec fn spec_sprite_x(oam: Seq<u8>, idx: int) -> int {
    oam[idx * 4 + 1] - 8
}

/// Whether OAM entry `idx` covers screen line `ly`.
pub open spec fn spec_sprite_on_line(oam: Seq<u8>, lcdc: u8, ly: int, idx: int) -> bool {
    spec_sprite_y(oam, idx) <= ly < spec_sprite_y(oam, idx) + spec_sprite_height(lcdc)
}

/// The OAM indices of sprites on line `ly`, scanning from entry `i` while
/// `room` slots remain: hardware shows at most ten sprites per line, in
/// OAM order.
pub open spec fn spec_sprites_on_line(
    oam: Seq<u8>,
    lcdc: u8,
    ly: int,
    i: int,
    room: int,
) -> Seq<int>
    decreases 40 - i,
{
    if i >= 40 || room <= 0 {
        Seq::<int>::empty()
    } else if spec_sprite_on_line(oam, lcdc, ly, i) {
        seq![i] + spec_sprites_on_line(oam, lcdc, ly, i + 1, room - 1)
    } else {
        spec_sprites_on_line(oam, lcdc, ly, i + 1, room)
    }
}

/// `idx` inserted into `s` from the right: it lands after every entry
/// whose X is not greater, so equal X keeps OAM order.
pub open spec fn spec_insert_sprite(s: Seq<int>, oam: Seq<u8>, idx: int) -> Seq<int>
    decreases s.len(),
{
    if s.len() == 0 {
        seq![idx]
    } else if spec_sprite_x(oam, s.last()) <= spec_sprite_x(oam, idx) {
        s.push(idx)
    } else {
        spec_insert_sprite(s.drop_last(), oam, idx).push(s.last())
    }
}

/// Insertion sort of sprite indices by ascending X, stable in OAM order.
pub open spec fn spec_sort_sprites(s: Seq<int>, oam: Seq<u8>) -> Seq<int>
    decreases s.len(),
{
    if s.len() == 0 {
        Seq::<int>::empty()
    } else {
        spec_insert_sprite(spec_sort_sprites(s.drop_last(), oam), oam, s.last())
    }
}

/// The pattern-data tile a sprite row reads: in 8x16 mode the tile pair
/// is aligned, low bit forced clear for the top half and set for the
/// bottom half.
pub open spec fn spec_sprite_tile(oam: Seq<u8>, lcdc: u8, idx: int, row: int) -> int {
    let tile = oam[idx * 4 + 2];
    if spec_sprite_height(lcdc) == 16 {
        if row >= 8 {
            (tile | 1) as int
        } else {
            (tile & 0xFE) as int
        }
    } else {
        tile as int
    }
}

/// The row of the sprite's pattern that line `ly` shows, after Y-flip.
pub open spec fn spec_sprite_row(oam: Seq<u8>, lcdc: u8, ly: int, idx: int) -> int {
    let row = ly - spec_sprite_y(oam, idx);
    if oam[idx * 4 + 3] & 0x40 != 0 {
        spec_sprite_height(lcdc) - 1 - row
    } else {
        row
    }
}

/// The color index of the sprite's pixel at screen column `x`, after
/// X-flip. Zero is transparent.
pub open spec fn spec_sprite_color_index(
    vram: Seq<u8>,
    oam: Seq<u8>,
    lcdc: u8,
    ly: int,
    idx: int,
    x: int,
) -> u8 {
    let px = x - spec_sprite_x(oam, idx);
    let row = spec_sprite_row(oam, lcdc, ly, idx);
    let tile = spec_sprite_tile(oam, lcdc, idx, row);
    let addr = tile * 16 + (row % 8) * 2;
    let b1 = vram[addr];
    let b2 = vram[addr + 1];
    let bit = if oam[idx * 4 + 3] & 0x20 != 0 {
        px as u8
    } else {
        (7 - px) as u8
    };
    spec_color_index(b1, b2, bit)
}

/// The screen color of a sprite pixel: its color index through OBP0 or
/// OBP1 per the palette attribute bit.
pub open spec fn spec_sprite_pixel_color(
    vram: Seq<u8>,
    oam: Seq<u8>,
    lcdc: u8,
    obp0: u8,
    obp1: u8,
    ly: int,
    idx: int,
    x: int,
) -> u32 {
    let palette = if oam[idx * 4 + 3] & 0x10 != 0 {
        obp1
    } else {
        obp0
    };
    spec_palette_color(
        spec_palette_shade(palette, spec_sprite_color_index(vram, oam, lcdc, ly, idx, x)),
    )
}

/// Whether the sprite's pixel at column `x` lands on the screen: the
/// column is in its eight-pixel span, the color index is not transparent,
/// and a background-priority sprite yields to any non-lightest pixel
/// already drawn there.
pub open spec fn spec_sprite_pixel_shows(
    fb: Seq<u32>,
    vram: Seq<u8>,
    oam: Seq<u8>,
    lcdc: u8,
    ly: int,
    idx: int,
    x: int,
) -> bool {
    let sx = spec_sprite_x(oam, idx);
    sx <= x < sx + 8 && spec_sprite_color_index(vram, oam, lcdc, ly, idx, x) != 0 && (oam[idx * 4
        + 3] & 0x80 == 0 || fb[160 * ly + x] == spec_palette_color(0))
}

/// A framebuffer with one sprite drawn over row `ly`.
pub open spec fn spec_draw_sprite(
    fb: Seq<u32>,
    vram: Seq<u8>,
    oam: Seq<u8>,
    lcdc: u8,
    obp0: u8,
    obp1: u8,
    ly: int,
    idx: int,
) -> Seq<u32> {
    Seq::new(
        fb.len(),
        |i: int|
            if 160 * ly <= i < 160 * ly + 160 && spec_sprite_pixel_shows(
                fb,
                vram,
                oam,
                lcdc,
                ly,
                idx,
                i - 160 * ly,
            ) {
                spec_sprite_pixel_color(vram, oam, lcdc, obp0, obp1, ly, idx, i - 160 * ly)
            } else {
                fb[i]
            },
    )
}

/// A framebuffer with the listed sprites drawn back to front: the last of
/// the X-sorted list first, so the leftmost (and earliest in OAM on ties)
/// is drawn last and wins overlaps.
pub open spec fn spec_draw_sprites_rev(
    fb: Seq<u32>,
    vram: Seq<u8>,
    oam: Seq<u8>,
    lcdc: u8,
    obp0: u8,
    obp1: u8,
    ly: int,
    sprites: Seq<int>,
) -> Seq<u32>
    decreases sprites.len(),
{
    if sprites.len() == 0 {
        fb
    } else {
        spec_draw_sprites_rev(
            spec_draw_sprite(fb, vram, oam, lcdc, obp0, obp1, ly, sprites.last()),
            vram,
            oam,
            lcdc,
            obp0,
            obp1,
            ly,
            sprites.drop_last(),
        )
    }
}

/// A framebuffer with the whole sprite layer of row `ly` drawn: the first
/// ten sprites on the line in OAM order, sorted by ascending X (ties in
/// OAM order), drawn in reverse so the lowest X shows on top.
pub open spec fn spec_render_sprites(
    fb: Seq<u32>,
    lcdc: u8,
    obp0: u8,
    obp1: u8,
    vram: Seq<u8>,
    oam: Seq<u8>,
    ly: int,
) -> Seq<u32> {
    spec_draw_sprites_rev(
        fb,
        vram,
        oam,
        lcdc,
        obp0,
        obp1,
        ly,
        spec_sort_sprites(spec_sprites_on_line(oam, lcdc, ly, 0, 10), oam),
    )
}

/// One whole visible scanline: background (or the lightest shade when the
/// background is off), then the window where enabled and reached, then
/// sprites where enabled.
pub open spec fn spec_render_scanline(p: PpuView, vram: Seq<u8>, oam: Seq<u8>) -> Seq<u32> {
    let ly = p.ly as int;
    let fb1 = if p.lcdc & 0x01 != 0 {
        spec_render_bg(p.framebuffer, p.lcdc, p.scy, p.scx, p.bgp, vram, ly)
    } else {
        spec_fill_row(p.framebuffer, ly)
    };
    let fb2 = if p.lcdc & 0x20 != 0 && p.ly >= p.wy {
        spec_render_window(fb1, p.lcdc, p.bgp, p.wy, p.wx, vram, ly)
    } else {
        fb1
    };
    if p.lcdc & 0x02 != 0 {
        spec_render_sprites(fb2, p.lcdc, p.obp0, p.obp1, vram, oam, ly)
    } else {
        fb2
    }
}

impl Ppu {
    /// Fill row `ly` with the lightest shade.
    pub(crate) fn fill_row(&mut self, ly: usize)
        requires
            ly < 144,
            old(self).framebuffer@.len() == 160 * 144,
        ensures
            final(self).framebuffer@.len() == old(self).framebuffer@.len(),
            final(self)@ == (PpuView {
                framebuffer: spec_fill_row(old(self).framebuffer@, ly as int),
                ..old(self)@
            }),
    {
        let mut x: usize = 0;
        while x < 160
            invariant
                x <= 160,
                ly < 144,
                self.framebuffer@.len() == 160 * 144,
                self@ == (PpuView { framebuffer: self.framebuffer@, ..old(self)@ }),
                forall|i: int|
                    0 <= i < 160 * 144 && !(160 * ly <= i < 160 * ly + x) ==> self.framebuffer@[i]
                        == old(self).framebuffer@[i],
                forall|i: int|
                    160 * ly <= i < 160 * ly + x ==> self.framebuffer@[i] == spec_palette_color(0),
            decreases 160 - x,
        {
            self.framebuffer[ly * 160 + x] = 0xFFE0F8D0u32;
            x = x + 1;
        }
        proof {
            assert(self.framebuffer@ =~= spec_fill_row(old(self).framebuffer@, ly as int));
        }
    }

    /// Draw the background layer over row `ly`.
    pub(crate) fn render_bg_scanline(&mut self, vram: &[u8], ly: usize)
        requires
            ly < 144,
            old(self).framebuffer@.len() == 160 * 144,
            vram@.len() == 0x2000,
        ensures
            final(self).framebuffer@.len() == old(self).framebuffer@.len(),
            final(self)@ == (PpuView {
                framebuffer: spec_render_bg(
                    old(self).framebuffer@,
                    old(self).lcdc,
                    old(self).scy,
                    old(self).scx,
                    old(self).bgp,
                    vram@,
                    ly as int,
                ),
                ..old(self)@
            }),
    {
        let scroll_y = self.scy as usize;
        let scroll_x = self.scx as usize;
        let map_base: usize = if self.lcdc & 0x08 != 0 {
            0x1C00
        } else {
            0x1800
        };
        let bg_y = (ly + scroll_y) % 256;
        let tile_row = bg_y / 8;
        let py = bg_y % 8;
        let mut x: usize = 0;
        while x < 160
            invariant
                x <= 160,
                ly < 144,
                scroll_y == self.scy as int,
                scroll_x == self.scx as int,
                map_base == (if self.lcdc & 0x08 != 0 { 0x1C00int } else { 0x1800int }),
                bg_y == (ly + scroll_y) % 256,
                tile_row == bg_y / 8,
                py == bg_y % 8,
                vram@.len() == 0x2000,
                self.framebuffer@.len() == 160 * 144,
                self@ == (PpuView { framebuffer: self.framebuffer@, ..old(self)@ }),
                forall|i: int|
                    0 <= i < 160 * 144 && !(160 * ly <= i < 160 * ly + x) ==> self.framebuffer@[i]
                        == old(self).framebuffer@[i],
                forall|i: int|
                    160 * ly <= i < 160 * ly + x ==> self.framebuffer@[i] == spec_bg_pixel(
                        self.lcdc,
                        self.scy,
                        self.scx,
                        self.bgp,
                        vram@,
                        ly as int,
                        i - 160 * ly,
                    ),
            decreases 160 - x,
        {
            let bg_x = (x + scroll_x) % 256;
            let tile_col = bg_x / 8;
            let px = bg_x % 8;
            let tile_index = vram[map_base + tile_row * 32 + tile_col];
            let base = self.tile_base(tile_index);
            let b1 = vram[base + py * 2];
            let b2 = vram[base + py * 2 + 1];
            let bit = (7 - px) as u8;
            let color_index = (((b2 >> bit) & 1) << 1) | ((b1 >> bit) & 1);
            proof {
                lemma_color_index_le3(b1, b2, bit);
                lemma_and3_le3(color_index);
            }
            let shade = (self.bgp >> ((color_index & 0x03) * 2)) & 0x03;
            self.framebuffer[ly * 160 + x] = palette_color(shade);
            x = x + 1;
        }
        proof {
            assert(self.framebuffer@ =~= spec_render_bg(
                old(self).framebuffer@,
                old(self).lcdc,
                old(self).scy,
                old(self).scx,
                old(self).bgp,
                vram@,
                ly as int,
            ));
        }
    }

    /// The base index in video memory of a tile's pattern data, per the
    /// tile-data-select bit of LCDC.
    fn tile_base(&self, tile_index: u8) -> (r: usize)
        ensures
            r == spec_tile_base(self.lcdc, tile_index),
            r + 15 < 0x2000,
    {
        if self.lcdc & 0x10 != 0 {
            tile_index as usize * 16
        } else if tile_index < 128 {
            0x1000 + tile_index as usize * 16
        } else {
            tile_index as usize * 16
        }
    }

    /// Draw the window layer over row `ly`, from the window's left edge.
    pub(crate) fn render_window_scanline(&mut self, vram: &[u8], ly: usize)
        requires
            ly < 144,
            old(self).wy <= ly,
            old(self).framebuffer@.len() == 160 * 144,
            vram@.len() == 0x2000,
        ensures
            final(self).framebuffer@.len() == old(self).framebuffer@.len(),
            final(self)@ == (PpuView {
                framebuffer: spec_render_window(
                    old(self).framebuffer@,
                    old(self).lcdc,
                    old(self).bgp,
                    old(self).wy,
                    old(self).wx,
                    vram@,
                    ly as int,
                ),
                ..old(self)@
            }),
    {
        let window_line = ly - self.wy as usize;
        let start: usize = if self.wx >= 7 {
            self.wx as usize - 7
        } else {
            0
        };
        if start >= 160 {
            return;
        }
        let tile_row = window_line / 8;
        let py = window_line % 8;
        let map_base: usize = if self.lcdc & 0x40 != 0 {
            0x1C00
        } else {
            0x1800
        };
        let mut x: usize = start;
        while x < 160
            invariant
                start <= x <= 160,
                start < 160,
                ly < 144,
                self.wy <= ly,
                window_line == ly - self.wy,
                start == spec_window_start(self.wx),
                tile_row == window_line / 8,
                py == window_line % 8,
                map_base == (if self.lcdc & 0x40 != 0 { 0x1C00int } else { 0x1800int }),
                vram@.len() == 0x2000,
                self.framebuffer@.len() == 160 * 144,
                self@ == (PpuView { framebuffer: self.framebuffer@, ..old(self)@ }),
                forall|i: int|
                    0 <= i < 160 * 144 && !(160 * ly + start <= i < 160 * ly + x) ==>
                        self.framebuffer@[i] == old(self).framebuffer@[i],
                forall|i: int|
                    160 * ly + start <= i < 160 * ly + x ==> self.framebuffer@[i]
                        == spec_window_pixel(
                        self.lcdc,
                        self.bgp,
                        vram@,
                        ly - self.wy,
                        i - (160 * ly + start),
                    ),
            decreases 160 - x,
        {
            let window_x = x - start;
            let tile_col = window_x / 8;
            let px = window_x % 8;
            let tile_index = vram[map_base + tile_row * 32 + tile_col];
            let base = self.tile_base(tile_index);
            let b1 = vram[base + py * 2];
            let b2 = vram[base + py * 2 + 1];
            let bit = (7 - px) as u8;
            let color_index = (((b2 >> bit) & 1) << 1) | ((b1 >> bit) & 1);
            proof {
                lemma_color_index_le3(b1, b2, bit);
                lemma_and3_le3(color_index);
            }
            let shade = (self.bgp >> ((color_index & 0x03) * 2)) & 0x03;
            self.framebuffer[ly * 160 + x] = palette_color(shade);
            x = x + 1;
        }
        proof {
            assert(self.framebuffer@ =~= spec_render_window(
                old(self).framebuffer@,
                old(self).lcdc,
                old(self).bgp,
                old(self).wy,
                old(self).wx,
                vram@,
                ly as int,
            ));
        }
    }

    /// Draw the sprite layer over row `ly`: the first ten sprites on the
    /// line in OAM order, sorted by ascending X, drawn back to front.
    pub(crate) fn render_sprites_scanline(&mut self, vram: &[u8], oam: &[u8], ly: usize)
        requires
            ly < 144,
            old(self).framebuffer@.len() == 160 * 144,
            vram@.len() == 0x2000,
            oam@.len() == 160,
        ensures
            final(self).framebuffer@.len() == old(self).framebuffer@.len(),
            final(self)@ == (PpuView {
                framebuffer: spec_render_sprites(
                    old(self).framebuffer@,
                    old(self).lcdc,
                    old(self).obp0,
                    old(self).obp1,
                    vram@,
                    oam@,
                    ly as int,
                ),
                ..old(self)@
            }),
    {
        let height: i32 = if self.lcdc & 0x04 != 0 {
            16
        } else {
            8
        };
        let mut sorted: Vec<usize> = Vec::new();
        let mut i: usize = 0;
        let ghost mut vis: Seq<int> = Seq::<int>::empty();
        while i < 40 && sorted.len() < 10
            invariant
                i <= 40,
                sorted.len() <= 10,
                ly < 144,
                oam@.len() == 160,
                height == spec_sprite_height(self.lcdc),
                vis.len() == sorted.len(),
                spec_sprites_on_line(oam@, self.lcdc, ly as int, 0, 10) == vis
                    + spec_sprites_on_line(oam@, self.lcdc, ly as int, i as int, 10 - vis.len()),
                to_ints(sorted@) == spec_sort_sprites(vis, oam@),
                sprites_sorted_by_x(to_ints(sorted@), oam@),
                forall|m: int|
                    0 <= m < sorted@.len() ==> sorted@[m] < 40 && spec_sprite_on_line(
                        oam@,
                        self.lcdc,
                        ly as int,
                        sorted@[m] as int,
                    ),
            decreases 40 - i,
        {
            let sprite_y: i32 = oam[i * 4] as i32 - 16;
            if ly as i32 >= sprite_y && (ly as i32) < sprite_y + height {
                let xj: i32 = oam[i * 4 + 1] as i32 - 8;
                let mut pos: usize = sorted.len();
                while pos > 0 && oam[sorted[pos - 1] * 4 + 1] as i32 - 8 > xj
                    invariant
                        pos <= sorted.len(),
                        oam@.len() == 160,
                        i < 40,
                        xj == spec_sprite_x(oam@, i as int),
                        forall|m: int|
                            0 <= m < sorted@.len() ==> sorted@[m] < 40,
                        forall|k: int|
                            pos <= k < sorted@.len() ==> spec_sprite_x(oam@, sorted@[k] as int)
                                > xj,
                    decreases pos,
                {
                    pos = pos - 1;
                }
                let ghost s0: Seq<usize> = sorted@;
                proof {
                    lemma_insert_sprite_at(to_ints(s0), oam@, i as int, pos as int);
                    assert(vis.push(i as int).drop_last() =~= vis);
                }
                sorted.insert(pos, i);
                proof {
                    s0.insert_ensures(pos as int, i);
                    to_ints(s0).insert_ensures(pos as int, i as int);
                    assert(to_ints(sorted@) =~= to_ints(s0).insert(pos as int, i as int));
                    vis = vis.push(i as int);
                    assert(to_ints(sorted@) == spec_sort_sprites(vis, oam@));
                }
            }
            i = i + 1;
            proof {
                assert(spec_sprites_on_line(oam@, self.lcdc, ly as int, 0, 10) =~= vis
                    + spec_sprites_on_line(oam@, self.lcdc, ly as int, i as int, 10 - vis.len()));
            }
        }
        proof {
            assert(spec_sprites_on_line(oam@, self.lcdc, ly as int, i as int, 10 - vis.len())
                =~= Seq::<int>::empty());
            assert(vis + Seq::<int>::empty() =~= vis);
            assert(to_ints(sorted@) == spec_sort_sprites(
                spec_sprites_on_line(oam@, self.lcdc, ly as int, 0, 10),
                oam@,
            ));
        }
        let ghost plan = to_ints(sorted@);
        let ghost fb0 = self.framebuffer@;
        proof {
            assert(plan.subrange(0, plan.len() as int) =~= plan);
        }
        let mut k: usize = sorted.len();
        while k > 0
            invariant
                k <= sorted.len(),
                ly < 144,
                oam@.len() == 160,
                vram@.len() == 0x2000,
                self.framebuffer@.len() == 160 * 144,
                plan == to_ints(sorted@),
                self@ == (PpuView { framebuffer: self.framebuffer@, ..old(self)@ }),
                forall|m: int|
                    0 <= m < sorted@.len() ==> sorted@[m] < 40 && spec_sprite_on_line(
                        oam@,
                        self.lcdc,
                        ly as int,
                        sorted@[m] as int,
                    ),
                spec_draw_sprites_rev(
                    self.framebuffer@,
                    vram@,
                    oam@,
                    self.lcdc,
                    self.obp0,
                    self.obp1,
                    ly as int,
                    plan.subrange(0, k as int),
                ) == spec_draw_sprites_rev(
                    fb0,
                    vram@,
                    oam@,
                    self.lcdc,
                    self.obp0,
                    self.obp1,
                    ly as int,
                    plan,
                ),
            decreases k,
        {
            proof {
                assert(plan.subrange(0, k as int).drop_last() =~= plan.subrange(0, k - 1));
            }
            let idx = sorted[k - 1];
            self.draw_sprite(vram, oam, ly, idx);
            k = k - 1;
        }
        proof {
            assert(plan.subrange(0, 0) =~= Seq::<int>::empty());
        }
    }

    /// Draw one sprite's pixels of row `ly` into the framebuffer.
    fn draw_sprite(&mut self, vram: &[u8], oam: &[u8], ly: usize, idx: usize)
        requires
            ly < 144,
            idx < 40,
            old(self).framebuffer@.len() == 160 * 144,
            vram@.len() == 0x2000,
            oam@.len() == 160,
            spec_sprite_on_line(oam@, old(self).lcdc, ly as int, idx as int),
        ensures
            final(self).framebuffer@.len() == old(self).framebuffer@.len(),
            final(self)@ == (PpuView {
                framebuffer: spec_draw_sprite(
                    old(self).framebuffer@,
                    vram@,
                    oam@,
                    old(self).lcdc,
                    old(self).obp0,
                    old(self).obp1,
                    ly as int,
                    idx as int,
                ),
                ..old(self)@
            }),
    {
        let oam_addr = idx * 4;
        let sprite_x: i32 = oam[oam_addr + 1] as i32 - 8;
        let sprite_y: i32 = oam[oam_addr] as i32 - 16;
        let tile_index = oam[oam_addr + 2];
        let attributes = oam[oam_addr + 3];
        let flip_x = attributes & 0x20 != 0;
        let bg_priority = attributes & 0x80 != 0;
        let palette = if attributes & 0x10 != 0 {
            self.obp1
        } else {
            self.obp0
        };
        let height: i32 = if self.lcdc & 0x04 != 0 {
            16
        } else {
            8
        };
        let mut sprite_row: i32 = ly as i32 - sprite_y;
        if attributes & 0x40 != 0 {
            sprite_row = height - 1 - sprite_row;
        }
        let actual_tile: usize = if height == 16 {
            if sprite_row >= 8 {
                (tile_index | 1) as usize
            } else {
                (tile_index & 0xFE) as usize
            }
        } else {
            tile_index as usize
        };
        let row_in_tile = (sprite_row % 8) as usize;
        let tile_data_addr = actual_tile * 16 + row_in_tile * 2;
        let b1 = vram[tile_data_addr];
        let b2 = vram[tile_data_addr + 1];
        let mut px: usize = 0;
        while px < 8
            invariant
                px <= 8,
                ly < 144,
                idx < 40,
                oam@.len() == 160,
                vram@.len() == 0x2000,
                self.framebuffer@.len() == 160 * 144,
                self@ == (PpuView { framebuffer: self.framebuffer@, ..old(self)@ }),
                sprite_x == spec_sprite_x(oam@, idx as int),
                attributes == oam@[idx as int * 4 + 3],
                flip_x == (attributes & 0x20 != 0),
                bg_priority == (attributes & 0x80 != 0),
                palette == (if attributes & 0x10 != 0 {
                    old(self).obp1
                } else {
                    old(self).obp0
                }),
                forall|x2: int|
                    sprite_x <= x2 < sprite_x + px && 0 <= x2 < 160 ==> self.framebuffer@[160 * ly
                        + x2] == (if spec_sprite_pixel_shows(
                        old(self).framebuffer@,
                        vram@,
                        oam@,
                        old(self).lcdc,
                        ly as int,
                        idx as int,
                        x2,
                    ) {
                        spec_sprite_pixel_color(
                            vram@,
                            oam@,
                            old(self).lcdc,
                            old(self).obp0,
                            old(self).obp1,
                            ly as int,
                            idx as int,
                            x2,
                        )
                    } else {
                        old(self).framebuffer@[160 * ly + x2]
                    }),
                forall|j: int|
                    0 <= j < 160 * 144 && !(160 * ly <= j < 160 * ly + 160 && sprite_x <= j - 160
                        * ly < sprite_x + px) ==> self.framebuffer@[j]
                        == old(self).framebuffer@[j],
                forall|x2: int|
                    sprite_x <= x2 < sprite_x + 8 ==> spec_sprite_color_index(
                        vram@,
                        oam@,
                        old(self).lcdc,
                        ly as int,
                        idx as int,
                        x2,
                    ) == spec_color_index(
                        b1,
                        b2,
                        if flip_x {
                            (x2 - sprite_x) as u8
                        } else {
                            (7 - (x2 - sprite_x)) as u8
                        },
                    ),
            decreases 8 - px,
        {
            let screen_x = sprite_x + px as i32;
            if screen_x >= 0 && screen_x < 160 {
                let bit: u8 = if flip_x {
                    px as u8
                } else {
                    7 - px as u8
                };
                let color_index = (((b2 >> bit) & 1) << 1) | ((b1 >> bit) & 1);
                if color_index != 0 {
                    let fb_idx = ly * 160 + screen_x as usize;
                    let covered = self.framebuffer[fb_idx];
                    if !(bg_priority && covered != 0xFFE0F8D0u32) {
                        proof {
                            lemma_color_index_le3(b1, b2, bit);
                            lemma_and3_le3(color_index);
                        }
                        let shade = (palette >> ((color_index & 0x03) * 2)) & 0x03;
                        self.framebuffer[fb_idx] = palette_color(shade);
                    }
                }
            }
            px = px + 1;
        }
        proof {
            assert(self.framebuffer@ =~= spec_draw_sprite(
                old(self).framebuffer@,
                vram@,
                oam@,
                old(self).lcdc,
                old(self).obp0,
                old(self).obp1,
                ly as int,
                idx as int,
            ));
        }
    }
}

/// Sprite indices as mathematical integers.
pub open spec fn to_ints(s: Seq<usize>) -> Seq<int> {
    s.map_values(|v: usize| v as int)
}

/// The sequence is ordered by ascending sprite X.
pub open spec fn sprites_sorted_by_x(s: Seq<int>, oam: Seq<u8>) -> bool {
    forall|j: int, k: int|
        0 <= j < k < s.len() ==> spec_sprite_x(oam, s[j]) <= spec_sprite_x(oam, s[k])
}

/// Inserting into an X-sorted sequence at the scanned position is exactly
/// the specification's right-insertion, and keeps the order.
proof fn lemma_insert_sprite_at(s: Seq<int>, oam: Seq<u8>, idx: int, pos: int)
    requires
        sprites_sorted_by_x(s, oam),
        0 <= pos <= s.len(),
        forall|k: int| pos <= k < s.len() ==> spec_sprite_x(oam, s[k]) > spec_sprite_x(oam, idx),
        pos > 0 ==> spec_sprite_x(oam, s[pos - 1]) <= spec_sprite_x(oam, idx),
    ensures
        spec_insert_sprite(s, oam, idx) == s.insert(pos, idx),
        sprites_sorted_by_x(s.insert(pos, idx), oam),
    decreases s.len(),
{
    s.insert_ensures(pos, idx);
    if s.len() == 0 {
        assert(spec_insert_sprite(s, oam, idx) =~= s.insert(pos, idx));
    } else if spec_sprite_x(oam, s.last()) <= spec_sprite_x(oam, idx) {
        assert(pos == s.len());
        assert(spec_insert_sprite(s, oam, idx) =~= s.insert(pos, idx));
    } else {
        assert(pos < s.len());
        assert(s.drop_last().len() == s.len() - 1);
        assert(forall|k: int|
            pos <= k < s.drop_last().len() ==> spec_sprite_x(oam, s.drop_last()[k])
                > spec_sprite_x(oam, idx));
        lemma_insert_sprite_at(s.drop_last(), oam, idx, pos);
        s.drop_last().insert_ensures(pos, idx);
        assert(spec_insert_sprite(s, oam, idx) =~= s.insert(pos, idx));
    }
    assert forall|j: int, k: int| 0 <= j < k < s.insert(pos, idx).len() implies spec_sprite_x(
        oam,
        s.insert(pos, idx)[j],
    ) <= spec_sprite_x(oam, s.insert(pos, idx)[k]) by {
        let t = s.insert(pos, idx);
        if j < pos {
            assert(t[j] == s[j]);
        }
        if k < pos {
            assert(t[k] == s[k]);
        }
        if j > pos {
            assert(t[j] == s[j - 1]);
        }
        if k > pos {
            assert(t[k] == s[k - 1]);
        }
    }
}

} // verus!
