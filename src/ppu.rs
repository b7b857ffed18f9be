//! Pixel-processing unit: VRAM, OAM, LCD registers, the scanline state
//! machine and the scanline renderer.
use vstd::prelude::*;

use crate::bus::{BusDevice, Port};
use crate::cpu::signed8;
use vstd::arithmetic::div_mod::{lemma_fundamental_div_mod, lemma_fundamental_div_mod_converse};

verus! {

/// The framebuffer the PPU draws into: 160x144 pixels, row-major, RGBA.
pub struct PpuView {
    pub lcd: [u32; 23040],
}

impl PpuView {
    pub fn new() -> (r: Self)
        ensures
            forall|i: int| 0 <= i < 23040 ==> #[trigger] r.lcd@[i] == 0,
    {
        PpuView { lcd: [0u32; 23040] }
    }
}

pub struct Ppu {
    /// Tile data, two banks of 6 KiB.
    pub chr_data: [u8; 12288],
    /// Tile map 0x9800-0x9BFF: bank 0 holds tile indices, bank 1 attributes.
    pub bg_data1: [u8; 2048],
    /// Tile map 0x9C00-0x9FFF, laid out as `bg_data1`.
    pub bg_data2: [u8; 2048],
    /// OAM: 40 objects of Y, X, tile, attributes.
    pub objs: [u8; 160],
    pub dot: u16,
    /// OAM DMA bytes still to copy.
    pub dma_counter: u16,
    pub lcdc: u8,
    pub stat: u8,
    pub scy: u8,
    pub scx: u8,
    pub ly: u8,
    pub lyc: u8,
    pub dma: u8,
    pub bgp: u8,
    pub obp0: u8,
    pub obp1: u8,
    pub wy: u8,
    pub wx: u8,
    pub vbk: u8,
    pub bcps: u8,
    pub bcpd: u8,
    pub ocps: u8,
    pub ocpd: u8,
}

/// The greyscale shade of palette entry `index`.
pub open spec fn shade(index: u8) -> u32 {
    if index == 0 {
        0xFFFFFFFF
    } else if index == 1 {
        0xAAAAAAFF
    } else if index == 2 {
        0x555555FF
    } else {
        0x000000FF
    }
}

/// The palette entry that color `bits` maps to through palette register `pal`.
pub open spec fn palette_index(pal: u8, bits: u8) -> u8 {
    (pal >> (2 * bits) as u8) % 4
}

/// The 2-bit color of pixel `x` (0 = leftmost) of a tile row given by its two bytes.
pub open spec fn tile_bits(lo: u8, hi: u8, x: int) -> u8 {
    (((hi >> (7 - x) as u8) % 2) * 2 + (lo >> (7 - x) as u8) % 2) as u8
}

/// Where tile `idx` starts in tile data, by the addressing mode in LCDC bit 4.
pub open spec fn chr_offset(lcdc: u8, idx: u8) -> int {
    if lcdc & 0x10 != 0 {
        idx as int * 16
    } else {
        0x1000 + signed8(idx) * 16
    }
}

/// True when the timing counters are in range.
pub open spec fn timing_ok(ly: u8, dot: u16) -> bool {
    ly < 154 && dot < 456
}

/// The line and dot after one dot.
pub open spec fn timing_next(ly: u8, dot: u16) -> (u8, u16) {
    if dot + 1 < 456 {
        (ly, (dot + 1) as u16)
    } else if ly + 1 < 154 {
        ((ly + 1) as u8, 0)
    } else {
        (0, 0)
    }
}

/// The dot at which VBlank is signalled: the last dot of line 143, which
/// moves LY to 144.
pub open spec fn vblank_at(ly: u8, dot: u16) -> bool {
    ly == 143 && dot == 455
}

/// The line and dot after `n` dots.
pub open spec fn timing_iter(ly: u8, dot: u16, n: nat) -> (u8, u16)
    decreases n,
{
    if n == 0 {
        (ly, dot)
    } else {
        let (l, d) = timing_iter(ly, dot, (n - 1) as nat);
        timing_next(l, d)
    }
}

/// How many times VBlank is signalled in `n` dots from (`ly`, `dot`).
pub open spec fn vblank_count(ly: u8, dot: u16, n: nat) -> nat
    decreases n,
{
    if n == 0 {
        0
    } else {
        let (l, d) = timing_iter(ly, dot, (n - 1) as nat);
        vblank_count(ly, dot, (n - 1) as nat) + if vblank_at(l, d) {
            1nat
        } else {
            0
        }
    }
}

/// Dots in one frame.
pub const FRAME_DOTS: u32 = 70224;

/// The position of (`ly`, `dot`) within a frame, in dots.
pub open spec fn frame_pos(ly: u8, dot: u16) -> int {
    ly as int * 456 + dot as int
}

proof fn lemma_timing_next_pos(ly: u8, dot: u16)
    requires
        timing_ok(ly, dot),
    ensures
        timing_ok(timing_next(ly, dot).0, timing_next(ly, dot).1),
        frame_pos(timing_next(ly, dot).0, timing_next(ly, dot).1) == (frame_pos(ly, dot) + 1) % 70224,
{
    let p = frame_pos(ly, dot);
    assert(0 <= p < 70224);
    if p + 1 < 70224 {
        lemma_fundamental_div_mod_converse(p + 1, 70224, 0, p + 1);
    } else {
        lemma_fundamental_div_mod_converse(p + 1, 70224, 1, 0);
    }
}

proof fn lemma_timing_iter_pos(ly: u8, dot: u16, n: nat)
    requires
        timing_ok(ly, dot),
    ensures
        timing_ok(timing_iter(ly, dot, n).0, timing_iter(ly, dot, n).1),
        frame_pos(timing_iter(ly, dot, n).0, timing_iter(ly, dot, n).1) == (frame_pos(ly, dot) + n)
            % 70224,
    decreases n,
{
    if n > 0 {
        lemma_timing_iter_pos(ly, dot, (n - 1) as nat);
        let (l, d) = timing_iter(ly, dot, (n - 1) as nat);
        lemma_timing_next_pos(l, d);
        let p = frame_pos(ly, dot);
        lemma_fundamental_div_mod(p + n - 1, 70224);
        let q = (p + n - 1) / 70224;
        let r = (p + n - 1) % 70224;
        if r + 1 < 70224 {
            lemma_fundamental_div_mod_converse(p + n, 70224, q, r + 1);
            lemma_fundamental_div_mod_converse(r + 1, 70224, 0, r + 1);
        } else {
            lemma_fundamental_div_mod_converse(p + n, 70224, q + 1, 0);
            lemma_fundamental_div_mod_converse(r + 1, 70224, 1, 0);
        }
    }
}

proof fn lemma_vblank_pos(ly: u8, dot: u16)
    requires
        timing_ok(ly, dot),
    ensures
        vblank_at(ly, dot) <==> frame_pos(ly, dot) == 65663,
{
    if frame_pos(ly, dot) == 65663 {
        lemma_fundamental_div_mod_converse(65663, 456, ly as int, dot as int);
        lemma_fundamental_div_mod_converse(65663, 456, 143, 455);
    }
}

/// Within one frame of dots from position `p`, the `j`-th dot is the VBlank dot exactly once.
proof fn lemma_hits_once(p: int, j: int)
    requires
        0 <= p < 70224,
        0 <= j < 70224,
    ensures
        ((p + j) % 70224 == 65663) <==> j == (65663 - p + 70224) % 70224,
{
    if p + j < 70224 {
        lemma_fundamental_div_mod_converse(p + j, 70224, 0, p + j);
    } else {
        lemma_fundamental_div_mod_converse(p + j, 70224, 1, p + j - 70224);
    }
    if 65663 - p + 70224 < 70224 {
        lemma_fundamental_div_mod_converse(65663 - p + 70224, 70224, 0, 65663 - p + 70224);
    } else {
        lemma_fundamental_div_mod_converse(65663 - p + 70224, 70224, 1, 65663 - p);
    }
}

proof fn lemma_vblank_count_prefix(ly: u8, dot: u16, n: nat)
    requires
        timing_ok(ly, dot),
        n <= 70224,
    ensures
        vblank_count(ly, dot, n) == if (65663 - frame_pos(ly, dot) + 70224) % 70224 < n {
            1nat
        } else {
            0
        },
    decreases n,
{
    if n > 0 {
        lemma_vblank_count_prefix(ly, dot, (n - 1) as nat);
        lemma_timing_iter_pos(ly, dot, (n - 1) as nat);
        let (l, d) = timing_iter(ly, dot, (n - 1) as nat);
        lemma_vblank_pos(l, d);
        lemma_hits_once(frame_pos(ly, dot), n - 1);
    }
}

/// While the LCD is on, VBlank is signalled exactly once in any 70224
/// consecutive dots.
pub proof fn lemma_vblank_cadence(ly: u8, dot: u16)
    requires
        timing_ok(ly, dot),
    ensures
        vblank_count(ly, dot, FRAME_DOTS as nat) == 1,
{
    lemma_vblank_count_prefix(ly, dot, 70224);
    let p = frame_pos(ly, dot);
    if 65663 - p + 70224 < 70224 {
        lemma_fundamental_div_mod_converse(65663 - p + 70224, 70224, 0, 65663 - p + 70224);
    } else {
        lemma_fundamental_div_mod_converse(65663 - p + 70224, 70224, 1, 65663 - p);
    }
}

/// A line drawn with the background on, BGP = 0xE4, no scroll, the window and objects off, a
/// tile map of tile 0 and a blank tile 0 is white across.
pub proof fn lemma_blank_line_is_white(p: Ppu)
    requires
        p.ly < 144,
        p.lcdc & 0x01 != 0,
        p.bgp == 0xE4,
        p.scx == 0,
        p.scy == 0,
        p.lcdc & 0x20 == 0,
        p.lcdc & 0x02 == 0,
        p.lcdc & 0x08 == 0 ==> forall|i: int| 0 <= i < 1024 ==> #[trigger] p.bg_data1@[i] == 0,
        p.lcdc & 0x08 != 0 ==> forall|i: int| 0 <= i < 1024 ==> #[trigger] p.bg_data2@[i] == 0,
        forall|k: int| 0 <= k < 16 ==> #[trigger] p.chr_data@[chr_offset(p.lcdc, 0) + k] == 0,
    ensures
        forall|x: int| 0 <= x < 160 ==> #[trigger] p.pixel(x) == 0xFFFFFFFF,
{
    assert(forall|k: u8| k < 8 ==> #[trigger] (0u8 >> k) == 0) by (bit_vector);
    assert((0xE4u8 >> 0u8) % 4 == 0) by (bit_vector);
    assert forall|x: int| 0 <= x < 160 implies #[trigger] p.pixel(x) == 0xFFFFFFFF by {
        let mx = (x + p.scx) % 256;
        let my = (p.ly + p.scy) % 256;
        let idx = (my / 8) * 32 + mx / 8;
        assert(0 <= idx < 1024);
        let off = chr_offset(p.lcdc, 0) + 2 * (my % 8);
        let k0 = 2 * (my % 8);
        assert(p.chr_data@[chr_offset(p.lcdc, 0) + k0] == 0);
        assert(p.chr_data@[chr_offset(p.lcdc, 0) + (k0 + 1)] == 0);
        assert(off + 1 == chr_offset(p.lcdc, 0) + (k0 + 1));
        assert(tile_bits(0, 0, mx % 8) == 0);
        assert(p.bg_bits(x) == 0);
    }
}

impl Ppu {
    /// The line and dot counters are in range.
    pub open spec fn wf(self) -> bool {
        timing_ok(self.ly, self.dot)
    }

    pub open spec fn obj_y(self, i: int) -> u8 {
        self.objs@[4 * i]
    }

    pub open spec fn obj_x(self, i: int) -> u8 {
        self.objs@[4 * i + 1]
    }

    pub open spec fn obj_tile(self, i: int) -> u8 {
        self.objs@[4 * i + 2]
    }

    pub open spec fn obj_attr(self, i: int) -> u8 {
        self.objs@[4 * i + 3]
    }

    pub open spec fn obj_height(self) -> int {
        if self.lcdc & 0x04 != 0 {
            16
        } else {
            8
        }
    }

    /// Object `i` covers the current line.
    pub open spec fn obj_on_line(self, i: int) -> bool {
        self.obj_y(i) <= self.ly + 16 < self.obj_y(i) + self.obj_height()
    }

    /// The objects among the first `n` OAM entries that the line shows: the
    /// first ten that cover it, in OAM order.
    pub open spec fn selected_upto(self, n: int) -> Seq<int>
        decreases n,
    {
        if n <= 0 {
            Seq::empty()
        } else {
            let s = self.selected_upto(n - 1);
            if self.obj_on_line(n - 1) && s.len() < 10 {
                s.push(n - 1)
            } else {
                s
            }
        }
    }

    pub open spec fn selected(self) -> Seq<int> {
        self.selected_upto(40)
    }

    /// The 2-bit color of object `i` at screen column `x`; 0 where it does
    /// not cover `x` (color 0 is transparent).
    pub open spec fn obj_bits(self, i: int, x: int) -> u8 {
        let sx = self.obj_x(i) as int - 8;
        if sx <= x < sx + 8 {
            let attr = self.obj_attr(i);
            let h = self.obj_height();
            let row = self.ly + 16 - self.obj_y(i);
            let row = if attr & 0x40 != 0 { h - 1 - row } else { row };
            let tile = if h == 16 { self.obj_tile(i) & 0xFE } else { self.obj_tile(i) };
            let off = tile as int * 16 + 2 * row;
            let col = if attr & 0x20 != 0 { 7 - (x - sx) } else { x - sx };
            tile_bits(self.chr_data@[off], self.chr_data@[off + 1], col)
        } else {
            0
        }
    }

    /// Object `i` goes before object `j`: lower X first, then lower OAM index.
    pub open spec fn obj_before(self, i: int, j: int) -> bool {
        self.obj_x(i) < self.obj_x(j) || (self.obj_x(i) == self.obj_x(j) && i < j)
    }

    /// Among the first `k` selected objects, the first in priority order that
    /// is opaque at column `x`.
    pub open spec fn obj_winner(self, sel: Seq<int>, x: int, k: int) -> Option<int>
        decreases k,
    {
        if k <= 0 {
            None
        } else {
            let best = self.obj_winner(sel, x, k - 1);
            let i = sel[k - 1];
            if self.obj_bits(i, x) != 0 && (best is None || self.obj_before(i, best->Some_0)) {
                Some(i)
            } else {
                best
            }
        }
    }

    /// Color and depth of an object pixel with color `bits` and attributes `attr`.
    pub open spec fn obj_pixel(self, bits: u8, attr: u8) -> (u32, u8) {
        let pal = if attr & 0x10 == 0 { self.obp0 } else { self.obp1 };
        (shade(palette_index(pal, bits)), if attr & 0x80 == 0 { 0xFF } else { 0x7F })
    }

    /// Color and depth of a background color `bits`.
    pub open spec fn bg_pixel(self, bits: u8) -> (u32, u8) {
        (shade(palette_index(self.bgp, bits)), if bits == 0 { 0x7F } else { 0x80 })
    }

    /// The color bits of map position (`mx`, `my`) of the map chosen by `high_map`.
    pub open spec fn map_bits(self, high_map: bool, mx: int, my: int) -> u8 {
        let map = if high_map { self.bg_data2 } else { self.bg_data1 };
        let tile = map@[(my / 8) * 32 + mx / 8];
        let off = chr_offset(self.lcdc, tile) + 2 * (my % 8);
        tile_bits(self.chr_data@[off], self.chr_data@[off + 1], mx % 8)
    }

    pub open spec fn bg_bits(self, x: int) -> u8 {
        self.map_bits(self.lcdc & 0x08 != 0, (x + self.scx) % 256, (self.ly + self.scy) % 256)
    }

    /// The window covers column `x` of the current line.
    pub open spec fn window_on(self, x: int) -> bool {
        self.lcdc & 0x01 != 0 && self.lcdc & 0x20 != 0 && self.ly >= self.wy && x + 7 >= self.wx
    }

    pub open spec fn window_bits(self, x: int) -> u8 {
        self.map_bits(self.lcdc & 0x40 != 0, x + 7 - self.wx, self.ly - self.wy)
    }

    /// The color of column `x` of the current line (with LCDC bit 0 clear the
    /// background and window are blank, white of depth 0x7F): the background, then the
    /// winning object where its depth is at least the background's, then the
    /// window (one deeper than the background) where its depth is at least
    /// what is there.
    pub open spec fn pixel(self, x: int) -> u32 {
        let (bc, bz) = if self.lcdc & 0x01 != 0 {
            self.bg_pixel(self.bg_bits(x))
        } else {
            (0xFFFFFFFFu32, 0x7Fu8)
        };
        let (c1, z1) = if self.lcdc & 0x02 != 0 {
            match self.obj_winner(self.selected(), x, self.selected().len() as int) {
                Some(i) => {
                    let (sc, sz) = self.obj_pixel(self.obj_bits(i, x), self.obj_attr(i));
                    if sz >= bz {
                        (sc, sz)
                    } else {
                        (bc, bz)
                    }
                },
                None => (bc, bz),
            }
        } else {
            (bc, bz)
        };
        if self.window_on(x) {
            let (wc, wz) = self.bg_pixel(self.window_bits(x));
            if (wz + 1) as u8 >= z1 {
                wc
            } else {
                c1
            }
        } else {
            c1
        }
    }
}

fn shade_of(index: u8) -> (r: u32)
    ensures
        r == shade(index),
{
    if index == 0 {
        0xFFFFFFFF
    } else if index == 1 {
        0xAAAAAAFF
    } else if index == 2 {
        0x555555FF
    } else {
        0x000000FF
    }
}

fn row_bits(lo: u8, hi: u8, x: usize) -> (r: u8)
    requires
        x < 8,
    ensures
        r == tile_bits(lo, hi, x as int),
        r < 4,
{
    let s = (7 - x) as u8;
    ((hi >> s) % 2) * 2 + (lo >> s) % 2
}

impl Ppu {
    /// A PPU with the LCD off, every register zero and memory filled with 0xFF.
    pub fn new() -> (r: Self)
        ensures
            r == (Ppu { chr_data: r.chr_data, bg_data1: r.bg_data1, bg_data2: r.bg_data2, objs: r.objs, ..r.reset_state() }),
            forall|i: int| 0 <= i < 12288 ==> #[trigger] r.chr_data@[i] == 0xFF,
            forall|i: int| 0 <= i < 2048 ==> #[trigger] r.bg_data1@[i] == 0xFF && r.bg_data2@[i] == 0xFF,
            forall|i: int| 0 <= i < 160 ==> #[trigger] r.objs@[i] == 0xFF,
    {
        Ppu {
            chr_data: [0xFFu8; 12288],
            bg_data1: [0xFFu8; 2048],
            bg_data2: [0xFFu8; 2048],
            objs: [0xFFu8; 160],
            dot: 0,
            dma_counter: 0,
            lcdc: 0,
            stat: 0,
            scy: 0,
            scx: 0,
            ly: 0,
            lyc: 0,
            dma: 0,
            bgp: 0,
            obp0: 0,
            obp1: 0,
            wy: 0,
            wx: 0,
            vbk: 0,
            bcps: 0,
            bcpd: 0,
            ocps: 0,
            ocpd: 0,
        }
    }

    fn bg_color(&self, bits: u8) -> (r: (u32, u8))
        requires
            bits < 4,
        ensures
            r == self.bg_pixel(bits),
    {
        let index = (self.bgp >> (2 * bits)) % 4;
        (shade_of(index), if bits == 0 { 0x7F } else { 0x80 })
    }

    fn obj_color(&self, bits: u8, attr: u8) -> (r: (u32, u8))
        requires
            bits < 4,
        ensures
            r == self.obj_pixel(bits, attr),
    {
        let obp = if attr & 0x10 == 0 { self.obp0 } else { self.obp1 };
        let index = (obp >> (2 * bits)) % 4;
        (shade_of(index), if attr & 0x80 == 0 { 0xFF } else { 0x7F })
    }

    fn map_color_bits(&self, high_map: bool, mx: usize, my: usize) -> (r: u8)
        requires
            mx < 256,
            my < 256,
        ensures
            r == self.map_bits(high_map, mx as int, my as int),
            r < 4,
    {
        let idx = (my / 8) * 32 + mx / 8;
        let tile = if high_map { self.bg_data2[idx] } else { self.bg_data1[idx] };
        let base: usize = if self.lcdc & 0x10 != 0 {
            tile as usize * 16
        } else if tile < 128 {
            0x1000 + tile as usize * 16
        } else {
            0x1000 - (256 - tile as usize) * 16
        };
        let off = base + 2 * (my % 8);
        row_bits(self.chr_data[off], self.chr_data[off + 1], mx % 8)
    }

    fn obj_color_bits(&self, i: usize, x: usize) -> (r: u8)
        requires
            i < 40,
            x < 160,
            self.obj_on_line(i as int),
        ensures
            r == self.obj_bits(i as int, x as int),
            r < 4,
    {
        let sx = self.objs[4 * i + 1] as usize;
        if sx <= x + 8 && x + 8 < sx + 8 {
            let attr = self.objs[4 * i + 3];
            let h: usize = if self.lcdc & 0x04 != 0 { 16 } else { 8 };
            let row = (self.ly as usize + 16) - self.objs[4 * i] as usize;
            let row = if attr & 0x40 != 0 { h - 1 - row } else { row };
            let tile = if h == 16 { self.objs[4 * i + 2] & 0xFE } else { self.objs[4 * i + 2] };
            let off = tile as usize * 16 + 2 * row;
            let col = if attr & 0x20 != 0 { 7 - (x + 8 - sx) } else { x + 8 - sx };
            row_bits(self.chr_data[off], self.chr_data[off + 1], col)
        } else {
            0
        }
    }

    /// The objects shown on the current line.
    fn select_objs(&self) -> (r: Vec<usize>)
        ensures
            r@.len() == self.selected().len(),
            forall|k: int| 0 <= k < r@.len() ==> r@[k] as int == #[trigger] self.selected()[k],
    {
        let mut sel: Vec<usize> = Vec::new();
        let h: u16 = if self.lcdc & 0x04 != 0 { 16 } else { 8 };
        let mut i: usize = 0;
        while i < 40
            invariant
                i <= 40,
                h as int == self.obj_height(),
                sel@.len() == self.selected_upto(i as int).len(),
                forall|k: int| 0 <= k < sel@.len() ==> sel@[k] as int == #[trigger] self.selected_upto(i as int)[k],
            decreases 40 - i,
        {
            let y = self.objs[4 * i] as u16;
            let on = y <= self.ly as u16 + 16 && (self.ly as u16 + 16) < y + h;
            if on && sel.len() < 10 {
                sel.push(i);
            }
            i = i + 1;
        }
        sel
    }

    proof fn lemma_selected_bounds(self, n: int)
        ensures
            self.selected_upto(n).len() <= 10,
            forall|k: int| 0 <= k < self.selected_upto(n).len() ==> {
                let i = #[trigger] self.selected_upto(n)[k];
                0 <= i < n && self.obj_on_line(i)
            },
        decreases n,
    {
        if n > 0 {
            self.lemma_selected_bounds(n - 1);
        }
    }

    /// The object that wins column `x`, if any.
    fn winner_at(&self, sel: &Vec<usize>, x: usize) -> (r: Option<usize>)
        requires
            x < 160,
            sel@.len() == self.selected().len(),
            forall|k: int| 0 <= k < sel@.len() ==> sel@[k] as int == #[trigger] self.selected()[k],
        ensures
            r is Some <==> self.obj_winner(self.selected(), x as int, sel@.len() as int) is Some,
            r is Some ==> r->Some_0 as int == self.obj_winner(self.selected(), x as int, sel@.len() as int)->Some_0,
            r is Some ==> r->Some_0 < 40 && self.obj_on_line(r->Some_0 as int),
    {
        proof {
            self.lemma_selected_bounds(40);
        }
        let ghost s = self.selected();
        let mut best: Option<usize> = None;
        let mut k: usize = 0;
        while k < sel.len()
            invariant
                k <= sel@.len(),
                sel@.len() == s.len(),
                s == self.selected(),
                x < 160,
                forall|j: int| 0 <= j < sel@.len() ==> sel@[j] as int == #[trigger] s[j],
                forall|j: int| 0 <= j < s.len() ==> 0 <= #[trigger] s[j] < 40 && self.obj_on_line(s[j]),
                best is Some <==> self.obj_winner(s, x as int, k as int) is Some,
                best is Some ==> best->Some_0 as int == self.obj_winner(s, x as int, k as int)->Some_0,
                best is Some ==> best->Some_0 < 40 && self.obj_on_line(best->Some_0 as int),
            decreases sel@.len() - k,
        {
            let i = sel[k];
            assert(i as int == s[k as int]);
            let bits = self.obj_color_bits(i, x);
            if bits != 0 {
                match best {
                    None => {
                        best = Some(i);
                    },
                    Some(b) => {
                        let xi = self.objs[4 * i + 1];
                        let xb = self.objs[4 * b + 1];
                        if xi < xb || (xi == xb && i < b) {
                            best = Some(i);
                        }
                    },
                }
            }
            k = k + 1;
        }
        best
    }

    /// Renders the current line into its row of the framebuffer.
    fn draw_line(&self, view: &mut PpuView)
        requires
            self.ly < 144,
        ensures
            forall|x: int| 0 <= x < 160 ==> #[trigger] final(view).lcd@[self.ly * 160 + x] == self.pixel(x),
            forall|i: int| 0 <= i < 23040 && !(self.ly * 160 <= i < self.ly * 160 + 160) ==>
                #[trigger] final(view).lcd@[i] == old(view).lcd@[i],
    {
        let sel = self.select_objs();
        let row = self.ly as usize * 160;
        let by = (self.ly as usize + self.scy as usize) % 256;
        let mut x: usize = 0;
        while x < 160
            invariant
                x <= 160,
                row == self.ly * 160,
                self.ly < 144,
                by == (self.ly + self.scy) % 256,
                sel@.len() == self.selected().len(),
                forall|k: int| 0 <= k < sel@.len() ==> sel@[k] as int == #[trigger] self.selected()[k],
                forall|j: int| 0 <= j < x ==> #[trigger] view.lcd@[row + j] == self.pixel(j),
                forall|i: int| 0 <= i < 23040 && !(row <= i < row + x) ==>
                    #[trigger] view.lcd@[i] == old(view).lcd@[i],
            decreases 160 - x,
        {
            let (bc, bz) = if self.lcdc & 0x01 != 0 {
                let bx = (x + self.scx as usize) % 256;
                let bits = self.map_color_bits(self.lcdc & 0x08 != 0, bx, by);
                self.bg_color(bits)
            } else {
                // background and window disabled: blank
                (0xFFFFFFFFu32, 0x7Fu8)
            };
            let mut color = bc;
            let mut z = bz;
            if self.lcdc & 0x02 != 0 {
                match self.winner_at(&sel, x) {
                    Some(i) => {
                        let sbits = self.obj_color_bits(i, x);
                        let (sc, sz) = self.obj_color(sbits, self.objs[4 * i + 3]);
                        if sz >= bz {
                            color = sc;
                            z = sz;
                        }
                    },
                    None => {},
                }
            }
            if self.lcdc & 0x01 != 0 && self.lcdc & 0x20 != 0 && self.ly >= self.wy && x + 7
                >= self.wx as usize {
                let wbits = self.map_color_bits(
                    self.lcdc & 0x40 != 0,
                    x + 7 - self.wx as usize,
                    (self.ly - self.wy) as usize,
                );
                let (wc, wz) = self.bg_color(wbits);
                if wz + 1 >= z {
                    color = wc;
                }
            }
            view.lcd[row + x] = color;
            x = x + 1;
        }
    }
}

/// STAT after one dot at (`ly`, `dot`): the LY=LYC flag is latched at dot 0
/// and the mode bits follow the position in the frame.
pub open spec fn stat_next(stat: u8, ly: u8, lyc: u8, dot: u16) -> u8 {
    let s0 = if dot == 0 {
        if ly == lyc {
            stat | 0x04
        } else {
            stat & 0xFB
        }
    } else {
        stat
    };
    let s1 = if ly < 144 {
        if dot == 0 {
            (s0 & 0xFC) | 0x02
        } else if dot == 80 {
            (s0 & 0xFC) | 0x03
        } else if dot == 370 {
            s0 & 0xFC
        } else {
            s0
        }
    } else {
        s0
    };
    if vblank_at(ly, dot) {
        (s1 & 0xFC) | 0x01
    } else {
        s1
    }
}

/// Whether one dot at (`ly`, `dot`) raises the STAT interrupt: an enabled
/// LY=LYC match at dot 0, or entry to an enabled mode.
pub open spec fn stat_irq(stat: u8, ly: u8, lyc: u8, dot: u16) -> bool {
    (dot == 0 && ly == lyc && stat & 0x40 != 0) || (ly < 144 && dot == 0 && stat & 0x20 != 0) || (ly
        < 144 && dot == 370 && stat & 0x08 != 0) || (vblank_at(ly, dot) && stat & 0x10 != 0)
}

fn next_stat(stat: u8, ly: u8, lyc: u8, dot: u16) -> (r: u8)
    ensures
        r == stat_next(stat, ly, lyc, dot),
{
    // the LY=LYC flag is latched at the start of each line
    let s0 = if dot == 0 {
        if ly == lyc {
            stat | 0x04
        } else {
            stat & 0xFB
        }
    } else {
        stat
    };
    let s1 = if ly < 144 {
        if dot == 0 {
            // OAM scan
            (s0 & 0xFC) | 0x02
        } else if dot == 80 {
            // drawing
            (s0 & 0xFC) | 0x03
        } else if dot == 370 {
            // horizontal blank
            s0 & 0xFC
        } else {
            s0
        }
    } else {
        s0
    };
    if ly == 143 && dot == 455 {
        // vertical blank
        (s1 & 0xFC) | 0x01
    } else {
        s1
    }
}

fn raises_stat(stat: u8, ly: u8, lyc: u8, dot: u16) -> (r: bool)
    ensures
        r == stat_irq(stat, ly, lyc, dot),
{
    (dot == 0 && ly == lyc && stat & 0x40 != 0) || (ly < 144 && dot == 0 && stat & 0x20 != 0) || (ly
        < 144 && dot == 370 && stat & 0x08 != 0) || (ly == 143 && dot == 455 && stat & 0x10 != 0)
}

/// The PPU after one dot, the framebuffer aside: with the LCD off it holds
/// line 0, dot 0 and mode 0; otherwise the counters and STAT move on.
pub open spec fn ppu_next(p: Ppu) -> Ppu {
    if p.lcdc & 0x80 == 0 {
        Ppu { stat: p.stat & 0xFC, ly: 0, dot: 0, ..p }
    } else {
        Ppu {
            ly: timing_next(p.ly, p.dot).0,
            dot: timing_next(p.ly, p.dot).1,
            stat: stat_next(p.stat, p.ly, p.lyc, p.dot),
            ..p
        }
    }
}

/// The interrupt requests one dot raises: bit 0 VBlank, bit 1 STAT.
pub open spec fn ppu_irq(p: Ppu) -> u8 {
    if p.lcdc & 0x80 == 0 {
        0
    } else {
        ((if vblank_at(p.ly, p.dot) { 1int } else { 0 }) + (if stat_irq(p.stat, p.ly, p.lyc, p.dot) {
            2int
        } else {
            0
        })) as u8
    }
}

/// The framebuffer after one dot of `p`: on dot 80 of a visible line with
/// the LCD on, that line's row is drawn; every other pixel is kept.
pub open spec fn screen_step(p: Ppu, s: PpuView, s2: PpuView) -> bool {
    let draws = p.lcdc & 0x80 != 0 && p.ly < 144 && p.dot == 80;
    &&& draws ==> forall|x: int| 0 <= x < 160 ==> #[trigger] s2.lcd@[p.ly * 160 + x] == p.pixel(x)
    &&& forall|i: int|
        0 <= i < 23040 && !(draws && p.ly * 160 <= i < p.ly * 160 + 160) ==> #[trigger] s2.lcd@[i]
            == s.lcd@[i]
}

/// OAM DMA for one dot: byte `byte`, read from `dma_source`, goes into OAM.
pub open spec fn dma_phase(p: Ppu, byte: u8) -> Ppu {
    if p.dma_active() {
        Ppu {
            objs: vstd::array::spec_array_update(p.objs, 160 - p.dma_counter, byte),
            dma_counter: (p.dma_counter - 1) as u16,
            ..p
        }
    } else {
        p
    }
}

impl Ppu {
    /// The address OAM DMA reads next.
    pub open spec fn dma_source(self) -> u16 {
        (self.dma as int * 256 + (160 - self.dma_counter)) as u16
    }

    pub open spec fn dma_active(self) -> bool {
        0 < self.dma_counter <= 160
    }

    /// The address that OAM DMA reads next, if a transfer is running.
    pub fn dma_address(&self) -> (r: Option<u16>)
        ensures
            r is Some <==> self.dma_active(),
            r is Some ==> r->Some_0 == self.dma_source(),
    {
        if 0 < self.dma_counter && self.dma_counter <= 160 {
            Some(self.dma as u16 * 256 + (160 - self.dma_counter))
        } else {
            None
        }
    }

    /// Stores the next OAM DMA byte: byte i of the transfer goes to OAM[i].
    pub fn dma_step(&mut self, byte: u8)
        ensures
            old(self).dma_active() ==> *final(self) == (Ppu {
                objs: vstd::array::spec_array_update(old(self).objs, 160 - old(self).dma_counter, byte),
                dma_counter: (old(self).dma_counter - 1) as u16,
                ..*old(self)
            }),
            !old(self).dma_active() ==> *final(self) == (Ppu { dma_counter: 0, ..*old(self) }),
    {
        if 0 < self.dma_counter && self.dma_counter <= 160 {
            self.objs[(160 - self.dma_counter) as usize] = byte;
            self.dma_counter = self.dma_counter - 1;
        } else {
            self.dma_counter = 0;
        }
    }

    /// Advances the display by one dot. Returns the interrupt requests raised
    /// (bit 0 VBlank, bit 1 STAT) and whether VBlank began.
    pub fn step(&mut self, view: &mut PpuView) -> (r: (u8, bool))
        ensures
            *final(self) == ppu_next(*old(self)),
            r.0 == ppu_irq(*old(self)),
            r.1 == (old(self).lcdc & 0x80 != 0 && vblank_at(old(self).ly, old(self).dot)),
            screen_step(*old(self), *old(view), *final(view)),
            old(self).wf() ==> final(self).wf(),
            old(self).lcdc & 0x80 == 0 ==> {
                &&& *final(self) == (Ppu { stat: old(self).stat & 0xFC, ly: 0, dot: 0, ..*old(self) })
                &&& r == (0u8, false)
                &&& *final(view) == *old(view)
            },
            old(self).lcdc & 0x80 != 0 ==> ({
                let p = *old(self);
                let vb = vblank_at(p.ly, p.dot);
                &&& (final(self).ly, final(self).dot) == timing_next(p.ly, p.dot)
                &&& *final(self) == (Ppu {
                    ly: final(self).ly,
                    dot: final(self).dot,
                    stat: stat_next(p.stat, p.ly, p.lyc, p.dot),
                    ..p
                })
                &&& r.1 == vb
                &&& r.0 as int == (if vb { 1int } else { 0 }) + (if stat_irq(p.stat, p.ly, p.lyc, p.dot) {
                    2int
                } else {
                    0
                })
                &&& p.ly < 144 && p.dot == 80 ==> forall|x: int|
                    0 <= x < 160 ==> #[trigger] final(view).lcd@[p.ly * 160 + x] == p.pixel(x)
                &&& forall|i: int|
                    0 <= i < 23040 && !(p.ly < 144 && p.dot == 80 && p.ly * 160 <= i < p.ly * 160 + 160)
                        ==> #[trigger] final(view).lcd@[i] == old(view).lcd@[i]
            }),
    {
        if self.lcdc & 0x80 == 0 {
            self.stat = self.stat & 0xFC;
            self.ly = 0;
            self.dot = 0;
            return (0, false);
        }
        let stat = next_stat(self.stat, self.ly, self.lyc, self.dot);
        let stat_raised = raises_stat(self.stat, self.ly, self.lyc, self.dot);
        let vblank = self.ly == 143 && self.dot == 455;
        if self.ly < 144 && self.dot == 80 {
            self.draw_line(view);
        }
        self.stat = stat;
        if self.dot < 455 {
            self.dot = self.dot + 1;
        } else {
            self.dot = 0;
            self.ly = if self.ly < 153 { self.ly + 1 } else { 0 };
        }
        let irq: u8 = (if vblank { 1u8 } else { 0 }) + (if stat_raised { 2u8 } else { 0 });
        (irq, vblank)
    }

    /// The VRAM bank that CPU accesses use.
    pub open spec fn bank(self) -> int {
        (self.vbk % 2) as int
    }
}

impl BusDevice for Ppu {
    open spec fn peek(&self, addr: u16) -> u8 {
        if 0x8000 <= addr <= 0x97FF {
            self.chr_data@[self.bank() * 6144 + (addr - 0x8000)]
        } else if 0x9800 <= addr <= 0x9BFF {
            self.bg_data1@[self.bank() * 1024 + (addr - 0x9800)]
        } else if 0x9C00 <= addr <= 0x9FFF {
            self.bg_data2@[self.bank() * 1024 + (addr - 0x9C00)]
        } else if 0xFE00 <= addr <= 0xFE9F {
            self.objs@[addr - 0xFE00]
        } else if addr == Port::LCDC {
            self.lcdc
        } else if addr == Port::STAT {
            self.stat
        } else if addr == Port::SCY {
            self.scy
        } else if addr == Port::SCX {
            self.scx
        } else if addr == Port::LY {
            self.ly
        } else if addr == Port::LYC {
            self.lyc
        } else if addr == Port::DMA {
            self.dma
        } else if addr == Port::BGP {
            self.bgp
        } else if addr == Port::OBP0 {
            self.obp0
        } else if addr == Port::OBP1 {
            self.obp1
        } else if addr == Port::WY {
            self.wy
        } else if addr == Port::WX {
            self.wx
        } else if addr == Port::VBK {
            self.vbk
        } else if addr == Port::BCPS {
            self.bcps
        } else if addr == Port::BCPD {
            self.bcpd
        } else if addr == Port::OCPS {
            self.ocps
        } else if addr == Port::OCPD {
            self.ocpd
        } else {
            0xFF
        }
    }

    open spec fn poke(self, addr: u16, value: u8) -> Self {
        if 0x8000 <= addr <= 0x97FF {
            Ppu {
                chr_data: vstd::array::spec_array_update(
                    self.chr_data,
                    self.bank() * 6144 + (addr - 0x8000),
                    value,
                ),
                ..self
            }
        } else if 0x9800 <= addr <= 0x9BFF {
            Ppu {
                bg_data1: vstd::array::spec_array_update(
                    self.bg_data1,
                    self.bank() * 1024 + (addr - 0x9800),
                    value,
                ),
                ..self
            }
        } else if 0x9C00 <= addr <= 0x9FFF {
            Ppu {
                bg_data2: vstd::array::spec_array_update(
                    self.bg_data2,
                    self.bank() * 1024 + (addr - 0x9C00),
                    value,
                ),
                ..self
            }
        } else if 0xFE00 <= addr <= 0xFE9F {
            Ppu { objs: vstd::array::spec_array_update(self.objs, addr - 0xFE00, value), ..self }
        } else if addr == Port::LCDC {
            Ppu { lcdc: value, ..self }
        } else if addr == Port::STAT {
            // the mode bits are read-only and a write clears the LY=LYC flag
            Ppu { stat: (value & 0x78) | (self.stat & 0x03), ..self }
        } else if addr == Port::SCY {
            Ppu { scy: value, ..self }
        } else if addr == Port::SCX {
            Ppu { scx: value, ..self }
        } else if addr == Port::LYC {
            Ppu { lyc: value, ..self }
        } else if addr == Port::DMA {
            Ppu { dma: value, dma_counter: 160, ..self }
        } else if addr == Port::BGP {
            Ppu { bgp: value, ..self }
        } else if addr == Port::OBP0 {
            Ppu { obp0: value, ..self }
        } else if addr == Port::OBP1 {
            Ppu { obp1: value, ..self }
        } else if addr == Port::WY {
            Ppu { wy: value, ..self }
        } else if addr == Port::WX {
            Ppu { wx: value, ..self }
        } else if addr == Port::VBK {
            Ppu { vbk: value & 0x01, ..self }
        } else {
            self
        }
    }

    /// Registers and counters go back to zero; memory is kept as it is.
    open spec fn reset_state(self) -> Self {
        Ppu {
            dot: 0,
            dma_counter: 0,
            lcdc: 0,
            stat: 0,
            scy: 0,
            scx: 0,
            ly: 0,
            lyc: 0,
            dma: 0,
            bgp: 0,
            obp0: 0,
            obp1: 0,
            wy: 0,
            wx: 0,
            vbk: 0,
            bcps: 0,
            bcpd: 0,
            ocps: 0,
            ocpd: 0,
            ..self
        }
    }

    fn reset(&mut self) {
        self.dot = 0;
        self.dma_counter = 0;
        self.lcdc = 0;
        self.stat = 0;
        self.scy = 0;
        self.scx = 0;
        self.ly = 0;
        self.lyc = 0;
        self.dma = 0;
        self.bgp = 0;
        self.obp0 = 0;
        self.obp1 = 0;
        self.wy = 0;
        self.wx = 0;
        self.vbk = 0;
        self.bcps = 0;
        self.bcpd = 0;
        self.ocps = 0;
        self.ocpd = 0;
    }

    fn read(&mut self, addr: u16) -> (r: u8) {
        let bank = (self.vbk % 2) as usize;
        if 0x8000 <= addr && addr <= 0x97FF {
            self.chr_data[bank * 6144 + (addr - 0x8000) as usize]
        } else if 0x9800 <= addr && addr <= 0x9BFF {
            self.bg_data1[bank * 1024 + (addr - 0x9800) as usize]
        } else if 0x9C00 <= addr && addr <= 0x9FFF {
            self.bg_data2[bank * 1024 + (addr - 0x9C00) as usize]
        } else if 0xFE00 <= addr && addr <= 0xFE9F {
            self.objs[(addr - 0xFE00) as usize]
        } else if addr == Port::LCDC {
            self.lcdc
        } else if addr == Port::STAT {
            self.stat
        } else if addr == Port::SCY {
            self.scy
        } else if addr == Port::SCX {
            self.scx
        } else if addr == Port::LY {
            self.ly
        } else if addr == Port::LYC {
            self.lyc
        } else if addr == Port::DMA {
            self.dma
        } else if addr == Port::BGP {
            self.bgp
        } else if addr == Port::OBP0 {
            self.obp0
        } else if addr == Port::OBP1 {
            self.obp1
        } else if addr == Port::WY {
            self.wy
        } else if addr == Port::WX {
            self.wx
        } else if addr == Port::VBK {
            self.vbk
        } else if addr == Port::BCPS {
            self.bcps
        } else if addr == Port::BCPD {
            self.bcpd
        } else if addr == Port::OCPS {
            self.ocps
        } else if addr == Port::OCPD {
            self.ocpd
        } else {
            0xFF
        }
    }

    fn write(&mut self, addr: u16, value: u8) {
        let bank = (self.vbk % 2) as usize;
        if 0x8000 <= addr && addr <= 0x97FF {
            self.chr_data[bank * 6144 + (addr - 0x8000) as usize] = value;
        } else if 0x9800 <= addr && addr <= 0x9BFF {
            self.bg_data1[bank * 1024 + (addr - 0x9800) as usize] = value;
        } else if 0x9C00 <= addr && addr <= 0x9FFF {
            self.bg_data2[bank * 1024 + (addr - 0x9C00) as usize] = value;
        } else if 0xFE00 <= addr && addr <= 0xFE9F {
            self.objs[(addr - 0xFE00) as usize] = value;
        } else if addr == Port::LCDC {
            self.lcdc = value;
        } else if addr == Port::STAT {
            self.stat = (value & 0x78) | (self.stat & 0x03);
        } else if addr == Port::SCY {
            self.scy = value;
        } else if addr == Port::SCX {
            self.scx = value;
        } else if addr == Port::LYC {
            self.lyc = value;
        } else if addr == Port::DMA {
            self.dma = value;
            self.dma_counter = 160;
        } else if addr == Port::BGP {
            self.bgp = value;
        } else if addr == Port::OBP0 {
            self.obp0 = value;
        } else if addr == Port::OBP1 {
            self.obp1 = value;
        } else if addr == Port::WY {
            self.wy = value;
        } else if addr == Port::WX {
            self.wx = value;
        } else if addr == Port::VBK {
            self.vbk = value & 0x01;
        }
    }
}

} // verus!
