//! Tiles: 8x8 pixel bitmaps of two bits per pixel, sixteen bytes each, and
//! the palettes that map their colour indices to shades.

use vstd::prelude::*;

verus! {

/// Bytes in one tile.
pub const TILE_BYTES: usize = 16;

/// Bytes of video RAM.
pub const VRAM_LEN: usize = 0x2000;

/// The colour index (0 to 3) of pixel `x` (0 is the leftmost) of a tile row
/// stored as the byte pair `lo`, `hi`.
pub open spec fn color_index(lo: u8, hi: u8, x: int) -> u8 {
    let s = (7 - x) as u8;
    (2 * ((hi >> s) % 2) + (lo >> s) % 2) as u8
}

/// The shade that a packed palette gives colour index `color_id`.
pub open spec fn shade(palette: u8, color_id: u8) -> u8 {
    (palette >> (2 * color_id) as u8) & 0x3
}

/// The eight colour indices of a tile row.
pub open spec fn row_indices(lo: u8, hi: u8) -> Seq<u8> {
    Seq::new(8, |x: int| color_index(lo, hi, x))
}

/// The eight shades of a tile row seen through `palette`.
pub open spec fn row_shades(lo: u8, hi: u8, palette: u8) -> Seq<u8> {
    Seq::new(8, |x: int| shade(palette, color_index(lo, hi, x)))
}

/// A palette: four two-bit shades packed into a byte, index 0 lowest.
#[derive(Clone, Copy, Debug, PartialEq, Eq, Structural)]
pub struct Palette(pub u8);

/// The identity palette: index `i` gives shade `i`.
pub const DEFAULT_PALETTE: u8 = 0b11100100;

/// One tile row: the low-bit byte, then the high-bit byte.
#[derive(Clone, Copy, Debug, PartialEq, Eq, Structural)]
pub struct Line {
    pub lo: u8,
    pub hi: u8,
}

/// Colour index of pixel `x` of the row `lo`, `hi`.
pub fn pixel_index(lo: u8, hi: u8, x: u8) -> (r: u8)
    requires
        x < 8,
    ensures
        r == color_index(lo, hi, x as int),
        r < 4,
{
    let s: u8 = 7 - x;
    2 * ((hi >> s) % 2) + (lo >> s) % 2
}

impl Line {
    /// The shade that `palette` gives `color_id`.
    pub fn apply_palette(color_id: u8, palette: Palette) -> (r: u8)
        requires
            color_id < 4,
        ensures
            r == shade(palette.0, color_id),
            r < 4,
    {
        let p = palette.0;
        let s = 2 * color_id;
        assert((p >> s) & 0x3 < 4) by (bit_vector);
        (p >> s) & 0x3
    }

    /// The row's eight pixels through `palette`, leftmost first.
    pub fn render(&self, palette: Palette) -> (r: [u8; 8])
        ensures
            r@ == row_shades(self.lo, self.hi, palette.0),
    {
        let mut out: [u8; 8] = [0u8; 8];
        let mut x: u8 = 0;
        while x < 8
            invariant
                x <= 8,
                out@.len() == 8,
                forall|i: int| 0 <= i < x ==> out@[i] == shade(palette.0, color_index(self.lo, self.hi, i)),
            decreases 8 - x,
        {
            let c = pixel_index(self.lo, self.hi, x);
            out[x as usize] = Self::apply_palette(c, palette);
            x = x + 1;
        }
        assert(out@ =~= row_shades(self.lo, self.hi, palette.0));
        out
    }
}

/// A tile: eight rows of two bytes.
#[derive(Clone, Copy, Debug)]
pub struct Tile {
    pub data: [u8; 16],
}

impl Tile {
    pub open spec fn row(&self, line: int) -> Seq<u8> {
        row_indices(self.data@[2 * line], self.data@[2 * line + 1])
    }

    /// Copies the sixteen bytes of a tile.
    pub fn from_bytes(data: &[u8]) -> (r: Self)
        requires
            data@.len() == TILE_BYTES,
        ensures
            r.data@ == data@,
    {
        let mut out: [u8; 16] = [0u8; 16];
        let mut i: usize = 0;
        while i < TILE_BYTES
            invariant
                i <= TILE_BYTES,
                data@.len() == TILE_BYTES,
                out@.len() == 16,
                forall|k: int| 0 <= k < i ==> out@[k] == data@[k],
            decreases TILE_BYTES - i,
        {
            out[i] = data[i];
            i = i + 1;
        }
        assert(out@ =~= data@);
        Tile { data: out }
    }

    /// Row `line_idx` as colour indices, leftmost first.
    pub fn pixel_buf(&self, line_idx: u8) -> (r: [u8; 8])
        requires
            line_idx < 8,
        ensures
            r@ == self.row(line_idx as int),
            forall|i: int| 0 <= i < 8 ==> #[trigger] r@[i] < 4,
    {
        let lo = self.data[(line_idx * 2) as usize];
        let hi = self.data[(line_idx * 2 + 1) as usize];
        let mut out: [u8; 8] = [0u8; 8];
        let mut x: u8 = 0;
        while x < 8
            invariant
                x <= 8,
                out@.len() == 8,
                forall|i: int| 0 <= i < x ==> out@[i] == color_index(lo, hi, i) && out@[i] < 4,
            decreases 8 - x,
        {
            out[x as usize] = pixel_index(lo, hi, x);
            x = x + 1;
        }
        assert(out@ =~= row_indices(lo, hi));
        out
    }

    /// Row `line_idx` as a `Line`.
    pub fn line(&self, line_idx: u8) -> (r: Line)
        requires
            line_idx < 8,
        ensures
            r.lo == self.data@[2 * line_idx],
            r.hi == self.data@[2 * line_idx + 1],
    {
        Line { lo: self.data[(line_idx * 2) as usize], hi: self.data[(line_idx * 2 + 1) as usize] }
    }

    /// All eight rows through `palette`.
    pub fn render_with_palette(&self, palette: Palette) -> (r: [[u8; 8]; 8])
        ensures
            forall|l: int|
                0 <= l < 8 ==> (#[trigger] r@[l])@ == row_shades(
                    self.data@[2 * l],
                    self.data@[2 * l + 1],
                    palette.0,
                ),
    {
        let mut out: [[u8; 8]; 8] = [[0u8; 8]; 8];
        let mut l: u8 = 0;
        while l < 8
            invariant
                l <= 8,
                out@.len() == 8,
                forall|k: int|
                    0 <= k < l ==> (#[trigger] out@[k])@ == row_shades(
                        self.data@[2 * k],
                        self.data@[2 * k + 1],
                        palette.0,
                    ),
            decreases 8 - l,
        {
            out[l as usize] = self.line(l).render(palette);
            l = l + 1;
        }
        out
    }

    /// All eight rows as colour indices.
    pub fn render(&self) -> (r: [[u8; 8]; 8])
        ensures
            forall|l: int| 0 <= l < 8 ==> (#[trigger] r@[l])@ == self.row(l),
    {
        let mut out: [[u8; 8]; 8] = [[0u8; 8]; 8];
        let mut l: u8 = 0;
        while l < 8
            invariant
                l <= 8,
                out@.len() == 8,
                forall|k: int| 0 <= k < l ==> (#[trigger] out@[k])@ == self.row(k),
            decreases 8 - l,
        {
            out[l as usize] = self.pixel_buf(l);
            l = l + 1;
        }
        out
    }
}

/// Where, in video RAM, the data of background tile number `tile_num`
/// starts: the unsigned mode counts from 0x8000, the signed mode from
/// 0x9000.
pub open spec fn bg_tile_offset(tile_num: u8, signed_mode: bool) -> int {
    if signed_mode {
        if tile_num < 128 {
            0x1000 + tile_num * 16
        } else {
            0x800 + (tile_num - 128) * 16
        }
    } else {
        tile_num * 16
    }
}

/// Offset in video RAM of the 32x32 tile map chosen by `high_map`.
pub open spec fn tile_map_offset(high_map: bool) -> int {
    if high_map {
        0x1C00
    } else {
        0x1800
    }
}

/// Video RAM: tile data from 0x8000, then the two tile maps.
pub struct VramBank {
    pub data: Vec<u8>,
}

impl VramBank {
    pub open spec fn wf(&self) -> bool {
        self.data@.len() == VRAM_LEN
    }

    /// The tile that entry `idx` of a tile map names.
    pub open spec fn bg_tile_spec(&self, idx: int, alt_address_mode: bool, high_tile_map: bool) -> Seq<u8> {
        let num = self.data@[tile_map_offset(high_tile_map) + idx];
        let start = bg_tile_offset(num, alt_address_mode);
        self.data@.subrange(start, start + 16)
    }

    pub fn new() -> (r: Self)
        ensures
            r.wf(),
            forall|i: int| 0 <= i < VRAM_LEN ==> r.data@[i] == 0,
    {
        VramBank { data: vec![0u8; VRAM_LEN] }
    }

    /// The sixteen bytes at `offset`, as a tile.
    pub fn tile_at(&self, offset: usize) -> (r: Tile)
        requires
            self.wf(),
            offset + TILE_BYTES <= VRAM_LEN,
        ensures
            r.data@ == self.data@.subrange(offset as int, offset + 16),
    {
        let mut out: [u8; 16] = [0u8; 16];
        let mut i: usize = 0;
        while i < TILE_BYTES
            invariant
                i <= TILE_BYTES,
                self.wf(),
                offset + TILE_BYTES <= VRAM_LEN,
                out@.len() == 16,
                forall|k: int| 0 <= k < i ==> out@[k] == self.data@[offset + k],
            decreases TILE_BYTES - i,
        {
            out[i] = self.data[offset + i];
            i = i + 1;
        }
        assert(out@ =~= self.data@.subrange(offset as int, offset + 16));
        Tile { data: out }
    }

    /// The background or window tile named by entry `idx` of a tile map;
    /// `alt_address_mode` selects the signed addressing mode.
    pub fn get_bg_tile(&self, idx: usize, alt_address_mode: bool, high_tile_map: bool) -> (r: Tile)
        requires
            self.wf(),
            idx < 1024,
        ensures
            r.data@ == self.bg_tile_spec(idx as int, alt_address_mode, high_tile_map),
    {
        let map: usize = if high_tile_map {
            0x1C00
        } else {
            0x1800
        };
        let num = self.data[map + idx];
        let offset: usize = if alt_address_mode {
            if num < 128 {
                0x1000 + num as usize * 16
            } else {
                0x800 + (num - 128) as usize * 16
            }
        } else {
            num as usize * 16
        };
        self.tile_at(offset)
    }
}

} // verus!
