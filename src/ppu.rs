//! The picture processing unit: its registers, its four-mode scanline
//! timing, and the drawing of background, window and sprites into a frame
//! of 160 x 144 shades.

use vstd::prelude::*;
use crate::interrupts::IntSource;
use crate::oam::{
    flags_of, line_list, line_sprites, lemma_line_sprites_covers, list_get, list_len, sprite_row,
    OamEntry, OamMap, OAM_LEN,
};
use crate::tile::{
    bg_tile_offset, color_index, pixel_index, shade, tile_map_offset, Line, Palette, Tile,
    VramBank, TILE_BYTES, VRAM_LEN,
};

verus! {

pub const SCREEN_WIDTH: usize = 160;

pub const SCREEN_HEIGHT: usize = 144;

/// Width and height of the background plane.
pub const BKG_WIDTH: usize = 256;

/// Machine cycles in one scanline.
pub const CYCLES_PER_LINE: i32 = 114;

/// Machine cycles in one frame: 154 scanlines.
pub const CYCLES_PER_FRAME: i32 = 17556;

pub const OAMSCAN_CYCLES: i32 = 20;

pub const DRAW_CYCLES: i32 = 43;

pub const HBLANK_CYCLES: i32 = 51;

/// The line on which the vertical blank starts: lines 0 to 143 are drawn,
/// and the blank lasts ten lines.
pub const VBLANK_FIRST_LINE: u8 = 144;

/// The last line of a frame.
pub const LAST_LINE: u8 = 153;

/// The PPU registers span LCDC_FIRST..=LCDC_LAST.
pub const LCDC_FIRST: u16 = 0xFF40;

pub const LCDC_LAST: u16 = 0xFF4B;

pub const LCDC_ADDR: u16 = 0xFF40;

pub const STAT_ADDR: u16 = 0xFF41;

pub const SCY_ADDR: u16 = 0xFF42;

pub const SCX_ADDR: u16 = 0xFF43;

pub const LY_ADDR: u16 = 0xFF44;

pub const LYC_ADDR: u16 = 0xFF45;

pub const DMA_ADDR: u16 = 0xFF46;

pub const BGP_ADDR: u16 = 0xFF47;

pub const OBP0_ADDR: u16 = 0xFF48;

pub const OBP1_ADDR: u16 = 0xFF49;

pub const WY_ADDR: u16 = 0xFF4A;

pub const WX_ADDR: u16 = 0xFF4B;

#[derive(Clone, Copy, Debug, PartialEq, Eq, Structural)]
pub enum PpuMode {
    HBLANK,
    VBLANK,
    OAMSCAN,
    DRAW,
}

impl PpuMode {
    /// The mode number that STAT shows.
    pub open spec fn bits_spec(self) -> u8 {
        match self {
            PpuMode::HBLANK => 0,
            PpuMode::VBLANK => 1,
            PpuMode::OAMSCAN => 2,
            PpuMode::DRAW => 3,
        }
    }

    #[verifier::when_used_as_spec(bits_spec)]
    pub fn bits(self) -> (r: u8)
        ensures
            r == self.bits_spec(),
    {
        match self {
            PpuMode::HBLANK => 0,
            PpuMode::VBLANK => 1,
            PpuMode::OAMSCAN => 2,
            PpuMode::DRAW => 3,
        }
    }
}

/// Whether `addr` belongs to the PPU: video RAM, OAM or its registers.
pub open spec fn is_ppu_addr(addr: u16) -> bool {
    (0x8000 <= addr <= 0x9FFF) || (0xFE00 <= addr <= 0xFE9F) || (LCDC_ADDR <= addr <= WX_ADDR)
}

/// The colour index at row `row`, column `col` of the 256 x 256 plane that
/// the tile map `high_map` lays out, with the addressing mode of `lcdc`.
pub open spec fn plane_index(vram: Seq<u8>, lcdc: u8, high_map: bool, row: int, col: int) -> u8 {
    let num = vram[tile_map_offset(high_map) + (row / 8) * 32 + col / 8];
    let start = bg_tile_offset(num, lcdc & 0x10 == 0);
    color_index(vram[start + 2 * (row % 8)], vram[start + 2 * (row % 8) + 1], col % 8)
}

/// Draws one sprite row `row` (colour indices) at X position `e.x` over
/// `line`: colour 0 is transparent, and a low-priority sprite shows only
/// where the background colour index `bg` is 0.
pub open spec fn draw_sprite(line: Seq<u8>, bg: Seq<u8>, e: OamEntry, row: Seq<u8>,
    pal: u8) -> Seq<u8> {
    Seq::new(
        160,
        |sx: int|
            {
                let i = sx - e.x + 8;
                if 0 <= i < 8 && row[i] != 0 && (!flags_of(e.attr).low_priority || bg[sx] == 0) {
                    shade(pal, row[i])
                } else {
                    line[sx]
                }
            },
    )
}

/// A complete frame: 144 rows of 160 shades.
pub struct Frame {
    pub buf: Vec<Vec<u8>>,
}

/// The four bytes (red, green, blue, alpha) of a shade: 0 white, 1 light
/// gray, 2 dark gray, 3 black.
pub open spec fn rgba_of(shade: u8) -> Seq<u8> {
    let v = (255 - 85 * shade) as u8;
    seq![v, v, v, 0xFF]
}

impl Frame {
    pub open spec fn wf(&self) -> bool {
        &&& self.buf@.len() == SCREEN_HEIGHT
        &&& forall|y: int| 0 <= y < SCREEN_HEIGHT
            ==> (#[trigger] self.buf@[y])@.len() == SCREEN_WIDTH
    }

    /// Shades hold two bits.
    pub open spec fn shades_ok(&self) -> bool {
        forall|y: int, x: int|
            0 <= y < SCREEN_HEIGHT && 0 <= x < SCREEN_WIDTH ==> #[trigger] self.buf@[y]@[x] < 4
    }

    /// An all-white frame.
    pub fn new() -> (r: Self)
        ensures
            r.wf(),
            r.shades_ok(),
            forall|y: int, x: int|
                0 <= y < SCREEN_HEIGHT && 0 <= x < SCREEN_WIDTH ==> #[trigger] r.buf@[y]@[x] == 0,
    {
        let mut buf: Vec<Vec<u8>> = Vec::new();
        let mut y: usize = 0;
        while y < SCREEN_HEIGHT
            invariant
                y <= SCREEN_HEIGHT,
                buf@.len() == y,
                forall|k: int| 0 <= k < y ==> (#[trigger] buf@[k])@.len() == SCREEN_WIDTH,
                forall|k: int, x: int| 0 <= k < y && 0 <= x < SCREEN_WIDTH
                    ==> #[trigger] buf@[k]@[x] == 0,
            decreases SCREEN_HEIGHT - y,
        {
            buf.push(vec![0u8; SCREEN_WIDTH]);
            y = y + 1;
        }
        Frame { buf }
    }

    /// The frame as four bytes per pixel, row by row.
    pub fn to_rgba(&self) -> (r: Vec<u8>)
        requires
            self.wf(),
            self.shades_ok(),
        ensures
            r@.len() == 4 * SCREEN_WIDTH * SCREEN_HEIGHT,
            forall|y: int, x: int, k: int|
                0 <= y < SCREEN_HEIGHT && 0 <= x < SCREEN_WIDTH && 0 <= k < 4
                    ==> #[trigger] r@[640 * y
                    + 4 * x + k] == rgba_of(self.buf@[y]@[x])[k],
    {
        let mut out: Vec<u8> = Vec::new();
        let mut y: usize = 0;
        while y < SCREEN_HEIGHT
            invariant
                y <= SCREEN_HEIGHT,
                self.wf(),
                self.shades_ok(),
                out@.len() == 640 * y,
                forall|yy: int, x: int, k: int|
                    0 <= yy < y && 0 <= x < SCREEN_WIDTH && 0 <= k < 4 ==> #[trigger] out@[640 * yy
                        + 4 * x + k] == rgba_of(self.buf@[yy]@[x])[k],
            decreases SCREEN_HEIGHT - y,
        {
            let mut x: usize = 0;
            while x < SCREEN_WIDTH
                invariant
                    y < SCREEN_HEIGHT,
                    x <= SCREEN_WIDTH,
                    self.wf(),
                    self.shades_ok(),
                    out@.len() == 640 * y + 4 * x,
                    forall|yy: int, xx: int, k: int|
                        0 <= yy < y && 0 <= xx < SCREEN_WIDTH && 0 <= k < 4 ==> #[trigger] out@[640
                            * yy + 4 * xx + k] == rgba_of(self.buf@[yy]@[xx])[k],
                    forall|xx: int, k: int|
                        0 <= xx < x && 0 <= k < 4 ==> #[trigger] out@[640 * y + 4 * xx + k]
                            == rgba_of(self.buf@[y as int]@[xx])[k],
                decreases SCREEN_WIDTH - x,
            {
                let p = PPU::palette_to_rgba(self.buf[y][x]);
                let ghost before = out@;
                out.push(p[0]);
                out.push(p[1]);
                out.push(p[2]);
                out.push(p[3]);
                assert(out@ == before + p@);
                x = x + 1;
            }
            y = y + 1;
        }
        out
    }
}

/// The bits of LCDC, one by one.
#[derive(Clone, Copy, Debug, PartialEq, Eq, Structural)]
pub struct Lcdc {
    pub lcd_en: bool,
    pub window_tile_map: bool,
    pub window_en: bool,
    pub bg_wind_tile_data: bool,
    pub bg_tile_map: bool,
    pub large_sprite: bool,
    pub obj_en: bool,
    pub bg_wind_en: bool,
}

/// A snapshot of the PPU registers, for display.
#[derive(Clone, Copy, Debug, PartialEq, Eq, Structural)]
pub struct PpuState {
    pub lcdc: Lcdc,
    pub scx: u8,
    pub scy: u8,
    pub ly: u8,
    pub wx: u8,
    pub wy: u8,
    pub window_counter: u8,
    pub mode: PpuMode,
    pub lyc: u8,
    pub stat: u8,
}

pub struct PPU {
    pub vram: VramBank,
    pub oam: Vec<u8>,
    pub lcdc: u8,
    /// The writable STAT bits (3 to 6).
    pub stat: u8,
    pub scy: u8,
    pub scx: u8,
    pub ly: u8,
    pub lyc: u8,
    pub bgp: u8,
    pub obp0: u8,
    pub obp1: u8,
    pub wy: u8,
    pub wx: u8,
    pub window_triggered: bool,
    /// Window lines drawn so far in this frame.
    pub window_counter: u8,
    pub mode: PpuMode,
    /// Machine cycles left in the current mode.
    pub r_cyc: i32,
    pub screen: Frame,
}

/// Machine cycles that a mode lasts.
pub open spec fn mode_cycles(mode: PpuMode) -> int {
    match mode {
        PpuMode::OAMSCAN => 20,
        PpuMode::DRAW => 43,
        PpuMode::HBLANK => 51,
        PpuMode::VBLANK => 114,
    }
}

/// Offset, in machine cycles from the start of the frame, at which the
/// current mode ends.
pub open spec fn mode_end(mode: PpuMode, ly: u8) -> int {
    ly * 114 + match mode {
        PpuMode::OAMSCAN => 20int,
        PpuMode::DRAW => 63int,
        PpuMode::HBLANK => 114int,
        PpuMode::VBLANK => 114int,
    }
}

impl PPU {
    /// The timing state is one the mode machine can reach, and the buffers
    /// have their sizes.
    pub open spec fn wf(&self) -> bool {
        &&& self.vram.wf()
        &&& self.oam@.len() == OAM_LEN
        &&& self.screen.wf()
        &&& self.screen.shades_ok()
        &&& self.stat & 0x87 == 0
        &&& 1 <= self.r_cyc <= mode_cycles(self.mode)
        &&& if self.mode == PpuMode::VBLANK {
            VBLANK_FIRST_LINE <= self.ly <= LAST_LINE && self.window_counter <= self.ly
        } else {
            self.ly < VBLANK_FIRST_LINE && if self.mode == PpuMode::HBLANK {
                self.window_counter <= self.ly + 1
            } else {
                self.window_counter <= self.ly
            }
        }
    }

    /// Machine cycles from the start of the frame to now.
    pub open spec fn frame_pos(&self) -> int {
        mode_end(self.mode, self.ly) - self.r_cyc
    }

    pub open spec fn stat_spec(&self) -> u8 {
        self.stat | self.mode.bits_spec() | if self.ly == self.lyc {
            0x4u8
        } else {
            0u8
        }
    }

    /// What a read of `addr` returns.
    pub open spec fn peek(&self, addr: u16) -> u8 {
        if 0x8000 <= addr <= 0x9FFF {
            self.vram.data@[addr - 0x8000]
        } else if 0xFE00 <= addr <= 0xFE9F {
            self.oam@[addr - 0xFE00]
        } else if addr == LCDC_ADDR {
            self.lcdc
        } else if addr == STAT_ADDR {
            self.stat_spec()
        } else if addr == SCY_ADDR {
            self.scy
        } else if addr == SCX_ADDR {
            self.scx
        } else if addr == LY_ADDR {
            self.ly
        } else if addr == LYC_ADDR {
            self.lyc
        } else if addr == DMA_ADDR {
            0xFF
        } else if addr == BGP_ADDR {
            self.bgp
        } else if addr == OBP0_ADDR {
            self.obp0
        } else if addr == OBP1_ADDR {
            self.obp1
        } else if addr == WY_ADDR {
            self.wy
        } else {
            self.wx
        }
    }

    /// Everything but the register or memory byte at `addr` is kept, and
    /// that byte becomes `val` (STAT keeps only bits 3 to 6; LY and the
    /// DMA register are not stored here).
    pub open spec fn write_spec(old: &PPU, new: &PPU, addr: u16, val: u8) -> bool {
        &&& new.vram.data@ == (if 0x8000 <= addr <= 0x9FFF {
            old.vram.data@.update(addr - 0x8000, val)
        } else {
            old.vram.data@
        })
        &&& new.oam@ == (if 0xFE00 <= addr <= 0xFE9F {
            old.oam@.update(addr - 0xFE00, val)
        } else {
            old.oam@
        })
        &&& new.lcdc == (if addr == LCDC_ADDR {
            val
        } else {
            old.lcdc
        })
        &&& new.stat == (if addr == STAT_ADDR {
            val & 0x78
        } else {
            old.stat
        })
        &&& new.scy == (if addr == SCY_ADDR {
            val
        } else {
            old.scy
        })
        &&& new.scx == (if addr == SCX_ADDR {
            val
        } else {
            old.scx
        })
        &&& new.lyc == (if addr == LYC_ADDR {
            val
        } else {
            old.lyc
        })
        &&& new.bgp == (if addr == BGP_ADDR {
            val
        } else {
            old.bgp
        })
        &&& new.obp0 == (if addr == OBP0_ADDR {
            val
        } else {
            old.obp0
        })
        &&& new.obp1 == (if addr == OBP1_ADDR {
            val
        } else {
            old.obp1
        })
        &&& new.wy == (if addr == WY_ADDR {
            val
        } else {
            old.wy
        })
        &&& new.wx == (if addr == WX_ADDR {
            val
        } else {
            old.wx
        })
        &&& new.ly == old.ly
        &&& new.mode == old.mode
        &&& new.r_cyc == old.r_cyc
        &&& new.window_triggered == old.window_triggered
        &&& new.window_counter == old.window_counter
        &&& new.screen.buf@ == old.screen.buf@
    }

    /// Everything but OAM is unchanged.
    pub open spec fn same_except_oam(old: &PPU, new: &PPU) -> bool {
        &&& new.vram.data@ == old.vram.data@
        &&& new.lcdc == old.lcdc && new.stat == old.stat && new.scy == old.scy && new.scx == old.scx
        &&& new.ly == old.ly && new.lyc == old.lyc && new.bgp == old.bgp
        &&& new.obp0 == old.obp0 && new.obp1 == old.obp1 && new.wy == old.wy && new.wx == old.wx
        &&& new.window_triggered == old.window_triggered && new.window_counter == old.window_counter
        &&& new.mode == old.mode && new.r_cyc == old.r_cyc
        &&& new.screen.buf@ == old.screen.buf@
    }

    /// The state after power-on (the boot program skipped).
    pub fn new() -> (r: Self)
        ensures
            r.wf(),
            r.mode == PpuMode::OAMSCAN,
            r.ly == 0,
            r.r_cyc == OAMSCAN_CYCLES,
            r.lcdc == 0,
            r.frame_pos() == 0,
    {
        assert(0u8 & 0x87u8 == 0) by (bit_vector);
        Self {
            vram: VramBank::new(),
            oam: vec![0u8; OAM_LEN],
            lcdc: 0,
            stat: 0,
            scy: 0,
            scx: 0,
            ly: 0,
            lyc: 0,
            bgp: 0,
            obp0: 0,
            obp1: 0,
            wy: 0,
            wx: 0,
            window_triggered: false,
            window_counter: 0,
            mode: PpuMode::OAMSCAN,
            r_cyc: OAMSCAN_CYCLES,
            screen: Frame::new(),
        }
    }

    #[verifier::spinoff_prover]
    pub fn write(&mut self, addr: u16, val: u8)
        requires
            old(self).wf(),
            is_ppu_addr(addr),
        ensures
            final(self).wf(),
            Self::write_spec(old(self), final(self), addr, val),
    {
        if 0x8000 <= addr && addr <= 0x9FFF {
            self.vram.data.set((addr - 0x8000) as usize, val);
        } else if 0xFE00 <= addr && addr <= 0xFE9F {
            self.oam.set((addr - 0xFE00) as usize, val);
        } else if addr == LCDC_ADDR {
            self.lcdc = val;
        } else if addr == STAT_ADDR {
            self.stat = val & 0x78;
            assert((val & 0x78) & 0x87 == 0) by (bit_vector);
        } else if addr == SCY_ADDR {
            self.scy = val;
        } else if addr == SCX_ADDR {
            self.scx = val;
        } else if addr == LYC_ADDR {
            self.lyc = val;
        } else if addr == BGP_ADDR {
            self.bgp = val;
        } else if addr == OBP0_ADDR {
            self.obp0 = val;
        } else if addr == OBP1_ADDR {
            self.obp1 = val;
        } else if addr == WY_ADDR {
            self.wy = val;
        } else if addr == WX_ADDR {
            self.wx = val;
        }
    }

    #[verifier::spinoff_prover]
    pub fn read(&self, addr: u16) -> (r: u8)
        requires
            self.wf(),
            is_ppu_addr(addr),
        ensures
            r == self.peek(addr),
    {
        if 0x8000 <= addr && addr <= 0x9FFF {
            self.vram.data[(addr - 0x8000) as usize]
        } else if 0xFE00 <= addr && addr <= 0xFE9F {
            self.oam[(addr - 0xFE00) as usize]
        } else if addr == LCDC_ADDR {
            self.lcdc
        } else if addr == STAT_ADDR {
            self.get_stat()
        } else if addr == SCY_ADDR {
            self.scy
        } else if addr == SCX_ADDR {
            self.scx
        } else if addr == LY_ADDR {
            self.ly
        } else if addr == LYC_ADDR {
            self.lyc
        } else if addr == DMA_ADDR {
            0xFF
        } else if addr == BGP_ADDR {
            self.bgp
        } else if addr == OBP0_ADDR {
            self.obp0
        } else if addr == OBP1_ADDR {
            self.obp1
        } else if addr == WY_ADDR {
            self.wy
        } else {
            self.wx
        }
    }

    /// STAT: the writable bits, the mode, and bit 2 set when LY equals LYC.
    pub fn get_stat(&self) -> (r: u8)
        ensures
            r == self.stat_spec(),
    {
        self.stat | self.mode.bits() | if self.ly == self.lyc {
            0x4u8
        } else {
            0u8
        }
    }

    /// The four RGBA bytes of shade `ind`.
    pub fn palette_to_rgba(ind: u8) -> (r: [u8; 4])
        requires
            ind < 4,
        ensures
            r@ == rgba_of(ind),
    {
        let val = 255 - (85 * ind);
        let r = [val, val, val, 0xFF];
        assert(r@ =~= rgba_of(ind));
        r
    }

    pub fn get_screen(&self) -> (r: Vec<u8>)
        requires
            self.wf(),
        ensures
            r@.len() == 4 * SCREEN_WIDTH * SCREEN_HEIGHT,
            forall|y: int, x: int, k: int|
                0 <= y < SCREEN_HEIGHT && 0 <= x < SCREEN_WIDTH && 0 <= k < 4
                    ==> #[trigger] r@[640 * y
                    + 4 * x + k] == rgba_of(self.screen.buf@[y]@[x])[k],
    {
        self.screen.to_rgba()
    }

    pub fn get_sprite_map(&self) -> (r: OamMap)
        requires
            self.wf(),
        ensures
            r.wf(),
            forall|i: int|
                0 <= i < 40 ==> #[trigger] r.oam_entries@[i] == (OamEntry {
                    y: self.oam@[4 * i],
                    x: self.oam@[4 * i + 1],
                    tile: self.oam@[4 * i + 2],
                    attr: self.oam@[4 * i + 3],
                }),
    {
        OamMap::from_mem(self.oam.as_slice())
    }

    /// Sprite tile `tile_index`, counted from 0x8000.
    pub fn get_sprite_tile(&self, tile_index: usize) -> (r: Tile)
        requires
            self.wf(),
            tile_index < 256,
        ensures
            r.data@ == self.vram.data@.subrange(tile_index * 16, tile_index * 16 + 16),
    {
        self.vram.tile_at(tile_index * TILE_BYTES)
    }

    /// Same as `get_sprite_tile`.
    pub fn from_oam_tile_index(&self, tile_index: usize) -> (r: Tile)
        requires
            self.wf(),
            tile_index < 256,
        ensures
            r.data@ == self.vram.data@.subrange(tile_index * 16, tile_index * 16 + 16),
    {
        self.get_sprite_tile(tile_index)
    }

    /// Background tile number `tile_index`, in the addressing mode LCDC
    /// selects.
    pub fn bkgr_tile(&self, tile_index: u8) -> (r: Tile)
        requires
            self.wf(),
        ensures
            r.data@ == self.vram.data@.subrange(
                bg_tile_offset(tile_index, self.lcdc & 0x10 == 0),
                bg_tile_offset(tile_index, self.lcdc & 0x10 == 0) + 16,
            ),
    {
        let offset: usize = if self.lcdc & 0x10 == 0 {
            if tile_index < 128 {
                0x1000 + tile_index as usize * 16
            } else {
                0x800 + (tile_index - 128) as usize * 16
            }
        } else {
            tile_index as usize * 16
        };
        self.vram.tile_at(offset)
    }

    pub fn obj_en(&self) -> (r: bool)
        ensures
            r == (self.lcdc & 0x2 != 0),
    {
        self.lcdc & 0x2 != 0
    }

    pub fn large_sprites(&self) -> (r: bool)
        ensures
            r == (self.lcdc & 0x4 != 0),
    {
        self.lcdc & 0x04 != 0
    }

    pub fn get_lcdc_state(&self) -> (r: Lcdc)
        ensures
            r.lcd_en == (self.lcdc & 0x80 != 0),
            r.window_tile_map == (self.lcdc & 0x40 != 0),
            r.window_en == (self.lcdc & 0x20 != 0),
            r.bg_wind_tile_data == (self.lcdc & 0x10 != 0),
            r.bg_tile_map == (self.lcdc & 0x08 != 0),
            r.large_sprite == (self.lcdc & 0x04 != 0),
            r.obj_en == (self.lcdc & 0x02 != 0),
            r.bg_wind_en == (self.lcdc & 0x01 != 0),
    {
        Lcdc {
            lcd_en: self.lcdc & 0x80 != 0,
            window_tile_map: self.lcdc & 0x40 != 0,
            window_en: self.lcdc & 0x20 != 0,
            bg_wind_tile_data: self.lcdc & 0x10 != 0,
            bg_tile_map: self.lcdc & 0x08 != 0,
            large_sprite: self.large_sprites(),
            obj_en: self.lcdc & 0x02 != 0,
            bg_wind_en: self.lcdc & 0x01 != 0,
        }
    }

    pub fn get_ppu_state(&self) -> (r: PpuState)
        ensures
            r.scx == self.scx,
            r.scy == self.scy,
            r.wx == self.wx,
            r.wy == self.wy,
            r.ly == self.ly,
            r.lyc == self.lyc,
            r.mode == self.mode,
            r.stat == self.stat,
            r.window_counter == self.window_counter,
            r.lcdc.lcd_en == (self.lcdc & 0x80 != 0),
            r.lcdc.window_tile_map == (self.lcdc & 0x40 != 0),
            r.lcdc.window_en == (self.lcdc & 0x20 != 0),
            r.lcdc.bg_wind_tile_data == (self.lcdc & 0x10 != 0),
            r.lcdc.bg_tile_map == (self.lcdc & 0x08 != 0),
            r.lcdc.large_sprite == (self.lcdc & 0x04 != 0),
            r.lcdc.obj_en == (self.lcdc & 0x02 != 0),
            r.lcdc.bg_wind_en == (self.lcdc & 0x01 != 0),
    {
        PpuState {
            lcdc: self.get_lcdc_state(),
            scx: self.scx,
            scy: self.scy,
            wx: self.wx,
            wy: self.wy,
            ly: self.ly,
            lyc: self.lyc,
            mode: self.mode,
            stat: self.stat,
            window_counter: self.window_counter,
        }
    }
}

/// Sum of a sequence of cycle counts.
pub open spec fn total(cycles: Seq<int>) -> int
    decreases cycles.len(),
{
    if cycles.len() == 0 {
        0
    } else {
        total(cycles.drop_last()) + cycles.last()
    }
}

impl PPU {
    /// Whether the window covers screen column `sx` on the current line,
    /// with `trig` the window-triggered latch.
    pub open spec fn window_covers(&self, trig: bool, sx: int) -> bool {
        self.lcdc & 0x20 != 0 && trig && self.wx <= 166 && sx + 7 >= self.wx
    }

    /// Whether the window is drawn on the current line.
    pub open spec fn renders_window(&self, trig: bool) -> bool {
        self.lcdc & 0x20 != 0 && trig && self.wx <= 166
    }

    /// The window latch after the draw of the current line.
    pub open spec fn triggered_after(&self) -> bool {
        self.window_triggered || (self.lcdc & 0x20 != 0 && self.ly >= self.wy)
    }

    /// The background or window colour index at screen column `sx`.
    pub open spec fn bg_win_index(&self, trig: bool, sx: int) -> u8 {
        if self.lcdc & 0x01 == 0 {
            0
        } else if self.window_covers(trig, sx) {
            plane_index(self.vram.data@, self.lcdc, self.lcdc & 0x40 != 0,
                self.window_counter as int, sx + 7 - self.wx)
        } else {
            plane_index(
                self.vram.data@,
                self.lcdc,
                self.lcdc & 0x08 != 0,
                (self.ly + self.scy) % 256,
                (self.scx + sx) % 256,
            )
        }
    }

    pub open spec fn bg_indices(&self, trig: bool) -> Seq<u8> {
        Seq::new(160, |sx: int| self.bg_win_index(trig, sx))
    }

    /// Background and window shades of the current line.
    pub open spec fn bg_line(&self, trig: bool) -> Seq<u8> {
        Seq::new(
            160,
            |sx: int|
                if self.lcdc & 0x01 == 0 {
                    0u8
                } else {
                    shade(self.bgp, self.bg_win_index(trig, sx))
                },
        )
    }

    /// The sprite entries that OAM holds.
    pub open spec fn oam_entries(&self) -> Seq<OamEntry> {
        Seq::new(
            40,
            |i: int|
                OamEntry {
                    y: self.oam@[4 * i],
                    x: self.oam@[4 * i + 1],
                    tile: self.oam@[4 * i + 2],
                    attr: self.oam@[4 * i + 3],
                },
        )
    }

    /// `line` with `sprites` drawn over it in order, each later one on top.
    pub open spec fn sprites_over(&self, trig: bool, line: Seq<u8>,
        sprites: Seq<OamEntry>) -> Seq<u8>
        decreases sprites.len(),
    {
        if sprites.len() == 0 {
            line
        } else {
            let e = sprites.last();
            draw_sprite(
                self.sprites_over(trig, line, sprites.drop_last()),
                self.bg_indices(trig),
                e,
                sprite_row(e, self.vram.data@, self.ly + 16 - e.y, self.lcdc & 0x04 != 0),
                if flags_of(e.attr).dmg_palette {
                    self.obp1
                } else {
                    self.obp0
                },
            )
        }
    }

    /// The shades of the current line.
    pub open spec fn line_spec(&self, trig: bool) -> Seq<u8> {
        if self.lcdc & 0x80 == 0 {
            Seq::new(160, |sx: int| 0u8)
        } else if self.lcdc & 0x02 == 0 {
            self.bg_line(trig)
        } else {
            self.sprites_over(
                trig,
                self.bg_line(trig),
                line_sprites(self.oam_entries(), self.ly, self.lcdc & 0x04 != 0),
            )
        }
    }

    /// The colour index at (`row`, `col`) of the plane of tile map
    /// `high_map`.
    fn plane_index_at(&self, high_map: bool, row: usize, col: usize) -> (r: u8)
        requires
            self.wf(),
            row < 256,
            col < 256,
        ensures
            r == plane_index(self.vram.data@, self.lcdc, high_map, row as int, col as int),
            r < 4,
    {
        let map: usize = if high_map {
            0x1C00
        } else {
            0x1800
        };
        let num = self.vram.data[map + (row / 8) * 32 + col / 8];
        let start: usize = if self.lcdc & 0x10 == 0 {
            if num < 128 {
                0x1000 + num as usize * 16
            } else {
                0x800 + (num - 128) as usize * 16
            }
        } else {
            num as usize * 16
        };
        let lo = self.vram.data[start + 2 * (row % 8)];
        let hi = self.vram.data[start + 2 * (row % 8) + 1];
        pixel_index(lo, hi, (col % 8) as u8)
    }

    fn bg_win_index_at(&self, trig: bool, sx: usize) -> (r: u8)
        requires
            self.wf(),
            sx < 160,
        ensures
            r == self.bg_win_index(trig, sx as int),
            r < 4,
    {
        if self.lcdc & 0x01 == 0 {
            0
        } else if self.lcdc & 0x20 != 0 && trig && self.wx <= 166 && sx + 7 >= self.wx as usize {
            self.plane_index_at(self.lcdc & 0x40 != 0, self.window_counter as usize, sx
                + 7 - self.wx as usize)
        } else {
            self.plane_index_at(
                self.lcdc & 0x08 != 0,
                (self.ly as usize + self.scy as usize) % 256,
                (self.scx as usize + sx) % 256,
            )
        }
    }

    /// Draws sprite `e`, which covers the current line, over `line`.
    #[verifier::spinoff_prover]
    fn draw_sprite_line(&self, line: &mut Vec<u8>, bg: &Vec<u8>, e: OamEntry)
        requires
            self.wf(),
            self.ly < 144,
            old(line)@.len() == 160,
            bg@.len() == 160,
            e.y <= self.ly + 16 < e.y + (if self.lcdc & 0x04 != 0 { 16int } else { 8int }),
            forall|i: int| 0 <= i < 160 ==> #[trigger] old(line)@[i] < 4,
        ensures
            final(line)@ == draw_sprite(
                old(line)@,
                bg@,
                e,
                sprite_row(e, self.vram.data@, self.ly + 16 - e.y, self.lcdc & 0x04 != 0),
                if flags_of(e.attr).dmg_palette {
                    self.obp1
                } else {
                    self.obp0
                },
            ),
            forall|i: int| 0 <= i < 160 ==> #[trigger] final(line)@[i] < 4,
    {
        let large = self.large_sprites();
        let pixels = e.get_pixels(&self.vram, self.ly + 16 - e.y, large);
        let flags = e.oam_flags();
        let pal = if flags.dmg_palette {
            self.obp1
        } else {
            self.obp0
        };
        let ghost row = sprite_row(e, self.vram.data@, self.ly + 16 - e.y, self.lcdc & 0x04 != 0);
        let ghost start = line@;
        let mut i: usize = 0;
        while i < 8
            invariant
                i <= 8,
                line@.len() == 160,
                bg@.len() == 160,
                pixels@ == row,
                flags == flags_of(e.attr),
                forall|k: int| 0 <= k < 8 ==> #[trigger] pixels@[k] < 4,
                forall|sx: int|
                    0 <= sx < 160 ==> #[trigger] line@[sx] == {
                        let k = sx - e.x + 8;
                        if 0 <= k < i && row[k] != 0 && (!flags.low_priority || bg@[sx] == 0) {
                            shade(pal, row[k])
                        } else {
                            start[sx]
                        }
                    },
                forall|sx: int| 0 <= sx < 160 ==> #[trigger] line@[sx] < 4,
            decreases 8 - i,
        {
            let pos = e.x as usize + i;
            if pos >= 8 && pos - 8 < 160 {
                let sx = pos - 8;
                if pixels[i] != 0 && (!flags.low_priority || bg[sx] == 0) {
                    let v = Line::apply_palette(pixels[i], Palette(pal));
                    line.set(sx, v);
                }
            }
            i = i + 1;
        }
        assert(line@ =~= draw_sprite(start, bg@, e, row, pal));
    }

    /// Draws the current line into the frame.
    #[verifier::spinoff_prover]
    fn render_line(&mut self, trig: bool)
        requires
            old(self).wf(),
            old(self).ly < VBLANK_FIRST_LINE,
            old(self).window_counter <= old(self).ly,
        ensures
            final(self).screen.wf(),
            final(self).screen.shades_ok(),
            final(self).screen.buf@[old(self).ly as int]@ == old(self).line_spec(trig),
            forall|y: int|
                0 <= y < SCREEN_HEIGHT && y != old(self).ly
                    ==> #[trigger] final(self).screen.buf@[y]
                    == old(self).screen.buf@[y],
            final(self).window_counter == old(self).window_counter
                + if old(self).renders_window(trig) {
                1int
            } else {
                0int
            },
            final(self).vram == old(self).vram,
            final(self).oam == old(self).oam,
            final(self).lcdc == old(self).lcdc,
            final(self).stat == old(self).stat,
            final(self).scy == old(self).scy,
            final(self).scx == old(self).scx,
            final(self).ly == old(self).ly,
            final(self).lyc == old(self).lyc,
            final(self).bgp == old(self).bgp,
            final(self).obp0 == old(self).obp0,
            final(self).obp1 == old(self).obp1,
            final(self).wy == old(self).wy,
            final(self).wx == old(self).wx,
            final(self).window_triggered == old(self).window_triggered,
            final(self).mode == old(self).mode,
            final(self).r_cyc == old(self).r_cyc,
    {
        let mut line: Vec<u8> = vec![0u8; SCREEN_WIDTH];
        let mut bg: Vec<u8> = vec![0u8; SCREEN_WIDTH];
        if self.lcdc & 0x80 != 0 {
            let mut sx: usize = 0;
            while sx < SCREEN_WIDTH
                invariant
                    sx <= SCREEN_WIDTH,
                    self.wf(),
                    line@.len() == 160,
                    bg@.len() == 160,
                    forall|k: int| 0 <= k < sx ==> #[trigger] bg@[k] == self.bg_win_index(trig, k),
                    forall|k: int| 0 <= k < sx ==> #[trigger] line@[k] == self.bg_line(trig)[k],
                    forall|k: int| sx <= k < 160 ==> #[trigger] line@[k] == 0,
                    forall|k: int| 0 <= k < 160 ==> #[trigger] line@[k] < 4,
                decreases SCREEN_WIDTH - sx,
            {
                let idx = self.bg_win_index_at(trig, sx);
                bg.set(sx, idx);
                if self.lcdc & 0x01 != 0 {
                    let v = Line::apply_palette(idx, Palette(self.bgp));
                    line.set(sx, v);
                }
                sx = sx + 1;
            }
            assert(bg@ =~= self.bg_indices(trig));
            assert(line@ =~= self.bg_line(trig));
            if self.lcdc & 0x02 != 0 {
                let large = self.large_sprites();
                let map = OamMap::from_mem(self.oam.as_slice());
                assert(map.oam_entries@ =~= self.oam_entries());
                let sprites = map.get_oams_line(self.ly, large);
                let ghost base = line@;
                let ghost chosen = line_list(sprites);
                let count = list_len(&sprites);
                let mut k: usize = 0;
                while k < count
                    invariant
                        count == chosen.len(),
                        chosen == line_list(sprites),
                        k <= count,
                        self.wf(),
                        self.ly < VBLANK_FIRST_LINE,
                        chosen == line_sprites(self.oam_entries(), self.ly, large),
                        large == (self.lcdc & 0x04 != 0),
                        bg@ == self.bg_indices(trig),
                        line@.len() == 160,
                        line@ == self.sprites_over(trig, base, chosen.take(k as int)),
                        forall|j: int| 0 <= j < 160 ==> #[trigger] line@[j] < 4,
                    decreases count - k,
                {
                    let e = list_get(&sprites, k);
                    proof {
                        lemma_line_sprites_covers(self.oam_entries(), self.ly, large, k as int);
                        assert(chosen.take(k + 1).drop_last() =~= chosen.take(k as int));
                    }
                    self.draw_sprite_line(&mut line, &bg, e);
                    k = k + 1;
                }
                assert(chosen.take(count as int) =~= chosen);
            }
        }
        assert(self.lcdc & 0x80 == 0 ==> line@ =~= Seq::new(160, |sx: int| 0u8));
        self.screen.buf.set(self.ly as usize, line);
        if self.lcdc & 0x20 != 0 && trig && self.wx <= 166 {
            self.window_counter = self.window_counter + 1;
        }
    }
}

impl PPU {
    /// The timing registers after `cycles` more machine cycles, and the
    /// interrupt raised, as `run` computes them. The mode changes at most
    /// once per call; cycles beyond the mode's end count toward the next.
    pub open spec fn run_spec(old: &PPU, new: &PPU, cycles: int, r: Option<IntSource>) -> bool {
        let over = cycles - old.r_cyc;
        if cycles < old.r_cyc {
            &&& new.r_cyc == old.r_cyc - cycles
            &&& new.mode == old.mode
            &&& new.ly == old.ly
            &&& new.window_counter == old.window_counter
            &&& new.window_triggered == old.window_triggered
            &&& new.screen.buf@ == old.screen.buf@
            &&& r is None
        } else {
            match old.mode {
                PpuMode::OAMSCAN => {
                    &&& new.mode == PpuMode::DRAW
                    &&& new.r_cyc == DRAW_CYCLES - over
                    &&& new.ly == old.ly
                    &&& new.window_counter == old.window_counter
                    &&& new.window_triggered == old.window_triggered
                    &&& new.screen.buf@ == old.screen.buf@
                    &&& r is None
                },
                PpuMode::DRAW => {
                    let trig = old.triggered_after();
                    &&& new.mode == PpuMode::HBLANK
                    &&& new.r_cyc == HBLANK_CYCLES - over
                    &&& new.ly == old.ly
                    &&& new.window_triggered == trig
                    &&& new.window_counter == old.window_counter + if old.renders_window(trig) {
                        1int
                    } else {
                        0int
                    }
                    &&& new.screen.buf@[old.ly as int]@ == old.line_spec(trig)
                    &&& forall|y: int|
                        0 <= y < SCREEN_HEIGHT && y != old.ly ==> #[trigger] new.screen.buf@[y]
                            == old.screen.buf@[y]
                    &&& r == if old.stat & 0x08 != 0 {
                        Some(IntSource::LCD)
                    } else {
                        None
                    }
                },
                PpuMode::HBLANK => {
                    let ly = old.ly + 1;
                    &&& new.ly == ly
                    &&& new.window_counter == old.window_counter
                    &&& new.window_triggered == old.window_triggered
                    &&& new.screen.buf@ == old.screen.buf@
                    &&& if ly == VBLANK_FIRST_LINE {
                        &&& new.mode == PpuMode::VBLANK
                        &&& new.r_cyc == CYCLES_PER_LINE - over
                        &&& r == Some(IntSource::VBLANK)
                    } else {
                        &&& new.mode == PpuMode::OAMSCAN
                        &&& new.r_cyc == OAMSCAN_CYCLES - over
                        &&& r == if (old.stat & 0x40 != 0 && ly == old.lyc)
                            || old.stat & 0x20 != 0 {
                            Some(IntSource::LCD)
                        } else {
                            None
                        }
                    }
                },
                PpuMode::VBLANK => {
                    &&& new.screen.buf@ == old.screen.buf@
                    &&& if old.ly == LAST_LINE {
                        &&& new.mode == PpuMode::OAMSCAN
                        &&& new.r_cyc == OAMSCAN_CYCLES - over
                        &&& new.ly == 0
                        &&& new.window_counter == 0
                        &&& !new.window_triggered
                        &&& r == if old.stat & 0x20 != 0 {
                            Some(IntSource::LCD)
                        } else {
                            None
                        }
                    } else {
                        &&& new.mode == PpuMode::VBLANK
                        &&& new.r_cyc == CYCLES_PER_LINE - over
                        &&& new.ly == old.ly + 1
                        &&& new.window_counter == old.window_counter
                        &&& new.window_triggered == old.window_triggered
                        &&& r == if old.stat & 0x40 != 0 && old.ly + 1 == old.lyc {
                            Some(IntSource::LCD)
                        } else {
                            None
                        }
                    }
                },
            }
        }
    }

    /// The interrupt that `cycles` more machine cycles raise: LCD when a
    /// draw period ends with the H-blank source enabled, when a new line
    /// matches LYC with that source enabled, or when OAM scan starts with
    /// its source enabled; VBLANK when the vertical blank starts, once per
    /// frame (it takes the place of an LYC match on that line).
    pub open spec fn irq_spec(old: &PPU, cycles: int) -> Option<IntSource> {
        if cycles < old.r_cyc {
            None
        } else {
            match old.mode {
                PpuMode::OAMSCAN => None,
                PpuMode::DRAW => if old.stat & 0x08 != 0 {
                    Some(IntSource::LCD)
                } else {
                    None
                },
                PpuMode::HBLANK => if old.ly + 1 == VBLANK_FIRST_LINE {
                    Some(IntSource::VBLANK)
                } else if (old.stat & 0x40 != 0 && old.ly + 1 == old.lyc) || old.stat & 0x20 != 0 {
                    Some(IntSource::LCD)
                } else {
                    None
                },
                PpuMode::VBLANK => if old.ly == LAST_LINE {
                    if old.stat & 0x20 != 0 {
                        Some(IntSource::LCD)
                    } else {
                        None
                    }
                } else if old.stat & 0x40 != 0 && old.ly + 1 == old.lyc {
                    Some(IntSource::LCD)
                } else {
                    None
                },
            }
        }
    }

    /// The registers and memories that only the CPU writes are unchanged.
    pub open spec fn same_registers(old: &PPU, new: &PPU) -> bool {
        &&& new.vram == old.vram
        &&& new.oam == old.oam
        &&& new.lcdc == old.lcdc
        &&& new.stat == old.stat
        &&& new.scy == old.scy
        &&& new.scx == old.scx
        &&& new.lyc == old.lyc
        &&& new.bgp == old.bgp
        &&& new.obp0 == old.obp0
        &&& new.obp1 == old.obp1
        &&& new.wy == old.wy
        &&& new.wx == old.wx
    }

    /// Advances the mode machine by `cycles` machine cycles; draws a line
    /// when a draw period ends, and returns the interrupt raised, if any.
    #[verifier::spinoff_prover]
    pub fn run(&mut self, cycles: i32) -> (r: Option<IntSource>)
        requires
            old(self).wf(),
            0 <= cycles <= 20,
        ensures
            final(self).wf(),
            Self::run_spec(old(self), final(self), cycles as int, r),
            r == Self::irq_spec(old(self), cycles as int),
            Self::same_registers(old(self), final(self)),
            final(self).frame_pos() % (CYCLES_PER_FRAME as int) == (old(self).frame_pos()
                + cycles) % (
            CYCLES_PER_FRAME as int),
    {
        if cycles < self.r_cyc {
            self.r_cyc = self.r_cyc - cycles;
            return None;
        }
        let over_cycles = cycles - self.r_cyc;
        match self.mode {
            PpuMode::OAMSCAN => {
                self.mode = PpuMode::DRAW;
                self.r_cyc = DRAW_CYCLES - over_cycles;
                None
            },
            PpuMode::DRAW => {
                let trig = self.window_triggered || (self.lcdc & 0x20 != 0 && self.ly >= self.wy);
                self.render_line(trig);
                self.window_triggered = trig;
                self.mode = PpuMode::HBLANK;
                self.r_cyc = HBLANK_CYCLES - over_cycles;
                if (self.stat & 0x8) != 0 {
                    Some(IntSource::LCD)
                } else {
                    None
                }
            },
            PpuMode::HBLANK => {
                self.ly = self.ly + 1;
                if self.ly == VBLANK_FIRST_LINE {
                    self.mode = PpuMode::VBLANK;
                    self.r_cyc = CYCLES_PER_LINE - over_cycles;
                    Some(IntSource::VBLANK)
                } else {
                    self.mode = PpuMode::OAMSCAN;
                    self.r_cyc = OAMSCAN_CYCLES - over_cycles;
                    if (self.stat & 0x40 != 0 && self.ly == self.lyc) || (self.stat & 0x20) != 0 {
                        Some(IntSource::LCD)
                    } else {
                        None
                    }
                }
            },
            PpuMode::VBLANK => {
                if self.ly == LAST_LINE {
                    self.mode = PpuMode::OAMSCAN;
                    self.r_cyc = OAMSCAN_CYCLES - over_cycles;
                    self.ly = 0;
                    self.window_counter = 0;
                    self.window_triggered = false;
                    if (self.stat & 0x20) != 0 {
                        Some(IntSource::LCD)
                    } else {
                        None
                    }
                } else {
                    self.ly = self.ly + 1;
                    self.r_cyc = CYCLES_PER_LINE - over_cycles;
                    if self.stat & 0x40 != 0 && self.ly == self.lyc {
                        Some(IntSource::LCD)
                    } else {
                        None
                    }
                }
            },
        }
    }
}

/// Every frame lasts 17 556 machine cycles, whatever LCDC holds: over any
/// run of steps of the mode machine whose cycles add up to a whole frame,
/// the PPU comes back to the same line, the same mode and the same cycles
/// left in it.
pub proof fn lemma_frame_length(ppus: Seq<PPU>, cycles: Seq<int>)
    requires
        ppus.len() == cycles.len() + 1,
        ppus[0].wf(),
        ppus.last().wf(),
        forall|i: int|
            0 <= i < cycles.len() ==> (#[trigger] ppus[i + 1]).frame_pos() % (CYCLES_PER_FRAME as int)
                == (ppus[i].frame_pos() + cycles[i]) % (CYCLES_PER_FRAME as int),
        total(cycles) == CYCLES_PER_FRAME,
    ensures
        ppus.last().ly == ppus[0].ly,
        ppus.last().mode == ppus[0].mode,
        ppus.last().r_cyc == ppus[0].r_cyc,
{
    lemma_positions_add(ppus, cycles);
    let a = ppus[0].frame_pos();
    let b = ppus.last().frame_pos();
    lemma_frame_pos_range(ppus[0]);
    lemma_frame_pos_range(ppus.last());
    assert((a + 17556) % 17556 == a % 17556) by (nonlinear_arith);
    assert(a % 17556 == a && b % 17556 == b) by (nonlinear_arith)
        requires
            0 <= a < 17556,
            0 <= b < 17556,
    ;
    lemma_frame_pos_unique(ppus[0], ppus.last());
}

/// In a state the mode machine can reach, the frame position lies in
/// 0..17556, and its line is the position divided by 114.
pub proof fn lemma_frame_pos_range(p: PPU)
    requires
        p.wf(),
    ensures
        0 <= p.frame_pos() < CYCLES_PER_FRAME,
        p.ly == p.frame_pos() / 114,
        p.mode == PpuMode::OAMSCAN ==> 0 <= p.frame_pos() - p.ly * 114 < 20,
        p.mode == PpuMode::DRAW ==> 20 <= p.frame_pos() - p.ly * 114 < 63,
        p.mode == PpuMode::HBLANK ==> 63 <= p.frame_pos() - p.ly * 114 < 114,
{
    let pos = p.frame_pos();
    let ly = p.ly as int;
    assert(0 <= pos - ly * 114 < 114);
    assert(pos / 114 == ly) by (nonlinear_arith)
        requires
            0 <= pos - ly * 114 < 114,
    ;
}

/// The frame position of a reachable state fixes its line, its mode and
/// the cycles left in the mode.
pub proof fn lemma_frame_pos_unique(p: PPU, q: PPU)
    requires
        p.wf(),
        q.wf(),
        p.frame_pos() == q.frame_pos(),
    ensures
        p.ly == q.ly,
        p.mode == q.mode,
        p.r_cyc == q.r_cyc,
{
    lemma_frame_pos_range(p);
    lemma_frame_pos_range(q);
}

/// Positions in the frame advance by the cycles that the steps take.
proof fn lemma_positions_add(ppus: Seq<PPU>, cycles: Seq<int>)
    requires
        ppus.len() == cycles.len() + 1,
        forall|i: int|
            0 <= i < cycles.len() ==> (#[trigger] ppus[i
                + 1]).frame_pos() % (CYCLES_PER_FRAME as int)
                == (ppus[i].frame_pos() + cycles[i]) % (CYCLES_PER_FRAME as int),
    ensures
        ppus.last().frame_pos() % (CYCLES_PER_FRAME as int) == (ppus[0].frame_pos() + total(cycles))
            % (CYCLES_PER_FRAME as int),
    decreases cycles.len(),
{
    if cycles.len() > 0 {
        let n = cycles.len() - 1;
        lemma_positions_add(ppus.drop_last(), cycles.drop_last());
        assert(ppus.drop_last().last() == ppus[n]);
        assert(ppus[n + 1] == ppus.last());
        let a = ppus[0].frame_pos() + total(cycles.drop_last());
        let b = ppus[n].frame_pos();
        let c = cycles[n];
        assert(b % 17556 == a % 17556 ==> (b + c) % 17556 == (a + c) % 17556) by (nonlinear_arith);
    }
}

impl PPU {
    /// Address of the background tile map.
    pub fn bkgr_map_start_addr(&self) -> (r: u16)
        ensures
            r == 0x8000 + tile_map_offset(self.lcdc & 0x8 != 0),
    {
        if self.lcdc & 0x8 == 0 {
            0x9800
        } else {
            0x9C00
        }
    }

    /// Address of the window tile map.
    pub fn window_map_start_addr(&self) -> (r: u16)
        ensures
            r == 0x8000 + tile_map_offset(self.lcdc & 0x40 != 0),
    {
        if self.lcdc & 0x40 == 0 {
            0x9800
        } else {
            0x9C00
        }
    }

    /// The 1024 entries of the tile map at `start_addr`.
    pub fn get_tile_map(&self, start_addr: u16) -> (r: Vec<u8>)
        requires
            self.wf(),
            start_addr == 0x9800 || start_addr == 0x9C00,
        ensures
            r@ == self.vram.data@.subrange(start_addr - 0x8000, start_addr - 0x8000 + 1024),
    {
        let start = (start_addr - 0x8000) as usize;
        let mut out: Vec<u8> = Vec::new();
        let mut i: usize = 0;
        while i < 1024
            invariant
                i <= 1024,
                self.wf(),
                start == start_addr - 0x8000,
                start + 1024 <= VRAM_LEN,
                out@ == self.vram.data@.subrange(start as int, start + i),
            decreases 1024 - i,
        {
            out.push(self.vram.data[start + i]);
            i = i + 1;
            assert(out@ =~= self.vram.data@.subrange(start as int, start + i));
        }
        out
    }

    /// The 1024 tiles that the tile map at `start_addr` names, in the
    /// addressing mode LCDC selects.
    fn map_tiles(&self, start_addr: u16) -> (r: Vec<Tile>)
        requires
            self.wf(),
            start_addr == 0x9800 || start_addr == 0x9C00,
        ensures
            r@.len() == 1024,
            forall|i: int|
                0 <= i < 1024 ==> (#[trigger] r@[i]).data@ == self.vram.bg_tile_spec(i,
                    self.lcdc & 0x10 == 0, start_addr == 0x9C00),
    {
        let map = self.get_tile_map(start_addr);
        let mut out: Vec<Tile> = Vec::new();
        let mut i: usize = 0;
        while i < 1024
            invariant
                i <= 1024,
                self.wf(),
                start_addr == 0x9800 || start_addr == 0x9C00,
                map@ == self.vram.data@.subrange(start_addr - 0x8000, start_addr - 0x8000 + 1024),
                out@.len() == i,
                forall|k: int|
                    0 <= k < i ==> (#[trigger] out@[k]).data@ == self.vram.bg_tile_spec(k,
                        self.lcdc & 0x10 == 0, start_addr == 0x9C00),
            decreases 1024 - i,
        {
            let t = self.bkgr_tile(map[i]);
            out.push(t);
            i = i + 1;
        }
        out
    }

    /// The tiles of the background map.
    pub fn get_background_tiles(&self) -> (r: Vec<Tile>)
        requires
            self.wf(),
        ensures
            r@.len() == 1024,
            forall|i: int|
                0 <= i < 1024 ==> (#[trigger] r@[i]).data@ == self.vram.bg_tile_spec(i,
                    self.lcdc & 0x10 == 0, self.lcdc & 0x8 != 0),
    {
        let start = self.bkgr_map_start_addr();
        self.map_tiles(start)
    }

    /// The tiles of the window map.
    pub fn get_window_tiles(&self) -> (r: Vec<Tile>)
        requires
            self.wf(),
        ensures
            r@.len() == 1024,
            forall|i: int|
                0 <= i < 1024 ==> (#[trigger] r@[i]).data@ == self.vram.bg_tile_spec(i,
                    self.lcdc & 0x10 == 0, self.lcdc & 0x40 != 0),
    {
        let start = self.window_map_start_addr();
        self.map_tiles(start)
    }

    /// The whole 256 x 256 plane of tile map `high_map`, through BGP.
    fn render_plane(&self, high_map: bool) -> (r: Vec<Vec<u8>>)
        requires
            self.wf(),
        ensures
            r@.len() == BKG_WIDTH,
            forall|y: int| 0 <= y < BKG_WIDTH ==> (#[trigger] r@[y])@.len() == BKG_WIDTH,
            forall|y: int, x: int|
                0 <= y < BKG_WIDTH && 0 <= x < BKG_WIDTH ==> #[trigger] r@[y]@[x] == shade(
                    self.bgp,
                    plane_index(self.vram.data@, self.lcdc, high_map, y, x),
                ),
    {
        let mut out: Vec<Vec<u8>> = Vec::new();
        let mut y: usize = 0;
        while y < BKG_WIDTH
            invariant
                y <= BKG_WIDTH,
                self.wf(),
                out@.len() == y,
                forall|k: int| 0 <= k < y ==> (#[trigger] out@[k])@.len() == BKG_WIDTH,
                forall|k: int, x: int|
                    0 <= k < y && 0 <= x < BKG_WIDTH ==> #[trigger] out@[k]@[x] == shade(
                        self.bgp,
                        plane_index(self.vram.data@, self.lcdc, high_map, k, x),
                    ),
            decreases BKG_WIDTH - y,
        {
            let mut row: Vec<u8> = Vec::new();
            let mut x: usize = 0;
            while x < BKG_WIDTH
                invariant
                    x <= BKG_WIDTH,
                    y < BKG_WIDTH,
                    self.wf(),
                    row@.len() == x,
                    forall|k: int| 0 <= k < x ==> #[trigger] row@[k] == shade(
                        self.bgp,
                        plane_index(self.vram.data@, self.lcdc, high_map, y as int, k),
                    ),
                decreases BKG_WIDTH - x,
            {
                let idx = self.plane_index_at(high_map, y, x);
                row.push(Line::apply_palette(idx, Palette(self.bgp)));
                x = x + 1;
            }
            out.push(row);
            y = y + 1;
        }
        out
    }

    /// The whole background plane, through BGP, ignoring scrolling.
    pub fn render_bg(&self) -> (r: Vec<Vec<u8>>)
        requires
            self.wf(),
        ensures
            r@.len() == BKG_WIDTH,
            forall|y: int| 0 <= y < BKG_WIDTH ==> (#[trigger] r@[y])@.len() == BKG_WIDTH,
            forall|y: int, x: int|
                0 <= y < BKG_WIDTH && 0 <= x < BKG_WIDTH ==> #[trigger] r@[y]@[x] == shade(
                    self.bgp,
                    plane_index(self.vram.data@, self.lcdc, self.lcdc & 0x08 != 0, y, x),
                ),
    {
        self.render_plane(self.lcdc & 0x08 != 0)
    }

    /// The whole window plane, through BGP.
    pub fn render_window(&self) -> (r: Vec<Vec<u8>>)
        requires
            self.wf(),
        ensures
            r@.len() == BKG_WIDTH,
            forall|y: int| 0 <= y < BKG_WIDTH ==> (#[trigger] r@[y])@.len() == BKG_WIDTH,
            forall|y: int, x: int|
                0 <= y < BKG_WIDTH && 0 <= x < BKG_WIDTH ==> #[trigger] r@[y]@[x] == shade(
                    self.bgp,
                    plane_index(self.vram.data@, self.lcdc, self.lcdc & 0x40 != 0, y, x),
                ),
    {
        self.render_plane(self.lcdc & 0x40 != 0)
    }
}

} // verus!
