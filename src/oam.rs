//! Object attribute memory: forty four-byte sprite entries, and the choice
//! and drawing order of the sprites on one scanline.

use vstd::prelude::*;
use crate::tile::{row_indices, shade, Line, Palette, VramBank};

verus! {

/// Bytes of object attribute memory.
pub const OAM_LEN: usize = 0xA0;

/// Sprites in object attribute memory.
pub const NUM_SPRITES: usize = 40;

/// At most this many sprites are drawn on one line.
pub const MAX_SPRITES_PER_LINE: usize = 10;

/// The attribute bits of a sprite that a monochrome console uses.
#[derive(Clone, Copy, Debug, PartialEq, Eq, Structural)]
pub struct OamFlags {
    pub low_priority: bool,
    pub y_flip: bool,
    pub x_flip: bool,
    pub dmg_palette: bool,
}

/// One sprite: its Y position plus 16, X position plus 8, tile number and
/// attribute byte.
#[derive(Clone, Copy, Debug, PartialEq, Eq, Structural)]
pub struct OamEntry {
    pub y: u8,
    pub x: u8,
    pub tile: u8,
    pub attr: u8,
}

/// Rows of a sprite: 16 in the tall mode, else 8.
pub open spec fn sprite_height(large: bool) -> int {
    if large {
        16
    } else {
        8
    }
}

/// Whether `e` is drawn on line `ly`.
pub open spec fn covers_line(e: OamEntry, ly: u8, large: bool) -> bool {
    &&& e.y != 0
    &&& e.y < 160
    &&& e.y <= ly + 16 < e.y + sprite_height(large)
}

/// Inserts `e` into a list ordered by falling X, before the first entry
/// whose X is not greater: entries that come later in memory go before
/// earlier ones of equal X, so the earlier ones are drawn last, on top.
pub open spec fn insert_by_x(list: Seq<OamEntry>, e: OamEntry) -> Seq<OamEntry>
    decreases list.len(),
{
    if list.len() == 0 {
        seq![e]
    } else if list[0].x <= e.x {
        seq![e] + list
    } else {
        seq![list[0]] + insert_by_x(list.drop_first(), e)
    }
}

/// The sprites on line `ly`, in the order they are drawn: the first ten of
/// `entries` that cover the line, ordered by falling X.
pub open spec fn line_sprites(entries: Seq<OamEntry>, ly: u8, large: bool) -> Seq<OamEntry>
    decreases entries.len(),
{
    if entries.len() == 0 {
        seq![]
    } else {
        let prev = line_sprites(entries.drop_last(), ly, large);
        if prev.len() < MAX_SPRITES_PER_LINE && covers_line(entries.last(), ly, large) {
            insert_by_x(prev, entries.last())
        } else {
            prev
        }
    }
}

pub proof fn lemma_line_sprites_len(entries: Seq<OamEntry>, ly: u8, large: bool)
    ensures
        line_sprites(entries, ly, large).len() <= MAX_SPRITES_PER_LINE,
    decreases entries.len(),
{
    if entries.len() > 0 {
        lemma_line_sprites_len(entries.drop_last(), ly, large);
        lemma_insert_len(line_sprites(entries.drop_last(), ly, large), entries.last());
    }
}

/// Every sprite chosen for a line covers it.
pub proof fn lemma_line_sprites_covers(entries: Seq<OamEntry>, ly: u8, large: bool, k: int)
    requires
        0 <= k < line_sprites(entries, ly, large).len(),
    ensures
        covers_line(line_sprites(entries, ly, large)[k], ly, large),
    decreases entries.len(),
{
    if entries.len() > 0 {
        let prev = line_sprites(entries.drop_last(), ly, large);
        if prev.len() < MAX_SPRITES_PER_LINE && covers_line(entries.last(), ly, large) {
            lemma_insert_members(prev, entries.last(), k);
            let x = insert_by_x(prev, entries.last())[k];
            if x != entries.last() {
                let j = choose|j: int| 0 <= j < prev.len() && prev[j] == x;
                lemma_line_sprites_covers(entries.drop_last(), ly, large, j);
            }
        } else {
            lemma_line_sprites_covers(entries.drop_last(), ly, large, k);
        }
    }
}

/// Each entry after an insertion is the inserted one or one from before.
proof fn lemma_insert_members(list: Seq<OamEntry>, e: OamEntry, k: int)
    requires
        0 <= k < insert_by_x(list, e).len(),
    ensures
        insert_by_x(list, e)[k] == e || exists|j: int| 0 <= j < list.len()
            && list[j] == insert_by_x(list, e)[k],
    decreases list.len(),
{
    lemma_insert_len(list, e);
    if list.len() > 0 && list[0].x > e.x {
        if k > 0 {
            lemma_insert_members(list.drop_first(), e, k - 1);
            let x = insert_by_x(list, e)[k];
            if x != e {
                let j = choose|j: int| 0 <= j < list.drop_first().len()
                    && list.drop_first()[j] == x;
                assert(list[j + 1] == x);
            }
        } else {
            assert(list[0] == insert_by_x(list, e)[0]);
        }
    } else if list.len() > 0 && k > 0 {
        assert(list[k - 1] == insert_by_x(list, e)[k]);
    }
}

proof fn lemma_insert_len(list: Seq<OamEntry>, e: OamEntry)
    ensures
        insert_by_x(list, e).len() == list.len() + 1,
    decreases list.len(),
{
    if list.len() > 0 && list[0].x > e.x {
        lemma_insert_len(list.drop_first(), e);
    }
}

/// Inserting at the first position whose X is not greater is `insert_by_x`.
proof fn lemma_insert_at(list: Seq<OamEntry>, e: OamEntry, idx: int)
    requires
        0 <= idx <= list.len(),
        forall|j: int| 0 <= j < idx ==> list[j].x > e.x,
        idx < list.len() ==> list[idx].x <= e.x,
    ensures
        insert_by_x(list, e) == list.insert(idx, e),
    decreases list.len(),
{
    if list.len() == 0 {
        assert(list.insert(idx, e) =~= seq![e]);
    } else if idx == 0 {
        assert(list.insert(idx, e) =~= seq![e] + list);
    } else {
        let rest = list.drop_first();
        assert forall|j: int| 0 <= j < idx - 1 implies rest[j].x > e.x by {
            assert(rest[j] == list[j + 1]);
        }
        lemma_insert_at(rest, e, idx - 1);
        assert(list.insert(idx, e) =~= seq![list[0]] + rest.insert(idx - 1, e));
    }
}

/// The colour indices of row `line_idx` of sprite `e`, flips applied, as
/// they appear left to right.
pub open spec fn sprite_row(e: OamEntry, vram: Seq<u8>, line_idx: int, large: bool) -> Seq<u8> {
    let flags = flags_of(e.attr);
    let l = if flags.y_flip {
        sprite_height(large) - 1 - line_idx
    } else {
        line_idx
    };
    let tile = if large {
        if l >= 8 {
            e.tile | 0x01
        } else {
            e.tile & 0xFE
        }
    } else {
        e.tile
    };
    let r = if large && l >= 8 {
        l - 8
    } else {
        l
    };
    let row = row_indices(vram[tile * 16 + 2 * r], vram[tile * 16 + 2 * r + 1]);
    if flags.x_flip {
        row.reverse()
    } else {
        row
    }
}

/// The attribute bits of attribute byte `attr`.
pub open spec fn flags_of(attr: u8) -> OamFlags {
    OamFlags {
        low_priority: attr & 0x80 != 0,
        y_flip: attr & 0x40 != 0,
        x_flip: attr & 0x20 != 0,
        dmg_palette: attr & 0x10 != 0,
    }
}

impl OamEntry {
    /// Reads an entry from its four bytes.
    pub fn from_bytes(data: &[u8]) -> (r: Self)
        requires
            data@.len() == 4,
        ensures
            r.y == data@[0],
            r.x == data@[1],
            r.tile == data@[2],
            r.attr == data@[3],
    {
        OamEntry { y: data[0], x: data[1], tile: data[2], attr: data[3] }
    }

    pub fn y_pos(&self) -> (r: u8)
        ensures
            r == self.y,
    {
        self.y
    }

    pub fn x_pos(&self) -> (r: u8)
        ensures
            r == self.x,
    {
        self.x
    }

    pub fn tile_idx(&self) -> (r: u8)
        ensures
            r == self.tile,
    {
        self.tile
    }

    pub fn oam_flags(&self) -> (r: OamFlags)
        ensures
            r == flags_of(self.attr),
    {
        let flags = self.attr;
        OamFlags {
            low_priority: flags & 0x80 != 0,
            y_flip: flags & 0x40 != 0,
            x_flip: flags & 0x20 != 0,
            dmg_palette: flags & 0x10 != 0,
        }
    }

    /// Row `line_idx` of the sprite as colour indices, left to right, with
    /// both flips applied; the tile data is read from `vram` in the
    /// unsigned addressing mode.
    pub fn get_pixels(&self, vram: &VramBank, line_idx: u8, large_tiles: bool) -> (r: [u8; 8])
        requires
            vram.wf(),
            line_idx < sprite_height(large_tiles),
        ensures
            r@ == sprite_row(*self, vram.data@, line_idx as int, large_tiles),
            forall|i: int| 0 <= i < 8 ==> #[trigger] r@[i] < 4,
    {
        let flags = self.oam_flags();
        let mut line_idx = line_idx;
        let mut tile_idx = self.tile;
        if flags.y_flip {
            line_idx = if large_tiles {
                15 - line_idx
            } else {
                7 - line_idx
            };
        }
        if large_tiles {
            if line_idx >= 8 {
                tile_idx = tile_idx | 0x01;
                line_idx = line_idx - 8;
            } else {
                tile_idx = tile_idx & 0xFE;
            }
        }
        let tile = vram.tile_at(tile_idx as usize * 16);
        let pixels = tile.pixel_buf(line_idx);
        if flags.x_flip {
            let out: [u8; 8] = [
                pixels[7],
                pixels[6],
                pixels[5],
                pixels[4],
                pixels[3],
                pixels[2],
                pixels[1],
                pixels[0],
            ];
            assert(out@ =~= pixels@.reverse());
            out
        } else {
            pixels
        }
    }
}

impl OamEntry {
    /// Row `line_idx` of the sprite as shades through `palette`, left to
    /// right, with both flips applied.
    pub fn render(&self, vram: &VramBank, line_idx: u8, large_tiles: bool,
        palette: Palette) -> (r: [u8; 8])
        requires
            vram.wf(),
            line_idx < sprite_height(large_tiles),
        ensures
            forall|i: int| 0 <= i < 8 ==> #[trigger] r@[i] == shade(palette.0, sprite_row(*self,
                vram.data@, line_idx as int, large_tiles)[i]),
    {
        let pixels = self.get_pixels(vram, line_idx, large_tiles);
        let mut out: [u8; 8] = [0u8; 8];
        let mut i: usize = 0;
        while i < 8
            invariant
                i <= 8,
                out@.len() == 8,
                pixels@ == sprite_row(*self, vram.data@, line_idx as int, large_tiles),
                forall|k: int| 0 <= k < 8 ==> #[trigger] pixels@[k] < 4,
                forall|k: int| 0 <= k < i ==> #[trigger] out@[k] == shade(palette.0, pixels@[k]),
            decreases 8 - i,
        {
            out[i] = Line::apply_palette(pixels[i], palette);
            i = i + 1;
        }
        out
    }
}

/// Whether `e` is on screen vertically (Y neither 0 nor 160 or more).
pub open spec fn on_screen(e: OamEntry) -> bool {
    e.y != 0 && e.y < 160
}

/// The entries of `entries` that are on screen, in memory order.
pub open spec fn screen_sprites(entries: Seq<OamEntry>) -> Seq<OamEntry> {
    entries.filter(|e: OamEntry| on_screen(e))
}

#[verifier::external_type_specification]
#[verifier::external_body]
#[verifier::reject_recursive_types(T)]
pub struct ExHeaplessVec<T, const N: usize>(heapless::Vec<T, N>);

/// The sprites that a line list holds, in order.
pub uninterp spec fn line_list(v: heapless::Vec<OamEntry, 10>) -> Seq<OamEntry>;

/// Relies on heapless::Vec::new: a new vector is empty.
#[verifier::external_body]
fn list_new() -> (r: heapless::Vec<OamEntry, 10>)
    ensures
        line_list(r) == Seq::<OamEntry>::empty(),
{
    heapless::Vec::new()
}

/// Relies on heapless::Vec::is_full: true when the vector holds its
/// capacity.
#[verifier::external_body]
fn list_is_full(v: &heapless::Vec<OamEntry, 10>) -> (r: bool)
    ensures
        r == (line_list(*v).len() == MAX_SPRITES_PER_LINE),
{
    v.is_full()
}

/// Relies on the slice that a heapless::Vec dereferences to: its length,
/// never above the capacity.
#[verifier::external_body]
pub(crate) fn list_len(v: &heapless::Vec<OamEntry, 10>) -> (r: usize)
    ensures
        r == line_list(*v).len(),
        r <= MAX_SPRITES_PER_LINE,
{
    v.len()
}

/// Relies on the slice that a heapless::Vec dereferences to: item `i`.
#[verifier::external_body]
pub(crate) fn list_get(v: &heapless::Vec<OamEntry, 10>, i: usize) -> (r: OamEntry)
    requires
        i < line_list(*v).len(),
    ensures
        r == line_list(*v)[i as int],
{
    v[i]
}

/// Relies on heapless::Vec::insert: shifts the items from `index` on to the
/// right and puts `e` at `index`, or hands `e` back when the vector is
/// full; it panics when `index` is beyond the length.
#[verifier::external_body]
fn list_insert(v: &mut heapless::Vec<OamEntry, 10>, index: usize, e: OamEntry) -> (r: Result<(), OamEntry>)
    requires
        index <= line_list(*old(v)).len(),
    ensures
        r == (if line_list(*old(v)).len() < MAX_SPRITES_PER_LINE { Ok::<(), OamEntry>(()) } else { Err::<(), OamEntry>(e) }),
        line_list(*final(v)) == (if line_list(*old(v)).len() < MAX_SPRITES_PER_LINE { line_list(*old(v)).insert(index as int, e) } else { line_list(*old(v)) }),
{
    v.insert(index, e)
}

/// The sprites that a screen list holds, in order.
pub uninterp spec fn screen_list(v: heapless::Vec<OamEntry, 40>) -> Seq<OamEntry>;

/// Relies on heapless::Vec::new: a new vector is empty.
#[verifier::external_body]
fn screen_new() -> (r: heapless::Vec<OamEntry, 40>)
    ensures
        screen_list(r) == Seq::<OamEntry>::empty(),
{
    heapless::Vec::new()
}

/// Relies on heapless::Vec::push: appends `e` unless the vector is full,
/// and then hands `e` back.
#[verifier::external_body]
fn screen_push(v: &mut heapless::Vec<OamEntry, 40>, e: OamEntry) -> (r: Result<(), OamEntry>)
    ensures
        r == (if screen_list(*old(v)).len() < NUM_SPRITES { Ok::<(), OamEntry>(()) } else { Err::<(), OamEntry>(e) }),
        screen_list(*final(v)) == (if screen_list(*old(v)).len() < NUM_SPRITES { screen_list(*old(v)).push(e) } else { screen_list(*old(v)) }),
{
    v.push(e)
}

/// The forty sprite entries.
pub struct OamMap {
    pub oam_entries: Vec<OamEntry>,
}

impl OamMap {
    pub open spec fn wf(&self) -> bool {
        self.oam_entries@.len() == NUM_SPRITES
    }

    /// Reads the forty entries from the bytes of object attribute memory.
    pub fn from_mem(data: &[u8]) -> (r: Self)
        requires
            data@.len() == OAM_LEN,
        ensures
            r.wf(),
            forall|i: int|
                0 <= i < NUM_SPRITES ==> #[trigger] r.oam_entries@[i] == (OamEntry {
                    y: data@[4 * i],
                    x: data@[4 * i + 1],
                    tile: data@[4 * i + 2],
                    attr: data@[4 * i + 3],
                }),
    {
        let mut entries: Vec<OamEntry> = Vec::new();
        let mut i: usize = 0;
        while i < NUM_SPRITES
            invariant
                i <= NUM_SPRITES,
                data@.len() == OAM_LEN,
                entries@.len() == i,
                forall|k: int|
                    0 <= k < i ==> #[trigger] entries@[k] == (OamEntry {
                        y: data@[4 * k],
                        x: data@[4 * k + 1],
                        tile: data@[4 * k + 2],
                        attr: data@[4 * k + 3],
                    }),
            decreases NUM_SPRITES - i,
        {
            entries.push(
                OamEntry {
                    y: data[4 * i],
                    x: data[4 * i + 1],
                    tile: data[4 * i + 2],
                    attr: data[4 * i + 3],
                },
            );
            i = i + 1;
        }
        OamMap { oam_entries: entries }
    }

    /// The sprites that are on screen, in memory order.
    pub fn get_oams_screen(&self) -> (r: heapless::Vec<OamEntry, 40>)
        requires
            self.wf(),
        ensures
            screen_list(r) == screen_sprites(self.oam_entries@),
    {
        let mut oams = screen_new();
        let mut i: usize = 0;
        while i < NUM_SPRITES
            invariant
                i <= NUM_SPRITES,
                self.wf(),
                screen_list(oams) == screen_sprites(self.oam_entries@.take(i as int)),
                screen_list(oams).len() <= i,
            decreases NUM_SPRITES - i,
        {
            let e = self.oam_entries[i];
            proof {
                let pre = self.oam_entries@.take(i as int);
                assert(self.oam_entries@.take(i + 1) =~= pre.push(e));
                pre.lemma_filter_push(e, |e: OamEntry| on_screen(e));
            }
            if e.y != 0 && e.y < 160 {
                let _ = screen_push(&mut oams, e);
            }
            i = i + 1;
        }
        assert(self.oam_entries@.take(NUM_SPRITES as int) =~= self.oam_entries@);
        oams
    }

    /// The sprites drawn on line `ly`, in drawing order (see
    /// `line_sprites`).
    pub fn get_oams_line(&self, ly: u8, large_tiles: bool) -> (r: heapless::Vec<OamEntry, 10>)
        requires
            self.wf(),
        ensures
            line_list(r) == line_sprites(self.oam_entries@, ly, large_tiles),
    {
        let mut oams = list_new();
        let tile_height: u16 = if large_tiles {
            16
        } else {
            8
        };
        let adj_ly: u16 = ly as u16 + 16;
        let mut i: usize = 0;
        while i < NUM_SPRITES
            invariant
                i <= NUM_SPRITES,
                self.wf(),
                tile_height == sprite_height(large_tiles),
                adj_ly == ly + 16,
                line_list(oams) == line_sprites(self.oam_entries@.take(i as int), ly, large_tiles),
            decreases NUM_SPRITES - i,
        {
            let e = self.oam_entries[i];
            let ghost prefix = self.oam_entries@.take(i as int);
            assert(self.oam_entries@.take(i + 1).drop_last() =~= prefix);
            proof {
                lemma_line_sprites_len(prefix, ly, large_tiles);
            }
            if !list_is_full(&oams) && e.y != 0 && e.y < 160 && adj_ly >= e.y as u16 && adj_ly
                < e.y as u16 + tile_height {
                let len = list_len(&oams);
                let mut idx: usize = 0;
                while idx < len && list_get(&oams, idx).x > e.x
                    invariant
                        len == line_list(oams).len(),
                        idx <= len,
                        forall|j: int| 0 <= j < idx ==> line_list(oams)[j].x > e.x,
                    decreases len - idx,
                {
                    idx = idx + 1;
                }
                proof {
                    lemma_insert_at(line_list(oams), e, idx as int);
                }
                let _ = list_insert(&mut oams, idx, e);
            }
            i = i + 1;
        }
        assert(self.oam_entries@.take(NUM_SPRITES as int) =~= self.oam_entries@);
        oams
    }
}

} // verus!
