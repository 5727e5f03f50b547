//! Bump allocator over the four regions of video memory.
//!
//! The allocator only keeps the cursors. Moving the words into video memory
//! is left to the caller, who learns from the handle and from
//! [`Vram::tile_word_offset`] and [`Vram::palette_slot`] where each word
//! belongs.

use vstd::prelude::*;

verus! {

/// Words of texture data in one tile unit.
pub const WORDS_PER_TILE: usize = 8;

/// Colours in one palette bank.
pub const COLOURS_PER_BANK: usize = 16;

/// Words that the background tile region holds.
pub const BG_TILE_WORDS: usize = 0x1000;

/// Words that the object tile region holds.
pub const OBJ_TILE_WORDS: usize = 0x1000;

/// Colour slots that each palette region holds.
pub const PALETTE_SLOTS: usize = 256;

/// The least number of units of `unit` items that hold `len` items.
pub open spec fn units_for(len: int, unit: int) -> int {
    (len + unit - 1) / unit
}

/// Whether a block of `len` words may be placed at tile cursor `cursor` in a
/// region of `capacity` words. An empty block may be placed anywhere.
pub open spec fn tiles_fit(cursor: int, len: int, capacity: int) -> bool {
    len == 0 || cursor * 8 + len <= capacity
}

/// Whether `len` colours may be placed at palette cursor `cursor`. The first
/// slot of the region is the transparency key and is never written, so the
/// colours of bank `cursor` start at slot `1 + cursor * 16`.
pub open spec fn colours_fit(cursor: int, len: int) -> bool {
    len == 0 || 1 + cursor * 16 + len <= 256
}

/// Whether a block of `len` words may be placed at tile cursor `cursor` in a
/// region of `capacity` words.
pub fn tiles_fit_at(cursor: usize, len: usize, capacity: usize) -> (fit: bool)
    ensures
        fit == tiles_fit(cursor as int, len as int, capacity as int),
{
    if len == 0 {
        true
    } else if len > capacity {
        false
    } else {
        cursor <= (capacity - len) / WORDS_PER_TILE
    }
}

/// Whether `len` colours may be placed at palette cursor `cursor`.
pub fn colours_fit_at(cursor: usize, len: usize) -> (fit: bool)
    ensures
        fit == colours_fit(cursor as int, len as int),
{
    if len == 0 {
        true
    } else if len > PALETTE_SLOTS - 1 {
        false
    } else {
        cursor <= (PALETTE_SLOTS - 1 - len) / COLOURS_PER_BANK
    }
}

/// The handle that stands for a cursor: its low sixteen bits.
pub open spec fn handle_of(cursor: int) -> int {
    cursor % 0x1_0000
}

/// The cursors of the four video-memory regions.
pub struct Vram {
    /// Next free tile unit of the background tile region.
    pub index: usize,
    /// Next free tile unit of the object tile region.
    pub obj_index: usize,
    /// Next free bank of the background palette.
    pub bg_palette: usize,
    /// Next free bank of the object palette.
    pub obj_palette: usize,
}

/// `len` divided by `unit`, rounded up.
fn ceil_div(len: usize, unit: usize) -> (units: usize)
    requires
        unit > 0,
    ensures
        units == units_for(len as int, unit as int),
        units <= len,
        unit > 1 && len > 0 ==> units * unit < len + unit,
{
    let whole: usize = len / unit;
    let rest: usize = len % unit;
    assert(len == whole * unit + rest && whole <= len) by (nonlinear_arith)
        requires
            whole == len / unit,
            rest == len % unit,
            unit > 0,
    ;
    if rest == 0 {
        assert((len + unit - 1) / (unit as int) == whole) by (nonlinear_arith)
            requires
                len == whole * unit,
                unit > 0,
        ;
        whole
    } else {
        assert((len + unit - 1) / (unit as int) == whole + 1) by (nonlinear_arith)
            requires
                len == whole * unit + rest,
                0 < rest < unit,
        ;
        assert((whole + 1) * unit < len + unit) by (nonlinear_arith)
            requires
                len == whole * unit + rest,
                0 < rest < unit,
        ;
        assert(whole < len) by (nonlinear_arith)
            requires
                len == whole * unit + rest,
                0 < rest,
                unit > 0,
        ;
        whole + 1
    }
}

impl Vram {
    /// An allocator with every region empty.
    pub fn new() -> (vram: Vram)
        ensures
            vram.index == 0,
            vram.obj_index == 0,
            vram.bg_palette == 0,
            vram.obj_palette == 0,
    {
        Vram { index: 0, obj_index: 0, bg_palette: 0, obj_palette: 0 }
    }

    /// Forgets every allocation. Video memory itself is left as it is.
    pub fn reset(&mut self)
        ensures
            final(self).index == 0,
            final(self).obj_index == 0,
            final(self).bg_palette == 0,
            final(self).obj_palette == 0,
    {
        self.index = 0;
        self.obj_index = 0;
        self.bg_palette = 0;
        self.obj_palette = 0;
    }

    /// Reserves room for `data` in the background tile region and returns the
    /// tile index at which it starts.
    pub fn load_4bpp_bg_texture(&mut self, data: &[u32]) -> (handle: u16)
        requires
            tiles_fit(old(self).index as int, data@.len() as int, BG_TILE_WORDS as int),
        ensures
            handle == handle_of(old(self).index as int),
            final(self).index == old(self).index + units_for(data@.len() as int, 8),
            final(self).index >= old(self).index,
            final(self).obj_index == old(self).obj_index,
            final(self).bg_palette == old(self).bg_palette,
            final(self).obj_palette == old(self).obj_palette,
    {
        let id: usize = self.index;
        let units: usize = ceil_div(data.len(), WORDS_PER_TILE);
        self.index = id + units;
        low_sixteen(id)
    }

    /// Reserves room for `data` in the object tile region and returns the
    /// tile index at which it starts.
    pub fn load_4bpp_obj_texture(&mut self, data: &[u32]) -> (handle: u16)
        requires
            tiles_fit(old(self).obj_index as int, data@.len() as int, OBJ_TILE_WORDS as int),
        ensures
            handle == handle_of(old(self).obj_index as int),
            final(self).obj_index == old(self).obj_index + units_for(data@.len() as int, 8),
            final(self).obj_index >= old(self).obj_index,
            final(self).index == old(self).index,
            final(self).bg_palette == old(self).bg_palette,
            final(self).obj_palette == old(self).obj_palette,
    {
        let id: usize = self.obj_index;
        let units: usize = ceil_div(data.len(), WORDS_PER_TILE);
        self.obj_index = id + units;
        low_sixteen(id)
    }

    /// Reserves room for the colours of `data` in the background palette and
    /// returns the bank at which they start.
    pub fn load_bg_palette(&mut self, data: &[u16]) -> (handle: u16)
        requires
            colours_fit(old(self).bg_palette as int, data@.len() as int),
        ensures
            handle == handle_of(old(self).bg_palette as int),
            final(self).bg_palette == old(self).bg_palette + units_for(data@.len() as int, 16),
            final(self).bg_palette >= old(self).bg_palette,
            final(self).index == old(self).index,
            final(self).obj_index == old(self).obj_index,
            final(self).obj_palette == old(self).obj_palette,
    {
        let id: usize = self.bg_palette;
        let units: usize = ceil_div(data.len(), COLOURS_PER_BANK);
        self.bg_palette = id + units;
        low_sixteen(id)
    }

    /// Reserves room for the colours of `data` in the object palette and
    /// returns the bank at which they start.
    pub fn load_obj_palette(&mut self, data: &[u16]) -> (handle: u16)
        requires
            colours_fit(old(self).obj_palette as int, data@.len() as int),
        ensures
            handle == handle_of(old(self).obj_palette as int),
            final(self).obj_palette == old(self).obj_palette + units_for(data@.len() as int, 16),
            final(self).obj_palette >= old(self).obj_palette,
            final(self).index == old(self).index,
            final(self).obj_index == old(self).obj_index,
            final(self).bg_palette == old(self).bg_palette,
    {
        let id: usize = self.obj_palette;
        let units: usize = ceil_div(data.len(), COLOURS_PER_BANK);
        self.obj_palette = id + units;
        low_sixteen(id)
    }

    /// Offset, in words from the start of a tile region, of word `i` of the
    /// block that was given tile index `handle`.
    pub fn tile_word_offset(handle: u16, i: usize) -> (offset: usize)
        requires
            handle * 8 + i <= usize::MAX,
        ensures
            offset == handle * 8 + i,
    {
        handle as usize * WORDS_PER_TILE + i
    }

    /// Slot, counted from the start of a palette region, of colour `i` of the
    /// block that was given bank `handle`.
    pub fn palette_slot(handle: u16, i: usize) -> (slot: usize)
        requires
            1 + handle * 16 + i <= usize::MAX,
        ensures
            slot == 1 + handle * 16 + i,
    {
        1 + handle as usize * COLOURS_PER_BANK + i
    }
}

/// The low sixteen bits of a cursor.
fn low_sixteen(cursor: usize) -> (handle: u16)
    ensures
        handle == handle_of(cursor as int),
{
    (cursor % 0x1_0000) as u16
}

/// The cursor of a region after the first `calls` allocations of a run, of
/// `sizes[0]`, `sizes[1]` and so on items, from the cursor `start`.
pub open spec fn cursor_after(start: int, sizes: Seq<int>, unit: int, calls: int) -> int
    decreases calls,
{
    if calls <= 0 {
        start
    } else {
        cursor_after(start, sizes, unit, calls - 1) + units_for(sizes[calls - 1], unit)
    }
}

/// Granularity. The units that hold `len` items are the least number of
/// units of `unit` items with room for them: `len` divided by `unit`,
/// rounded up.
pub proof fn lemma_units_for_rounds_up(len: int, unit: int)
    requires
        len >= 0,
        unit > 0,
    ensures
        units_for(len, unit) >= 0,
        units_for(len, unit) * unit >= len,
        (units_for(len, unit) - 1) * unit < len,
        len % unit == 0 ==> units_for(len, unit) == len / unit,
        len % unit != 0 ==> units_for(len, unit) == len / unit + 1,
        len == 0 ==> units_for(len, unit) == 0,
        0 < len <= unit ==> units_for(len, unit) == 1,
{
    let whole = len / unit;
    let rest = len % unit;
    assert(len == whole * unit + rest && 0 <= rest < unit && whole >= 0) by (nonlinear_arith)
        requires
            whole == len / unit,
            rest == len % unit,
            len >= 0,
            unit > 0,
    ;
    if rest == 0 {
        assert((len + unit - 1) / unit == whole) by (nonlinear_arith)
            requires
                len == whole * unit,
                unit > 0,
        ;
        assert((whole - 1) * unit < len) by (nonlinear_arith)
            requires
                len == whole * unit,
                unit > 0,
        ;
    } else {
        assert((len + unit - 1) / unit == whole + 1) by (nonlinear_arith)
            requires
                len == whole * unit + rest,
                0 < rest < unit,
        ;
        assert((whole + 1) * unit >= len && whole * unit < len) by (nonlinear_arith)
            requires
                len == whole * unit + rest,
                0 < rest < unit,
        ;
    }
    let units = units_for(len, unit);
    if len == 0 {
        assert(units == 0) by (nonlinear_arith)
            requires
                units * unit >= 0,
                (units - 1) * unit < 0,
                unit > 0,
        ;
    } else if len <= unit {
        assert(units == 1) by (nonlinear_arith)
            requires
                units * unit >= len,
                (units - 1) * unit < len,
                0 < len <= unit,
        ;
    }
}

/// Monotonicity. In a run of allocations in one region the cursor, which is
/// the handle that the next allocation returns, never goes down: a later
/// handle is at least an earlier one.
pub proof fn lemma_handles_ascend(start: int, sizes: Seq<int>, unit: int, earlier: int, later: int)
    requires
        unit > 0,
        0 <= earlier <= later <= sizes.len(),
        forall|i: int| 0 <= i < sizes.len() ==> sizes[i] >= 0,
    ensures
        cursor_after(start, sizes, unit, earlier) <= cursor_after(start, sizes, unit, later),
    decreases later - earlier,
{
    if earlier < later {
        lemma_handles_ascend(start, sizes, unit, earlier, later - 1);
        lemma_units_for_rounds_up(sizes[later - 1], unit);
    }
}

/// The handle of an allocation that is not empty and fits its region is the
/// cursor itself, so such handles ascend as the cursor does.
pub proof fn lemma_handle_is_cursor(cursor: int, len: int, capacity: int)
    requires
        cursor >= 0,
        len > 0,
        capacity <= 0x1000,
        tiles_fit(cursor, len, capacity) || colours_fit(cursor, len),
    ensures
        handle_of(cursor) == cursor,
{
}

/// Whether each allocation of a run fits its region: allocation `i` takes
/// `sizes[i]` items at the cursor that the allocations before it have left.
/// A region starts `lead` slots in, holds `capacity` slots, and is cut into
/// units of `unit` items: for the tile regions `lead` is 0 and `unit` is 8,
/// for the palettes `lead` is 1 and `unit` is 16.
pub open spec fn run_fits(start: int, sizes: Seq<int>, unit: int, lead: int, capacity: int) -> bool {
    forall|i: int|
        0 <= i < sizes.len() ==> (#[trigger] sizes[i]) >= 0 && (sizes[i] == 0 || lead
            + cursor_after(start, sizes, unit, i) * unit + sizes[i] <= capacity)
}

/// In a run of allocations that fit, the cursor is where the run found it,
/// or it is inside the region.
proof fn lemma_cursor_in_region(
    start: int,
    sizes: Seq<int>,
    unit: int,
    lead: int,
    capacity: int,
    calls: int,
)
    requires
        unit > 0,
        lead >= 0,
        0 <= calls <= sizes.len(),
        run_fits(start, sizes, unit, lead, capacity),
    ensures
        cursor_after(start, sizes, unit, calls) == start || cursor_after(
            start,
            sizes,
            unit,
            calls,
        ) * unit <= capacity + unit - 1,
        cursor_after(start, sizes, unit, calls) >= start,
    decreases calls,
{
    if calls > 0 {
        lemma_cursor_in_region(start, sizes, unit, lead, capacity, calls - 1);
        let before = cursor_after(start, sizes, unit, calls - 1);
        let len = sizes[calls - 1];
        lemma_units_for_rounds_up(len, unit);
        if len > 0 {
            assert(lead + before * unit + len <= capacity);
            assert((before + units_for(len, unit)) * unit <= capacity + unit - 1)
                by (nonlinear_arith)
                requires
                    lead + before * unit + len <= capacity,
                    lead >= 0,
                    (units_for(len, unit) - 1) * unit < len,
            ;
        } else {
            assert(units_for(0, unit) == 0) by (nonlinear_arith)
                requires
                    unit > 0,
                    units_for(0, unit) * unit >= 0,
                    (units_for(0, unit) - 1) * unit < 0,
            ;
        }
    }
}

/// Monotonicity of the handles. Take a run of allocations in one region,
/// each of which fits, from a cursor `start`. The handle of allocation `i`
/// is `handle_of` of the cursor after the `i` allocations before it. A later
/// handle is never below an earlier one, and it is above it where the
/// earlier allocation was not empty.
pub proof fn lemma_run_handles_ascend(
    start: int,
    sizes: Seq<int>,
    unit: int,
    lead: int,
    capacity: int,
    earlier: int,
    later: int,
)
    requires
        start >= 0,
        unit > 0,
        lead >= 0,
        capacity <= 0x1000,
        0 <= earlier <= later < sizes.len(),
        run_fits(start, sizes, unit, lead, capacity),
    ensures
        handle_of(cursor_after(start, sizes, unit, earlier)) <= handle_of(
            cursor_after(start, sizes, unit, later),
        ),
        earlier < later && sizes[earlier] > 0 ==> handle_of(
            cursor_after(start, sizes, unit, earlier),
        ) < handle_of(cursor_after(start, sizes, unit, later)),
        sizes[later] > 0 ==> handle_of(cursor_after(start, sizes, unit, later)) == cursor_after(
            start,
            sizes,
            unit,
            later,
        ),
{
    let low = cursor_after(start, sizes, unit, earlier);
    let high = cursor_after(start, sizes, unit, later);
    lemma_handles_ascend(start, sizes, unit, earlier, later);
    lemma_cursor_in_region(start, sizes, unit, lead, capacity, earlier);
    lemma_cursor_in_region(start, sizes, unit, lead, capacity, later);
    if sizes[later] > 0 {
        assert(lead + high * unit + sizes[later] <= capacity);
        assert(high < 0x1000) by (nonlinear_arith)
            requires
                lead + high * unit + sizes[later] <= capacity,
                capacity <= 0x1000,
                lead >= 0,
                unit > 0,
                sizes[later] > 0,
                high >= 0,
        ;
    }
    if earlier < later && sizes[earlier] > 0 {
        lemma_handles_ascend(start, sizes, unit, earlier + 1, later);
        lemma_units_for_rounds_up(sizes[earlier], unit);
        assert(units_for(sizes[earlier], unit) >= 1) by (nonlinear_arith)
            requires
                units_for(sizes[earlier], unit) * unit >= sizes[earlier],
                sizes[earlier] > 0,
                unit > 0,
        ;
        assert(cursor_after(start, sizes, unit, earlier + 1) == low + units_for(
            sizes[earlier],
            unit,
        ));
        assert(high > low);
    }
    if high != start {
        assert(high <= 0x1000) by (nonlinear_arith)
            requires
                high * unit <= capacity + unit - 1,
                capacity <= 0x1000,
                unit > 0,
        ;
    }
}

/// A run fits as [`run_fits`] says exactly where each of its allocations
/// meets the condition of the function that makes it: [`tiles_fit`] in a
/// tile region, [`colours_fit`] in a palette.
pub proof fn lemma_run_fits_each(start: int, sizes: Seq<int>, capacity: int)
    ensures
        run_fits(start, sizes, 8, 0, capacity) <==> forall|i: int|
            0 <= i < sizes.len() ==> (#[trigger] sizes[i]) >= 0 && tiles_fit(
                cursor_after(start, sizes, 8, i),
                sizes[i],
                capacity,
            ),
        run_fits(start, sizes, 16, 1, 256) <==> forall|i: int|
            0 <= i < sizes.len() ==> (#[trigger] sizes[i]) >= 0 && colours_fit(
                cursor_after(start, sizes, 16, i),
                sizes[i],
            ),
{
}

} // verus!
