//! The shadow sprite table: a working copy of the sprite descriptors that is
//! filled during a frame and handed to the hardware after the blanking wait.
//!
//! A frame starts with [`Oam::clean`], which hides what the frame before
//! had drawn. The entities then take descriptors with
//! [`Oam::reserve_entry`], and [`Oam::commit`] gives the descriptors that
//! have to reach the hardware: those of this frame, and those of the frame
//! before that were not drawn again and are now hidden.

use gba::video::obj::{ObjAttr0, ObjAttr1, ObjAttr2, ObjDisplayStyle};
use vstd::prelude::*;
use vstd::slice::slice_subrange;

verus! {

/// Number of sprite descriptors that the hardware holds.
pub const OAM_SLOTS: usize = 128;

/// Size class of a square sprite of 8 by 8 pixels.
#[allow(non_upper_case_globals)]
pub const S8x8: u16 = 0;

/// Size class of a square sprite of 16 by 16 pixels.
#[allow(non_upper_case_globals)]
pub const S16x16: u16 = 1;

/// Size class of a square sprite of 32 by 32 pixels.
#[allow(non_upper_case_globals)]
pub const S32x32: u16 = 2;

/// Size class of a square sprite of 64 by 64 pixels.
#[allow(non_upper_case_globals)]
pub const S64x64: u16 = 3;

/// Size class of a wide sprite of 16 by 8 pixels.
#[allow(non_upper_case_globals)]
pub const H16x8: u16 = 0;

/// Size class of a wide sprite of 32 by 8 pixels.
#[allow(non_upper_case_globals)]
pub const H32x8: u16 = 1;

/// Size class of a wide sprite of 32 by 16 pixels.
#[allow(non_upper_case_globals)]
pub const H32x16: u16 = 2;

/// Size class of a wide sprite of 64 by 32 pixels.
#[allow(non_upper_case_globals)]
pub const H64x32: u16 = 3;

/// Size class of a tall sprite of 8 by 16 pixels.
#[allow(non_upper_case_globals)]
pub const V8x16: u16 = 0;

/// Size class of a tall sprite of 8 by 32 pixels.
#[allow(non_upper_case_globals)]
pub const V8x32: u16 = 1;

/// Size class of a tall sprite of 16 by 32 pixels.
#[allow(non_upper_case_globals)]
pub const V16x32: u16 = 2;

/// Size class of a tall sprite of 32 by 64 pixels.
#[allow(non_upper_case_globals)]
pub const V32x64: u16 = 3;

/// How the hardware shows a sprite.
#[derive(Clone, Copy, Debug, PartialEq, Eq, Structural)]
pub enum DisplayStyle {
    Normal,
    Affine,
    NotDisplayed,
    DoubleSizeAffine,
}

/// One sprite descriptor, each field as the hardware keeps it.
#[derive(Clone, Copy, Debug, PartialEq, Eq, Structural)]
pub struct ObjEntry {
    /// Vertical position, eight bits.
    pub y: u16,
    /// Horizontal position, nine bits.
    pub x: u16,
    pub hflip: bool,
    pub vflip: bool,
    /// Size class, two bits.
    pub size: u16,
    /// Index of the first tile, ten bits.
    pub tile_id: u16,
    /// Palette bank, four bits.
    pub palbank: u16,
    pub style: DisplayStyle,
}

/// The descriptor of a shown sprite with the given fields, each cut to the
/// width that the hardware has for it.
pub open spec fn packed(
    y: u16,
    x: u16,
    hflip: bool,
    vflip: bool,
    size: u16,
    tile_id: u16,
    palbank: u16,
) -> ObjEntry {
    ObjEntry {
        y: y % 0x100,
        x: x % 0x200,
        hflip,
        vflip,
        size: size % 4,
        tile_id: tile_id % 0x400,
        palbank: palbank % 16,
        style: DisplayStyle::Normal,
    }
}

/// The descriptor `entry` after it has been hidden: the first attribute word
/// is replaced, which holds the vertical position and the display style.
pub open spec fn hidden(entry: ObjEntry) -> ObjEntry {
    ObjEntry { y: 0, style: DisplayStyle::NotDisplayed, ..entry }
}

/// `ObjAttr0::with_y`, `with_style`, `y` and `style` of the gba crate, on a
/// zeroed first attribute word: the vertical position keeps its low eight
/// bits, and the style is read back as it was set.
#[verifier::external_body]
fn attr0_fields(y: u16, style: DisplayStyle) -> (fields: (u16, DisplayStyle))
    ensures
        fields == (y & 0xFF, style),
{
    let style = match style {
        DisplayStyle::Normal => ObjDisplayStyle::Normal,
        DisplayStyle::Affine => ObjDisplayStyle::Affine,
        DisplayStyle::NotDisplayed => ObjDisplayStyle::NotDisplayed,
        DisplayStyle::DoubleSizeAffine => ObjDisplayStyle::DoubleSizeAffine,
    };
    let word = ObjAttr0::new().with_y(y).with_style(style);
    let style = match word.style() {
        ObjDisplayStyle::Normal => DisplayStyle::Normal,
        ObjDisplayStyle::Affine => DisplayStyle::Affine,
        ObjDisplayStyle::NotDisplayed => DisplayStyle::NotDisplayed,
        ObjDisplayStyle::DoubleSizeAffine => DisplayStyle::DoubleSizeAffine,
    };
    (word.y(), style)
}

/// `ObjAttr1::with_x`, `with_hflip`, `with_vflip`, `with_size` and the
/// getters of the gba crate, on a zeroed second attribute word: the
/// horizontal position keeps its low nine bits, the size class its low two,
/// and the flags are read back as they were set.
#[verifier::external_body]
fn attr1_fields(x: u16, hflip: bool, vflip: bool, size: u16) -> (fields: (u16, bool, bool, u16))
    ensures
        fields == (x & 0x1FF, hflip, vflip, size & 0x3),
{
    let word = ObjAttr1::new().with_x(x).with_hflip(hflip).with_vflip(vflip).with_size(size);
    (word.x(), word.hflip(), word.vflip(), word.size())
}

/// `ObjAttr2::with_tile_id`, `with_palbank` and the getters of the gba
/// crate, on a zeroed third attribute word: the tile index keeps its low ten
/// bits, the palette bank its low four.
#[verifier::external_body]
fn attr2_fields(tile_id: u16, palbank: u16) -> (fields: (u16, u16))
    ensures
        fields == (tile_id & 0x3FF, palbank & 0xF),
{
    let word = ObjAttr2::new().with_tile_id(tile_id).with_palbank(palbank);
    (word.tile_id(), word.palbank())
}

/// The low bits of `value` that fit a field of `modulus` values.
pub open spec fn field(value: int, modulus: int) -> u16 {
    (value % modulus) as u16
}

/// The low bits of `value` that fit a field of `modulus` values.
pub fn low_field(value: i32, modulus: u32) -> (low: u16)
    requires
        -0x10_0000 <= value < 0x10_0000,
        modulus == 0x100 || modulus == 0x200 || modulus == 0x400,
    ensures
        low == field(value as int, modulus as int),
{
    let lifted: u32 = (value + 0x10_0000) as u32;
    assert((value + 0x10_0000) % 0x100 == value % 0x100);
    assert((value + 0x10_0000) % 0x200 == value % 0x200);
    assert((value + 0x10_0000) % 0x400 == value % 0x400);
    (lifted % modulus) as u16
}

impl ObjEntry {
    /// Whether the hardware shows the sprite.
    pub open spec fn displayed(self) -> bool {
        self.style != DisplayStyle::NotDisplayed
    }

    /// The descriptor of a shown sprite with the given fields.
    pub fn sprite(
        y: u16,
        x: u16,
        hflip: bool,
        vflip: bool,
        size: u16,
        tile_id: u16,
        palbank: u16,
    ) -> (entry: ObjEntry)
        ensures
            entry == packed(y, x, hflip, vflip, size, tile_id, palbank),
    {
        let first = attr0_fields(y, DisplayStyle::Normal);
        let second = attr1_fields(x, hflip, vflip, size);
        let third = attr2_fields(tile_id, palbank);
        assert(y & 0xFF == y % 0x100 && x & 0x1FF == x % 0x200 && size & 0x3 == size % 4 && tile_id
            & 0x3FF == tile_id % 0x400 && palbank & 0xF == palbank % 16) by (bit_vector);
        ObjEntry {
            y: first.0,
            x: second.0,
            hflip: second.1,
            vflip: second.2,
            size: second.3,
            tile_id: third.0,
            palbank: third.1,
            style: first.1,
        }
    }

    /// The descriptor with every field zero: a shown sprite of the smallest
    /// size in the top left corner.
    pub fn new() -> (entry: ObjEntry)
        ensures
            entry == packed(0, 0, false, false, 0, 0, 0),
            entry.y == 0 && entry.x == 0 && entry.size == 0 && entry.tile_id == 0 && entry.palbank
                == 0,
    {
        ObjEntry::sprite(0, 0, false, false, 0, 0, 0)
    }

    /// Hides the sprite and leaves the second and third attribute word as
    /// they are.
    pub fn conceal(&mut self)
        ensures
            *final(self) == hidden(*old(self)),
    {
        let first = attr0_fields(0, DisplayStyle::NotDisplayed);
        assert(0u16 & 0xFF == 0) by (bit_vector);
        self.y = first.0;
        self.style = first.1;
    }
}

/// What a shadow sprite table holds.
pub ghost struct OamModel {
    /// Number of descriptors taken in this frame.
    pub cursor: int,
    /// Number of descriptors that the frame before had taken.
    pub previous: int,
    /// The descriptors.
    pub slots: Seq<ObjEntry>,
}

impl OamModel {
    pub open spec fn wf(self) -> bool {
        &&& self.slots.len() == 128
        &&& 0 <= self.cursor <= 128
        &&& 0 <= self.previous <= 128
    }

    /// The table at the start of the next frame: every descriptor taken so
    /// far is hidden, and their number is remembered.
    pub open spec fn cleaned(self) -> OamModel {
        OamModel {
            cursor: 0,
            previous: self.cursor,
            slots: Seq::new(
                self.slots.len(),
                |i: int|
                    if i < self.cursor {
                        hidden(self.slots[i])
                    } else {
                        self.slots[i]
                    },
            ),
        }
    }

    /// The table after the next descriptor has been taken and left as
    /// `entry`.
    pub open spec fn reserved(self, entry: ObjEntry) -> OamModel {
        OamModel { cursor: self.cursor + 1, slots: self.slots.update(self.cursor, entry), ..self }
    }

    /// The table after one descriptor has been taken for each of `drawn`, in
    /// their order.
    pub open spec fn drawn_all(self, drawn: Seq<ObjEntry>) -> OamModel
        decreases drawn.len(),
    {
        if drawn.len() == 0 {
            self
        } else {
            self.drawn_all(drawn.drop_last()).reserved(drawn.last())
        }
    }

    /// Number of descriptors that have to reach the hardware.
    pub open spec fn dirty(self) -> int {
        if self.cursor >= self.previous {
            self.cursor
        } else {
            self.previous
        }
    }

    /// The descriptors that have to reach the hardware, from the first slot
    /// on.
    pub open spec fn committed(self) -> Seq<ObjEntry> {
        self.slots.subrange(0, self.dirty())
    }
}

/// A working copy of the sprite descriptors.
pub struct Oam {
    index: usize,
    last_index: usize,
    entries: Vec<ObjEntry>,
}

impl View for Oam {
    type V = OamModel;

    closed spec fn view(&self) -> OamModel {
        OamModel {
            cursor: self.index as int,
            previous: self.last_index as int,
            slots: self.entries@,
        }
    }
}

impl Oam {
    /// The table holds one descriptor for each hardware slot, and neither
    /// count is beyond their number.
    pub open spec fn wf(&self) -> bool {
        self@.wf()
    }

    /// A table of zeroed descriptors. All of them count as taken, so that
    /// the first [`Oam::clean`] hides every sprite.
    pub fn new() -> (oam: Oam)
        ensures
            oam.wf(),
            oam@.cursor == 128,
            oam@.previous == 0,
            forall|i: int| 0 <= i < 128 ==> oam@.slots[i] == packed(0, 0, false, false, 0, 0, 0),
    {
        let blank = ObjEntry::new();
        let mut entries: Vec<ObjEntry> = Vec::new();
        while entries.len() < OAM_SLOTS
            invariant
                entries@.len() <= 128,
                forall|i: int| 0 <= i < entries@.len() ==> entries@[i] == blank,
            decreases 128 - entries@.len(),
        {
            entries.push(blank);
        }
        Oam { index: OAM_SLOTS, last_index: 0, entries }
    }

    /// Starts a frame: hides every descriptor that was taken since the last
    /// call and remembers how many they were.
    pub fn clean(&mut self)
        requires
            old(self).wf(),
        ensures
            final(self)@ == old(self)@.cleaned(),
            final(self).wf(),
    {
        let mut i: usize = 0;
        while i < self.index
            invariant
                self.wf(),
                i <= self.index,
                self.index == old(self).index,
                self.last_index == old(self).last_index,
                forall|j: int| 0 <= j < i ==> self.entries@[j] == hidden(old(self).entries@[j]),
                forall|j: int| i <= j < 128 ==> self.entries@[j] == old(self).entries@[j],
            decreases self.index - i,
        {
            let mut entry = self.entries[i];
            entry.conceal();
            self.entries.set(i, entry);
            i += 1;
        }
        self.last_index = self.index;
        self.index = 0;
        assert(self.entries@ =~= old(self)@.cleaned().slots);
    }

    /// The descriptors to hand to the hardware, from the first slot on:
    /// those taken in this frame or, where the frame before took more, as
    /// many as it took. The table is left as it is.
    pub fn commit(&self) -> (dirty: &[ObjEntry])
        requires
            self.wf(),
        ensures
            dirty@ == self@.committed(),
    {
        let count: usize = if self.index >= self.last_index {
            self.index
        } else {
            self.last_index
        };
        slice_subrange(self.entries.as_slice(), 0, count)
    }

    /// Takes the next free descriptor of this frame and fills it with
    /// `entry`.
    pub fn push_entry(&mut self, entry: ObjEntry)
        requires
            old(self).wf(),
            old(self)@.cursor < 128,
        ensures
            final(self)@ == old(self)@.reserved(entry),
            final(self).wf(),
    {
        let slot = self.reserve_entry();
        *slot = entry;
    }

    /// Takes the next free descriptor of this frame.
    pub fn reserve_entry(&mut self) -> (slot: &mut ObjEntry)
        requires
            old(self).wf(),
            old(self)@.cursor < 128,
        ensures
            *slot == old(self)@.slots[old(self)@.cursor],
            final(self)@ == old(self)@.reserved(*final(slot)),
            final(self).wf(),
    {
        let i: usize = self.index;
        self.index = i + 1;
        &mut self.entries[i]
    }

    /// Number of descriptors taken in this frame.
    pub fn reserved_count(&self) -> (count: usize)
        ensures
            count == self@.cursor,
    {
        self.index
    }

    /// Number of descriptors that the frame before had taken.
    pub fn previous_count(&self) -> (count: usize)
        ensures
            count == self@.previous,
    {
        self.last_index
    }
}

/// Clear coverage. Let a frame end with `table`, let the next frame start
/// with [`Oam::clean`] and draw `drawn`, no more sprites than the frame
/// before. Then what is committed holds as many descriptors as the frame
/// before had taken: first those drawn, then hidden ones.
pub proof fn lemma_clear_coverage(table: OamModel, drawn: Seq<ObjEntry>)
    requires
        table.wf(),
        drawn.len() <= table.cursor,
    ensures
        table.cleaned().drawn_all(drawn).wf(),
        table.cleaned().drawn_all(drawn).committed().len() == table.cursor,
        forall|i: int|
            0 <= i < drawn.len() ==> table.cleaned().drawn_all(drawn).committed()[i] == drawn[i],
        forall|i: int|
            drawn.len() <= i < table.cursor ==> !(#[trigger] table.cleaned().drawn_all(
                drawn,
            ).committed()[i]).displayed(),
{
    let start = table.cleaned();
    let after = start.drawn_all(drawn);
    lemma_drawn_all(start, drawn);
    assert forall|i: int| 0 <= i < drawn.len() implies after.committed()[i] == drawn[i] by {
        assert(after.slots[start.cursor + i] == drawn[i]);
    }
    assert forall|i: int| drawn.len() <= i < table.cursor implies !(#[trigger] after.committed()[i]).displayed() by {
        assert(after.slots[i] == start.slots[i]);
        assert(start.slots[i] == hidden(table.slots[i]));
    }
}

/// What a table holds after one descriptor has been taken for each of
/// `drawn`.
pub proof fn lemma_drawn_all(start: OamModel, drawn: Seq<ObjEntry>)
    requires
        start.wf(),
        start.cursor + drawn.len() <= 128,
    ensures
        start.drawn_all(drawn).wf(),
        start.drawn_all(drawn).cursor == start.cursor + drawn.len(),
        start.drawn_all(drawn).previous == start.previous,
        forall|i: int|
            0 <= i < drawn.len() ==> start.drawn_all(drawn).slots[start.cursor + i] == drawn[i],
        forall|i: int|
            0 <= i < 128 && !(start.cursor <= i < start.cursor + drawn.len())
                ==> start.drawn_all(drawn).slots[i] == start.slots[i],
    decreases drawn.len(),
{
    if drawn.len() > 0 {
        let before = start.drawn_all(drawn.drop_last());
        let after = start.drawn_all(drawn);
        lemma_drawn_all(start, drawn.drop_last());
        assert(after == before.reserved(drawn.last()));
        assert forall|i: int| 0 <= i < drawn.len() implies after.slots[start.cursor + i] == drawn[i] by {
            if i < drawn.len() - 1 {
                assert(before.slots[start.cursor + i] == drawn.drop_last()[i]);
            }
        }
        assert forall|i: int|
            0 <= i < 128 && !(start.cursor <= i < start.cursor + drawn.len()) implies after.slots[i]
            == start.slots[i] by {
            assert(before.slots[i] == start.slots[i]);
        }
    }
}

/// Taking four descriptors in a row is drawing a sequence of four.
pub proof fn lemma_drawn_four(start: OamModel, a: ObjEntry, b: ObjEntry, c: ObjEntry, d: ObjEntry)
    ensures
        start.drawn_all(seq![a, b, c, d]) == start.reserved(a).reserved(b).reserved(c).reserved(d),
{
    let one = seq![a];
    let two = seq![a, b];
    let three = seq![a, b, c];
    let four = seq![a, b, c, d];
    assert(one.drop_last() =~= Seq::<ObjEntry>::empty());
    assert(two.drop_last() =~= one);
    assert(three.drop_last() =~= two);
    assert(four.drop_last() =~= three);
    assert(start.drawn_all(Seq::<ObjEntry>::empty()) == start);
    assert(start.drawn_all(one) == start.reserved(a));
    assert(start.drawn_all(two) == start.reserved(a).reserved(b));
    assert(start.drawn_all(three) == start.reserved(a).reserved(b).reserved(c));
}

} // verus!
