//! The background of a level: each map cell becomes a block of two by two
//! screen entries.

use crate::level::LevelData;
use crate::oam::{field, low_field};
use gba::video::TextEntry;
use vstd::prelude::*;

verus! {

/// A screen entry and its place in the screen's map.
#[derive(Clone, Copy, Debug, PartialEq, Eq, Structural)]
pub struct ScreenEntry {
    pub row: u16,
    pub col: u16,
    /// The entry as the hardware keeps it.
    pub word: u16,
}

/// The screen entry that shows tile `tile` with palette bank `palbank`: the
/// low ten bits of the tile in bits 0 to 9, the low four bits of the bank in
/// bits 12 to 15.
pub open spec fn text_word(tile: u16, palbank: u16) -> u16 {
    ((tile % 0x400) + (palbank % 16) * 0x1000) as u16
}

/// `TextEntry::with_tile`, `with_palbank` and `to_u16` of the gba crate, on
/// a zeroed entry: the tile's low ten bits in bits 0 to 9, the bank's low
/// four bits in bits 12 to 15, every other bit 0.
#[verifier::external_body]
fn text_entry(tile: u16, palbank: u16) -> (word: u16)
    ensures
        word == (tile & 0x3FF) | ((palbank & 0xF) << 12),
{
    TextEntry::new().with_tile(tile).with_palbank(palbank).to_u16()
}

/// The screen entry that shows tile `tile` with palette bank `palbank`.
pub fn screen_word(tile: u16, palbank: u16) -> (word: u16)
    ensures
        word == text_word(tile, palbank),
{
    let word = text_entry(tile, palbank);
    assert((tile & 0x3FF) | ((palbank & 0xF) << 12) == (tile % 0x400) + (palbank % 16) * 0x1000)
        by (bit_vector);
    word
}

/// Entry `quarter` of the block of map cell `cell`: 0 and 1 are the upper
/// two, 2 and 3 the lower two. The tiles of a cell are four in a row, the
/// first at `tileset_id` plus four times the cell's byte.
pub open spec fn block_entry(
    level: LevelData,
    tileset_id: u16,
    tileset_palette: u16,
    cell: int,
    quarter: int,
) -> ScreenEntry {
    ScreenEntry {
        row: (2 * (cell / (level.width as int)) + quarter / 2) as u16,
        col: (2 * (cell % (level.width as int)) + quarter % 2) as u16,
        word: text_word(field(tileset_id + level.map@[cell] * 4 + quarter, 0x400), tileset_palette),
    }
}

/// The screen entries of a level, cell by cell in the order of the map, four
/// for each cell.
pub open spec fn background(level: LevelData, tileset_id: u16, tileset_palette: u16) -> Seq<
    ScreenEntry,
> {
    Seq::new(
        4 * level.map@.len(),
        |i: int| block_entry(level, tileset_id, tileset_palette, i / 4, i % 4),
    )
}

/// The screen entries of a level whose tiles start at tile `tileset_id` and
/// use palette bank `tileset_palette`.
pub fn background_entries(level: &LevelData, tileset_id: u16, tileset_palette: u16) -> (entries:
    Vec<ScreenEntry>)
    requires
        level.wf(),
        level.fits_screen(),
    ensures
        entries@ == background(*level, tileset_id, tileset_palette),
        forall|i: int| 0 <= i < entries@.len() ==> entries@[i].row < 32 && entries@[i].col < 32,
{
    let mut entries: Vec<ScreenEntry> = Vec::new();
    let width: usize = level.width as usize;
    let mut cell: usize = 0;
    while cell < level.map.len()
        invariant
            level.wf(),
            level.fits_screen(),
            width == level.width,
            cell <= level.map@.len(),
            entries@.len() == 4 * cell,
            forall|i: int|
                0 <= i < entries@.len() ==> entries@[i] == block_entry(
                    *level,
                    tileset_id,
                    tileset_palette,
                    i / 4,
                    i % 4,
                ),
            forall|i: int| 0 <= i < entries@.len() ==> entries@[i].row < 32 && entries@[i].col < 32,
        decreases level.map@.len() - cell,
    {
        proof {
            let w = level.width as int;
            let h = level.height as int;
            assert(w > 0 && cell as int / w < h && 0 <= (cell as int) % w < w && 0 <= cell as int
                / w) by (nonlinear_arith)
                requires
                    0 <= cell < w * h,
                    0 <= w,
                    0 <= h,
            ;
        }
        let x: u16 = (cell % width) as u16;
        let y: u16 = (cell / width) as u16;
        let first: i32 = tileset_id as i32 + level.map[cell] as i32 * 4;
        let mut quarter: u16 = 0;
        while quarter < 4
            invariant
                level.wf(),
                level.fits_screen(),
                cell < level.map@.len(),
                quarter <= 4,
                x == cell as int % (level.width as int),
                y == cell as int / (level.width as int),
                x < 16,
                y < 16,
                first == tileset_id + level.map@[cell as int] * 4,
                entries@.len() == 4 * cell + quarter,
                forall|i: int|
                    0 <= i < entries@.len() ==> entries@[i] == block_entry(
                        *level,
                        tileset_id,
                        tileset_palette,
                        i / 4,
                        i % 4,
                    ),
                forall|i: int|
                    0 <= i < entries@.len() ==> entries@[i].row < 32 && entries@[i].col < 32,
            decreases 4 - quarter,
        {
            let tile: u16 = low_field(first + quarter as i32, 0x400);
            let entry = ScreenEntry {
                row: 2 * y + quarter / 2,
                col: 2 * x + quarter % 2,
                word: screen_word(tile, tileset_palette),
            };
            proof {
                let i = entries@.len() as int;
                assert(i / 4 == cell && i % 4 == quarter);
            }
            entries.push(entry);
            quarter += 1;
        }
        cell += 1;
    }
    assert(entries@ =~= background(*level, tileset_id, tileset_palette));
    entries
}

} // verus!
