//! The map cursor: four mirrored corner sprites that glide after the
//! logical position and bounce while nothing is under them.

use crate::oam::{field, low_field, DisplayStyle, Oam, ObjEntry, S8x8};
use crate::transform::{toward, Vector2D};
use crate::vram::{colours_fit, handle_of, tiles_fit, units_for, Vram, OBJ_TILE_WORDS};
use vstd::prelude::*;

verus! {

/// Side of a grid cell, in pixels.
pub const CELL_SIZE: i16 = 16;

/// Most pixels that the cursor's sprites move in a frame, on each axis.
pub const GLIDE_STEP: u16 = 4;

/// Number of timer values of one bounce.
pub const BOUNCE_PERIOD: u8 = 75;

/// Timer value at which a bounce is furthest out.
pub const BOUNCE_PEAK: u8 = 40;

/// How the cursor is drawn.
#[derive(Clone, Copy, Debug, PartialEq, Eq, Structural)]
pub enum CursorState {
    /// Nothing is under the cursor: it bounces.
    Idle,
    /// A unit is under the cursor: the corners stay furthest out.
    Open,
    /// A unit is selected: the corners stay close.
    Closed,
}

/// How far the corners stand out at a timer value.
pub open spec fn bounce_table(timer: int) -> int {
    if timer < 5 {
        0
    } else if timer < 10 {
        1
    } else if timer < 15 {
        2
    } else if timer < 20 {
        3
    } else if timer < 40 {
        4
    } else if timer < 45 {
        3
    } else if timer < 50 {
        2
    } else if timer < 55 {
        1
    } else {
        0
    }
}

/// The timer value that a draw shows: the timer itself, and 0 where the
/// timer has left the values of a bounce.
pub open spec fn bounce_shown(timer: u8) -> u8 {
    if timer >= 75 {
        0
    } else {
        timer
    }
}

/// The timer after a draw: the value that follows the timer, and 0 where
/// that would be no value of a bounce.
pub open spec fn bounce_next(timer: u8) -> u8 {
    if timer >= 74 {
        0
    } else {
        (timer + 1) as u8
    }
}

/// The timer after `calls` draws from `start`.
pub open spec fn bounce_after(start: u8, calls: nat) -> u8
    decreases calls,
{
    if calls == 0 {
        start
    } else {
        bounce_next(bounce_after(start, (calls - 1) as nat))
    }
}

/// Returns how far the corners stand out at the timer's value, and steps the
/// timer, which starts again at 0 after the last value of a bounce. A timer
/// that has left the values of a bounce is taken back to 0, where the
/// corners are in.
pub fn bounce_offset(timer: &mut u8) -> (offset: i16)
    ensures
        offset == bounce_table(bounce_shown(*old(timer)) as int),
        *final(timer) == bounce_next(*old(timer)),
        *final(timer) < 75,
        *old(timer) >= 75 ==> offset == 0 && *final(timer) == 0,
{
    let shown: u8 = if *timer >= BOUNCE_PERIOD {
        0
    } else {
        *timer
    };
    *timer = if *timer >= BOUNCE_PERIOD - 1 {
        0
    } else {
        *timer + 1
    };
    if shown < 5 {
        0
    } else if shown < 10 {
        1
    } else if shown < 15 {
        2
    } else if shown < 20 {
        3
    } else if shown < 40 {
        4
    } else if shown < 45 {
        3
    } else if shown < 50 {
        2
    } else if shown < 55 {
        1
    } else {
        0
    }
}

/// Bounce periodicity. With the timer at 0 and one step for each draw, the
/// timer after `calls` draws is `calls % 75`, and that is the value the next
/// draw shows. So the offsets returned are `bounce_table(0)`,
/// `bounce_table(1)` and so on: five times 0, 1, 2 and 3, twenty times 4,
/// five times 3, 2 and 1, twenty times 0, and then the same again, every 75
/// draws.
pub proof fn lemma_bounce_period(calls: nat)
    ensures
        bounce_after(0, calls) == calls % 75,
        bounce_shown(bounce_after(0, calls)) == calls % 75,
        bounce_table(bounce_shown(bounce_after(0, calls + 75)) as int) == bounce_table(
            bounce_shown(bounce_after(0, calls)) as int,
        ),
{
    lemma_bounce_timer(calls);
    lemma_bounce_timer(calls + 75);
}

/// With the timer at 0 before the first draw, the timer after `calls` draws
/// is `calls % 75`.
proof fn lemma_bounce_timer(calls: nat)
    ensures
        bounce_after(0, calls) == calls % 75,
    decreases calls,
{
    if calls > 0 {
        lemma_bounce_timer((calls - 1) as nat);
    }
}

/// The timer stays among the values of a bounce: after a draw it is below
/// 75, whatever it was before.
pub proof fn lemma_bounce_stays_in_range(timer: u8)
    ensures
        bounce_next(timer) < 75,
        timer >= 75 ==> bounce_shown(timer) == 0 && bounce_next(timer) == 0,
        timer < 74 ==> bounce_next(timer) == timer + 1,
{
}

/// What a cursor holds.
pub ghost struct CursorModel {
    /// Position on the grid.
    pub position: Vector2D<i16>,
    /// Position of the sprites, in pixels.
    pub sprite_position: Vector2D<i16>,
    /// Tile index of the corner texture.
    pub tile_id: u16,
    /// Palette bank of the corner texture.
    pub palette: u16,
    pub bounce_timer: u8,
}

impl CursorModel {
    /// Where the sprites are heading, in pixels: the grid position times the
    /// cell size, wrapped into sixteen bits.
    pub open spec fn target(self) -> Vector2D<i16> {
        Vector2D {
            x: vstd::wrapping::i16_specs::wrapping_mul(self.position.x, 16),
            y: vstd::wrapping::i16_specs::wrapping_mul(self.position.y, 16),
        }
    }

    /// How far the corners stand out when the cursor is drawn in `state`.
    pub open spec fn offset(self, state: CursorState) -> int {
        match state {
            CursorState::Idle => bounce_table(bounce_shown(self.bounce_timer) as int),
            CursorState::Open => 4,
            CursorState::Closed => 2,
        }
    }

    /// The cursor after it has been drawn in `state`: the sprites have moved
    /// toward their target, and the timer has stepped, or has been pinned to
    /// the peak of the bounce or to its start. In each case the timer is
    /// below 75 afterwards.
    pub open spec fn drawn(self, state: CursorState) -> CursorModel {
        CursorModel {
            sprite_position: Vector2D {
                x: toward(self.sprite_position.x as int, self.target().x as int, 4) as i16,
                y: toward(self.sprite_position.y as int, self.target().y as int, 4) as i16,
            },
            bounce_timer: match state {
                CursorState::Idle => bounce_next(self.bounce_timer),
                CursorState::Open => 40,
                CursorState::Closed => 0,
            },
            ..self
        }
    }

    /// The corner sprite that stands `x_off` and `y_off` pixels from the
    /// sprite position.
    pub open spec fn corner(self, x_off: int, y_off: int, hflip: bool, vflip: bool) -> ObjEntry {
        ObjEntry {
            y: field(self.sprite_position.y + y_off, 0x100),
            x: field(self.sprite_position.x + x_off, 0x200),
            hflip,
            vflip,
            size: 0,
            tile_id: self.tile_id % 0x400,
            palbank: self.palette % 16,
            style: DisplayStyle::Normal,
        }
    }

    /// The four corner sprites at `offset` pixels out: top left, top right,
    /// bottom left, bottom right, each mirrored so that the one texture makes
    /// a frame.
    pub open spec fn corners(self, offset: int) -> Seq<ObjEntry> {
        seq![
            self.corner(-offset, -offset, false, false),
            self.corner(8 + offset, -offset, true, false),
            self.corner(-offset, 8 + offset, false, true),
            self.corner(8 + offset, 8 + offset, true, true),
        ]
    }
}

/// The map cursor.
pub struct Cursor {
    position: Vector2D<i16>,
    sprite_position: Vector2D<i16>,
    tile_id: u16,
    palette: u16,
    bounce_timer: u8,
}

impl View for Cursor {
    type V = CursorModel;

    closed spec fn view(&self) -> CursorModel {
        CursorModel {
            position: self.position,
            sprite_position: self.sprite_position,
            tile_id: self.tile_id,
            palette: self.palette,
            bounce_timer: self.bounce_timer,
        }
    }
}

impl Cursor {
    /// A cursor at the origin, with room taken in `vram` for its texture and
    /// its palette.
    pub fn new(vram: &mut Vram, texture: &[u32], palette: &[u16]) -> (cursor: Cursor)
        requires
            tiles_fit(old(vram).obj_index as int, texture@.len() as int, OBJ_TILE_WORDS as int),
            colours_fit(old(vram).obj_palette as int, palette@.len() as int),
        ensures
            cursor@ == (CursorModel {
                position: Vector2D { x: 0, y: 0 },
                sprite_position: Vector2D { x: 0, y: 0 },
                tile_id: handle_of(old(vram).obj_index as int) as u16,
                palette: handle_of(old(vram).obj_palette as int) as u16,
                bounce_timer: 0,
            }),
            final(vram).obj_index == old(vram).obj_index + units_for(texture@.len() as int, 8),
            final(vram).obj_palette == old(vram).obj_palette + units_for(palette@.len() as int, 16),
            final(vram).index == old(vram).index,
            final(vram).bg_palette == old(vram).bg_palette,
    {
        let tile_id = vram.load_4bpp_obj_texture(texture);
        let palette = vram.load_obj_palette(palette);
        Cursor {
            position: Vector2D::new(),
            sprite_position: Vector2D::new(),
            tile_id,
            palette,
            bounce_timer: 0,
        }
    }

    /// Position on the grid.
    pub fn position(&self) -> (position: Vector2D<i16>)
        ensures
            position == self@.position,
    {
        self.position
    }

    /// Position of the sprites, in pixels.
    pub fn sprite_position(&self) -> (position: Vector2D<i16>)
        ensures
            position == self@.sprite_position,
    {
        self.sprite_position
    }

    /// Tile index of the corner texture.
    pub fn tile_id(&self) -> (handle: u16)
        ensures
            handle == self@.tile_id,
    {
        self.tile_id
    }

    /// Palette bank of the corner texture.
    pub fn palette(&self) -> (handle: u16)
        ensures
            handle == self@.palette,
    {
        self.palette
    }

    /// The bounce timer.
    pub fn bounce_timer(&self) -> (timer: u8)
        ensures
            timer == self@.bounce_timer,
    {
        self.bounce_timer
    }

    /// Puts the cursor on the grid position `position`.
    pub fn set_position(&mut self, position: Vector2D<i16>)
        ensures
            final(self)@ == (CursorModel { position, ..old(self)@ }),
    {
        self.position = position;
    }

    /// One corner sprite.
    fn make_corner(&self, x_off: i16, y_off: i16, hflip: bool, vflip: bool) -> (entry: ObjEntry)
        requires
            -16 <= x_off <= 16,
            -16 <= y_off <= 16,
        ensures
            entry == self@.corner(x_off as int, y_off as int, hflip, vflip),
    {
        let y: u16 = low_field(self.sprite_position.y as i32 + y_off as i32, 0x100);
        let x: u16 = low_field(self.sprite_position.x as i32 + x_off as i32, 0x200);
        ObjEntry::sprite(y, x, hflip, vflip, S8x8, self.tile_id, self.palette)
    }

    /// Draws the cursor in `state`: moves the sprites toward the grid
    /// position, steps or pins the bounce timer, and takes four descriptors
    /// of `oam` for the corners.
    pub fn draw(&mut self, oam: &mut Oam, state: CursorState)
        requires
            old(oam).wf(),
            old(oam)@.cursor + 4 <= 128,
        ensures
            final(self)@ == old(self)@.drawn(state),
            final(self)@.bounce_timer < 75,
            state == CursorState::Idle && old(self)@.bounce_timer >= 75 ==> old(self)@.offset(state)
                == 0 && final(self)@.bounce_timer == 0,
            final(oam)@ == old(oam)@.drawn_all(final(self)@.corners(old(self)@.offset(state))),
            final(oam).wf(),
    {
        let target = self.position.scaled(CELL_SIZE);
        self.sprite_position.move_towards(target, GLIDE_STEP);
        let offset: i16 = match state {
            CursorState::Idle => bounce_offset(&mut self.bounce_timer),
            CursorState::Open => {
                self.bounce_timer = BOUNCE_PEAK;
                4
            },
            CursorState::Closed => {
                self.bounce_timer = 0;
                2
            },
        };
        let top_left = self.make_corner(-offset, -offset, false, false);
        let top_right = self.make_corner(8 + offset, -offset, true, false);
        let bottom_left = self.make_corner(-offset, 8 + offset, false, true);
        let bottom_right = self.make_corner(8 + offset, 8 + offset, true, true);
        oam.push_entry(top_left);
        oam.push_entry(top_right);
        oam.push_entry(bottom_left);
        oam.push_entry(bottom_right);
        proof {
            let corners = self@.corners(offset as int);
            assert(corners =~= seq![top_left, top_right, bottom_left, bottom_right]);
            crate::oam::lemma_drawn_four(old(oam)@, top_left, top_right, bottom_left, bottom_right);
        }
    }
}

} // verus!
