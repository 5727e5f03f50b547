//! A unit on the map: one sprite of 16 by 16 pixels with a slow idle
//! animation.

use crate::oam::{field, low_field, DisplayStyle, Oam, ObjEntry, S16x16};
use crate::transform::Vector2D;
use crate::vram::{colours_fit, handle_of, tiles_fit, units_for, Vram, OBJ_TILE_WORDS};
use vstd::prelude::*;

verus! {

/// Tiles between the texture of a unit and that of the selected unit.
pub const SELECTED_TILES: u16 = 8;

/// Tiles between the two frames of the idle animation.
pub const FRAME_TILES: u16 = 4;

/// What a unit holds.
pub ghost struct UnitState {
    /// Position on the grid.
    pub position: Vector2D<i16>,
    /// Tile index of the first texture.
    pub tile_id: u16,
    /// Palette bank of the textures.
    pub palette: u16,
    pub animation_timer: u8,
}

impl UnitState {
    /// Whether the idle animation shows its second frame: the frames change
    /// every sixteen draws.
    pub open spec fn second_frame(self) -> bool {
        (self.animation_timer / 16) % 2 == 1
    }

    /// The tile at which the texture to show starts, before it is cut to the
    /// width of its field.
    pub open spec fn tile(self, selected: bool) -> int {
        self.tile_id + (if selected {
            8int
        } else {
            0int
        }) + (if self.second_frame() {
            4int
        } else {
            0int
        })
    }

    /// The sprite of the unit.
    pub open spec fn sprite(self, selected: bool) -> ObjEntry {
        ObjEntry {
            y: field(self.position.y * 16, 0x100),
            x: field(self.position.x * 16, 0x200),
            hflip: false,
            vflip: false,
            size: 1,
            tile_id: field(self.tile(selected), 0x400),
            palbank: self.palette % 16,
            style: DisplayStyle::Normal,
        }
    }

    /// The unit after it has been drawn: the animation timer has stepped,
    /// and starts again after 255.
    pub open spec fn drawn(self) -> UnitState {
        UnitState { animation_timer: ((self.animation_timer + 1) % 256) as u8, ..self }
    }
}

/// A unit on the map.
pub struct Unit {
    position: Vector2D<i16>,
    tile_id: u16,
    palette: u16,
    animation_timer: u8,
}

impl View for Unit {
    type V = UnitState;

    closed spec fn view(&self) -> UnitState {
        UnitState {
            position: self.position,
            tile_id: self.tile_id,
            palette: self.palette,
            animation_timer: self.animation_timer,
        }
    }
}

impl Unit {
    /// A unit at the origin, with room taken in `vram` for its textures and
    /// its palette.
    pub fn new(vram: &mut Vram, texture: &[u32], palette: &[u16]) -> (unit: Unit)
        requires
            tiles_fit(old(vram).obj_index as int, texture@.len() as int, OBJ_TILE_WORDS as int),
            colours_fit(old(vram).obj_palette as int, palette@.len() as int),
        ensures
            unit@ == (UnitState {
                position: Vector2D { x: 0, y: 0 },
                tile_id: handle_of(old(vram).obj_index as int) as u16,
                palette: handle_of(old(vram).obj_palette as int) as u16,
                animation_timer: 0,
            }),
            final(vram).obj_index == old(vram).obj_index + units_for(texture@.len() as int, 8),
            final(vram).obj_palette == old(vram).obj_palette + units_for(palette@.len() as int, 16),
            final(vram).index == old(vram).index,
            final(vram).bg_palette == old(vram).bg_palette,
    {
        let tile_id = vram.load_4bpp_obj_texture(texture);
        let palette = vram.load_obj_palette(palette);
        Unit { position: Vector2D::new(), tile_id, palette, animation_timer: 0 }
    }

    /// Position on the grid.
    pub fn position(&self) -> (position: Vector2D<i16>)
        ensures
            position == self@.position,
    {
        self.position
    }

    /// Tile index of the first texture.
    pub fn tile_id(&self) -> (handle: u16)
        ensures
            handle == self@.tile_id,
    {
        self.tile_id
    }

    /// Palette bank of the textures.
    pub fn palette(&self) -> (handle: u16)
        ensures
            handle == self@.palette,
    {
        self.palette
    }

    /// The animation timer.
    pub fn animation_timer(&self) -> (timer: u8)
        ensures
            timer == self@.animation_timer,
    {
        self.animation_timer
    }

    /// Puts the unit on the grid position `position`.
    pub fn set_position(&mut self, position: Vector2D<i16>)
        ensures
            final(self)@ == (UnitState { position, ..old(self)@ }),
    {
        self.position = position;
    }

    /// Draws the unit: takes one descriptor of `oam` for its sprite, with
    /// the texture of the selected unit where `selected` holds, and steps
    /// the animation timer.
    pub fn draw(&mut self, oam: &mut Oam, selected: bool)
        requires
            old(oam).wf(),
            old(oam)@.cursor < 128,
        ensures
            final(self)@ == old(self)@.drawn(),
            final(oam)@ == old(oam)@.reserved(old(self)@.sprite(selected)),
            final(oam).wf(),
    {
        let y: u16 = low_field(self.position.y as i32 * 16, 0x100);
        let x: u16 = low_field(self.position.x as i32 * 16, 0x200);
        let mut tile: i32 = self.tile_id as i32;
        if selected {
            tile = tile + SELECTED_TILES as i32;
        }
        if (self.animation_timer / 16) % 2 == 1 {
            tile = tile + FRAME_TILES as i32;
        }
        let tile_id: u16 = low_field(tile, 0x400);
        let entry = ObjEntry::sprite(y, x, false, false, S16x16, tile_id, self.palette);
        oam.push_entry(entry);
        self.animation_timer = self.animation_timer.wrapping_add(1);
    }
}

} // verus!
