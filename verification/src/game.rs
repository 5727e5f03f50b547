//! The frame controller: it owns the cursor and the units, and turns the
//! input of a frame into their moves and their sprites.

use crate::background::{background, background_entries, ScreenEntry};
use crate::cursor::{Cursor, CursorModel, CursorState};
use crate::input::{axis_x_of, axis_y_of, down, is_down, Input, Key};
use crate::level::LevelData;
use crate::oam::{lemma_drawn_all, Oam, ObjEntry};
use crate::transform::{AxisX, AxisY, Vector2D};
use crate::unit::{Unit, UnitState};
use crate::vram::{
    colours_fit, colours_fit_at, tiles_fit, tiles_fit_at, units_for, Vram, BG_TILE_WORDS,
    OBJ_TILE_WORDS,
};
use vstd::prelude::*;
use vstd::wrapping::i16_specs::{wrapping_add, wrapping_sub};

verus! {

/// Number of units on the map.
pub const UNIT_COUNT: usize = 2;

/// The texture and palette data that a game state takes room for.
pub struct Artwork<'a> {
    /// Tiles of the map, four for each kind of map cell.
    pub tiles: &'a [u32],
    pub tiles_palette: &'a [u16],
    pub cursor: &'a [u32],
    pub cursor_palette: &'a [u16],
    pub unit: &'a [u32],
    pub unit_palette: &'a [u16],
}

impl<'a> Artwork<'a> {
    /// Tile units that the cursor's texture takes.
    pub open spec fn cursor_tiles(self) -> int {
        units_for(self.cursor@.len() as int, 8)
    }

    /// Tile units that the textures of one unit take.
    pub open spec fn unit_tiles(self) -> int {
        units_for(self.unit@.len() as int, 8)
    }

    /// Palette banks that the cursor's palette takes.
    pub open spec fn cursor_banks(self) -> int {
        units_for(self.cursor_palette@.len() as int, 16)
    }

    /// Palette banks that the palette of one unit takes.
    pub open spec fn unit_banks(self) -> int {
        units_for(self.unit_palette@.len() as int, 16)
    }

    /// Everything fits into video memory in the order in which a game state
    /// takes room: one blank tile and the map's tiles in the background
    /// region; the cursor's texture and those of the two units in the object
    /// region; and the palettes likewise.
    pub open spec fn fits(self) -> bool {
        &&& tiles_fit(1, self.tiles@.len() as int, BG_TILE_WORDS as int)
        &&& colours_fit(0, self.tiles_palette@.len() as int)
        &&& tiles_fit(0, self.cursor@.len() as int, OBJ_TILE_WORDS as int)
        &&& tiles_fit(self.cursor_tiles(), self.unit@.len() as int, OBJ_TILE_WORDS as int)
        &&& tiles_fit(
            self.cursor_tiles() + self.unit_tiles(),
            self.unit@.len() as int,
            OBJ_TILE_WORDS as int,
        )
        &&& colours_fit(0, self.cursor_palette@.len() as int)
        &&& colours_fit(self.cursor_banks(), self.unit_palette@.len() as int)
        &&& colours_fit(self.cursor_banks() + self.unit_banks(), self.unit_palette@.len() as int)
    }

    /// Whether everything fits into video memory.
    pub fn check(&self) -> (ok: bool)
        ensures
            ok == self.fits(),
    {
        if !tiles_fit_at(1, self.tiles.len(), BG_TILE_WORDS) || !colours_fit_at(
            0,
            self.tiles_palette.len(),
        ) {
            return false;
        }
        let mut vram = Vram::new();
        if !tiles_fit_at(vram.obj_index, self.cursor.len(), OBJ_TILE_WORDS) || !colours_fit_at(
            vram.obj_palette,
            self.cursor_palette.len(),
        ) {
            return false;
        }
        vram.load_4bpp_obj_texture(self.cursor);
        vram.load_obj_palette(self.cursor_palette);
        if !tiles_fit_at(vram.obj_index, self.unit.len(), OBJ_TILE_WORDS) || !colours_fit_at(
            vram.obj_palette,
            self.unit_palette.len(),
        ) {
            return false;
        }
        vram.load_4bpp_obj_texture(self.unit);
        vram.load_obj_palette(self.unit_palette);
        tiles_fit_at(vram.obj_index, self.unit.len(), OBJ_TILE_WORDS) && colours_fit_at(
            vram.obj_palette,
            self.unit_palette.len(),
        )
    }
}

/// The first of the first `upto` units that stands on `position`.
pub open spec fn first_at(units: Seq<UnitState>, position: Vector2D<i16>, upto: int) -> Option<
    usize,
>
    decreases upto,
{
    if upto <= 0 {
        None
    } else {
        match first_at(units, position, upto - 1) {
            Some(i) => Some(i),
            None => if units[upto - 1].position == position {
                Some((upto - 1) as usize)
            } else {
                None
            },
        }
    }
}

/// The first unit that stands on `position`.
pub open spec fn unit_at(units: Seq<UnitState>, position: Vector2D<i16>) -> Option<usize> {
    first_at(units, position, units.len() as int)
}

/// What a game state holds.
pub ghost struct GameModel {
    pub cursor: CursorModel,
    pub units: Seq<UnitState>,
    /// The selected unit, where there is one.
    pub selected: Option<usize>,
    /// Tile index of the first tile of the map.
    pub tileset_id: u16,
    /// Palette bank of the map's tiles.
    pub tileset_palette: u16,
}

impl GameModel {
    /// The selected unit is one of the units, and the sprites of a frame
    /// fit the shadow sprite table.
    pub open spec fn wf(self) -> bool {
        &&& self.units.len() + 4 <= 128
        &&& match self.selected {
            Some(i) => i < self.units.len(),
            None => true,
        }
    }

    /// The cursor's grid position after the keys `keys` went down: one cell
    /// left or right and one cell up or down, each coordinate wrapped into
    /// sixteen bits.
    pub open spec fn moved(self, keys: u16) -> Vector2D<i16> {
        Vector2D {
            x: match axis_x_of(keys) {
                Some(AxisX::Left) => wrapping_sub(self.cursor.position.x, 1),
                Some(AxisX::Right) => wrapping_add(self.cursor.position.x, 1),
                None => self.cursor.position.x,
            },
            y: match axis_y_of(keys) {
                Some(AxisY::Up) => wrapping_sub(self.cursor.position.y, 1),
                Some(AxisY::Down) => wrapping_add(self.cursor.position.y, 1),
                None => self.cursor.position.y,
            },
        }
    }

    /// The state after the cursor has moved and the confirm key has been
    /// served. With a unit selected, confirm puts that unit on the cursor's
    /// cell and ends the selection. With none selected, it selects the first
    /// unit on the cursor's cell, if there is one.
    pub open spec fn acted(self, keys: u16) -> GameModel {
        let position = self.moved(keys);
        let cursor = CursorModel { position, ..self.cursor };
        if !down(keys, Key::A.mask()) {
            GameModel { cursor, ..self }
        } else {
            match self.selected {
                Some(i) => GameModel {
                    cursor,
                    units: self.units.update(i as int, UnitState { position, ..self.units[i as int] }),
                    selected: None,
                    ..self
                },
                None => GameModel { cursor, selected: unit_at(self.units, position), ..self },
            }
        }
    }

    /// How the cursor is drawn: closed while a unit is selected, else open
    /// while a unit stands on its cell, else idle.
    pub open spec fn cursor_state(self) -> CursorState {
        if self.selected is Some {
            CursorState::Closed
        } else if unit_at(self.units, self.cursor.position) is Some {
            CursorState::Open
        } else {
            CursorState::Idle
        }
    }

    /// The sprites of the units, in their order.
    pub open spec fn unit_sprites(self) -> Seq<ObjEntry> {
        Seq::new(self.units.len(), |i: int| self.units[i].sprite(self.selected == Some(i as usize)))
    }

    /// The state after the frame in which the keys `keys` went down.
    pub open spec fn ticked(self, keys: u16) -> GameModel {
        let acted = self.acted(keys);
        GameModel {
            cursor: acted.cursor.drawn(acted.cursor_state()),
            units: Seq::new(acted.units.len(), |i: int| acted.units[i].drawn()),
            ..acted
        }
    }

    /// The sprites of the frame in which the keys `keys` went down: the four
    /// corners of the cursor, then the units.
    pub open spec fn frame(self, keys: u16) -> Seq<ObjEntry> {
        let acted = self.acted(keys);
        let state = acted.cursor_state();
        acted.cursor.drawn(state).corners(acted.cursor.offset(state)) + acted.unit_sprites()
    }
}

/// The models of a sequence of units.
pub open spec fn unit_states(units: Seq<Unit>) -> Seq<UnitState> {
    Seq::new(units.len(), |i: int| units[i]@)
}

/// The state of the game on one level.
pub struct GameState<'a> {
    cursor: Cursor,
    units: Vec<Unit>,
    selected_unit: Option<usize>,
    tileset_id: u16,
    tileset_palette: u16,
    level: &'a LevelData,
}

impl<'a> View for GameState<'a> {
    type V = GameModel;

    closed spec fn view(&self) -> GameModel {
        GameModel {
            cursor: self.cursor@,
            units: unit_states(self.units@),
            selected: self.selected_unit,
            tileset_id: self.tileset_id,
            tileset_palette: self.tileset_palette,
        }
    }
}

impl<'a> GameState<'a> {
    /// The level that the game is played on.
    pub closed spec fn level(&self) -> LevelData {
        *self.level
    }

    /// The state is well formed, and its level holds one byte for each cell
    /// and fits the screen.
    pub open spec fn wf(&self) -> bool {
        &&& self@.wf()
        &&& self.level().wf()
        &&& self.level().fits_screen()
    }

    /// The state at the start of a game on `level`: room is taken in video
    /// memory for one blank tile, the map's tiles and their palette, then
    /// for the cursor and for each of two units; cursor and units stand on
    /// the origin and no unit is selected.
    pub fn new(level: &'a LevelData, art: &Artwork<'_>) -> (state: GameState<'a>)
        requires
            level.wf(),
            level.fits_screen(),
            art.fits(),
        ensures
            state.wf(),
            state.level() == *level,
            state@.tileset_id == 1,
            state@.tileset_palette == 0,
            state@.selected is None,
            state@.cursor == (CursorModel {
                position: Vector2D { x: 0, y: 0 },
                sprite_position: Vector2D { x: 0, y: 0 },
                tile_id: 0,
                palette: 0,
                bounce_timer: 0,
            }),
            state@.units.len() == UNIT_COUNT,
            state@.units[0] == (UnitState {
                position: Vector2D { x: 0, y: 0 },
                tile_id: art.cursor_tiles() as u16,
                palette: art.cursor_banks() as u16,
                animation_timer: 0,
            }),
            state@.units[1] == (UnitState {
                position: Vector2D { x: 0, y: 0 },
                tile_id: (art.cursor_tiles() + art.unit_tiles()) as u16,
                palette: (art.cursor_banks() + art.unit_banks()) as u16,
                animation_timer: 0,
            }),
    {
        let mut vram = Vram::new();
        let blank: [u32; 8] = [0, 0, 0, 0, 0, 0, 0, 0];
        vram.load_4bpp_bg_texture(blank.as_slice());
        let tileset_id = vram.load_4bpp_bg_texture(art.tiles);
        let tileset_palette = vram.load_bg_palette(art.tiles_palette);
        let cursor = Cursor::new(&mut vram, art.cursor, art.cursor_palette);
        let first = Unit::new(&mut vram, art.unit, art.unit_palette);
        let second = Unit::new(&mut vram, art.unit, art.unit_palette);
        let mut units: Vec<Unit> = Vec::new();
        units.push(first);
        units.push(second);
        GameState { cursor, units, selected_unit: None, tileset_id, tileset_palette, level }
    }

    /// The cursor.
    pub fn cursor(&self) -> (cursor: &Cursor)
        ensures
            cursor@ == self@.cursor,
    {
        &self.cursor
    }

    /// Number of units.
    pub fn unit_count(&self) -> (count: usize)
        ensures
            count == self@.units.len(),
    {
        self.units.len()
    }

    /// Unit number `index`.
    pub fn unit(&self, index: usize) -> (unit: &Unit)
        requires
            index < self@.units.len(),
        ensures
            unit@ == self@.units[index as int],
    {
        &self.units[index]
    }

    /// The selected unit, where there is one.
    pub fn selected_unit(&self) -> (selected: Option<usize>)
        ensures
            selected == self@.selected,
    {
        self.selected_unit
    }

    /// Tile index of the first tile of the map.
    pub fn tileset_id(&self) -> (handle: u16)
        ensures
            handle == self@.tileset_id,
    {
        self.tileset_id
    }

    /// Palette bank of the map's tiles.
    pub fn tileset_palette(&self) -> (handle: u16)
        ensures
            handle == self@.tileset_palette,
    {
        self.tileset_palette
    }

    /// The screen entries that show the level.
    pub fn background(&self) -> (entries: Vec<ScreenEntry>)
        requires
            self.wf(),
        ensures
            entries@ == background(self.level(), self@.tileset_id, self@.tileset_palette),
            forall|i: int| 0 <= i < entries@.len() ==> entries@[i].row < 32 && entries@[i].col < 32,
    {
        background_entries(self.level, self.tileset_id, self.tileset_palette)
    }

    /// The first unit that stands on `position`.
    fn find_unit(&self, position: Vector2D<i16>) -> (found: Option<usize>)
        ensures
            found == unit_at(self@.units, position),
    {
        let mut found: Option<usize> = None;
        let mut i: usize = 0;
        while i < self.units.len()
            invariant
                i <= self.units@.len(),
                found == first_at(self@.units, position, i as int),
            decreases self.units@.len() - i,
        {
            if found.is_none() {
                let at = self.units[i].position();
                if at.x == position.x && at.y == position.y {
                    found = Some(i);
                }
            }
            i += 1;
        }
        found
    }

    /// One frame: moves the cursor by the keys that went down, serves the
    /// confirm key, and draws the cursor and then every unit into `oam`.
    pub fn tick(&mut self, input: &Input, oam: &mut Oam)
        requires
            old(self).wf(),
            old(oam).wf(),
            old(oam)@.cursor + 4 + old(self)@.units.len() <= 128,
        ensures
            final(self)@ == old(self)@.ticked(input@.new),
            final(self)@.cursor.bounce_timer < 75,
            final(self).level() == old(self).level(),
            final(self).wf(),
            final(oam)@ == old(oam)@.drawn_all(old(self)@.frame(input@.new)),
            final(oam).wf(),
    {
        let keys: u16 = input.newly_pressed();
        let mut position = self.cursor.position();
        match Input::get_x(keys) {
            Some(AxisX::Left) => {
                position.x = position.x.wrapping_sub(1);
            },
            Some(AxisX::Right) => {
                position.x = position.x.wrapping_add(1);
            },
            None => {},
        }
        match Input::get_y(keys) {
            Some(AxisY::Up) => {
                position.y = position.y.wrapping_sub(1);
            },
            Some(AxisY::Down) => {
                position.y = position.y.wrapping_add(1);
            },
            None => {},
        }
        assert(position == old(self)@.moved(keys));
        self.cursor.set_position(position);

        if is_down(keys, Key::A) {
            match self.selected_unit {
                Some(selected) => {
                    self.units[selected].set_position(position);
                    self.selected_unit = None;
                    assert(unit_states(self.units@) =~= old(self)@.units.update(
                        selected as int,
                        UnitState { position, ..old(self)@.units[selected as int] },
                    ));
                },
                None => {
                    self.selected_unit = self.find_unit(position);
                    proof {
                        lemma_first_at_in_range(self@.units, position, self@.units.len() as int);
                    }
                },
            }
        }
        let ghost acted = old(self)@.acted(keys);
        assert(self@ == acted);

        let occupied = self.find_unit(position);
        let state = if self.selected_unit.is_some() {
            CursorState::Closed
        } else if occupied.is_some() {
            CursorState::Open
        } else {
            CursorState::Idle
        };
        assert(state == acted.cursor_state());
        self.cursor.draw(oam, state);
        let ghost corners = acted.cursor.drawn(state).corners(acted.cursor.offset(state));
        proof {
            lemma_drawn_all(old(oam)@, corners);
            assert(corners + acted.unit_sprites().subrange(0, 0) =~= corners);
        }

        let mut i: usize = 0;
        while i < self.units.len()
            invariant
                i <= self.units@.len(),
                self.units@.len() == acted.units.len(),
                acted.wf(),
                self.selected_unit == acted.selected,
                self.cursor@ == acted.cursor.drawn(state),
                self.tileset_id == acted.tileset_id,
                self.tileset_palette == acted.tileset_palette,
                self.level() == old(self).level(),
                oam.wf(),
                oam@.cursor + (acted.units.len() - i) <= 128,
                oam@ == old(oam)@.drawn_all(corners + acted.unit_sprites().subrange(0, i as int)),
                forall|j: int| 0 <= j < i ==> #[trigger] self.units@[j]@ == acted.units[j].drawn(),
                forall|j: int|
                    i <= j < self.units@.len() ==> #[trigger] self.units@[j]@ == acted.units[j],
            decreases self.units@.len() - i,
        {
            let selected: bool = match self.selected_unit {
                Some(s) => s == i,
                None => false,
            };
            let ghost before = oam@;
            let ghost held = self.units@;
            self.units[i].draw(oam, selected);
            proof {
                let sprite = acted.units[i as int].sprite(selected);
                let sprites = acted.unit_sprites();
                assert(sprites[i as int] == sprite);
                assert(sprites.subrange(0, i + 1) =~= sprites.subrange(0, i as int).push(sprite));
                assert(corners + sprites.subrange(0, i + 1) =~= (corners + sprites.subrange(
                    0,
                    i as int,
                )).push(sprite));
                assert((corners + sprites.subrange(0, i + 1)).drop_last() =~= corners
                    + sprites.subrange(0, i as int));
                assert((corners + sprites.subrange(0, i + 1)).last() == sprite);
            }
            i += 1;
        }
        proof {
            let sprites = acted.unit_sprites();
            assert(sprites.subrange(0, i as int) =~= sprites);
            assert(unit_states(self.units@) =~= Seq::new(
                acted.units.len(),
                |j: int| acted.units[j].drawn(),
            ));
        }
    }
}

/// A unit found on a position is one of the units.
pub proof fn lemma_first_at_in_range(units: Seq<UnitState>, position: Vector2D<i16>, upto: int)
    requires
        upto <= units.len() <= usize::MAX,
    ensures
        match first_at(units, position, upto) {
            Some(i) => i < upto && units[i as int].position == position,
            None => forall|j: int| 0 <= j < upto ==> units[j].position != position,
        },
    decreases upto,
{
    if upto > 0 {
        lemma_first_at_in_range(units, position, upto - 1);
    }
}

/// Selection exclusivity. Where a unit is selected and the confirm key goes
/// down, the frame ends with no unit selected, with that unit on the
/// cursor's cell, whatever else stands there, and with every other unit
/// where it was.
pub proof fn lemma_confirm_moves_selected(game: GameModel, keys: u16, selected: usize)
    requires
        game.wf(),
        game.selected == Some(selected),
        down(keys, Key::A.mask()),
    ensures
        game.ticked(keys).selected is None,
        game.ticked(keys).wf(),
        game.ticked(keys).units[selected as int].position == game.ticked(keys).cursor.position,
        game.ticked(keys).cursor.position == game.moved(keys),
        forall|i: int|
            0 <= i < game.units.len() && i != selected ==> (#[trigger] game.ticked(
                keys,
            ).units[i]).position == game.units[i].position,
{
}

/// Where no unit is selected and the confirm key goes down, the frame ends
/// with the first unit on the cursor's cell selected, or with none where no
/// unit stands there; no unit moves.
pub proof fn lemma_confirm_selects_first(game: GameModel, keys: u16)
    requires
        game.wf(),
        game.selected is None,
        down(keys, Key::A.mask()),
    ensures
        game.ticked(keys).wf(),
        game.ticked(keys).selected == unit_at(game.units, game.moved(keys)),
        match game.ticked(keys).selected {
            Some(i) => i < game.units.len() && game.units[i as int].position == game.moved(keys)
                && forall|j: int| 0 <= j < i ==> game.units[j].position != game.moved(keys),
            None => forall|j: int|
                0 <= j < game.units.len() ==> game.units[j].position != game.moved(keys),
        },
        forall|i: int|
            0 <= i < game.units.len() ==> (#[trigger] game.ticked(keys).units[i]).position
                == game.units[i].position,
{
    lemma_first_at_in_range(game.units, game.moved(keys), game.units.len() as int);
    lemma_first_at_is_first(game.units, game.moved(keys), game.units.len() as int);
}

/// No unit before the one found stands on the position.
pub proof fn lemma_first_at_is_first(units: Seq<UnitState>, position: Vector2D<i16>, upto: int)
    requires
        upto <= units.len() <= usize::MAX,
    ensures
        match first_at(units, position, upto) {
            Some(i) => forall|j: int| 0 <= j < i ==> units[j].position != position,
            None => true,
        },
    decreases upto,
{
    if upto > 0 {
        lemma_first_at_is_first(units, position, upto - 1);
        lemma_first_at_in_range(units, position, upto - 1);
    }
}

/// Without the confirm key the selection stays as it is, and no unit moves.
pub proof fn lemma_selection_kept(game: GameModel, keys: u16)
    requires
        game.wf(),
        !down(keys, Key::A.mask()),
    ensures
        game.ticked(keys).wf(),
        game.ticked(keys).selected == game.selected,
        forall|i: int|
            0 <= i < game.units.len() ==> (#[trigger] game.ticked(keys).units[i]).position
                == game.units[i].position,
{
}

} // verus!
