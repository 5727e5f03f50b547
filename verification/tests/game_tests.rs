use frame_core::game::{Artwork, GameState, UNIT_COUNT};
use frame_core::input::Input;
use frame_core::level::LevelData;
use frame_core::oam::{DisplayStyle, Oam};
use frame_core::transform::Vector2D;

const NONE: u16 = 0xFFFF;
const A: u16 = !0x0001;
const RIGHT: u16 = !0x0010;
const LEFT: u16 = !0x0020;
const UP: u16 = !0x0040;
const DOWN: u16 = !0x0080;

const TILES: [u32; 32] = [0; 32];
const TILES_PALETTE: [u16; 15] = [0; 15];
const CURSOR: [u32; 8] = [0; 8];
const CURSOR_PALETTE: [u16; 15] = [0; 15];
const UNIT: [u32; 128] = [0; 128];
const UNIT_PALETTE: [u16; 15] = [0; 15];

fn art() -> Artwork<'static> {
    Artwork {
        tiles: &TILES,
        tiles_palette: &TILES_PALETTE,
        cursor: &CURSOR,
        cursor_palette: &CURSOR_PALETTE,
        unit: &UNIT,
        unit_palette: &UNIT_PALETTE,
    }
}

fn small_level() -> LevelData {
    LevelData { width: 2, height: 1, map: vec![3, 5], units: Vec::new() }
}

/// Plays one frame in which exactly the keys of `keys` are down, after a
/// frame with no key down, and returns what is committed.
fn frame(state: &mut GameState<'_>, input: &mut Input, oam: &mut Oam, keys: u16) {
    input.update(NONE);
    input.update(keys);
    oam.clean();
    state.tick(input, oam);
}

#[test]
fn new_game_takes_room_in_order() {
    let level = small_level();
    let state = GameState::new(&level, &art());
    assert_eq!(UNIT_COUNT, 2);
    assert_eq!(state.unit_count(), 2);
    assert_eq!(state.tileset_id(), 1);
    assert_eq!(state.tileset_palette(), 0);
    assert_eq!(state.selected_unit(), None);
    assert_eq!(state.cursor().tile_id(), 0);
    assert_eq!(state.cursor().palette(), 0);
    assert_eq!(state.cursor().position(), Vector2D { x: 0, y: 0 });
    assert_eq!(state.unit(0).tile_id(), 1);
    assert_eq!(state.unit(0).palette(), 1);
    assert_eq!(state.unit(1).tile_id(), 17);
    assert_eq!(state.unit(1).palette(), 2);
    assert_eq!(state.unit(0).position(), Vector2D { x: 0, y: 0 });
    assert_eq!(state.unit(1).position(), Vector2D { x: 0, y: 0 });
}

#[test]
fn background_of_the_game_uses_its_handles() {
    let level = small_level();
    let state = GameState::new(&level, &art());
    let entries = state.background();
    assert_eq!(entries.len(), 8);
    assert_eq!((entries[0].row, entries[0].col, entries[0].word), (0, 0, 13));
    assert_eq!((entries[7].row, entries[7].col, entries[7].word), (1, 3, 24));
}

#[test]
fn axis_keys_move_the_cursor_by_one_cell() {
    let level = small_level();
    let mut state = GameState::new(&level, &art());
    let mut input = Input::new();
    let mut oam = Oam::new();
    frame(&mut state, &mut input, &mut oam, RIGHT);
    assert_eq!(state.cursor().position(), Vector2D { x: 1, y: 0 });
    frame(&mut state, &mut input, &mut oam, DOWN);
    assert_eq!(state.cursor().position(), Vector2D { x: 1, y: 1 });
    frame(&mut state, &mut input, &mut oam, LEFT & UP);
    assert_eq!(state.cursor().position(), Vector2D { x: 0, y: 0 });
    frame(&mut state, &mut input, &mut oam, LEFT & UP);
    assert_eq!(state.cursor().position(), Vector2D { x: -1, y: -1 });
    frame(&mut state, &mut input, &mut oam, RIGHT & DOWN);
    assert_eq!(state.cursor().position(), Vector2D { x: 0, y: 0 });
    frame(&mut state, &mut input, &mut oam, NONE);
    assert_eq!(state.cursor().position(), Vector2D { x: 0, y: 0 });
}

#[test]
fn a_held_key_moves_the_cursor_once() {
    let level = small_level();
    let mut state = GameState::new(&level, &art());
    let mut input = Input::new();
    let mut oam = Oam::new();
    for _ in 0..3 {
        input.update(RIGHT);
        oam.clean();
        state.tick(&input, &mut oam);
    }
    assert_eq!(state.cursor().position(), Vector2D { x: 1, y: 0 });
}

#[test]
fn confirm_selects_the_first_unit_under_the_cursor() {
    let level = small_level();
    let mut state = GameState::new(&level, &art());
    let mut input = Input::new();
    let mut oam = Oam::new();
    frame(&mut state, &mut input, &mut oam, A);
    assert_eq!(state.selected_unit(), Some(0));
    assert_eq!(state.unit(0).position(), Vector2D { x: 0, y: 0 });
    assert_eq!(state.unit(1).position(), Vector2D { x: 0, y: 0 });
}

#[test]
fn confirm_on_an_empty_cell_selects_nothing() {
    let level = small_level();
    let mut state = GameState::new(&level, &art());
    let mut input = Input::new();
    let mut oam = Oam::new();
    frame(&mut state, &mut input, &mut oam, RIGHT);
    frame(&mut state, &mut input, &mut oam, A);
    assert_eq!(state.selected_unit(), None);
    frame(&mut state, &mut input, &mut oam, A & RIGHT);
    assert_eq!(state.selected_unit(), None);
    assert_eq!(state.cursor().position(), Vector2D { x: 2, y: 0 });
}

#[test]
fn confirm_moves_the_selected_unit_and_ends_the_selection() {
    let level = small_level();
    let mut state = GameState::new(&level, &art());
    let mut input = Input::new();
    let mut oam = Oam::new();
    frame(&mut state, &mut input, &mut oam, A);
    frame(&mut state, &mut input, &mut oam, RIGHT);
    frame(&mut state, &mut input, &mut oam, DOWN);
    assert_eq!(state.selected_unit(), Some(0));
    frame(&mut state, &mut input, &mut oam, A);
    assert_eq!(state.selected_unit(), None);
    assert_eq!(state.unit(0).position(), Vector2D { x: 1, y: 1 });
    assert_eq!(state.unit(1).position(), Vector2D { x: 0, y: 0 });
}

#[test]
fn a_unit_can_be_put_on_an_occupied_cell() {
    let level = small_level();
    let mut state = GameState::new(&level, &art());
    let mut input = Input::new();
    let mut oam = Oam::new();
    frame(&mut state, &mut input, &mut oam, A);
    frame(&mut state, &mut input, &mut oam, RIGHT);
    frame(&mut state, &mut input, &mut oam, A);
    assert_eq!(state.unit(0).position(), Vector2D { x: 1, y: 0 });
    frame(&mut state, &mut input, &mut oam, LEFT);
    frame(&mut state, &mut input, &mut oam, A);
    assert_eq!(state.selected_unit(), Some(1));
    frame(&mut state, &mut input, &mut oam, RIGHT);
    frame(&mut state, &mut input, &mut oam, A);
    assert_eq!(state.selected_unit(), None);
    assert_eq!(state.unit(0).position(), Vector2D { x: 1, y: 0 });
    assert_eq!(state.unit(1).position(), Vector2D { x: 1, y: 0 });
    frame(&mut state, &mut input, &mut oam, A);
    assert_eq!(state.selected_unit(), Some(0));
}

#[test]
fn confirm_with_a_move_acts_on_the_new_cell() {
    let level = small_level();
    let mut state = GameState::new(&level, &art());
    let mut input = Input::new();
    let mut oam = Oam::new();
    frame(&mut state, &mut input, &mut oam, A);
    frame(&mut state, &mut input, &mut oam, A & RIGHT & DOWN);
    assert_eq!(state.selected_unit(), None);
    assert_eq!(state.unit(0).position(), Vector2D { x: 1, y: 1 });
}

#[test]
fn at_most_one_unit_is_ever_selected() {
    let level = small_level();
    let mut state = GameState::new(&level, &art());
    let mut input = Input::new();
    let mut oam = Oam::new();
    let script = [A, RIGHT, A, A, LEFT, A, DOWN, A & UP, A, RIGHT & A, A, A & LEFT, NONE, A];
    for keys in script {
        let before = state.selected_unit();
        let unit_before = before.map(|i| state.unit(i).position());
        frame(&mut state, &mut input, &mut oam, keys);
        if let Some(i) = state.selected_unit() {
            assert!(i < state.unit_count());
        }
        if keys & 1 == 0 {
            if let Some(i) = before {
                assert_eq!(state.selected_unit(), None);
                assert_eq!(state.unit(i).position(), state.cursor().position());
            }
        } else {
            assert_eq!(state.selected_unit(), before);
            if let Some(i) = before {
                assert_eq!(Some(state.unit(i).position()), unit_before);
            }
        }
        let selected_sprites = oam.commit()[4..6].iter().filter(|e| e.tile_id % 16 >= 8).count();
        assert_eq!(selected_sprites, state.selected_unit().iter().count());
    }
}

#[test]
fn a_frame_draws_the_cursor_and_then_the_units() {
    let level = small_level();
    let mut state = GameState::new(&level, &art());
    let mut input = Input::new();
    let mut oam = Oam::new();
    frame(&mut state, &mut input, &mut oam, A);
    assert_eq!(oam.reserved_count(), 6);
    let drawn = oam.commit();
    assert_eq!(drawn.len(), 128);
    for corner in &drawn[0..4] {
        assert_eq!((corner.size, corner.tile_id, corner.palbank), (0, 0, 0));
        assert_eq!(corner.style, DisplayStyle::Normal);
    }
    assert_eq!((drawn[0].y, drawn[0].x), (254, 510));
    assert_eq!((drawn[3].y, drawn[3].x), (10, 10));
    assert_eq!((drawn[4].size, drawn[4].tile_id, drawn[4].palbank), (1, 9, 1));
    assert_eq!((drawn[5].size, drawn[5].tile_id, drawn[5].palbank), (1, 17, 2));
    assert!(drawn[6..].iter().all(|e| e.style == DisplayStyle::NotDisplayed));
    frame(&mut state, &mut input, &mut oam, NONE);
    assert_eq!(oam.commit().len(), 6);
}

#[test]
fn cursor_is_open_over_a_unit_closed_on_a_selection_and_idle_elsewhere() {
    let level = small_level();
    let mut state = GameState::new(&level, &art());
    let mut input = Input::new();
    let mut oam = Oam::new();
    frame(&mut state, &mut input, &mut oam, NONE);
    assert_eq!(state.cursor().bounce_timer(), 40);
    assert_eq!(oam.commit()[3].y, 12);
    frame(&mut state, &mut input, &mut oam, A);
    assert_eq!(state.cursor().bounce_timer(), 0);
    assert_eq!(oam.commit()[3].y, 10);
    frame(&mut state, &mut input, &mut oam, RIGHT);
    assert_eq!(state.cursor().bounce_timer(), 0);
    frame(&mut state, &mut input, &mut oam, A);
    assert_eq!(state.selected_unit(), None);
    assert_eq!(state.cursor().bounce_timer(), 40);
    frame(&mut state, &mut input, &mut oam, DOWN);
    assert_eq!(state.cursor().bounce_timer(), 41);
    frame(&mut state, &mut input, &mut oam, NONE);
    assert_eq!(state.cursor().bounce_timer(), 42);
}

#[test]
fn units_animate_with_every_frame() {
    let level = small_level();
    let mut state = GameState::new(&level, &art());
    let mut input = Input::new();
    let mut oam = Oam::new();
    for _ in 0..17 {
        frame(&mut state, &mut input, &mut oam, NONE);
    }
    assert_eq!(state.unit(0).animation_timer(), 17);
    assert_eq!(state.unit(1).animation_timer(), 17);
    assert_eq!(oam.commit()[4].tile_id, 5);
    assert_eq!(oam.commit()[5].tile_id, 21);
}
