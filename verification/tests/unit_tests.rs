use frame_core::oam::{DisplayStyle, Oam, ObjEntry};
use frame_core::transform::Vector2D;
use frame_core::unit::Unit;
use frame_core::vram::Vram;

fn fresh_oam() -> Oam {
    let mut oam = Oam::new();
    oam.clean();
    oam.clean();
    oam
}

fn unit_at_tile(tile_words: usize, colours: usize) -> Unit {
    let mut vram = Vram::new();
    vram.load_4bpp_obj_texture(&vec![0u32; tile_words]);
    vram.load_obj_palette(&vec![0u16; colours]);
    Unit::new(&mut vram, &[0; 128], &[0; 15])
}

fn draw_once(unit: &mut Unit, selected: bool) -> ObjEntry {
    let mut oam = fresh_oam();
    unit.draw(&mut oam, selected);
    assert_eq!(oam.reserved_count(), 1);
    oam.commit()[0]
}

#[test]
fn new_unit_takes_room_and_stands_on_the_origin() {
    let mut vram = Vram::new();
    vram.load_4bpp_obj_texture(&[0; 8]);
    vram.load_obj_palette(&[0; 15]);
    let unit = Unit::new(&mut vram, &[0; 128], &[0; 15]);
    assert_eq!(unit.tile_id(), 1);
    assert_eq!(unit.palette(), 1);
    assert_eq!(unit.position(), Vector2D { x: 0, y: 0 });
    assert_eq!(unit.animation_timer(), 0);
    assert_eq!((vram.obj_index, vram.obj_palette), (17, 2));
}

#[test]
fn unit_sprite_sits_on_its_cell() {
    let mut unit = unit_at_tile(8, 15);
    unit.set_position(Vector2D { x: 3, y: 2 });
    let sprite = draw_once(&mut unit, false);
    assert_eq!(
        sprite,
        ObjEntry {
            y: 32,
            x: 48,
            hflip: false,
            vflip: false,
            size: 1,
            tile_id: 1,
            palbank: 1,
            style: DisplayStyle::Normal,
        }
    );
}

#[test]
fn selected_unit_uses_the_later_texture() {
    let mut unit = unit_at_tile(8, 15);
    assert_eq!(draw_once(&mut unit, true).tile_id, 9);
    assert_eq!(draw_once(&mut unit, false).tile_id, 1);
}

#[test]
fn animation_changes_frame_every_sixteen_draws() {
    let mut unit = unit_at_tile(0, 0);
    let mut tiles = Vec::new();
    for _ in 0..64 {
        tiles.push(draw_once(&mut unit, false).tile_id);
    }
    assert_eq!(&tiles[0..16], &[0; 16]);
    assert_eq!(&tiles[16..32], &[4; 16]);
    assert_eq!(&tiles[32..48], &[0; 16]);
    assert_eq!(&tiles[48..64], &[4; 16]);
    assert_eq!(unit.animation_timer(), 64);
    assert_eq!(draw_once(&mut unit, true).tile_id, 8);
}

#[test]
fn selected_second_frame_adds_both_offsets() {
    let mut unit = unit_at_tile(8, 0);
    for _ in 0..16 {
        draw_once(&mut unit, false);
    }
    assert_eq!(draw_once(&mut unit, true).tile_id, 13);
}

#[test]
fn animation_timer_wraps_after_255() {
    let mut unit = unit_at_tile(0, 0);
    for _ in 0..255 {
        draw_once(&mut unit, false);
    }
    assert_eq!(unit.animation_timer(), 255);
    assert_eq!(draw_once(&mut unit, false).tile_id, 4);
    assert_eq!(unit.animation_timer(), 0);
}

#[test]
fn unit_position_wraps_on_the_screen() {
    let mut unit = unit_at_tile(0, 0);
    unit.set_position(Vector2D { x: -1, y: -1 });
    let sprite = draw_once(&mut unit, false);
    assert_eq!((sprite.y, sprite.x), (240, 496));
    unit.set_position(Vector2D { x: 32, y: 16 });
    let sprite = draw_once(&mut unit, false);
    assert_eq!((sprite.y, sprite.x), (0, 0));
    unit.set_position(Vector2D { x: i16::MAX, y: i16::MIN });
    let sprite = draw_once(&mut unit, false);
    assert_eq!((sprite.y, sprite.x), (0, 496));
}

#[test]
fn tile_index_is_cut_to_ten_bits() {
    let mut vram = Vram::new();
    vram.obj_index = 1020;
    let mut unit = Unit::new(&mut vram, &[], &[]);
    assert_eq!(unit.tile_id(), 1020);
    assert_eq!(draw_once(&mut unit, true).tile_id, 4);
}
