use frame_core::game::Artwork;
use frame_core::level::{LevelData, MapDocument, MapLayer, TileGrid};
use frame_core::oam::{H16x8, H32x16, H32x8, H64x32, V16x32, V32x64, V8x16, V8x32};
use frame_core::transform::Vector2D;
use frame_core::vram::{colours_fit_at, tiles_fit_at};

fn level(width: u16, height: u16, cells: usize) -> LevelData {
    LevelData { width, height, map: vec![0; cells], units: Vec::new() }
}

#[test]
fn wide_and_tall_size_classes_are_numbered() {
    assert_eq!((H16x8, H32x8, H32x16, H64x32), (0, 1, 2, 3));
    assert_eq!((V8x16, V8x32, V16x32, V32x64), (0, 1, 2, 3));
}

#[test]
fn default_vector_is_the_origin() {
    let v: Vector2D<i16> = Vector2D::default();
    assert_eq!(v, Vector2D::new());
}

#[test]
fn tiles_fit_up_to_the_last_word() {
    assert!(tiles_fit_at(0, 0x1000, 0x1000));
    assert!(!tiles_fit_at(0, 0x1001, 0x1000));
    assert!(tiles_fit_at(511, 8, 0x1000));
    assert!(!tiles_fit_at(511, 9, 0x1000));
    assert!(!tiles_fit_at(512, 1, 0x1000));
    assert!(tiles_fit_at(512, 0, 0x1000));
    assert!(tiles_fit_at(usize::MAX, 0, 0x1000));
    assert!(!tiles_fit_at(usize::MAX, 1, 0x1000));
    assert!(tiles_fit_at(1, 1, 9));
    assert!(!tiles_fit_at(1, 2, 9));
}

#[test]
fn colours_fit_behind_the_transparency_slot() {
    assert!(colours_fit_at(0, 255));
    assert!(!colours_fit_at(0, 256));
    assert!(colours_fit_at(15, 15));
    assert!(!colours_fit_at(15, 16));
    assert!(colours_fit_at(14, 31));
    assert!(!colours_fit_at(16, 1));
    assert!(colours_fit_at(16, 0));
    assert!(colours_fit_at(usize::MAX, 0));
}

#[test]
fn level_check_asks_for_one_byte_a_cell_on_one_screen() {
    assert!(level(2, 3, 6).check());
    assert!(!level(2, 3, 5).check());
    assert!(!level(2, 3, 7).check());
    assert!(level(16, 16, 256).check());
    assert!(!level(17, 1, 17).check());
    assert!(!level(1, 17, 17).check());
    assert!(level(0, 0, 0).check());
    assert!(level(0, 16, 0).check());
    assert!(!level(0, 0, 1).check());
    assert!(!level(u16::MAX, u16::MAX, 0).check());
}

#[test]
fn grid_check_asks_for_one_cell_a_position() {
    let grid = |width, height, cells: usize| TileGrid { width, height, tiles: vec![None; cells] };
    assert!(grid(3, 2, 6).check());
    assert!(!grid(3, 2, 5).check());
    assert!(grid(0, u32::MAX, 0).check());
    assert!(!grid(u32::MAX, u32::MAX, 1).check());
    assert!(grid(100, 100, 10_000).check());
}

#[test]
fn document_check_looks_at_every_tile_layer() {
    let good = MapLayer::Tiles(TileGrid { width: 1, height: 1, tiles: vec![Some(1)] });
    let bad = MapLayer::Tiles(TileGrid { width: 2, height: 1, tiles: vec![Some(1)] });
    assert!(MapDocument { layers: Vec::new() }.check());
    assert!(MapDocument { layers: vec![MapLayer::Image, good, MapLayer::Group] }.check());
    let good = MapLayer::Tiles(TileGrid { width: 1, height: 1, tiles: vec![Some(1)] });
    assert!(!MapDocument { layers: vec![good, MapLayer::InfiniteTiles, bad] }.check());
}

#[test]
fn artwork_check_follows_the_order_of_allocation() {
    let words = vec![0u32; 0x1000];
    let colours = vec![0u16; 256];
    let art = |tiles: usize, cursor: usize, unit: usize, pal: usize| Artwork {
        tiles: &words[..tiles],
        tiles_palette: &colours[..pal],
        cursor: &words[..cursor],
        cursor_palette: &colours[..pal],
        unit: &words[..unit],
        unit_palette: &colours[..pal],
    };
    assert!(art(32, 8, 128, 15).check());
    assert!(art(0, 0, 0, 0).check());
    assert!(art(0x1000 - 8, 8, 128, 15).check());
    assert!(!art(0x1000 - 7, 8, 128, 15).check());
    assert!(art(8, 0x1000 - 256, 128, 15).check());
    assert!(!art(8, 0x1000 - 255, 128, 15).check());
    assert!(art(8, 0, 0x800, 15).check());
    assert!(!art(8, 8, 0x800, 15).check());
    assert!(art(8, 8, 8, 80).check());
    assert!(!art(8, 8, 8, 81).check());
    assert!(art(8, 8, 8, 79).check());
    assert!(!art(8, 8, 8, 256).check());
}
