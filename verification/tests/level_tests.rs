use frame_core::level::{
    bool_property, grid_coordinate, load_level, unit_from_object, LevelData, LevelError,
    LevelWarning, MapDocument, MapLayer, MapObject, Property, PropertyValue, TileGrid, CELL_PIXELS,
};

fn grid(width: u32, height: u32, ids: &[u32]) -> MapLayer {
    MapLayer::Tiles(TileGrid { width, height, tiles: ids.iter().map(|id| Some(*id)).collect() })
}

fn property(name: &str, value: PropertyValue) -> Property {
    Property { name: name.to_string(), value }
}

fn object(name: &str, x: i32, y: i32, properties: Vec<Property>) -> MapObject {
    MapObject { name: name.to_string(), x, y, properties }
}

fn assert_level(level: &LevelData, width: u16, height: u16, map: &[u8], units: usize) {
    assert_eq!((level.width, level.height), (width, height));
    assert_eq!(level.map, map);
    assert_eq!(level.units.len(), units);
}

#[test]
fn level_conversion_end_to_end() {
    let document = MapDocument {
        layers: vec![
            grid(2, 1, &[3, 5]),
            MapLayer::Objects(vec![object(
                "Boss",
                24,
                8,
                vec![property("boss", PropertyValue::Bool(true))],
            )]),
        ],
    };
    let (level, warnings) = load_level(&document);
    let level = level.unwrap();
    assert_level(&level, 2, 1, &[3, 5], 1);
    let unit = &level.units[0];
    assert_eq!(unit.name, "Boss");
    assert_eq!((unit.x, unit.y), (2, 1));
    assert!(unit.is_boss);
    assert_eq!(unit.level, 1);
    assert!(warnings.is_empty());
}

#[test]
fn image_layer_is_passed_over_with_a_warning() {
    let with_image = MapDocument {
        layers: vec![MapLayer::Image, grid(2, 2, &[1, 2, 3, 4]), MapLayer::Image],
    };
    let without = MapDocument { layers: vec![grid(2, 2, &[1, 2, 3, 4])] };
    let (a, warnings_a) = load_level(&with_image);
    let (b, warnings_b) = load_level(&without);
    let (a, b) = (a.unwrap(), b.unwrap());
    assert_level(&a, 2, 2, &[1, 2, 3, 4], 0);
    assert_level(&b, 2, 2, &[1, 2, 3, 4], 0);
    assert_eq!(warnings_a, vec![LevelWarning::ImageLayer, LevelWarning::ImageLayer]);
    assert!(warnings_b.is_empty());
}

#[test]
fn a_document_without_a_tile_layer_fails() {
    let (level, warnings) = load_level(&MapDocument { layers: Vec::new() });
    assert_eq!(level.err(), Some(LevelError::NoTileLayer));
    assert!(warnings.is_empty());
    let document = MapDocument {
        layers: vec![
            MapLayer::Image,
            MapLayer::Objects(vec![object("a", 0, 0, Vec::new())]),
            MapLayer::InfiniteTiles,
            MapLayer::Group,
        ],
    };
    let (level, warnings) = load_level(&document);
    assert_eq!(level.err(), Some(LevelError::NoTileLayer));
    assert_eq!(
        warnings,
        vec![LevelWarning::ImageLayer, LevelWarning::InfiniteLayer, LevelWarning::GroupLayer]
    );
}

#[test]
fn a_second_tile_layer_is_skipped() {
    let document = MapDocument { layers: vec![grid(1, 1, &[7]), grid(2, 1, &[8, 9])] };
    let (level, warnings) = load_level(&document);
    assert_level(&level.unwrap(), 1, 1, &[7], 0);
    assert_eq!(warnings, vec![LevelWarning::ExtraTileLayer]);
}

#[test]
fn blank_cells_become_zero_with_a_warning() {
    let tiles = vec![Some(4), None, None, Some(9), Some(0), None];
    let document = MapDocument {
        layers: vec![MapLayer::Group, MapLayer::Tiles(TileGrid { width: 3, height: 2, tiles })],
    };
    let (level, warnings) = load_level(&document);
    assert_level(&level.unwrap(), 3, 2, &[4, 0, 0, 9, 0, 0], 0);
    assert_eq!(
        warnings,
        vec![
            LevelWarning::GroupLayer,
            LevelWarning::BlankTile { layer: 1, x: 1, y: 0 },
            LevelWarning::BlankTile { layer: 1, x: 2, y: 0 },
            LevelWarning::BlankTile { layer: 1, x: 2, y: 1 },
        ]
    );
}

#[test]
fn tile_identifiers_are_cut_to_a_byte() {
    let document = MapDocument { layers: vec![grid(4, 1, &[255, 256, 257, 0xFFFF_FFFF])] };
    let (level, _) = load_level(&document);
    assert_level(&level.unwrap(), 4, 1, &[255, 0, 1, 255], 0);
}

#[test]
fn sizes_are_cut_to_sixteen_bits() {
    let document = MapDocument {
        layers: vec![MapLayer::Tiles(TileGrid { width: 0x1_0002, height: 0, tiles: Vec::new() })],
    };
    let (level, _) = load_level(&document);
    assert_level(&level.unwrap(), 2, 0, &[], 0);
}

#[test]
fn units_come_from_every_object_layer_in_order() {
    let document = MapDocument {
        layers: vec![
            MapLayer::Objects(vec![object("first", 0, 0, Vec::new())]),
            grid(1, 1, &[1]),
            MapLayer::Objects(vec![object("", 16, 32, Vec::new()), object("third", 100, 7, Vec::new())]),
        ],
    };
    let (level, warnings) = load_level(&document);
    let level = level.unwrap();
    assert!(warnings.is_empty());
    let seen: Vec<(&str, u16, u16, bool, u8)> =
        level.units.iter().map(|u| (u.name.as_str(), u.x, u.y, u.is_boss, u.level)).collect();
    assert_eq!(
        seen,
        vec![("first", 0, 0, false, 1), ("Enemy", 1, 2, false, 1), ("third", 6, 0, false, 1)]
    );
}

#[test]
fn grid_coordinate_centres_then_divides() {
    assert_eq!(CELL_PIXELS, 16);
    assert_eq!(grid_coordinate(0), 0);
    assert_eq!(grid_coordinate(7), 0);
    assert_eq!(grid_coordinate(8), 1);
    assert_eq!(grid_coordinate(23), 1);
    assert_eq!(grid_coordinate(24), 2);
    assert_eq!(grid_coordinate(160), 10);
}

#[test]
fn grid_coordinate_stays_in_sixteen_bits() {
    assert_eq!(grid_coordinate(-1), 0);
    assert_eq!(grid_coordinate(-8), 0);
    assert_eq!(grid_coordinate(-9), 0);
    assert_eq!(grid_coordinate(i32::MIN), 0);
    assert_eq!(grid_coordinate(65527), 4095);
    assert_eq!(grid_coordinate(65528), 4095);
    assert_eq!(grid_coordinate(i32::MAX), 4095);
    assert_eq!(grid_coordinate(65519), 4095);
    assert_eq!(grid_coordinate(65511), 4094);
}

#[test]
fn bool_property_reads_booleans_only() {
    let properties = vec![
        property("level", PropertyValue::Int(3)),
        property("boss", PropertyValue::Bool(true)),
        property("weak", PropertyValue::Bool(false)),
        property("title", PropertyValue::Text("boss".to_string())),
        property("shape", PropertyValue::Other),
    ];
    assert_eq!(bool_property(&properties, "boss"), Some(true));
    assert_eq!(bool_property(&properties, "weak"), Some(false));
    assert_eq!(bool_property(&properties, "level"), None);
    assert_eq!(bool_property(&properties, "title"), None);
    assert_eq!(bool_property(&properties, "shape"), None);
    assert_eq!(bool_property(&properties, "missing"), None);
    assert_eq!(bool_property(&properties, "Boss"), None);
    assert_eq!(bool_property(&Vec::new(), "boss"), None);
}

#[test]
fn bool_property_takes_the_first_of_a_name() {
    let properties = vec![
        property("boss", PropertyValue::Int(1)),
        property("boss", PropertyValue::Bool(true)),
    ];
    assert_eq!(bool_property(&properties, "boss"), None);
}

#[test]
fn unit_from_object_fills_the_defaults() {
    let unit = unit_from_object(&object("", 40, 39, Vec::new()));
    assert_eq!(unit.name, "Enemy");
    assert_eq!((unit.x, unit.y, unit.is_boss, unit.level), (3, 2, false, 1));
    let unit = unit_from_object(&object(
        "Rook",
        -100,
        1_000_000,
        vec![property("boss", PropertyValue::Text("yes".to_string()))],
    ));
    assert_eq!(unit.name, "Rook");
    assert_eq!((unit.x, unit.y, unit.is_boss, unit.level), (0, 4095, false, 1));
}
