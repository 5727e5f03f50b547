//! Conversion of a tile-grid map document into packed level data.

use vstd::prelude::*;

verus! {

/// Side of a grid cell, in pixels.
pub const CELL_PIXELS: u16 = 16;

/// Most cells of a level along each side that fit the screen's map of 32 by
/// 32 entries.
pub const SCREEN_CELLS: u16 = 16;

/// A unit placed on the map.
#[derive(Debug)]
pub struct UnitData {
    pub name: String,
    pub x: u16,
    pub y: u16,
    /// Whether the unit is marked as a boss, by the boolean property `boss`
    /// of its map object.
    pub is_boss: bool,
    pub level: u8,
}

/// A level: the grid of tile indices, row by row, and the units on it.
#[derive(Debug)]
pub struct LevelData {
    pub width: u16,
    pub height: u16,
    pub map: Vec<u8>,
    pub units: Vec<UnitData>,
}

/// What a [`UnitData`] holds.
pub ghost struct UnitModel {
    pub name: Seq<char>,
    pub x: u16,
    pub y: u16,
    pub is_boss: bool,
    pub level: u8,
}

/// What a [`LevelData`] holds.
pub ghost struct LevelModel {
    pub width: u16,
    pub height: u16,
    pub map: Seq<u8>,
    pub units: Seq<UnitModel>,
}

impl View for UnitData {
    type V = UnitModel;

    open spec fn view(&self) -> UnitModel {
        UnitModel { name: self.name@, x: self.x, y: self.y, is_boss: self.is_boss, level: self.level }
    }
}

impl View for LevelData {
    type V = LevelModel;

    open spec fn view(&self) -> LevelModel {
        LevelModel {
            width: self.width,
            height: self.height,
            map: self.map@,
            units: unit_models(self.units@),
        }
    }
}

/// The models of a sequence of units.
pub open spec fn unit_models(units: Seq<UnitData>) -> Seq<UnitModel> {
    Seq::new(units.len(), |i: int| units[i]@)
}

/// The value of a custom property of a map object.
#[derive(Debug)]
pub enum PropertyValue {
    Bool(bool),
    Int(i32),
    Text(String),
    /// A value of any other kind.
    Other,
}

/// A custom property of a map object.
#[derive(Debug)]
pub struct Property {
    pub name: String,
    pub value: PropertyValue,
}

/// An object of an object layer. The position is in whole pixels.
#[derive(Debug)]
pub struct MapObject {
    pub name: String,
    pub x: i32,
    pub y: i32,
    pub properties: Vec<Property>,
}

/// A finite tile layer: `width * height` cells, row by row. A cell holds the
/// identifier of its tile, or nothing where the cell is blank.
#[derive(Debug)]
pub struct TileGrid {
    pub width: u32,
    pub height: u32,
    pub tiles: Vec<Option<u32>>,
}

/// A layer of a map document.
#[derive(Debug)]
pub enum MapLayer {
    Tiles(TileGrid),
    InfiniteTiles,
    Objects(Vec<MapObject>),
    Image,
    Group,
}

/// A map document: its layers, from the bottom up.
#[derive(Debug)]
pub struct MapDocument {
    pub layers: Vec<MapLayer>,
}

/// Something in a map document that the conversion passed over.
#[derive(Clone, Copy, Debug, PartialEq, Eq, Structural)]
pub enum LevelWarning {
    /// A finite tile layer after the first one; it was skipped.
    ExtraTileLayer,
    /// The cell at (`x`, `y`) of layer `layer` is blank; it was encoded as 0.
    BlankTile { layer: usize, x: u32, y: u32 },
    ImageLayer,
    GroupLayer,
    InfiniteLayer,
}

/// Why a map document has no level.
#[derive(Clone, Copy, Debug, PartialEq, Eq, Structural)]
pub enum LevelError {
    /// The document has no finite tile layer.
    NoTileLayer,
}

impl LevelData {
    /// The map holds one byte for each cell.
    pub open spec fn wf(self) -> bool {
        self.map@.len() == self.width * self.height
    }

    /// The level is no larger than the screen's map of 32 by 32 entries,
    /// two for each cell along each side.
    pub open spec fn fits_screen(self) -> bool {
        self.width <= 16 && self.height <= 16
    }

    /// Whether the map holds one byte for each cell and the level is no
    /// larger than the screen's map.
    pub fn check(&self) -> (ok: bool)
        ensures
            ok == (self.wf() && self.fits_screen()),
    {
        if self.width > SCREEN_CELLS || self.height > SCREEN_CELLS {
            return false;
        }
        assert(self.width * self.height <= 256) by (nonlinear_arith)
            requires
                0 <= self.width <= 16,
                0 <= self.height <= 16,
        ;
        let cells: usize = self.width as usize * self.height as usize;
        self.map.len() == cells
    }
}

impl TileGrid {
    /// The grid holds one cell for each position.
    pub open spec fn wf(self) -> bool {
        self.tiles@.len() == self.width * self.height
    }

    /// Whether the grid holds one cell for each position.
    pub fn check(&self) -> (ok: bool)
        ensures
            ok == self.wf(),
    {
        assert(self.width * self.height <= 0xFFFF_FFFF * 0xFFFF_FFFF) by (nonlinear_arith)
            requires
                0 <= self.width <= 0xFFFF_FFFF,
                0 <= self.height <= 0xFFFF_FFFF,
        ;
        let cells: u64 = self.width as u64 * self.height as u64;
        self.tiles.len() as u64 == cells
    }
}

impl MapLayer {
    pub open spec fn wf(self) -> bool {
        match self {
            MapLayer::Tiles(grid) => grid.wf(),
            _ => true,
        }
    }
}

impl MapDocument {
    /// Every finite tile layer holds one cell for each position.
    pub open spec fn wf(self) -> bool {
        forall|i: int| 0 <= i < self.layers@.len() ==> (#[trigger] self.layers@[i]).wf()
    }

    /// Whether every finite tile layer holds one cell for each position.
    pub fn check(&self) -> (ok: bool)
        ensures
            ok == self.wf(),
    {
        let mut i: usize = 0;
        while i < self.layers.len()
            invariant
                i <= self.layers@.len(),
                forall|j: int| 0 <= j < i ==> (#[trigger] self.layers@[j]).wf(),
            decreases self.layers@.len() - i,
        {
            let ok = match &self.layers[i] {
                MapLayer::Tiles(grid) => grid.check(),
                _ => true,
            };
            if !ok {
                assert(!self.layers@[i as int].wf());
                return false;
            }
            i += 1;
        }
        true
    }
}

/// The byte that stands for a cell: the low eight bits of its tile
/// identifier, and 0 for a blank cell.
pub open spec fn cell_byte(cell: Option<u32>) -> u8 {
    match cell {
        Some(id) => (id % 256) as u8,
        None => 0u8,
    }
}

/// The bytes that stand for the cells of a grid.
pub open spec fn grid_bytes(tiles: Seq<Option<u32>>) -> Seq<u8> {
    Seq::new(tiles.len(), |i: int| cell_byte(tiles[i]))
}

/// The warnings for the blank cells among the first `upto` cells of a grid
/// that is `width` cells wide, in the order of the cells.
pub open spec fn blank_warnings(layer: usize, width: u32, tiles: Seq<Option<u32>>, upto: int) -> Seq<
    LevelWarning,
>
    decreases upto,
{
    if upto <= 0 {
        Seq::empty()
    } else {
        let before = blank_warnings(layer, width, tiles, upto - 1);
        let cell = upto - 1;
        if tiles[cell] is None {
            before.push(
                LevelWarning::BlankTile {
                    layer,
                    x: (cell % (width as int)) as u32,
                    y: (cell / (width as int)) as u32,
                },
            )
        } else {
            before
        }
    }
}

/// The grid coordinate of a pixel coordinate: half a cell is added, so that
/// an object that sits across a cell border lands in the nearer cell, the
/// sum is brought into the range of sixteen bits, and divided by the cell
/// size.
pub open spec fn grid_coord(pixel: int) -> int {
    let centred = pixel + 8;
    if centred < 0 {
        0
    } else if centred > 0xFFFF {
        0xFFFFint / 16
    } else {
        centred / 16
    }
}

/// The value of the first property named `name`, if there is one.
pub open spec fn find_property(properties: Seq<Property>, name: Seq<char>) -> Option<PropertyValue>
    decreases properties.len(),
{
    if properties.len() == 0 {
        None
    } else if properties[0].name@ == name {
        Some(properties[0].value)
    } else {
        find_property(properties.drop_first(), name)
    }
}

/// The value of the property `name` where it is a boolean.
pub open spec fn spec_bool_property(properties: Seq<Property>, name: Seq<char>) -> Option<bool> {
    match find_property(properties, name) {
        Some(PropertyValue::Bool(value)) => Some(value),
        _ => None,
    }
}

/// The name given to a unit whose map object has none.
pub open spec fn default_name() -> Seq<char> {
    "Enemy"@
}

/// The unit that a map object stands for.
pub open spec fn unit_model(object: MapObject) -> UnitModel {
    UnitModel {
        name: if object.name@.len() == 0 {
            default_name()
        } else {
            object.name@
        },
        x: grid_coord(object.x as int) as u16,
        y: grid_coord(object.y as int) as u16,
        is_boss: match spec_bool_property(object.properties@, "boss"@) {
            Some(value) => value,
            None => false,
        },
        level: 1,
    }
}

/// The units that the objects of a layer stand for.
pub open spec fn object_units(objects: Seq<MapObject>) -> Seq<UnitModel> {
    Seq::new(objects.len(), |i: int| unit_model(objects[i]))
}

/// What the conversion has gathered after some of the layers.
pub ghost struct Scan {
    /// Whether a finite tile layer has been seen.
    pub found: bool,
    pub level: LevelModel,
    pub warnings: Seq<LevelWarning>,
}

/// The state before any layer.
pub open spec fn scan_start() -> Scan {
    Scan {
        found: false,
        level: LevelModel { width: 0, height: 0, map: Seq::empty(), units: Seq::empty() },
        warnings: Seq::empty(),
    }
}

/// The state after the layer `layer`, which is number `index` of its
/// document, given the state before it.
pub open spec fn scan_step(before: Scan, index: usize, layer: MapLayer) -> Scan {
    match layer {
        MapLayer::Tiles(grid) => if before.found {
            Scan { warnings: before.warnings.push(LevelWarning::ExtraTileLayer), ..before }
        } else {
            Scan {
                found: true,
                level: LevelModel {
                    width: (grid.width % 0x1_0000) as u16,
                    height: (grid.height % 0x1_0000) as u16,
                    map: grid_bytes(grid.tiles@),
                    units: before.level.units,
                },
                warnings: before.warnings + blank_warnings(
                    index,
                    grid.width,
                    grid.tiles@,
                    grid.tiles@.len() as int,
                ),
            }
        },
        MapLayer::Objects(objects) => Scan {
            level: LevelModel {
                units: before.level.units + object_units(objects@),
                ..before.level
            },
            ..before
        },
        MapLayer::Image => Scan {
            warnings: before.warnings.push(LevelWarning::ImageLayer),
            ..before
        },
        MapLayer::Group => Scan {
            warnings: before.warnings.push(LevelWarning::GroupLayer),
            ..before
        },
        MapLayer::InfiniteTiles => Scan {
            warnings: before.warnings.push(LevelWarning::InfiniteLayer),
            ..before
        },
    }
}

/// The state after the first `n` layers.
pub open spec fn scan_layers(layers: Seq<MapLayer>, n: int) -> Scan
    decreases n,
{
    if n <= 0 {
        scan_start()
    } else {
        scan_step(scan_layers(layers, n - 1), (n - 1) as usize, layers[n - 1])
    }
}

/// The state after all the layers of a document.
pub open spec fn scan_document(document: MapDocument) -> Scan {
    scan_layers(document.layers@, document.layers@.len() as int)
}

/// The value of the property `property` where it is a boolean, and nothing
/// where there is no such property or it holds something else.
pub fn bool_property(properties: &Vec<Property>, property: &str) -> (value: Option<bool>)
    ensures
        value == spec_bool_property(properties@, property@),
{
    let wanted: String = property.to_owned();
    let mut i: usize = 0;
    assert(properties@.subrange(0, properties@.len() as int) =~= properties@);
    while i < properties.len()
        invariant
            i <= properties@.len(),
            wanted@ == property@,
            find_property(properties@, property@) == find_property(
                properties@.subrange(i as int, properties@.len() as int),
                property@,
            ),
        decreases properties@.len() - i,
    {
        let ghost rest = properties@.subrange(i as int, properties@.len() as int);
        assert(rest[0] == properties@[i as int]);
        assert(rest.drop_first() =~= properties@.subrange(i + 1, properties@.len() as int));
        if properties[i].name == wanted {
            return match &properties[i].value {
                PropertyValue::Bool(value) => Some(*value),
                _ => None,
            };
        }
        i += 1;
    }
    None
}

/// The grid coordinate of a pixel coordinate.
pub fn grid_coordinate(pixel: i32) -> (cell: u16)
    ensures
        cell == grid_coord(pixel as int),
{
    if pixel < -8 {
        0
    } else if pixel > 0xFFFF - 8 {
        0xFFFF / CELL_PIXELS
    } else {
        let centred: i32 = pixel + 8;
        (centred / 16) as u16
    }
}

/// The unit that a map object stands for.
pub fn unit_from_object(object: &MapObject) -> (unit: UnitData)
    ensures
        unit@ == unit_model(*object),
{
    let name: String = if object.name.as_str().is_empty() {
        "Enemy".to_owned()
    } else {
        object.name.clone()
    };
    let is_boss: bool = match bool_property(&object.properties, "boss") {
        Some(value) => value,
        None => false,
    };
    UnitData {
        name,
        x: grid_coordinate(object.x),
        y: grid_coordinate(object.y),
        is_boss,
        level: 1,
    }
}

/// Appends to `map` the bytes of the cells of `grid`, and to `warnings` one
/// warning for each blank cell.
fn encode_grid(grid: &TileGrid, layer: usize, map: &mut Vec<u8>, warnings: &mut Vec<LevelWarning>)
    requires
        grid.wf(),
    ensures
        final(map)@ == old(map)@ + grid_bytes(grid.tiles@),
        final(warnings)@ == old(warnings)@ + blank_warnings(
            layer,
            grid.width,
            grid.tiles@,
            grid.tiles@.len() as int,
        ),
{
    let ghost map_before = map@;
    let ghost warnings_before = warnings@;
    let mut cell: usize = 0;
    while cell < grid.tiles.len()
        invariant
            grid.wf(),
            cell <= grid.tiles@.len(),
            map@ == map_before + grid_bytes(grid.tiles@).subrange(0, cell as int),
            warnings@ == warnings_before + blank_warnings(
                layer,
                grid.width,
                grid.tiles@,
                cell as int,
            ),
        decreases grid.tiles@.len() - cell,
    {
        proof {
            let w = grid.width as int;
            let h = grid.height as int;
            assert(w > 0 && cell as int / w < h && (cell as int) % w < w) by (nonlinear_arith)
                requires
                    0 <= cell < w * h,
                    0 <= w,
                    0 <= h,
            ;
        }
        let byte: u8 = match grid.tiles[cell] {
            Some(id) => (id % 256) as u8,
            None => {
                let x: u32 = (cell % (grid.width as usize)) as u32;
                let y: u32 = (cell / (grid.width as usize)) as u32;
                warnings.push(LevelWarning::BlankTile { layer, x, y });
                0
            },
        };
        map.push(byte);
        assert(grid_bytes(grid.tiles@).subrange(0, cell + 1) =~= grid_bytes(grid.tiles@).subrange(
            0,
            cell as int,
        ).push(byte));
        cell += 1;
    }
    assert(grid_bytes(grid.tiles@).subrange(0, cell as int) =~= grid_bytes(grid.tiles@));
}

/// Appends to `units` the units that `objects` stand for.
fn place_units(objects: &Vec<MapObject>, units: &mut Vec<UnitData>)
    ensures
        unit_models(final(units)@) == unit_models(old(units)@) + object_units(objects@),
{
    let ghost before = unit_models(units@);
    let mut i: usize = 0;
    while i < objects.len()
        invariant
            i <= objects@.len(),
            unit_models(units@) == before + object_units(objects@).subrange(0, i as int),
        decreases objects@.len() - i,
    {
        let ghost held = units@;
        let unit = unit_from_object(&objects[i]);
        units.push(unit);
        assert(unit_models(units@) =~= unit_models(held).push(unit@));
        assert(object_units(objects@).subrange(0, i + 1) =~= object_units(objects@).subrange(
            0,
            i as int,
        ).push(unit@));
        i += 1;
    }
    assert(object_units(objects@).subrange(0, i as int) =~= object_units(objects@));
}

/// Converts a map document into level data.
///
/// The first finite tile layer gives the size and the tiles of the level; a
/// later one is skipped. Every object of every object layer becomes a unit,
/// in the order of the document. Image layers, group layers and infinite
/// tile layers are passed over. The second component lists, in the order of
/// the document, what was skipped, passed over or found blank. The
/// conversion fails exactly when the document has no finite tile layer.
pub fn load_level(document: &MapDocument) -> (converted: (
    Result<LevelData, LevelError>,
    Vec<LevelWarning>,
))
    requires
        document.wf(),
    ensures
        converted.1@ == scan_document(*document).warnings,
        scan_document(*document).found ==> converted.0 is Ok && converted.0->Ok_0@ == scan_document(
            *document,
        ).level,
        !scan_document(*document).found ==> converted.0 == Err::<LevelData, LevelError>(
            LevelError::NoTileLayer,
        ),
{
    let mut has_map_layer: bool = false;
    let mut level = LevelData { width: 0, height: 0, map: Vec::new(), units: Vec::new() };
    let mut warnings: Vec<LevelWarning> = Vec::new();
    assert(unit_models(level.units@) =~= Seq::empty());
    let mut i: usize = 0;
    while i < document.layers.len()
        invariant
            document.wf(),
            i <= document.layers@.len(),
            has_map_layer == scan_layers(document.layers@, i as int).found,
            !has_map_layer ==> level.map@.len() == 0,
            level@ == scan_layers(document.layers@, i as int).level,
            warnings@ == scan_layers(document.layers@, i as int).warnings,
        decreases document.layers@.len() - i,
    {
        let ghost before = scan_layers(document.layers@, i as int);
        assert(document.layers@[i as int].wf());
        match &document.layers[i] {
            MapLayer::Tiles(grid) => {
                if has_map_layer {
                    warnings.push(LevelWarning::ExtraTileLayer);
                } else {
                    has_map_layer = true;
                    level.width = (grid.width % 0x1_0000) as u16;
                    level.height = (grid.height % 0x1_0000) as u16;
                    assert(level.map@ =~= Seq::empty());
                    encode_grid(grid, i, &mut level.map, &mut warnings);
                    assert(level.map@ =~= grid_bytes(grid.tiles@));
                }
            },
            MapLayer::Objects(objects) => {
                place_units(objects, &mut level.units);
            },
            MapLayer::Image => {
                warnings.push(LevelWarning::ImageLayer);
            },
            MapLayer::Group => {
                warnings.push(LevelWarning::GroupLayer);
            },
            MapLayer::InfiniteTiles => {
                warnings.push(LevelWarning::InfiniteLayer);
            },
        }
        i += 1;
    }
    if has_map_layer {
        (Ok(level), warnings)
    } else {
        (Err(LevelError::NoTileLayer), warnings)
    }
}

/// What a layer adds to the level and to the question whether a tile layer
/// has been seen does not depend on the layer's number, nor on the warnings
/// so far.
proof fn lemma_step_level(a: Scan, b: Scan, i: usize, j: usize, layer: MapLayer)
    requires
        a.found == b.found,
        a.level == b.level,
    ensures
        scan_step(a, i, layer).found == scan_step(b, j, layer).found,
        scan_step(a, i, layer).level == scan_step(b, j, layer).level,
{
}

/// Layers that are passed over leave no trace in the level. Putting an
/// image layer into a document, at any place, changes neither whether the
/// conversion succeeds nor the level that it gives; put at the end, it adds
/// one warning to those of the document without it.
pub proof fn lemma_image_layer_ignored(layers: Seq<MapLayer>, at: int)
    requires
        0 <= at <= layers.len(),
    ensures
        scan_layers(layers.insert(at, MapLayer::Image), layers.len() as int + 1).found == scan_layers(
            layers,
            layers.len() as int,
        ).found,
        scan_layers(layers.insert(at, MapLayer::Image), layers.len() as int + 1).level == scan_layers(
            layers,
            layers.len() as int,
        ).level,
        at == layers.len() ==> scan_layers(
            layers.insert(at, MapLayer::Image),
            layers.len() as int + 1,
        ).warnings == scan_layers(layers, layers.len() as int).warnings.push(
            LevelWarning::ImageLayer,
        ),
{
    let with_image = layers.insert(at, MapLayer::Image);
    lemma_same_prefix(layers, with_image, at);
    assert(with_image[at] == MapLayer::Image);
    lemma_after_image(layers, at, layers.len() as int);
}

/// Documents that agree on their first `n` layers agree on what the
/// conversion has gathered after them.
proof fn lemma_same_prefix(a: Seq<MapLayer>, b: Seq<MapLayer>, n: int)
    requires
        0 <= n <= a.len(),
        n <= b.len(),
        forall|i: int| 0 <= i < n ==> a[i] == b[i],
    ensures
        scan_layers(a, n) == scan_layers(b, n),
    decreases n,
{
    if n > 0 {
        lemma_same_prefix(a, b, n - 1);
    }
}

/// After an image layer put in at `at`, the first `n + 1` layers give the
/// level that the first `n` layers of the document without it give.
proof fn lemma_after_image(layers: Seq<MapLayer>, at: int, n: int)
    requires
        0 <= at <= n <= layers.len(),
    ensures
        scan_layers(layers.insert(at, MapLayer::Image), n + 1).found == scan_layers(
            layers,
            n,
        ).found,
        scan_layers(layers.insert(at, MapLayer::Image), n + 1).level == scan_layers(
            layers,
            n,
        ).level,
    decreases n,
{
    let with_image = layers.insert(at, MapLayer::Image);
    if n == at {
        lemma_same_prefix(layers, with_image, at);
        assert(with_image[at] == MapLayer::Image);
    } else {
        lemma_after_image(layers, at, n - 1);
        assert(with_image[n] == layers[n - 1]);
        lemma_step_level(
            scan_layers(with_image, n),
            scan_layers(layers, n - 1),
            n as usize,
            (n - 1) as usize,
            layers[n - 1],
        );
    }
}

/// The conversion finds a tile layer exactly where one of the layers is a
/// finite tile layer.
pub proof fn lemma_found_iff_tile_layer(layers: Seq<MapLayer>, n: int)
    requires
        0 <= n <= layers.len(),
    ensures
        scan_layers(layers, n).found <==> exists|i: int| 0 <= i < n && layers[i] is Tiles,
    decreases n,
{
    if n > 0 {
        lemma_found_iff_tile_layer(layers, n - 1);
        if scan_layers(layers, n).found {
            if layers[n - 1] is Tiles {
            } else {
                let i = choose|i: int| 0 <= i < n - 1 && layers[i] is Tiles;
                assert(0 <= i < n && layers[i] is Tiles);
            }
        }
        if exists|i: int| 0 <= i < n && layers[i] is Tiles {
            let i = choose|i: int| 0 <= i < n && layers[i] is Tiles;
            if i < n - 1 {
                assert(0 <= i < n - 1 && layers[i] is Tiles);
            }
        }
    }
}

/// The level is made of the first finite tile layer: its size, cut to
/// sixteen bits, and one byte for each of its cells.
pub proof fn lemma_first_tile_layer(layers: Seq<MapLayer>, first: int, n: int)
    requires
        0 <= first < n <= layers.len(),
        layers[first] is Tiles,
        forall|i: int| 0 <= i < first ==> !(layers[i] is Tiles),
    ensures
        scan_layers(layers, n).found,
        scan_layers(layers, n).level.width == layers[first]->Tiles_0.width % 0x1_0000,
        scan_layers(layers, n).level.height == layers[first]->Tiles_0.height % 0x1_0000,
        scan_layers(layers, n).level.map == grid_bytes(layers[first]->Tiles_0.tiles@),
        scan_layers(layers, n).level.map.len() == layers[first]->Tiles_0.tiles@.len(),
    decreases n,
{
    if n == first + 1 {
        lemma_found_iff_tile_layer(layers, first);
    } else {
        lemma_first_tile_layer(layers, first, n - 1);
    }
}

} // verus!
