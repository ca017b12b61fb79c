//! Placing the buildings of a city: which scene each gets, where, in which sector, and
//! where the player's hangar goes.

use vstd::prelude::*;

use crate::city_data::{Building, TileCoords, TileList};
use crate::scene_object_registry::{building_id, building_scene, buildings, Buildings};

verus! {

broadcast use vstd::laws_cmp::group_laws_cmp;

/// The side length of a sector, in tiles: sector coordinates align with a step of 10.
pub const SECTOR_SIZE: u32 = 10;

/// The time one frame may spend on loading buildings, in milliseconds.
pub const TIME_BUDGET: u64 = 50;

/// Whether the tile list holds a tarmac at a tile.
pub open spec fn holds_tarmac(tiles: Map<TileCoords, crate::city_data::Tile>, c: TileCoords) -> bool {
    tiles.contains_key(c) && match tiles[c].building {
        Some(b) => b.id == building_id(Buildings::Tarmac),
        None => false,
    }
}

/// The row of four tiles from one left of the tile to two right of it is all tarmac.
pub open spec fn tarmac_row(tiles: Map<TileCoords, crate::city_data::Tile>, x: u32, y: u32) -> bool {
    forall|i: u32| x - 1 <= i < x + 3 ==> #[trigger] holds_tarmac(tiles, (i, y))
}

/// The column of four tiles from one below the tile to two above it is all tarmac.
pub open spec fn tarmac_column(tiles: Map<TileCoords, crate::city_data::Tile>, x: u32, y: u32) -> bool {
    forall|j: u32| y - 1 <= j < y + 3 ==> #[trigger] holds_tarmac(tiles, (x, j))
}

/// A tarmac is a spawn point where a cross of tarmac runs through it: four tiles along
/// its row and four along its column, from one before it to two after it.
pub open spec fn spawn_point(tiles: Map<TileCoords, crate::city_data::Tile>, c: TileCoords) -> bool {
    tarmac_row(tiles, c.0, c.1) && tarmac_column(tiles, c.0, c.1)
}

/// A tarmac is a spawn point exactly when the four tiles from one before it to two after
/// it hold tarmac along its row, and the four likewise along its column.
pub proof fn lemma_spawn_point_is_a_cross(tiles: Map<TileCoords, crate::city_data::Tile>, c: TileCoords)
    requires
        1 <= c.0 && c.0 + 2 <= u32::MAX,
        1 <= c.1 && c.1 + 2 <= u32::MAX,
    ensures
        spawn_point(tiles, c) <==> {
            &&& holds_tarmac(tiles, ((c.0 - 1) as u32, c.1))
            &&& holds_tarmac(tiles, c)
            &&& holds_tarmac(tiles, ((c.0 + 1) as u32, c.1))
            &&& holds_tarmac(tiles, ((c.0 + 2) as u32, c.1))
            &&& holds_tarmac(tiles, (c.0, (c.1 - 1) as u32))
            &&& holds_tarmac(tiles, (c.0, (c.1 + 1) as u32))
            &&& holds_tarmac(tiles, (c.0, (c.1 + 2) as u32))
        },
{
    let (x, y) = c;
    if spawn_point(tiles, c) {
        assert(holds_tarmac(tiles, ((x - 1) as u32, y)));
        assert(holds_tarmac(tiles, (x, y)));
        assert(holds_tarmac(tiles, ((x + 1) as u32, y)));
        assert(holds_tarmac(tiles, ((x + 2) as u32, y)));
        assert(holds_tarmac(tiles, (x, (y - 1) as u32)));
        assert(holds_tarmac(tiles, (x, (y + 1) as u32)));
        assert(holds_tarmac(tiles, (x, (y + 2) as u32)));
    }
    if holds_tarmac(tiles, ((x - 1) as u32, y)) && holds_tarmac(tiles, c) && holds_tarmac(tiles, ((x + 1) as u32, y))
        && holds_tarmac(tiles, ((x + 2) as u32, y)) && holds_tarmac(tiles, (x, (y - 1) as u32))
        && holds_tarmac(tiles, (x, (y + 1) as u32)) && holds_tarmac(tiles, (x, (y + 2) as u32)) {
        assert forall|i: u32| x - 1 <= i < x + 3 implies #[trigger] holds_tarmac(tiles, (i, y)) by {
            assert(i == x - 1 || i == x || i == x + 1 || i == x + 2);
        }
        assert forall|j: u32| y - 1 <= j < y + 3 implies #[trigger] holds_tarmac(tiles, (x, j)) by {
            assert(j == y - 1 || j == y || j == y + 1 || j == y + 2);
        }
    }
}

/// The tiles that the spawn point test looks at lie within coordinate range.
pub open spec fn spawn_test_in_range(tiles: Map<TileCoords, crate::city_data::Tile>, c: TileCoords) -> bool {
    &&& 1 <= c.0 && c.0 + 3 <= u32::MAX
    &&& tarmac_row(tiles, c.0, c.1) ==> 1 <= c.1 && c.1 + 3 <= u32::MAX
}

fn tarmac_at(tiles: &TileList, c: TileCoords) -> (r: bool)
    ensures
        r == holds_tarmac(tiles@, c),
{
    match tiles.get(&c) {
        Some(tile) => match &tile.building {
            Some(b) => Buildings::Tarmac.is_id(b.id),
            None => false,
        },
        None => false,
    }
}

fn row_of_tarmac(tiles: &TileList, x: u32, y: u32) -> (r: bool)
    requires
        1 <= x,
        x + 3 <= u32::MAX,
    ensures
        r == tarmac_row(tiles@, x, y),
{
    let mut i = x - 1;
    while i < x + 3
        invariant
            1 <= x,
            x + 3 <= u32::MAX,
            x - 1 <= i <= x + 3,
            forall|k: u32| x - 1 <= k < i ==> #[trigger] holds_tarmac(tiles@, (k, y)),
        decreases x + 3 - i,
    {
        if !tarmac_at(tiles, (i, y)) {
            assert(!holds_tarmac(tiles@, (i, y)));
            return false;
        }
        i = i + 1;
    }
    true
}

fn column_of_tarmac(tiles: &TileList, x: u32, y: u32) -> (r: bool)
    requires
        1 <= y,
        y + 3 <= u32::MAX,
    ensures
        r == tarmac_column(tiles@, x, y),
{
    let mut j = y - 1;
    while j < y + 3
        invariant
            1 <= y,
            y + 3 <= u32::MAX,
            y - 1 <= j <= y + 3,
            forall|k: u32| y - 1 <= k < j ==> #[trigger] holds_tarmac(tiles@, (x, k)),
        decreases y + 3 - j,
    {
        if !tarmac_at(tiles, (x, j)) {
            assert(!holds_tarmac(tiles@, (x, j)));
            return false;
        }
        j = j + 1;
    }
    true
}

/// Whether the building's tile is the center of a cross of tarmac, where the player's
/// hangar spawns.
pub fn is_spawn_point(building: &Building, tiles: &TileList) -> (r: bool)
    requires
        spawn_test_in_range(tiles@, building.tile_coords),
    ensures
        r == spawn_point(tiles@, building.tile_coords),
{
    let (x, y) = building.tile_coords;
    row_of_tarmac(tiles, x, y) && column_of_tarmac(tiles, x, y)
}

/// Whether the spawn point test of a tile stays within coordinate range.
pub fn spawn_test_in_range_check(tiles: &TileList, c: TileCoords) -> (r: bool)
    ensures
        r == spawn_test_in_range(tiles@, c),
{
    let (x, y) = c;
    if !(1 <= x && x <= u32::MAX - 3) {
        return false;
    }
    !row_of_tarmac(tiles, x, y) || (1 <= y && y <= u32::MAX - 3)
}

/// The first tile of the sector that holds a tile.
pub fn sector_of(tile_coords: TileCoords) -> (r: TileCoords)
    ensures
        r.0 == (tile_coords.0 / SECTOR_SIZE) * SECTOR_SIZE,
        r.1 == (tile_coords.1 / SECTOR_SIZE) * SECTOR_SIZE,
        r.0 <= tile_coords.0 < r.0 + SECTOR_SIZE,
        r.1 <= tile_coords.1 < r.1 + SECTOR_SIZE,
{
    ((tile_coords.0 / SECTOR_SIZE) * SECTOR_SIZE, (tile_coords.1 / SECTOR_SIZE) * SECTOR_SIZE)
}

/// The center tile of a sector.
pub fn sector_center(sector: TileCoords) -> (r: TileCoords)
    requires
        sector.0 + SECTOR_SIZE / 2 <= u32::MAX,
        sector.1 + SECTOR_SIZE / 2 <= u32::MAX,
    ensures
        r == ((sector.0 + SECTOR_SIZE / 2) as u32, (sector.1 + SECTOR_SIZE / 2) as u32),
{
    (sector.0 + SECTOR_SIZE / 2, sector.1 + SECTOR_SIZE / 2)
}

/// Why a building cannot be placed.
#[derive(Clone, Copy, Debug, PartialEq, Eq, Structural)]
pub enum PlacementError {
    /// The tile list has no tile where the building stands.
    MissingTile,
    /// No scene is known for the building's id.
    UnknownBuilding,
}

/// Where and how a building is placed in the world.
#[derive(Clone, Copy, Debug)]
pub struct BuildingPlacement {
    /// The scene that shows the building.
    pub scene: &'static str,
    /// The tile the building stands on, as the city file gives it.
    pub tile_coords: TileCoords,
    /// The altitude of that tile.
    pub altitude: u32,
    /// The side length of the building, in tiles.
    pub size: u8,
    /// The first tile of the sector the building is filed under.
    pub sector: TileCoords,
    /// The building is a tarmac at the center of a cross of tarmac, where the player's
    /// hangar is placed first.
    pub spawns_hangar: bool,
}

/// The building's tile is known and the spawn point test stays within coordinate range.
pub open spec fn placement_in_range(building: Building, tiles: Map<TileCoords, crate::city_data::Tile>) -> bool {
    tiles.contains_key(building.tile_coords) && building_scene(building.id) is Some && building.id
        == building_id(Buildings::Tarmac) ==> spawn_test_in_range(tiles, building.tile_coords)
}

/// Whether `plan_building` can test the building for a spawn point within coordinate range.
pub fn placement_in_range_check(building: &Building, tiles: &TileList) -> (r: bool)
    ensures
        r == placement_in_range(*building, tiles@),
{
    if !tiles.contains_key(&building.tile_coords) || buildings(building.id).is_none()
        || !Buildings::Tarmac.is_id(building.id) {
        return true;
    }
    spawn_test_in_range_check(tiles, building.tile_coords)
}

/// Plans the placement of a building of the city: its scene, the altitude of its tile,
/// its sector, and whether the player's hangar spawns on it.
pub fn plan_building(building: &Building, tiles: &TileList) -> (r: Result<BuildingPlacement, PlacementError>)
    requires
        placement_in_range(*building, tiles@),
    ensures
        !tiles@.contains_key(building.tile_coords) ==> r == Err::<BuildingPlacement, PlacementError>(
            PlacementError::MissingTile,
        ),
        tiles@.contains_key(building.tile_coords) && building_scene(building.id) is None ==> r
            == Err::<BuildingPlacement, PlacementError>(PlacementError::UnknownBuilding),
        tiles@.contains_key(building.tile_coords) && building_scene(building.id) is Some ==> (r matches Ok(
            p,
        ) && p.scene@ == building_scene(building.id)->0 && p.tile_coords == building.tile_coords
            && p.altitude == tiles@[building.tile_coords].altitude && p.size == building.size
            && p.sector.0 == (building.tile_coords.0 / SECTOR_SIZE) * SECTOR_SIZE && p.sector.1 == (
        building.tile_coords.1 / SECTOR_SIZE) * SECTOR_SIZE && p.spawns_hangar == (building.id
            == building_id(Buildings::Tarmac) && spawn_point(tiles@, building.tile_coords))),
{
    let tile = match tiles.get(&building.tile_coords) {
        Some(t) => t,
        None => return Err(PlacementError::MissingTile),
    };
    let scene = match buildings(building.id) {
        Some(s) => s,
        None => return Err(PlacementError::UnknownBuilding),
    };
    let spawns_hangar = Buildings::Tarmac.is_id(building.id) && is_spawn_point(building, tiles);
    Ok(
        BuildingPlacement {
            scene,
            tile_coords: building.tile_coords,
            altitude: tile.altitude,
            size: building.size,
            sector: sector_of(building.tile_coords),
            spawns_hangar,
        },
    )
}

/// The player's hangar that spawns on a tarmac cross: a hangar of size two at its tile.
pub fn spawn_hangar(tile_coords: TileCoords) -> (r: Building)
    ensures
        r.id == building_id(Buildings::Hangar2),
        r.tile_coords == tile_coords,
        r.size == 2,
        r.name@ == "Hangar"@,
{
    Building { id: Buildings::Hangar2.id(), tile_coords, name: "Hangar".to_owned(), size: 2 }
}

/// What loading the next building does.
#[derive(Clone, Copy, Debug)]
pub struct LoadStep {
    /// The number of buildings loaded since the last report, reported before this one
    /// where the frame's time budget ran out.
    pub report: Option<u32>,
    /// The number of buildings loaded since the last report, this one included.
    pub count: u32,
    /// The building is placed; a building with id zero is empty and skipped.
    pub place: bool,
}

/// One step of loading the buildings of a city, given how many were loaded since the last
/// report, when that window began and the time now, in milliseconds.
pub fn building_load_step(count: u32, window_start_ms: u64, now_ms: u64, building_id: u8) -> (r: LoadStep)
    requires
        window_start_ms <= now_ms,
        now_ms - window_start_ms <= TIME_BUDGET ==> count < u32::MAX,
    ensures
        r.report == (if now_ms - window_start_ms > TIME_BUDGET {
            Some(count)
        } else {
            None::<u32>
        }),
        r.count == (if now_ms - window_start_ms > TIME_BUDGET {
            1
        } else {
            count + 1
        }),
        r.place == (building_id != 0),
{
    let exceeded = now_ms - window_start_ms > TIME_BUDGET;
    let report = if exceeded {
        Some(count)
    } else {
        None
    };
    let count = if exceeded {
        1
    } else {
        count + 1
    };
    LoadStep { report, count, place: building_id != 0 }
}

} // verus!
