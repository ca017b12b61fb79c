use std::collections::BTreeMap;

use simchopper::city_buildings::{
    building_load_step, is_spawn_point, plan_building, sector_center, sector_of, spawn_hangar,
    PlacementError, TIME_BUDGET,
};
use simchopper::city_coords::CityCoordsFeature;
use simchopper::city_data::{Building, TerrainType, Tile, TileList, TileTerrainInfo};
use simchopper::gi_probes::{load_steps, probe_grid, probe_margin, probe_size, tiles_per_probe};
use simchopper::numbers::Uf32;
use simchopper::project_settings::{log_timestamp, CustomProjectSettings, ProjectSettings};
use simchopper::solar_clock::{day_length_ms, get_time};
use simchopper::terrain_slope::TerrainSlope;
use simchopper::world_constants::WorldConstants;

const TARMAC: u8 = 0xE6;

fn tile_with(x: u32, y: u32, id: Option<u8>) -> Tile {
    Tile {
        terrain: TileTerrainInfo { ty: TerrainType::DryLand, slope: TerrainSlope::Flat },
        altitude: 3,
        building: id.map(|id| Building { size: 1, name: "b".to_string(), id, tile_coords: (x, y) }),
        coordinates: (x, y),
    }
}

fn airfield() -> TileList {
    let mut tiles = BTreeMap::new();
    for x in 0..6 {
        for y in 0..6 {
            tiles.insert((x, y), tile_with(x, y, None));
        }
    }
    for i in 1..5 {
        tiles.insert((i, 2), tile_with(i, 2, Some(TARMAC)));
        tiles.insert((2, i), tile_with(2, i, Some(TARMAC)));
    }
    tiles
}

#[test]
fn world_constants_get_what_was_set() {
    let mut c = WorldConstants::new(16, 8);
    assert_eq!((c.tile_size(), c.tile_height()), (16, 8));
    c.set_tile_size(32);
    assert_eq!((c.tile_size(), c.tile_height()), (32, 8));
    c.set_tile_height(4);
    assert_eq!((c.tile_size(), c.tile_height()), (32, 4));
    let d = WorldConstants::default();
    assert_eq!((d.tile_size(), d.tile_height()), (0, 0));
}

#[test]
fn world_coordinates_of_tiles() {
    let f = CityCoordsFeature::new(WorldConstants::new(16, 8), 4);
    let (x, y, z) = f.get_world_coords(2, 3, 10);
    assert_eq!((x.into_u32(), y.into_u32(), z.into_u32()), (32, 80, 48));
    let (_, y, _) = f.get_world_coords(2, 3, 1);
    assert_eq!(y.into_u32(), 24);
    assert_eq!(CityCoordsFeature::building_origin(5, 7, 3), (5, 5));
    assert_eq!(f.building_span(3), 48);
    assert_eq!(f.dimensions(), (16, 8, 4));
}

#[test]
fn a_cross_of_tarmac_is_a_spawn_point() {
    let tiles = airfield();
    let center = tiles.get(&(2, 2)).unwrap().building.clone().unwrap();
    assert!(is_spawn_point(&center, &tiles));
    let side = tiles.get(&(3, 2)).unwrap().building.clone().unwrap();
    assert!(!is_spawn_point(&side, &tiles));
}

#[test]
fn buildings_are_planned_on_their_tiles() {
    let tiles = airfield();
    let center = tiles.get(&(2, 2)).unwrap().building.clone().unwrap();
    let plan = plan_building(&center, &tiles).unwrap();
    assert!(plan.spawns_hangar);
    assert_eq!(plan.altitude, 3);
    assert_eq!(plan.sector, (0, 0));
    assert_eq!(plan.scene, "res://resources/Objects/Ground/tarmac.tscn");

    let missing = Building { size: 1, name: "x".to_string(), id: TARMAC, tile_coords: (40, 40) };
    assert_eq!(plan_building(&missing, &tiles).err(), Some(PlacementError::MissingTile));
    let unknown = Building { size: 1, name: "x".to_string(), id: 0x01, tile_coords: (1, 1) };
    assert_eq!(plan_building(&unknown, &tiles).err(), Some(PlacementError::UnknownBuilding));

    let hangar = spawn_hangar((2, 2));
    assert_eq!((hangar.id, hangar.size, hangar.name.as_str()), (0xF6, 2, "Hangar"));
    assert!(plan_building(&hangar, &tiles).is_ok());
}

#[test]
fn sectors_align_with_a_step_of_ten() {
    assert_eq!(sector_of((33, 70)), (30, 70));
    assert_eq!(sector_of((0, 9)), (0, 0));
    assert_eq!(sector_of((15, 0)), (10, 0));
    assert_eq!(sector_center((30, 70)), (35, 75));
}

#[test]
fn loading_reports_when_the_frame_budget_runs_out() {
    let step = building_load_step(4, 100, 120, 7);
    assert_eq!((step.report, step.count, step.place), (None, 5, true));
    let step = building_load_step(4, 100, 100 + TIME_BUDGET + 1, 0);
    assert_eq!((step.report, step.count, step.place), (Some(4), 1, false));
}

#[test]
fn probes_cover_the_city() {
    let n = Uf32::new(3);
    assert_eq!(load_steps(n), 900);
    let grid = probe_grid(n);
    assert_eq!(grid.len(), 9);
    assert_eq!(grid[0], (0, 0));
    assert_eq!(grid[1], (0, 1));
    assert_eq!(grid[3], (1, 0));
    assert_eq!(grid[8], (2, 2));
    assert_eq!(tiles_per_probe(Uf32::new(128), Uf32::new(3)).into_u32(), 42);
    assert_eq!(probe_size(16, Uf32::new(42)).into_u32(), 672);
    assert_eq!(probe_margin(16), 64);
}

#[test]
fn the_game_clock() {
    let day = Uf32::new(10);
    assert_eq!(day_length_ms(day).into_u32(), 600_000);
    assert_eq!(get_time(day, 0).into_u32(), 180_000);
    assert_eq!(get_time(day, 1_000).into_u32(), 181_000);
    assert_eq!(get_time(day, 1_100_000).into_u32(), 80_000);
}

#[test]
fn log_timestamps() {
    assert_eq!(log_timestamp(0), (0, 0, 0));
    assert_eq!(log_timestamp(61_234), (1, 1, 234));
    assert_eq!(log_timestamp(3_599_999), (59, 59, 999));
}

#[test]
fn setting_names() {
    assert_eq!(
        <ProjectSettings as CustomProjectSettings>::DEBUG_SHAPES_ROAD_NAVIGATION_DISPLAY_VEHICLE_TARGET,
        "debug/shapes/road_navigation/display_vehicle_target"
    );
    assert_eq!(<ProjectSettings as CustomProjectSettings>::EDITOR_REQUIRED_VERSION, "editor/required_version");
}
