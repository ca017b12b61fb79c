use simchopper::tile_repair::{pre_process_checked, tiles_well_placed};
use simchopper::terrain_builder::{chunk_is_buildable, generate_chunk_surfaces, tile_surfaces_computable, ChunkConfig};
use simchopper::terrain_builder::generate_tile_surfaces;
use std::collections::BTreeMap;

use simchopper::city_data::{
    get_tile_neighbors, valid_slopes, validate_tile_slope, Building, Compass, TerrainType, Tile,
    TileList, TileTerrainInfo,
};
use simchopper::terrain_builder::{TerrainContext};
use simchopper::terrain_rotation::TerrainRotation;
use simchopper::terrain_slope::TerrainSlope;
use simchopper::tile_repair::{is_special_case, pre_process_tilelist, TileSpecialCase};

fn tile(x: u32, y: u32, altitude: u32, slope: TerrainSlope) -> Tile {
    Tile {
        terrain: TileTerrainInfo { ty: TerrainType::DryLand, slope },
        altitude,
        building: None,
        coordinates: (x, y),
    }
}

fn flat_city(size: u32) -> TileList {
    let mut tiles = BTreeMap::new();
    for x in 0..size {
        for y in 0..size {
            tiles.insert((x, y), tile(x, y, 1, TerrainSlope::Flat));
        }
    }
    tiles
}

fn context(rotation: u8) -> TerrainContext {
    TerrainContext {
        tile_size: 16,
        city_size: 3,
        tile_height: 8,
        sea_level: 0,
        chunk_size: 3,
        rotation: TerrainRotation::from_offset(rotation),
        debug_render_invalid: false,
        render_water: true,
    }
}

#[test]
fn packed_terrain_values_unpack() {
    let info = TileTerrainInfo::from_u32(0x31);
    assert_eq!(info.ty, TerrainType::SurfaceWater);
    assert_eq!(info.slope, TerrainSlope::North);
    let info = TileTerrainInfo::from_u32(0x7D);
    assert_eq!(info.ty, TerrainType::MoreSurfaceWater);
    assert_eq!(info.slope, TerrainSlope::All);
    assert_eq!(TerrainType::from_u8(2), TerrainType::Shoreline);
}

#[test]
fn neighbors_come_in_compass_order() {
    let tiles = flat_city(3);
    let center = tiles.get(&(1, 1)).unwrap().clone();
    let neighbors = get_tile_neighbors(&tiles, &center);
    let dirs: Vec<Compass> = neighbors.iter().map(|(d, _)| *d).collect();
    assert_eq!(
        dirs,
        vec![
            Compass::South,
            Compass::East,
            Compass::North,
            Compass::West,
            Compass::NorthWest,
            Compass::NorthEast,
            Compass::SouthWest,
            Compass::SouthEast,
        ]
    );
    let corner = tiles.get(&(0, 0)).unwrap().clone();
    assert_eq!(get_tile_neighbors(&tiles, &corner).len(), 3);
}

#[test]
fn flat_city_is_valid() {
    let tiles = flat_city(3);
    let rotation = TerrainRotation::new();
    for t in tiles.values() {
        let result = validate_tile_slope(&tiles, t, &rotation);
        assert!(!result.is_invalid());
        assert_eq!(result.empty_invalid_tiles, 0);
    }
}

#[test]
fn a_lone_raised_tile_misfits_all_around() {
    let mut tiles = flat_city(3);
    tiles.insert((1, 1), tile(1, 1, 1, TerrainSlope::All));
    let rotation = TerrainRotation::new();
    let center = tiles.get(&(1, 1)).unwrap().clone();
    let result = validate_tile_slope(&tiles, &center, &rotation);
    assert!(result.is_invalid());
    assert_eq!(result.invalid_tiles, result.empty_invalid_tiles);
    assert!(result.invalid_tiles > 0);
    let options = valid_slopes(&tiles, &center, &rotation);
    assert!(options.contains(&TerrainSlope::Flat));
}

#[test]
fn pinched_raised_tile_is_special() {
    let mut tiles = flat_city(3);
    tiles.insert((1, 1), tile(1, 1, 1, TerrainSlope::All));
    let center = tiles.get(&(1, 1)).unwrap().clone();
    let mut result = validate_tile_slope(&tiles, &center, &TerrainRotation::new());
    result.invalid_tiles = 6;
    assert_eq!(is_special_case(&center, &tiles, &result), Some(TileSpecialCase::PintchedAllSlope));
    result.invalid_tiles = 5;
    assert_eq!(is_special_case(&center, &tiles, &result), None);
}

#[test]
fn power_line_on_a_plain_slope_above_its_neighbors_is_a_cliff() {
    let mut tiles = flat_city(3);
    let mut t = tile(1, 1, 1, TerrainSlope::North);
    t.building = Some(Building { size: 1, name: "power".to_string(), id: 0x0E, tile_coords: (1, 1) });
    tiles.insert((1, 1), t.clone());
    let result = validate_tile_slope(&tiles, &t, &TerrainRotation::new());
    assert_eq!(is_special_case(&t, &tiles, &result), Some(TileSpecialCase::PowerlineCliff));
    let mut flat = t.clone();
    flat.terrain.slope = TerrainSlope::Flat;
    assert_eq!(is_special_case(&flat, &tiles, &result), Some(TileSpecialCase::Powerline));
}

#[test]
fn preprocessing_leaves_a_valid_city_alone() {
    let tiles = flat_city(3);
    let result = pre_process_tilelist(&context(0), flat_city(3));
    assert_eq!(result.len(), tiles.len());
    for (k, t) in tiles.iter() {
        let r = result.get(k).unwrap();
        assert_eq!(r.terrain.slope, t.terrain.slope);
        assert_eq!(r.altitude, t.altitude);
    }
}

#[test]
fn preprocessing_repairs_a_lone_slope() {
    let mut tiles = flat_city(3);
    tiles.insert((1, 1), tile(1, 1, 1, TerrainSlope::North));
    let result = pre_process_tilelist(&context(0), tiles);
    let repaired = result.get(&(1, 1)).unwrap();
    assert_eq!(repaired.terrain.slope, TerrainSlope::Flat);
    assert_eq!(repaired.altitude, 1);
    assert_eq!(result.get(&(0, 0)).unwrap().terrain.slope, TerrainSlope::Flat);
}

#[test]
fn preprocessing_raises_a_pinched_plateau() {
    let mut tiles = flat_city(3);
    for x in 0..3 {
        tiles.insert((x, 1), tile(x, 1, 1, TerrainSlope::All));
    }
    let rotation = TerrainRotation::new();
    let center = tiles.get(&(1, 1)).unwrap().clone();
    let result = validate_tile_slope(&tiles, &center, &rotation);
    assert_eq!(result.invalid_tiles, 6);
    let repaired = pre_process_tilelist(&context(0), tiles);
    let center = repaired.get(&(1, 1)).unwrap();
    assert_eq!(center.altitude, 2);
}

#[test]
fn checked_preprocessing_refuses_misplaced_tiles() {
    let mut tiles = flat_city(3);
    assert!(tiles_well_placed(&tiles));
    assert!(pre_process_checked(&context(0), tiles.clone()).is_some());
    assert!(pre_process_checked(&context(5), tiles.clone()).is_some());
    tiles.insert((7, 7), tile(1, 1, 1, TerrainSlope::Flat));
    assert!(!tiles_well_placed(&tiles));
    assert!(pre_process_checked(&context(0), tiles).is_none());
}

#[test]
fn chunks_are_buildable_when_complete() {
    let tiles = flat_city(3);
    let ctx = context(0);
    let chunk = ChunkConfig { tile_coords: (0, 0), size: 3 };
    assert!(chunk_is_buildable(&ctx, &tiles, chunk));
    assert!(!chunk_is_buildable(&ctx, &tiles, ChunkConfig { tile_coords: (1, 1), size: 3 }));
    assert!(tile_surfaces_computable(&ctx, tiles.get(&(1, 1)).unwrap()));
    let surfaces = generate_chunk_surfaces(&ctx, &tiles, chunk);
    assert_eq!(surfaces.len(), 9);
}

#[test]
fn flat_tile_surface_lies_at_its_altitude() {
    let tiles = flat_city(3);
    let ctx = context(0);
    let surfaces = generate_tile_surfaces(&ctx, tiles.get(&(1, 1)).unwrap(), &tiles);
    assert_eq!(surfaces.len(), 1);
    let corners = surfaces[0].corners();
    assert_eq!((corners[0].x, corners[0].y, corners[0].z), (16, 8, 16));
    assert_eq!((corners[3].x, corners[3].y, corners[3].z), (32, 8, 32));
}

#[test]
fn preprocessing_under_five_turns_acts_as_one_turn() {
    let mut tiles = flat_city(3);
    tiles.insert((1, 1), tile(1, 1, 1, TerrainSlope::North));
    tiles.insert((0, 1), tile(0, 1, 1, TerrainSlope::East));
    let five = pre_process_checked(&context(5), tiles.clone()).unwrap();
    let one = pre_process_checked(&context(1), tiles).unwrap();
    assert_eq!(five.len(), one.len());
    for (k, t) in one.iter() {
        let r = five.get(k).unwrap();
        assert_eq!(r.terrain.slope, t.terrain.slope);
        assert_eq!(r.altitude, t.altitude);
    }
}
