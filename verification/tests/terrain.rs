use simchopper::terrain_rotation::TerrainRotation;
use simchopper::terrain_slope::TerrainSlope;
use simchopper::tile_surface::{Corner, TileSurface, TileSurfaceType};

#[test]
fn slope_bytes_round_trip() {
    for byte in 0u8..0x0F {
        let slope = TerrainSlope::try_from_u8(byte);
        assert_eq!(slope.into_u8(), byte);
    }
    assert_eq!(TerrainSlope::try_from_u8(0x00), TerrainSlope::Flat);
    assert_eq!(TerrainSlope::try_from_u8(0x01), TerrainSlope::North);
    assert_eq!(TerrainSlope::try_from_u8(0x0D), TerrainSlope::All);
    assert_eq!(TerrainSlope::try_from_u8(0x0E), TerrainSlope::VertialCliff);
    assert_eq!(TerrainSlope::try_from_u8(0x2A), TerrainSlope::Flat);
}

#[test]
fn north_neighbors_of_flat_ground() {
    let expected = vec![
        (TerrainSlope::Flat, 0),
        (TerrainSlope::North, 0),
        (TerrainSlope::NorthWest, 0),
        (TerrainSlope::NorthEast, 0),
        (TerrainSlope::NorthWest2East, 0),
        (TerrainSlope::South, -1),
        (TerrainSlope::SouthNorthWest, -1),
        (TerrainSlope::SouthNorthEast, -1),
        (TerrainSlope::All, -1),
    ];
    assert_eq!(TerrainSlope::Flat.valid_north_neighbors(), expected);
    assert_eq!(TerrainSlope::South.valid_north_neighbors(), expected);
}

#[test]
fn north_neighbors_of_raised_north() {
    let table = TerrainSlope::North.valid_north_neighbors();
    assert_eq!(table[0], (TerrainSlope::All, 0));
    assert_eq!(table.len(), 9);
    assert_eq!(table[8], (TerrainSlope::South2NorthEast, -1));
}

#[test]
fn one_rotation_turns_slopes_counter_clockwise() {
    let rotation = TerrainRotation::from_offset(1);
    assert_eq!(rotation.normalize_slope(TerrainSlope::North), TerrainSlope::West);
    assert_eq!(rotation.normalize_slope(TerrainSlope::West), TerrainSlope::South);
    assert_eq!(rotation.normalize_slope(TerrainSlope::Flat), TerrainSlope::Flat);
    assert_eq!(rotation.normalize_slope(TerrainSlope::NorthEast), TerrainSlope::NorthWest);
}

#[test]
fn four_rotations_give_the_slope_back() {
    let rotation = TerrainRotation::from_offset(4);
    for byte in 0u8..0x0F {
        let slope = TerrainSlope::try_from_u8(byte);
        assert_eq!(rotation.normalize_slope(slope), slope);
    }
}

#[test]
fn reverted_rotation_undoes_rotation() {
    let rotation = TerrainRotation::from_offset(3);
    let reverted = rotation.to_reverted();
    for byte in 0u8..0x0F {
        let slope = TerrainSlope::try_from_u8(byte);
        assert_eq!(reverted.normalize_slope(rotation.normalize_slope(slope)), slope);
    }
    assert_eq!(TerrainRotation::from_offset(3).to_reverted().offset(), 1);
    assert_eq!(TerrainRotation::from_offset(4).to_reverted().offset(), 0);
    assert_eq!(TerrainRotation::from_offset(5).to_reverted().offset(), 255);
}

#[test]
fn corners_follow_the_rotation() {
    let rotation = TerrainRotation::new();
    assert_eq!((rotation.nw(), rotation.ne(), rotation.se(), rotation.sw()), (0, 1, 3, 2));
    let rotation = TerrainRotation::from_offset(1);
    assert_eq!((rotation.nw(), rotation.ne(), rotation.se(), rotation.sw()), (1, 3, 2, 0));
}

#[test]
fn rotation_out_of_range_is_held_at_the_maximum() {
    let mut rotation = TerrainRotation::new();
    rotation.set_rotation(2);
    assert_eq!(rotation.normalize_slope(TerrainSlope::North), TerrainSlope::South);
    rotation.set_rotation(-1);
    assert_eq!(rotation.normalize_slope(TerrainSlope::North), TerrainSlope::East);
}

#[test]
fn north_slope_raises_the_north_corners() {
    let mut surface = TileSurface::new(TileSurfaceType::Ground);
    surface.apply_slope(TerrainSlope::North, &TerrainRotation::new(), 10);
    let corners = surface.corners();
    assert_eq!(corners[0], Corner::new(0, 10, 0));
    assert_eq!(corners[1], Corner::new(0, 10, 0));
    assert_eq!(corners[2], Corner::new(0, 0, 0));
    assert_eq!(corners[3], Corner::new(0, 0, 0));
}

#[test]
fn double_slope_raises_twice() {
    let mut surface = TileSurface::new(TileSurfaceType::Ground);
    surface.apply_slope(TerrainSlope::NorthWest2East, &TerrainRotation::new(), 4);
    let corners = surface.corners();
    assert_eq!(corners[0].y, 8);
    assert_eq!(corners[1].y, 4);
    assert_eq!(corners[2].y, 0);
    assert_eq!(corners[3].y, 0);
}

#[test]
fn surface_kinds_have_names() {
    assert_eq!(TileSurfaceType::Ground.as_str(), "Ground");
    assert_eq!(TileSurfaceType::Water.as_str(), "Water");
    assert_eq!(TileSurface::new(TileSurfaceType::Water).resolution(), 2);
}

#[test]
fn diagonal_neighbors_meet_at_the_shared_corner() {
    // A south slope raises its south-west corner once; a neighbor whose north-east corner
    // rises twice cannot lie one level above it.
    let south_west = TerrainSlope::South.valid_south_west_neighbors();
    assert!(!south_west.contains(&(TerrainSlope::NorthWestEast2SouthEast, 1)));
    assert!(south_west.contains(&(TerrainSlope::NorthWestEast2SouthEast, -1)));
    assert!(south_west.contains(&(TerrainSlope::Flat, 1)));
    let south_east = TerrainSlope::Flat.valid_south_east_neighbors();
    assert!(!south_east.contains(&(TerrainSlope::NorthSouthWest, 0)));
    let east = TerrainSlope::All.valid_east_neighbor();
    assert!(!east.contains(&(TerrainSlope::NorthWestEast2SouthEast, 0)));
    let west = TerrainSlope::NorthEastWest2SouthWest.valid_west_neighbors();
    assert!(!west.contains(&(TerrainSlope::NorthWest, 1)));
    assert!(TerrainSlope::VertialCliff.valid_north_neighbors().is_empty());
}
