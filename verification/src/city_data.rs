//! The tiles of a city and the rules that say whether a tile's slope fits its neighbors.

use std::collections::BTreeMap;

use vstd::prelude::*;

use crate::scene_object_registry::{building_id, Buildings};
use crate::terrain_rotation::{normalized, TerrainRotation};
use crate::terrain_slope::{
    east_neighbor_table, north_east_neighbor_table, north_neighbor_table, north_west_neighbor_table,
    slope_of_byte, south_east_neighbor_table, south_neighbor_table, south_west_neighbor_table,
    west_neighbor_table, TerrainSlope, is_ground_slope, lemma_tables_complete, neighbor_meets,
    side_table,
};

verus! {

broadcast use vstd::laws_cmp::group_laws_cmp;

/// The position of a tile in the city grid.
pub type TileCoords = (u32, u32);

/// The eight directions in which a tile can have a neighbor.
#[derive(Clone, Copy, Debug, PartialEq, Eq, Structural)]
pub enum Compass {
    North,
    East,
    South,
    West,
    NorthWest,
    NorthEast,
    SouthWest,
    SouthEast,
}

/// What covers the ground of a tile.
#[derive(Debug, Clone, Copy, PartialEq, Eq, Structural)]
pub enum TerrainType {
    DryLand,
    Underwater,
    Shoreline,
    SurfaceWater,
    MoreSurfaceWater,
}

/// The terrain type a stored value stands for; values from 5 on read as more surface water.
pub open spec fn terrain_type_of(value: u8) -> TerrainType {
    if value == 0 {
        TerrainType::DryLand
    } else if value == 1 {
        TerrainType::Underwater
    } else if value == 2 {
        TerrainType::Shoreline
    } else if value == 3 {
        TerrainType::SurfaceWater
    } else {
        TerrainType::MoreSurfaceWater
    }
}

impl TerrainType {
    /// Reads a stored terrain type; values out of range read as more surface water.
    pub fn from_u8(value: u8) -> (r: TerrainType)
        ensures
            r == terrain_type_of(value),
    {
        match value {
            0 => TerrainType::DryLand,
            1 => TerrainType::Underwater,
            2 => TerrainType::Shoreline,
            3 => TerrainType::SurfaceWater,
            _ => TerrainType::MoreSurfaceWater,
        }
    }
}

/// The kind of ground of a tile and its slope.
#[derive(Debug, Clone, Copy, PartialEq, Eq, Structural)]
pub struct TileTerrainInfo {
    pub ty: TerrainType,
    pub slope: TerrainSlope,
}

impl TileTerrainInfo {
    /// Reads the packed terrain value of a city file: bits 4 to 7 hold the terrain type,
    /// bits 0 to 3 the slope.
    pub fn from_u32(value: u32) -> (r: TileTerrainInfo)
        ensures
            r.ty == terrain_type_of(((value & 0xF0) >> 4) as u8),
            r.slope == slope_of_byte((value & 0x0F) as u8),
    {
        let ty = TerrainType::from_u8(((value & 0xF0) >> 4) as u8);
        let slope = TerrainSlope::try_from_u8((value & 0x0F) as u8);
        TileTerrainInfo { ty, slope }
    }
}

/// A building of the city, as the city file describes it.
#[derive(Debug)]
pub struct Building {
    pub size: u8,
    pub name: String,
    pub id: u8,
    pub tile_coords: TileCoords,
}

impl Clone for Building {
    fn clone(&self) -> (r: Self)
        ensures
            r == *self,
    {
        Building {
            size: self.size,
            name: self.name.clone(),
            id: self.id,
            tile_coords: self.tile_coords,
        }
    }
}

/// A tile of the city.
#[derive(Debug)]
pub struct Tile {
    pub terrain: TileTerrainInfo,
    pub altitude: u32,
    pub building: Option<Building>,
    pub coordinates: TileCoords,
}

impl Clone for Tile {
    fn clone(&self) -> (r: Self)
        ensures
            r == *self,
    {
        let building = match &self.building {
            Some(b) => Some(b.clone()),
            None => None,
        };
        Tile {
            terrain: self.terrain,
            altitude: self.altitude,
            building,
            coordinates: self.coordinates,
        }
    }
}

/// Whether a tile counts as built on: it holds a building with a nonzero id, and a pair of
/// trees only counts on flat or raised-flat ground.
pub open spec fn tile_has_building(t: Tile) -> bool {
    match t.building {
        Some(b) => b.id > 0 && (b.id != building_id(Buildings::TreeCouple) || t.terrain.slope
            == TerrainSlope::Flat || t.terrain.slope == TerrainSlope::All),
        None => false,
    }
}

/// Whether a tile is covered by surface water.
pub open spec fn tile_has_surface_water(t: Tile) -> bool {
    t.terrain.ty == TerrainType::SurfaceWater || t.terrain.ty == TerrainType::MoreSurfaceWater
}

impl Tile {
    pub fn altitude(&self) -> (r: u32)
        ensures
            r == self.altitude,
    {
        self.altitude
    }

    pub fn coordinates(&self) -> (r: TileCoords)
        ensures
            r == self.coordinates,
    {
        self.coordinates
    }

    /// Whether the tile is built on.
    pub fn has_building(&self) -> (r: bool)
        ensures
            r == tile_has_building(*self),
    {
        match &self.building {
            Some(building) => building.id > 0 && (!Buildings::TreeCouple.is_id(building.id)
                || matches!(self.terrain.slope, TerrainSlope::Flat | TerrainSlope::All)),
            None => false,
        }
    }

    /// Whether the tile is covered by surface water.
    pub fn has_surface_water(&self) -> (r: bool)
        ensures
            r == tile_has_surface_water(*self),
    {
        matches!(self.terrain.ty, TerrainType::SurfaceWater | TerrainType::MoreSurfaceWater)
    }
}

/// The tiles of a city by their position.
pub type TileList = BTreeMap<TileCoords, Tile>;

/// One step down, wrapping from zero to the largest coordinate.
pub open spec fn wrapping_dec(x: u32) -> u32 {
    if x == 0 {
        u32::MAX
    } else {
        (x - 1) as u32
    }
}

/// The positions around a tile, in the order in which its neighbors are visited.
pub open spec fn neighbor_candidates(c: TileCoords) -> Seq<(Compass, TileCoords)> {
    seq![
        (Compass::South, (c.0, wrapping_dec(c.1))),
        (Compass::East, (wrapping_dec(c.0), c.1)),
        (Compass::North, (c.0, (c.1 + 1) as u32)),
        (Compass::West, ((c.0 + 1) as u32, c.1)),
        (Compass::NorthWest, ((c.0 + 1) as u32, (c.1 + 1) as u32)),
        (Compass::NorthEast, (wrapping_dec(c.0), (c.1 + 1) as u32)),
        (Compass::SouthWest, ((c.0 + 1) as u32, wrapping_dec(c.1))),
        (Compass::SouthEast, (wrapping_dec(c.0), wrapping_dec(c.1))),
    ]
}

/// The tiles of the map found at the candidate positions, with their directions, in order.
pub open spec fn present_neighbors(
    m: Map<TileCoords, Tile>,
    cands: Seq<(Compass, TileCoords)>,
) -> Seq<(Compass, Tile)>
    decreases cands.len(),
{
    if cands.len() == 0 {
        seq![]
    } else {
        let rest = present_neighbors(m, cands.drop_last());
        let (d, k) = cands.last();
        if m.contains_key(k) {
            rest.push((d, m[k]))
        } else {
            rest
        }
    }
}

/// The neighbors of a tile that the map holds, with their directions.
pub open spec fn tile_neighbors(m: Map<TileCoords, Tile>, t: Tile) -> Seq<(Compass, Tile)> {
    present_neighbors(m, neighbor_candidates(t.coordinates))
}

/// A tile can be looked up on every side without leaving the coordinate range upwards.
pub open spec fn neighbors_addressable(t: Tile) -> bool {
    t.coordinates.0 < u32::MAX && t.coordinates.1 < u32::MAX
}

proof fn lemma_present_neighbors_len(m: Map<TileCoords, Tile>, cands: Seq<(Compass, TileCoords)>)
    ensures
        present_neighbors(m, cands).len() <= cands.len(),
    decreases cands.len(),
{
    if cands.len() > 0 {
        lemma_present_neighbors_len(m, cands.drop_last());
    }
}

/// The neighbors of a tile that the tile list holds, with the direction in which each lies.
pub fn get_tile_neighbors(tilelist: &TileList, tile: &Tile) -> (r: Vec<(Compass, Tile)>)
    requires
        neighbors_addressable(*tile),
    ensures
        r@ == tile_neighbors(tilelist@, *tile),
        r@.len() <= 8,
{
    let coords = tile.coordinates;
    let x_dec = coords.0.wrapping_sub(1);
    let y_dec = coords.1.wrapping_sub(1);
    let cands: [(Compass, TileCoords); 8] = [
        (Compass::South, (coords.0, y_dec)),
        (Compass::East, (x_dec, coords.1)),
        (Compass::North, (coords.0, coords.1 + 1)),
        (Compass::West, (coords.0 + 1, coords.1)),
        (Compass::NorthWest, (coords.0 + 1, coords.1 + 1)),
        (Compass::NorthEast, (x_dec, coords.1 + 1)),
        (Compass::SouthWest, (coords.0 + 1, y_dec)),
        (Compass::SouthEast, (x_dec, y_dec)),
    ];
    let ghost spec_cands = neighbor_candidates(coords);
    assert(cands@ =~= spec_cands);
    let mut result: Vec<(Compass, Tile)> = Vec::new();
    let mut i: usize = 0;
    while i < 8
        invariant
            0 <= i <= 8,
            cands@ == spec_cands,
            spec_cands == neighbor_candidates(coords),
            result@ == present_neighbors(tilelist@, spec_cands.take(i as int)),
        decreases 8 - i,
    {
        let (dir, key) = cands[i];
        assert(spec_cands.take(i as int + 1).drop_last() =~= spec_cands.take(i as int));
        match tilelist.get(&key) {
            Some(neighbor) => {
                result.push((dir, neighbor.clone()));
            },
            None => {},
        }
        i = i + 1;
    }
    assert(spec_cands.take(8) =~= spec_cands);
    proof {
        lemma_present_neighbors_len(tilelist@, spec_cands);
    }
    result
}


/// The table that lists which slopes a tile may have when the given neighbor lies in
/// direction `dir` of it: the neighbor's own table for the opposite side.
pub open spec fn neighbor_table(dir: Compass, s: TerrainSlope) -> Seq<(TerrainSlope, i8)> {
    match dir {
        Compass::North => south_neighbor_table(s),
        Compass::East => west_neighbor_table(s),
        Compass::South => north_neighbor_table(s),
        Compass::West => east_neighbor_table(s),
        Compass::NorthWest => south_east_neighbor_table(s),
        Compass::NorthEast => south_west_neighbor_table(s),
        Compass::SouthWest => north_east_neighbor_table(s),
        Compass::SouthEast => north_west_neighbor_table(s),
    }
}

/// The altitude of a tile over its neighbor, or -128 where the difference does not fit.
pub open spec fn altitude_offset(tile_altitude: u32, neighbor_altitude: u32) -> i8 {
    let d = tile_altitude - neighbor_altitude;
    if -128 <= d <= 127 {
        d as i8
    } else {
        -128i8
    }
}

/// The slopes a tile may have next to one neighbor: those the neighbor's (rotated) slope
/// table lists for the tile's altitude over the neighbor.
pub open spec fn neighbor_options(tile: Tile, rotation: u8, n: (Compass, Tile)) -> Set<
    TerrainSlope,
> {
    let table = neighbor_table(n.0, normalized(rotation, n.1.terrain.slope));
    let offset = altitude_offset(tile.altitude, n.1.altitude);
    Set::new(|b: TerrainSlope| table.contains((b, offset)))
}

/// The slope table that applies from direction `dir`, for a neighbor slope.
fn table_for(dir: Compass, s: TerrainSlope) -> (r: Vec<(TerrainSlope, i8)>)
    ensures
        r@ == neighbor_table(dir, s),
{
    match dir {
        Compass::North => s.valid_south_neighbors(),
        Compass::East => s.valid_west_neighbors(),
        Compass::South => s.valid_north_neighbors(),
        Compass::West => s.valid_east_neighbor(),
        Compass::NorthWest => s.valid_south_east_neighbors(),
        Compass::NorthEast => s.valid_south_west_neighbors(),
        Compass::SouthWest => s.valid_north_east_neighbors(),
        Compass::SouthEast => s.valid_north_west_neighbors(),
    }
}

fn offset_between(tile_altitude: u32, neighbor_altitude: u32) -> (r: i8)
    ensures
        r == altitude_offset(tile_altitude, neighbor_altitude),
{
    let d: i64 = tile_altitude as i64 - neighbor_altitude as i64;
    if -128 <= d && d <= 127 {
        d as i8
    } else {
        -128
    }
}

/// Whether a list of slopes holds a slope.
pub fn contains_slope(v: &Vec<TerrainSlope>, s: TerrainSlope) -> (r: bool)
    ensures
        r == v@.contains(s),
{
    let mut i: usize = 0;
    while i < v.len()
        invariant
            0 <= i <= v.len(),
            forall|j: int| 0 <= j < i ==> v@[j] != s,
        decreases v.len() - i,
    {
        if v[i] == s {
            return true;
        }
        i = i + 1;
    }
    false
}

/// The slopes a tile may have next to one neighbor, without repeats.
fn options_from(tile: &Tile, rotation: &TerrainRotation, dir: Compass, neighbor: &Tile) -> (r: Vec<
    TerrainSlope,
>)
    ensures
        r@.to_set() == neighbor_options(*tile, rotation@, (dir, *neighbor)),
        r@.no_duplicates(),
{
    let table = table_for(dir, rotation.normalize_slope(neighbor.terrain.slope));
    let offset = offset_between(tile.altitude, neighbor.altitude);
    let ghost target = neighbor_options(*tile, rotation@, (dir, *neighbor));
    let mut result: Vec<TerrainSlope> = Vec::new();
    let mut i: usize = 0;
    while i < table.len()
        invariant
            0 <= i <= table.len(),
            offset == altitude_offset(tile.altitude, neighbor.altitude),
            table@ == neighbor_table(dir, normalized(rotation@, neighbor.terrain.slope)),
            result@.no_duplicates(),
            forall|b: TerrainSlope|
                result@.contains(b) <==> (exists|j: int| 0 <= j < i && #[trigger] table@[j] == (b, offset)),
        decreases table.len() - i,
    {
        let (b, alt) = table[i];
        let ghost before = result@;
        if alt == offset && !contains_slope(&result, b) {
            result.push(b);
        }
        assert forall|c: TerrainSlope|
            result@.contains(c) <==> (exists|j: int|
                0 <= j < i + 1 && #[trigger] table@[j] == (c, offset)) by {
            if result@.contains(c) {
                if before.contains(c) {
                    let j = choose|j: int| 0 <= j < i && #[trigger] table@[j] == (c, offset);
                    assert(table@[j] == (c, offset));
                } else {
                    assert(result@ == before.push(b));
                    assert(c == b);
                    assert(table@[i as int] == (c, offset));
                }
            }
            if exists|j: int| 0 <= j < i + 1 && #[trigger] table@[j] == (c, offset) {
                let j = choose|j: int| 0 <= j < i + 1 && #[trigger] table@[j] == (c, offset);
                if j < i {
                    assert(before.contains(c));
                    assert(result@.contains(c)) by {
                        if result@ != before {
                            assert(result@ == before.push(b));
                            let k = choose|k: int| 0 <= k < before.len() && before[k] == c;
                            assert(result@[k] == c);
                        }
                    }
                } else {
                    assert(c == b && alt == offset);
                    if result@ != before {
                        assert(result@ == before.push(b));
                        assert(result@[before.len() as int] == b);
                    }
                }
            }
        }
        i = i + 1;
    }
    assert forall|b: TerrainSlope| result@.to_set().contains(b) == target.contains(b) by {
        if target.contains(b) {
            let j = choose|j: int| 0 <= j < table@.len() && table@[j] == (b, offset);
            assert(table@[j] == (b, offset));
        }
    }
    assert(result@.to_set() =~= target);
    result
}

/// The slope options of each neighbor of a tile, with the neighbor and its direction.
pub fn get_valid_tile_slopes_from_neighbors(
    tile: &Tile,
    rotation: &TerrainRotation,
    tilelist: &TileList,
) -> (r: Vec<(Compass, Tile, Vec<TerrainSlope>)>)
    requires
        neighbors_addressable(*tile),
    ensures
        r@.len() == tile_neighbors(tilelist@, *tile).len(),
        r@.len() <= 8,
        forall|i: int|
            0 <= i < r@.len() ==> (#[trigger] r@[i]).0 == tile_neighbors(tilelist@, *tile)[i].0
                && r@[i].1 == tile_neighbors(tilelist@, *tile)[i].1 && r@[i].2@.to_set()
                == neighbor_options(*tile, rotation@, tile_neighbors(tilelist@, *tile)[i])
                && r@[i].2@.no_duplicates(),
{
    let neighbors = get_tile_neighbors(tilelist, tile);
    let mut result: Vec<(Compass, Tile, Vec<TerrainSlope>)> = Vec::new();
    let mut i: usize = 0;
    while i < neighbors.len()
        invariant
            0 <= i <= neighbors.len(),
            neighbors@ == tile_neighbors(tilelist@, *tile),
            result@.len() == i,
            forall|k: int|
                0 <= k < i ==> (#[trigger] result@[k]).0 == neighbors@[k].0 && result@[k].1
                    == neighbors@[k].1 && result@[k].2@.to_set() == neighbor_options(
                    *tile,
                    rotation@,
                    neighbors@[k],
                ) && result@[k].2@.no_duplicates(),
        decreases neighbors.len() - i,
    {
        let (dir, neighbor) = &neighbors[i];
        let options = options_from(tile, rotation, *dir, neighbor);
        result.push((*dir, neighbor.clone(), options));
        i = i + 1;
    }
    result
}

/// How many neighbors a tile's slope does not fit, and how many of those are not built on.
#[derive(Default, Debug, Clone, Copy)]
pub struct TileValidationResult {
    pub invalid_tiles: u8,
    pub empty_invalid_tiles: u8,
}

impl TileValidationResult {
    /// Whether any neighbor does not fit.
    pub fn is_invalid(&self) -> (r: bool)
        ensures
            r == (self.invalid_tiles > 0),
    {
        self.invalid_tiles > 0
    }
}

/// Whether the tile's (rotated) slope is missing from the options that one neighbor allows.
pub open spec fn misfits(tile: Tile, rotation: u8, n: (Compass, Tile)) -> bool {
    !neighbor_options(tile, rotation, n).contains(normalized(rotation, tile.terrain.slope))
}

/// The number of neighbors in `ns` whose options the tile's slope misses.
pub open spec fn count_misfits(tile: Tile, rotation: u8, ns: Seq<(Compass, Tile)>) -> nat
    decreases ns.len(),
{
    if ns.len() == 0 {
        0
    } else {
        count_misfits(tile, rotation, ns.drop_last()) + if misfits(tile, rotation, ns.last()) {
            1nat
        } else {
            0nat
        }
    }
}

/// The number of neighbors in `ns` without a building whose options the tile's slope misses.
pub open spec fn count_empty_misfits(tile: Tile, rotation: u8, ns: Seq<(Compass, Tile)>) -> nat
    decreases ns.len(),
{
    if ns.len() == 0 {
        0
    } else {
        count_empty_misfits(tile, rotation, ns.drop_last()) + if misfits(tile, rotation, ns.last())
            && !tile_has_building(ns.last().1) {
            1nat
        } else {
            0nat
        }
    }
}

/// A tile's slope misses at most as many neighbors as it has, and at most as many empty
/// ones as it misses in all.
pub proof fn lemma_counts_bounded(tile: Tile, rotation: u8, ns: Seq<(Compass, Tile)>)
    ensures
        count_misfits(tile, rotation, ns) <= ns.len(),
        count_empty_misfits(tile, rotation, ns) <= count_misfits(tile, rotation, ns),
    decreases ns.len(),
{
    if ns.len() > 0 {
        lemma_counts_bounded(tile, rotation, ns.drop_last());
    }
}

/// The side of a neighbor on which the tile lies: opposite to the neighbor's direction.
pub open spec fn opposite(d: Compass) -> Compass {
    match d {
        Compass::North => Compass::South,
        Compass::South => Compass::North,
        Compass::East => Compass::West,
        Compass::West => Compass::East,
        Compass::NorthWest => Compass::SouthEast,
        Compass::SouthEast => Compass::NorthWest,
        Compass::NorthEast => Compass::SouthWest,
        Compass::SouthWest => Compass::NorthEast,
    }
}

/// The tile's corners meet those of a neighbor: both have ground slopes under the
/// rotation, and every corner they share stands at the same height, counting the tile's
/// altitude over the neighbor.
pub open spec fn corners_fit(tile: Tile, rotation: u8, n: (Compass, Tile)) -> bool {
    let ns = normalized(rotation, n.1.terrain.slope);
    let ts = normalized(rotation, tile.terrain.slope);
    &&& is_ground_slope(ns)
    &&& is_ground_slope(ts)
    &&& neighbor_meets(opposite(n.0), ns, (ts, altitude_offset(tile.altitude, n.1.altitude)))
}

/// A neighbor whose corners meet the tile's is no misfit.
pub proof fn lemma_fitting_neighbor_is_no_misfit(tile: Tile, rotation: u8, n: (Compass, Tile))
    requires
        corners_fit(tile, rotation, n),
    ensures
        !misfits(tile, rotation, n),
{
    let ns = normalized(rotation, n.1.terrain.slope);
    let ts = normalized(rotation, tile.terrain.slope);
    let offset = altitude_offset(tile.altitude, n.1.altitude);
    lemma_tables_complete(opposite(n.0), ns, ts, offset);
    assert(neighbor_table(n.0, ns) == side_table(opposite(n.0), ns));
    assert(neighbor_options(tile, rotation, n).contains(ts));
}

/// A tile whose corners meet those of every neighbor in `ns` misfits none of them.
pub proof fn lemma_fitting_tile_has_no_misfits(tile: Tile, rotation: u8, ns: Seq<(Compass, Tile)>)
    requires
        forall|i: int| 0 <= i < ns.len() ==> corners_fit(tile, rotation, #[trigger] ns[i]),
    ensures
        count_misfits(tile, rotation, ns) == 0,
        count_empty_misfits(tile, rotation, ns) == 0,
    decreases ns.len(),
{
    if ns.len() > 0 {
        lemma_fitting_tile_has_no_misfits(tile, rotation, ns.drop_last());
        lemma_fitting_neighbor_is_no_misfit(tile, rotation, ns.last());
        lemma_counts_bounded(tile, rotation, ns);
    }
}

/// Validates the slope of a tile: counts the neighbors that its slope does not fit.
pub fn validate_tile_slope(tilelist: &TileList, tile: &Tile, rotation: &TerrainRotation) -> (r:
    TileValidationResult)
    requires
        neighbors_addressable(*tile),
    ensures
        r.invalid_tiles == count_misfits(*tile, rotation@, tile_neighbors(tilelist@, *tile)),
        r.empty_invalid_tiles == count_empty_misfits(
            *tile,
            rotation@,
            tile_neighbors(tilelist@, *tile),
        ),
{
    let neighbors = get_valid_tile_slopes_from_neighbors(tile, rotation, tilelist);
    let ghost ns = tile_neighbors(tilelist@, *tile);
    let own = rotation.normalize_slope(tile.terrain.slope);
    let mut result = TileValidationResult { invalid_tiles: 0, empty_invalid_tiles: 0 };
    let mut i: usize = 0;
    while i < neighbors.len()
        invariant
            0 <= i <= neighbors.len(),
            neighbors@.len() == ns.len(),
            ns.len() <= 8,
            own == normalized(rotation@, tile.terrain.slope),
            forall|k: int|
                0 <= k < neighbors@.len() ==> (#[trigger] neighbors@[k]).0 == ns[k].0
                    && neighbors@[k].1 == ns[k].1 && neighbors@[k].2@.to_set() == neighbor_options(
                    *tile,
                    rotation@,
                    ns[k],
                ),
            result.invalid_tiles == count_misfits(*tile, rotation@, ns.take(i as int)),
            result.empty_invalid_tiles == count_empty_misfits(*tile, rotation@, ns.take(i as int)),
        decreases neighbors.len() - i,
    {
        let (_, neighbor_tile, valid_options) = &neighbors[i];
        assert(ns.take(i as int + 1).drop_last() =~= ns.take(i as int));
        proof {
            lemma_counts_bounded(*tile, rotation@, ns.take(i as int));
            assert(valid_options@.to_set().contains(own) == valid_options@.contains(own));
        }
        if !contains_slope(valid_options, own) {
            result.invalid_tiles = result.invalid_tiles + 1;
            if !neighbor_tile.has_building() {
                result.empty_invalid_tiles = result.empty_invalid_tiles + 1;
            }
        }
        i = i + 1;
    }
    assert(ns.take(ns.len() as int) =~= ns);
    result
}

/// The slopes that all neighbors in `ns` allow; no neighbors allow nothing.
pub open spec fn common_options(tile: Tile, rotation: u8, ns: Seq<(Compass, Tile)>) -> Set<
    TerrainSlope,
>
    decreases ns.len(),
{
    if ns.len() == 0 {
        Set::empty()
    } else if ns.len() == 1 {
        neighbor_options(tile, rotation, ns[0])
    } else {
        common_options(tile, rotation, ns.drop_last()).intersect(
            neighbor_options(tile, rotation, ns.last()),
        )
    }
}

proof fn lemma_common_options_fit(tile: Tile, rotation: u8, ns: Seq<(Compass, Tile)>)
    requires
        ns.len() > 0,
    ensures
        common_options(tile, rotation, ns).contains(normalized(rotation, tile.terrain.slope))
            <==> count_misfits(tile, rotation, ns) == 0,
    decreases ns.len(),
{
    let x = normalized(rotation, tile.terrain.slope);
    if ns.len() == 1 {
        assert(ns.drop_last().len() == 0);
        assert(ns.last() == ns[0]);
        assert(count_misfits(tile, rotation, ns.drop_last()) == 0);
        assert(common_options(tile, rotation, ns) == neighbor_options(tile, rotation, ns[0]));
    } else {
        lemma_common_options_fit(tile, rotation, ns.drop_last());
        let prev = common_options(tile, rotation, ns.drop_last());
        let last = neighbor_options(tile, rotation, ns.last());
        assert(common_options(tile, rotation, ns) == prev.intersect(last));
        assert(prev.intersect(last).contains(x) == (prev.contains(x) && last.contains(x)));
    }
}

/// For a tile with at least one neighbor, its slope is among the slopes that all its
/// neighbors allow exactly when validating it finds no neighbor that the slope misfits.
pub proof fn lemma_valid_slopes_match_validation(m: Map<TileCoords, Tile>, tile: Tile, rotation: u8)
    requires
        tile_neighbors(m, tile).len() > 0,
    ensures
        common_options(tile, rotation, tile_neighbors(m, tile)).contains(
            normalized(rotation, tile.terrain.slope),
        ) <==> count_misfits(tile, rotation, tile_neighbors(m, tile)) == 0,
{
    lemma_common_options_fit(tile, rotation, tile_neighbors(m, tile));
}

/// The slopes that every neighbor of the tile allows, without repeats.
pub fn valid_slopes(tilelist: &TileList, tile: &Tile, rotation: &TerrainRotation) -> (r: Vec<
    TerrainSlope,
>)
    requires
        neighbors_addressable(*tile),
    ensures
        r@.to_set() == common_options(*tile, rotation@, tile_neighbors(tilelist@, *tile)),
        r@.no_duplicates(),
{
    let neighbors = get_valid_tile_slopes_from_neighbors(tile, rotation, tilelist);
    let ghost ns = tile_neighbors(tilelist@, *tile);
    if neighbors.len() == 0 {
        assert(Seq::<TerrainSlope>::empty().to_set() =~= Set::empty());
        return Vec::new();
    }
    let mut acc: Vec<TerrainSlope> = neighbors[0].2.clone();
    assert(ns.take(1) =~= seq![ns[0]]);
    let mut i: usize = 1;
    while i < neighbors.len()
        invariant
            1 <= i <= neighbors.len(),
            neighbors@.len() == ns.len(),
            forall|k: int|
                0 <= k < neighbors@.len() ==> (#[trigger] neighbors@[k]).2@.to_set() == neighbor_options(
                    *tile,
                    rotation@,
                    ns[k],
                ),
            acc@.to_set() == common_options(*tile, rotation@, ns.take(i as int)),
            acc@.no_duplicates(),
        decreases neighbors.len() - i,
    {
        let next = &neighbors[i].2;
        let ghost prev = acc@;
        let mut kept: Vec<TerrainSlope> = Vec::new();
        let mut j: usize = 0;
        while j < acc.len()
            invariant
                0 <= j <= acc.len(),
                acc@ == prev,
                prev.no_duplicates(),
                kept@.no_duplicates(),
                forall|b: TerrainSlope|
                    kept@.contains(b) <==> (prev.take(j as int).contains(b) && next@.contains(b)),
            decreases acc.len() - j,
        {
            let b = acc[j];
            let ghost before = kept@;
            assert(prev.take(j as int + 1) =~= prev.take(j as int).push(b));
            if contains_slope(next, b) {
                assert(!prev.take(j as int).contains(b)) by {
                    if prev.take(j as int).contains(b) {
                        let k = choose|k: int| 0 <= k < j && #[trigger] prev.take(j as int)[k] == b;
                        assert(prev[k] == prev[j as int]);
                    }
                }
                kept.push(b);
            }
            assert forall|c: TerrainSlope|
                kept@.contains(c) <==> (prev.take(j as int + 1).contains(c) && next@.contains(c)) by {
                if kept@.contains(c) {
                    let in_before = before.contains(c);
                    if kept@ != before {
                        assert(kept@ == before.push(b));
                        if c != b {
                            let k = choose|k: int| 0 <= k < kept@.len() && kept@[k] == c;
                            assert(before[k] == c);
                        } else {
                            assert(prev.take(j as int + 1)[j as int] == b);
                        }
                    }
                    if before.contains(c) {
                        let k = choose|k: int| 0 <= k < j && #[trigger] prev.take(j as int)[k] == c;
                        assert(prev.take(j as int + 1)[k] == c);
                    }
                }
                if prev.take(j as int + 1).contains(c) && next@.contains(c) {
                    let k = choose|k: int| 0 <= k < j + 1 && #[trigger] prev.take(j as int + 1)[k] == c;
                    if k < j {
                        assert(prev.take(j as int)[k] == c);
                        assert(before.contains(c));
                        if kept@ != before {
                            let m = choose|m: int| 0 <= m < before.len() && before[m] == c;
                            assert(kept@[m] == c);
                        }
                    } else {
                        assert(c == b);
                        assert(kept@[kept@.len() - 1] == b);
                    }
                }
            }
            j = j + 1;
        }
        assert(prev.take(prev.len() as int) =~= prev);
        assert(ns.take(i as int + 1).drop_last() =~= ns.take(i as int));
        assert(ns.take(i as int + 1).last() == ns[i as int]);
        assert(kept@.to_set() =~= prev.to_set().intersect(next@.to_set()));
        acc = kept;
        i = i + 1;
    }
    assert(ns.take(ns.len() as int) =~= ns);
    acc
}

} // verus!
