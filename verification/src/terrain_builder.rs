//! Turning the tile list of a city into terrain surfaces: which surfaces each tile gets,
//! which tiles need their slope repaired, and how the work is cut into chunks.

use std::collections::BTreeMap;

use vstd::prelude::*;

use crate::city_data::{
    count_misfits, neighbors_addressable, tile_has_building, tile_neighbors, validate_tile_slope,
    wrapping_dec, TerrainType, Tile, TileCoords, TileList, TileValidationResult,
};
use crate::terrain_rotation::TerrainRotation;
use crate::terrain_slope::TerrainSlope;
use crate::tile_surface::{
    can_reach_corners, corners_reachable, raised_corners, Corner, SurfaceModel, TileSurface,
    TileSurfaceType,
};

verus! {

broadcast use {vstd::laws_cmp::group_laws_cmp, crate::tile_surface::lemma_four_corners};

/// The settings under which the terrain of a city is built.
#[derive(Clone, Copy, Debug)]
pub struct TerrainContext {
    pub tile_size: u8,
    pub city_size: u32,
    pub tile_height: u8,
    pub sea_level: u16,
    pub chunk_size: u32,
    pub rotation: TerrainRotation,
    pub debug_render_invalid: bool,
    pub render_water: bool,
}

/// The views of a list of surfaces.
pub open spec fn models(v: Seq<TileSurface>) -> Seq<SurfaceModel> {
    v.map_values(|s: TileSurface| s@)
}

/// A ground surface between two tiles of different height that their slopes leave open:
/// a plain slope next to a flat tile at the same height or a raised-flat tile below, or a
/// raised-flat tile next to a tile at the same height.
pub open spec fn invalid_cliff(tile: Tile, neighbor: Tile) -> bool {
    let s = tile.terrain.slope;
    let invalid_slope = (s == TerrainSlope::West || s == TerrainSlope::South || s
        == TerrainSlope::East || s == TerrainSlope::North) && (tile.altitude == neighbor.altitude
        && neighbor.terrain.slope == TerrainSlope::Flat || tile.altitude > neighbor.altitude
        && neighbor.terrain.slope == TerrainSlope::All);
    let invalid_plateau = s == TerrainSlope::All && tile.altitude == neighbor.altitude;
    invalid_slope || invalid_plateau
}

/// Detects two neighbors whose slopes leave a 90 degree cliff between them.
pub fn is_invalid_cliff(tile: &Tile, neighbor: &Tile) -> (r: bool)
    ensures
        r == invalid_cliff(*tile, *neighbor),
{
    let invalid_slope = matches!(
        tile.terrain.slope,
        TerrainSlope::West | TerrainSlope::South | TerrainSlope::East | TerrainSlope::North
    ) && (tile.altitude == neighbor.altitude && neighbor.terrain.slope == TerrainSlope::Flat
        || tile.altitude > neighbor.altitude && neighbor.terrain.slope == TerrainSlope::All);
    let invalid_plateau = matches!(tile.terrain.slope, TerrainSlope::All) && tile.altitude
        == neighbor.altitude;
    invalid_slope || invalid_plateau
}

/// A waterfall edge: the neighbor is lower, or at the same height but not itself a
/// waterfall of surface water.
pub open spec fn water_cliff(tile: Tile, neighbor: Tile) -> bool {
    neighbor.altitude < tile.altitude || neighbor.altitude == tile.altitude && (!(
    neighbor.terrain.ty == TerrainType::SurfaceWater || neighbor.terrain.ty
        == TerrainType::MoreSurfaceWater) || neighbor.terrain.slope != TerrainSlope::VertialCliff)
}

/// Detects a waterfall cliff.
pub fn is_water_cliff(tile: &Tile, neighbor: &Tile) -> (r: bool)
    ensures
        r == water_cliff(*tile, *neighbor),
{
    neighbor.altitude < tile.altitude || neighbor.altitude == tile.altitude && (!matches!(
        neighbor.terrain.ty,
        TerrainType::SurfaceWater | TerrainType::MoreSurfaceWater
    ) || !matches!(neighbor.terrain.slope, TerrainSlope::VertialCliff))
}

/// A side surface with the given corners: ground at resolution one for a cliff, water at
/// resolution three for a waterfall.
pub open spec fn side_model(kind: TileSurfaceType, corners: Seq<Corner>) -> SurfaceModel {
    SurfaceModel {
        kind,
        corners,
        resolution: if kind == TileSurfaceType::Ground { 1 } else { 3 },
        fixed: false,
        invalid: false,
    }
}

/// The side surface toward `neighbor_coords`, if the tile list holds a neighbor there for
/// which the test holds.
pub open spec fn side_surface(
    m: Map<TileCoords, Tile>,
    tile: Tile,
    neighbor_coords: TileCoords,
    kind: TileSurfaceType,
    corners: Seq<Corner>,
) -> Seq<SurfaceModel> {
    if m.contains_key(neighbor_coords) && (if kind == TileSurfaceType::Ground {
        invalid_cliff(tile, m[neighbor_coords])
    } else {
        water_cliff(tile, m[neighbor_coords])
    }) {
        seq![side_model(kind, corners)]
    } else {
        seq![]
    }
}

/// Pushes the side surface toward `neighbor_coords`, if the neighbor there calls for one.
fn handle_side(
    neighbor_coords: TileCoords,
    kind: TileSurfaceType,
    corners: [Corner; 4],
    tile: &Tile,
    tilelist: &TileList,
    surfaces: &mut Vec<TileSurface>,
)
    ensures
        models(final(surfaces)@) == models(old(surfaces)@) + side_surface(
            tilelist@,
            *tile,
            neighbor_coords,
            kind,
            corners@,
        ),
{
    let found = match tilelist.get(&neighbor_coords) {
        Some(neighbor) => match kind {
            TileSurfaceType::Ground => is_invalid_cliff(tile, neighbor),
            TileSurfaceType::Water => is_water_cliff(tile, neighbor),
        },
        None => false,
    };
    let ghost before = surfaces@;
    if found {
        let mut side = TileSurface::new(kind);
        match kind {
            TileSurfaceType::Ground => side.set_resolution(1),
            TileSurfaceType::Water => side.set_resolution(3),
        }
        side.set_corners(corners);
        surfaces.push(side);
        assert(models(surfaces@) =~= models(before) + seq![side_model(kind, corners@)]);
    } else {
        assert(models(surfaces@) =~= models(before));
    }
}


/// A corner at world position `(x, height, z)`.
pub open spec fn corner_at(x: int, height: int, z: int) -> Corner {
    Corner { x: x as i64, y: height as i64, z: z as i64 }
}

/// The world x of the tile's north-west corner.
pub open spec fn tile_world_x(ctx: TerrainContext, t: Tile) -> int {
    t.coordinates.0 * ctx.tile_size
}

/// The world z of the tile's north-west corner.
pub open spec fn tile_world_z(ctx: TerrainContext, t: Tile) -> int {
    t.coordinates.1 * ctx.tile_size
}

/// The world height of the tile's ground before its slope.
pub open spec fn tile_world_height(ctx: TerrainContext, t: Tile) -> int {
    t.altitude * ctx.tile_height
}

/// The four corners of a flat tile at its altitude, in slot order.
pub open spec fn base_corners(ctx: TerrainContext, t: Tile) -> Seq<Corner> {
    let x = tile_world_x(ctx, t);
    let z = tile_world_z(ctx, t);
    let h = tile_world_height(ctx, t);
    let s = ctx.tile_size as int;
    seq![corner_at(x, h, z), corner_at(x + s, h, z), corner_at(x, h, z + s), corner_at(x + s, h, z + s)]
}

/// The ground surface of a tile: its flat corners raised by its slope.
pub open spec fn ground_model(ctx: TerrainContext, m: Map<TileCoords, Tile>, t: Tile) -> SurfaceModel {
    SurfaceModel {
        kind: TileSurfaceType::Ground,
        corners: raised_corners(base_corners(ctx, t), t.terrain.slope, ctx.rotation@, ctx.tile_height),
        resolution: 2,
        fixed: tile_has_building(t),
        invalid: ctx.debug_render_invalid && count_misfits(t, ctx.rotation@, tile_neighbors(m, t)) > 0,
    }
}

/// Corners with every height set to `y`.
pub open spec fn leveled(cs: Seq<Corner>, y: int) -> Seq<Corner> {
    Seq::new(4, |k: int| Corner { y: y as i64, ..cs[k] })
}

/// Corners with every height lowered by `d`.
pub open spec fn lowered(cs: Seq<Corner>, d: int) -> Seq<Corner> {
    Seq::new(4, |k: int| Corner { y: (cs[k].y - d) as i64, ..cs[k] })
}

/// The cliff surfaces of a dry tile toward its four straight neighbors.
pub open spec fn dry_cliffs(ctx: TerrainContext, m: Map<TileCoords, Tile>, t: Tile, c: Seq<Corner>) -> Seq<
    SurfaceModel,
> {
    let x = tile_world_x(ctx, t);
    let z = tile_world_z(ctx, t);
    let h = tile_world_height(ctx, t);
    let s = ctx.tile_size as int;
    let (cx, cy) = t.coordinates;
    side_surface(m, t, (wrapping_dec(cx), cy), TileSurfaceType::Ground, seq![corner_at(x, h, z), c[0], corner_at(x, h, z + s), c[2]])
        + side_surface(m, t, ((cx + 1) as u32, cy), TileSurfaceType::Ground, seq![corner_at(x + s, h, z + s), c[3], corner_at(x + s, h, z), c[1]])
        + side_surface(m, t, (cx, wrapping_dec(cy)), TileSurfaceType::Ground, seq![corner_at(x + s, h, z), c[1], corner_at(x, h, z), c[0]])
        + side_surface(m, t, (cx, (cy + 1) as u32), TileSurfaceType::Ground, seq![corner_at(x, h, z + s), c[2], corner_at(x + s, h, z + s), c[3]])
}

/// The waterfall surfaces of a cliff of surface water toward its four straight neighbors.
pub open spec fn waterfall_sides(ctx: TerrainContext, m: Map<TileCoords, Tile>, t: Tile) -> Seq<SurfaceModel> {
    let x = tile_world_x(ctx, t);
    let z = tile_world_z(ctx, t);
    let h = tile_world_height(ctx, t);
    let s = ctx.tile_size as int;
    let d = ctx.tile_height as int;
    let (cx, cy) = t.coordinates;
    side_surface(m, t, (wrapping_dec(cx), cy), TileSurfaceType::Water, seq![corner_at(x, h, z), corner_at(x, h + d, z), corner_at(x, h, z + s), corner_at(x, h + d, z + s)])
        + side_surface(m, t, ((cx + 1) as u32, cy), TileSurfaceType::Water, seq![corner_at(x + s, h, z + s), corner_at(x + s, h + d, z + s), corner_at(x + s, h, z), corner_at(x + s, h + d, z)])
        + side_surface(m, t, (cx, wrapping_dec(cy)), TileSurfaceType::Water, seq![corner_at(x + s, h, z), corner_at(x + s, h + d, z), corner_at(x, h, z), corner_at(x, h + d, z)])
        + side_surface(m, t, (cx, (cy + 1) as u32), TileSurfaceType::Water, seq![corner_at(x, h, z + s), corner_at(x, h + d, z + s), corner_at(x + s, h, z + s), corner_at(x + s, h + d, z + s)])
}

/// The surfaces of one tile: its ground first, then whatever water and side surfaces it
/// needs. A tile whose slope is still undetermined has none.
pub open spec fn tile_surfaces(ctx: TerrainContext, m: Map<TileCoords, Tile>, t: Tile) -> Seq<SurfaceModel> {
    if t.terrain.slope == TerrainSlope::Undetermined {
        seq![]
    } else {
        let g = ground_model(ctx, m, t);
        let d = ctx.tile_height as int;
        match t.terrain.ty {
            TerrainType::DryLand => seq![g] + dry_cliffs(ctx, m, t, g.corners),
            TerrainType::Underwater | TerrainType::Shoreline => {
                if ctx.sea_level >= t.altitude && ctx.render_water {
                    seq![g, SurfaceModel {
                        kind: TileSurfaceType::Water,
                        corners: leveled(g.corners, ctx.tile_height * ctx.sea_level),
                        resolution: 3,
                        ..g
                    }]
                } else {
                    seq![g]
                }
            },
            TerrainType::SurfaceWater if t.terrain.slope == TerrainSlope::VertialCliff => {
                seq![
                    SurfaceModel { corners: lowered(g.corners, d), ..g },
                    SurfaceModel { kind: TileSurfaceType::Water, resolution: 3, ..g },
                ] + waterfall_sides(ctx, m, t)
            },
            _ => seq![
                SurfaceModel { corners: lowered(g.corners, d), ..g },
                SurfaceModel {
                    kind: TileSurfaceType::Water,
                    corners: leveled(g.corners, tile_world_height(ctx, t)),
                    resolution: 3,
                    ..g
                },
            ],
        }
    }
}

/// What a tile needs for its surfaces to be computed: its position and height stay within
/// range, its slope can look up the corners it raises, and water tiles can reach all four
/// corners of the rotation.
pub open spec fn surfaces_computable(ctx: TerrainContext, t: Tile) -> bool {
    &&& neighbors_addressable(t)
    &&& t.coordinates.0 * ctx.tile_size <= u32::MAX
    &&& t.coordinates.1 * ctx.tile_size <= u32::MAX
    &&& t.altitude * ctx.tile_height <= u32::MAX
    &&& corners_reachable(t.terrain.slope, ctx.rotation@)
    &&& (t.terrain.ty == TerrainType::SurfaceWater || t.terrain.ty == TerrainType::MoreSurfaceWater)
        ==> ctx.rotation@ <= 252
}


/// Levels all four corners to height `y`, slot by slot through the rotation.
fn level_corners(surface: &mut TileSurface, rotation: &TerrainRotation, y: i64)
    requires
        rotation@ <= 252,
    ensures
        final(surface)@ == (SurfaceModel { corners: leveled(old(surface)@.corners, y as int), ..old(surface)@ }),
{
    proof {
        crate::tile_surface::lemma_slots_distinct(rotation@);
        crate::tile_surface::lemma_slots_cover(rotation@);
    }
    let ghost start = surface@;
    surface.set_corner_height(rotation.nw(), y);
    surface.set_corner_height(rotation.ne(), y);
    surface.set_corner_height(rotation.sw(), y);
    surface.set_corner_height(rotation.se(), y);
    assert(surface@.corners =~= leveled(start.corners, y as int));
}

/// Lowers all four corners by `d`, slot by slot through the rotation.
fn lower_corners(surface: &mut TileSurface, rotation: &TerrainRotation, d: u8)
    requires
        rotation@ <= 252,
        forall|k: int| 0 <= k < 4 ==> (#[trigger] old(surface)@.corners[k]).y >= 0,
    ensures
        final(surface)@ == (SurfaceModel { corners: lowered(old(surface)@.corners, d as int), ..old(surface)@ }),
{
    proof {
        crate::tile_surface::lemma_slots_distinct(rotation@);
        crate::tile_surface::lemma_slots_cover(rotation@);
    }
    let ghost start = surface@;
    let k0 = rotation.nw();
    let k1 = rotation.ne();
    let k2 = rotation.sw();
    let k3 = rotation.se();
    assert(start.corners[k0 as int].y >= 0);
    surface.shift_corner(k0, -(d as i64));
    assert(surface@.corners[k1 as int] == start.corners[k1 as int]);
    surface.shift_corner(k1, -(d as i64));
    assert(k2 != k0 && k2 != k1);
    assert(surface@.corners[k2 as int] == start.corners[k2 as int]);
    surface.shift_corner(k2, -(d as i64));
    assert(k3 != k0 && k3 != k1 && k3 != k2);
    assert(surface@.corners[k3 as int] == start.corners[k3 as int]);
    surface.shift_corner(k3, -(d as i64));
    assert(surface@.corners =~= lowered(start.corners, d as int));
}

/// Levels corner slots 0 to 3 to height `y`.
fn level_slots(surface: &mut TileSurface, y: i64)
    ensures
        final(surface)@ == (SurfaceModel { corners: leveled(old(surface)@.corners, y as int), ..old(surface)@ }),
{
    let ghost start = surface@;
    surface.set_corner_height(0, y);
    surface.set_corner_height(1, y);
    surface.set_corner_height(2, y);
    surface.set_corner_height(3, y);
    assert(surface@.corners =~= leveled(start.corners, y as int));
}

/// One where the map holds a tile at `c` at the given altitude, zero otherwise.
pub open spec fn level_neighbor(m: Map<TileCoords, Tile>, c: TileCoords, altitude: u32) -> int {
    if m.contains_key(c) && m[c].altitude == altitude {
        1
    } else {
        0
    }
}

/// The number of straight neighbors of a tile that the map holds at the tile's altitude.
pub open spec fn level_straight_neighbors(m: Map<TileCoords, Tile>, t: Tile) -> int {
    let (cx, cy) = t.coordinates;
    level_neighbor(m, (wrapping_dec(cx), cy), t.altitude) + level_neighbor(m, ((cx + 1) as u32, cy), t.altitude)
        + level_neighbor(m, (cx, wrapping_dec(cy)), t.altitude) + level_neighbor(m, (cx, (cy + 1) as u32), t.altitude)
}

/// One where the map holds a tile at `c` that leaves a cliff open next to `t`.
spec fn cliff_at(m: Map<TileCoords, Tile>, t: Tile, c: TileCoords) -> int {
    if m.contains_key(c) && invalid_cliff(t, m[c]) {
        1
    } else {
        0
    }
}

spec fn cliff_count(m: Map<TileCoords, Tile>, t: Tile) -> int {
    let (cx, cy) = t.coordinates;
    cliff_at(m, t, (wrapping_dec(cx), cy)) + cliff_at(m, t, ((cx + 1) as u32, cy)) + cliff_at(m, t, (cx, wrapping_dec(cy)))
        + cliff_at(m, t, (cx, (cy + 1) as u32))
}

proof fn lemma_dry_tile_sides(ctx: TerrainContext, m: Map<TileCoords, Tile>, t: Tile)
    requires
        t.terrain.slope != TerrainSlope::Undetermined,
        t.terrain.ty == TerrainType::DryLand,
    ensures
        tile_surfaces(ctx, m, t).len() == 1 + cliff_count(m, t),
        tile_surfaces(ctx, m, t)[0].kind == TileSurfaceType::Ground,
        forall|i: int|
            1 <= i < tile_surfaces(ctx, m, t).len() ==> (#[trigger] tile_surfaces(ctx, m, t)[i]).kind
                == TileSurfaceType::Ground && tile_surfaces(ctx, m, t)[i].resolution == 1,
{
    let g = ground_model(ctx, m, t);
    let sides = dry_cliffs(ctx, m, t, g.corners);
    assert(tile_surfaces(ctx, m, t) == seq![g] + sides);
    let x = tile_world_x(ctx, t);
    let z = tile_world_z(ctx, t);
    let h = tile_world_height(ctx, t);
    let sz = ctx.tile_size as int;
    let c = g.corners;
    let (cx, cy) = t.coordinates;
    let a = side_surface(m, t, (wrapping_dec(cx), cy), TileSurfaceType::Ground, seq![corner_at(x, h, z), c[0], corner_at(x, h, z + sz), c[2]]);
    let b = side_surface(m, t, ((cx + 1) as u32, cy), TileSurfaceType::Ground, seq![corner_at(x + sz, h, z + sz), c[3], corner_at(x + sz, h, z), c[1]]);
    let d = side_surface(m, t, (cx, wrapping_dec(cy)), TileSurfaceType::Ground, seq![corner_at(x + sz, h, z), c[1], corner_at(x, h, z), c[0]]);
    let e = side_surface(m, t, (cx, (cy + 1) as u32), TileSurfaceType::Ground, seq![corner_at(x, h, z + sz), c[2], corner_at(x + sz, h, z + sz), c[3]]);
    assert(sides == a + b + d + e);
    assert forall|i: int| 0 <= i < sides.len() implies (#[trigger] sides[i]).kind == TileSurfaceType::Ground
        && sides[i].resolution == 1 by {
        if i < a.len() {
            assert(sides[i] == a[i]);
        } else if i < a.len() + b.len() {
            assert(sides[i] == b[i - a.len()]);
        } else if i < a.len() + b.len() + d.len() {
            assert(sides[i] == d[i - a.len() - b.len()]);
        } else {
            assert(sides[i] == e[i - a.len() - b.len() - d.len()]);
        }
    }
    assert forall|i: int| 1 <= i < tile_surfaces(ctx, m, t).len() implies (#[trigger] tile_surfaces(ctx, m, t)[i]).kind
        == TileSurfaceType::Ground && tile_surfaces(ctx, m, t)[i].resolution == 1 by {
        assert(tile_surfaces(ctx, m, t)[i] == sides[i - 1]);
    }
}

/// A dry raised-flat tile is closed by a cliff wall toward every straight neighbor at its
/// own altitude: its surfaces are its ground, then one ground side of resolution one for
/// each such neighbor, and no others.
pub proof fn lemma_plateau_gets_cliff_walls(ctx: TerrainContext, m: Map<TileCoords, Tile>, t: Tile)
    requires
        t.terrain.slope == TerrainSlope::All,
        t.terrain.ty == TerrainType::DryLand,
    ensures
        tile_surfaces(ctx, m, t).len() == 1 + level_straight_neighbors(m, t),
        tile_surfaces(ctx, m, t)[0].kind == TileSurfaceType::Ground,
        forall|i: int|
            1 <= i < tile_surfaces(ctx, m, t).len() ==> (#[trigger] tile_surfaces(ctx, m, t)[i]).kind
                == TileSurfaceType::Ground && tile_surfaces(ctx, m, t)[i].resolution == 1,
{
    lemma_dry_tile_sides(ctx, m, t);
}

/// One where the map holds at `c` a flat tile at altitude `altitude`, or a raised-flat tile
/// below it; zero otherwise.
pub open spec fn gap_below(m: Map<TileCoords, Tile>, c: TileCoords, altitude: u32) -> int {
    if m.contains_key(c) && (m[c].altitude == altitude && m[c].terrain.slope == TerrainSlope::Flat
        || m[c].altitude < altitude && m[c].terrain.slope == TerrainSlope::All) {
        1
    } else {
        0
    }
}

/// A dry tile sloping to one side is closed by a cliff wall toward every straight
/// neighbor that is flat at its altitude or raised-flat below it, and toward no other.
pub proof fn lemma_plain_slope_cliff_walls(ctx: TerrainContext, m: Map<TileCoords, Tile>, t: Tile)
    requires
        t.terrain.slope == TerrainSlope::North || t.terrain.slope == TerrainSlope::South
            || t.terrain.slope == TerrainSlope::East || t.terrain.slope == TerrainSlope::West,
        t.terrain.ty == TerrainType::DryLand,
    ensures
        tile_surfaces(ctx, m, t).len() == 1 + gap_below(m, (wrapping_dec(t.coordinates.0), t.coordinates.1), t.altitude)
            + gap_below(m, ((t.coordinates.0 + 1) as u32, t.coordinates.1), t.altitude)
            + gap_below(m, (t.coordinates.0, wrapping_dec(t.coordinates.1)), t.altitude)
            + gap_below(m, (t.coordinates.0, (t.coordinates.1 + 1) as u32), t.altitude),
{
    lemma_dry_tile_sides(ctx, m, t);
}

/// A dry tile that is flat, or raised at one or three corners, or sloped in any way other
/// than to one side or raised flat, leaves no cliff open: its only surface is its ground.
pub proof fn lemma_other_slopes_have_no_walls(ctx: TerrainContext, m: Map<TileCoords, Tile>, t: Tile)
    requires
        t.terrain.slope != TerrainSlope::Undetermined,
        t.terrain.slope != TerrainSlope::All,
        t.terrain.slope != TerrainSlope::North,
        t.terrain.slope != TerrainSlope::South,
        t.terrain.slope != TerrainSlope::East,
        t.terrain.slope != TerrainSlope::West,
        t.terrain.ty == TerrainType::DryLand,
    ensures
        tile_surfaces(ctx, m, t).len() == 1,
{
    lemma_dry_tile_sides(ctx, m, t);
}

/// Computes the surfaces of one tile: its ground first, then whatever water, waterfall and
/// cliff surfaces it needs. A tile whose slope is still undetermined gets none.
#[verifier::rlimit(100)]
#[verifier::spinoff_prover]
pub fn generate_tile_surfaces(ctx: &TerrainContext, tile_data: &Tile, tilelist: &TileList) -> (r: Vec<TileSurface>)
    requires
        surfaces_computable(*ctx, *tile_data),
    ensures
        models(r@) == tile_surfaces(*ctx, tilelist@, *tile_data),
{
    let ts = ctx.tile_size as i64;
    let th = ctx.tile_height;
    let rotation = &ctx.rotation;
    let coords = tile_data.coordinates;
    let is_invalid_type = if ctx.debug_render_invalid {
        validate_tile_slope(tilelist, tile_data, rotation).is_invalid()
    } else {
        false
    };
    let tile_x = (coords.0 * ctx.tile_size as u32) as i64;
    let tile_y = (coords.1 * ctx.tile_size as u32) as i64;
    let tile_z = (tile_data.altitude * th as u32) as i64;
    let ghost g = ground_model(*ctx, tilelist@, *tile_data);
    let mut tile_surface = TileSurface::new(TileSurfaceType::Ground);
    let base = [
        Corner::new(tile_x, tile_z, tile_y),
        Corner::new(tile_x + ts, tile_z, tile_y),
        Corner::new(tile_x, tile_z, tile_y + ts),
        Corner::new(tile_x + ts, tile_z, tile_y + ts),
    ];
    assert(base@ =~= base_corners(*ctx, *tile_data));
    tile_surface.set_corners(base);
    tile_surface.set_fixed(tile_data.has_building());
    tile_surface.set_invalid(is_invalid_type);
    let mut extra: Vec<TileSurface> = Vec::new();
    let ghost before_slope = tile_surface@;
    tile_surface.apply_slope(tile_data.terrain.slope, rotation, th);
    assert forall|k: int| 0 <= k < 4 implies #[trigger] tile_surface@.corners[k] == g.corners[k] by {
        assert(before_slope.corners[k] == base_corners(*ctx, *tile_data)[k]);
        assert(tile_surface@.corners[k].y == before_slope.corners[k].y + crate::tile_surface::slot_raise(
            tile_data.terrain.slope,
            ctx.rotation@,
            k,
        ) * th);
        assert(tile_surface@.corners[k].x == before_slope.corners[k].x);
        assert(tile_surface@.corners[k].z == before_slope.corners[k].z);
        let raised = raised_corners(base_corners(*ctx, *tile_data), tile_data.terrain.slope, ctx.rotation@, th);
        assert(raised[k].x == before_slope.corners[k].x);
        assert(raised[k].z == before_slope.corners[k].z);
        assert(raised[k].y == tile_surface@.corners[k].y);
    }
    assert(tile_surface@.corners =~= g.corners);
    assert(tile_surface@ == g);
    match tile_data.terrain.ty {
        TerrainType::DryLand => {
            let c = tile_surface.corners();
            handle_side(
                (coords.0.wrapping_sub(1), coords.1),
                TileSurfaceType::Ground,
                [Corner::new(tile_x, tile_z, tile_y), c[0], Corner::new(tile_x, tile_z, tile_y + ts), c[2]],
                tile_data,
                tilelist,
                &mut extra,
            );
            handle_side(
                (coords.0 + 1, coords.1),
                TileSurfaceType::Ground,
                [Corner::new(tile_x + ts, tile_z, tile_y + ts), c[3], Corner::new(tile_x + ts, tile_z, tile_y), c[1]],
                tile_data,
                tilelist,
                &mut extra,
            );
            handle_side(
                (coords.0, coords.1.wrapping_sub(1)),
                TileSurfaceType::Ground,
                [Corner::new(tile_x + ts, tile_z, tile_y), c[1], Corner::new(tile_x, tile_z, tile_y), c[0]],
                tile_data,
                tilelist,
                &mut extra,
            );
            handle_side(
                (coords.0, coords.1 + 1),
                TileSurfaceType::Ground,
                [Corner::new(tile_x, tile_z, tile_y + ts), c[2], Corner::new(tile_x + ts, tile_z, tile_y + ts), c[3]],
                tile_data,
                tilelist,
                &mut extra,
            );
        },
        TerrainType::Underwater | TerrainType::Shoreline => {
            if ctx.sea_level as u32 >= tile_data.altitude {
                assert(th as i64 * ctx.sea_level as i64 <= 255 * 65535) by (nonlinear_arith)
                    requires
                        th <= 255,
                        ctx.sea_level <= 65535,
                ;
                let water_altitude = th as i64 * ctx.sea_level as i64;
                let mut water_tile = tile_surface;
                water_tile.set_kind(TileSurfaceType::Water);
                water_tile.set_resolution(3);
                level_slots(&mut water_tile, water_altitude);
                if ctx.render_water {
                    extra.push(water_tile);
                }
            }
        },
        TerrainType::SurfaceWater if tile_data.terrain.slope == TerrainSlope::VertialCliff => {
            let mut water_tile = tile_surface;
            water_tile.set_kind(TileSurfaceType::Water);
            water_tile.set_resolution(3);
            extra.push(water_tile);
            lower_corners(&mut tile_surface, rotation, th);
            let thi = th as i64;
            handle_side(
                (coords.0.wrapping_sub(1), coords.1),
                TileSurfaceType::Water,
                [
                    Corner::new(tile_x, tile_z, tile_y),
                    Corner::new(tile_x, tile_z + thi, tile_y),
                    Corner::new(tile_x, tile_z, tile_y + ts),
                    Corner::new(tile_x, tile_z + thi, tile_y + ts),
                ],
                tile_data,
                tilelist,
                &mut extra,
            );
            handle_side(
                (coords.0 + 1, coords.1),
                TileSurfaceType::Water,
                [
                    Corner::new(tile_x + ts, tile_z, tile_y + ts),
                    Corner::new(tile_x + ts, tile_z + thi, tile_y + ts),
                    Corner::new(tile_x + ts, tile_z, tile_y),
                    Corner::new(tile_x + ts, tile_z + thi, tile_y),
                ],
                tile_data,
                tilelist,
                &mut extra,
            );
            handle_side(
                (coords.0, coords.1.wrapping_sub(1)),
                TileSurfaceType::Water,
                [
                    Corner::new(tile_x + ts, tile_z, tile_y),
                    Corner::new(tile_x + ts, tile_z + thi, tile_y),
                    Corner::new(tile_x, tile_z, tile_y),
                    Corner::new(tile_x, tile_z + thi, tile_y),
                ],
                tile_data,
                tilelist,
                &mut extra,
            );
            handle_side(
                (coords.0, coords.1 + 1),
                TileSurfaceType::Water,
                [
                    Corner::new(tile_x, tile_z, tile_y + ts),
                    Corner::new(tile_x, tile_z + thi, tile_y + ts),
                    Corner::new(tile_x + ts, tile_z, tile_y + ts),
                    Corner::new(tile_x + ts, tile_z + thi, tile_y + ts),
                ],
                tile_data,
                tilelist,
                &mut extra,
            );
        },
        _ => {
            let mut water_tile = tile_surface;
            water_tile.set_kind(TileSurfaceType::Water);
            water_tile.set_resolution(3);
            level_corners(&mut water_tile, rotation, tile_z);
            extra.push(water_tile);
            lower_corners(&mut tile_surface, rotation, th);
        },
    }
    if matches!(tile_data.terrain.slope, TerrainSlope::Undetermined) {
        let empty: Vec<TileSurface> = Vec::new();
        assert(models(empty@) =~= seq![]);
        return empty;
    }
    let mut result: Vec<TileSurface> = Vec::new();
    result.push(tile_surface);
    let ghost head = result@;
    let ghost tail = extra@;
    result.append(&mut extra);
    assert(models(result@) =~= models(head) + models(tail));
    result
}


/// A block of tiles that is built into one mesh: its first tile and its side length.
#[derive(Clone, Copy, Debug)]
pub struct ChunkConfig {
    pub tile_coords: (u32, u32),
    pub size: u32,
}

/// The tile position of cell `n` of a chunk, counting row by row.
pub open spec fn chunk_cell(chunk: ChunkConfig, n: int) -> TileCoords {
    ((chunk.tile_coords.0 + n % (chunk.size as int)) as u32, (chunk.tile_coords.1 + n / (chunk.size as int)) as u32)
}

/// The surfaces of the first `n` cells of a chunk, row by row.
pub open spec fn chunk_surfaces_upto(ctx: TerrainContext, m: Map<TileCoords, Tile>, chunk: ChunkConfig, n: nat) -> Seq<SurfaceModel>
    decreases n,
{
    if n == 0 {
        seq![]
    } else {
        chunk_surfaces_upto(ctx, m, chunk, (n - 1) as nat) + tile_surfaces(ctx, m, m[chunk_cell(chunk, n - 1)])
    }
}

/// A chunk lies within coordinate range, every one of its cells is in the tile list, and
/// the surfaces of each can be computed.
pub open spec fn chunk_buildable(ctx: TerrainContext, m: Map<TileCoords, Tile>, chunk: ChunkConfig) -> bool {
    &&& chunk.tile_coords.0 + chunk.size <= u32::MAX
    &&& chunk.tile_coords.1 + chunk.size <= u32::MAX
    &&& forall|x: u32, y: u32|
        chunk.tile_coords.0 <= x < chunk.tile_coords.0 + chunk.size && chunk.tile_coords.1 <= y
            < chunk.tile_coords.1 + chunk.size ==> #[trigger] m.contains_key((x, y))
            && surfaces_computable(ctx, m[(x, y)])
}

/// Whether the surfaces of a tile can be computed in the given settings.
pub fn tile_surfaces_computable(ctx: &TerrainContext, t: &Tile) -> (r: bool)
    ensures
        r == surfaces_computable(*ctx, *t),
{
    let (x, y) = t.coordinates;
    let water = matches!(t.terrain.ty, TerrainType::SurfaceWater | TerrainType::MoreSurfaceWater);
    let size = ctx.tile_size as u64;
    let height = ctx.tile_height as u64;
    proof {
        assert(x * size <= 0xFFFF_FFFF * 255) by (nonlinear_arith)
            requires
                x <= 0xFFFF_FFFF,
                size <= 255,
        ;
        assert(y * size <= 0xFFFF_FFFF * 255) by (nonlinear_arith)
            requires
                y <= 0xFFFF_FFFF,
                size <= 255,
        ;
        assert(t.altitude * height <= 0xFFFF_FFFF * 255) by (nonlinear_arith)
            requires
                t.altitude <= 0xFFFF_FFFF,
                height <= 255,
        ;
    }
    let x_fits = x as u64 * size <= u32::MAX as u64;
    let y_fits = y as u64 * size <= u32::MAX as u64;
    let altitude_fits = t.altitude as u64 * height <= u32::MAX as u64;
    x < u32::MAX && y < u32::MAX && x_fits && y_fits && altitude_fits && can_reach_corners(
        t.terrain.slope,
        &ctx.rotation,
    ) && (!water || ctx.rotation.offset() <= 252)
}

/// Whether a chunk can be built: it lies within coordinate range and each of its tiles is
/// in the tile list with surfaces that can be computed.
pub fn chunk_is_buildable(ctx: &TerrainContext, tilelist: &TileList, chunk: ChunkConfig) -> (r: bool)
    ensures
        r == chunk_buildable(*ctx, tilelist@, chunk),
{
    if chunk.tile_coords.0 as u64 + chunk.size as u64 > u32::MAX as u64 || chunk.tile_coords.1 as u64
        + chunk.size as u64 > u32::MAX as u64 {
        return false;
    }
    let lower_x = chunk.tile_coords.0;
    let lower_y = chunk.tile_coords.1;
    let upper_x = lower_x + chunk.size;
    let upper_y = lower_y + chunk.size;
    let mut y = lower_y;
    while y < upper_y
        invariant
            lower_y <= y <= upper_y,
            upper_x == lower_x + chunk.size,
            upper_y == lower_y + chunk.size,
            lower_x == chunk.tile_coords.0,
            lower_y == chunk.tile_coords.1,
            forall|a: u32, b: u32|
                lower_x <= a < upper_x && lower_y <= b < y ==> #[trigger] tilelist@.contains_key((a, b))
                    && surfaces_computable(*ctx, tilelist@[(a, b)]),
        decreases upper_y - y,
    {
        let mut x = lower_x;
        while x < upper_x
            invariant
                lower_x <= x <= upper_x,
                lower_y <= y < upper_y,
                upper_x == lower_x + chunk.size,
                upper_y == lower_y + chunk.size,
                lower_x == chunk.tile_coords.0,
                lower_y == chunk.tile_coords.1,
                forall|a: u32, b: u32|
                    lower_x <= a < upper_x && lower_y <= b < y ==> #[trigger] tilelist@.contains_key((a, b))
                        && surfaces_computable(*ctx, tilelist@[(a, b)]),
                forall|a: u32| lower_x <= a < x ==> #[trigger] tilelist@.contains_key((a, y))
                    && surfaces_computable(*ctx, tilelist@[(a, y)]),
            decreases upper_x - x,
        {
            match tilelist.get(&(x, y)) {
                Some(t) => {
                    if !tile_surfaces_computable(ctx, t) {
                        return false;
                    }
                },
                None => {
                    return false;
                },
            }
            x = x + 1;
        }
        assert forall|a: u32, b: u32|
            lower_x <= a < upper_x && lower_y <= b < y + 1 implies #[trigger] tilelist@.contains_key((a, b))
                && surfaces_computable(*ctx, tilelist@[(a, b)]) by {
            if b == y {
                assert(tilelist@.contains_key((a, y)));
            }
        }
        y = y + 1;
    }
    true
}

/// The surfaces of all tiles of a chunk, row by row.
pub fn generate_chunk_surfaces(ctx: &TerrainContext, tilelist: &TileList, chunk: ChunkConfig) -> (r: Vec<TileSurface>)
    requires
        chunk_buildable(*ctx, tilelist@, chunk),
    ensures
        models(r@) == chunk_surfaces_upto(*ctx, tilelist@, chunk, (chunk.size * chunk.size) as nat),
{
    let lower_y = chunk.tile_coords.1;
    let lower_x = chunk.tile_coords.0;
    let upper_y = lower_y + chunk.size;
    let upper_x = lower_x + chunk.size;
    let mut surfaces: Vec<TileSurface> = Vec::new();
    assert(models(surfaces@) =~= chunk_surfaces_upto(*ctx, tilelist@, chunk, 0));
    let mut y = lower_y;
    while y < upper_y
        invariant
            lower_y <= y <= upper_y,
            upper_y == lower_y + chunk.size,
            upper_x == lower_x + chunk.size,
            lower_x == chunk.tile_coords.0,
            lower_y == chunk.tile_coords.1,
            chunk_buildable(*ctx, tilelist@, chunk),
            models(surfaces@) == chunk_surfaces_upto(*ctx, tilelist@, chunk, ((y - lower_y) * chunk.size) as nat),
        decreases upper_y - y,
    {
        let mut x = lower_x;
        while x < upper_x
            invariant
                lower_x <= x <= upper_x,
                lower_y <= y < upper_y,
                upper_y == lower_y + chunk.size,
                upper_x == lower_x + chunk.size,
                lower_x == chunk.tile_coords.0,
                lower_y == chunk.tile_coords.1,
                chunk_buildable(*ctx, tilelist@, chunk),
                models(surfaces@) == chunk_surfaces_upto(
                    *ctx,
                    tilelist@,
                    chunk,
                    ((y - lower_y) * chunk.size + (x - lower_x)) as nat,
                ),
            decreases upper_x - x,
        {
            let ghost n = (y - lower_y) * chunk.size + (x - lower_x);
            assert(tilelist@.contains_key((x, y)));
            proof {
                lemma_chunk_cell(chunk, (y - lower_y) as int, (x - lower_x) as int);
            }
            assert(chunk_cell(chunk, n) == (x, y));
            let tile = match tilelist.get(&(x, y)) {
                Some(t) => t,
                None => {
                    assert(false);
                    return Vec::new();
                },
            };
            let mut tile_surfaces_vec = generate_tile_surfaces(ctx, tile, tilelist);
            let ghost before = surfaces@;
            let ghost added = tile_surfaces_vec@;
            surfaces.append(&mut tile_surfaces_vec);
            assert(models(surfaces@) =~= models(before) + models(added));
            x = x + 1;
        }
        proof {
            assert((y - lower_y) * chunk.size + chunk.size == (y + 1 - lower_y) * chunk.size) by (nonlinear_arith);
        }
        y = y + 1;
    }
    proof {
        assert((upper_y - lower_y) * chunk.size == chunk.size * chunk.size) by (nonlinear_arith)
            requires
                upper_y - lower_y == chunk.size,
        ;
    }
    surfaces
}

proof fn lemma_chunk_cell(chunk: ChunkConfig, row: int, col: int)
    requires
        0 <= row < chunk.size,
        0 <= col < chunk.size,
    ensures
        (row * chunk.size + col) % (chunk.size as int) == col,
        (row * chunk.size + col) / (chunk.size as int) == row,
{
    vstd::arithmetic::div_mod::lemma_fundamental_div_mod_converse(
        row * chunk.size + col,
        chunk.size as int,
        row,
        col,
    );
}

/// The chunks that cover a city of `chunk_count` by `chunk_count` chunks, row by row.
pub open spec fn chunk_grid(chunk_size: u32, chunk_count: u32) -> Seq<ChunkConfig> {
    Seq::new(
        (chunk_count * chunk_count) as nat,
        |i: int| ChunkConfig {
            tile_coords: (((i % chunk_count as int) * chunk_size) as u32, ((i / chunk_count as int) * chunk_size) as u32),
            size: chunk_size,
        },
    )
}

/// The chunks of the city, row by row.
pub fn chunk_configs(chunk_size: u32, chunk_count: u32) -> (r: Vec<ChunkConfig>)
    requires
        chunk_count * chunk_size <= u32::MAX,
        chunk_count * chunk_count <= usize::MAX,
    ensures
        r@.len() == chunk_count * chunk_count,
        forall|i: int| 0 <= i < r@.len() ==> (#[trigger] r@[i]).tile_coords == chunk_grid(chunk_size, chunk_count)[i].tile_coords
            && r@[i].size == chunk_size,
{
    let mut result: Vec<ChunkConfig> = Vec::new();
    let mut y: u32 = 0;
    while y < chunk_count
        invariant
            y <= chunk_count,
            chunk_count * chunk_size <= u32::MAX,
            chunk_count * chunk_count <= usize::MAX,
            result@.len() == y * chunk_count,
            forall|i: int| 0 <= i < result@.len() ==> (#[trigger] result@[i]).tile_coords == chunk_grid(chunk_size, chunk_count)[i].tile_coords
                && result@[i].size == chunk_size,
        decreases chunk_count - y,
    {
        let mut x: u32 = 0;
        while x < chunk_count
            invariant
                x <= chunk_count,
                y < chunk_count,
                chunk_count * chunk_size <= u32::MAX,
                chunk_count * chunk_count <= usize::MAX,
                result@.len() == y * chunk_count + x,
                forall|i: int| 0 <= i < result@.len() ==> (#[trigger] result@[i]).tile_coords == chunk_grid(chunk_size, chunk_count)[i].tile_coords
                    && result@[i].size == chunk_size,
            decreases chunk_count - x,
        {
            proof {
                lemma_mul_le(x as int, chunk_count as int, chunk_size as int);
                lemma_mul_le(y as int, chunk_count as int, chunk_size as int);
                let i = y * chunk_count + x;
                assert(i < chunk_count * chunk_count) by (nonlinear_arith)
                    requires
                        x < chunk_count,
                        y < chunk_count,
                        i == y * chunk_count + x,
                ;
                vstd::arithmetic::div_mod::lemma_fundamental_div_mod_converse(i as int, chunk_count as int, y as int, x as int);
            }
            result.push(ChunkConfig { tile_coords: (x * chunk_size, y * chunk_size), size: chunk_size });
            x = x + 1;
        }
        proof {
            assert(y * chunk_count + chunk_count == (y + 1) * chunk_count) by (nonlinear_arith);
        }
        y = y + 1;
    }
    result
}

proof fn lemma_mul_le(a: int, b: int, c: int)
    requires
        0 <= a < b,
        0 <= c,
    ensures
        a * c <= b * c,
{
    assert(a * c <= b * c) by (nonlinear_arith)
        requires
            0 <= a < b,
            0 <= c,
    ;
}

/// The number of progress steps that building the terrain reports: two per chunk side
/// tile for every chunk.
pub fn load_steps(city_size: u32, chunk_size: u32) -> (r: u32)
    requires
        chunk_size > 0,
        (city_size / chunk_size) * (city_size / chunk_size) * chunk_size * 2 <= u32::MAX,
    ensures
        r == (city_size / chunk_size) * (city_size / chunk_size) * chunk_size * 2,
{
    let n = city_size / chunk_size;
    proof {
        assert(0 <= n * n <= n * n * chunk_size) by (nonlinear_arith)
            requires
                chunk_size > 0,
        ;
        assert(n * n * chunk_size <= n * n * chunk_size * 2) by (nonlinear_arith)
            requires
                n * n * chunk_size >= 0,
        ;
    }
    n * n * chunk_size * 2
}

} // verus!
