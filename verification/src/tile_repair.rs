//! Repairing the slopes of a city before its terrain is built: tiles whose slope does not
//! fit their neighbors get a slope that does, and a few kinds of tiles under roads, power
//! lines and bridges are raised or lowered first.

use vstd::prelude::*;

use crate::city_data::{
    common_options, count_empty_misfits, count_misfits, get_tile_neighbors,
    neighbors_addressable, tile_has_building, tile_has_surface_water, tile_neighbors,
    valid_slopes, validate_tile_slope, Tile, TileCoords, TileList, TileTerrainInfo,
};
use crate::terrain_builder::TerrainContext;
use crate::terrain_rotation::{normalized, reverted_offset};
use crate::terrain_rotation::TerrainRotation;
use vstd::std_specs::iter::IteratorSpec;
use itertools::Itertools;
use crate::scene_object_registry::{is_bridge, is_bridge_id, powerline_of_id, road_of_id, Powerlines, Road};
use crate::terrain_slope::TerrainSlope;
use crate::city_data::TileValidationResult;

verus! {

broadcast use vstd::laws_cmp::group_laws_cmp;

/// Tiles that need more than a new slope before their slope is repaired.
#[derive(Clone, Copy, Debug, PartialEq, Eq, Structural)]
pub enum TileSpecialCase {
    /// The end of a bridge on a plain slope: lowered by one level.
    BridgeTransition,
    /// A power line tile.
    Powerline,
    /// A power line on a plain slope that no neighbor rises above: lowered by one level.
    PowerlineCliff,
    /// A bridge tile.
    Bridge,
    /// A raised-flat tile between neighbors that six of its sides do not fit: raised by one
    /// level and made flat.
    PintchedAllSlope,
}

/// The four slopes that rise along one whole side.
pub open spec fn is_plain_slope(s: TerrainSlope) -> bool {
    s == TerrainSlope::South || s == TerrainSlope::North || s == TerrainSlope::West || s
        == TerrainSlope::East
}

/// Whether a tile holds a piece of a bridge.
pub open spec fn holds_bridge(t: Tile) -> bool {
    match t.building {
        Some(b) => is_bridge_id(b.id),
        None => false,
    }
}

/// Which special case a tile is, given the number of neighbors its slope does not fit.
pub open spec fn special_case(m: Map<TileCoords, Tile>, tile: Tile, invalid_tiles: u8) -> Option<
    TileSpecialCase,
> {
    let s = tile.terrain.slope;
    let ns = tile_neighbors(m, tile);
    match tile.building {
        Some(b) => if is_plain_slope(s) && road_of_id(b.id) is Some {
            if exists|i: int| 0 <= i < ns.len() && #[trigger] holds_bridge(ns[i].1) {
                Some(TileSpecialCase::BridgeTransition)
            } else {
                None
            }
        } else if is_plain_slope(s) && powerline_of_id(b.id) is Some {
            if forall|i: int| 0 <= i < ns.len() ==> #[trigger] ns[i].1.altitude <= tile.altitude {
                Some(TileSpecialCase::PowerlineCliff)
            } else {
                None
            }
        } else if powerline_of_id(b.id) is Some {
            Some(TileSpecialCase::Powerline)
        } else if is_bridge_id(b.id) {
            Some(TileSpecialCase::Bridge)
        } else {
            None
        },
        None => if s == TerrainSlope::All && invalid_tiles == 6 {
            Some(TileSpecialCase::PintchedAllSlope)
        } else {
            None
        },
    }
}

fn is_plain(s: TerrainSlope) -> (r: bool)
    ensures
        r == is_plain_slope(s),
{
    matches!(s, TerrainSlope::South | TerrainSlope::North | TerrainSlope::West | TerrainSlope::East)
}

fn any_neighbor_holds_bridge(neighbors: &Vec<(crate::city_data::Compass, Tile)>) -> (r: bool)
    ensures
        r == exists|i: int| 0 <= i < neighbors@.len() && #[trigger] holds_bridge(neighbors@[i].1),
{
    let mut i: usize = 0;
    while i < neighbors.len()
        invariant
            0 <= i <= neighbors.len(),
            forall|j: int| 0 <= j < i ==> !#[trigger] holds_bridge(neighbors@[j].1),
        decreases neighbors.len() - i,
    {
        let found = match &neighbors[i].1.building {
            Some(b) => is_bridge(b.id),
            None => false,
        };
        if found {
            assert(holds_bridge(neighbors@[i as int].1));
            return true;
        }
        i = i + 1;
    }
    false
}

fn no_neighbor_above(neighbors: &Vec<(crate::city_data::Compass, Tile)>, altitude: u32) -> (r: bool)
    ensures
        r == forall|i: int| 0 <= i < neighbors@.len() ==> #[trigger] neighbors@[i].1.altitude <= altitude,
{
    let mut i: usize = 0;
    while i < neighbors.len()
        invariant
            0 <= i <= neighbors.len(),
            forall|j: int| 0 <= j < i ==> #[trigger] neighbors@[j].1.altitude <= altitude,
        decreases neighbors.len() - i,
    {
        if neighbors[i].1.altitude > altitude {
            return false;
        }
        i = i + 1;
    }
    true
}

/// Tells whether a tile is a special case that needs more than a new slope.
pub fn is_special_case(
    tile: &Tile,
    tilelist: &TileList,
    validation_result: &TileValidationResult,
) -> (r: Option<TileSpecialCase>)
    requires
        neighbors_addressable(*tile),
    ensures
        r == special_case(tilelist@, *tile, validation_result.invalid_tiles),
{
    let slope = tile.terrain.slope;
    match &tile.building {
        Some(b) => {
            if is_plain(slope) && Road::try_from_u8(b.id).is_some() {
                let neighbors = get_tile_neighbors(tilelist, tile);
                if any_neighbor_holds_bridge(&neighbors) {
                    Some(TileSpecialCase::BridgeTransition)
                } else {
                    None
                }
            } else if is_plain(slope) && Powerlines::try_from_u8(b.id).is_some() {
                let neighbors = get_tile_neighbors(tilelist, tile);
                if no_neighbor_above(&neighbors, tile.altitude) {
                    Some(TileSpecialCase::PowerlineCliff)
                } else {
                    None
                }
            } else if Powerlines::try_from_u8(b.id).is_some() {
                Some(TileSpecialCase::Powerline)
            } else if is_bridge(b.id) {
                Some(TileSpecialCase::Bridge)
            } else {
                None
            }
        },
        None => {
            if matches!(slope, TerrainSlope::All) && validation_result.invalid_tiles == 6 {
                Some(TileSpecialCase::PintchedAllSlope)
            } else {
                None
            }
        },
    }
}

/// A tile whose slope needs repair, how many neighbors its slope misses, and its special
/// case if it is one.
pub type PendingTile = (Tile, TileValidationResult, Option<TileSpecialCase>);

/// Every tile of the map is stored under its own coordinates.
pub open spec fn tiles_keyed(m: Map<TileCoords, Tile>) -> bool {
    forall|c: TileCoords| #[trigger] m.contains_key(c) ==> m[c].coordinates == c
}

/// Every tile of the map can look up all its neighbors.
pub open spec fn tiles_addressable(m: Map<TileCoords, Tile>) -> bool {
    forall|c: TileCoords| #[trigger] m.contains_key(c) ==> neighbors_addressable(m[c])
}

/// The validation of a tile's slope against its neighbors in the map.
pub open spec fn validation_of(m: Map<TileCoords, Tile>, rotation: u8, t: Tile) -> TileValidationResult {
    TileValidationResult {
        invalid_tiles: count_misfits(t, rotation, tile_neighbors(m, t)) as u8,
        empty_invalid_tiles: count_empty_misfits(t, rotation, tile_neighbors(m, t)) as u8,
    }
}

/// A tile's slope needs repair: it misses a neighbor, and it is a special case or holds
/// neither a building nor surface water.
pub open spec fn needs_repair(m: Map<TileCoords, Tile>, rotation: u8, t: Tile) -> bool {
    let v = validation_of(m, rotation, t);
    v.invalid_tiles > 0 && (special_case(m, t, v.invalid_tiles) is Some || !(tile_has_building(t)
        || tile_has_surface_water(t)))
}

/// The entry that lists the tile at `c` as needing repair.
pub open spec fn pending_entry(m: Map<TileCoords, Tile>, rotation: u8, c: TileCoords) -> PendingTile {
    let v = validation_of(m, rotation, m[c]);
    (m[c], v, special_case(m, m[c], v.invalid_tiles))
}

/// `s` lists each tile of the map that needs repair exactly once, with its entry.
pub open spec fn pending_list(m: Map<TileCoords, Tile>, rotation: u8, s: Seq<PendingTile>) -> bool {
    &&& forall|i: int|
        0 <= i < s.len() ==> m.contains_key((#[trigger] s[i]).0.coordinates) && needs_repair(
            m,
            rotation,
            m[s[i].0.coordinates],
        ) && s[i] == pending_entry(m, rotation, s[i].0.coordinates)
    &&& forall|i: int, j: int|
        0 <= i < j < s.len() ==> (#[trigger] s[i]).0.coordinates != (#[trigger] s[j]).0.coordinates
    &&& forall|c: TileCoords|
        #[trigger] m.contains_key(c) && needs_repair(m, rotation, m[c]) ==> exists|i: int|
            0 <= i < s.len() && (#[trigger] s[i]).0.coordinates == c
}

/// Lists the tiles of the tile list whose slope needs repair.
fn collect_pending(tilelist: &TileList, rotation: &TerrainRotation) -> (r: Vec<PendingTile>)
    requires
        tiles_keyed(tilelist@),
        tiles_addressable(tilelist@),
    ensures
        pending_list(tilelist@, rotation@, r@),
{
    let ghost m = tilelist@;
    let mut result: Vec<PendingTile> = Vec::new();
    let ghost keys = tilelist.keys().remaining();
    let ghost ks = keys.unref();
    proof {
        assert(ks.to_set() == m.dom());
        assert(ks.no_duplicates()) by {
            assert forall|i: int, j: int| 0 <= i < ks.len() && 0 <= j < ks.len() && i != j implies ks[i] != ks[j] by {
                assert(keys[i] != keys[j]);
            }
        }
    }
    for k in it: tilelist.keys()
        invariant
            m == tilelist@,
            it.seq() == keys,
            ks == keys.unref(),
            tiles_keyed(m),
            tiles_addressable(m),
            ks.to_set() == m.dom(),
            ks.no_duplicates(),
            forall|i: int|
                0 <= i < result@.len() ==> m.contains_key((#[trigger] result@[i]).0.coordinates)
                    && needs_repair(m, rotation@, m[result@[i].0.coordinates]) && result@[i]
                    == pending_entry(m, rotation@, result@[i].0.coordinates)
                    && ks.take(it.index()).contains(result@[i].0.coordinates),
            forall|i: int, j: int|
                0 <= i < j < result@.len() ==> (#[trigger] result@[i]).0.coordinates != (#[trigger] result@[j]).0.coordinates,
            forall|j: int|
                0 <= j < it.index() && needs_repair(m, rotation@, m[#[trigger] ks[j]]) ==> exists|i: int|
                    0 <= i < result@.len() && (#[trigger] result@[i]).0.coordinates == ks[j],
    {
        let ghost idx = it.index();
        let ghost before = result@;
        proof {
            assert(ks[idx] == *k);
            assert(m.contains_key(*k)) by {
                assert(ks.to_set().contains(*k));
            }
        }
        if let Some(tile) = tilelist.get(k) {
            let validation = validate_tile_slope(tilelist, tile, rotation);
            if validation.is_invalid() {
                let special = is_special_case(tile, tilelist, &validation);
                if special.is_some() || !(tile.has_building() || tile.has_surface_water()) {
                    proof {
                        assert forall|i: int| 0 <= i < before.len() implies before[i].0.coordinates != *k by {
                            if before[i].0.coordinates == *k {
                                let j = choose|j: int| 0 <= j < idx && ks.take(idx)[j] == *k;
                                assert(ks[j] == ks[idx]);
                            }
                        }
                    }
                    result.push((tile.clone(), validation, special));
                }
            }
        }
        proof {
            assert forall|i: int| 0 <= i < result@.len() implies ks.take(idx + 1).contains(
                (#[trigger] result@[i]).0.coordinates,
            ) by {
                if i < before.len() {
                    let j = choose|j: int| 0 <= j < idx && ks.take(idx)[j] == before[i].0.coordinates;
                    assert(ks.take(idx + 1)[j] == before[i].0.coordinates);
                } else {
                    assert(ks.take(idx + 1)[idx] == *k);
                }
            }
            assert forall|j: int|
                0 <= j < idx + 1 && needs_repair(m, rotation@, m[#[trigger] ks[j]]) implies exists|i: int|
                    0 <= i < result@.len() && (#[trigger] result@[i]).0.coordinates == ks[j] by {
                if j < idx {
                    let i = choose|i: int| 0 <= i < before.len() && (#[trigger] before[i]).0.coordinates == ks[j];
                    assert(result@[i] == before[i]);
                } else {
                    assert(result@[before.len() as int].0.coordinates == ks[j]);
                }
            }
        }
    }
    proof {
        assert forall|c: TileCoords|
            #[trigger] m.contains_key(c) && needs_repair(m, rotation@, m[c]) implies exists|i: int|
                0 <= i < result@.len() && (#[trigger] result@[i]).0.coordinates == c by {
            assert(ks.to_set().contains(c));
            let j = choose|j: int| 0 <= j < ks.len() && ks[j] == c;
            assert(needs_repair(m, rotation@, m[ks[j]]));
        }
    }
    result
}

/// Orders two pending tiles by the number of empty neighbors their slopes miss.
fn compare_empty_misfits(a: &PendingTile, b: &PendingTile) -> (r: std::cmp::Ordering)
    ensures
        (r == std::cmp::Ordering::Less) == (a.1.empty_invalid_tiles < b.1.empty_invalid_tiles),
        (r == std::cmp::Ordering::Equal) == (a.1.empty_invalid_tiles == b.1.empty_invalid_tiles),
        (r == std::cmp::Ordering::Greater) == (a.1.empty_invalid_tiles > b.1.empty_invalid_tiles),
{
    if a.1.empty_invalid_tiles < b.1.empty_invalid_tiles {
        std::cmp::Ordering::Less
    } else if a.1.empty_invalid_tiles == b.1.empty_invalid_tiles {
        std::cmp::Ordering::Equal
    } else {
        std::cmp::Ordering::Greater
    }
}

/// Sorts the pending tiles with `Itertools::sorted_by`, ordered by `compare_empty_misfits`.
/// Claimed: the result holds the same entries, each as often, with fewest empty misfits
/// first. The sort is stable, which is left unstated here.
#[verifier::external_body]
fn sorted_by_empty_misfits(pending: Vec<PendingTile>) -> (r: Vec<PendingTile>)
    ensures
        r@.to_multiset() == pending@.to_multiset(),
        forall|i: int, j: int|
            0 <= i < j < r@.len() ==> (#[trigger] r@[i]).1.empty_invalid_tiles <= (#[trigger] r@[j]).1.empty_invalid_tiles,
{
    pending.into_iter().sorted_by(|a, b| compare_empty_misfits(a, b)).collect()
}

/// A pending list stays one when its entries are reordered.
proof fn lemma_pending_list_reordered(
    m: Map<TileCoords, Tile>,
    rotation: u8,
    a: Seq<PendingTile>,
    b: Seq<PendingTile>,
)
    requires
        pending_list(m, rotation, a),
        a.to_multiset() == b.to_multiset(),
    ensures
        pending_list(m, rotation, b),
{
    broadcast use vstd::seq_lib::group_to_multiset_ensures;

    assert(a.no_duplicates()) by {
        assert forall|i: int, j: int| 0 <= i < a.len() && 0 <= j < a.len() && i != j implies a[i] != a[j] by {
            if i < j {
                assert(a[i].0.coordinates != a[j].0.coordinates);
            } else {
                assert(a[j].0.coordinates != a[i].0.coordinates);
            }
        }
    }
    a.lemma_multiset_has_no_duplicates();
    b.lemma_multiset_has_no_duplicates_conv();
    assert forall|i: int| 0 <= i < b.len() implies m.contains_key((#[trigger] b[i]).0.coordinates)
        && needs_repair(m, rotation, m[b[i].0.coordinates]) && b[i] == pending_entry(
        m,
        rotation,
        b[i].0.coordinates,
    ) by {
        assert(b.contains(b[i]));
        assert(b.to_multiset().count(b[i]) > 0);
        assert(a.to_multiset().count(b[i]) > 0);
        assert(a.contains(b[i]));
        let k = choose|k: int| 0 <= k < a.len() && a[k] == b[i];
        assert(a[k] == b[i]);
    }
    assert forall|i: int, j: int| 0 <= i < j < b.len() implies (#[trigger] b[i]).0.coordinates
        != (#[trigger] b[j]).0.coordinates by {
        if b[i].0.coordinates == b[j].0.coordinates {
            assert(b[i] == b[j]);
        }
    }
    assert forall|c: TileCoords| #[trigger] m.contains_key(c) && needs_repair(m, rotation, m[c]) implies exists|
        i: int,
    | 0 <= i < b.len() && (#[trigger] b[i]).0.coordinates == c by {
        let k = choose|k: int| 0 <= k < a.len() && (#[trigger] a[k]).0.coordinates == c;
        assert(a.contains(a[k]));
        assert(a.to_multiset().count(a[k]) > 0);
        assert(b.to_multiset().count(a[k]) > 0);
        assert(b.contains(a[k]));
        let i = choose|i: int| 0 <= i < b.len() && b[i] == a[k];
        assert(b[i].0.coordinates == c);
    }
}

/// The special cases that are lowered by one level before their slope is repaired.
pub open spec fn is_lowered_case(case: Option<TileSpecialCase>) -> bool {
    case == Some(TileSpecialCase::BridgeTransition) || case == Some(TileSpecialCase::PowerlineCliff)
}

/// The altitude a pending tile is moved to before its slope is repaired.
pub open spec fn adjusted_altitude(t: Tile, case: Option<TileSpecialCase>) -> u32 {
    if is_lowered_case(case) {
        (t.altitude - 1) as u32
    } else if case == Some(TileSpecialCase::PintchedAllSlope) {
        (t.altitude + 1) as u32
    } else {
        t.altitude
    }
}

/// The altitude of a pending tile can be moved without leaving the range of `u32`.
pub open spec fn altitude_adjustable(t: Tile, case: Option<TileSpecialCase>) -> bool {
    (is_lowered_case(case) ==> t.altitude >= 1) && (case == Some(TileSpecialCase::PintchedAllSlope)
        ==> t.altitude < u32::MAX)
}

/// A tile with another slope.
pub open spec fn with_slope(t: Tile, slope: TerrainSlope) -> Tile {
    Tile {
        terrain: TileTerrainInfo { ty: t.terrain.ty, slope },
        altitude: t.altitude,
        building: t.building,
        coordinates: t.coordinates,
    }
}

/// A tile at another altitude.
pub open spec fn with_altitude(t: Tile, altitude: u32) -> Tile {
    Tile {
        terrain: t.terrain,
        altitude,
        building: t.building,
        coordinates: t.coordinates,
    }
}

/// The tile whose slope is repaired for a pending entry: moved to its new altitude, and
/// made flat where it is a pinched raised-flat tile.
pub open spec fn repair_candidate(p: PendingTile) -> Tile {
    let moved = with_altitude(p.0, adjusted_altitude(p.0, p.2));
    if p.2 == Some(TileSpecialCase::PintchedAllSlope) {
        with_slope(moved, TerrainSlope::Flat)
    } else {
        moved
    }
}

/// The tile that stands in the map for a pending entry while slopes are repaired: moved to
/// its new altitude, with its slope not yet known.
pub open spec fn placeholder(p: PendingTile) -> Tile {
    with_slope(with_altitude(p.0, adjusted_altitude(p.0, p.2)), TerrainSlope::Undetermined)
}

/// The map after the placeholders of the pending entries replace their tiles.
pub open spec fn marked(m: Map<TileCoords, Tile>, ps: Seq<PendingTile>) -> Map<TileCoords, Tile>
    decreases ps.len(),
{
    if ps.len() == 0 {
        m
    } else {
        marked(m, ps.drop_last()).insert(ps.last().0.coordinates, placeholder(ps.last()))
    }
}

/// Puts the placeholder of each pending entry into the tile list and returns the tiles
/// whose slopes are to be repaired.
fn mark_pending(tilelist: &mut TileList, pending: &Vec<PendingTile>) -> (r: Vec<Tile>)
    requires
        forall|i: int| 0 <= i < pending@.len() ==> altitude_adjustable((#[trigger] pending@[i]).0, pending@[i].2),
    ensures
        final(tilelist)@ == marked(old(tilelist)@, pending@),
        r@.len() == pending@.len(),
        forall|i: int| 0 <= i < r@.len() ==> #[trigger] r@[i] == repair_candidate(pending@[i]),
{
    let ghost m0 = tilelist@;
    let mut candidates: Vec<Tile> = Vec::new();
    let mut i: usize = 0;
    while i < pending.len()
        invariant
            0 <= i <= pending.len(),
            forall|k: int| 0 <= k < pending@.len() ==> altitude_adjustable((#[trigger] pending@[k]).0, pending@[k].2),
            tilelist@ == marked(m0, pending@.take(i as int)),
            candidates@.len() == i,
            forall|k: int| 0 <= k < i ==> #[trigger] candidates@[k] == repair_candidate(pending@[k]),
        decreases pending.len() - i,
    {
        let entry = &pending[i];
        let mut tile = entry.0.clone();
        match entry.2 {
            Some(TileSpecialCase::BridgeTransition) | Some(TileSpecialCase::PowerlineCliff) => {
                tile.altitude = tile.altitude - 1;
            },
            Some(TileSpecialCase::PintchedAllSlope) => {
                tile.altitude = tile.altitude + 1;
            },
            Some(TileSpecialCase::Powerline) | Some(TileSpecialCase::Bridge) | None => {},
        }
        let mut candidate = tile.clone();
        if matches!(entry.2, Some(TileSpecialCase::PintchedAllSlope)) {
            candidate.terrain.slope = TerrainSlope::Flat;
        }
        tile.terrain.slope = TerrainSlope::Undetermined;
        assert(pending@.take(i as int + 1).drop_last() =~= pending@.take(i as int));
        tilelist.insert(tile.coordinates, tile);
        candidates.push(candidate);
        i = i + 1;
    }
    assert(pending@.take(pending@.len() as int) =~= pending@);
    candidates
}

/// One repair: the tile takes the first slope that all its neighbors in `before` allow,
/// turned back from the view's rotation, or keeps its slope where they allow none.
pub open spec fn repair_step(before: Map<TileCoords, Tile>, t: Tile, rotation: u8, after: Map<
    TileCoords,
    Tile,
>) -> bool {
    let options = common_options(t, rotation, tile_neighbors(before, t));
    if options.is_empty() {
        after == before.insert(t.coordinates, t)
    } else {
        exists|s: TerrainSlope|
            #[trigger] options.contains(s) && after == before.insert(
                t.coordinates,
                with_slope(t, normalized(reverted_offset(rotation), s)),
            )
    }
}

/// `chain` holds the map before each repair of `ts`, in order, and the map after the last.
pub open spec fn repair_chain(
    start: Map<TileCoords, Tile>,
    ts: Seq<Tile>,
    rotation: u8,
    chain: Seq<Map<TileCoords, Tile>>,
) -> bool {
    &&& chain.len() == ts.len() + 1
    &&& chain[0] == start
    &&& forall|i: int| 0 <= i < ts.len() ==> repair_step(#[trigger] chain[i], ts[i], rotation, chain[i + 1])
}

/// Repairs the slopes of the given tiles in order, each against the tile list as the
/// repairs before it left it.
fn repair_slopes(tilelist: &mut TileList, tiles: Vec<Tile>, rotation: &TerrainRotation) -> (chain: Ghost<Seq<Map<TileCoords, Tile>>>)
    requires
        forall|i: int| 0 <= i < tiles@.len() ==> neighbors_addressable(#[trigger] tiles@[i]),
    ensures
        repair_chain(old(tilelist)@, tiles@, rotation@, chain@),
        chain@.last() == final(tilelist)@,
{
    let reverted = rotation.to_reverted();
    let ghost mut chain: Seq<Map<TileCoords, Tile>> = seq![tilelist@];
    let mut i: usize = 0;
    while i < tiles.len()
        invariant
            0 <= i <= tiles.len(),
            reverted@ == reverted_offset(rotation@),
            forall|k: int| 0 <= k < tiles@.len() ==> neighbors_addressable(#[trigger] tiles@[k]),
            repair_chain(chain[0], tiles@.take(i as int), rotation@, chain),
            chain[0] == old(tilelist)@,
            chain.last() == tilelist@,
        decreases tiles.len() - i,
    {
        let mut tile = tiles[i].clone();
        let options = valid_slopes(tilelist, &tile, rotation);
        let ghost before = tilelist@;
        let ghost opts = common_options(tile, rotation@, tile_neighbors(before, tile));
        if options.len() == 0 {
            assert(opts =~= Set::empty()) by {
                assert(options@ =~= Seq::<TerrainSlope>::empty());
            }
            tilelist.insert(tile.coordinates, tile);
        } else {
            let s = options[0];
            assert(options@.to_set().contains(s));
            tile.terrain.slope = reverted.normalize_slope(s);
            assert(!opts.is_empty()) by {
                assert(opts.contains(s));
            }
            tilelist.insert(tile.coordinates, tile);
            assert(tilelist@ == before.insert(tiles@[i as int].coordinates, with_slope(tiles@[i as int], normalized(reverted_offset(rotation@), s))));
        }
        proof {
            assert(repair_step(before, tiles@[i as int], rotation@, tilelist@));
            let ghost next = chain.push(tilelist@);
            assert(tiles@.take(i as int + 1).drop_last() =~= tiles@.take(i as int));
            assert forall|k: int| 0 <= k < i + 1 implies repair_step(#[trigger] next[k], tiles@.take(i as int + 1)[k], rotation@, next[k + 1]) by {
                if k < i {
                    assert(tiles@.take(i as int + 1)[k] == tiles@.take(i as int)[k]);
                    assert(repair_step(chain[k], tiles@.take(i as int)[k], rotation@, chain[k + 1]));
                }
            }
            chain = next;
        }
        i = i + 1;
    }
    assert(tiles@.take(tiles@.len() as int) =~= tiles@);
    Ghost(chain)
}

/// The repair order: fewest empty misfits first.
pub open spec fn sorted_by_empty(ps: Seq<PendingTile>) -> bool {
    forall|i: int, j: int|
        0 <= i < j < ps.len() ==> (#[trigger] ps[i]).1.empty_invalid_tiles <= (#[trigger] ps[j]).1.empty_invalid_tiles
}

/// The tiles whose slopes are repaired for a list of pending entries, in order.
pub open spec fn repair_candidates(ps: Seq<PendingTile>) -> Seq<Tile> {
    ps.map_values(|p: PendingTile| repair_candidate(p))
}

/// `result` is the tile list `m` after preprocessing: `pending` lists the tiles that need
/// repair, fewest empty misfits first; they are marked, and then repaired in that order,
/// with `chain` holding the tile list before each repair.
pub open spec fn preprocessed(
    m: Map<TileCoords, Tile>,
    rotation: u8,
    pending: Seq<PendingTile>,
    chain: Seq<Map<TileCoords, Tile>>,
    result: Map<TileCoords, Tile>,
) -> bool {
    &&& pending_list(m, rotation, pending)
    &&& sorted_by_empty(pending)
    &&& repair_chain(marked(m, pending), repair_candidates(pending), rotation, chain)
    &&& chain.last() == result
}

proof fn lemma_step_frame(before: Map<TileCoords, Tile>, t: Tile, rotation: u8, after: Map<TileCoords, Tile>)
    requires
        repair_step(before, t, rotation, after),
    ensures
        after.dom() == before.dom().insert(t.coordinates),
        forall|c: TileCoords| c != t.coordinates ==> #[trigger] after.contains_key(c) == before.contains_key(c),
        forall|c: TileCoords| c != t.coordinates && before.contains_key(c) ==> #[trigger] after[c] == before[c],
        after[t.coordinates] == with_slope(t, after[t.coordinates].terrain.slope),
{
    let options = common_options(t, rotation, tile_neighbors(before, t));
    if !options.is_empty() {
        let s = choose|s: TerrainSlope| #[trigger] options.contains(s) && after == before.insert(
            t.coordinates,
            with_slope(t, normalized(reverted_offset(rotation), s)),
        );
        assert(after.dom() =~= before.dom().insert(t.coordinates));
    } else {
        assert(after.dom() =~= before.dom().insert(t.coordinates));
    }
}

/// After the first `n` repairs of a chain, the tiles not repaired so far are as they were,
/// and each repaired one differs from its candidate at most in its slope.
proof fn lemma_chain_frame(
    start: Map<TileCoords, Tile>,
    ts: Seq<Tile>,
    rotation: u8,
    chain: Seq<Map<TileCoords, Tile>>,
    n: int,
)
    requires
        repair_chain(start, ts, rotation, chain),
        0 <= n <= ts.len(),
        forall|i: int| 0 <= i < ts.len() ==> start.contains_key((#[trigger] ts[i]).coordinates),
        forall|i: int, j: int| 0 <= i < j < ts.len() ==> (#[trigger] ts[i]).coordinates != (#[trigger] ts[j]).coordinates,
    ensures
        chain[n].dom() == start.dom(),
        forall|c: TileCoords|
            start.contains_key(c) && (forall|i: int| 0 <= i < n ==> (#[trigger] ts[i]).coordinates != c)
                ==> #[trigger] chain[n][c] == start[c],
        forall|i: int|
            0 <= i < n ==> #[trigger] chain[n][ts[i].coordinates] == with_slope(
                ts[i],
                chain[n][ts[i].coordinates].terrain.slope,
            ),
    decreases n,
{
    if n > 0 {
        lemma_chain_frame(start, ts, rotation, chain, n - 1);
        assert(repair_step(chain[n - 1], ts[n - 1], rotation, chain[n]));
        lemma_step_frame(chain[n - 1], ts[n - 1], rotation, chain[n]);
        assert(chain[n].dom() =~= start.dom());
        assert forall|i: int| 0 <= i < n implies #[trigger] chain[n][ts[i].coordinates] == with_slope(
            ts[i],
            chain[n][ts[i].coordinates].terrain.slope,
        ) by {
            if i < n - 1 {
                assert(ts[i].coordinates != ts[n - 1].coordinates);
                assert(chain[n][ts[i].coordinates] == chain[n - 1][ts[i].coordinates]);
            }
        }
    }
}

/// The placeholders replace exactly the pending tiles.
proof fn lemma_marked_frame(m: Map<TileCoords, Tile>, ps: Seq<PendingTile>)
    requires
        forall|i: int| 0 <= i < ps.len() ==> m.contains_key((#[trigger] ps[i]).0.coordinates),
    ensures
        marked(m, ps).dom() == m.dom(),
        forall|c: TileCoords|
            m.contains_key(c) && (forall|i: int| 0 <= i < ps.len() ==> (#[trigger] ps[i]).0.coordinates != c)
                ==> #[trigger] marked(m, ps)[c] == m[c],
    decreases ps.len(),
{
    if ps.len() > 0 {
        let rest = ps.drop_last();
        assert forall|i: int| 0 <= i < rest.len() implies m.contains_key((#[trigger] rest[i]).0.coordinates) by {
            assert(rest[i] == ps[i]);
        }
        lemma_marked_frame(m, rest);
        assert(marked(m, ps).dom() =~= m.dom());
        assert forall|c: TileCoords|
            m.contains_key(c) && (forall|i: int| 0 <= i < ps.len() ==> (#[trigger] ps[i]).0.coordinates != c)
                implies #[trigger] marked(m, ps)[c] == m[c] by {
            assert forall|i: int| 0 <= i < rest.len() implies (#[trigger] rest[i]).0.coordinates != c by {
                assert(rest[i] == ps[i]);
            }
            assert(ps[ps.len() - 1].0.coordinates != c);
        }
    }
}

/// Preprocessing keeps the positions of the tile list, leaves every tile that does not
/// need repair as it was, and moves each repaired tile to its adjusted altitude while it
/// keeps its position, terrain type and building.
pub proof fn lemma_preprocessing_frame(
    m: Map<TileCoords, Tile>,
    rotation: u8,
    pending: Seq<PendingTile>,
    chain: Seq<Map<TileCoords, Tile>>,
    result: Map<TileCoords, Tile>,
)
    requires
        preprocessed(m, rotation, pending, chain, result),
    ensures
        result.dom() == m.dom(),
        forall|c: TileCoords|
            #[trigger] m.contains_key(c) && !needs_repair(m, rotation, m[c]) ==> result[c] == m[c],
        forall|c: TileCoords|
            #[trigger] m.contains_key(c) && needs_repair(m, rotation, m[c]) ==> {
                &&& result[c].coordinates == m[c].coordinates
                &&& result[c].building == m[c].building
                &&& result[c].terrain.ty == m[c].terrain.ty
                &&& result[c].altitude == adjusted_altitude(m[c], pending_entry(m, rotation, c).2)
            },
{
    let ts = repair_candidates(pending);
    let start = marked(m, pending);
    lemma_marked_frame(m, pending);
    assert forall|i: int| 0 <= i < ts.len() implies start.contains_key((#[trigger] ts[i]).coordinates) by {
        assert(ts[i].coordinates == pending[i].0.coordinates);
    }
    assert forall|i: int, j: int| 0 <= i < j < ts.len() implies (#[trigger] ts[i]).coordinates
        != (#[trigger] ts[j]).coordinates by {
        assert(ts[i].coordinates == pending[i].0.coordinates);
        assert(ts[j].coordinates == pending[j].0.coordinates);
    }
    lemma_chain_frame(start, ts, rotation, chain, ts.len() as int);
    assert(chain[ts.len() as int] == result);
    assert forall|c: TileCoords| #[trigger] m.contains_key(c) && !needs_repair(m, rotation, m[c]) implies result[c] == m[c] by {
        assert forall|i: int| 0 <= i < pending.len() implies (#[trigger] pending[i]).0.coordinates != c by {
            assert(needs_repair(m, rotation, m[pending[i].0.coordinates]));
        }
        assert forall|i: int| 0 <= i < ts.len() implies (#[trigger] ts[i]).coordinates != c by {
            assert(ts[i].coordinates == pending[i].0.coordinates);
            assert(pending[i].0.coordinates != c);
        }
    }
    assert forall|c: TileCoords| #[trigger] m.contains_key(c) && needs_repair(m, rotation, m[c]) implies {
        &&& result[c].coordinates == m[c].coordinates
        &&& result[c].building == m[c].building
        &&& result[c].terrain.ty == m[c].terrain.ty
        &&& result[c].altitude == adjusted_altitude(m[c], pending_entry(m, rotation, c).2)
    } by {
        let i = choose|i: int| 0 <= i < pending.len() && (#[trigger] pending[i]).0.coordinates == c;
        assert(pending[i] == pending_entry(m, rotation, c));
        assert(ts[i] == repair_candidate(pending[i]));
        assert(result[ts[i].coordinates] == with_slope(ts[i], result[ts[i].coordinates].terrain.slope));
    }
}

/// A tile repaired as a bridge transition or a power line cliff comes out of
/// preprocessing one level lower than it went in, a pinched raised-flat tile one level
/// higher, and every other repaired tile at its own altitude.
pub proof fn lemma_repaired_altitudes(
    m: Map<TileCoords, Tile>,
    rotation: u8,
    pending: Seq<PendingTile>,
    chain: Seq<Map<TileCoords, Tile>>,
    result: Map<TileCoords, Tile>,
    c: TileCoords,
)
    requires
        preprocessed(m, rotation, pending, chain, result),
        repair_altitudes_fit(m, rotation),
        m.contains_key(c),
        needs_repair(m, rotation, m[c]),
    ensures
        result.contains_key(c),
        match pending_entry(m, rotation, c).2 {
            Some(TileSpecialCase::BridgeTransition) | Some(TileSpecialCase::PowerlineCliff) =>
                result[c].altitude + 1 == m[c].altitude,
            Some(TileSpecialCase::PintchedAllSlope) => result[c].altitude == m[c].altitude + 1,
            _ => result[c].altitude == m[c].altitude,
        },
{
    lemma_preprocessing_frame(m, rotation, pending, chain, result);
    assert(altitude_adjustable(m[c], pending_entry(m, rotation, c).2));
}

/// A city whose tiles all fit their neighbors comes out of preprocessing as it went in.
pub proof fn lemma_fitting_city_unchanged(
    m: Map<TileCoords, Tile>,
    rotation: u8,
    pending: Seq<PendingTile>,
    chain: Seq<Map<TileCoords, Tile>>,
    result: Map<TileCoords, Tile>,
)
    requires
        preprocessed(m, rotation, pending, chain, result),
        forall|c: TileCoords| #[trigger] m.contains_key(c) ==> !needs_repair(m, rotation, m[c]),
    ensures
        result == m,
{
    lemma_preprocessing_frame(m, rotation, pending, chain, result);
    assert(result =~= m);
}

/// Every tile that needs repair can be moved to its adjusted altitude.
pub open spec fn repair_altitudes_fit(m: Map<TileCoords, Tile>, rotation: u8) -> bool {
    forall|c: TileCoords|
        #[trigger] m.contains_key(c) && needs_repair(m, rotation, m[c]) ==> altitude_adjustable(
            m[c],
            pending_entry(m, rotation, c).2,
        )
}

/// Repairs the slopes of a city's tiles before its terrain is built. Each tile whose slope
/// does not fit all its neighbors, and that is a special case or holds neither a building
/// nor surface water, is repaired: fewest empty misfits first, each takes a slope that all
/// its neighbors allow at that point, if there is one. Bridge ends and power line cliffs
/// are lowered by one level first, and pinched raised-flat tiles raised by one and made flat.
pub fn pre_process_tilelist(context: &TerrainContext, tilelist: TileList) -> (r: TileList)
    requires
        tiles_keyed(tilelist@),
        tiles_addressable(tilelist@),
        repair_altitudes_fit(tilelist@, context.rotation@),
    ensures
        exists|pending: Seq<PendingTile>, chain: Seq<Map<TileCoords, Tile>>|
            #[trigger] preprocessed(tilelist@, context.rotation@, pending, chain, r@),
        r@.dom() == tilelist@.dom(),
        forall|c: TileCoords|
            #[trigger] tilelist@.contains_key(c) && !needs_repair(tilelist@, context.rotation@, tilelist@[c])
                ==> r@[c] == tilelist@[c],
        forall|c: TileCoords|
            #[trigger] tilelist@.contains_key(c) && needs_repair(tilelist@, context.rotation@, tilelist@[c])
                ==> match pending_entry(tilelist@, context.rotation@, c).2 {
                Some(TileSpecialCase::BridgeTransition) | Some(TileSpecialCase::PowerlineCliff) =>
                    r@[c].altitude + 1 == tilelist@[c].altitude,
                Some(TileSpecialCase::PintchedAllSlope) => r@[c].altitude == tilelist@[c].altitude + 1,
                _ => r@[c].altitude == tilelist@[c].altitude,
            },
{
    let rotation = &context.rotation;
    let ghost m = tilelist@;
    let mut tilelist = tilelist;
    let found = collect_pending(&tilelist, rotation);
    let pending = sorted_by_empty_misfits(found);
    proof {
        lemma_pending_list_reordered(m, rotation@, found@, pending@);
        assert forall|i: int| 0 <= i < pending@.len() implies altitude_adjustable(
            (#[trigger] pending@[i]).0,
            pending@[i].2,
        ) by {
            assert(m.contains_key(pending@[i].0.coordinates));
        }
    }
    let candidates = mark_pending(&mut tilelist, &pending);
    let ghost marked_map = tilelist@;
    proof {
        assert(candidates@ =~= repair_candidates(pending@));
        assert forall|i: int| 0 <= i < candidates@.len() implies neighbors_addressable(
            #[trigger] candidates@[i],
        ) by {
            assert(m.contains_key(pending@[i].0.coordinates));
        }
    }
    let chain = repair_slopes(&mut tilelist, candidates, rotation);
    proof {
        assert(preprocessed(m, rotation@, pending@, chain@, tilelist@));
        lemma_preprocessing_frame(m, rotation@, pending@, chain@, tilelist@);
        assert forall|c: TileCoords| #[trigger] m.contains_key(c) && needs_repair(m, rotation@, m[c]) implies match pending_entry(m, rotation@, c).2 {
            Some(TileSpecialCase::BridgeTransition) | Some(TileSpecialCase::PowerlineCliff) =>
                tilelist@[c].altitude + 1 == m[c].altitude,
            Some(TileSpecialCase::PintchedAllSlope) => tilelist@[c].altitude == m[c].altitude + 1,
            _ => tilelist@[c].altitude == m[c].altitude,
        } by {
            lemma_repaired_altitudes(m, rotation@, pending@, chain@, tilelist@, c);
        }
    }
    tilelist
}

/// Whether every tile of the list is stored under its own coordinates and can look up its
/// neighbors.
pub fn tiles_well_placed(tilelist: &TileList) -> (r: bool)
    ensures
        r == (tiles_keyed(tilelist@) && tiles_addressable(tilelist@)),
{
    let ghost m = tilelist@;
    let ghost keys = tilelist.keys().remaining();
    let ghost ks = keys.unref();
    proof {
        assert(ks.to_set() == m.dom());
    }
    for k in it: tilelist.keys()
        invariant
            m == tilelist@,
            it.seq() == keys,
            ks == keys.unref(),
            ks.to_set() == m.dom(),
            forall|j: int|
                0 <= j < it.index() ==> m.contains_key(#[trigger] ks[j]) && m[ks[j]].coordinates == ks[j]
                    && neighbors_addressable(m[ks[j]]),
    {
        let ghost idx = it.index();
        proof {
            assert(ks[idx] == *k);
            assert(ks.to_set().contains(*k));
        }
        match tilelist.get(k) {
            Some(t) => {
                let c = t.coordinates;
                if !(c.0 == k.0 && c.1 == k.1 && c.0 < u32::MAX && c.1 < u32::MAX) {
                    proof {
                        if tiles_keyed(m) {
                            assert(m[*k].coordinates == *k);
                        }
                    }
                    return false;
                }
            },
            None => {
                return false;
            },
        }
    }
    proof {
        assert forall|c: TileCoords| #[trigger] m.contains_key(c) implies m[c].coordinates == c
            && neighbors_addressable(m[c]) by {
            assert(ks.to_set().contains(c));
            let j = choose|j: int| 0 <= j < ks.len() && ks[j] == c;
            assert(m.contains_key(ks[j]));
        }
    }
    true
}

/// Repairs the slopes of a city's tiles as `pre_process_tilelist` does, where its
/// requirements hold: the tiles are stored under their own coordinates and can look up
/// their neighbors, and every tile that is moved up or down stays within the range of
/// its altitude. Returns none otherwise.
pub fn pre_process_checked(context: &TerrainContext, tilelist: TileList) -> (r: Option<TileList>)
    ensures
        (tiles_keyed(tilelist@) && tiles_addressable(tilelist@) && repair_altitudes_fit(
            tilelist@,
            context.rotation@,
        )) <==> r is Some,
        r matches Some(result) ==> exists|pending: Seq<PendingTile>, chain: Seq<Map<TileCoords, Tile>>|
            #[trigger] preprocessed(tilelist@, context.rotation@, pending, chain, result@),
{
    if !tiles_well_placed(&tilelist) {
        return None;
    }
    let ghost m = tilelist@;
    let rotation = &context.rotation;
    let found = collect_pending(&tilelist, rotation);
    let mut i: usize = 0;
    while i < found.len()
        invariant
            0 <= i <= found.len(),
            m == tilelist@,
            rotation@ == context.rotation@,
            pending_list(m, rotation@, found@),
            forall|j: int| 0 <= j < i ==> altitude_adjustable((#[trigger] found@[j]).0, found@[j].2),
        decreases found.len() - i,
    {
        let entry = &found[i];
        let fits = match entry.2 {
            Some(TileSpecialCase::BridgeTransition) | Some(TileSpecialCase::PowerlineCliff) => entry.0.altitude >= 1,
            Some(TileSpecialCase::PintchedAllSlope) => entry.0.altitude < u32::MAX,
            _ => true,
        };
        if !fits {
            proof {
                let c = found@[i as int].0.coordinates;
                assert(m.contains_key(c) && needs_repair(m, rotation@, m[c]));
                assert(found@[i as int] == pending_entry(m, rotation@, c));
                assert(!altitude_adjustable(found@[i as int].0, found@[i as int].2));
                assert(!repair_altitudes_fit(m, rotation@));
            }
            return None;
        }
        i = i + 1;
    }
    proof {
        assert forall|c: TileCoords| #[trigger] m.contains_key(c) && needs_repair(m, rotation@, m[c]) implies altitude_adjustable(
            m[c],
            pending_entry(m, rotation@, c).2,
        ) by {
            let j = choose|j: int| 0 <= j < found@.len() && (#[trigger] found@[j]).0.coordinates == c;
            assert(altitude_adjustable(found@[j].0, found@[j].2));
        }
    }
    let out = pre_process_tilelist(context, tilelist);
    proof {
        let (p, c) = choose|p: Seq<PendingTile>, c: Seq<Map<TileCoords, Tile>>|
            #[trigger] preprocessed(m, context.rotation@, p, c, out@);
        assert(preprocessed(m, context.rotation@, p, c, out@));
    }
    let r = Some(out);
    assert(r->0@ == out@);
    r
}

} // verus!
