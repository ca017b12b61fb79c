//! The road network that cars drive on: its nodes by tile, their neighbors, the search for
//! the node nearest to a point, and where on a tile a car drives.

use std::collections::BTreeMap;

use vstd::prelude::*;

use crate::city_data::{Building, TileCoords};
use vstd::std_specs::iter::IteratorSpec;
use vstd::std_specs::cmp::OrdSpec;

verus! {

broadcast use vstd::laws_cmp::group_laws_cmp;

/// The corner pieces of the road network, by the corner of the tile they turn around.
#[derive(Clone, Copy, Debug, PartialEq, Eq, Structural)]
pub enum Corners {
    BottomRight,
    BottomLeft,
    TopLeft,
    TopRight,
}

/// The corner piece that an object id stands for, if it stands for one.
pub open spec fn corner_of_id(value: u8) -> Option<Corners> {
    if value == 0x24 {
        Some(Corners::BottomRight)
    } else if value == 0x25 {
        Some(Corners::BottomLeft)
    } else if value == 0x26 {
        Some(Corners::TopLeft)
    } else if value == 0x23 {
        Some(Corners::TopRight)
    } else {
        None
    }
}

/// The direction of a corner on the ground plane, as its x and z components: forward is
/// negative z, left is negative x.
pub open spec fn corner_direction(c: Corners) -> (i8, i8) {
    match c {
        Corners::TopLeft => (-1i8, -1i8),
        Corners::TopRight => (1i8, -1i8),
        Corners::BottomLeft => (-1i8, 1i8),
        Corners::BottomRight => (1i8, 1i8),
    }
}

impl Corners {
    /// The direction of the corner on the ground plane, as x and z components.
    pub fn direction(&self) -> (r: (i8, i8))
        ensures
            r == corner_direction(*self),
    {
        match self {
            Corners::TopLeft => (-1, -1),
            Corners::TopRight => (1, -1),
            Corners::BottomLeft => (-1, 1),
            Corners::BottomRight => (1, 1),
        }
    }

    /// The corner piece that an object id stands for, if it stands for one.
    pub fn from_u8(value: u8) -> (r: Option<Self>)
        ensures
            r == corner_of_id(value),
    {
        match value {
            0x24 => Some(Self::BottomRight),
            0x25 => Some(Self::BottomLeft),
            0x26 => Some(Self::TopLeft),
            0x23 => Some(Self::TopRight),
            _ => None,
        }
    }
}

/// The four headings a car can have, snapped to right angles.
#[derive(Clone, Copy, Debug, PartialEq, Eq, Structural)]
pub enum Direction {
    Forward,
    Back,
    Left,
    Right,
}

/// How many eighths of a tile a car keeps from a corner piece's corner when it drives
/// through it with a heading: one on the inner lane, three on the outer.
pub open spec fn corner_lane_eighths(direction: Direction, corner: Corners) -> u8 {
    match (direction, corner) {
        (Direction::Forward, Corners::BottomLeft) | (Direction::Left, Corners::BottomLeft) | (
            Direction::Back,
            Corners::BottomRight,
        ) | (Direction::Left, Corners::BottomRight) | (Direction::Forward, Corners::TopLeft) | (
            Direction::Right,
            Corners::TopLeft,
        ) | (Direction::Back, Corners::TopRight) | (Direction::Right, Corners::TopRight) => 1,
        _ => 3,
    }
}

/// The lane offset of a car in a corner piece, in eighths of a tile along the corner's
/// direction.
pub fn corner_lane_multiplier(direction: Direction, corner: Corners) -> (r: u8)
    ensures
        r == corner_lane_eighths(direction, corner),
{
    match (direction, corner) {
        (Direction::Forward, Corners::BottomLeft)
        | (Direction::Left, Corners::BottomLeft)
        | (Direction::Back, Corners::BottomRight)
        | (Direction::Left, Corners::BottomRight)
        | (Direction::Forward, Corners::TopLeft)
        | (Direction::Right, Corners::TopLeft)
        | (Direction::Back, Corners::TopRight)
        | (Direction::Right, Corners::TopRight) => 1,
        (Direction::Back, Corners::BottomLeft)
        | (Direction::Right, Corners::BottomLeft)
        | (Direction::Forward, Corners::BottomRight)
        | (Direction::Right, Corners::BottomRight)
        | (Direction::Back, Corners::TopLeft)
        | (Direction::Left, Corners::TopLeft)
        | (Direction::Forward, Corners::TopRight)
        | (Direction::Left, Corners::TopRight) => 3,
    }
}

/// Tile positions in the order of the road network: by x, then by y.
pub open spec fn coords_lt(a: TileCoords, b: TileCoords) -> bool {
    a.0 < b.0 || (a.0 == b.0 && a.1 < b.1)
}

/// `a` comes before `b` or is `b`.
pub open spec fn coords_le(a: TileCoords, b: TileCoords) -> bool {
    coords_lt(a, b) || a == b
}

/// `k` lies between `lo` and `hi`, both included.
pub open spec fn in_span(k: TileCoords, lo: TileCoords, hi: TileCoords) -> bool {
    coords_le(lo, k) && coords_le(k, hi)
}

/// `k` is the first of `keys` between `lo` and `hi`.
pub open spec fn is_lowest_in(keys: Set<TileCoords>, lo: TileCoords, hi: TileCoords, k: TileCoords) -> bool {
    &&& keys.contains(k)
    &&& in_span(k, lo, hi)
    &&& forall|j: TileCoords| #[trigger] keys.contains(j) && in_span(j, lo, hi) ==> coords_le(k, j)
}

/// `k` is the last of `keys` between `lo` and `hi`.
pub open spec fn is_highest_in(keys: Set<TileCoords>, lo: TileCoords, hi: TileCoords, k: TileCoords) -> bool {
    &&& keys.contains(k)
    &&& in_span(k, lo, hi)
    &&& forall|j: TileCoords| #[trigger] keys.contains(j) && in_span(j, lo, hi) ==> coords_le(j, k)
}

/// The first of `keys` between `lo` and `hi`, if any lies there.
pub open spec fn lowest_in(keys: Set<TileCoords>, lo: TileCoords, hi: TileCoords) -> Option<TileCoords> {
    if exists|k: TileCoords| is_lowest_in(keys, lo, hi, k) {
        Some(choose|k: TileCoords| is_lowest_in(keys, lo, hi, k))
    } else {
        None
    }
}

/// The last of `keys` between `lo` and `hi`, if any lies there.
pub open spec fn highest_in(keys: Set<TileCoords>, lo: TileCoords, hi: TileCoords) -> Option<TileCoords> {
    if exists|k: TileCoords| is_highest_in(keys, lo, hi, k) {
        Some(choose|k: TileCoords| is_highest_in(keys, lo, hi, k))
    } else {
        None
    }
}

proof fn lemma_lowest_unique(keys: Set<TileCoords>, lo: TileCoords, hi: TileCoords, k: TileCoords)
    requires
        is_lowest_in(keys, lo, hi, k),
    ensures
        lowest_in(keys, lo, hi) == Some(k),
{
    let c = choose|c: TileCoords| is_lowest_in(keys, lo, hi, c);
    assert(coords_le(c, k) && coords_le(k, c));
}

proof fn lemma_highest_unique(keys: Set<TileCoords>, lo: TileCoords, hi: TileCoords, k: TileCoords)
    requires
        is_highest_in(keys, lo, hi, k),
    ensures
        highest_in(keys, lo, hi) == Some(k),
{
    let c = choose|c: TileCoords| is_highest_in(keys, lo, hi, c);
    assert(coords_le(c, k) && coords_le(k, c));
}

/// The tiles next to a tile that could hold its road neighbors: below, left, right, above,
/// where they lie within coordinate range below.
pub open spec fn road_neighbor_candidates(c: TileCoords) -> Seq<TileCoords> {
    (if c.1 >= 1 {
        seq![(c.0, (c.1 - 1) as u32)]
    } else {
        seq![]
    }) + (if c.0 >= 1 {
        seq![((c.0 - 1) as u32, c.1)]
    } else {
        seq![]
    }) + seq![((c.0 + 1) as u32, c.1), (c.0, (c.1 + 1) as u32)]
}

/// The tiles of `s` that are nodes of the network, in order.
pub open spec fn nodes_among(nodes: Map<TileCoords, Building>, s: Seq<TileCoords>) -> Seq<TileCoords>
    decreases s.len(),
{
    if s.len() == 0 {
        seq![]
    } else {
        let rest = nodes_among(nodes, s.drop_last());
        if nodes.contains_key(s.last()) {
            rest.push(s.last())
        } else {
            rest
        }
    }
}

proof fn lemma_nodes_among(nodes: Map<TileCoords, Building>, s: Seq<TileCoords>)
    ensures
        forall|j: int| 0 <= j < nodes_among(nodes, s).len() ==> nodes.contains_key(
            #[trigger] nodes_among(nodes, s)[j],
        ) && s.contains(nodes_among(nodes, s)[j]),
    decreases s.len(),
{
    if s.len() > 0 {
        lemma_nodes_among(nodes, s.drop_last());
        let rest = nodes_among(nodes, s.drop_last());
        assert forall|j: int| 0 <= j < nodes_among(nodes, s).len() implies nodes.contains_key(
            #[trigger] nodes_among(nodes, s)[j],
        ) && s.contains(nodes_among(nodes, s)[j]) by {
            if j < rest.len() {
                assert(nodes_among(nodes, s)[j] == rest[j]);
                let i = choose|i: int| 0 <= i < s.drop_last().len() && s.drop_last()[i] == rest[j];
                assert(s[i] == rest[j]);
            } else {
                assert(s[s.len() - 1] == s.last());
            }
        }
    }
}

/// The road neighbors of a tile: the candidates that are nodes of the network, in order.
pub open spec fn road_neighbors(nodes: Map<TileCoords, Building>, c: TileCoords) -> Seq<TileCoords> {
    nodes_among(nodes, road_neighbor_candidates(c))
}

fn copy_coords(v: &Vec<TileCoords>) -> (r: Vec<TileCoords>)
    ensures
        r@ == v@,
{
    let mut r: Vec<TileCoords> = Vec::new();
    let mut i: usize = 0;
    while i < v.len()
        invariant
            0 <= i <= v.len(),
            r@ == v@.take(i as int),
        decreases v.len() - i,
    {
        r.push(v[i]);
        assert(v@.take(i as int + 1) =~= v@.take(i as int).push(v@[i as int]));
        i = i + 1;
    }
    assert(v@.take(v@.len() as int) =~= v@);
    r
}

/// `ks` lists the tiles of `dom` in the network's order, each once.
pub open spec fn tiles_in_order(dom: Set<TileCoords>, ks: Seq<TileCoords>) -> bool {
    &&& ks.to_set() == dom
    &&& ks.len() == dom.len()
    &&& forall|i: int, j: int| 0 <= i < j < ks.len() ==> coords_lt(#[trigger] ks[i], #[trigger] ks[j])
}

/// A sequence of tiles that the standard library calls increasing is in the network's
/// order.
proof fn lemma_increasing_tiles(ks: Seq<TileCoords>)
    requires
        vstd::std_specs::btree::increasing_seq(ks),
    ensures
        forall|i: int, j: int| 0 <= i < j < ks.len() ==> coords_lt(#[trigger] ks[i], #[trigger] ks[j]),
{
    assert forall|i: int, j: int| 0 <= i < j < ks.len() implies coords_lt(#[trigger] ks[i], #[trigger] ks[j]) by {
        assert(ks[i].cmp_spec(&ks[j]) is Less);
    }
}

/// Draws an index below `n` with `rand::random_range`. Claimed: the index is below `n`;
/// which one comes out rests on chance.
#[verifier::external_body]
fn random_index(n: usize) -> (r: usize)
    requires
        n > 0,
    ensures
        r < n,
{
    rand::random_range(0..n)
}

/// The state of the search for the node nearest to a point: the two tiles that bound it,
/// and the nodes whose positions stand for each bound.
#[derive(Clone, Copy, Debug)]
pub struct NearestSearch {
    pub low: TileCoords,
    pub low_object: TileCoords,
    pub high: TileCoords,
    pub high_object: TileCoords,
}

/// What one look at the positions of the bounds' nodes tells the search: whether the
/// point is at either node, the tile the point lies at seen from the lower node, the
/// offset in tiles from the point back to the upper node (rounded), and whether the lower
/// node is no farther from the point than the upper one.
#[derive(Clone, Copy, Debug)]
pub struct NearestProbe {
    pub low_reached: bool,
    pub high_reached: bool,
    pub low_target: TileCoords,
    pub high_offset: (i32, i32),
    pub low_not_farther: bool,
}

/// The outcome of one step of the search.
#[derive(Clone, Copy, Debug)]
pub enum NearestStep {
    /// The nearest node is the one at this tile.
    Found(TileCoords),
    /// The search goes on with new bounds.
    Next(NearestSearch),
}

/// A tile coordinate moved back by a signed offset, wrapping around the range of `u32`.
pub open spec fn wrapping_back(x: u32, offset: i32) -> u32 {
    ((x - offset) % 0x1_0000_0000int) as u32
}

/// The tile the point lies at, seen from the upper bound.
pub open spec fn high_target(high: TileCoords, offset: (i32, i32)) -> TileCoords {
    (wrapping_back(high.0, offset.0), wrapping_back(high.1, offset.1))
}

/// The new lower bound: the last node from the lower bound up to its target, or the first
/// node from the target up to the lower bound.
pub open spec fn next_low(keys: Set<TileCoords>, low: TileCoords, target: TileCoords) -> Option<TileCoords> {
    if coords_lt(low, target) {
        highest_in(keys, low, target)
    } else if low == target {
        lowest_in(keys, low, target)
    } else {
        lowest_in(keys, target, low)
    }
}

/// The new upper bound: the first node from its target up to the upper bound, or the last
/// node from the upper bound up to the target.
pub open spec fn next_high(keys: Set<TileCoords>, high: TileCoords, target: TileCoords) -> Option<TileCoords> {
    if coords_lt(target, high) {
        lowest_in(keys, target, high)
    } else if target == high {
        highest_in(keys, target, high)
    } else {
        highest_in(keys, high, target)
    }
}

/// One step of the search for the nearest node, given what a look at the positions told.
pub open spec fn search_step(keys: Set<TileCoords>, s: NearestSearch, p: NearestProbe) -> NearestStep {
    if p.low_reached {
        NearestStep::Found(s.low)
    } else if p.high_reached {
        NearestStep::Found(s.high)
    } else {
        match next_low(keys, s.low, p.low_target) {
            None => NearestStep::Found(s.high),
            Some(nl) => match next_high(keys, s.high, high_target(s.high, p.high_offset)) {
                None => NearestStep::Found(s.high),
                Some(nh) => if coords_lt(nh, nl) {
                    NearestStep::Next(NearestSearch { low: nh, low_object: nl, high: nl, high_object: nl })
                } else if nl == nh {
                    NearestStep::Found(nl)
                } else if s.low == nl && s.high == nh {
                    NearestStep::Found(
                        if p.low_not_farther {
                            s.low
                        } else {
                            s.high
                        },
                    )
                } else {
                    NearestStep::Next(NearestSearch { low: nl, low_object: nl, high: nh, high_object: nh })
                },
            },
        }
    }
}

/// Every bound of a search, and every node that stands for one, is a node of the network.
pub open spec fn search_within(keys: Set<TileCoords>, s: NearestSearch) -> bool {
    &&& keys.contains(s.low)
    &&& keys.contains(s.low_object)
    &&& keys.contains(s.high)
    &&& keys.contains(s.high_object)
}

proof fn lemma_found_bounds_are_keys(keys: Set<TileCoords>, lo: TileCoords, hi: TileCoords)
    ensures
        lowest_in(keys, lo, hi) matches Some(k) ==> keys.contains(k),
        highest_in(keys, lo, hi) matches Some(k) ==> keys.contains(k),
{
}

/// A search step from bounds that are nodes of the network either finds a node of the
/// network or goes on with bounds that are nodes of the network.
pub proof fn lemma_search_step_stays_in_network(keys: Set<TileCoords>, s: NearestSearch, p: NearestProbe)
    requires
        search_within(keys, s),
    ensures
        match search_step(keys, s, p) {
            NearestStep::Found(t) => keys.contains(t),
            NearestStep::Next(n) => search_within(keys, n),
        },
{
    let target = high_target(s.high, p.high_offset);
    lemma_found_bounds_are_keys(keys, s.low, p.low_target);
    lemma_found_bounds_are_keys(keys, p.low_target, s.low);
    lemma_found_bounds_are_keys(keys, target, s.high);
    lemma_found_bounds_are_keys(keys, s.high, target);
}

/// The search starts from bounds that are nodes of the network.
pub proof fn lemma_search_starts_in_network(keys: Set<TileCoords>)
    ensures
        lowest_in(keys, (0, 0), (u32::MAX, u32::MAX)) matches Some(lo) ==> keys.contains(lo),
        highest_in(keys, (0, 0), (u32::MAX, u32::MAX)) matches Some(hi) ==> keys.contains(hi),
{
    lemma_found_bounds_are_keys(keys, (0, 0), (u32::MAX, u32::MAX));
}

/// When a step leaves both bounds where they were and they differ, the search ends on
/// the bound that is not farther from the point: the lower one exactly when the lower
/// node is no farther, otherwise the upper one.
pub proof fn lemma_settled_search_picks_nearer_bound(keys: Set<TileCoords>, s: NearestSearch, p: NearestProbe)
    requires
        !p.low_reached,
        !p.high_reached,
        coords_lt(s.low, s.high),
        next_low(keys, s.low, p.low_target) == Some(s.low),
        next_high(keys, s.high, high_target(s.high, p.high_offset)) == Some(s.high),
    ensures
        p.low_not_farther ==> search_step(keys, s, p) == NearestStep::Found(s.low),
        !p.low_not_farther ==> search_step(keys, s, p) == NearestStep::Found(s.high),
{
}

/// The search goes on only with a lower bound that lies before its upper bound.
pub proof fn lemma_search_goes_on_in_order(keys: Set<TileCoords>, s: NearestSearch, p: NearestProbe)
    ensures
        search_step(keys, s, p) matches NearestStep::Next(n) ==> coords_lt(n.low, n.high),
{
}

/// When the new lower and upper bounds of a step meet at one node, that node is found.
pub proof fn lemma_meeting_bounds_are_found(keys: Set<TileCoords>, s: NearestSearch, p: NearestProbe, k: TileCoords)
    requires
        !p.low_reached,
        !p.high_reached,
        next_low(keys, s.low, p.low_target) == Some(k),
        next_high(keys, s.high, high_target(s.high, p.high_offset)) == Some(k),
    ensures
        search_step(keys, s, p) == NearestStep::Found(k),
{
}

/// A step finds the bound the point lies at, the lower one first.
pub proof fn lemma_reached_bound_is_found(keys: Set<TileCoords>, s: NearestSearch, p: NearestProbe)
    ensures
        p.low_reached ==> search_step(keys, s, p) == NearestStep::Found(s.low),
        !p.low_reached && p.high_reached ==> search_step(keys, s, p) == NearestStep::Found(s.high),
{
}

fn back_by(x: u32, offset: i32) -> (r: u32)
    ensures
        r == wrapping_back(x, offset),
{
    let d: i64 = x as i64 - offset as i64;
    let r: u32 = if d < 0 {
        (d + 0x1_0000_0000i64) as u32
    } else if d >= 0x1_0000_0000i64 {
        (d - 0x1_0000_0000i64) as u32
    } else {
        d as u32
    };
    r
}

fn tile_eq(a: TileCoords, b: TileCoords) -> (r: bool)
    ensures
        r == (a == b),
{
    a.0 == b.0 && a.1 == b.1
}

fn tile_lt(a: TileCoords, b: TileCoords) -> (r: bool)
    ensures
        r == coords_lt(a, b),
{
    a.0 < b.0 || (a.0 == b.0 && a.1 < b.1)
}

/// The road network as the contracts see it: its nodes by tile, and the neighbor lists
/// computed so far.
pub struct RoadNetworkModel {
    pub nodes: Map<TileCoords, Building>,
    pub neighbor_cache: Map<TileCoords, Seq<TileCoords>>,
}

/// The road network: its nodes by tile, and the neighbor list of each node once it has
/// been asked for.
pub struct RoadNavigation {
    network: BTreeMap<TileCoords, Building>,
    neighbors: BTreeMap<TileCoords, Vec<TileCoords>>,
}

impl View for RoadNavigation {
    type V = RoadNetworkModel;

    closed spec fn view(&self) -> RoadNetworkModel {
        RoadNetworkModel {
            nodes: self.network@,
            neighbor_cache: self.neighbors@.map_values(|v: Vec<TileCoords>| v@),
        }
    }
}

impl RoadNavigation {
    /// Each node is stored under its own tile, and each neighbor list belongs to a node and
    /// names nodes next to it.
    #[verifier::type_invariant]
    spec fn well_formed(&self) -> bool {
        &&& forall|k: TileCoords| #[trigger] self@.nodes.contains_key(k) ==> self@.nodes[k].tile_coords == k
        &&& forall|k: TileCoords|
            #[trigger] self@.neighbor_cache.contains_key(k) ==> self@.nodes.contains_key(k) && forall|i: int|
                0 <= i < self@.neighbor_cache[k].len() ==> self@.nodes.contains_key(
                    #[trigger] self@.neighbor_cache[k][i],
                ) && road_neighbor_candidates(k).contains(self@.neighbor_cache[k][i])
    }

    /// An empty network.
    pub fn new() -> (r: Self)
        ensures
            r@.nodes == Map::<TileCoords, Building>::empty(),
            r@.neighbor_cache == Map::<TileCoords, Seq<TileCoords>>::empty(),
    {
        let r = RoadNavigation { network: BTreeMap::new(), neighbors: BTreeMap::new() };
        assert(r@.neighbor_cache =~= Map::<TileCoords, Seq<TileCoords>>::empty());
        r
    }

    /// Adds a node at the building's tile, replacing the node there and its neighbor list.
    pub fn insert_node(&mut self, node: Building)
        ensures
            final(self)@.nodes == old(self)@.nodes.insert(node.tile_coords, node),
            final(self)@.neighbor_cache == old(self)@.neighbor_cache.remove(node.tile_coords),
    {
        proof {
            use_type_invariant(&*self);
        }
        let ghost old_nodes = self@.nodes;
        let ghost old_cache = self@.neighbor_cache;
        let tile_coords = node.tile_coords;
        let mut taken = RoadNavigation::new();
        std::mem::swap(&mut taken, self);
        let RoadNavigation { mut network, mut neighbors } = taken;
        network.insert(tile_coords, node);
        neighbors.remove(&tile_coords);
        let ghost new_cache = neighbors@.map_values(|v: Vec<TileCoords>| v@);
        proof {
            assert(network@ == old_nodes.insert(tile_coords, node));
            assert(new_cache =~= old_cache.remove(tile_coords));
            assert forall|k: TileCoords| #[trigger] new_cache.contains_key(k) implies network@.contains_key(k)
                && forall|i: int|
                0 <= i < new_cache[k].len() ==> network@.contains_key(#[trigger] new_cache[k][i])
                    && road_neighbor_candidates(k).contains(new_cache[k][i]) by {
                assert(old_cache.contains_key(k));
                assert(new_cache[k] == old_cache[k]);
                assert forall|i: int| 0 <= i < new_cache[k].len() implies network@.contains_key(
                    #[trigger] new_cache[k][i],
                ) by {
                    assert(old_nodes.contains_key(old_cache[k][i]));
                }
            }
        }
        *self = RoadNavigation { network, neighbors };
    }

    /// The node at a tile, if there is one.
    pub fn get_node(&self, coords: TileCoords) -> (r: Option<&Building>)
        ensures
            r == (if self@.nodes.contains_key(coords) {
                Some(&self@.nodes[coords])
            } else {
                None
            }),
    {
        self.network.get(&coords)
    }

    /// The number of nodes.
    pub fn len(&self) -> (r: usize)
        ensures
            r == self@.nodes.len(),
    {
        self.network.len()
    }

    /// The road neighbors of the node at a tile: the list computed the first time it was
    /// asked for, or, the first time, the nodes below, left, right and above it.
    pub fn get_neighbors(&mut self, tile_coords: TileCoords) -> (r: Option<Vec<TileCoords>>)
        requires
            old(self)@.nodes.contains_key(tile_coords) && !old(self)@.neighbor_cache.contains_key(
                tile_coords,
            ) ==> tile_coords.0 < u32::MAX && tile_coords.1 < u32::MAX,
        ensures
            final(self)@.nodes == old(self)@.nodes,
            !old(self)@.nodes.contains_key(tile_coords) ==> r is None && final(self)@.neighbor_cache
                == old(self)@.neighbor_cache,
            old(self)@.neighbor_cache.contains_key(tile_coords) ==> (r matches Some(v) && v@
                == old(self)@.neighbor_cache[tile_coords] && final(self)@.neighbor_cache == old(
                self,
            )@.neighbor_cache),
            old(self)@.nodes.contains_key(tile_coords) && !old(self)@.neighbor_cache.contains_key(
                tile_coords,
            ) ==> (r matches Some(v) && v@ == road_neighbors(old(self)@.nodes, tile_coords)
                && final(self)@.neighbor_cache == old(self)@.neighbor_cache.insert(tile_coords, v@)),
            r matches Some(v) ==> forall|i: int|
                0 <= i < v@.len() ==> old(self)@.nodes.contains_key(#[trigger] v@[i])
                    && road_neighbor_candidates(tile_coords).contains(v@[i]),
    {
        proof {
            use_type_invariant(&*self);
        }
        if !self.network.contains_key(&tile_coords) {
            return None;
        }
        if let Some(cached) = self.neighbors.get(&tile_coords) {
            return Some(copy_coords(cached));
        }
        let (x, y) = tile_coords;
        let mut candidates: Vec<TileCoords> = Vec::new();
        if y >= 1 {
            candidates.push((x, y - 1));
        }
        if x >= 1 {
            candidates.push((x - 1, y));
        }
        candidates.push((x + 1, y));
        candidates.push((x, y + 1));
        assert(candidates@ =~= road_neighbor_candidates(tile_coords));
        let ghost nodes = self@.nodes;
        let mut found: Vec<TileCoords> = Vec::new();
        let mut i: usize = 0;
        while i < candidates.len()
            invariant
                0 <= i <= candidates.len(),
                nodes == self.network@,
                candidates@ == road_neighbor_candidates(tile_coords),
                found@ == nodes_among(nodes, candidates@.take(i as int)),
            decreases candidates.len() - i,
        {
            let c = candidates[i];
            assert(candidates@.take(i as int + 1).drop_last() =~= candidates@.take(i as int));
            if self.network.contains_key(&c) {
                found.push(c);
            }
            i = i + 1;
        }
        assert(candidates@.take(candidates@.len() as int) =~= candidates@);
        let ghost list = found@;
        proof {
            lemma_nodes_among(nodes, road_neighbor_candidates(tile_coords));
        }
        let mut taken = RoadNavigation::new();
        std::mem::swap(&mut taken, self);
        let RoadNavigation { network, mut neighbors } = taken;
        neighbors.insert(tile_coords, copy_coords(&found));
        let ghost new_cache = neighbors@.map_values(|v: Vec<TileCoords>| v@);
        proof {
            assert(network@ == old(self)@.nodes);
            assert(new_cache =~= old(self)@.neighbor_cache.insert(tile_coords, list));
            assert forall|k: TileCoords| #[trigger] new_cache.contains_key(k) implies network@.contains_key(k)
                && forall|j: int|
                0 <= j < new_cache[k].len() ==> network@.contains_key(#[trigger] new_cache[k][j])
                    && road_neighbor_candidates(k).contains(new_cache[k][j]) by {
                if k != tile_coords {
                    assert(old(self)@.neighbor_cache.contains_key(k));
                }
            }
        }
        *self = RoadNavigation { network, neighbors };
        Some(found)
    }

    /// The first node between two tiles, both included, if any lies there.
    pub fn lowest_between(&self, lo: TileCoords, hi: TileCoords) -> (r: Option<TileCoords>)
        ensures
            r == lowest_in(self@.nodes.dom(), lo, hi),
    {
        let ghost keys = self.network.keys().remaining();
        let ghost ks = keys.unref();
        let ghost dom = self@.nodes.dom();
        proof {
            assert(ks.to_set() == dom);
        }
        let mut best: Option<TileCoords> = None;
        for k in it: self.network.keys()
            invariant
                it.seq() == keys,
                ks == keys.unref(),
                ks.to_set() == dom,
                dom == self@.nodes.dom(),
                best matches Some(b) ==> ks.take(it.index()).contains(b) && in_span(b, lo, hi),
                best matches Some(b) ==> forall|j: int|
                    0 <= j < it.index() && in_span(#[trigger] ks[j], lo, hi) ==> coords_le(b, ks[j]),
                best is None ==> forall|j: int| 0 <= j < it.index() ==> !in_span(#[trigger] ks[j], lo, hi),
        {
            let ghost idx = it.index();
            let ghost before = best;
            assert(ks[idx] == *k);
            let inside = (lo.0 < k.0 || (lo.0 == k.0 && lo.1 <= k.1)) && (k.0 < hi.0 || (k.0 == hi.0
                && k.1 <= hi.1));
            if inside {
                match best {
                    Some(b) => {
                        if k.0 < b.0 || (k.0 == b.0 && k.1 < b.1) {
                            best = Some(*k);
                        }
                    },
                    None => {
                        best = Some(*k);
                    },
                }
            }
            proof {
                if let Some(b) = best {
                    if before == best {
                        let i = choose|i: int| 0 <= i < idx && ks.take(idx)[i] == b;
                        assert(ks.take(idx + 1)[i] == b);
                    } else {
                        assert(ks.take(idx + 1)[idx] == b);
                    }
                }
            }
        }
        proof {
            match best {
                Some(b) => {
                    let i = choose|i: int| 0 <= i < ks.len() && ks.take(ks.len() as int)[i] == b;
                    assert(ks[i] == b);
                    assert(ks.to_set().contains(b));
                    assert forall|j: TileCoords| #[trigger] dom.contains(j) && in_span(j, lo, hi) implies coords_le(b, j) by {
                        assert(ks.to_set().contains(j));
                        let jj = choose|jj: int| 0 <= jj < ks.len() && ks[jj] == j;
                        assert(in_span(ks[jj], lo, hi));
                    }
                    lemma_lowest_unique(dom, lo, hi, b);
                },
                None => {
                    assert forall|k: TileCoords| !is_lowest_in(dom, lo, hi, k) by {
                        if is_lowest_in(dom, lo, hi, k) {
                            assert(ks.to_set().contains(k));
                            let j = choose|j: int| 0 <= j < ks.len() && ks[j] == k;
                            assert(!in_span(ks[j], lo, hi));
                        }
                    }
                },
            }
        }
        best
    }
    /// The last node between two tiles, both included, if any lies there.
    pub fn highest_between(&self, lo: TileCoords, hi: TileCoords) -> (r: Option<TileCoords>)
        ensures
            r == highest_in(self@.nodes.dom(), lo, hi),
    {
        let ghost keys = self.network.keys().remaining();
        let ghost ks = keys.unref();
        let ghost dom = self@.nodes.dom();
        proof {
            assert(ks.to_set() == dom);
        }
        let mut best: Option<TileCoords> = None;
        for k in it: self.network.keys()
            invariant
                it.seq() == keys,
                ks == keys.unref(),
                ks.to_set() == dom,
                dom == self@.nodes.dom(),
                best matches Some(b) ==> ks.take(it.index()).contains(b) && in_span(b, lo, hi),
                best matches Some(b) ==> forall|j: int|
                    0 <= j < it.index() && in_span(#[trigger] ks[j], lo, hi) ==> coords_le(ks[j], b),
                best is None ==> forall|j: int| 0 <= j < it.index() ==> !in_span(#[trigger] ks[j], lo, hi),
        {
            let ghost idx = it.index();
            let ghost before = best;
            assert(ks[idx] == *k);
            let inside = (lo.0 < k.0 || (lo.0 == k.0 && lo.1 <= k.1)) && (k.0 < hi.0 || (k.0 == hi.0
                && k.1 <= hi.1));
            if inside {
                match best {
                    Some(b) => {
                        if b.0 < k.0 || (b.0 == k.0 && b.1 < k.1) {
                            best = Some(*k);
                        }
                    },
                    None => {
                        best = Some(*k);
                    },
                }
            }
            proof {
                if let Some(b) = best {
                    if before == best {
                        let i = choose|i: int| 0 <= i < idx && ks.take(idx)[i] == b;
                        assert(ks.take(idx + 1)[i] == b);
                    } else {
                        assert(ks.take(idx + 1)[idx] == b);
                    }
                }
            }
        }
        proof {
            match best {
                Some(b) => {
                    let i = choose|i: int| 0 <= i < ks.len() && ks.take(ks.len() as int)[i] == b;
                    assert(ks[i] == b);
                    assert(ks.to_set().contains(b));
                    assert forall|j: TileCoords| #[trigger] dom.contains(j) && in_span(j, lo, hi) implies coords_le(j, b) by {
                        assert(ks.to_set().contains(j));
                        let jj = choose|jj: int| 0 <= jj < ks.len() && ks[jj] == j;
                        assert(in_span(ks[jj], lo, hi));
                    }
                    lemma_highest_unique(dom, lo, hi, b);
                },
                None => {
                    assert forall|k: TileCoords| !is_highest_in(dom, lo, hi, k) by {
                        if is_highest_in(dom, lo, hi, k) {
                            assert(ks.to_set().contains(k));
                            let j = choose|j: int| 0 <= j < ks.len() && ks[j] == k;
                            assert(!in_span(ks[j], lo, hi));
                        }
                    }
                },
            }
        }
        best
    }

    /// The node that comes `index`-th in the order of the network's tiles.
    pub fn node_at(&self, index: usize) -> (r: &Building)
        requires
            index < self@.nodes.len(),
        ensures
            exists|ks: Seq<TileCoords>|
                #[trigger] tiles_in_order(self@.nodes.dom(), ks) && *r == self@.nodes[ks[index as int]],
    {
        let values = self.network.values();
        let ghost m = self@.nodes;
        let ghost key_seq = choose|key_seq: Seq<TileCoords>|
            {
                &&& vstd::std_specs::btree::increasing_seq(key_seq)
                &&& key_seq.to_set() == m.dom()
                &&& key_seq.no_duplicates()
                &&& values.remaining() == key_seq.map(|i: int, k: TileCoords| &m[k])
            };
        proof {
            lemma_increasing_tiles(key_seq);
            assert(tiles_in_order(m.dom(), key_seq));
            key_seq.unique_seq_to_set();
        }
        let n = self.network.len();
        let mut count: usize = 0;
        let mut found: Option<&Building> = None;
        for v in it: values
            invariant
                n == m.len(),
                it.seq() == key_seq.map(|i: int, k: TileCoords| &m[k]),
                key_seq.len() == m.len(),
                tiles_in_order(m.dom(), key_seq),
                index < m.len(),
                count == it.index(),
                found is None ==> count <= index,
                found matches Some(b) ==> *b == m[key_seq[index as int]],
        {
            if count == index {
                found = Some(v);
            }
            count = count + 1;
        }
        match found {
            Some(b) => b,
            None => {
                assert(false);
                found.unwrap()
            },
        }
    }

    /// The first state of the search for the nearest node: bounded by the first and the
    /// last node of the network; none where the network is empty.
    pub fn start_nearest_search(&self) -> (r: Option<NearestSearch>)
        ensures
            match (lowest_in(self@.nodes.dom(), (0, 0), (u32::MAX, u32::MAX)), highest_in(self@.nodes.dom(), (0, 0), (u32::MAX, u32::MAX))) {
                (Some(lo), Some(hi)) => r == Some(NearestSearch { low: lo, low_object: lo, high: hi, high_object: hi }),
                _ => r is None,
            },
            r matches Some(s) ==> search_within(self@.nodes.dom(), s),
    {
        proof {
            lemma_search_starts_in_network(self@.nodes.dom());
        }
        let low = self.lowest_between((0, 0), (u32::MAX, u32::MAX));
        let high = self.highest_between((0, 0), (u32::MAX, u32::MAX));
        match (low, high) {
            (Some(lo), Some(hi)) => Some(NearestSearch { low: lo, low_object: lo, high: hi, high_object: hi }),
            _ => None,
        }
    }

    /// One step of the search for the node nearest to a point.
    pub fn nearest_search_step(&self, search: NearestSearch, probe: NearestProbe) -> (r: NearestStep)
        ensures
            r == search_step(self@.nodes.dom(), search, probe),
            search_within(self@.nodes.dom(), search) ==> match r {
                NearestStep::Found(t) => self@.nodes.contains_key(t),
                NearestStep::Next(n) => search_within(self@.nodes.dom(), n),
            },
    {
        proof {
            if search_within(self@.nodes.dom(), search) {
                lemma_search_step_stays_in_network(self@.nodes.dom(), search, probe);
            }
        }
        if probe.low_reached {
            return NearestStep::Found(search.low);
        }
        if probe.high_reached {
            return NearestStep::Found(search.high);
        }
        let low = search.low;
        let target = probe.low_target;
        let new_low = if tile_lt(low, target) {
            self.highest_between(low, target)
        } else if tile_eq(low, target) {
            self.lowest_between(low, target)
        } else {
            self.lowest_between(target, low)
        };
        let new_low = match new_low {
            Some(k) => k,
            None => return NearestStep::Found(search.high),
        };
        let high = search.high;
        let target = (back_by(high.0, probe.high_offset.0), back_by(high.1, probe.high_offset.1));
        let new_high = if tile_lt(target, high) {
            self.lowest_between(target, high)
        } else if tile_eq(target, high) {
            self.highest_between(target, high)
        } else {
            self.highest_between(high, target)
        };
        let new_high = match new_high {
            Some(k) => k,
            None => return NearestStep::Found(search.high),
        };
        if tile_lt(new_high, new_low) {
            return NearestStep::Next(
                NearestSearch { low: new_high, low_object: new_low, high: new_low, high_object: new_low },
            );
        }
        if tile_eq(new_low, new_high) {
            return NearestStep::Found(new_low);
        }
        if tile_eq(low, new_low) && tile_eq(high, new_high) {
            if probe.low_not_farther {
                return NearestStep::Found(low);
            } else {
                return NearestStep::Found(high);
            }
        }
        NearestStep::Next(NearestSearch { low: new_low, low_object: new_low, high: new_high, high_object: new_high })
    }

    /// A node picked at random.
    pub fn get_random_node(&self) -> (r: &Building)
        requires
            self@.nodes.len() > 0,
        ensures
            exists|k: TileCoords| self@.nodes.contains_key(k) && *r == self@.nodes[k] && r.tile_coords == k,
    {
        proof {
            use_type_invariant(self);
        }
        let index = random_index(self.network.len());
        let r = self.node_at(index);
        proof {
            let ks = choose|ks: Seq<TileCoords>|
                #[trigger] tiles_in_order(self@.nodes.dom(), ks) && *r == self@.nodes[ks[index as int]];
            assert(ks.to_set().contains(ks[index as int]));
        }
        r
    }
}

/// Why the road network resource could not answer.
#[derive(Clone, Copy, Debug, PartialEq, Eq, Structural)]
pub enum RoadNetworkError {
    /// The resource has no world constants yet, so it holds no network.
    NotReady,
    /// The network has no node at this tile.
    UnknownNode(u32, u32),
}

/// The road network as a resource of the game: there is no network until the world
/// constants are set, and setting them starts a new, empty one.
pub struct RoadNavigationRes {
    inner: Option<RoadNavigation>,
}

impl View for RoadNavigationRes {
    type V = Option<RoadNetworkModel>;

    closed spec fn view(&self) -> Option<RoadNetworkModel> {
        match self.inner {
            Some(n) => Some(n@),
            None => None,
        }
    }
}

impl RoadNavigationRes {
    /// A resource without a network.
    pub fn new() -> (r: Self)
        ensures
            r@ is None,
    {
        RoadNavigationRes { inner: None }
    }

    /// The world constants are set: the resource starts a new, empty network.
    pub fn set_world_constants(&mut self)
        ensures
            final(self)@ matches Some(n) && n.nodes == Map::<TileCoords, Building>::empty()
                && n.neighbor_cache == Map::<TileCoords, Seq<TileCoords>>::empty(),
    {
        self.inner = Some(RoadNavigation::new());
    }

    /// Adds a node to the network.
    pub fn insert_node(&mut self, building: Building) -> (r: Result<(), RoadNetworkError>)
        ensures
            old(self)@ is None ==> r == Err::<(), RoadNetworkError>(RoadNetworkError::NotReady)
                && final(self)@ is None,
            old(self)@ is Some ==> r is Ok,
            old(self)@ matches Some(n) ==> (final(self)@ matches Some(m) && m.nodes
                == n.nodes.insert(building.tile_coords, building) && m.neighbor_cache
                == n.neighbor_cache.remove(building.tile_coords)),
    {
        match self.inner.take() {
            None => Err(RoadNetworkError::NotReady),
            Some(mut network) => {
                network.insert_node(building);
                self.inner = Some(network);
                Ok(())
            },
        }
    }

    /// The node at a tile.
    pub fn node(&self, coords: TileCoords) -> (r: Result<&Building, RoadNetworkError>)
        ensures
            self@ is None ==> r == Err::<&Building, RoadNetworkError>(RoadNetworkError::NotReady),
            self@ matches Some(n) ==> (if n.nodes.contains_key(coords) {
                r == Ok::<&Building, RoadNetworkError>(&n.nodes[coords])
            } else {
                r == Err::<&Building, RoadNetworkError>(RoadNetworkError::UnknownNode(coords.0, coords.1))
            }),
    {
        match &self.inner {
            None => Err(RoadNetworkError::NotReady),
            Some(network) => match network.get_node(coords) {
                Some(b) => Ok(b),
                None => Err(RoadNetworkError::UnknownNode(coords.0, coords.1)),
            },
        }
    }

    /// The nodes of a car's current tile and of its target, for finding its next step.
    pub fn route_nodes(&self, current: TileCoords, target: TileCoords) -> (r: Result<
        (&Building, &Building),
        RoadNetworkError,
    >)
        ensures
            self@ is None ==> r == Err::<(&Building, &Building), RoadNetworkError>(
                RoadNetworkError::NotReady,
            ),
            self@ matches Some(n) ==> (if !n.nodes.contains_key(current) {
                r == Err::<(&Building, &Building), RoadNetworkError>(
                    RoadNetworkError::UnknownNode(current.0, current.1),
                )
            } else if !n.nodes.contains_key(target) {
                r == Err::<(&Building, &Building), RoadNetworkError>(
                    RoadNetworkError::UnknownNode(target.0, target.1),
                )
            } else {
                r == Ok::<(&Building, &Building), RoadNetworkError>((&n.nodes[current], &n.nodes[target]))
            }),
    {
        let current_node = match self.node(current) {
            Ok(b) => b,
            Err(e) => return Err(e),
        };
        let target_node = match self.node(target) {
            Ok(b) => b,
            Err(e) => return Err(e),
        };
        Ok((current_node, target_node))
    }

    /// A node picked at random from the network.
    pub fn random_node(&self) -> (r: Result<&Building, RoadNetworkError>)
        requires
            self@ matches Some(n) ==> n.nodes.len() > 0,
        ensures
            self@ is None ==> r == Err::<&Building, RoadNetworkError>(RoadNetworkError::NotReady),
            self@ matches Some(n) ==> (r matches Ok(b) && exists|k: TileCoords|
                n.nodes.contains_key(k) && *b == n.nodes[k] && b.tile_coords == k),
    {
        match &self.inner {
            None => Err(RoadNetworkError::NotReady),
            Some(network) => Ok(network.get_random_node()),
        }
    }

    /// The network, once the resource holds one.
    pub fn road_navigation(&self) -> (r: Option<&RoadNavigation>)
        ensures
            match r {
                Some(n) => self@ == Some(n@),
                None => self@ is None,
            },
    {
        match &self.inner {
            Some(n) => Some(n),
            None => None,
        }
    }
}

} // verus!
