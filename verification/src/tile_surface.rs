//! The geometry of a single tile surface before it becomes a mesh.
//!
//! All coordinates here are whole world units: tile positions, tile sizes and tile heights
//! are integers, so the corners of a tile are held exactly.

use vstd::prelude::*;

use crate::terrain_rotation::{corner_slot, TerrainRotation};
use crate::terrain_slope::TerrainSlope;

verus! {

/// The type of terrain surface.
#[derive(Copy, Clone, Hash, PartialEq, Eq, Debug, Structural)]
pub enum TileSurfaceType {
    Ground,
    Water,
}

impl TileSurfaceType {
    /// The name of the surface, as it is shown and used to look up its material.
    pub fn as_str(&self) -> (r: &'static str)
        ensures
            r@ == (match *self {
                TileSurfaceType::Ground => "Ground"@,
                TileSurfaceType::Water => "Water"@,
            }),
    {
        match self {
            TileSurfaceType::Ground => "Ground",
            TileSurfaceType::Water => "Water",
        }
    }
}

/// A corner of a tile surface in world units.
#[derive(Copy, Clone, PartialEq, Eq, Debug, Structural)]
pub struct Corner {
    pub x: i64,
    pub y: i64,
    pub z: i64,
}

impl Corner {
    /// A corner at the given world position.
    pub fn new(x: i64, y: i64, z: i64) -> (r: Self)
        ensures
            r == (Corner { x, y, z }),
    {
        Corner { x, y, z }
    }

    /// The world origin.
    pub fn zero() -> (r: Self)
        ensures
            r == (Corner { x: 0, y: 0, z: 0 }),
    {
        Corner { x: 0, y: 0, z: 0 }
    }
}

/// How many times the tile height is added to each compass corner of a tile with the
/// given slope, in the order north-west, north-east, south-east, south-west.
#[verifier::opaque]
pub open spec fn raise_pattern(s: TerrainSlope) -> (u8, u8, u8, u8) {
    match s {
        TerrainSlope::Flat => (0, 0, 0, 0),
        TerrainSlope::North => (1, 1, 0, 0),
        TerrainSlope::East => (0, 1, 1, 0),
        TerrainSlope::South => (0, 0, 1, 1),
        TerrainSlope::West => (1, 0, 0, 1),
        TerrainSlope::NorthSouthEast => (1, 1, 1, 0),
        TerrainSlope::SouthNorthEast => (0, 1, 1, 1),
        TerrainSlope::SouthNorthWest => (1, 0, 1, 1),
        TerrainSlope::NorthSouthWest => (1, 1, 0, 1),
        TerrainSlope::NorthEast => (0, 1, 0, 0),
        TerrainSlope::SouthEast => (0, 0, 1, 0),
        TerrainSlope::SouthWest => (0, 0, 0, 1),
        TerrainSlope::NorthWest => (1, 0, 0, 0),
        TerrainSlope::All => (1, 1, 1, 1),
        TerrainSlope::VertialCliff => (1, 1, 1, 1),
        TerrainSlope::Undetermined => (0, 0, 0, 0),
        TerrainSlope::NorthWestEast2SouthEast => (1, 2, 1, 0),
        TerrainSlope::NorthEastWest2SouthWest => (2, 1, 0, 1),
        TerrainSlope::SouthWestEast2NorthEast => (0, 1, 2, 1),
        TerrainSlope::SouthEastWest2NorthWest => (1, 0, 1, 2),
        TerrainSlope::South2NorthEast => (0, 1, 2, 2),
        TerrainSlope::East2NorthWest => (1, 2, 2, 0),
        TerrainSlope::North2SouthWest => (2, 2, 0, 1),
        TerrainSlope::West2SouthEast => (2, 0, 1, 2),
        TerrainSlope::South2NorthWest => (1, 0, 2, 2),
        TerrainSlope::East2SouthWest => (0, 2, 2, 1),
        TerrainSlope::North2SouthEast => (2, 2, 1, 0),
        TerrainSlope::West2NorthEast => (2, 1, 0, 2),
        TerrainSlope::WestSouthEast2 => (1, 0, 2, 1),
        TerrainSlope::SouthNorthEast2 => (0, 2, 1, 1),
        TerrainSlope::EastNorthWest2 => (2, 1, 1, 0),
        TerrainSlope::NorthSouthWest2 => (1, 1, 0, 2),
        TerrainSlope::NorthWest2East => (2, 1, 0, 0),
        TerrainSlope::SouthWest2NorthWest => (1, 0, 0, 2),
        TerrainSlope::SouthEast2West => (0, 0, 2, 1),
        TerrainSlope::NorthEast2SouthEast => (0, 2, 1, 0),
        TerrainSlope::WestNorthEast2 => (1, 2, 0, 1),
        TerrainSlope::SouthNorthWest2 => (2, 0, 1, 1),
        TerrainSlope::EastSouthWest2 => (0, 1, 1, 2),
        TerrainSlope::NorthSouthEast2 => (1, 1, 2, 0),
    }
}

/// How many times the tile height is added to compass corner `c`
/// (0 north-west, 1 north-east, 2 south-east, 3 south-west).
pub open spec fn corner_raise(s: TerrainSlope, c: int) -> int {
    let p = raise_pattern(s);
    if c == 0 {
        p.0 as int
    } else if c == 1 {
        p.1 as int
    } else if c == 2 {
        p.2 as int
    } else {
        p.3 as int
    }
}

/// How many times the tile height is added to corner slot `k` under a rotation.
pub open spec fn slot_raise(s: TerrainSlope, rotation: u8, k: int) -> int {
    (if corner_slot(rotation, 0) == k { corner_raise(s, 0) } else { 0 })
        + (if corner_slot(rotation, 1) == k { corner_raise(s, 1) } else { 0 })
        + (if corner_slot(rotation, 2) == k { corner_raise(s, 2) } else { 0 })
        + (if corner_slot(rotation, 3) == k { corner_raise(s, 3) } else { 0 })
}

/// Whether applying the slope under the rotation can look up every corner it raises.
pub open spec fn corners_reachable(s: TerrainSlope, rotation: u8) -> bool {
    forall|c: int| 0 <= c < 4 && corner_raise(s, c) > 0 ==> rotation + c <= 255
}

fn raise_of(s: TerrainSlope) -> (r: (u8, u8, u8, u8))
    ensures
        r == raise_pattern(s),
{
    reveal(raise_pattern);
    match s {
        TerrainSlope::Flat => (0, 0, 0, 0),
        TerrainSlope::North => (1, 1, 0, 0),
        TerrainSlope::East => (0, 1, 1, 0),
        TerrainSlope::South => (0, 0, 1, 1),
        TerrainSlope::West => (1, 0, 0, 1),
        TerrainSlope::NorthSouthEast => (1, 1, 1, 0),
        TerrainSlope::SouthNorthEast => (0, 1, 1, 1),
        TerrainSlope::SouthNorthWest => (1, 0, 1, 1),
        TerrainSlope::NorthSouthWest => (1, 1, 0, 1),
        TerrainSlope::NorthEast => (0, 1, 0, 0),
        TerrainSlope::SouthEast => (0, 0, 1, 0),
        TerrainSlope::SouthWest => (0, 0, 0, 1),
        TerrainSlope::NorthWest => (1, 0, 0, 0),
        TerrainSlope::All => (1, 1, 1, 1),
        TerrainSlope::VertialCliff => (1, 1, 1, 1),
        TerrainSlope::Undetermined => (0, 0, 0, 0),
        TerrainSlope::NorthWestEast2SouthEast => (1, 2, 1, 0),
        TerrainSlope::NorthEastWest2SouthWest => (2, 1, 0, 1),
        TerrainSlope::SouthWestEast2NorthEast => (0, 1, 2, 1),
        TerrainSlope::SouthEastWest2NorthWest => (1, 0, 1, 2),
        TerrainSlope::South2NorthEast => (0, 1, 2, 2),
        TerrainSlope::East2NorthWest => (1, 2, 2, 0),
        TerrainSlope::North2SouthWest => (2, 2, 0, 1),
        TerrainSlope::West2SouthEast => (2, 0, 1, 2),
        TerrainSlope::South2NorthWest => (1, 0, 2, 2),
        TerrainSlope::East2SouthWest => (0, 2, 2, 1),
        TerrainSlope::North2SouthEast => (2, 2, 1, 0),
        TerrainSlope::West2NorthEast => (2, 1, 0, 2),
        TerrainSlope::WestSouthEast2 => (1, 0, 2, 1),
        TerrainSlope::SouthNorthEast2 => (0, 2, 1, 1),
        TerrainSlope::EastNorthWest2 => (2, 1, 1, 0),
        TerrainSlope::NorthSouthWest2 => (1, 1, 0, 2),
        TerrainSlope::NorthWest2East => (2, 1, 0, 0),
        TerrainSlope::SouthWest2NorthWest => (1, 0, 0, 2),
        TerrainSlope::SouthEast2West => (0, 0, 2, 1),
        TerrainSlope::NorthEast2SouthEast => (0, 2, 1, 0),
        TerrainSlope::WestNorthEast2 => (1, 2, 0, 1),
        TerrainSlope::SouthNorthWest2 => (2, 0, 1, 1),
        TerrainSlope::EastSouthWest2 => (0, 1, 1, 2),
        TerrainSlope::NorthSouthEast2 => (1, 1, 2, 0),
    }
}

/// Whether applying a slope under a rotation can look up every corner it raises.
pub fn can_reach_corners(slope: TerrainSlope, rotation: &TerrainRotation) -> (r: bool)
    ensures
        r == corners_reachable(slope, rotation@),
{
    let (a, b, c, d) = raise_of(slope);
    let offset = rotation.offset() as u32;
    let r = (a == 0 || offset <= 255) && (b == 0 || offset + 1 <= 255) && (c == 0 || offset + 2
        <= 255) && (d == 0 || offset + 3 <= 255);
    proof {
        assert(corner_raise(slope, 0) == a as int && corner_raise(slope, 1) == b as int
            && corner_raise(slope, 2) == c as int && corner_raise(slope, 3) == d as int);
        if r {
            assert forall|k: int| 0 <= k < 4 && corner_raise(slope, k) > 0 implies rotation@ + k <= 255 by {
                if k == 0 {
                } else if k == 1 {
                } else if k == 2 {
                } else {
                }
            }
        } else {
            if !(a == 0 || offset <= 255) {
                assert(corner_raise(slope, 0) > 0);
            } else if !(b == 0 || offset + 1 <= 255) {
                assert(corner_raise(slope, 1) > 0);
            } else if !(c == 0 || offset + 2 <= 255) {
                assert(corner_raise(slope, 2) > 0);
            } else {
                assert(corner_raise(slope, 3) > 0);
            }
        }
    }
    r
}

/// What a tile surface holds: its kind, its four corners in slot order, its resolution,
/// and whether it is fixed (built on) or marked invalid.
pub struct SurfaceModel {
    pub kind: TileSurfaceType,
    pub corners: Seq<Corner>,
    pub resolution: u8,
    pub fixed: bool,
    pub invalid: bool,
}

/// The corners after raising slot `k` by `slot_raise(slope, rotation, k)` tile heights.
pub open spec fn raised_corners(cs: Seq<Corner>, slope: TerrainSlope, rotation: u8, height: u8) -> Seq<
    Corner,
> {
    Seq::new(
        4,
        |k: int|
            Corner { y: (cs[k].y + slot_raise(slope, rotation, k) * height) as i64, ..cs[k] },
    )
}

/// Intermediate meta data of a tile surface, from which the geometry of one tile is made.
#[derive(Clone, Copy, Debug)]
pub struct TileSurface {
    kind: TileSurfaceType,
    pub corners: [Corner; 4],
    resolution: u8,
    fixed: bool,
    invalid: bool,
}

impl View for TileSurface {
    type V = SurfaceModel;

    closed spec fn view(&self) -> SurfaceModel {
        SurfaceModel {
            kind: self.kind,
            corners: self.corners@,
            resolution: self.resolution,
            fixed: self.fixed,
            invalid: self.invalid,
        }
    }
}

impl TileSurface {
    /// The corners, in slot order.
    pub closed spec fn corner_array(&self) -> [Corner; 4] {
        self.corners
    }

    /// A flat surface of the given kind at the origin, with a resolution of two.
    pub fn new(kind: TileSurfaceType) -> (r: Self)
        ensures
            r@ == (SurfaceModel {
                kind,
                corners: seq![Corner { x: 0, y: 0, z: 0 }; 4],
                resolution: 2,
                fixed: false,
                invalid: false,
            }),
    {
        let r = TileSurface {
            kind,
            corners: [Corner::zero(), Corner::zero(), Corner::zero(), Corner::zero()],
            resolution: 2,
            fixed: false,
            invalid: false,
        };
        assert(r.corners@ =~= seq![Corner { x: 0, y: 0, z: 0 }; 4]);
        r
    }

    /// The number of subdivisions along each side of the tile.
    pub fn resolution(&self) -> (r: u8)
        ensures
            r == self@.resolution,
    {
        self.resolution
    }

    /// The corners, in slot order.
    pub fn corners(&self) -> (r: [Corner; 4])
        ensures
            r@ == self@.corners,
    {
        self.corners
    }

    /// The kind of the surface.
    pub fn kind(&self) -> (r: TileSurfaceType)
        ensures
            r == self@.kind,
    {
        self.kind
    }

    /// Whether the surface belongs to a tile with a building on it.
    pub fn is_fixed(&self) -> (r: bool)
        ensures
            r == self@.fixed,
    {
        self.fixed
    }

    /// Whether the surface belongs to a tile whose slope does not fit its neighbors.
    pub fn is_invalid_tile(&self) -> (r: bool)
        ensures
            r == self@.invalid,
    {
        self.invalid
    }

    pub fn set_resolution(&mut self, value: u8)
        ensures
            final(self)@ == (SurfaceModel { resolution: value, ..old(self)@ }),
    {
        self.resolution = value;
    }

    pub fn set_corners(&mut self, value: [Corner; 4])
        ensures
            final(self)@ == (SurfaceModel { corners: value@, ..old(self)@ }),
    {
        self.corners = value;
    }

    pub fn set_kind(&mut self, value: TileSurfaceType)
        ensures
            final(self)@ == (SurfaceModel { kind: value, ..old(self)@ }),
    {
        self.kind = value;
    }

    pub fn set_fixed(&mut self, fixed: bool)
        ensures
            final(self)@ == (SurfaceModel { fixed, ..old(self)@ }),
    {
        self.fixed = fixed;
    }

    pub fn set_invalid(&mut self, is_invalid: bool)
        ensures
            final(self)@ == (SurfaceModel { invalid: is_invalid, ..old(self)@ }),
    {
        self.invalid = is_invalid;
    }

    /// Moves corner slot `k` up (or down, for a negative amount).
    pub fn shift_corner(&mut self, k: usize, amount: i64)
        requires
            k < 4,
            i64::MIN <= old(self)@.corners[k as int].y + amount <= i64::MAX,
        ensures
            final(self)@ == (SurfaceModel {
                corners: old(self)@.corners.update(
                    k as int,
                    Corner { y: (old(self)@.corners[k as int].y + amount) as i64, ..old(self)@.corners[k as int] },
                ),
                ..old(self)@
            }),
    {
        let mut c = self.corners[k];
        c.y = c.y + amount;
        self.corners[k] = c;
        assert(self.corners@ =~= old(self)@.corners.update(k as int, c));
    }

    /// Sets the height of corner slot `k`.
    pub fn set_corner_height(&mut self, k: usize, y: i64)
        requires
            k < 4,
        ensures
            final(self)@ == (SurfaceModel {
                corners: old(self)@.corners.update(k as int, Corner { y, ..old(self)@.corners[k as int] }),
                ..old(self)@
            }),
    {
        let mut c = self.corners[k];
        c.y = y;
        self.corners[k] = c;
        assert(self.corners@ =~= old(self)@.corners.update(k as int, c));
    }

    fn raise_slot(&mut self, k: usize, amount: i64)
        requires
            k < 4,
            i64::MIN <= old(self).corners[k as int].y + amount <= i64::MAX,
        ensures
            final(self).corners[k as int].y == old(self).corners[k as int].y + amount,
            final(self).corners[k as int].x == old(self).corners[k as int].x,
            final(self).corners[k as int].z == old(self).corners[k as int].z,
            forall|j: int| 0 <= j < 4 && j != k ==> final(self).corners[j] == old(self).corners[j],
            final(self).kind == old(self).kind,
            final(self).resolution == old(self).resolution,
            final(self).fixed == old(self).fixed,
            final(self).invalid == old(self).invalid,
    {
        let mut c = self.corners[k];
        c.y = c.y + amount;
        self.corners[k] = c;
    }

    /// Raises compass corner `c` by `n` tile heights.
    fn raise_compass(&mut self, rotation: &TerrainRotation, c: u8, n: u8, height: u8)
        requires
            c < 4,
            n <= 2,
            n > 0 ==> rotation@ + c <= 255,
            n > 0 ==> old(self).corners[corner_slot(rotation@, c as int) as int].y + 2 * height
                <= i64::MAX,
        ensures
            forall|j: int|
                0 <= j < 4 ==> (#[trigger] final(self).corners[j]).y == old(self).corners[j].y + (if corner_slot(
                    rotation@,
                    c as int,
                ) == j {
                    n * height
                } else {
                    0
                }),
            forall|j: int|
                0 <= j < 4 ==> (#[trigger] final(self).corners[j]).x == old(self).corners[j].x
                    && final(self).corners[j].z == old(self).corners[j].z,
            final(self).kind == old(self).kind,
            final(self).resolution == old(self).resolution,
            final(self).fixed == old(self).fixed,
            final(self).invalid == old(self).invalid,
    {
        proof {
            lemma_small_multiple(n, height);
        }
        if n == 0 {
            return;
        }
        let k = if c == 0 {
            rotation.nw()
        } else if c == 1 {
            rotation.ne()
        } else if c == 2 {
            rotation.se()
        } else {
            rotation.sw()
        };
        let h = height as i64;
        self.raise_slot(k, if n == 2 { h + h } else { h });
    }

    /// Raises the corners of the surface by the slope of the tile: each raised corner goes
    /// up by the tile height, or by twice the tile height where the slope rises twice.
    pub fn apply_slope(&mut self, slope: TerrainSlope, rotation: &TerrainRotation, height: u8)
        requires
            corners_reachable(slope, rotation@),
            forall|k: int| 0 <= k < 4 ==> (#[trigger] old(self)@.corners[k]).y + 2 * height <= i64::MAX,
        ensures
            final(self)@.corners.len() == 4,
            forall|k: int|
                0 <= k < 4 ==> #[trigger] final(self)@.corners[k].y == old(self)@.corners[k].y
                    + slot_raise(slope, rotation@, k) * height,
            forall|k: int| 0 <= k < 4 ==> #[trigger] final(self)@.corners[k].x == old(self)@.corners[k].x,
            forall|k: int| 0 <= k < 4 ==> #[trigger] final(self)@.corners[k].z == old(self)@.corners[k].z,
            final(self)@.kind == old(self)@.kind,
            final(self)@.resolution == old(self)@.resolution,
            final(self)@.fixed == old(self)@.fixed,
            final(self)@.invalid == old(self)@.invalid,
    {
        proof {
            lemma_slots_distinct(rotation@);
            lemma_raise_bounded(slope);
        }
        let ghost start = self.corners;
        let ghost r = rotation@;
        let (a, b, c, d) = raise_of(slope);
        assert(corner_raise(slope, 0) == a as int && corner_raise(slope, 1) == b as int
            && corner_raise(slope, 2) == c as int && corner_raise(slope, 3) == d as int);
        assert(a > 0 ==> corner_raise(slope, 0) > 0);
        assert(b > 0 ==> corner_raise(slope, 1) > 0);
        assert(c > 0 ==> corner_raise(slope, 2) > 0);
        assert(d > 0 ==> corner_raise(slope, 3) > 0);
        assert(forall|j: int| 0 <= j < 4 ==> start[j] == (#[trigger] old(self).corner_array()[j]));
        assert(forall|j: int| 0 <= j < 4 ==> (#[trigger] old(self).corner_array()[j]) == old(self)@.corners[j]);
        let ghost s0 = corner_slot(r, 0);
        let ghost s1 = corner_slot(r, 1);
        let ghost s2 = corner_slot(r, 2);
        let ghost s3 = corner_slot(r, 3);
        assert(start[s0 as int] == old(self).corner_array()[s0 as int]);
        self.raise_compass(rotation, 0, a, height);
        let ghost after_a = self.corners;
        assert(after_a[s1 as int] == start[s1 as int]);
        assert(start[s1 as int] == old(self).corner_array()[s1 as int]);
        self.raise_compass(rotation, 1, b, height);
        let ghost after_b = self.corners;
        assert(after_b[s2 as int] == start[s2 as int]);
        assert(start[s2 as int] == old(self).corner_array()[s2 as int]);
        self.raise_compass(rotation, 2, c, height);
        let ghost after_c = self.corners;
        assert(after_c[s3 as int] == start[s3 as int]);
        assert(start[s3 as int] == old(self).corner_array()[s3 as int]);
        self.raise_compass(rotation, 3, d, height);
        assert forall|k: int| 0 <= k < 4 implies #[trigger] self.corners[k].y == start[k].y
            + slot_raise(slope, r, k) * height by {
            let t0 = if s0 == k { a as int } else { 0 };
            let t1 = if s1 == k { b as int } else { 0 };
            let t2 = if s2 == k { c as int } else { 0 };
            let t3 = if s3 == k { d as int } else { 0 };
            assert(after_a[k].y == start[k].y + t0 * height);
            assert(after_b[k].y == after_a[k].y + t1 * height);
            assert(after_c[k].y == after_b[k].y + t2 * height);
            assert(self.corners[k].y == after_c[k].y + t3 * height);
            assert(slot_raise(slope, r, k) == t0 + t1 + t2 + t3);
            assert((t0 + t1 + t2 + t3) * height == t0 * height + t1 * height + t2 * height + t3
                * height) by (nonlinear_arith);
        }
    }
}

proof fn lemma_small_multiple(n: u8, h: u8)
    requires
        n <= 2,
    ensures
        n * h == (if n == 0 { 0 } else if n == 1 { h as int } else { h + h }),
{
    assert(n * h == (if n == 0 { 0 } else if n == 1 { h as int } else { h + h })) by (nonlinear_arith)
        requires
            n <= 2,
    ;
}

/// No corner of any slope is raised more than twice.
pub proof fn lemma_raise_bounded(s: TerrainSlope)
    ensures
        forall|c: int| 0 <= c < 4 ==> 0 <= #[trigger] corner_raise(s, c) <= 2,
{
    reveal(raise_pattern);
}

/// A tile surface always has four corners.
pub broadcast proof fn lemma_four_corners(s: TileSurface)
    ensures
        (#[trigger] s@).corners.len() == 4,
{
}

/// The compass corner that lands in slot `k` under a rotation.
pub open spec fn slot_owner(rotation: u8, k: int) -> int {
    let t: int = if k == 0 {
        0
    } else if k == 1 {
        1
    } else if k == 2 {
        3
    } else {
        2
    };
    (t - rotation % 4 + 4) % 4
}

/// The four compass corners fill all four slots, whatever the rotation.
pub proof fn lemma_slots_cover(rotation: u8)
    ensures
        forall|k: int|
            0 <= k < 4 ==> 0 <= #[trigger] slot_owner(rotation, k) < 4 && corner_slot(
                rotation,
                slot_owner(rotation, k),
            ) == k,
{
    let r = rotation % 4;
    assert(r == 0 || r == 1 || r == 2 || r == 3);
}

/// The four compass corners land in four different slots, whatever the rotation.
pub proof fn lemma_slots_distinct(rotation: u8)
    ensures
        forall|i: int, j: int|
            0 <= i < 4 && 0 <= j < 4 && i != j ==> #[trigger] corner_slot(rotation, i)
                != #[trigger] corner_slot(rotation, j),
        forall|i: int| 0 <= i < 4 ==> #[trigger] corner_slot(rotation, i) < 4,
{
}

/// A slope normalized under a rotation raises, under that rotation, the same corner slots
/// by the same amounts as the slope itself raises under no rotation.
pub proof fn lemma_normalized_slope_keeps_corners(rotation: u8, s: TerrainSlope, k: int)
    requires
        0 <= k < 4,
    ensures
        slot_raise(crate::terrain_rotation::normalized(rotation, s), rotation, k) == slot_raise(s, 0, k),
{
    reveal(raise_pattern);
    reveal_with_fuel(crate::terrain_rotation::rotate_times, 4);
    let r = rotation % 4;
    assert(r == 0 || r == 1 || r == 2 || r == 3);
}

/// Applying a slope under a rotation raises each corner slot by as much as applying, under
/// no rotation, the slope turned back by the reverted rotation: rotating the corners is
/// rotating the slope back by as many quarter turns.
pub proof fn lemma_rotated_slope_is_reverted_slope(rotation: u8, s: TerrainSlope, k: int)
    requires
        0 <= k < 4,
    ensures
        slot_raise(s, rotation, k) == slot_raise(
            crate::terrain_rotation::normalized(crate::terrain_rotation::reverted_offset(rotation), s),
            0,
            k,
        ),
        corners_reachable(
            crate::terrain_rotation::normalized(crate::terrain_rotation::reverted_offset(rotation), s),
            0,
        ),
{
    let back = crate::terrain_rotation::normalized(crate::terrain_rotation::reverted_offset(rotation), s);
    let a = (crate::terrain_rotation::reverted_offset(rotation) % 4) as nat;
    let b = (rotation % 4) as nat;
    crate::terrain_rotation::lemma_turns_add(s, a, b);
    crate::terrain_rotation::lemma_turns_mod_four(s, a + b);
    assert((a + b) % 4 == 0);
    assert(crate::terrain_rotation::normalized(rotation, back) == s);
    lemma_normalized_slope_keeps_corners(rotation, back, k);
}

/// Applying a slope raises the slot that holds compass corner `c` by exactly as many tile
/// heights as the slope raises that corner.
pub proof fn lemma_corner_raised_in_its_slot(s: TerrainSlope, rotation: u8, c: int)
    requires
        0 <= c < 4,
    ensures
        slot_raise(s, rotation, corner_slot(rotation, c) as int) == corner_raise(s, c),
{
    lemma_slots_distinct(rotation);
}

} // verus!
