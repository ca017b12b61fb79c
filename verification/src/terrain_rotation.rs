//! Rotation of the terrain by quarter turns, and what it does to slopes and corners.

use vstd::prelude::*;

use crate::terrain_slope::TerrainSlope;

verus! {

/// One counter-clockwise quarter turn applied to a slope.
pub open spec fn rotate_once(s: TerrainSlope) -> TerrainSlope {
    match s {
        TerrainSlope::Flat => TerrainSlope::Flat,
        TerrainSlope::All => TerrainSlope::All,
        TerrainSlope::North => TerrainSlope::West,
        TerrainSlope::South => TerrainSlope::East,
        TerrainSlope::West => TerrainSlope::South,
        TerrainSlope::East => TerrainSlope::North,
        TerrainSlope::NorthWest => TerrainSlope::SouthWest,
        TerrainSlope::NorthEast => TerrainSlope::NorthWest,
        TerrainSlope::SouthWest => TerrainSlope::SouthEast,
        TerrainSlope::SouthEast => TerrainSlope::NorthEast,
        TerrainSlope::NorthSouthWest => TerrainSlope::SouthNorthWest,
        TerrainSlope::NorthSouthEast => TerrainSlope::NorthSouthWest,
        TerrainSlope::SouthNorthWest => TerrainSlope::SouthNorthEast,
        TerrainSlope::SouthNorthEast => TerrainSlope::NorthSouthEast,
        TerrainSlope::VertialCliff => TerrainSlope::VertialCliff,
        TerrainSlope::NorthWestEast2SouthEast => TerrainSlope::NorthEastWest2SouthWest,
        TerrainSlope::NorthEastWest2SouthWest => TerrainSlope::SouthEastWest2NorthWest,
        TerrainSlope::SouthEastWest2NorthWest => TerrainSlope::SouthWestEast2NorthEast,
        TerrainSlope::SouthWestEast2NorthEast => TerrainSlope::NorthWestEast2SouthEast,
        TerrainSlope::South2NorthEast => TerrainSlope::East2NorthWest,
        TerrainSlope::East2NorthWest => TerrainSlope::North2SouthWest,
        TerrainSlope::North2SouthWest => TerrainSlope::West2SouthEast,
        TerrainSlope::West2SouthEast => TerrainSlope::South2NorthEast,
        TerrainSlope::South2NorthWest => TerrainSlope::East2SouthWest,
        TerrainSlope::East2SouthWest => TerrainSlope::North2SouthEast,
        TerrainSlope::North2SouthEast => TerrainSlope::West2NorthEast,
        TerrainSlope::West2NorthEast => TerrainSlope::South2NorthWest,
        TerrainSlope::SouthNorthEast2 => TerrainSlope::EastNorthWest2,
        TerrainSlope::EastNorthWest2 => TerrainSlope::NorthSouthWest2,
        TerrainSlope::NorthSouthWest2 => TerrainSlope::WestSouthEast2,
        TerrainSlope::WestSouthEast2 => TerrainSlope::SouthNorthEast2,
        TerrainSlope::NorthWest2East => TerrainSlope::SouthWest2NorthWest,
        TerrainSlope::SouthWest2NorthWest => TerrainSlope::SouthEast2West,
        TerrainSlope::SouthEast2West => TerrainSlope::NorthEast2SouthEast,
        TerrainSlope::NorthEast2SouthEast => TerrainSlope::NorthWest2East,
        TerrainSlope::WestNorthEast2 => TerrainSlope::SouthNorthWest2,
        TerrainSlope::SouthNorthWest2 => TerrainSlope::EastSouthWest2,
        TerrainSlope::EastSouthWest2 => TerrainSlope::NorthSouthEast2,
        TerrainSlope::NorthSouthEast2 => TerrainSlope::WestNorthEast2,
        TerrainSlope::Undetermined => TerrainSlope::Undetermined,
    }
}

/// `n` counter-clockwise quarter turns applied to a slope.
pub open spec fn rotate_times(s: TerrainSlope, n: nat) -> TerrainSlope
    decreases n,
{
    if n == 0 {
        s
    } else {
        rotate_once(rotate_times(s, (n - 1) as nat))
    }
}

/// Which of the four corner slots a compass corner lands in after `offset` quarter turns.
/// Compass corners are numbered north-west 0, north-east 1, south-east 2, south-west 3;
/// the slots hold north-west 0, north-east 1, south-west 2, south-east 3.
pub open spec fn corner_slot(offset: u8, index: int) -> u8 {
    let shifted = (index + offset) % 4;
    if shifted == 0 {
        0
    } else if shifted == 1 {
        1
    } else if shifted == 2 {
        3
    } else {
        2
    }
}

/// The rotation of the terrain: the number of counter-clockwise quarter turns.
#[derive(Clone, Copy, Debug)]
pub struct TerrainRotation {
    offset: u8,
}

impl View for TerrainRotation {
    type V = u8;

    closed spec fn view(&self) -> u8 {
        self.offset
    }
}

/// The offset of the rotation that turns an offset back: four less the offset, wrapped
/// into the range of a `u8`.
pub open spec fn reverted_offset(offset: u8) -> u8 {
    if offset <= 4 {
        (4 - offset) as u8
    } else {
        (260 - offset) as u8
    }
}

/// A slope as it appears under a rotation.
pub open spec fn normalized(rotation: u8, s: TerrainSlope) -> TerrainSlope {
    rotate_times(s, (rotation % 4) as nat)
}

impl TerrainRotation {
    /// The unrotated terrain.
    pub fn new() -> (r: Self)
        ensures
            r@ == 0,
    {
        TerrainRotation { offset: 0 }
    }

    /// A rotation by a given number of quarter turns.
    pub fn from_offset(offset: u8) -> (r: Self)
        ensures
            r@ == offset,
    {
        TerrainRotation { offset }
    }

    /// The number of quarter turns.
    pub fn offset(&self) -> (r: u8)
        ensures
            r == self@,
    {
        self.offset
    }

    /// Sets the number of quarter turns; a value outside `0..=255` becomes 255.
    pub fn set_rotation(&mut self, rotation: i64)
        ensures
            final(self)@ == (if 0 <= rotation <= 255 { rotation as u8 } else { 255u8 }),
    {
        if 0 <= rotation && rotation <= 255 {
            self.offset = rotation as u8;
        } else {
            self.offset = 255;
        }
    }

    fn get_corner(&self, index: u8) -> (r: u8)
        requires
            index + self@ <= 255,
        ensures
            r == corner_slot(self@, index as int),
    {
        let shifted_index = (index + self.offset) % 4;
        let corners: [u8; 4] = [0, 1, 3, 2];
        corners[shifted_index as usize]
    }

    /// Corner slot of the north-west corner.
    pub fn nw(&self) -> (r: usize)
        ensures
            r == corner_slot(self@, 0),
    {
        self.get_corner(0) as usize
    }

    /// Corner slot of the north-east corner.
    pub fn ne(&self) -> (r: usize)
        requires
            self@ <= 254,
        ensures
            r == corner_slot(self@, 1),
    {
        self.get_corner(1) as usize
    }

    /// Corner slot of the south-east corner.
    pub fn se(&self) -> (r: usize)
        requires
            self@ <= 253,
        ensures
            r == corner_slot(self@, 2),
    {
        self.get_corner(2) as usize
    }

    /// Corner slot of the south-west corner.
    pub fn sw(&self) -> (r: usize)
        requires
            self@ <= 252,
        ensures
            r == corner_slot(self@, 3),
    {
        self.get_corner(3) as usize
    }

    /// Applies the rotation to a slope: one counter-clockwise quarter turn per step.
    pub fn normalize_slope(&self, slope: TerrainSlope) -> (r: TerrainSlope)
        ensures
            r == normalized(self@, slope),
    {
        let offset = self.offset % 4;
        let mut rotated_slope = slope;
        let mut i: u8 = 0;
        while i < offset
            invariant
                i <= offset,
                offset == self@ % 4,
                rotated_slope == rotate_times(slope, i as nat),
            decreases offset - i,
        {
            rotated_slope = rotate_one_step(rotated_slope);
            i = i + 1;
        }
        rotated_slope
    }

    /// The rotation that turns the terrain back: four quarter turns less the offset,
    /// wrapping around as a `u8` does.
    pub fn to_reverted(self) -> (r: Self)
        ensures
            r@ == reverted_offset(self@),
    {
        TerrainRotation { offset: 4u8.wrapping_sub(self.offset) }
    }
}

fn rotate_one_step(s: TerrainSlope) -> (r: TerrainSlope)
    ensures
        r == rotate_once(s),
{
    match s {
        TerrainSlope::Flat => TerrainSlope::Flat,
        TerrainSlope::All => TerrainSlope::All,
        TerrainSlope::North => TerrainSlope::West,
        TerrainSlope::South => TerrainSlope::East,
        TerrainSlope::West => TerrainSlope::South,
        TerrainSlope::East => TerrainSlope::North,
        TerrainSlope::NorthWest => TerrainSlope::SouthWest,
        TerrainSlope::NorthEast => TerrainSlope::NorthWest,
        TerrainSlope::SouthWest => TerrainSlope::SouthEast,
        TerrainSlope::SouthEast => TerrainSlope::NorthEast,
        TerrainSlope::NorthSouthWest => TerrainSlope::SouthNorthWest,
        TerrainSlope::NorthSouthEast => TerrainSlope::NorthSouthWest,
        TerrainSlope::SouthNorthWest => TerrainSlope::SouthNorthEast,
        TerrainSlope::SouthNorthEast => TerrainSlope::NorthSouthEast,
        TerrainSlope::VertialCliff => TerrainSlope::VertialCliff,
        TerrainSlope::NorthWestEast2SouthEast => TerrainSlope::NorthEastWest2SouthWest,
        TerrainSlope::NorthEastWest2SouthWest => TerrainSlope::SouthEastWest2NorthWest,
        TerrainSlope::SouthEastWest2NorthWest => TerrainSlope::SouthWestEast2NorthEast,
        TerrainSlope::SouthWestEast2NorthEast => TerrainSlope::NorthWestEast2SouthEast,
        TerrainSlope::South2NorthEast => TerrainSlope::East2NorthWest,
        TerrainSlope::East2NorthWest => TerrainSlope::North2SouthWest,
        TerrainSlope::North2SouthWest => TerrainSlope::West2SouthEast,
        TerrainSlope::West2SouthEast => TerrainSlope::South2NorthEast,
        TerrainSlope::South2NorthWest => TerrainSlope::East2SouthWest,
        TerrainSlope::East2SouthWest => TerrainSlope::North2SouthEast,
        TerrainSlope::North2SouthEast => TerrainSlope::West2NorthEast,
        TerrainSlope::West2NorthEast => TerrainSlope::South2NorthWest,
        TerrainSlope::SouthNorthEast2 => TerrainSlope::EastNorthWest2,
        TerrainSlope::EastNorthWest2 => TerrainSlope::NorthSouthWest2,
        TerrainSlope::NorthSouthWest2 => TerrainSlope::WestSouthEast2,
        TerrainSlope::WestSouthEast2 => TerrainSlope::SouthNorthEast2,
        TerrainSlope::NorthWest2East => TerrainSlope::SouthWest2NorthWest,
        TerrainSlope::SouthWest2NorthWest => TerrainSlope::SouthEast2West,
        TerrainSlope::SouthEast2West => TerrainSlope::NorthEast2SouthEast,
        TerrainSlope::NorthEast2SouthEast => TerrainSlope::NorthWest2East,
        TerrainSlope::WestNorthEast2 => TerrainSlope::SouthNorthWest2,
        TerrainSlope::SouthNorthWest2 => TerrainSlope::EastSouthWest2,
        TerrainSlope::EastSouthWest2 => TerrainSlope::NorthSouthEast2,
        TerrainSlope::NorthSouthEast2 => TerrainSlope::WestNorthEast2,
        TerrainSlope::Undetermined => TerrainSlope::Undetermined,
    }
}

/// Four quarter turns bring every slope back to itself.
pub proof fn lemma_four_turns_identity(s: TerrainSlope)
    ensures
        rotate_times(s, 4) == s,
{
    reveal_with_fuel(rotate_times, 5);
}

/// Turning `a` times and then `b` times is turning `a + b` times.
pub proof fn lemma_turns_add(s: TerrainSlope, a: nat, b: nat)
    ensures
        rotate_times(rotate_times(s, a), b) == rotate_times(s, a + b),
    decreases b,
{
    if b > 0 {
        lemma_turns_add(s, a, (b - 1) as nat);
    }
}

/// Turning a multiple of four times changes nothing.
pub proof fn lemma_turns_mod_four(s: TerrainSlope, n: nat)
    ensures
        rotate_times(s, n) == rotate_times(s, n % 4),
    decreases n,
{
    if n >= 4 {
        lemma_turns_mod_four(s, (n - 4) as nat);
        lemma_turns_add(s, (n - 4) as nat, 4);
        lemma_four_turns_identity(rotate_times(s, (n - 4) as nat));
        lemma_turns_add(s, 4, (n - 4) as nat);
        lemma_four_turns_identity(s);
        assert((n - 4) as nat % 4 == n % 4);
        lemma_turns_add(rotate_times(s, 4), 0, (n - 4) as nat);
    }
}

/// The reverted rotation undoes the rotation: a slope normalized under a rotation and
/// then under its reverted rotation is the slope it started as.
pub proof fn lemma_reverted_rotation_undoes(rotation: u8, s: TerrainSlope)
    ensures
        normalized(reverted_offset(rotation), normalized(rotation, s)) == s,
{
    let a = (rotation % 4) as nat;
    let b = (reverted_offset(rotation) % 4) as nat;
    lemma_turns_add(s, a, b);
    lemma_turns_mod_four(s, a + b);
    assert((a + b) % 4 == 0);
}

} // verus!
