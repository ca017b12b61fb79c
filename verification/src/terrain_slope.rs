//! The slope of a single terrain tile and the tables that say which slopes
//! may border it on each side.

use vstd::prelude::*;

use crate::city_data::Compass;
use crate::tile_surface::{corner_raise, raise_pattern};

verus! {

/// Describes the raised corners of a tile.
#[derive(Debug, Hash, PartialEq, Eq, Clone, Copy, Structural)]
pub enum TerrainSlope {
    /// A tile that has no slope set yet
    Undetermined,
    /// Plane
    Flat,
    /// North -> South Slope
    South,
    /// South -> North Slope
    North,
    /// East -> West Slope
    West,
    /// West -> East Slope
    East,
    /// North-East + South -> North-West
    NorthWest,
    /// North-West + South -> North-East Slope
    NorthEast,
    /// South-East + North -> South-West
    SouthWest,
    /// South-West + North -> South-East
    SouthEast,
    /// North-West -> South + North-East Slope
    SouthNorthEast,
    /// north-east -> South + North-West Slope
    SouthNorthWest,
    /// South-East -> North + South-West Slope
    NorthSouthWest,
    /// South-West -> North + South-East Slope
    NorthSouthEast,
    /// Raised Plane
    All,
    /// Vertical cliff for a waterfall
    VertialCliff,
    /// Non-standard slopes that patch holes in existing maps.
    ///
    /// South-West -> North-West + North-East * 2 + South-East
    NorthWestEast2SouthEast,
    /// South-East -> North-East + North-West * 2 + South-East
    NorthEastWest2SouthWest,
    /// North-West -> South-West + South-East * 2 + North-East
    SouthWestEast2NorthEast,
    /// North-East -> South-East + South-West * 2 + North-West
    SouthEastWest2NorthWest,
    /// North-West -> South * 2 + North-East Slope
    South2NorthEast,
    /// South-West -> East * 2 + North-West
    East2NorthWest,
    /// South-East -> North * 2 + South-West Slope
    North2SouthWest,
    /// North-East -> West * 2 + South-East
    West2SouthEast,
    /// North-East -> South * 2 + North-West Slope
    South2NorthWest,
    /// North-West -> East * 2 + South-West
    East2SouthWest,
    /// South-West -> North * 2 + South-East Slope
    North2SouthEast,
    /// South-East -> West * 2 + North-East
    West2NorthEast,
    /// North-East -> West + South-East * 2
    WestSouthEast2,
    /// North-West -> South + North-East * 2
    SouthNorthEast2,
    /// South-West -> East + North-West * 2
    EastNorthWest2,
    /// South-East -> North + South-West * 2
    NorthSouthWest2,
    /// South -> North-West * 2 + North-East
    NorthWest2East,
    /// South-East + North-East-> South-West * 2 + North-West
    SouthWest2NorthWest,
    /// North -> South-West + South-East * 2
    SouthEast2West,
    /// North-West + South-West -> North-East * 2 + South-East
    NorthEast2SouthEast,
    /// South-East -> West + North-East * 2
    WestNorthEast2,
    /// North-East -> South + North-West * 2
    SouthNorthWest2,
    /// North-West -> East + South-West * 2
    EastSouthWest2,
    /// South-West -> North + South-East * 2
    NorthSouthEast2,
}

/// The slopes (with their altitude offset) that may lie to the north of a tile with slope `s`.
pub open spec fn north_neighbor_table(s: TerrainSlope) -> Seq<(TerrainSlope, i8)> {
    match s {
        TerrainSlope::Undetermined => seq![
            (TerrainSlope::Flat, 0i8),
            (TerrainSlope::North, 0i8),
            (TerrainSlope::South, 0i8),
            (TerrainSlope::West, 0i8),
            (TerrainSlope::East, 0i8),
            (TerrainSlope::NorthWest, 0i8),
            (TerrainSlope::NorthEast, 0i8),
            (TerrainSlope::NorthSouthWest, 0i8),
            (TerrainSlope::NorthSouthEast, 0i8),
            (TerrainSlope::SouthWest, 0i8),
            (TerrainSlope::SouthEast, 0i8),
            (TerrainSlope::SouthNorthEast, 0i8),
            (TerrainSlope::SouthNorthWest, 0i8),
            (TerrainSlope::All, 0i8),
            (TerrainSlope::SouthWest2NorthWest, 0i8),
            (TerrainSlope::Flat, 1i8),
            (TerrainSlope::North, 1i8),
            (TerrainSlope::NorthWest, 1i8),
            (TerrainSlope::NorthEast, 1i8),
            (TerrainSlope::SouthWest, 1i8),
            (TerrainSlope::SouthEast, 1i8),
            (TerrainSlope::All, -1i8),
            (TerrainSlope::South, -1i8),
            (TerrainSlope::SouthNorthWest, -1i8),
            (TerrainSlope::SouthNorthEast, -1i8),
            (TerrainSlope::SouthWestEast2NorthEast, -1i8),
            (TerrainSlope::SouthEastWest2NorthWest, -1i8),
        ],
        TerrainSlope::Flat | TerrainSlope::South | TerrainSlope::SouthWest | TerrainSlope::SouthEast => seq![
            (TerrainSlope::Flat, 0i8),
            (TerrainSlope::North, 0i8),
            (TerrainSlope::NorthWest, 0i8),
            (TerrainSlope::NorthEast, 0i8),
            (TerrainSlope::NorthWest2East, 0i8),
            (TerrainSlope::South, -1i8),
            (TerrainSlope::SouthNorthWest, -1i8),
            (TerrainSlope::SouthNorthEast, -1i8),
            (TerrainSlope::All, -1i8),
        ],
        TerrainSlope::North | TerrainSlope::NorthSouthWest | TerrainSlope::NorthSouthEast | TerrainSlope::All => seq![
            (TerrainSlope::All, 0i8),
            (TerrainSlope::South, 0i8),
            (TerrainSlope::SouthNorthEast, 0i8),
            (TerrainSlope::SouthNorthWest, 0i8),
            (TerrainSlope::Flat, 1i8),
            (TerrainSlope::North, 1i8),
            (TerrainSlope::NorthWest, 1i8),
            (TerrainSlope::NorthEast, 1i8),
            (TerrainSlope::South2NorthEast, -1i8),
        ],
        TerrainSlope::West | TerrainSlope::NorthWest | TerrainSlope::SouthNorthWest | TerrainSlope::SouthEastWest2NorthWest => seq![
            (TerrainSlope::SouthWest, 0i8),
            (TerrainSlope::West, 0i8),
            (TerrainSlope::NorthSouthWest, 0i8),
            (TerrainSlope::NorthEastWest2SouthWest, 0i8),
            (TerrainSlope::WestNorthEast2, 0i8),
            (TerrainSlope::SouthEastWest2NorthWest, -1i8),
            (TerrainSlope::West2SouthEast, -1i8),
        ],
        TerrainSlope::East | TerrainSlope::NorthEast | TerrainSlope::SouthNorthEast | TerrainSlope::SouthWestEast2NorthEast => seq![
            (TerrainSlope::SouthEast, 0i8),
            (TerrainSlope::East, 0i8),
            (TerrainSlope::NorthSouthEast, 0i8),
            (TerrainSlope::NorthWestEast2SouthEast, 0i8),
            (TerrainSlope::SouthWestEast2NorthEast, -1i8),
            (TerrainSlope::WestSouthEast2, -1i8),
        ],
        TerrainSlope::VertialCliff | TerrainSlope::East2NorthWest | TerrainSlope::North2SouthWest | TerrainSlope::South2NorthWest | TerrainSlope::East2SouthWest | TerrainSlope::North2SouthEast | TerrainSlope::West2NorthEast | TerrainSlope::SouthNorthEast2 | TerrainSlope::EastNorthWest2 | TerrainSlope::NorthSouthWest2 | TerrainSlope::NorthWest2East | TerrainSlope::SouthWest2NorthWest | TerrainSlope::SouthEast2West | TerrainSlope::NorthEast2SouthEast | TerrainSlope::WestNorthEast2 | TerrainSlope::SouthNorthWest2 | TerrainSlope::EastSouthWest2 | TerrainSlope::NorthSouthEast2 => seq![],
        TerrainSlope::NorthWestEast2SouthEast => seq![
            (TerrainSlope::SouthEast, 1i8),
            (TerrainSlope::NorthSouthEast, 1i8),
            (TerrainSlope::NorthWestEast2SouthEast, 1i8),
            (TerrainSlope::East, 1i8),
        ],
        TerrainSlope::NorthEastWest2SouthWest => seq![
            (TerrainSlope::SouthWest, 1i8),
            (TerrainSlope::NorthSouthWest, 1i8),
            (TerrainSlope::NorthEastWest2SouthWest, 1i8),
            (TerrainSlope::West, 1i8),
        ],
        TerrainSlope::South2NorthEast => seq![
            (TerrainSlope::SouthEast, 0i8),
        ],
        TerrainSlope::West2SouthEast => seq![
            (TerrainSlope::SouthWest2NorthWest, 0i8),
        ],
        TerrainSlope::WestSouthEast2 => seq![
            (TerrainSlope::SouthWest, 0i8),
        ],
    }
}

/// The slopes (with their altitude offset) that may lie to the north-west of a tile with slope `s`.
pub open spec fn north_west_neighbor_table(s: TerrainSlope) -> Seq<(TerrainSlope, i8)> {
    match s {
        TerrainSlope::Undetermined => seq![
            (TerrainSlope::Flat, 0i8),
            (TerrainSlope::North, 0i8),
            (TerrainSlope::South, 0i8),
            (TerrainSlope::West, 0i8),
            (TerrainSlope::East, 0i8),
            (TerrainSlope::NorthWest, 0i8),
            (TerrainSlope::NorthEast, 0i8),
            (TerrainSlope::NorthSouthWest, 0i8),
            (TerrainSlope::NorthSouthEast, 0i8),
            (TerrainSlope::SouthWest, 0i8),
            (TerrainSlope::SouthEast, 0i8),
            (TerrainSlope::SouthNorthEast, 0i8),
            (TerrainSlope::SouthNorthWest, 0i8),
            (TerrainSlope::All, 0i8),
            (TerrainSlope::SouthEastWest2NorthWest, 0i8),
            (TerrainSlope::NorthWestEast2SouthEast, 0i8),
            (TerrainSlope::Flat, 1i8),
            (TerrainSlope::North, 1i8),
            (TerrainSlope::NorthWest, 1i8),
            (TerrainSlope::NorthEast, 1i8),
            (TerrainSlope::NorthSouthWest, 1i8),
            (TerrainSlope::West, 1i8),
            (TerrainSlope::All, -1i8),
            (TerrainSlope::South, -1i8),
            (TerrainSlope::SouthNorthWest, -1i8),
            (TerrainSlope::SouthNorthEast, -1i8),
            (TerrainSlope::SouthEast, -1i8),
            (TerrainSlope::NorthSouthEast, -1i8),
            (TerrainSlope::East, -1i8),
            (TerrainSlope::SouthEastWest2NorthWest, -1i8),
            (TerrainSlope::SouthWestEast2NorthEast, -1i8),
            (TerrainSlope::SouthWestEast2NorthEast, -2i8),
        ],
        TerrainSlope::Flat | TerrainSlope::South | TerrainSlope::East | TerrainSlope::NorthEast | TerrainSlope::SouthWest | TerrainSlope::SouthEast | TerrainSlope::SouthNorthEast | TerrainSlope::SouthWestEast2NorthEast => seq![
            (TerrainSlope::Flat, 0i8),
            (TerrainSlope::North, 0i8),
            (TerrainSlope::NorthWest, 0i8),
            (TerrainSlope::NorthEast, 0i8),
            (TerrainSlope::NorthWest2East, 0i8),
            (TerrainSlope::NorthSouthWest, 0i8),
            (TerrainSlope::West, 0i8),
            (TerrainSlope::SouthWest, 0i8),
            (TerrainSlope::NorthEastWest2SouthWest, 0i8),
            (TerrainSlope::WestNorthEast2, 0i8),
            (TerrainSlope::SouthWest2NorthWest, 0i8),
            (TerrainSlope::All, -1i8),
            (TerrainSlope::South, -1i8),
            (TerrainSlope::SouthNorthWest, -1i8),
            (TerrainSlope::SouthNorthEast, -1i8),
            (TerrainSlope::SouthEast, -1i8),
            (TerrainSlope::NorthSouthEast, -1i8),
            (TerrainSlope::East, -1i8),
            (TerrainSlope::NorthWestEast2SouthEast, -1i8),
            (TerrainSlope::SouthEastWest2NorthWest, -1i8),
            (TerrainSlope::SouthWestEast2NorthEast, -2i8),
            (TerrainSlope::South2NorthEast, -2i8),
        ],
        TerrainSlope::North | TerrainSlope::West | TerrainSlope::NorthWest | TerrainSlope::SouthNorthWest | TerrainSlope::NorthSouthWest | TerrainSlope::NorthSouthEast | TerrainSlope::All | TerrainSlope::NorthWestEast2SouthEast | TerrainSlope::SouthEastWest2NorthWest => seq![
            (TerrainSlope::All, 0i8),
            (TerrainSlope::East, 0i8),
            (TerrainSlope::South, 0i8),
            (TerrainSlope::SouthEast, 0i8),
            (TerrainSlope::NorthSouthEast, 0i8),
            (TerrainSlope::SouthNorthEast, 0i8),
            (TerrainSlope::SouthNorthWest, 0i8),
            (TerrainSlope::NorthWestEast2SouthEast, 0i8),
            (TerrainSlope::SouthEastWest2NorthWest, 0i8),
            (TerrainSlope::West2SouthEast, 0i8),
            (TerrainSlope::Flat, 1i8),
            (TerrainSlope::North, 1i8),
            (TerrainSlope::NorthWest, 1i8),
            (TerrainSlope::NorthEast, 1i8),
            (TerrainSlope::NorthSouthWest, 1i8),
            (TerrainSlope::SouthWest, 1i8),
            (TerrainSlope::West, 1i8),
            (TerrainSlope::NorthEastWest2SouthWest, 1i8),
            (TerrainSlope::WestSouthEast2, -1i8),
            (TerrainSlope::SouthWestEast2NorthEast, -1i8),
        ],
        TerrainSlope::VertialCliff | TerrainSlope::East2NorthWest | TerrainSlope::North2SouthWest | TerrainSlope::West2SouthEast | TerrainSlope::South2NorthWest | TerrainSlope::East2SouthWest | TerrainSlope::North2SouthEast | TerrainSlope::West2NorthEast | TerrainSlope::SouthNorthEast2 | TerrainSlope::EastNorthWest2 | TerrainSlope::NorthSouthWest2 | TerrainSlope::NorthWest2East | TerrainSlope::SouthEast2West | TerrainSlope::NorthEast2SouthEast | TerrainSlope::WestNorthEast2 | TerrainSlope::SouthNorthWest2 | TerrainSlope::EastSouthWest2 | TerrainSlope::NorthSouthEast2 => seq![],
        TerrainSlope::NorthEastWest2SouthWest => seq![
            (TerrainSlope::All, 1i8),
            (TerrainSlope::Flat, 2i8),
            (TerrainSlope::North, 2i8),
            (TerrainSlope::NorthWest, 2i8),
            (TerrainSlope::NorthEast, 2i8),
            (TerrainSlope::NorthSouthWest, 2i8),
            (TerrainSlope::SouthWest, 2i8),
            (TerrainSlope::West, 2i8),
            (TerrainSlope::NorthEastWest2SouthWest, 2i8),
        ],
        TerrainSlope::South2NorthEast => seq![
            (TerrainSlope::SouthWest, 0i8),
        ],
        TerrainSlope::WestSouthEast2 => seq![
            (TerrainSlope::South, 0i8),
        ],
        TerrainSlope::SouthWest2NorthWest => seq![
            (TerrainSlope::All, 0i8),
        ],
    }
}

/// The slopes (with their altitude offset) that may lie to the north-east of a tile with slope `s`.
pub open spec fn north_east_neighbor_table(s: TerrainSlope) -> Seq<(TerrainSlope, i8)> {
    match s {
        TerrainSlope::Undetermined => seq![
            (TerrainSlope::Flat, 0i8),
            (TerrainSlope::North, 0i8),
            (TerrainSlope::South, 0i8),
            (TerrainSlope::West, 0i8),
            (TerrainSlope::East, 0i8),
            (TerrainSlope::NorthWest, 0i8),
            (TerrainSlope::NorthEast, 0i8),
            (TerrainSlope::NorthSouthWest, 0i8),
            (TerrainSlope::NorthSouthEast, 0i8),
            (TerrainSlope::SouthWest, 0i8),
            (TerrainSlope::SouthEast, 0i8),
            (TerrainSlope::SouthNorthEast, 0i8),
            (TerrainSlope::SouthNorthWest, 0i8),
            (TerrainSlope::NorthEastWest2SouthWest, 0i8),
            (TerrainSlope::All, 0i8),
            (TerrainSlope::SouthWestEast2NorthEast, 0i8),
            (TerrainSlope::Flat, 1i8),
            (TerrainSlope::North, 1i8),
            (TerrainSlope::NorthWest, 1i8),
            (TerrainSlope::NorthEast, 1i8),
            (TerrainSlope::NorthSouthEast, 1i8),
            (TerrainSlope::East, 1i8),
            (TerrainSlope::SouthEast, 1i8),
            (TerrainSlope::All, -1i8),
            (TerrainSlope::South, -1i8),
            (TerrainSlope::SouthNorthWest, -1i8),
            (TerrainSlope::SouthNorthEast, -1i8),
            (TerrainSlope::SouthWest, -1i8),
            (TerrainSlope::NorthSouthWest, -1i8),
            (TerrainSlope::West, -1i8),
            (TerrainSlope::SouthEastWest2NorthWest, -1i8),
            (TerrainSlope::SouthWestEast2NorthEast, -1i8),
            (TerrainSlope::SouthEastWest2NorthWest, -2i8),
            (TerrainSlope::SouthWestEast2NorthEast, -2i8),
        ],
        TerrainSlope::Flat | TerrainSlope::South | TerrainSlope::West | TerrainSlope::NorthWest | TerrainSlope::SouthWest | TerrainSlope::SouthEast | TerrainSlope::SouthNorthWest | TerrainSlope::SouthEastWest2NorthWest => seq![
            (TerrainSlope::Flat, 0i8),
            (TerrainSlope::North, 0i8),
            (TerrainSlope::NorthWest, 0i8),
            (TerrainSlope::NorthEast, 0i8),
            (TerrainSlope::NorthWest2East, 0i8),
            (TerrainSlope::NorthSouthEast, 0i8),
            (TerrainSlope::SouthEast, 0i8),
            (TerrainSlope::East, 0i8),
            (TerrainSlope::NorthWestEast2SouthEast, 0i8),
            (TerrainSlope::All, -1i8),
            (TerrainSlope::South, -1i8),
            (TerrainSlope::SouthNorthWest, -1i8),
            (TerrainSlope::SouthNorthEast, -1i8),
            (TerrainSlope::SouthWest, -1i8),
            (TerrainSlope::NorthSouthWest, -1i8),
            (TerrainSlope::West, -1i8),
            (TerrainSlope::NorthEastWest2SouthWest, -1i8),
            (TerrainSlope::SouthWestEast2NorthEast, -1i8),
            (TerrainSlope::WestSouthEast2, -1i8),
            (TerrainSlope::WestNorthEast2, -1i8),
            (TerrainSlope::SouthEastWest2NorthWest, -2i8),
            (TerrainSlope::West2SouthEast, -2i8),
        ],
        TerrainSlope::North | TerrainSlope::East | TerrainSlope::NorthEast | TerrainSlope::SouthNorthEast | TerrainSlope::NorthSouthWest | TerrainSlope::NorthSouthEast | TerrainSlope::All | TerrainSlope::NorthEastWest2SouthWest | TerrainSlope::SouthWestEast2NorthEast => seq![
            (TerrainSlope::All, 0i8),
            (TerrainSlope::West, 0i8),
            (TerrainSlope::South, 0i8),
            (TerrainSlope::SouthWest, 0i8),
            (TerrainSlope::NorthSouthWest, 0i8),
            (TerrainSlope::SouthNorthWest, 0i8),
            (TerrainSlope::SouthNorthEast, 0i8),
            (TerrainSlope::SouthWestEast2NorthEast, 0i8),
            (TerrainSlope::NorthEastWest2SouthWest, 0i8),
            (TerrainSlope::Flat, 1i8),
            (TerrainSlope::North, 1i8),
            (TerrainSlope::NorthWest, 1i8),
            (TerrainSlope::NorthEast, 1i8),
            (TerrainSlope::NorthSouthEast, 1i8),
            (TerrainSlope::SouthEast, 1i8),
            (TerrainSlope::East, 1i8),
            (TerrainSlope::NorthWestEast2SouthEast, 1i8),
            (TerrainSlope::SouthEastWest2NorthWest, -1i8),
            (TerrainSlope::South2NorthEast, -1i8),
            (TerrainSlope::SouthWest2NorthWest, -1i8),
        ],
        TerrainSlope::VertialCliff | TerrainSlope::East2NorthWest | TerrainSlope::North2SouthWest | TerrainSlope::South2NorthWest | TerrainSlope::East2SouthWest | TerrainSlope::North2SouthEast | TerrainSlope::West2NorthEast | TerrainSlope::SouthNorthEast2 | TerrainSlope::EastNorthWest2 | TerrainSlope::NorthSouthWest2 | TerrainSlope::NorthWest2East | TerrainSlope::SouthEast2West | TerrainSlope::NorthEast2SouthEast | TerrainSlope::WestNorthEast2 | TerrainSlope::SouthNorthWest2 | TerrainSlope::EastSouthWest2 | TerrainSlope::NorthSouthEast2 => seq![],
        TerrainSlope::NorthWestEast2SouthEast => seq![
            (TerrainSlope::South, 1i8),
            (TerrainSlope::SouthWest, 1i8),
            (TerrainSlope::SouthWestEast2NorthEast, 1i8),
            (TerrainSlope::All, 1i8),
            (TerrainSlope::West, 1i8),
            (TerrainSlope::NorthSouthWest, 1i8),
            (TerrainSlope::NorthEastWest2SouthWest, 1i8),
            (TerrainSlope::Flat, 2i8),
            (TerrainSlope::SouthEast, 2i8),
            (TerrainSlope::NorthSouthEast, 2i8),
            (TerrainSlope::NorthWest, 2i8),
            (TerrainSlope::NorthEast, 2i8),
            (TerrainSlope::North, 2i8),
            (TerrainSlope::NorthWestEast2SouthEast, 2i8),
            (TerrainSlope::East, 2i8),
        ],
        TerrainSlope::South2NorthEast => seq![
            (TerrainSlope::South, 0i8),
        ],
        TerrainSlope::West2SouthEast => seq![
            (TerrainSlope::SouthNorthWest, -1i8),
        ],
        TerrainSlope::WestSouthEast2 => seq![
            (TerrainSlope::SouthEast, 0i8),
        ],
        TerrainSlope::SouthWest2NorthWest => seq![
            (TerrainSlope::SouthNorthWest, -1i8),
            (TerrainSlope::West, -1i8),
        ],
    }
}

/// The slopes (with their altitude offset) that may lie to the south of a tile with slope `s`.
pub open spec fn south_neighbor_table(s: TerrainSlope) -> Seq<(TerrainSlope, i8)> {
    match s {
        TerrainSlope::Undetermined => seq![
            (TerrainSlope::Flat, 0i8),
            (TerrainSlope::North, 0i8),
            (TerrainSlope::South, 0i8),
            (TerrainSlope::West, 0i8),
            (TerrainSlope::East, 0i8),
            (TerrainSlope::NorthWest, 0i8),
            (TerrainSlope::NorthEast, 0i8),
            (TerrainSlope::NorthSouthWest, 0i8),
            (TerrainSlope::NorthSouthEast, 0i8),
            (TerrainSlope::SouthWest, 0i8),
            (TerrainSlope::SouthEast, 0i8),
            (TerrainSlope::SouthNorthEast, 0i8),
            (TerrainSlope::SouthNorthWest, 0i8),
            (TerrainSlope::South2NorthEast, 0i8),
            (TerrainSlope::WestSouthEast2, 0i8),
            (TerrainSlope::All, 0i8),
            (TerrainSlope::SouthWestEast2NorthEast, 0i8),
            (TerrainSlope::SouthEastWest2NorthWest, 0i8),
            (TerrainSlope::Flat, 1i8),
            (TerrainSlope::South, 1i8),
            (TerrainSlope::SouthWest, 1i8),
            (TerrainSlope::SouthEast, 1i8),
            (TerrainSlope::SouthEastWest2NorthWest, 1i8),
            (TerrainSlope::SouthWestEast2NorthEast, 1i8),
            (TerrainSlope::SouthNorthWest, 1i8),
            (TerrainSlope::East, 1i8),
            (TerrainSlope::All, -1i8),
            (TerrainSlope::North, -1i8),
            (TerrainSlope::NorthSouthWest, -1i8),
            (TerrainSlope::NorthSouthEast, -1i8),
            (TerrainSlope::NorthWestEast2SouthEast, -1i8),
            (TerrainSlope::NorthEastWest2SouthWest, -1i8),
        ],
        TerrainSlope::Flat | TerrainSlope::North | TerrainSlope::NorthWest | TerrainSlope::NorthEast => seq![
            (TerrainSlope::Flat, 0i8),
            (TerrainSlope::South, 0i8),
            (TerrainSlope::SouthWest, 0i8),
            (TerrainSlope::SouthEast, 0i8),
            (TerrainSlope::All, -1i8),
            (TerrainSlope::North, -1i8),
            (TerrainSlope::NorthSouthWest, -1i8),
            (TerrainSlope::NorthSouthEast, -1i8),
        ],
        TerrainSlope::South | TerrainSlope::SouthNorthEast | TerrainSlope::SouthNorthWest | TerrainSlope::All => seq![
            (TerrainSlope::All, 0i8),
            (TerrainSlope::North, 0i8),
            (TerrainSlope::NorthSouthWest, 0i8),
            (TerrainSlope::NorthSouthEast, 0i8),
            (TerrainSlope::Flat, 1i8),
            (TerrainSlope::South, 1i8),
            (TerrainSlope::SouthWest, 1i8),
            (TerrainSlope::SouthEast, 1i8),
        ],
        TerrainSlope::West | TerrainSlope::SouthWest | TerrainSlope::NorthSouthWest | TerrainSlope::NorthEastWest2SouthWest => seq![
            (TerrainSlope::NorthWest, 0i8),
            (TerrainSlope::West, 0i8),
            (TerrainSlope::SouthNorthWest, 0i8),
            (TerrainSlope::SouthEastWest2NorthWest, 0i8),
            (TerrainSlope::WestSouthEast2, 0i8),
            (TerrainSlope::SouthWest2NorthWest, 0i8),
            (TerrainSlope::NorthEastWest2SouthWest, -1i8),
            (TerrainSlope::NorthWest2East, -1i8),
        ],
        TerrainSlope::East | TerrainSlope::SouthEast | TerrainSlope::NorthSouthEast | TerrainSlope::NorthWestEast2SouthEast => seq![
            (TerrainSlope::NorthEast, 0i8),
            (TerrainSlope::East, 0i8),
            (TerrainSlope::SouthNorthEast, 0i8),
            (TerrainSlope::SouthWestEast2NorthEast, 0i8),
            (TerrainSlope::South2NorthEast, 0i8),
            (TerrainSlope::NorthWestEast2SouthEast, -1i8),
            (TerrainSlope::WestNorthEast2, -1i8),
        ],
        TerrainSlope::VertialCliff | TerrainSlope::East2NorthWest | TerrainSlope::North2SouthWest | TerrainSlope::South2NorthWest | TerrainSlope::East2SouthWest | TerrainSlope::North2SouthEast | TerrainSlope::West2NorthEast | TerrainSlope::SouthNorthEast2 | TerrainSlope::EastNorthWest2 | TerrainSlope::NorthSouthWest2 | TerrainSlope::SouthEast2West | TerrainSlope::NorthEast2SouthEast | TerrainSlope::SouthNorthWest2 | TerrainSlope::EastSouthWest2 | TerrainSlope::NorthSouthEast2 => seq![],
        TerrainSlope::SouthWestEast2NorthEast => seq![
            (TerrainSlope::NorthEast, 1i8),
            (TerrainSlope::East, 1i8),
            (TerrainSlope::SouthNorthEast, 1i8),
            (TerrainSlope::SouthWestEast2NorthEast, 1i8),
        ],
        TerrainSlope::SouthEastWest2NorthWest => seq![
            (TerrainSlope::NorthWest, 1i8),
            (TerrainSlope::West, 1i8),
            (TerrainSlope::SouthNorthWest, 1i8),
            (TerrainSlope::SouthEastWest2NorthWest, 1i8),
        ],
        TerrainSlope::South2NorthEast => seq![
            (TerrainSlope::All, 1i8),
        ],
        TerrainSlope::West2SouthEast => seq![
            (TerrainSlope::West, 1i8),
        ],
        TerrainSlope::WestSouthEast2 => seq![
            (TerrainSlope::East, 1i8),
        ],
        TerrainSlope::NorthWest2East => seq![
            (TerrainSlope::SouthWest, 0i8),
        ],
        TerrainSlope::SouthWest2NorthWest => seq![
            (TerrainSlope::West2SouthEast, 0i8),
        ],
        TerrainSlope::WestNorthEast2 => seq![
            (TerrainSlope::SouthNorthWest, 0i8),
        ],
    }
}

/// The slopes (with their altitude offset) that may lie to the south-west of a tile with slope `s`.
pub open spec fn south_west_neighbor_table(s: TerrainSlope) -> Seq<(TerrainSlope, i8)> {
    match s {
        TerrainSlope::Undetermined => seq![
            (TerrainSlope::Flat, 0i8),
            (TerrainSlope::North, 0i8),
            (TerrainSlope::South, 0i8),
            (TerrainSlope::West, 0i8),
            (TerrainSlope::East, 0i8),
            (TerrainSlope::NorthWest, 0i8),
            (TerrainSlope::NorthEast, 0i8),
            (TerrainSlope::NorthSouthWest, 0i8),
            (TerrainSlope::NorthSouthEast, 0i8),
            (TerrainSlope::SouthWest, 0i8),
            (TerrainSlope::SouthEast, 0i8),
            (TerrainSlope::SouthNorthEast, 0i8),
            (TerrainSlope::SouthNorthWest, 0i8),
            (TerrainSlope::NorthEastWest2SouthWest, 0i8),
            (TerrainSlope::WestSouthEast2, 0i8),
            (TerrainSlope::All, 0i8),
            (TerrainSlope::All, -1i8),
            (TerrainSlope::East, -1i8),
            (TerrainSlope::North, -1i8),
            (TerrainSlope::NorthEast, -1i8),
            (TerrainSlope::SouthNorthEast, -1i8),
            (TerrainSlope::NorthSouthWest, -1i8),
            (TerrainSlope::NorthSouthEast, -1i8),
            (TerrainSlope::NorthWestEast2SouthEast, -1i8),
            (TerrainSlope::SouthWestEast2NorthEast, -1i8),
            (TerrainSlope::NorthWestEast2SouthEast, -2i8),
            (TerrainSlope::Flat, 1i8),
            (TerrainSlope::West, 1i8),
            (TerrainSlope::South, 1i8),
            (TerrainSlope::SouthWest, 1i8),
            (TerrainSlope::SouthEast, 1i8),
            (TerrainSlope::SouthNorthWest, 1i8),
            (TerrainSlope::NorthWest, 1i8),
            (TerrainSlope::NorthEast, 1i8),
            (TerrainSlope::East, 1i8),
            (TerrainSlope::All, 1i8),
            (TerrainSlope::SouthWest2NorthWest, 1i8),
            (TerrainSlope::Flat, 2i8),
            (TerrainSlope::SouthWestEast2NorthEast, 2i8),
            (TerrainSlope::SouthEastWest2NorthWest, 2i8),
        ],
        TerrainSlope::Flat | TerrainSlope::North | TerrainSlope::East | TerrainSlope::NorthWest | TerrainSlope::NorthEast | TerrainSlope::SouthEast | TerrainSlope::NorthSouthEast | TerrainSlope::NorthWestEast2SouthEast => seq![
            (TerrainSlope::Flat, 0i8),
            (TerrainSlope::West, 0i8),
            (TerrainSlope::South, 0i8),
            (TerrainSlope::SouthWest, 0i8),
            (TerrainSlope::SouthEast, 0i8),
            (TerrainSlope::SouthNorthWest, 0i8),
            (TerrainSlope::NorthWest, 0i8),
            (TerrainSlope::SouthEastWest2NorthWest, 0i8),
            (TerrainSlope::WestSouthEast2, 0i8),
            (TerrainSlope::All, -1i8),
            (TerrainSlope::East, -1i8),
            (TerrainSlope::North, -1i8),
            (TerrainSlope::NorthEast, -1i8),
            (TerrainSlope::NorthWest2East, -1i8),
            (TerrainSlope::SouthNorthEast, -1i8),
            (TerrainSlope::NorthSouthWest, -1i8),
            (TerrainSlope::NorthSouthEast, -1i8),
            (TerrainSlope::NorthEastWest2SouthWest, -1i8),
            (TerrainSlope::SouthWestEast2NorthEast, -1i8),
            (TerrainSlope::NorthWestEast2SouthEast, -2i8),
        ],
        TerrainSlope::South | TerrainSlope::West | TerrainSlope::SouthWest | TerrainSlope::SouthNorthEast | TerrainSlope::SouthNorthWest | TerrainSlope::NorthSouthWest | TerrainSlope::All | TerrainSlope::NorthEastWest2SouthWest | TerrainSlope::SouthWestEast2NorthEast => seq![
            (TerrainSlope::All, 0i8),
            (TerrainSlope::North, 0i8),
            (TerrainSlope::NorthEast, 0i8),
            (TerrainSlope::East, 0i8),
            (TerrainSlope::SouthNorthEast, 0i8),
            (TerrainSlope::NorthSouthWest, 0i8),
            (TerrainSlope::NorthSouthEast, 0i8),
            (TerrainSlope::NorthEastWest2SouthWest, 0i8),
            (TerrainSlope::SouthWestEast2NorthEast, 0i8),
            (TerrainSlope::South2NorthEast, 0i8),
            (TerrainSlope::Flat, 1i8),
            (TerrainSlope::West, 1i8),
            (TerrainSlope::South, 1i8),
            (TerrainSlope::SouthWest, 1i8),
            (TerrainSlope::SouthEast, 1i8),
            (TerrainSlope::SouthNorthWest, 1i8),
            (TerrainSlope::NorthWest, 1i8),
            (TerrainSlope::SouthEastWest2NorthWest, 1i8),
            (TerrainSlope::West2SouthEast, 1i8),
            (TerrainSlope::SouthWest2NorthWest, 1i8),
            (TerrainSlope::NorthWestEast2SouthEast, -1i8),
            (TerrainSlope::WestNorthEast2, -1i8),
        ],
        TerrainSlope::VertialCliff | TerrainSlope::East2NorthWest | TerrainSlope::North2SouthWest | TerrainSlope::South2NorthWest | TerrainSlope::East2SouthWest | TerrainSlope::North2SouthEast | TerrainSlope::West2NorthEast | TerrainSlope::SouthNorthEast2 | TerrainSlope::EastNorthWest2 | TerrainSlope::NorthSouthWest2 | TerrainSlope::SouthWest2NorthWest | TerrainSlope::SouthEast2West | TerrainSlope::NorthEast2SouthEast | TerrainSlope::SouthNorthWest2 | TerrainSlope::EastSouthWest2 | TerrainSlope::NorthSouthEast2 => seq![],
        TerrainSlope::SouthEastWest2NorthWest => seq![
            (TerrainSlope::Flat, 2i8),
            (TerrainSlope::All, 1i8),
            (TerrainSlope::North, 1i8),
            (TerrainSlope::NorthEast, 1i8),
            (TerrainSlope::East, 1i8),
            (TerrainSlope::SouthNorthEast, 1i8),
            (TerrainSlope::SouthWestEast2NorthEast, 1i8),
            (TerrainSlope::NorthSouthEast, 1i8),
            (TerrainSlope::NorthSouthWest, 1i8),
            (TerrainSlope::SouthEastWest2NorthWest, 2i8),
            (TerrainSlope::SouthNorthWest, 2i8),
            (TerrainSlope::West, 2i8),
            (TerrainSlope::South, 2i8),
            (TerrainSlope::SouthWest, 2i8),
        ],
        TerrainSlope::South2NorthEast => seq![
            (TerrainSlope::East, 1i8),
        ],
        TerrainSlope::West2SouthEast => seq![
            (TerrainSlope::Flat, 2i8),
        ],
        TerrainSlope::WestSouthEast2 => seq![
            (TerrainSlope::Flat, 1i8),
        ],
        TerrainSlope::NorthWest2East => seq![
            (TerrainSlope::SouthNorthWest, 0i8),
        ],
        TerrainSlope::WestNorthEast2 => seq![
            (TerrainSlope::West, 1i8),
        ],
    }
}

/// The slopes (with their altitude offset) that may lie to the south-east of a tile with slope `s`.
pub open spec fn south_east_neighbor_table(s: TerrainSlope) -> Seq<(TerrainSlope, i8)> {
    match s {
        TerrainSlope::Undetermined => seq![
            (TerrainSlope::Flat, 0i8),
            (TerrainSlope::North, 0i8),
            (TerrainSlope::South, 0i8),
            (TerrainSlope::West, 0i8),
            (TerrainSlope::East, 0i8),
            (TerrainSlope::NorthWest, 0i8),
            (TerrainSlope::NorthEast, 0i8),
            (TerrainSlope::NorthSouthWest, 0i8),
            (TerrainSlope::NorthSouthEast, 0i8),
            (TerrainSlope::SouthWest, 0i8),
            (TerrainSlope::SouthEast, 0i8),
            (TerrainSlope::SouthNorthEast, 0i8),
            (TerrainSlope::SouthNorthWest, 0i8),
            (TerrainSlope::South2NorthEast, 0i8),
            (TerrainSlope::WestSouthEast2, 0i8),
            (TerrainSlope::All, 0i8),
            (TerrainSlope::SouthWestEast2NorthEast, 0i8),
            (TerrainSlope::SouthEastWest2NorthWest, 0i8),
            (TerrainSlope::NorthWestEast2SouthEast, 0i8),
            (TerrainSlope::All, -1i8),
            (TerrainSlope::West, -1i8),
            (TerrainSlope::North, -1i8),
            (TerrainSlope::NorthWest, -1i8),
            (TerrainSlope::SouthNorthWest, -1i8),
            (TerrainSlope::NorthSouthWest, -1i8),
            (TerrainSlope::NorthSouthEast, -1i8),
            (TerrainSlope::NorthEastWest2SouthWest, -1i8),
            (TerrainSlope::NorthEastWest2SouthWest, -2i8),
            (TerrainSlope::Flat, 1i8),
            (TerrainSlope::East, 1i8),
            (TerrainSlope::South, 1i8),
            (TerrainSlope::SouthWest, 1i8),
            (TerrainSlope::SouthEast, 1i8),
            (TerrainSlope::SouthNorthEast, 1i8),
            (TerrainSlope::NorthEast, 1i8),
        ],
        TerrainSlope::Flat | TerrainSlope::North | TerrainSlope::West | TerrainSlope::NorthWest | TerrainSlope::NorthEast | TerrainSlope::SouthWest | TerrainSlope::NorthSouthWest | TerrainSlope::NorthEastWest2SouthWest => seq![
            (TerrainSlope::Flat, 0i8),
            (TerrainSlope::South, 0i8),
            (TerrainSlope::SouthNorthEast, 0i8),
            (TerrainSlope::NorthEast, 0i8),
            (TerrainSlope::SouthWest, 0i8),
            (TerrainSlope::SouthEast, 0i8),
            (TerrainSlope::East, 0i8),
            (TerrainSlope::SouthWestEast2NorthEast, 0i8),
            (TerrainSlope::South2NorthEast, 0i8),
            (TerrainSlope::All, -1i8),
            (TerrainSlope::West, -1i8),
            (TerrainSlope::North, -1i8),
            (TerrainSlope::NorthWest, -1i8),
            (TerrainSlope::SouthNorthWest, -1i8),
            (TerrainSlope::NorthSouthWest, -1i8),
            (TerrainSlope::NorthSouthEast, -1i8),
            (TerrainSlope::NorthWestEast2SouthEast, -1i8),
            (TerrainSlope::SouthEastWest2NorthWest, -1i8),
            (TerrainSlope::WestNorthEast2, -1i8),
            (TerrainSlope::NorthEastWest2SouthWest, -2i8),
        ],
        TerrainSlope::South | TerrainSlope::East | TerrainSlope::SouthEast | TerrainSlope::SouthNorthEast | TerrainSlope::SouthNorthWest | TerrainSlope::NorthSouthEast | TerrainSlope::All | TerrainSlope::NorthWestEast2SouthEast | TerrainSlope::SouthEastWest2NorthWest => seq![
            (TerrainSlope::All, 0i8),
            (TerrainSlope::West, 0i8),
            (TerrainSlope::NorthWest, 0i8),
            (TerrainSlope::SouthNorthWest, 0i8),
            (TerrainSlope::North, 0i8),
            (TerrainSlope::NorthSouthWest, 0i8),
            (TerrainSlope::NorthSouthEast, 0i8),
            (TerrainSlope::NorthWestEast2SouthEast, 0i8),
            (TerrainSlope::SouthEastWest2NorthWest, 0i8),
            (TerrainSlope::WestSouthEast2, 0i8),
            (TerrainSlope::SouthWest2NorthWest, 0i8),
            (TerrainSlope::Flat, 1i8),
            (TerrainSlope::East, 1i8),
            (TerrainSlope::South, 1i8),
            (TerrainSlope::SouthWest, 1i8),
            (TerrainSlope::SouthEast, 1i8),
            (TerrainSlope::SouthNorthEast, 1i8),
            (TerrainSlope::NorthEast, 1i8),
            (TerrainSlope::SouthWestEast2NorthEast, 1i8),
            (TerrainSlope::NorthEastWest2SouthWest, -1i8),
            (TerrainSlope::NorthWest2East, -1i8),
            (TerrainSlope::West2SouthEast, -1i8),
        ],
        TerrainSlope::VertialCliff | TerrainSlope::East2NorthWest | TerrainSlope::North2SouthWest | TerrainSlope::South2NorthWest | TerrainSlope::East2SouthWest | TerrainSlope::North2SouthEast | TerrainSlope::West2NorthEast | TerrainSlope::SouthNorthEast2 | TerrainSlope::EastNorthWest2 | TerrainSlope::NorthSouthWest2 | TerrainSlope::SouthEast2West | TerrainSlope::NorthEast2SouthEast | TerrainSlope::SouthNorthWest2 | TerrainSlope::EastSouthWest2 | TerrainSlope::NorthSouthEast2 => seq![],
        TerrainSlope::SouthWestEast2NorthEast => seq![
            (TerrainSlope::All, 1i8),
            (TerrainSlope::NorthWest, 1i8),
            (TerrainSlope::SouthNorthWest, 1i8),
            (TerrainSlope::North, 1i8),
            (TerrainSlope::West, 1i8),
            (TerrainSlope::Flat, 2i8),
            (TerrainSlope::SouthEast, 2i8),
            (TerrainSlope::East, 2i8),
            (TerrainSlope::South, 2i8),
        ],
        TerrainSlope::South2NorthEast => seq![
            (TerrainSlope::Flat, 2i8),
        ],
        TerrainSlope::West2SouthEast => seq![
            (TerrainSlope::SouthNorthWest, 0i8),
        ],
        TerrainSlope::WestSouthEast2 => seq![
            (TerrainSlope::All, 1i8),
        ],
        TerrainSlope::NorthWest2East => seq![
            (TerrainSlope::East, 0i8),
        ],
        TerrainSlope::SouthWest2NorthWest | TerrainSlope::WestNorthEast2 => seq![
            (TerrainSlope::SouthWest, 0i8),
        ],
    }
}

/// The slopes (with their altitude offset) that may lie to the west of a tile with slope `s`.
pub open spec fn west_neighbor_table(s: TerrainSlope) -> Seq<(TerrainSlope, i8)> {
    match s {
        TerrainSlope::Undetermined => seq![
            (TerrainSlope::Flat, 0i8),
            (TerrainSlope::North, 0i8),
            (TerrainSlope::South, 0i8),
            (TerrainSlope::West, 0i8),
            (TerrainSlope::East, 0i8),
            (TerrainSlope::NorthWest, 0i8),
            (TerrainSlope::NorthEast, 0i8),
            (TerrainSlope::NorthSouthWest, 0i8),
            (TerrainSlope::NorthSouthEast, 0i8),
            (TerrainSlope::SouthWest, 0i8),
            (TerrainSlope::SouthEast, 0i8),
            (TerrainSlope::SouthNorthEast, 0i8),
            (TerrainSlope::SouthNorthWest, 0i8),
            (TerrainSlope::WestSouthEast2, 0i8),
            (TerrainSlope::All, 0i8),
            (TerrainSlope::Flat, 1i8),
            (TerrainSlope::West, 1i8),
            (TerrainSlope::SouthWest, 1i8),
            (TerrainSlope::NorthWest, 1i8),
            (TerrainSlope::SouthNorthWest, 1i8),
            (TerrainSlope::SouthEastWest2NorthWest, 1i8),
            (TerrainSlope::All, -1i8),
            (TerrainSlope::East, -1i8),
            (TerrainSlope::NorthSouthEast, -1i8),
            (TerrainSlope::SouthNorthEast, -1i8),
            (TerrainSlope::NorthWestEast2SouthEast, -1i8),
            (TerrainSlope::SouthWestEast2NorthEast, -1i8),
        ],
        TerrainSlope::Flat | TerrainSlope::East | TerrainSlope::NorthEast | TerrainSlope::SouthEast => seq![
            (TerrainSlope::Flat, 0i8),
            (TerrainSlope::West, 0i8),
            (TerrainSlope::SouthWest, 0i8),
            (TerrainSlope::NorthWest, 0i8),
            (TerrainSlope::All, -1i8),
            (TerrainSlope::East, -1i8),
            (TerrainSlope::SouthNorthEast, -1i8),
            (TerrainSlope::NorthSouthEast, -1i8),
        ],
        TerrainSlope::South | TerrainSlope::SouthWest | TerrainSlope::SouthNorthEast | TerrainSlope::SouthWestEast2NorthEast => seq![
            (TerrainSlope::SouthEast, 0i8),
            (TerrainSlope::South, 0i8),
            (TerrainSlope::SouthNorthWest, 0i8),
            (TerrainSlope::SouthEastWest2NorthWest, 0i8),
            (TerrainSlope::West2SouthEast, 0i8),
            (TerrainSlope::SouthWestEast2NorthEast, -1i8),
            (TerrainSlope::South2NorthEast, -1i8),
        ],
        TerrainSlope::North | TerrainSlope::NorthWest | TerrainSlope::NorthSouthEast | TerrainSlope::NorthWestEast2SouthEast => seq![
            (TerrainSlope::NorthEast, 0i8),
            (TerrainSlope::NorthWest2East, 0i8),
            (TerrainSlope::North, 0i8),
            (TerrainSlope::NorthSouthWest, 0i8),
            (TerrainSlope::NorthEastWest2SouthWest, 0i8),
            (TerrainSlope::NorthWestEast2SouthEast, -1i8),
        ],
        TerrainSlope::West | TerrainSlope::SouthNorthWest | TerrainSlope::NorthSouthWest | TerrainSlope::All => seq![
            (TerrainSlope::All, 0i8),
            (TerrainSlope::East, 0i8),
            (TerrainSlope::SouthNorthEast, 0i8),
            (TerrainSlope::NorthSouthEast, 0i8),
            (TerrainSlope::Flat, 1i8),
            (TerrainSlope::West, 1i8),
            (TerrainSlope::NorthWest, 1i8),
            (TerrainSlope::SouthWest, 1i8),
            (TerrainSlope::SouthWest2NorthWest, 1i8),
        ],
        TerrainSlope::VertialCliff | TerrainSlope::East2NorthWest | TerrainSlope::North2SouthWest | TerrainSlope::West2SouthEast | TerrainSlope::South2NorthWest | TerrainSlope::East2SouthWest | TerrainSlope::North2SouthEast | TerrainSlope::West2NorthEast | TerrainSlope::SouthNorthEast2 | TerrainSlope::EastNorthWest2 | TerrainSlope::NorthSouthWest2 | TerrainSlope::SouthWest2NorthWest | TerrainSlope::SouthEast2West | TerrainSlope::NorthEast2SouthEast | TerrainSlope::SouthNorthWest2 | TerrainSlope::EastSouthWest2 | TerrainSlope::NorthSouthEast2 => seq![],
        TerrainSlope::NorthEastWest2SouthWest => seq![
            (TerrainSlope::North, 1i8),
            (TerrainSlope::NorthSouthWest, 1i8),
            (TerrainSlope::NorthEastWest2SouthWest, 1i8),
        ],
        TerrainSlope::SouthEastWest2NorthWest => seq![
            (TerrainSlope::SouthEast, 1i8),
            (TerrainSlope::South, 1i8),
            (TerrainSlope::SouthNorthWest, 1i8),
            (TerrainSlope::SouthEastWest2NorthWest, 1i8),
        ],
        TerrainSlope::South2NorthEast => seq![
            (TerrainSlope::WestSouthEast2, 0i8),
        ],
        TerrainSlope::WestSouthEast2 => seq![
            (TerrainSlope::Flat, 1i8),
        ],
        TerrainSlope::NorthWest2East => seq![
            (TerrainSlope::WestNorthEast2, 0i8),
        ],
        TerrainSlope::WestNorthEast2 => seq![
            (TerrainSlope::West, 1i8),
        ],
    }
}

/// The slopes (with their altitude offset) that may lie to the east of a tile with slope `s`.
pub open spec fn east_neighbor_table(s: TerrainSlope) -> Seq<(TerrainSlope, i8)> {
    match s {
        TerrainSlope::Undetermined => seq![
            (TerrainSlope::Flat, 0i8),
            (TerrainSlope::North, 0i8),
            (TerrainSlope::South, 0i8),
            (TerrainSlope::West, 0i8),
            (TerrainSlope::East, 0i8),
            (TerrainSlope::NorthWest, 0i8),
            (TerrainSlope::NorthEast, 0i8),
            (TerrainSlope::NorthWest2East, 0i8),
            (TerrainSlope::NorthSouthWest, 0i8),
            (TerrainSlope::NorthSouthEast, 0i8),
            (TerrainSlope::SouthWest, 0i8),
            (TerrainSlope::SouthEast, 0i8),
            (TerrainSlope::SouthNorthEast, 0i8),
            (TerrainSlope::SouthNorthWest, 0i8),
            (TerrainSlope::All, 0i8),
            (TerrainSlope::SouthWestEast2NorthEast, 0i8),
            (TerrainSlope::NorthWestEast2SouthEast, 0i8),
            (TerrainSlope::Flat, 1i8),
            (TerrainSlope::East, 1i8),
            (TerrainSlope::SouthEast, 1i8),
            (TerrainSlope::NorthEast, 1i8),
            (TerrainSlope::NorthSouthEast, 1i8),
            (TerrainSlope::North, 1i8),
            (TerrainSlope::NorthWestEast2SouthEast, 1i8),
            (TerrainSlope::SouthWestEast2NorthEast, 1i8),
            (TerrainSlope::All, -1i8),
            (TerrainSlope::West, -1i8),
            (TerrainSlope::NorthSouthWest, -1i8),
            (TerrainSlope::SouthNorthWest, -1i8),
            (TerrainSlope::NorthEastWest2SouthWest, -1i8),
            (TerrainSlope::SouthEastWest2NorthWest, -1i8),
        ],
        TerrainSlope::Flat | TerrainSlope::West | TerrainSlope::NorthWest | TerrainSlope::SouthWest => seq![
            (TerrainSlope::Flat, 0i8),
            (TerrainSlope::East, 0i8),
            (TerrainSlope::NorthEast, 0i8),
            (TerrainSlope::SouthEast, 0i8),
            (TerrainSlope::All, -1i8),
            (TerrainSlope::West, -1i8),
            (TerrainSlope::SouthNorthWest, -1i8),
            (TerrainSlope::NorthSouthWest, -1i8),
            (TerrainSlope::WestSouthEast2, -1i8),
            (TerrainSlope::WestNorthEast2, -1i8),
        ],
        TerrainSlope::South | TerrainSlope::SouthEast | TerrainSlope::SouthNorthWest | TerrainSlope::SouthEastWest2NorthWest => seq![
            (TerrainSlope::SouthWest, 0i8),
            (TerrainSlope::South, 0i8),
            (TerrainSlope::SouthNorthEast, 0i8),
            (TerrainSlope::SouthWestEast2NorthEast, 0i8),
            (TerrainSlope::SouthEastWest2NorthWest, -1i8),
            (TerrainSlope::SouthWest2NorthWest, -1i8),
        ],
        TerrainSlope::North | TerrainSlope::NorthEast | TerrainSlope::NorthSouthWest | TerrainSlope::NorthEastWest2SouthWest => seq![
            (TerrainSlope::NorthWest, 0i8),
            (TerrainSlope::North, 0i8),
            (TerrainSlope::NorthSouthEast, 0i8),
            (TerrainSlope::NorthWestEast2SouthEast, 0i8),
            (TerrainSlope::NorthEastWest2SouthWest, -1i8),
        ],
        TerrainSlope::East | TerrainSlope::SouthNorthEast | TerrainSlope::NorthSouthEast | TerrainSlope::All => seq![
            (TerrainSlope::All, 0i8),
            (TerrainSlope::West, 0i8),
            (TerrainSlope::SouthNorthWest, 0i8),
            (TerrainSlope::NorthSouthWest, 0i8),
            (TerrainSlope::West2SouthEast, -1i8),
            (TerrainSlope::Flat, 1i8),
            (TerrainSlope::East, 1i8),
            (TerrainSlope::NorthEast, 1i8),
            (TerrainSlope::SouthEast, 1i8),
        ],
        TerrainSlope::VertialCliff | TerrainSlope::East2NorthWest | TerrainSlope::North2SouthWest | TerrainSlope::South2NorthWest | TerrainSlope::East2SouthWest | TerrainSlope::North2SouthEast | TerrainSlope::West2NorthEast | TerrainSlope::SouthNorthEast2 | TerrainSlope::EastNorthWest2 | TerrainSlope::NorthSouthWest2 | TerrainSlope::SouthEast2West | TerrainSlope::NorthEast2SouthEast | TerrainSlope::SouthNorthWest2 | TerrainSlope::EastSouthWest2 | TerrainSlope::NorthSouthEast2 => seq![],
        TerrainSlope::NorthWestEast2SouthEast => seq![
            (TerrainSlope::North, 1i8),
            (TerrainSlope::NorthWest, 1i8),
            (TerrainSlope::NorthSouthEast, 1i8),
            (TerrainSlope::NorthWestEast2SouthEast, 1i8),
        ],
        TerrainSlope::SouthWestEast2NorthEast => seq![
            (TerrainSlope::SouthWest, 1i8),
            (TerrainSlope::South, 1i8),
            (TerrainSlope::SouthNorthEast, 1i8),
            (TerrainSlope::SouthWestEast2NorthEast, 1i8),
        ],
        TerrainSlope::South2NorthEast => seq![
            (TerrainSlope::South, 1i8),
        ],
        TerrainSlope::West2SouthEast => seq![
            (TerrainSlope::SouthWest, 0i8),
        ],
        TerrainSlope::WestSouthEast2 => seq![
            (TerrainSlope::South2NorthEast, 0i8),
        ],
        TerrainSlope::NorthWest2East => seq![
            (TerrainSlope::NorthWestEast2SouthEast, 0i8),
        ],
        TerrainSlope::SouthWest2NorthWest => seq![
            (TerrainSlope::SouthNorthWest, -1i8),
        ],
        TerrainSlope::WestNorthEast2 => seq![
            (TerrainSlope::NorthWest2East, 0i8),
        ],
    }
}

/// Whether corner `theirs` of a neighbor with slope `n.0`, lying `n.1` levels above a tile
/// with slope `s`, stands as high as corner `ours` of that tile. Corners are numbered 0
/// north-west, 1 north-east, 2 south-east, 3 south-west.
pub open spec fn corners_meet(s: TerrainSlope, n: (TerrainSlope, i8), theirs: int, ours: int) -> bool {
    corner_raise(n.0, theirs) + n.1 == corner_raise(s, ours)
}

/// Whether a neighbor on the given side of a tile with slope `s` meets it: each corner it
/// shares with the tile stands as high as the tile's corner.
pub open spec fn neighbor_meets(side: Compass, s: TerrainSlope, n: (TerrainSlope, i8)) -> bool {
    match side {
        Compass::North => corners_meet(s, n, 3, 0) && corners_meet(s, n, 2, 1),
        Compass::South => corners_meet(s, n, 0, 3) && corners_meet(s, n, 1, 2),
        Compass::West => corners_meet(s, n, 1, 0) && corners_meet(s, n, 2, 3),
        Compass::East => corners_meet(s, n, 0, 1) && corners_meet(s, n, 3, 2),
        Compass::NorthWest => corners_meet(s, n, 2, 0),
        Compass::NorthEast => corners_meet(s, n, 3, 1),
        Compass::SouthEast => corners_meet(s, n, 0, 2),
        Compass::SouthWest => corners_meet(s, n, 1, 3),
    }
}

/// The table of slopes that may lie on the given side of a tile with slope `s`.
pub open spec fn side_table(side: Compass, s: TerrainSlope) -> Seq<(TerrainSlope, i8)> {
    match side {
        Compass::North => north_neighbor_table(s),
        Compass::South => south_neighbor_table(s),
        Compass::West => west_neighbor_table(s),
        Compass::East => east_neighbor_table(s),
        Compass::NorthWest => north_west_neighbor_table(s),
        Compass::NorthEast => north_east_neighbor_table(s),
        Compass::SouthEast => south_east_neighbor_table(s),
        Compass::SouthWest => south_west_neighbor_table(s),
    }
}

proof fn lemma_north_table_meets(s: TerrainSlope)
    requires
        s != TerrainSlope::Undetermined,
    ensures
        forall|i: int|
            0 <= i < north_neighbor_table(s).len() ==> neighbor_meets(Compass::North, s, #[trigger] north_neighbor_table(s)[i]),
{
    reveal(raise_pattern);
    match s {
        TerrainSlope::Undetermined => {},
        TerrainSlope::Flat => {},
        TerrainSlope::South => {},
        TerrainSlope::North => {},
        TerrainSlope::West => {},
        TerrainSlope::East => {},
        TerrainSlope::NorthWest => {},
        TerrainSlope::NorthEast => {},
        TerrainSlope::SouthWest => {},
        TerrainSlope::SouthEast => {},
        TerrainSlope::SouthNorthEast => {},
        TerrainSlope::SouthNorthWest => {},
        TerrainSlope::NorthSouthWest => {},
        TerrainSlope::NorthSouthEast => {},
        TerrainSlope::All => {},
        TerrainSlope::VertialCliff => {},
        TerrainSlope::NorthWestEast2SouthEast => {},
        TerrainSlope::NorthEastWest2SouthWest => {},
        TerrainSlope::SouthWestEast2NorthEast => {},
        TerrainSlope::SouthEastWest2NorthWest => {},
        TerrainSlope::South2NorthEast => {},
        TerrainSlope::East2NorthWest => {},
        TerrainSlope::North2SouthWest => {},
        TerrainSlope::West2SouthEast => {},
        TerrainSlope::South2NorthWest => {},
        TerrainSlope::East2SouthWest => {},
        TerrainSlope::North2SouthEast => {},
        TerrainSlope::West2NorthEast => {},
        TerrainSlope::WestSouthEast2 => {},
        TerrainSlope::SouthNorthEast2 => {},
        TerrainSlope::EastNorthWest2 => {},
        TerrainSlope::NorthSouthWest2 => {},
        TerrainSlope::NorthWest2East => {},
        TerrainSlope::SouthWest2NorthWest => {},
        TerrainSlope::SouthEast2West => {},
        TerrainSlope::NorthEast2SouthEast => {},
        TerrainSlope::WestNorthEast2 => {},
        TerrainSlope::SouthNorthWest2 => {},
        TerrainSlope::EastSouthWest2 => {},
        TerrainSlope::NorthSouthEast2 => {},
    }
}

proof fn lemma_south_table_meets(s: TerrainSlope)
    requires
        s != TerrainSlope::Undetermined,
    ensures
        forall|i: int|
            0 <= i < south_neighbor_table(s).len() ==> neighbor_meets(Compass::South, s, #[trigger] south_neighbor_table(s)[i]),
{
    reveal(raise_pattern);
    match s {
        TerrainSlope::Undetermined => {},
        TerrainSlope::Flat => {},
        TerrainSlope::South => {},
        TerrainSlope::North => {},
        TerrainSlope::West => {},
        TerrainSlope::East => {},
        TerrainSlope::NorthWest => {},
        TerrainSlope::NorthEast => {},
        TerrainSlope::SouthWest => {},
        TerrainSlope::SouthEast => {},
        TerrainSlope::SouthNorthEast => {},
        TerrainSlope::SouthNorthWest => {},
        TerrainSlope::NorthSouthWest => {},
        TerrainSlope::NorthSouthEast => {},
        TerrainSlope::All => {},
        TerrainSlope::VertialCliff => {},
        TerrainSlope::NorthWestEast2SouthEast => {},
        TerrainSlope::NorthEastWest2SouthWest => {},
        TerrainSlope::SouthWestEast2NorthEast => {},
        TerrainSlope::SouthEastWest2NorthWest => {},
        TerrainSlope::South2NorthEast => {},
        TerrainSlope::East2NorthWest => {},
        TerrainSlope::North2SouthWest => {},
        TerrainSlope::West2SouthEast => {},
        TerrainSlope::South2NorthWest => {},
        TerrainSlope::East2SouthWest => {},
        TerrainSlope::North2SouthEast => {},
        TerrainSlope::West2NorthEast => {},
        TerrainSlope::WestSouthEast2 => {},
        TerrainSlope::SouthNorthEast2 => {},
        TerrainSlope::EastNorthWest2 => {},
        TerrainSlope::NorthSouthWest2 => {},
        TerrainSlope::NorthWest2East => {},
        TerrainSlope::SouthWest2NorthWest => {},
        TerrainSlope::SouthEast2West => {},
        TerrainSlope::NorthEast2SouthEast => {},
        TerrainSlope::WestNorthEast2 => {},
        TerrainSlope::SouthNorthWest2 => {},
        TerrainSlope::EastSouthWest2 => {},
        TerrainSlope::NorthSouthEast2 => {},
    }
}

proof fn lemma_west_table_meets(s: TerrainSlope)
    requires
        s != TerrainSlope::Undetermined,
    ensures
        forall|i: int|
            0 <= i < west_neighbor_table(s).len() ==> neighbor_meets(Compass::West, s, #[trigger] west_neighbor_table(s)[i]),
{
    reveal(raise_pattern);
    match s {
        TerrainSlope::Undetermined => {},
        TerrainSlope::Flat => {},
        TerrainSlope::South => {},
        TerrainSlope::North => {},
        TerrainSlope::West => {},
        TerrainSlope::East => {},
        TerrainSlope::NorthWest => {},
        TerrainSlope::NorthEast => {},
        TerrainSlope::SouthWest => {},
        TerrainSlope::SouthEast => {},
        TerrainSlope::SouthNorthEast => {},
        TerrainSlope::SouthNorthWest => {},
        TerrainSlope::NorthSouthWest => {},
        TerrainSlope::NorthSouthEast => {},
        TerrainSlope::All => {},
        TerrainSlope::VertialCliff => {},
        TerrainSlope::NorthWestEast2SouthEast => {},
        TerrainSlope::NorthEastWest2SouthWest => {},
        TerrainSlope::SouthWestEast2NorthEast => {},
        TerrainSlope::SouthEastWest2NorthWest => {},
        TerrainSlope::South2NorthEast => {},
        TerrainSlope::East2NorthWest => {},
        TerrainSlope::North2SouthWest => {},
        TerrainSlope::West2SouthEast => {},
        TerrainSlope::South2NorthWest => {},
        TerrainSlope::East2SouthWest => {},
        TerrainSlope::North2SouthEast => {},
        TerrainSlope::West2NorthEast => {},
        TerrainSlope::WestSouthEast2 => {},
        TerrainSlope::SouthNorthEast2 => {},
        TerrainSlope::EastNorthWest2 => {},
        TerrainSlope::NorthSouthWest2 => {},
        TerrainSlope::NorthWest2East => {},
        TerrainSlope::SouthWest2NorthWest => {},
        TerrainSlope::SouthEast2West => {},
        TerrainSlope::NorthEast2SouthEast => {},
        TerrainSlope::WestNorthEast2 => {},
        TerrainSlope::SouthNorthWest2 => {},
        TerrainSlope::EastSouthWest2 => {},
        TerrainSlope::NorthSouthEast2 => {},
    }
}

proof fn lemma_east_table_meets(s: TerrainSlope)
    requires
        s != TerrainSlope::Undetermined,
    ensures
        forall|i: int|
            0 <= i < east_neighbor_table(s).len() ==> neighbor_meets(Compass::East, s, #[trigger] east_neighbor_table(s)[i]),
{
    reveal(raise_pattern);
    match s {
        TerrainSlope::Undetermined => {},
        TerrainSlope::Flat => {},
        TerrainSlope::South => {},
        TerrainSlope::North => {},
        TerrainSlope::West => {},
        TerrainSlope::East => {},
        TerrainSlope::NorthWest => {},
        TerrainSlope::NorthEast => {},
        TerrainSlope::SouthWest => {},
        TerrainSlope::SouthEast => {},
        TerrainSlope::SouthNorthEast => {},
        TerrainSlope::SouthNorthWest => {},
        TerrainSlope::NorthSouthWest => {},
        TerrainSlope::NorthSouthEast => {},
        TerrainSlope::All => {},
        TerrainSlope::VertialCliff => {},
        TerrainSlope::NorthWestEast2SouthEast => {},
        TerrainSlope::NorthEastWest2SouthWest => {},
        TerrainSlope::SouthWestEast2NorthEast => {},
        TerrainSlope::SouthEastWest2NorthWest => {},
        TerrainSlope::South2NorthEast => {},
        TerrainSlope::East2NorthWest => {},
        TerrainSlope::North2SouthWest => {},
        TerrainSlope::West2SouthEast => {},
        TerrainSlope::South2NorthWest => {},
        TerrainSlope::East2SouthWest => {},
        TerrainSlope::North2SouthEast => {},
        TerrainSlope::West2NorthEast => {},
        TerrainSlope::WestSouthEast2 => {},
        TerrainSlope::SouthNorthEast2 => {},
        TerrainSlope::EastNorthWest2 => {},
        TerrainSlope::NorthSouthWest2 => {},
        TerrainSlope::NorthWest2East => {},
        TerrainSlope::SouthWest2NorthWest => {},
        TerrainSlope::SouthEast2West => {},
        TerrainSlope::NorthEast2SouthEast => {},
        TerrainSlope::WestNorthEast2 => {},
        TerrainSlope::SouthNorthWest2 => {},
        TerrainSlope::EastSouthWest2 => {},
        TerrainSlope::NorthSouthEast2 => {},
    }
}

proof fn lemma_north_west_table_meets(s: TerrainSlope)
    requires
        s != TerrainSlope::Undetermined,
    ensures
        forall|i: int|
            0 <= i < north_west_neighbor_table(s).len() ==> neighbor_meets(Compass::NorthWest, s, #[trigger] north_west_neighbor_table(s)[i]),
{
    reveal(raise_pattern);
    match s {
        TerrainSlope::Undetermined => {},
        TerrainSlope::Flat => {},
        TerrainSlope::South => {},
        TerrainSlope::North => {},
        TerrainSlope::West => {},
        TerrainSlope::East => {},
        TerrainSlope::NorthWest => {},
        TerrainSlope::NorthEast => {},
        TerrainSlope::SouthWest => {},
        TerrainSlope::SouthEast => {},
        TerrainSlope::SouthNorthEast => {},
        TerrainSlope::SouthNorthWest => {},
        TerrainSlope::NorthSouthWest => {},
        TerrainSlope::NorthSouthEast => {},
        TerrainSlope::All => {},
        TerrainSlope::VertialCliff => {},
        TerrainSlope::NorthWestEast2SouthEast => {},
        TerrainSlope::NorthEastWest2SouthWest => {},
        TerrainSlope::SouthWestEast2NorthEast => {},
        TerrainSlope::SouthEastWest2NorthWest => {},
        TerrainSlope::South2NorthEast => {},
        TerrainSlope::East2NorthWest => {},
        TerrainSlope::North2SouthWest => {},
        TerrainSlope::West2SouthEast => {},
        TerrainSlope::South2NorthWest => {},
        TerrainSlope::East2SouthWest => {},
        TerrainSlope::North2SouthEast => {},
        TerrainSlope::West2NorthEast => {},
        TerrainSlope::WestSouthEast2 => {},
        TerrainSlope::SouthNorthEast2 => {},
        TerrainSlope::EastNorthWest2 => {},
        TerrainSlope::NorthSouthWest2 => {},
        TerrainSlope::NorthWest2East => {},
        TerrainSlope::SouthWest2NorthWest => {},
        TerrainSlope::SouthEast2West => {},
        TerrainSlope::NorthEast2SouthEast => {},
        TerrainSlope::WestNorthEast2 => {},
        TerrainSlope::SouthNorthWest2 => {},
        TerrainSlope::EastSouthWest2 => {},
        TerrainSlope::NorthSouthEast2 => {},
    }
}

proof fn lemma_north_east_table_meets(s: TerrainSlope)
    requires
        s != TerrainSlope::Undetermined,
    ensures
        forall|i: int|
            0 <= i < north_east_neighbor_table(s).len() ==> neighbor_meets(Compass::NorthEast, s, #[trigger] north_east_neighbor_table(s)[i]),
{
    reveal(raise_pattern);
    match s {
        TerrainSlope::Undetermined => {},
        TerrainSlope::Flat => {},
        TerrainSlope::South => {},
        TerrainSlope::North => {},
        TerrainSlope::West => {},
        TerrainSlope::East => {},
        TerrainSlope::NorthWest => {},
        TerrainSlope::NorthEast => {},
        TerrainSlope::SouthWest => {},
        TerrainSlope::SouthEast => {},
        TerrainSlope::SouthNorthEast => {},
        TerrainSlope::SouthNorthWest => {},
        TerrainSlope::NorthSouthWest => {},
        TerrainSlope::NorthSouthEast => {},
        TerrainSlope::All => {},
        TerrainSlope::VertialCliff => {},
        TerrainSlope::NorthWestEast2SouthEast => {},
        TerrainSlope::NorthEastWest2SouthWest => {},
        TerrainSlope::SouthWestEast2NorthEast => {},
        TerrainSlope::SouthEastWest2NorthWest => {},
        TerrainSlope::South2NorthEast => {},
        TerrainSlope::East2NorthWest => {},
        TerrainSlope::North2SouthWest => {},
        TerrainSlope::West2SouthEast => {},
        TerrainSlope::South2NorthWest => {},
        TerrainSlope::East2SouthWest => {},
        TerrainSlope::North2SouthEast => {},
        TerrainSlope::West2NorthEast => {},
        TerrainSlope::WestSouthEast2 => {},
        TerrainSlope::SouthNorthEast2 => {},
        TerrainSlope::EastNorthWest2 => {},
        TerrainSlope::NorthSouthWest2 => {},
        TerrainSlope::NorthWest2East => {},
        TerrainSlope::SouthWest2NorthWest => {},
        TerrainSlope::SouthEast2West => {},
        TerrainSlope::NorthEast2SouthEast => {},
        TerrainSlope::WestNorthEast2 => {},
        TerrainSlope::SouthNorthWest2 => {},
        TerrainSlope::EastSouthWest2 => {},
        TerrainSlope::NorthSouthEast2 => {},
    }
}

proof fn lemma_south_east_table_meets(s: TerrainSlope)
    requires
        s != TerrainSlope::Undetermined,
    ensures
        forall|i: int|
            0 <= i < south_east_neighbor_table(s).len() ==> neighbor_meets(Compass::SouthEast, s, #[trigger] south_east_neighbor_table(s)[i]),
{
    reveal(raise_pattern);
    match s {
        TerrainSlope::Undetermined => {},
        TerrainSlope::Flat => {},
        TerrainSlope::South => {},
        TerrainSlope::North => {},
        TerrainSlope::West => {},
        TerrainSlope::East => {},
        TerrainSlope::NorthWest => {},
        TerrainSlope::NorthEast => {},
        TerrainSlope::SouthWest => {},
        TerrainSlope::SouthEast => {},
        TerrainSlope::SouthNorthEast => {},
        TerrainSlope::SouthNorthWest => {},
        TerrainSlope::NorthSouthWest => {},
        TerrainSlope::NorthSouthEast => {},
        TerrainSlope::All => {},
        TerrainSlope::VertialCliff => {},
        TerrainSlope::NorthWestEast2SouthEast => {},
        TerrainSlope::NorthEastWest2SouthWest => {},
        TerrainSlope::SouthWestEast2NorthEast => {},
        TerrainSlope::SouthEastWest2NorthWest => {},
        TerrainSlope::South2NorthEast => {},
        TerrainSlope::East2NorthWest => {},
        TerrainSlope::North2SouthWest => {},
        TerrainSlope::West2SouthEast => {},
        TerrainSlope::South2NorthWest => {},
        TerrainSlope::East2SouthWest => {},
        TerrainSlope::North2SouthEast => {},
        TerrainSlope::West2NorthEast => {},
        TerrainSlope::WestSouthEast2 => {},
        TerrainSlope::SouthNorthEast2 => {},
        TerrainSlope::EastNorthWest2 => {},
        TerrainSlope::NorthSouthWest2 => {},
        TerrainSlope::NorthWest2East => {},
        TerrainSlope::SouthWest2NorthWest => {},
        TerrainSlope::SouthEast2West => {},
        TerrainSlope::NorthEast2SouthEast => {},
        TerrainSlope::WestNorthEast2 => {},
        TerrainSlope::SouthNorthWest2 => {},
        TerrainSlope::EastSouthWest2 => {},
        TerrainSlope::NorthSouthEast2 => {},
    }
}

proof fn lemma_south_west_table_meets(s: TerrainSlope)
    requires
        s != TerrainSlope::Undetermined,
    ensures
        forall|i: int|
            0 <= i < south_west_neighbor_table(s).len() ==> neighbor_meets(Compass::SouthWest, s, #[trigger] south_west_neighbor_table(s)[i]),
{
    reveal(raise_pattern);
    match s {
        TerrainSlope::Undetermined => {},
        TerrainSlope::Flat => {},
        TerrainSlope::South => {},
        TerrainSlope::North => {},
        TerrainSlope::West => {},
        TerrainSlope::East => {},
        TerrainSlope::NorthWest => {},
        TerrainSlope::NorthEast => {},
        TerrainSlope::SouthWest => {},
        TerrainSlope::SouthEast => {},
        TerrainSlope::SouthNorthEast => {},
        TerrainSlope::SouthNorthWest => {},
        TerrainSlope::NorthSouthWest => {},
        TerrainSlope::NorthSouthEast => {},
        TerrainSlope::All => {},
        TerrainSlope::VertialCliff => {},
        TerrainSlope::NorthWestEast2SouthEast => {},
        TerrainSlope::NorthEastWest2SouthWest => {},
        TerrainSlope::SouthWestEast2NorthEast => {},
        TerrainSlope::SouthEastWest2NorthWest => {},
        TerrainSlope::South2NorthEast => {},
        TerrainSlope::East2NorthWest => {},
        TerrainSlope::North2SouthWest => {},
        TerrainSlope::West2SouthEast => {},
        TerrainSlope::South2NorthWest => {},
        TerrainSlope::East2SouthWest => {},
        TerrainSlope::North2SouthEast => {},
        TerrainSlope::West2NorthEast => {},
        TerrainSlope::WestSouthEast2 => {},
        TerrainSlope::SouthNorthEast2 => {},
        TerrainSlope::EastNorthWest2 => {},
        TerrainSlope::NorthSouthWest2 => {},
        TerrainSlope::NorthWest2East => {},
        TerrainSlope::SouthWest2NorthWest => {},
        TerrainSlope::SouthEast2West => {},
        TerrainSlope::NorthEast2SouthEast => {},
        TerrainSlope::WestNorthEast2 => {},
        TerrainSlope::SouthNorthWest2 => {},
        TerrainSlope::EastSouthWest2 => {},
        TerrainSlope::NorthSouthEast2 => {},
    }
}

/// Every table entry meets the tile it borders: each corner that a neighbor shares with a
/// tile of a determined slope stands at the same height on both, counting the neighbor's
/// altitude offset.
pub proof fn lemma_tables_meet(side: Compass, s: TerrainSlope)
    requires
        s != TerrainSlope::Undetermined,
    ensures
        forall|i: int|
            0 <= i < side_table(side, s).len() ==> neighbor_meets(side, s, #[trigger] side_table(side, s)[i]),
{
    match side {
        Compass::North => lemma_north_table_meets(s),
        Compass::South => lemma_south_table_meets(s),
        Compass::West => lemma_west_table_meets(s),
        Compass::East => lemma_east_table_meets(s),
        Compass::NorthWest => lemma_north_west_table_meets(s),
        Compass::NorthEast => lemma_north_east_table_meets(s),
        Compass::SouthEast => lemma_south_east_table_meets(s),
        Compass::SouthWest => lemma_south_west_table_meets(s),
    }
}

/// A slope of the ground as a city file stores it: a stored kind other than the waterfall.
pub open spec fn is_ground_slope(s: TerrainSlope) -> bool {
    is_stored_kind(s) && s != TerrainSlope::VertialCliff
}

proof fn lemma_north_table_complete(s: TerrainSlope, y: TerrainSlope, k: i8)
    requires
        is_ground_slope(s),
        is_ground_slope(y),
        neighbor_meets(Compass::North, s, (y, k)),
    ensures
        north_neighbor_table(s).contains((y, k)),
{
    reveal(raise_pattern);
    let t = north_neighbor_table(s);
    match s {
        TerrainSlope::Flat => {
            assert(t[0] == (TerrainSlope::Flat, 0i8));
            assert(t[1] == (TerrainSlope::North, 0i8));
            assert(t[5] == (TerrainSlope::South, -1i8));
            assert(t[7] == (TerrainSlope::SouthNorthEast, -1i8));
            assert(t[6] == (TerrainSlope::SouthNorthWest, -1i8));
            assert(t[3] == (TerrainSlope::NorthEast, 0i8));
            assert(t[2] == (TerrainSlope::NorthWest, 0i8));
            assert(t[8] == (TerrainSlope::All, -1i8));
        },
        TerrainSlope::North => {
            assert(t[4] == (TerrainSlope::Flat, 1i8));
            assert(t[5] == (TerrainSlope::North, 1i8));
            assert(t[1] == (TerrainSlope::South, 0i8));
            assert(t[2] == (TerrainSlope::SouthNorthEast, 0i8));
            assert(t[3] == (TerrainSlope::SouthNorthWest, 0i8));
            assert(t[7] == (TerrainSlope::NorthEast, 1i8));
            assert(t[6] == (TerrainSlope::NorthWest, 1i8));
            assert(t[0] == (TerrainSlope::All, 0i8));
        },
        TerrainSlope::East => {
            assert(t[1] == (TerrainSlope::East, 0i8));
            assert(t[2] == (TerrainSlope::NorthSouthEast, 0i8));
            assert(t[0] == (TerrainSlope::SouthEast, 0i8));
        },
        TerrainSlope::South => {
            assert(t[0] == (TerrainSlope::Flat, 0i8));
            assert(t[1] == (TerrainSlope::North, 0i8));
            assert(t[5] == (TerrainSlope::South, -1i8));
            assert(t[7] == (TerrainSlope::SouthNorthEast, -1i8));
            assert(t[6] == (TerrainSlope::SouthNorthWest, -1i8));
            assert(t[3] == (TerrainSlope::NorthEast, 0i8));
            assert(t[2] == (TerrainSlope::NorthWest, 0i8));
            assert(t[8] == (TerrainSlope::All, -1i8));
        },
        TerrainSlope::West => {
            assert(t[1] == (TerrainSlope::West, 0i8));
            assert(t[2] == (TerrainSlope::NorthSouthWest, 0i8));
            assert(t[0] == (TerrainSlope::SouthWest, 0i8));
        },
        TerrainSlope::NorthSouthEast => {
            assert(t[4] == (TerrainSlope::Flat, 1i8));
            assert(t[5] == (TerrainSlope::North, 1i8));
            assert(t[1] == (TerrainSlope::South, 0i8));
            assert(t[2] == (TerrainSlope::SouthNorthEast, 0i8));
            assert(t[3] == (TerrainSlope::SouthNorthWest, 0i8));
            assert(t[7] == (TerrainSlope::NorthEast, 1i8));
            assert(t[6] == (TerrainSlope::NorthWest, 1i8));
            assert(t[0] == (TerrainSlope::All, 0i8));
        },
        TerrainSlope::SouthNorthEast => {
            assert(t[1] == (TerrainSlope::East, 0i8));
            assert(t[2] == (TerrainSlope::NorthSouthEast, 0i8));
            assert(t[0] == (TerrainSlope::SouthEast, 0i8));
        },
        TerrainSlope::SouthNorthWest => {
            assert(t[1] == (TerrainSlope::West, 0i8));
            assert(t[2] == (TerrainSlope::NorthSouthWest, 0i8));
            assert(t[0] == (TerrainSlope::SouthWest, 0i8));
        },
        TerrainSlope::NorthSouthWest => {
            assert(t[4] == (TerrainSlope::Flat, 1i8));
            assert(t[5] == (TerrainSlope::North, 1i8));
            assert(t[1] == (TerrainSlope::South, 0i8));
            assert(t[2] == (TerrainSlope::SouthNorthEast, 0i8));
            assert(t[3] == (TerrainSlope::SouthNorthWest, 0i8));
            assert(t[7] == (TerrainSlope::NorthEast, 1i8));
            assert(t[6] == (TerrainSlope::NorthWest, 1i8));
            assert(t[0] == (TerrainSlope::All, 0i8));
        },
        TerrainSlope::NorthEast => {
            assert(t[1] == (TerrainSlope::East, 0i8));
            assert(t[2] == (TerrainSlope::NorthSouthEast, 0i8));
            assert(t[0] == (TerrainSlope::SouthEast, 0i8));
        },
        TerrainSlope::SouthEast => {
            assert(t[0] == (TerrainSlope::Flat, 0i8));
            assert(t[1] == (TerrainSlope::North, 0i8));
            assert(t[5] == (TerrainSlope::South, -1i8));
            assert(t[7] == (TerrainSlope::SouthNorthEast, -1i8));
            assert(t[6] == (TerrainSlope::SouthNorthWest, -1i8));
            assert(t[3] == (TerrainSlope::NorthEast, 0i8));
            assert(t[2] == (TerrainSlope::NorthWest, 0i8));
            assert(t[8] == (TerrainSlope::All, -1i8));
        },
        TerrainSlope::SouthWest => {
            assert(t[0] == (TerrainSlope::Flat, 0i8));
            assert(t[1] == (TerrainSlope::North, 0i8));
            assert(t[5] == (TerrainSlope::South, -1i8));
            assert(t[7] == (TerrainSlope::SouthNorthEast, -1i8));
            assert(t[6] == (TerrainSlope::SouthNorthWest, -1i8));
            assert(t[3] == (TerrainSlope::NorthEast, 0i8));
            assert(t[2] == (TerrainSlope::NorthWest, 0i8));
            assert(t[8] == (TerrainSlope::All, -1i8));
        },
        TerrainSlope::NorthWest => {
            assert(t[1] == (TerrainSlope::West, 0i8));
            assert(t[2] == (TerrainSlope::NorthSouthWest, 0i8));
            assert(t[0] == (TerrainSlope::SouthWest, 0i8));
        },
        TerrainSlope::All => {
            assert(t[4] == (TerrainSlope::Flat, 1i8));
            assert(t[5] == (TerrainSlope::North, 1i8));
            assert(t[1] == (TerrainSlope::South, 0i8));
            assert(t[2] == (TerrainSlope::SouthNorthEast, 0i8));
            assert(t[3] == (TerrainSlope::SouthNorthWest, 0i8));
            assert(t[7] == (TerrainSlope::NorthEast, 1i8));
            assert(t[6] == (TerrainSlope::NorthWest, 1i8));
            assert(t[0] == (TerrainSlope::All, 0i8));
        },
        _ => {},
    }
}

proof fn lemma_south_table_complete(s: TerrainSlope, y: TerrainSlope, k: i8)
    requires
        is_ground_slope(s),
        is_ground_slope(y),
        neighbor_meets(Compass::South, s, (y, k)),
    ensures
        south_neighbor_table(s).contains((y, k)),
{
    reveal(raise_pattern);
    let t = south_neighbor_table(s);
    match s {
        TerrainSlope::Flat => {
            assert(t[0] == (TerrainSlope::Flat, 0i8));
            assert(t[5] == (TerrainSlope::North, -1i8));
            assert(t[1] == (TerrainSlope::South, 0i8));
            assert(t[7] == (TerrainSlope::NorthSouthEast, -1i8));
            assert(t[6] == (TerrainSlope::NorthSouthWest, -1i8));
            assert(t[3] == (TerrainSlope::SouthEast, 0i8));
            assert(t[2] == (TerrainSlope::SouthWest, 0i8));
            assert(t[4] == (TerrainSlope::All, -1i8));
        },
        TerrainSlope::North => {
            assert(t[0] == (TerrainSlope::Flat, 0i8));
            assert(t[5] == (TerrainSlope::North, -1i8));
            assert(t[1] == (TerrainSlope::South, 0i8));
            assert(t[7] == (TerrainSlope::NorthSouthEast, -1i8));
            assert(t[6] == (TerrainSlope::NorthSouthWest, -1i8));
            assert(t[3] == (TerrainSlope::SouthEast, 0i8));
            assert(t[2] == (TerrainSlope::SouthWest, 0i8));
            assert(t[4] == (TerrainSlope::All, -1i8));
        },
        TerrainSlope::East => {
            assert(t[1] == (TerrainSlope::East, 0i8));
            assert(t[2] == (TerrainSlope::SouthNorthEast, 0i8));
            assert(t[0] == (TerrainSlope::NorthEast, 0i8));
        },
        TerrainSlope::South => {
            assert(t[4] == (TerrainSlope::Flat, 1i8));
            assert(t[1] == (TerrainSlope::North, 0i8));
            assert(t[5] == (TerrainSlope::South, 1i8));
            assert(t[3] == (TerrainSlope::NorthSouthEast, 0i8));
            assert(t[2] == (TerrainSlope::NorthSouthWest, 0i8));
            assert(t[7] == (TerrainSlope::SouthEast, 1i8));
            assert(t[6] == (TerrainSlope::SouthWest, 1i8));
            assert(t[0] == (TerrainSlope::All, 0i8));
        },
        TerrainSlope::West => {
            assert(t[1] == (TerrainSlope::West, 0i8));
            assert(t[2] == (TerrainSlope::SouthNorthWest, 0i8));
            assert(t[0] == (TerrainSlope::NorthWest, 0i8));
        },
        TerrainSlope::NorthSouthEast => {
            assert(t[1] == (TerrainSlope::East, 0i8));
            assert(t[2] == (TerrainSlope::SouthNorthEast, 0i8));
            assert(t[0] == (TerrainSlope::NorthEast, 0i8));
        },
        TerrainSlope::SouthNorthEast => {
            assert(t[4] == (TerrainSlope::Flat, 1i8));
            assert(t[1] == (TerrainSlope::North, 0i8));
            assert(t[5] == (TerrainSlope::South, 1i8));
            assert(t[3] == (TerrainSlope::NorthSouthEast, 0i8));
            assert(t[2] == (TerrainSlope::NorthSouthWest, 0i8));
            assert(t[7] == (TerrainSlope::SouthEast, 1i8));
            assert(t[6] == (TerrainSlope::SouthWest, 1i8));
            assert(t[0] == (TerrainSlope::All, 0i8));
        },
        TerrainSlope::SouthNorthWest => {
            assert(t[4] == (TerrainSlope::Flat, 1i8));
            assert(t[1] == (TerrainSlope::North, 0i8));
            assert(t[5] == (TerrainSlope::South, 1i8));
            assert(t[3] == (TerrainSlope::NorthSouthEast, 0i8));
            assert(t[2] == (TerrainSlope::NorthSouthWest, 0i8));
            assert(t[7] == (TerrainSlope::SouthEast, 1i8));
            assert(t[6] == (TerrainSlope::SouthWest, 1i8));
            assert(t[0] == (TerrainSlope::All, 0i8));
        },
        TerrainSlope::NorthSouthWest => {
            assert(t[1] == (TerrainSlope::West, 0i8));
            assert(t[2] == (TerrainSlope::SouthNorthWest, 0i8));
            assert(t[0] == (TerrainSlope::NorthWest, 0i8));
        },
        TerrainSlope::NorthEast => {
            assert(t[0] == (TerrainSlope::Flat, 0i8));
            assert(t[5] == (TerrainSlope::North, -1i8));
            assert(t[1] == (TerrainSlope::South, 0i8));
            assert(t[7] == (TerrainSlope::NorthSouthEast, -1i8));
            assert(t[6] == (TerrainSlope::NorthSouthWest, -1i8));
            assert(t[3] == (TerrainSlope::SouthEast, 0i8));
            assert(t[2] == (TerrainSlope::SouthWest, 0i8));
            assert(t[4] == (TerrainSlope::All, -1i8));
        },
        TerrainSlope::SouthEast => {
            assert(t[1] == (TerrainSlope::East, 0i8));
            assert(t[2] == (TerrainSlope::SouthNorthEast, 0i8));
            assert(t[0] == (TerrainSlope::NorthEast, 0i8));
        },
        TerrainSlope::SouthWest => {
            assert(t[1] == (TerrainSlope::West, 0i8));
            assert(t[2] == (TerrainSlope::SouthNorthWest, 0i8));
            assert(t[0] == (TerrainSlope::NorthWest, 0i8));
        },
        TerrainSlope::NorthWest => {
            assert(t[0] == (TerrainSlope::Flat, 0i8));
            assert(t[5] == (TerrainSlope::North, -1i8));
            assert(t[1] == (TerrainSlope::South, 0i8));
            assert(t[7] == (TerrainSlope::NorthSouthEast, -1i8));
            assert(t[6] == (TerrainSlope::NorthSouthWest, -1i8));
            assert(t[3] == (TerrainSlope::SouthEast, 0i8));
            assert(t[2] == (TerrainSlope::SouthWest, 0i8));
            assert(t[4] == (TerrainSlope::All, -1i8));
        },
        TerrainSlope::All => {
            assert(t[4] == (TerrainSlope::Flat, 1i8));
            assert(t[1] == (TerrainSlope::North, 0i8));
            assert(t[5] == (TerrainSlope::South, 1i8));
            assert(t[3] == (TerrainSlope::NorthSouthEast, 0i8));
            assert(t[2] == (TerrainSlope::NorthSouthWest, 0i8));
            assert(t[7] == (TerrainSlope::SouthEast, 1i8));
            assert(t[6] == (TerrainSlope::SouthWest, 1i8));
            assert(t[0] == (TerrainSlope::All, 0i8));
        },
        _ => {},
    }
}

proof fn lemma_west_table_complete(s: TerrainSlope, y: TerrainSlope, k: i8)
    requires
        is_ground_slope(s),
        is_ground_slope(y),
        neighbor_meets(Compass::West, s, (y, k)),
    ensures
        west_neighbor_table(s).contains((y, k)),
{
    reveal(raise_pattern);
    let t = west_neighbor_table(s);
    match s {
        TerrainSlope::Flat => {
            assert(t[0] == (TerrainSlope::Flat, 0i8));
            assert(t[5] == (TerrainSlope::East, -1i8));
            assert(t[1] == (TerrainSlope::West, 0i8));
            assert(t[7] == (TerrainSlope::NorthSouthEast, -1i8));
            assert(t[6] == (TerrainSlope::SouthNorthEast, -1i8));
            assert(t[2] == (TerrainSlope::SouthWest, 0i8));
            assert(t[3] == (TerrainSlope::NorthWest, 0i8));
            assert(t[4] == (TerrainSlope::All, -1i8));
        },
        TerrainSlope::North => {
            assert(t[2] == (TerrainSlope::North, 0i8));
            assert(t[3] == (TerrainSlope::NorthSouthWest, 0i8));
            assert(t[0] == (TerrainSlope::NorthEast, 0i8));
        },
        TerrainSlope::East => {
            assert(t[0] == (TerrainSlope::Flat, 0i8));
            assert(t[5] == (TerrainSlope::East, -1i8));
            assert(t[1] == (TerrainSlope::West, 0i8));
            assert(t[7] == (TerrainSlope::NorthSouthEast, -1i8));
            assert(t[6] == (TerrainSlope::SouthNorthEast, -1i8));
            assert(t[2] == (TerrainSlope::SouthWest, 0i8));
            assert(t[3] == (TerrainSlope::NorthWest, 0i8));
            assert(t[4] == (TerrainSlope::All, -1i8));
        },
        TerrainSlope::South => {
            assert(t[1] == (TerrainSlope::South, 0i8));
            assert(t[2] == (TerrainSlope::SouthNorthWest, 0i8));
            assert(t[0] == (TerrainSlope::SouthEast, 0i8));
        },
        TerrainSlope::West => {
            assert(t[4] == (TerrainSlope::Flat, 1i8));
            assert(t[1] == (TerrainSlope::East, 0i8));
            assert(t[5] == (TerrainSlope::West, 1i8));
            assert(t[3] == (TerrainSlope::NorthSouthEast, 0i8));
            assert(t[2] == (TerrainSlope::SouthNorthEast, 0i8));
            assert(t[7] == (TerrainSlope::SouthWest, 1i8));
            assert(t[6] == (TerrainSlope::NorthWest, 1i8));
            assert(t[0] == (TerrainSlope::All, 0i8));
        },
        TerrainSlope::NorthSouthEast => {
            assert(t[2] == (TerrainSlope::North, 0i8));
            assert(t[3] == (TerrainSlope::NorthSouthWest, 0i8));
            assert(t[0] == (TerrainSlope::NorthEast, 0i8));
        },
        TerrainSlope::SouthNorthEast => {
            assert(t[1] == (TerrainSlope::South, 0i8));
            assert(t[2] == (TerrainSlope::SouthNorthWest, 0i8));
            assert(t[0] == (TerrainSlope::SouthEast, 0i8));
        },
        TerrainSlope::SouthNorthWest => {
            assert(t[4] == (TerrainSlope::Flat, 1i8));
            assert(t[1] == (TerrainSlope::East, 0i8));
            assert(t[5] == (TerrainSlope::West, 1i8));
            assert(t[3] == (TerrainSlope::NorthSouthEast, 0i8));
            assert(t[2] == (TerrainSlope::SouthNorthEast, 0i8));
            assert(t[7] == (TerrainSlope::SouthWest, 1i8));
            assert(t[6] == (TerrainSlope::NorthWest, 1i8));
            assert(t[0] == (TerrainSlope::All, 0i8));
        },
        TerrainSlope::NorthSouthWest => {
            assert(t[4] == (TerrainSlope::Flat, 1i8));
            assert(t[1] == (TerrainSlope::East, 0i8));
            assert(t[5] == (TerrainSlope::West, 1i8));
            assert(t[3] == (TerrainSlope::NorthSouthEast, 0i8));
            assert(t[2] == (TerrainSlope::SouthNorthEast, 0i8));
            assert(t[7] == (TerrainSlope::SouthWest, 1i8));
            assert(t[6] == (TerrainSlope::NorthWest, 1i8));
            assert(t[0] == (TerrainSlope::All, 0i8));
        },
        TerrainSlope::NorthEast => {
            assert(t[0] == (TerrainSlope::Flat, 0i8));
            assert(t[5] == (TerrainSlope::East, -1i8));
            assert(t[1] == (TerrainSlope::West, 0i8));
            assert(t[7] == (TerrainSlope::NorthSouthEast, -1i8));
            assert(t[6] == (TerrainSlope::SouthNorthEast, -1i8));
            assert(t[2] == (TerrainSlope::SouthWest, 0i8));
            assert(t[3] == (TerrainSlope::NorthWest, 0i8));
            assert(t[4] == (TerrainSlope::All, -1i8));
        },
        TerrainSlope::SouthEast => {
            assert(t[0] == (TerrainSlope::Flat, 0i8));
            assert(t[5] == (TerrainSlope::East, -1i8));
            assert(t[1] == (TerrainSlope::West, 0i8));
            assert(t[7] == (TerrainSlope::NorthSouthEast, -1i8));
            assert(t[6] == (TerrainSlope::SouthNorthEast, -1i8));
            assert(t[2] == (TerrainSlope::SouthWest, 0i8));
            assert(t[3] == (TerrainSlope::NorthWest, 0i8));
            assert(t[4] == (TerrainSlope::All, -1i8));
        },
        TerrainSlope::SouthWest => {
            assert(t[1] == (TerrainSlope::South, 0i8));
            assert(t[2] == (TerrainSlope::SouthNorthWest, 0i8));
            assert(t[0] == (TerrainSlope::SouthEast, 0i8));
        },
        TerrainSlope::NorthWest => {
            assert(t[2] == (TerrainSlope::North, 0i8));
            assert(t[3] == (TerrainSlope::NorthSouthWest, 0i8));
            assert(t[0] == (TerrainSlope::NorthEast, 0i8));
        },
        TerrainSlope::All => {
            assert(t[4] == (TerrainSlope::Flat, 1i8));
            assert(t[1] == (TerrainSlope::East, 0i8));
            assert(t[5] == (TerrainSlope::West, 1i8));
            assert(t[3] == (TerrainSlope::NorthSouthEast, 0i8));
            assert(t[2] == (TerrainSlope::SouthNorthEast, 0i8));
            assert(t[7] == (TerrainSlope::SouthWest, 1i8));
            assert(t[6] == (TerrainSlope::NorthWest, 1i8));
            assert(t[0] == (TerrainSlope::All, 0i8));
        },
        _ => {},
    }
}

proof fn lemma_east_table_complete(s: TerrainSlope, y: TerrainSlope, k: i8)
    requires
        is_ground_slope(s),
        is_ground_slope(y),
        neighbor_meets(Compass::East, s, (y, k)),
    ensures
        east_neighbor_table(s).contains((y, k)),
{
    reveal(raise_pattern);
    let t = east_neighbor_table(s);
    match s {
        TerrainSlope::Flat => {
            assert(t[0] == (TerrainSlope::Flat, 0i8));
            assert(t[1] == (TerrainSlope::East, 0i8));
            assert(t[5] == (TerrainSlope::West, -1i8));
            assert(t[6] == (TerrainSlope::SouthNorthWest, -1i8));
            assert(t[7] == (TerrainSlope::NorthSouthWest, -1i8));
            assert(t[2] == (TerrainSlope::NorthEast, 0i8));
            assert(t[3] == (TerrainSlope::SouthEast, 0i8));
            assert(t[4] == (TerrainSlope::All, -1i8));
        },
        TerrainSlope::North => {
            assert(t[1] == (TerrainSlope::North, 0i8));
            assert(t[2] == (TerrainSlope::NorthSouthEast, 0i8));
            assert(t[0] == (TerrainSlope::NorthWest, 0i8));
        },
        TerrainSlope::East => {
            assert(t[5] == (TerrainSlope::Flat, 1i8));
            assert(t[6] == (TerrainSlope::East, 1i8));
            assert(t[1] == (TerrainSlope::West, 0i8));
            assert(t[2] == (TerrainSlope::SouthNorthWest, 0i8));
            assert(t[3] == (TerrainSlope::NorthSouthWest, 0i8));
            assert(t[7] == (TerrainSlope::NorthEast, 1i8));
            assert(t[8] == (TerrainSlope::SouthEast, 1i8));
            assert(t[0] == (TerrainSlope::All, 0i8));
        },
        TerrainSlope::South => {
            assert(t[1] == (TerrainSlope::South, 0i8));
            assert(t[2] == (TerrainSlope::SouthNorthEast, 0i8));
            assert(t[0] == (TerrainSlope::SouthWest, 0i8));
        },
        TerrainSlope::West => {
            assert(t[0] == (TerrainSlope::Flat, 0i8));
            assert(t[1] == (TerrainSlope::East, 0i8));
            assert(t[5] == (TerrainSlope::West, -1i8));
            assert(t[6] == (TerrainSlope::SouthNorthWest, -1i8));
            assert(t[7] == (TerrainSlope::NorthSouthWest, -1i8));
            assert(t[2] == (TerrainSlope::NorthEast, 0i8));
            assert(t[3] == (TerrainSlope::SouthEast, 0i8));
            assert(t[4] == (TerrainSlope::All, -1i8));
        },
        TerrainSlope::NorthSouthEast => {
            assert(t[5] == (TerrainSlope::Flat, 1i8));
            assert(t[6] == (TerrainSlope::East, 1i8));
            assert(t[1] == (TerrainSlope::West, 0i8));
            assert(t[2] == (TerrainSlope::SouthNorthWest, 0i8));
            assert(t[3] == (TerrainSlope::NorthSouthWest, 0i8));
            assert(t[7] == (TerrainSlope::NorthEast, 1i8));
            assert(t[8] == (TerrainSlope::SouthEast, 1i8));
            assert(t[0] == (TerrainSlope::All, 0i8));
        },
        TerrainSlope::SouthNorthEast => {
            assert(t[5] == (TerrainSlope::Flat, 1i8));
            assert(t[6] == (TerrainSlope::East, 1i8));
            assert(t[1] == (TerrainSlope::West, 0i8));
            assert(t[2] == (TerrainSlope::SouthNorthWest, 0i8));
            assert(t[3] == (TerrainSlope::NorthSouthWest, 0i8));
            assert(t[7] == (TerrainSlope::NorthEast, 1i8));
            assert(t[8] == (TerrainSlope::SouthEast, 1i8));
            assert(t[0] == (TerrainSlope::All, 0i8));
        },
        TerrainSlope::SouthNorthWest => {
            assert(t[1] == (TerrainSlope::South, 0i8));
            assert(t[2] == (TerrainSlope::SouthNorthEast, 0i8));
            assert(t[0] == (TerrainSlope::SouthWest, 0i8));
        },
        TerrainSlope::NorthSouthWest => {
            assert(t[1] == (TerrainSlope::North, 0i8));
            assert(t[2] == (TerrainSlope::NorthSouthEast, 0i8));
            assert(t[0] == (TerrainSlope::NorthWest, 0i8));
        },
        TerrainSlope::NorthEast => {
            assert(t[1] == (TerrainSlope::North, 0i8));
            assert(t[2] == (TerrainSlope::NorthSouthEast, 0i8));
            assert(t[0] == (TerrainSlope::NorthWest, 0i8));
        },
        TerrainSlope::SouthEast => {
            assert(t[1] == (TerrainSlope::South, 0i8));
            assert(t[2] == (TerrainSlope::SouthNorthEast, 0i8));
            assert(t[0] == (TerrainSlope::SouthWest, 0i8));
        },
        TerrainSlope::SouthWest => {
            assert(t[0] == (TerrainSlope::Flat, 0i8));
            assert(t[1] == (TerrainSlope::East, 0i8));
            assert(t[5] == (TerrainSlope::West, -1i8));
            assert(t[6] == (TerrainSlope::SouthNorthWest, -1i8));
            assert(t[7] == (TerrainSlope::NorthSouthWest, -1i8));
            assert(t[2] == (TerrainSlope::NorthEast, 0i8));
            assert(t[3] == (TerrainSlope::SouthEast, 0i8));
            assert(t[4] == (TerrainSlope::All, -1i8));
        },
        TerrainSlope::NorthWest => {
            assert(t[0] == (TerrainSlope::Flat, 0i8));
            assert(t[1] == (TerrainSlope::East, 0i8));
            assert(t[5] == (TerrainSlope::West, -1i8));
            assert(t[6] == (TerrainSlope::SouthNorthWest, -1i8));
            assert(t[7] == (TerrainSlope::NorthSouthWest, -1i8));
            assert(t[2] == (TerrainSlope::NorthEast, 0i8));
            assert(t[3] == (TerrainSlope::SouthEast, 0i8));
            assert(t[4] == (TerrainSlope::All, -1i8));
        },
        TerrainSlope::All => {
            assert(t[5] == (TerrainSlope::Flat, 1i8));
            assert(t[6] == (TerrainSlope::East, 1i8));
            assert(t[1] == (TerrainSlope::West, 0i8));
            assert(t[2] == (TerrainSlope::SouthNorthWest, 0i8));
            assert(t[3] == (TerrainSlope::NorthSouthWest, 0i8));
            assert(t[7] == (TerrainSlope::NorthEast, 1i8));
            assert(t[8] == (TerrainSlope::SouthEast, 1i8));
            assert(t[0] == (TerrainSlope::All, 0i8));
        },
        _ => {},
    }
}

proof fn lemma_north_west_table_complete(s: TerrainSlope, y: TerrainSlope, k: i8)
    requires
        is_ground_slope(s),
        is_ground_slope(y),
        neighbor_meets(Compass::NorthWest, s, (y, k)),
    ensures
        north_west_neighbor_table(s).contains((y, k)),
{
    reveal(raise_pattern);
    let t = north_west_neighbor_table(s);
    match s {
        TerrainSlope::Flat => {
            assert(t[0] == (TerrainSlope::Flat, 0i8));
            assert(t[1] == (TerrainSlope::North, 0i8));
            assert(t[17] == (TerrainSlope::East, -1i8));
            assert(t[12] == (TerrainSlope::South, -1i8));
            assert(t[6] == (TerrainSlope::West, 0i8));
            assert(t[16] == (TerrainSlope::NorthSouthEast, -1i8));
            assert(t[14] == (TerrainSlope::SouthNorthEast, -1i8));
            assert(t[13] == (TerrainSlope::SouthNorthWest, -1i8));
            assert(t[5] == (TerrainSlope::NorthSouthWest, 0i8));
            assert(t[3] == (TerrainSlope::NorthEast, 0i8));
            assert(t[15] == (TerrainSlope::SouthEast, -1i8));
            assert(t[7] == (TerrainSlope::SouthWest, 0i8));
            assert(t[2] == (TerrainSlope::NorthWest, 0i8));
            assert(t[11] == (TerrainSlope::All, -1i8));
        },
        TerrainSlope::North => {
            assert(t[10] == (TerrainSlope::Flat, 1i8));
            assert(t[11] == (TerrainSlope::North, 1i8));
            assert(t[1] == (TerrainSlope::East, 0i8));
            assert(t[2] == (TerrainSlope::South, 0i8));
            assert(t[16] == (TerrainSlope::West, 1i8));
            assert(t[4] == (TerrainSlope::NorthSouthEast, 0i8));
            assert(t[5] == (TerrainSlope::SouthNorthEast, 0i8));
            assert(t[6] == (TerrainSlope::SouthNorthWest, 0i8));
            assert(t[14] == (TerrainSlope::NorthSouthWest, 1i8));
            assert(t[13] == (TerrainSlope::NorthEast, 1i8));
            assert(t[3] == (TerrainSlope::SouthEast, 0i8));
            assert(t[15] == (TerrainSlope::SouthWest, 1i8));
            assert(t[12] == (TerrainSlope::NorthWest, 1i8));
            assert(t[0] == (TerrainSlope::All, 0i8));
        },
        TerrainSlope::East => {
            assert(t[0] == (TerrainSlope::Flat, 0i8));
            assert(t[1] == (TerrainSlope::North, 0i8));
            assert(t[17] == (TerrainSlope::East, -1i8));
            assert(t[12] == (TerrainSlope::South, -1i8));
            assert(t[6] == (TerrainSlope::West, 0i8));
            assert(t[16] == (TerrainSlope::NorthSouthEast, -1i8));
            assert(t[14] == (TerrainSlope::SouthNorthEast, -1i8));
            assert(t[13] == (TerrainSlope::SouthNorthWest, -1i8));
            assert(t[5] == (TerrainSlope::NorthSouthWest, 0i8));
            assert(t[3] == (TerrainSlope::NorthEast, 0i8));
            assert(t[15] == (TerrainSlope::SouthEast, -1i8));
            assert(t[7] == (TerrainSlope::SouthWest, 0i8));
            assert(t[2] == (TerrainSlope::NorthWest, 0i8));
            assert(t[11] == (TerrainSlope::All, -1i8));
        },
        TerrainSlope::South => {
            assert(t[0] == (TerrainSlope::Flat, 0i8));
            assert(t[1] == (TerrainSlope::North, 0i8));
            assert(t[17] == (TerrainSlope::East, -1i8));
            assert(t[12] == (TerrainSlope::South, -1i8));
            assert(t[6] == (TerrainSlope::West, 0i8));
            assert(t[16] == (TerrainSlope::NorthSouthEast, -1i8));
            assert(t[14] == (TerrainSlope::SouthNorthEast, -1i8));
            assert(t[13] == (TerrainSlope::SouthNorthWest, -1i8));
            assert(t[5] == (TerrainSlope::NorthSouthWest, 0i8));
            assert(t[3] == (TerrainSlope::NorthEast, 0i8));
            assert(t[15] == (TerrainSlope::SouthEast, -1i8));
            assert(t[7] == (TerrainSlope::SouthWest, 0i8));
            assert(t[2] == (TerrainSlope::NorthWest, 0i8));
            assert(t[11] == (TerrainSlope::All, -1i8));
        },
        TerrainSlope::West => {
            assert(t[10] == (TerrainSlope::Flat, 1i8));
            assert(t[11] == (TerrainSlope::North, 1i8));
            assert(t[1] == (TerrainSlope::East, 0i8));
            assert(t[2] == (TerrainSlope::South, 0i8));
            assert(t[16] == (TerrainSlope::West, 1i8));
            assert(t[4] == (TerrainSlope::NorthSouthEast, 0i8));
            assert(t[5] == (TerrainSlope::SouthNorthEast, 0i8));
            assert(t[6] == (TerrainSlope::SouthNorthWest, 0i8));
            assert(t[14] == (TerrainSlope::NorthSouthWest, 1i8));
            assert(t[13] == (TerrainSlope::NorthEast, 1i8));
            assert(t[3] == (TerrainSlope::SouthEast, 0i8));
            assert(t[15] == (TerrainSlope::SouthWest, 1i8));
            assert(t[12] == (TerrainSlope::NorthWest, 1i8));
            assert(t[0] == (TerrainSlope::All, 0i8));
        },
        TerrainSlope::NorthSouthEast => {
            assert(t[10] == (TerrainSlope::Flat, 1i8));
            assert(t[11] == (TerrainSlope::North, 1i8));
            assert(t[1] == (TerrainSlope::East, 0i8));
            assert(t[2] == (TerrainSlope::South, 0i8));
            assert(t[16] == (TerrainSlope::West, 1i8));
            assert(t[4] == (TerrainSlope::NorthSouthEast, 0i8));
            assert(t[5] == (TerrainSlope::SouthNorthEast, 0i8));
            assert(t[6] == (TerrainSlope::SouthNorthWest, 0i8));
            assert(t[14] == (TerrainSlope::NorthSouthWest, 1i8));
            assert(t[13] == (TerrainSlope::NorthEast, 1i8));
            assert(t[3] == (TerrainSlope::SouthEast, 0i8));
            assert(t[15] == (TerrainSlope::SouthWest, 1i8));
            assert(t[12] == (TerrainSlope::NorthWest, 1i8));
            assert(t[0] == (TerrainSlope::All, 0i8));
        },
        TerrainSlope::SouthNorthEast => {
            assert(t[0] == (TerrainSlope::Flat, 0i8));
            assert(t[1] == (TerrainSlope::North, 0i8));
            assert(t[17] == (TerrainSlope::East, -1i8));
            assert(t[12] == (TerrainSlope::South, -1i8));
            assert(t[6] == (TerrainSlope::West, 0i8));
            assert(t[16] == (TerrainSlope::NorthSouthEast, -1i8));
            assert(t[14] == (TerrainSlope::SouthNorthEast, -1i8));
            assert(t[13] == (TerrainSlope::SouthNorthWest, -1i8));
            assert(t[5] == (TerrainSlope::NorthSouthWest, 0i8));
            assert(t[3] == (TerrainSlope::NorthEast, 0i8));
            assert(t[15] == (TerrainSlope::SouthEast, -1i8));
            assert(t[7] == (TerrainSlope::SouthWest, 0i8));
            assert(t[2] == (TerrainSlope::NorthWest, 0i8));
            assert(t[11] == (TerrainSlope::All, -1i8));
        },
        TerrainSlope::SouthNorthWest => {
            assert(t[10] == (TerrainSlope::Flat, 1i8));
            assert(t[11] == (TerrainSlope::North, 1i8));
            assert(t[1] == (TerrainSlope::East, 0i8));
            assert(t[2] == (TerrainSlope::South, 0i8));
            assert(t[16] == (TerrainSlope::West, 1i8));
            assert(t[4] == (TerrainSlope::NorthSouthEast, 0i8));
            assert(t[5] == (TerrainSlope::SouthNorthEast, 0i8));
            assert(t[6] == (TerrainSlope::SouthNorthWest, 0i8));
            assert(t[14] == (TerrainSlope::NorthSouthWest, 1i8));
            assert(t[13] == (TerrainSlope::NorthEast, 1i8));
            assert(t[3] == (TerrainSlope::SouthEast, 0i8));
            assert(t[15] == (TerrainSlope::SouthWest, 1i8));
            assert(t[12] == (TerrainSlope::NorthWest, 1i8));
            assert(t[0] == (TerrainSlope::All, 0i8));
        },
        TerrainSlope::NorthSouthWest => {
            assert(t[10] == (TerrainSlope::Flat, 1i8));
            assert(t[11] == (TerrainSlope::North, 1i8));
            assert(t[1] == (TerrainSlope::East, 0i8));
            assert(t[2] == (TerrainSlope::South, 0i8));
            assert(t[16] == (TerrainSlope::West, 1i8));
            assert(t[4] == (TerrainSlope::NorthSouthEast, 0i8));
            assert(t[5] == (TerrainSlope::SouthNorthEast, 0i8));
            assert(t[6] == (TerrainSlope::SouthNorthWest, 0i8));
            assert(t[14] == (TerrainSlope::NorthSouthWest, 1i8));
            assert(t[13] == (TerrainSlope::NorthEast, 1i8));
            assert(t[3] == (TerrainSlope::SouthEast, 0i8));
            assert(t[15] == (TerrainSlope::SouthWest, 1i8));
            assert(t[12] == (TerrainSlope::NorthWest, 1i8));
            assert(t[0] == (TerrainSlope::All, 0i8));
        },
        TerrainSlope::NorthEast => {
            assert(t[0] == (TerrainSlope::Flat, 0i8));
            assert(t[1] == (TerrainSlope::North, 0i8));
            assert(t[17] == (TerrainSlope::East, -1i8));
            assert(t[12] == (TerrainSlope::South, -1i8));
            assert(t[6] == (TerrainSlope::West, 0i8));
            assert(t[16] == (TerrainSlope::NorthSouthEast, -1i8));
            assert(t[14] == (TerrainSlope::SouthNorthEast, -1i8));
            assert(t[13] == (TerrainSlope::SouthNorthWest, -1i8));
            assert(t[5] == (TerrainSlope::NorthSouthWest, 0i8));
            assert(t[3] == (TerrainSlope::NorthEast, 0i8));
            assert(t[15] == (TerrainSlope::SouthEast, -1i8));
            assert(t[7] == (TerrainSlope::SouthWest, 0i8));
            assert(t[2] == (TerrainSlope::NorthWest, 0i8));
            assert(t[11] == (TerrainSlope::All, -1i8));
        },
        TerrainSlope::SouthEast => {
            assert(t[0] == (TerrainSlope::Flat, 0i8));
            assert(t[1] == (TerrainSlope::North, 0i8));
            assert(t[17] == (TerrainSlope::East, -1i8));
            assert(t[12] == (TerrainSlope::South, -1i8));
            assert(t[6] == (TerrainSlope::West, 0i8));
            assert(t[16] == (TerrainSlope::NorthSouthEast, -1i8));
            assert(t[14] == (TerrainSlope::SouthNorthEast, -1i8));
            assert(t[13] == (TerrainSlope::SouthNorthWest, -1i8));
            assert(t[5] == (TerrainSlope::NorthSouthWest, 0i8));
            assert(t[3] == (TerrainSlope::NorthEast, 0i8));
            assert(t[15] == (TerrainSlope::SouthEast, -1i8));
            assert(t[7] == (TerrainSlope::SouthWest, 0i8));
            assert(t[2] == (TerrainSlope::NorthWest, 0i8));
            assert(t[11] == (TerrainSlope::All, -1i8));
        },
        TerrainSlope::SouthWest => {
            assert(t[0] == (TerrainSlope::Flat, 0i8));
            assert(t[1] == (TerrainSlope::North, 0i8));
            assert(t[17] == (TerrainSlope::East, -1i8));
            assert(t[12] == (TerrainSlope::South, -1i8));
            assert(t[6] == (TerrainSlope::West, 0i8));
            assert(t[16] == (TerrainSlope::NorthSouthEast, -1i8));
            assert(t[14] == (TerrainSlope::SouthNorthEast, -1i8));
            assert(t[13] == (TerrainSlope::SouthNorthWest, -1i8));
            assert(t[5] == (TerrainSlope::NorthSouthWest, 0i8));
            assert(t[3] == (TerrainSlope::NorthEast, 0i8));
            assert(t[15] == (TerrainSlope::SouthEast, -1i8));
            assert(t[7] == (TerrainSlope::SouthWest, 0i8));
            assert(t[2] == (TerrainSlope::NorthWest, 0i8));
            assert(t[11] == (TerrainSlope::All, -1i8));
        },
        TerrainSlope::NorthWest => {
            assert(t[10] == (TerrainSlope::Flat, 1i8));
            assert(t[11] == (TerrainSlope::North, 1i8));
            assert(t[1] == (TerrainSlope::East, 0i8));
            assert(t[2] == (TerrainSlope::South, 0i8));
            assert(t[16] == (TerrainSlope::West, 1i8));
            assert(t[4] == (TerrainSlope::NorthSouthEast, 0i8));
            assert(t[5] == (TerrainSlope::SouthNorthEast, 0i8));
            assert(t[6] == (TerrainSlope::SouthNorthWest, 0i8));
            assert(t[14] == (TerrainSlope::NorthSouthWest, 1i8));
            assert(t[13] == (TerrainSlope::NorthEast, 1i8));
            assert(t[3] == (TerrainSlope::SouthEast, 0i8));
            assert(t[15] == (TerrainSlope::SouthWest, 1i8));
            assert(t[12] == (TerrainSlope::NorthWest, 1i8));
            assert(t[0] == (TerrainSlope::All, 0i8));
        },
        TerrainSlope::All => {
            assert(t[10] == (TerrainSlope::Flat, 1i8));
            assert(t[11] == (TerrainSlope::North, 1i8));
            assert(t[1] == (TerrainSlope::East, 0i8));
            assert(t[2] == (TerrainSlope::South, 0i8));
            assert(t[16] == (TerrainSlope::West, 1i8));
            assert(t[4] == (TerrainSlope::NorthSouthEast, 0i8));
            assert(t[5] == (TerrainSlope::SouthNorthEast, 0i8));
            assert(t[6] == (TerrainSlope::SouthNorthWest, 0i8));
            assert(t[14] == (TerrainSlope::NorthSouthWest, 1i8));
            assert(t[13] == (TerrainSlope::NorthEast, 1i8));
            assert(t[3] == (TerrainSlope::SouthEast, 0i8));
            assert(t[15] == (TerrainSlope::SouthWest, 1i8));
            assert(t[12] == (TerrainSlope::NorthWest, 1i8));
            assert(t[0] == (TerrainSlope::All, 0i8));
        },
        _ => {},
    }
}

proof fn lemma_north_east_table_complete(s: TerrainSlope, y: TerrainSlope, k: i8)
    requires
        is_ground_slope(s),
        is_ground_slope(y),
        neighbor_meets(Compass::NorthEast, s, (y, k)),
    ensures
        north_east_neighbor_table(s).contains((y, k)),
{
    reveal(raise_pattern);
    let t = north_east_neighbor_table(s);
    match s {
        TerrainSlope::Flat => {
            assert(t[0] == (TerrainSlope::Flat, 0i8));
            assert(t[1] == (TerrainSlope::North, 0i8));
            assert(t[7] == (TerrainSlope::East, 0i8));
            assert(t[10] == (TerrainSlope::South, -1i8));
            assert(t[15] == (TerrainSlope::West, -1i8));
            assert(t[5] == (TerrainSlope::NorthSouthEast, 0i8));
            assert(t[12] == (TerrainSlope::SouthNorthEast, -1i8));
            assert(t[11] == (TerrainSlope::SouthNorthWest, -1i8));
            assert(t[14] == (TerrainSlope::NorthSouthWest, -1i8));
            assert(t[3] == (TerrainSlope::NorthEast, 0i8));
            assert(t[6] == (TerrainSlope::SouthEast, 0i8));
            assert(t[13] == (TerrainSlope::SouthWest, -1i8));
            assert(t[2] == (TerrainSlope::NorthWest, 0i8));
            assert(t[9] == (TerrainSlope::All, -1i8));
        },
        TerrainSlope::North => {
            assert(t[9] == (TerrainSlope::Flat, 1i8));
            assert(t[10] == (TerrainSlope::North, 1i8));
            assert(t[15] == (TerrainSlope::East, 1i8));
            assert(t[2] == (TerrainSlope::South, 0i8));
            assert(t[1] == (TerrainSlope::West, 0i8));
            assert(t[13] == (TerrainSlope::NorthSouthEast, 1i8));
            assert(t[6] == (TerrainSlope::SouthNorthEast, 0i8));
            assert(t[5] == (TerrainSlope::SouthNorthWest, 0i8));
            assert(t[4] == (TerrainSlope::NorthSouthWest, 0i8));
            assert(t[12] == (TerrainSlope::NorthEast, 1i8));
            assert(t[14] == (TerrainSlope::SouthEast, 1i8));
            assert(t[3] == (TerrainSlope::SouthWest, 0i8));
            assert(t[11] == (TerrainSlope::NorthWest, 1i8));
            assert(t[0] == (TerrainSlope::All, 0i8));
        },
        TerrainSlope::East => {
            assert(t[9] == (TerrainSlope::Flat, 1i8));
            assert(t[10] == (TerrainSlope::North, 1i8));
            assert(t[15] == (TerrainSlope::East, 1i8));
            assert(t[2] == (TerrainSlope::South, 0i8));
            assert(t[1] == (TerrainSlope::West, 0i8));
            assert(t[13] == (TerrainSlope::NorthSouthEast, 1i8));
            assert(t[6] == (TerrainSlope::SouthNorthEast, 0i8));
            assert(t[5] == (TerrainSlope::SouthNorthWest, 0i8));
            assert(t[4] == (TerrainSlope::NorthSouthWest, 0i8));
            assert(t[12] == (TerrainSlope::NorthEast, 1i8));
            assert(t[14] == (TerrainSlope::SouthEast, 1i8));
            assert(t[3] == (TerrainSlope::SouthWest, 0i8));
            assert(t[11] == (TerrainSlope::NorthWest, 1i8));
            assert(t[0] == (TerrainSlope::All, 0i8));
        },
        TerrainSlope::South => {
            assert(t[0] == (TerrainSlope::Flat, 0i8));
            assert(t[1] == (TerrainSlope::North, 0i8));
            assert(t[7] == (TerrainSlope::East, 0i8));
            assert(t[10] == (TerrainSlope::South, -1i8));
            assert(t[15] == (TerrainSlope::West, -1i8));
            assert(t[5] == (TerrainSlope::NorthSouthEast, 0i8));
            assert(t[12] == (TerrainSlope::SouthNorthEast, -1i8));
            assert(t[11] == (TerrainSlope::SouthNorthWest, -1i8));
            assert(t[14] == (TerrainSlope::NorthSouthWest, -1i8));
            assert(t[3] == (TerrainSlope::NorthEast, 0i8));
            assert(t[6] == (TerrainSlope::SouthEast, 0i8));
            assert(t[13] == (TerrainSlope::SouthWest, -1i8));
            assert(t[2] == (TerrainSlope::NorthWest, 0i8));
            assert(t[9] == (TerrainSlope::All, -1i8));
        },
        TerrainSlope::West => {
            assert(t[0] == (TerrainSlope::Flat, 0i8));
            assert(t[1] == (TerrainSlope::North, 0i8));
            assert(t[7] == (TerrainSlope::East, 0i8));
            assert(t[10] == (TerrainSlope::South, -1i8));
            assert(t[15] == (TerrainSlope::West, -1i8));
            assert(t[5] == (TerrainSlope::NorthSouthEast, 0i8));
            assert(t[12] == (TerrainSlope::SouthNorthEast, -1i8));
            assert(t[11] == (TerrainSlope::SouthNorthWest, -1i8));
            assert(t[14] == (TerrainSlope::NorthSouthWest, -1i8));
            assert(t[3] == (TerrainSlope::NorthEast, 0i8));
            assert(t[6] == (TerrainSlope::SouthEast, 0i8));
            assert(t[13] == (TerrainSlope::SouthWest, -1i8));
            assert(t[2] == (TerrainSlope::NorthWest, 0i8));
            assert(t[9] == (TerrainSlope::All, -1i8));
        },
        TerrainSlope::NorthSouthEast => {
            assert(t[9] == (TerrainSlope::Flat, 1i8));
            assert(t[10] == (TerrainSlope::North, 1i8));
            assert(t[15] == (TerrainSlope::East, 1i8));
            assert(t[2] == (TerrainSlope::South, 0i8));
            assert(t[1] == (TerrainSlope::West, 0i8));
            assert(t[13] == (TerrainSlope::NorthSouthEast, 1i8));
            assert(t[6] == (TerrainSlope::SouthNorthEast, 0i8));
            assert(t[5] == (TerrainSlope::SouthNorthWest, 0i8));
            assert(t[4] == (TerrainSlope::NorthSouthWest, 0i8));
            assert(t[12] == (TerrainSlope::NorthEast, 1i8));
            assert(t[14] == (TerrainSlope::SouthEast, 1i8));
            assert(t[3] == (TerrainSlope::SouthWest, 0i8));
            assert(t[11] == (TerrainSlope::NorthWest, 1i8));
            assert(t[0] == (TerrainSlope::All, 0i8));
        },
        TerrainSlope::SouthNorthEast => {
            assert(t[9] == (TerrainSlope::Flat, 1i8));
            assert(t[10] == (TerrainSlope::North, 1i8));
            assert(t[15] == (TerrainSlope::East, 1i8));
            assert(t[2] == (TerrainSlope::South, 0i8));
            assert(t[1] == (TerrainSlope::West, 0i8));
            assert(t[13] == (TerrainSlope::NorthSouthEast, 1i8));
            assert(t[6] == (TerrainSlope::SouthNorthEast, 0i8));
            assert(t[5] == (TerrainSlope::SouthNorthWest, 0i8));
            assert(t[4] == (TerrainSlope::NorthSouthWest, 0i8));
            assert(t[12] == (TerrainSlope::NorthEast, 1i8));
            assert(t[14] == (TerrainSlope::SouthEast, 1i8));
            assert(t[3] == (TerrainSlope::SouthWest, 0i8));
            assert(t[11] == (TerrainSlope::NorthWest, 1i8));
            assert(t[0] == (TerrainSlope::All, 0i8));
        },
        TerrainSlope::SouthNorthWest => {
            assert(t[0] == (TerrainSlope::Flat, 0i8));
            assert(t[1] == (TerrainSlope::North, 0i8));
            assert(t[7] == (TerrainSlope::East, 0i8));
            assert(t[10] == (TerrainSlope::South, -1i8));
            assert(t[15] == (TerrainSlope::West, -1i8));
            assert(t[5] == (TerrainSlope::NorthSouthEast, 0i8));
            assert(t[12] == (TerrainSlope::SouthNorthEast, -1i8));
            assert(t[11] == (TerrainSlope::SouthNorthWest, -1i8));
            assert(t[14] == (TerrainSlope::NorthSouthWest, -1i8));
            assert(t[3] == (TerrainSlope::NorthEast, 0i8));
            assert(t[6] == (TerrainSlope::SouthEast, 0i8));
            assert(t[13] == (TerrainSlope::SouthWest, -1i8));
            assert(t[2] == (TerrainSlope::NorthWest, 0i8));
            assert(t[9] == (TerrainSlope::All, -1i8));
        },
        TerrainSlope::NorthSouthWest => {
            assert(t[9] == (TerrainSlope::Flat, 1i8));
            assert(t[10] == (TerrainSlope::North, 1i8));
            assert(t[15] == (TerrainSlope::East, 1i8));
            assert(t[2] == (TerrainSlope::South, 0i8));
            assert(t[1] == (TerrainSlope::West, 0i8));
            assert(t[13] == (TerrainSlope::NorthSouthEast, 1i8));
            assert(t[6] == (TerrainSlope::SouthNorthEast, 0i8));
            assert(t[5] == (TerrainSlope::SouthNorthWest, 0i8));
            assert(t[4] == (TerrainSlope::NorthSouthWest, 0i8));
            assert(t[12] == (TerrainSlope::NorthEast, 1i8));
            assert(t[14] == (TerrainSlope::SouthEast, 1i8));
            assert(t[3] == (TerrainSlope::SouthWest, 0i8));
            assert(t[11] == (TerrainSlope::NorthWest, 1i8));
            assert(t[0] == (TerrainSlope::All, 0i8));
        },
        TerrainSlope::NorthEast => {
            assert(t[9] == (TerrainSlope::Flat, 1i8));
            assert(t[10] == (TerrainSlope::North, 1i8));
            assert(t[15] == (TerrainSlope::East, 1i8));
            assert(t[2] == (TerrainSlope::South, 0i8));
            assert(t[1] == (TerrainSlope::West, 0i8));
            assert(t[13] == (TerrainSlope::NorthSouthEast, 1i8));
            assert(t[6] == (TerrainSlope::SouthNorthEast, 0i8));
            assert(t[5] == (TerrainSlope::SouthNorthWest, 0i8));
            assert(t[4] == (TerrainSlope::NorthSouthWest, 0i8));
            assert(t[12] == (TerrainSlope::NorthEast, 1i8));
            assert(t[14] == (TerrainSlope::SouthEast, 1i8));
            assert(t[3] == (TerrainSlope::SouthWest, 0i8));
            assert(t[11] == (TerrainSlope::NorthWest, 1i8));
            assert(t[0] == (TerrainSlope::All, 0i8));
        },
        TerrainSlope::SouthEast => {
            assert(t[0] == (TerrainSlope::Flat, 0i8));
            assert(t[1] == (TerrainSlope::North, 0i8));
            assert(t[7] == (TerrainSlope::East, 0i8));
            assert(t[10] == (TerrainSlope::South, -1i8));
            assert(t[15] == (TerrainSlope::West, -1i8));
            assert(t[5] == (TerrainSlope::NorthSouthEast, 0i8));
            assert(t[12] == (TerrainSlope::SouthNorthEast, -1i8));
            assert(t[11] == (TerrainSlope::SouthNorthWest, -1i8));
            assert(t[14] == (TerrainSlope::NorthSouthWest, -1i8));
            assert(t[3] == (TerrainSlope::NorthEast, 0i8));
            assert(t[6] == (TerrainSlope::SouthEast, 0i8));
            assert(t[13] == (TerrainSlope::SouthWest, -1i8));
            assert(t[2] == (TerrainSlope::NorthWest, 0i8));
            assert(t[9] == (TerrainSlope::All, -1i8));
        },
        TerrainSlope::SouthWest => {
            assert(t[0] == (TerrainSlope::Flat, 0i8));
            assert(t[1] == (TerrainSlope::North, 0i8));
            assert(t[7] == (TerrainSlope::East, 0i8));
            assert(t[10] == (TerrainSlope::South, -1i8));
            assert(t[15] == (TerrainSlope::West, -1i8));
            assert(t[5] == (TerrainSlope::NorthSouthEast, 0i8));
            assert(t[12] == (TerrainSlope::SouthNorthEast, -1i8));
            assert(t[11] == (TerrainSlope::SouthNorthWest, -1i8));
            assert(t[14] == (TerrainSlope::NorthSouthWest, -1i8));
            assert(t[3] == (TerrainSlope::NorthEast, 0i8));
            assert(t[6] == (TerrainSlope::SouthEast, 0i8));
            assert(t[13] == (TerrainSlope::SouthWest, -1i8));
            assert(t[2] == (TerrainSlope::NorthWest, 0i8));
            assert(t[9] == (TerrainSlope::All, -1i8));
        },
        TerrainSlope::NorthWest => {
            assert(t[0] == (TerrainSlope::Flat, 0i8));
            assert(t[1] == (TerrainSlope::North, 0i8));
            assert(t[7] == (TerrainSlope::East, 0i8));
            assert(t[10] == (TerrainSlope::South, -1i8));
            assert(t[15] == (TerrainSlope::West, -1i8));
            assert(t[5] == (TerrainSlope::NorthSouthEast, 0i8));
            assert(t[12] == (TerrainSlope::SouthNorthEast, -1i8));
            assert(t[11] == (TerrainSlope::SouthNorthWest, -1i8));
            assert(t[14] == (TerrainSlope::NorthSouthWest, -1i8));
            assert(t[3] == (TerrainSlope::NorthEast, 0i8));
            assert(t[6] == (TerrainSlope::SouthEast, 0i8));
            assert(t[13] == (TerrainSlope::SouthWest, -1i8));
            assert(t[2] == (TerrainSlope::NorthWest, 0i8));
            assert(t[9] == (TerrainSlope::All, -1i8));
        },
        TerrainSlope::All => {
            assert(t[9] == (TerrainSlope::Flat, 1i8));
            assert(t[10] == (TerrainSlope::North, 1i8));
            assert(t[15] == (TerrainSlope::East, 1i8));
            assert(t[2] == (TerrainSlope::South, 0i8));
            assert(t[1] == (TerrainSlope::West, 0i8));
            assert(t[13] == (TerrainSlope::NorthSouthEast, 1i8));
            assert(t[6] == (TerrainSlope::SouthNorthEast, 0i8));
            assert(t[5] == (TerrainSlope::SouthNorthWest, 0i8));
            assert(t[4] == (TerrainSlope::NorthSouthWest, 0i8));
            assert(t[12] == (TerrainSlope::NorthEast, 1i8));
            assert(t[14] == (TerrainSlope::SouthEast, 1i8));
            assert(t[3] == (TerrainSlope::SouthWest, 0i8));
            assert(t[11] == (TerrainSlope::NorthWest, 1i8));
            assert(t[0] == (TerrainSlope::All, 0i8));
        },
        _ => {},
    }
}

proof fn lemma_south_east_table_complete(s: TerrainSlope, y: TerrainSlope, k: i8)
    requires
        is_ground_slope(s),
        is_ground_slope(y),
        neighbor_meets(Compass::SouthEast, s, (y, k)),
    ensures
        south_east_neighbor_table(s).contains((y, k)),
{
    reveal(raise_pattern);
    let t = south_east_neighbor_table(s);
    match s {
        TerrainSlope::Flat => {
            assert(t[0] == (TerrainSlope::Flat, 0i8));
            assert(t[11] == (TerrainSlope::North, -1i8));
            assert(t[6] == (TerrainSlope::East, 0i8));
            assert(t[1] == (TerrainSlope::South, 0i8));
            assert(t[10] == (TerrainSlope::West, -1i8));
            assert(t[15] == (TerrainSlope::NorthSouthEast, -1i8));
            assert(t[2] == (TerrainSlope::SouthNorthEast, 0i8));
            assert(t[13] == (TerrainSlope::SouthNorthWest, -1i8));
            assert(t[14] == (TerrainSlope::NorthSouthWest, -1i8));
            assert(t[3] == (TerrainSlope::NorthEast, 0i8));
            assert(t[5] == (TerrainSlope::SouthEast, 0i8));
            assert(t[4] == (TerrainSlope::SouthWest, 0i8));
            assert(t[12] == (TerrainSlope::NorthWest, -1i8));
            assert(t[9] == (TerrainSlope::All, -1i8));
        },
        TerrainSlope::North => {
            assert(t[0] == (TerrainSlope::Flat, 0i8));
            assert(t[11] == (TerrainSlope::North, -1i8));
            assert(t[6] == (TerrainSlope::East, 0i8));
            assert(t[1] == (TerrainSlope::South, 0i8));
            assert(t[10] == (TerrainSlope::West, -1i8));
            assert(t[15] == (TerrainSlope::NorthSouthEast, -1i8));
            assert(t[2] == (TerrainSlope::SouthNorthEast, 0i8));
            assert(t[13] == (TerrainSlope::SouthNorthWest, -1i8));
            assert(t[14] == (TerrainSlope::NorthSouthWest, -1i8));
            assert(t[3] == (TerrainSlope::NorthEast, 0i8));
            assert(t[5] == (TerrainSlope::SouthEast, 0i8));
            assert(t[4] == (TerrainSlope::SouthWest, 0i8));
            assert(t[12] == (TerrainSlope::NorthWest, -1i8));
            assert(t[9] == (TerrainSlope::All, -1i8));
        },
        TerrainSlope::East => {
            assert(t[11] == (TerrainSlope::Flat, 1i8));
            assert(t[4] == (TerrainSlope::North, 0i8));
            assert(t[12] == (TerrainSlope::East, 1i8));
            assert(t[13] == (TerrainSlope::South, 1i8));
            assert(t[1] == (TerrainSlope::West, 0i8));
            assert(t[6] == (TerrainSlope::NorthSouthEast, 0i8));
            assert(t[16] == (TerrainSlope::SouthNorthEast, 1i8));
            assert(t[3] == (TerrainSlope::SouthNorthWest, 0i8));
            assert(t[5] == (TerrainSlope::NorthSouthWest, 0i8));
            assert(t[17] == (TerrainSlope::NorthEast, 1i8));
            assert(t[15] == (TerrainSlope::SouthEast, 1i8));
            assert(t[14] == (TerrainSlope::SouthWest, 1i8));
            assert(t[2] == (TerrainSlope::NorthWest, 0i8));
            assert(t[0] == (TerrainSlope::All, 0i8));
        },
        TerrainSlope::South => {
            assert(t[11] == (TerrainSlope::Flat, 1i8));
            assert(t[4] == (TerrainSlope::North, 0i8));
            assert(t[12] == (TerrainSlope::East, 1i8));
            assert(t[13] == (TerrainSlope::South, 1i8));
            assert(t[1] == (TerrainSlope::West, 0i8));
            assert(t[6] == (TerrainSlope::NorthSouthEast, 0i8));
            assert(t[16] == (TerrainSlope::SouthNorthEast, 1i8));
            assert(t[3] == (TerrainSlope::SouthNorthWest, 0i8));
            assert(t[5] == (TerrainSlope::NorthSouthWest, 0i8));
            assert(t[17] == (TerrainSlope::NorthEast, 1i8));
            assert(t[15] == (TerrainSlope::SouthEast, 1i8));
            assert(t[14] == (TerrainSlope::SouthWest, 1i8));
            assert(t[2] == (TerrainSlope::NorthWest, 0i8));
            assert(t[0] == (TerrainSlope::All, 0i8));
        },
        TerrainSlope::West => {
            assert(t[0] == (TerrainSlope::Flat, 0i8));
            assert(t[11] == (TerrainSlope::North, -1i8));
            assert(t[6] == (TerrainSlope::East, 0i8));
            assert(t[1] == (TerrainSlope::South, 0i8));
            assert(t[10] == (TerrainSlope::West, -1i8));
            assert(t[15] == (TerrainSlope::NorthSouthEast, -1i8));
            assert(t[2] == (TerrainSlope::SouthNorthEast, 0i8));
            assert(t[13] == (TerrainSlope::SouthNorthWest, -1i8));
            assert(t[14] == (TerrainSlope::NorthSouthWest, -1i8));
            assert(t[3] == (TerrainSlope::NorthEast, 0i8));
            assert(t[5] == (TerrainSlope::SouthEast, 0i8));
            assert(t[4] == (TerrainSlope::SouthWest, 0i8));
            assert(t[12] == (TerrainSlope::NorthWest, -1i8));
            assert(t[9] == (TerrainSlope::All, -1i8));
        },
        TerrainSlope::NorthSouthEast => {
            assert(t[11] == (TerrainSlope::Flat, 1i8));
            assert(t[4] == (TerrainSlope::North, 0i8));
            assert(t[12] == (TerrainSlope::East, 1i8));
            assert(t[13] == (TerrainSlope::South, 1i8));
            assert(t[1] == (TerrainSlope::West, 0i8));
            assert(t[6] == (TerrainSlope::NorthSouthEast, 0i8));
            assert(t[16] == (TerrainSlope::SouthNorthEast, 1i8));
            assert(t[3] == (TerrainSlope::SouthNorthWest, 0i8));
            assert(t[5] == (TerrainSlope::NorthSouthWest, 0i8));
            assert(t[17] == (TerrainSlope::NorthEast, 1i8));
            assert(t[15] == (TerrainSlope::SouthEast, 1i8));
            assert(t[14] == (TerrainSlope::SouthWest, 1i8));
            assert(t[2] == (TerrainSlope::NorthWest, 0i8));
            assert(t[0] == (TerrainSlope::All, 0i8));
        },
        TerrainSlope::SouthNorthEast => {
            assert(t[11] == (TerrainSlope::Flat, 1i8));
            assert(t[4] == (TerrainSlope::North, 0i8));
            assert(t[12] == (TerrainSlope::East, 1i8));
            assert(t[13] == (TerrainSlope::South, 1i8));
            assert(t[1] == (TerrainSlope::West, 0i8));
            assert(t[6] == (TerrainSlope::NorthSouthEast, 0i8));
            assert(t[16] == (TerrainSlope::SouthNorthEast, 1i8));
            assert(t[3] == (TerrainSlope::SouthNorthWest, 0i8));
            assert(t[5] == (TerrainSlope::NorthSouthWest, 0i8));
            assert(t[17] == (TerrainSlope::NorthEast, 1i8));
            assert(t[15] == (TerrainSlope::SouthEast, 1i8));
            assert(t[14] == (TerrainSlope::SouthWest, 1i8));
            assert(t[2] == (TerrainSlope::NorthWest, 0i8));
            assert(t[0] == (TerrainSlope::All, 0i8));
        },
        TerrainSlope::SouthNorthWest => {
            assert(t[11] == (TerrainSlope::Flat, 1i8));
            assert(t[4] == (TerrainSlope::North, 0i8));
            assert(t[12] == (TerrainSlope::East, 1i8));
            assert(t[13] == (TerrainSlope::South, 1i8));
            assert(t[1] == (TerrainSlope::West, 0i8));
            assert(t[6] == (TerrainSlope::NorthSouthEast, 0i8));
            assert(t[16] == (TerrainSlope::SouthNorthEast, 1i8));
            assert(t[3] == (TerrainSlope::SouthNorthWest, 0i8));
            assert(t[5] == (TerrainSlope::NorthSouthWest, 0i8));
            assert(t[17] == (TerrainSlope::NorthEast, 1i8));
            assert(t[15] == (TerrainSlope::SouthEast, 1i8));
            assert(t[14] == (TerrainSlope::SouthWest, 1i8));
            assert(t[2] == (TerrainSlope::NorthWest, 0i8));
            assert(t[0] == (TerrainSlope::All, 0i8));
        },
        TerrainSlope::NorthSouthWest => {
            assert(t[0] == (TerrainSlope::Flat, 0i8));
            assert(t[11] == (TerrainSlope::North, -1i8));
            assert(t[6] == (TerrainSlope::East, 0i8));
            assert(t[1] == (TerrainSlope::South, 0i8));
            assert(t[10] == (TerrainSlope::West, -1i8));
            assert(t[15] == (TerrainSlope::NorthSouthEast, -1i8));
            assert(t[2] == (TerrainSlope::SouthNorthEast, 0i8));
            assert(t[13] == (TerrainSlope::SouthNorthWest, -1i8));
            assert(t[14] == (TerrainSlope::NorthSouthWest, -1i8));
            assert(t[3] == (TerrainSlope::NorthEast, 0i8));
            assert(t[5] == (TerrainSlope::SouthEast, 0i8));
            assert(t[4] == (TerrainSlope::SouthWest, 0i8));
            assert(t[12] == (TerrainSlope::NorthWest, -1i8));
            assert(t[9] == (TerrainSlope::All, -1i8));
        },
        TerrainSlope::NorthEast => {
            assert(t[0] == (TerrainSlope::Flat, 0i8));
            assert(t[11] == (TerrainSlope::North, -1i8));
            assert(t[6] == (TerrainSlope::East, 0i8));
            assert(t[1] == (TerrainSlope::South, 0i8));
            assert(t[10] == (TerrainSlope::West, -1i8));
            assert(t[15] == (TerrainSlope::NorthSouthEast, -1i8));
            assert(t[2] == (TerrainSlope::SouthNorthEast, 0i8));
            assert(t[13] == (TerrainSlope::SouthNorthWest, -1i8));
            assert(t[14] == (TerrainSlope::NorthSouthWest, -1i8));
            assert(t[3] == (TerrainSlope::NorthEast, 0i8));
            assert(t[5] == (TerrainSlope::SouthEast, 0i8));
            assert(t[4] == (TerrainSlope::SouthWest, 0i8));
            assert(t[12] == (TerrainSlope::NorthWest, -1i8));
            assert(t[9] == (TerrainSlope::All, -1i8));
        },
        TerrainSlope::SouthEast => {
            assert(t[11] == (TerrainSlope::Flat, 1i8));
            assert(t[4] == (TerrainSlope::North, 0i8));
            assert(t[12] == (TerrainSlope::East, 1i8));
            assert(t[13] == (TerrainSlope::South, 1i8));
            assert(t[1] == (TerrainSlope::West, 0i8));
            assert(t[6] == (TerrainSlope::NorthSouthEast, 0i8));
            assert(t[16] == (TerrainSlope::SouthNorthEast, 1i8));
            assert(t[3] == (TerrainSlope::SouthNorthWest, 0i8));
            assert(t[5] == (TerrainSlope::NorthSouthWest, 0i8));
            assert(t[17] == (TerrainSlope::NorthEast, 1i8));
            assert(t[15] == (TerrainSlope::SouthEast, 1i8));
            assert(t[14] == (TerrainSlope::SouthWest, 1i8));
            assert(t[2] == (TerrainSlope::NorthWest, 0i8));
            assert(t[0] == (TerrainSlope::All, 0i8));
        },
        TerrainSlope::SouthWest => {
            assert(t[0] == (TerrainSlope::Flat, 0i8));
            assert(t[11] == (TerrainSlope::North, -1i8));
            assert(t[6] == (TerrainSlope::East, 0i8));
            assert(t[1] == (TerrainSlope::South, 0i8));
            assert(t[10] == (TerrainSlope::West, -1i8));
            assert(t[15] == (TerrainSlope::NorthSouthEast, -1i8));
            assert(t[2] == (TerrainSlope::SouthNorthEast, 0i8));
            assert(t[13] == (TerrainSlope::SouthNorthWest, -1i8));
            assert(t[14] == (TerrainSlope::NorthSouthWest, -1i8));
            assert(t[3] == (TerrainSlope::NorthEast, 0i8));
            assert(t[5] == (TerrainSlope::SouthEast, 0i8));
            assert(t[4] == (TerrainSlope::SouthWest, 0i8));
            assert(t[12] == (TerrainSlope::NorthWest, -1i8));
            assert(t[9] == (TerrainSlope::All, -1i8));
        },
        TerrainSlope::NorthWest => {
            assert(t[0] == (TerrainSlope::Flat, 0i8));
            assert(t[11] == (TerrainSlope::North, -1i8));
            assert(t[6] == (TerrainSlope::East, 0i8));
            assert(t[1] == (TerrainSlope::South, 0i8));
            assert(t[10] == (TerrainSlope::West, -1i8));
            assert(t[15] == (TerrainSlope::NorthSouthEast, -1i8));
            assert(t[2] == (TerrainSlope::SouthNorthEast, 0i8));
            assert(t[13] == (TerrainSlope::SouthNorthWest, -1i8));
            assert(t[14] == (TerrainSlope::NorthSouthWest, -1i8));
            assert(t[3] == (TerrainSlope::NorthEast, 0i8));
            assert(t[5] == (TerrainSlope::SouthEast, 0i8));
            assert(t[4] == (TerrainSlope::SouthWest, 0i8));
            assert(t[12] == (TerrainSlope::NorthWest, -1i8));
            assert(t[9] == (TerrainSlope::All, -1i8));
        },
        TerrainSlope::All => {
            assert(t[11] == (TerrainSlope::Flat, 1i8));
            assert(t[4] == (TerrainSlope::North, 0i8));
            assert(t[12] == (TerrainSlope::East, 1i8));
            assert(t[13] == (TerrainSlope::South, 1i8));
            assert(t[1] == (TerrainSlope::West, 0i8));
            assert(t[6] == (TerrainSlope::NorthSouthEast, 0i8));
            assert(t[16] == (TerrainSlope::SouthNorthEast, 1i8));
            assert(t[3] == (TerrainSlope::SouthNorthWest, 0i8));
            assert(t[5] == (TerrainSlope::NorthSouthWest, 0i8));
            assert(t[17] == (TerrainSlope::NorthEast, 1i8));
            assert(t[15] == (TerrainSlope::SouthEast, 1i8));
            assert(t[14] == (TerrainSlope::SouthWest, 1i8));
            assert(t[2] == (TerrainSlope::NorthWest, 0i8));
            assert(t[0] == (TerrainSlope::All, 0i8));
        },
        _ => {},
    }
}

proof fn lemma_south_west_table_complete(s: TerrainSlope, y: TerrainSlope, k: i8)
    requires
        is_ground_slope(s),
        is_ground_slope(y),
        neighbor_meets(Compass::SouthWest, s, (y, k)),
    ensures
        south_west_neighbor_table(s).contains((y, k)),
{
    reveal(raise_pattern);
    let t = south_west_neighbor_table(s);
    match s {
        TerrainSlope::Flat => {
            assert(t[0] == (TerrainSlope::Flat, 0i8));
            assert(t[11] == (TerrainSlope::North, -1i8));
            assert(t[10] == (TerrainSlope::East, -1i8));
            assert(t[2] == (TerrainSlope::South, 0i8));
            assert(t[1] == (TerrainSlope::West, 0i8));
            assert(t[16] == (TerrainSlope::NorthSouthEast, -1i8));
            assert(t[14] == (TerrainSlope::SouthNorthEast, -1i8));
            assert(t[5] == (TerrainSlope::SouthNorthWest, 0i8));
            assert(t[15] == (TerrainSlope::NorthSouthWest, -1i8));
            assert(t[12] == (TerrainSlope::NorthEast, -1i8));
            assert(t[4] == (TerrainSlope::SouthEast, 0i8));
            assert(t[3] == (TerrainSlope::SouthWest, 0i8));
            assert(t[6] == (TerrainSlope::NorthWest, 0i8));
            assert(t[9] == (TerrainSlope::All, -1i8));
        },
        TerrainSlope::North => {
            assert(t[0] == (TerrainSlope::Flat, 0i8));
            assert(t[11] == (TerrainSlope::North, -1i8));
            assert(t[10] == (TerrainSlope::East, -1i8));
            assert(t[2] == (TerrainSlope::South, 0i8));
            assert(t[1] == (TerrainSlope::West, 0i8));
            assert(t[16] == (TerrainSlope::NorthSouthEast, -1i8));
            assert(t[14] == (TerrainSlope::SouthNorthEast, -1i8));
            assert(t[5] == (TerrainSlope::SouthNorthWest, 0i8));
            assert(t[15] == (TerrainSlope::NorthSouthWest, -1i8));
            assert(t[12] == (TerrainSlope::NorthEast, -1i8));
            assert(t[4] == (TerrainSlope::SouthEast, 0i8));
            assert(t[3] == (TerrainSlope::SouthWest, 0i8));
            assert(t[6] == (TerrainSlope::NorthWest, 0i8));
            assert(t[9] == (TerrainSlope::All, -1i8));
        },
        TerrainSlope::East => {
            assert(t[0] == (TerrainSlope::Flat, 0i8));
            assert(t[11] == (TerrainSlope::North, -1i8));
            assert(t[10] == (TerrainSlope::East, -1i8));
            assert(t[2] == (TerrainSlope::South, 0i8));
            assert(t[1] == (TerrainSlope::West, 0i8));
            assert(t[16] == (TerrainSlope::NorthSouthEast, -1i8));
            assert(t[14] == (TerrainSlope::SouthNorthEast, -1i8));
            assert(t[5] == (TerrainSlope::SouthNorthWest, 0i8));
            assert(t[15] == (TerrainSlope::NorthSouthWest, -1i8));
            assert(t[12] == (TerrainSlope::NorthEast, -1i8));
            assert(t[4] == (TerrainSlope::SouthEast, 0i8));
            assert(t[3] == (TerrainSlope::SouthWest, 0i8));
            assert(t[6] == (TerrainSlope::NorthWest, 0i8));
            assert(t[9] == (TerrainSlope::All, -1i8));
        },
        TerrainSlope::South => {
            assert(t[10] == (TerrainSlope::Flat, 1i8));
            assert(t[1] == (TerrainSlope::North, 0i8));
            assert(t[3] == (TerrainSlope::East, 0i8));
            assert(t[12] == (TerrainSlope::South, 1i8));
            assert(t[11] == (TerrainSlope::West, 1i8));
            assert(t[6] == (TerrainSlope::NorthSouthEast, 0i8));
            assert(t[4] == (TerrainSlope::SouthNorthEast, 0i8));
            assert(t[15] == (TerrainSlope::SouthNorthWest, 1i8));
            assert(t[5] == (TerrainSlope::NorthSouthWest, 0i8));
            assert(t[2] == (TerrainSlope::NorthEast, 0i8));
            assert(t[14] == (TerrainSlope::SouthEast, 1i8));
            assert(t[13] == (TerrainSlope::SouthWest, 1i8));
            assert(t[16] == (TerrainSlope::NorthWest, 1i8));
            assert(t[0] == (TerrainSlope::All, 0i8));
        },
        TerrainSlope::West => {
            assert(t[10] == (TerrainSlope::Flat, 1i8));
            assert(t[1] == (TerrainSlope::North, 0i8));
            assert(t[3] == (TerrainSlope::East, 0i8));
            assert(t[12] == (TerrainSlope::South, 1i8));
            assert(t[11] == (TerrainSlope::West, 1i8));
            assert(t[6] == (TerrainSlope::NorthSouthEast, 0i8));
            assert(t[4] == (TerrainSlope::SouthNorthEast, 0i8));
            assert(t[15] == (TerrainSlope::SouthNorthWest, 1i8));
            assert(t[5] == (TerrainSlope::NorthSouthWest, 0i8));
            assert(t[2] == (TerrainSlope::NorthEast, 0i8));
            assert(t[14] == (TerrainSlope::SouthEast, 1i8));
            assert(t[13] == (TerrainSlope::SouthWest, 1i8));
            assert(t[16] == (TerrainSlope::NorthWest, 1i8));
            assert(t[0] == (TerrainSlope::All, 0i8));
        },
        TerrainSlope::NorthSouthEast => {
            assert(t[0] == (TerrainSlope::Flat, 0i8));
            assert(t[11] == (TerrainSlope::North, -1i8));
            assert(t[10] == (TerrainSlope::East, -1i8));
            assert(t[2] == (TerrainSlope::South, 0i8));
            assert(t[1] == (TerrainSlope::West, 0i8));
            assert(t[16] == (TerrainSlope::NorthSouthEast, -1i8));
            assert(t[14] == (TerrainSlope::SouthNorthEast, -1i8));
            assert(t[5] == (TerrainSlope::SouthNorthWest, 0i8));
            assert(t[15] == (TerrainSlope::NorthSouthWest, -1i8));
            assert(t[12] == (TerrainSlope::NorthEast, -1i8));
            assert(t[4] == (TerrainSlope::SouthEast, 0i8));
            assert(t[3] == (TerrainSlope::SouthWest, 0i8));
            assert(t[6] == (TerrainSlope::NorthWest, 0i8));
            assert(t[9] == (TerrainSlope::All, -1i8));
        },
        TerrainSlope::SouthNorthEast => {
            assert(t[10] == (TerrainSlope::Flat, 1i8));
            assert(t[1] == (TerrainSlope::North, 0i8));
            assert(t[3] == (TerrainSlope::East, 0i8));
            assert(t[12] == (TerrainSlope::South, 1i8));
            assert(t[11] == (TerrainSlope::West, 1i8));
            assert(t[6] == (TerrainSlope::NorthSouthEast, 0i8));
            assert(t[4] == (TerrainSlope::SouthNorthEast, 0i8));
            assert(t[15] == (TerrainSlope::SouthNorthWest, 1i8));
            assert(t[5] == (TerrainSlope::NorthSouthWest, 0i8));
            assert(t[2] == (TerrainSlope::NorthEast, 0i8));
            assert(t[14] == (TerrainSlope::SouthEast, 1i8));
            assert(t[13] == (TerrainSlope::SouthWest, 1i8));
            assert(t[16] == (TerrainSlope::NorthWest, 1i8));
            assert(t[0] == (TerrainSlope::All, 0i8));
        },
        TerrainSlope::SouthNorthWest => {
            assert(t[10] == (TerrainSlope::Flat, 1i8));
            assert(t[1] == (TerrainSlope::North, 0i8));
            assert(t[3] == (TerrainSlope::East, 0i8));
            assert(t[12] == (TerrainSlope::South, 1i8));
            assert(t[11] == (TerrainSlope::West, 1i8));
            assert(t[6] == (TerrainSlope::NorthSouthEast, 0i8));
            assert(t[4] == (TerrainSlope::SouthNorthEast, 0i8));
            assert(t[15] == (TerrainSlope::SouthNorthWest, 1i8));
            assert(t[5] == (TerrainSlope::NorthSouthWest, 0i8));
            assert(t[2] == (TerrainSlope::NorthEast, 0i8));
            assert(t[14] == (TerrainSlope::SouthEast, 1i8));
            assert(t[13] == (TerrainSlope::SouthWest, 1i8));
            assert(t[16] == (TerrainSlope::NorthWest, 1i8));
            assert(t[0] == (TerrainSlope::All, 0i8));
        },
        TerrainSlope::NorthSouthWest => {
            assert(t[10] == (TerrainSlope::Flat, 1i8));
            assert(t[1] == (TerrainSlope::North, 0i8));
            assert(t[3] == (TerrainSlope::East, 0i8));
            assert(t[12] == (TerrainSlope::South, 1i8));
            assert(t[11] == (TerrainSlope::West, 1i8));
            assert(t[6] == (TerrainSlope::NorthSouthEast, 0i8));
            assert(t[4] == (TerrainSlope::SouthNorthEast, 0i8));
            assert(t[15] == (TerrainSlope::SouthNorthWest, 1i8));
            assert(t[5] == (TerrainSlope::NorthSouthWest, 0i8));
            assert(t[2] == (TerrainSlope::NorthEast, 0i8));
            assert(t[14] == (TerrainSlope::SouthEast, 1i8));
            assert(t[13] == (TerrainSlope::SouthWest, 1i8));
            assert(t[16] == (TerrainSlope::NorthWest, 1i8));
            assert(t[0] == (TerrainSlope::All, 0i8));
        },
        TerrainSlope::NorthEast => {
            assert(t[0] == (TerrainSlope::Flat, 0i8));
            assert(t[11] == (TerrainSlope::North, -1i8));
            assert(t[10] == (TerrainSlope::East, -1i8));
            assert(t[2] == (TerrainSlope::South, 0i8));
            assert(t[1] == (TerrainSlope::West, 0i8));
            assert(t[16] == (TerrainSlope::NorthSouthEast, -1i8));
            assert(t[14] == (TerrainSlope::SouthNorthEast, -1i8));
            assert(t[5] == (TerrainSlope::SouthNorthWest, 0i8));
            assert(t[15] == (TerrainSlope::NorthSouthWest, -1i8));
            assert(t[12] == (TerrainSlope::NorthEast, -1i8));
            assert(t[4] == (TerrainSlope::SouthEast, 0i8));
            assert(t[3] == (TerrainSlope::SouthWest, 0i8));
            assert(t[6] == (TerrainSlope::NorthWest, 0i8));
            assert(t[9] == (TerrainSlope::All, -1i8));
        },
        TerrainSlope::SouthEast => {
            assert(t[0] == (TerrainSlope::Flat, 0i8));
            assert(t[11] == (TerrainSlope::North, -1i8));
            assert(t[10] == (TerrainSlope::East, -1i8));
            assert(t[2] == (TerrainSlope::South, 0i8));
            assert(t[1] == (TerrainSlope::West, 0i8));
            assert(t[16] == (TerrainSlope::NorthSouthEast, -1i8));
            assert(t[14] == (TerrainSlope::SouthNorthEast, -1i8));
            assert(t[5] == (TerrainSlope::SouthNorthWest, 0i8));
            assert(t[15] == (TerrainSlope::NorthSouthWest, -1i8));
            assert(t[12] == (TerrainSlope::NorthEast, -1i8));
            assert(t[4] == (TerrainSlope::SouthEast, 0i8));
            assert(t[3] == (TerrainSlope::SouthWest, 0i8));
            assert(t[6] == (TerrainSlope::NorthWest, 0i8));
            assert(t[9] == (TerrainSlope::All, -1i8));
        },
        TerrainSlope::SouthWest => {
            assert(t[10] == (TerrainSlope::Flat, 1i8));
            assert(t[1] == (TerrainSlope::North, 0i8));
            assert(t[3] == (TerrainSlope::East, 0i8));
            assert(t[12] == (TerrainSlope::South, 1i8));
            assert(t[11] == (TerrainSlope::West, 1i8));
            assert(t[6] == (TerrainSlope::NorthSouthEast, 0i8));
            assert(t[4] == (TerrainSlope::SouthNorthEast, 0i8));
            assert(t[15] == (TerrainSlope::SouthNorthWest, 1i8));
            assert(t[5] == (TerrainSlope::NorthSouthWest, 0i8));
            assert(t[2] == (TerrainSlope::NorthEast, 0i8));
            assert(t[14] == (TerrainSlope::SouthEast, 1i8));
            assert(t[13] == (TerrainSlope::SouthWest, 1i8));
            assert(t[16] == (TerrainSlope::NorthWest, 1i8));
            assert(t[0] == (TerrainSlope::All, 0i8));
        },
        TerrainSlope::NorthWest => {
            assert(t[0] == (TerrainSlope::Flat, 0i8));
            assert(t[11] == (TerrainSlope::North, -1i8));
            assert(t[10] == (TerrainSlope::East, -1i8));
            assert(t[2] == (TerrainSlope::South, 0i8));
            assert(t[1] == (TerrainSlope::West, 0i8));
            assert(t[16] == (TerrainSlope::NorthSouthEast, -1i8));
            assert(t[14] == (TerrainSlope::SouthNorthEast, -1i8));
            assert(t[5] == (TerrainSlope::SouthNorthWest, 0i8));
            assert(t[15] == (TerrainSlope::NorthSouthWest, -1i8));
            assert(t[12] == (TerrainSlope::NorthEast, -1i8));
            assert(t[4] == (TerrainSlope::SouthEast, 0i8));
            assert(t[3] == (TerrainSlope::SouthWest, 0i8));
            assert(t[6] == (TerrainSlope::NorthWest, 0i8));
            assert(t[9] == (TerrainSlope::All, -1i8));
        },
        TerrainSlope::All => {
            assert(t[10] == (TerrainSlope::Flat, 1i8));
            assert(t[1] == (TerrainSlope::North, 0i8));
            assert(t[3] == (TerrainSlope::East, 0i8));
            assert(t[12] == (TerrainSlope::South, 1i8));
            assert(t[11] == (TerrainSlope::West, 1i8));
            assert(t[6] == (TerrainSlope::NorthSouthEast, 0i8));
            assert(t[4] == (TerrainSlope::SouthNorthEast, 0i8));
            assert(t[15] == (TerrainSlope::SouthNorthWest, 1i8));
            assert(t[5] == (TerrainSlope::NorthSouthWest, 0i8));
            assert(t[2] == (TerrainSlope::NorthEast, 0i8));
            assert(t[14] == (TerrainSlope::SouthEast, 1i8));
            assert(t[13] == (TerrainSlope::SouthWest, 1i8));
            assert(t[16] == (TerrainSlope::NorthWest, 1i8));
            assert(t[0] == (TerrainSlope::All, 0i8));
        },
        _ => {},
    }
}

/// The tables are complete for the ground slopes: next to a tile with a ground slope, every
/// ground slope at every altitude offset whose shared corners meet the tile's is listed.
pub proof fn lemma_tables_complete(side: Compass, s: TerrainSlope, y: TerrainSlope, k: i8)
    requires
        is_ground_slope(s),
        is_ground_slope(y),
        neighbor_meets(side, s, (y, k)),
    ensures
        side_table(side, s).contains((y, k)),
{
    match side {
        Compass::North => lemma_north_table_complete(s, y, k),
        Compass::South => lemma_south_table_complete(s, y, k),
        Compass::West => lemma_west_table_complete(s, y, k),
        Compass::East => lemma_east_table_complete(s, y, k),
        Compass::NorthWest => lemma_north_west_table_complete(s, y, k),
        Compass::NorthEast => lemma_north_east_table_complete(s, y, k),
        Compass::SouthEast => lemma_south_east_table_complete(s, y, k),
        Compass::SouthWest => lemma_south_west_table_complete(s, y, k),
    }
}

impl TerrainSlope {
    /// Slopes, each with its altitude offset, that may lie to the north of this tile.
    pub fn valid_north_neighbors(&self) -> (r: Vec<(TerrainSlope, i8)>)
        ensures
            r@ == north_neighbor_table(*self),
            *self != TerrainSlope::Undetermined ==> forall|i: int|
                0 <= i < r@.len() ==> neighbor_meets(Compass::North, *self, #[trigger] r@[i]),
            *self == TerrainSlope::VertialCliff ==> r@.len() == 0,
            is_ground_slope(*self) ==> forall|y: TerrainSlope, k: i8|
                is_ground_slope(y) && neighbor_meets(Compass::North, *self, (y, k)) ==> #[trigger] r@.contains((y, k)),
    {
        proof {
            if *self != TerrainSlope::Undetermined {
                lemma_north_table_meets(*self);
            }
        }
        let r = match self {
            Self::Undetermined => vec![
                (TerrainSlope::Flat, 0),
                (TerrainSlope::North, 0),
                (TerrainSlope::South, 0),
                (TerrainSlope::West, 0),
                (TerrainSlope::East, 0),
                (TerrainSlope::NorthWest, 0),
                (TerrainSlope::NorthEast, 0),
                (TerrainSlope::NorthSouthWest, 0),
                (TerrainSlope::NorthSouthEast, 0),
                (TerrainSlope::SouthWest, 0),
                (TerrainSlope::SouthEast, 0),
                (TerrainSlope::SouthNorthEast, 0),
                (TerrainSlope::SouthNorthWest, 0),
                (TerrainSlope::All, 0),
                (TerrainSlope::SouthWest2NorthWest, 0),
                (TerrainSlope::Flat, 1),
                (TerrainSlope::North, 1),
                (TerrainSlope::NorthWest, 1),
                (TerrainSlope::NorthEast, 1),
                (TerrainSlope::SouthWest, 1),
                (TerrainSlope::SouthEast, 1),
                (TerrainSlope::All, -1),
                (TerrainSlope::South, -1),
                (TerrainSlope::SouthNorthWest, -1),
                (TerrainSlope::SouthNorthEast, -1),
                (TerrainSlope::SouthWestEast2NorthEast, -1),
                (TerrainSlope::SouthEastWest2NorthWest, -1),
            ],
            Self::Flat | Self::South | Self::SouthWest | Self::SouthEast => vec![
                (TerrainSlope::Flat, 0),
                (TerrainSlope::North, 0),
                (TerrainSlope::NorthWest, 0),
                (TerrainSlope::NorthEast, 0),
                (TerrainSlope::NorthWest2East, 0),
                (TerrainSlope::South, -1),
                (TerrainSlope::SouthNorthWest, -1),
                (TerrainSlope::SouthNorthEast, -1),
                (TerrainSlope::All, -1),
            ],
            Self::North | Self::NorthSouthWest | Self::NorthSouthEast | Self::All => vec![
                (TerrainSlope::All, 0),
                (TerrainSlope::South, 0),
                (TerrainSlope::SouthNorthEast, 0),
                (TerrainSlope::SouthNorthWest, 0),
                (TerrainSlope::Flat, 1),
                (TerrainSlope::North, 1),
                (TerrainSlope::NorthWest, 1),
                (TerrainSlope::NorthEast, 1),
                (TerrainSlope::South2NorthEast, -1),
            ],
            Self::West | Self::NorthWest | Self::SouthNorthWest | Self::SouthEastWest2NorthWest => vec![
                (TerrainSlope::SouthWest, 0),
                (TerrainSlope::West, 0),
                (TerrainSlope::NorthSouthWest, 0),
                (TerrainSlope::NorthEastWest2SouthWest, 0),
                (TerrainSlope::WestNorthEast2, 0),
                (TerrainSlope::SouthEastWest2NorthWest, -1),
                (TerrainSlope::West2SouthEast, -1),
            ],
            Self::East | Self::NorthEast | Self::SouthNorthEast | Self::SouthWestEast2NorthEast => vec![
                (TerrainSlope::SouthEast, 0),
                (TerrainSlope::East, 0),
                (TerrainSlope::NorthSouthEast, 0),
                (TerrainSlope::NorthWestEast2SouthEast, 0),
                (TerrainSlope::SouthWestEast2NorthEast, -1),
                (TerrainSlope::WestSouthEast2, -1),
            ],
            Self::VertialCliff | Self::East2NorthWest | Self::North2SouthWest | Self::South2NorthWest | Self::East2SouthWest | Self::North2SouthEast | Self::West2NorthEast | Self::SouthNorthEast2 | Self::EastNorthWest2 | Self::NorthSouthWest2 | Self::NorthWest2East | Self::SouthWest2NorthWest | Self::SouthEast2West | Self::NorthEast2SouthEast | Self::WestNorthEast2 | Self::SouthNorthWest2 | Self::EastSouthWest2 | Self::NorthSouthEast2 => vec![],
            Self::NorthWestEast2SouthEast => vec![
                (TerrainSlope::SouthEast, 1),
                (TerrainSlope::NorthSouthEast, 1),
                (TerrainSlope::NorthWestEast2SouthEast, 1),
                (TerrainSlope::East, 1),
            ],
            Self::NorthEastWest2SouthWest => vec![
                (TerrainSlope::SouthWest, 1),
                (TerrainSlope::NorthSouthWest, 1),
                (TerrainSlope::NorthEastWest2SouthWest, 1),
                (TerrainSlope::West, 1),
            ],
            Self::South2NorthEast => vec![
                (TerrainSlope::SouthEast, 0),
            ],
            Self::West2SouthEast => vec![
                (TerrainSlope::SouthWest2NorthWest, 0),
            ],
            Self::WestSouthEast2 => vec![
                (TerrainSlope::SouthWest, 0),
            ],
        };
        proof {
            assert(r@ =~= north_neighbor_table(*self));
            assert forall|y: TerrainSlope, k: i8|
                is_ground_slope(*self) && is_ground_slope(y) && neighbor_meets(Compass::North, *self, (y, k)) implies #[trigger] r@.contains((y, k)) by {
                lemma_north_table_complete(*self, y, k);
            }
        }
        r
    }

    /// Slopes, each with its altitude offset, that may lie to the north-west of this tile.
    pub fn valid_north_west_neighbors(&self) -> (r: Vec<(TerrainSlope, i8)>)
        ensures
            r@ == north_west_neighbor_table(*self),
            *self != TerrainSlope::Undetermined ==> forall|i: int|
                0 <= i < r@.len() ==> neighbor_meets(Compass::NorthWest, *self, #[trigger] r@[i]),
            *self == TerrainSlope::VertialCliff ==> r@.len() == 0,
            is_ground_slope(*self) ==> forall|y: TerrainSlope, k: i8|
                is_ground_slope(y) && neighbor_meets(Compass::NorthWest, *self, (y, k)) ==> #[trigger] r@.contains((y, k)),
    {
        proof {
            if *self != TerrainSlope::Undetermined {
                lemma_north_west_table_meets(*self);
            }
        }
        let r = match self {
            Self::Undetermined => vec![
                (TerrainSlope::Flat, 0),
                (TerrainSlope::North, 0),
                (TerrainSlope::South, 0),
                (TerrainSlope::West, 0),
                (TerrainSlope::East, 0),
                (TerrainSlope::NorthWest, 0),
                (TerrainSlope::NorthEast, 0),
                (TerrainSlope::NorthSouthWest, 0),
                (TerrainSlope::NorthSouthEast, 0),
                (TerrainSlope::SouthWest, 0),
                (TerrainSlope::SouthEast, 0),
                (TerrainSlope::SouthNorthEast, 0),
                (TerrainSlope::SouthNorthWest, 0),
                (TerrainSlope::All, 0),
                (TerrainSlope::SouthEastWest2NorthWest, 0),
                (TerrainSlope::NorthWestEast2SouthEast, 0),
                (TerrainSlope::Flat, 1),
                (TerrainSlope::North, 1),
                (TerrainSlope::NorthWest, 1),
                (TerrainSlope::NorthEast, 1),
                (TerrainSlope::NorthSouthWest, 1),
                (TerrainSlope::West, 1),
                (TerrainSlope::All, -1),
                (TerrainSlope::South, -1),
                (TerrainSlope::SouthNorthWest, -1),
                (TerrainSlope::SouthNorthEast, -1),
                (TerrainSlope::SouthEast, -1),
                (TerrainSlope::NorthSouthEast, -1),
                (TerrainSlope::East, -1),
                (TerrainSlope::SouthEastWest2NorthWest, -1),
                (TerrainSlope::SouthWestEast2NorthEast, -1),
                (TerrainSlope::SouthWestEast2NorthEast, -2),
            ],
            Self::Flat | Self::South | Self::East | Self::NorthEast | Self::SouthWest | Self::SouthEast | Self::SouthNorthEast | Self::SouthWestEast2NorthEast => vec![
                (TerrainSlope::Flat, 0),
                (TerrainSlope::North, 0),
                (TerrainSlope::NorthWest, 0),
                (TerrainSlope::NorthEast, 0),
                (TerrainSlope::NorthWest2East, 0),
                (TerrainSlope::NorthSouthWest, 0),
                (TerrainSlope::West, 0),
                (TerrainSlope::SouthWest, 0),
                (TerrainSlope::NorthEastWest2SouthWest, 0),
                (TerrainSlope::WestNorthEast2, 0),
                (TerrainSlope::SouthWest2NorthWest, 0),
                (TerrainSlope::All, -1),
                (TerrainSlope::South, -1),
                (TerrainSlope::SouthNorthWest, -1),
                (TerrainSlope::SouthNorthEast, -1),
                (TerrainSlope::SouthEast, -1),
                (TerrainSlope::NorthSouthEast, -1),
                (TerrainSlope::East, -1),
                (TerrainSlope::NorthWestEast2SouthEast, -1),
                (TerrainSlope::SouthEastWest2NorthWest, -1),
                (TerrainSlope::SouthWestEast2NorthEast, -2),
                (TerrainSlope::South2NorthEast, -2),
            ],
            Self::North | Self::West | Self::NorthWest | Self::SouthNorthWest | Self::NorthSouthWest | Self::NorthSouthEast | Self::All | Self::NorthWestEast2SouthEast | Self::SouthEastWest2NorthWest => vec![
                (TerrainSlope::All, 0),
                (TerrainSlope::East, 0),
                (TerrainSlope::South, 0),
                (TerrainSlope::SouthEast, 0),
                (TerrainSlope::NorthSouthEast, 0),
                (TerrainSlope::SouthNorthEast, 0),
                (TerrainSlope::SouthNorthWest, 0),
                (TerrainSlope::NorthWestEast2SouthEast, 0),
                (TerrainSlope::SouthEastWest2NorthWest, 0),
                (TerrainSlope::West2SouthEast, 0),
                (TerrainSlope::Flat, 1),
                (TerrainSlope::North, 1),
                (TerrainSlope::NorthWest, 1),
                (TerrainSlope::NorthEast, 1),
                (TerrainSlope::NorthSouthWest, 1),
                (TerrainSlope::SouthWest, 1),
                (TerrainSlope::West, 1),
                (TerrainSlope::NorthEastWest2SouthWest, 1),
                (TerrainSlope::WestSouthEast2, -1),
                (TerrainSlope::SouthWestEast2NorthEast, -1),
            ],
            Self::VertialCliff | Self::East2NorthWest | Self::North2SouthWest | Self::West2SouthEast | Self::South2NorthWest | Self::East2SouthWest | Self::North2SouthEast | Self::West2NorthEast | Self::SouthNorthEast2 | Self::EastNorthWest2 | Self::NorthSouthWest2 | Self::NorthWest2East | Self::SouthEast2West | Self::NorthEast2SouthEast | Self::WestNorthEast2 | Self::SouthNorthWest2 | Self::EastSouthWest2 | Self::NorthSouthEast2 => vec![],
            Self::NorthEastWest2SouthWest => vec![
                (TerrainSlope::All, 1),
                (TerrainSlope::Flat, 2),
                (TerrainSlope::North, 2),
                (TerrainSlope::NorthWest, 2),
                (TerrainSlope::NorthEast, 2),
                (TerrainSlope::NorthSouthWest, 2),
                (TerrainSlope::SouthWest, 2),
                (TerrainSlope::West, 2),
                (TerrainSlope::NorthEastWest2SouthWest, 2),
            ],
            Self::South2NorthEast => vec![
                (TerrainSlope::SouthWest, 0),
            ],
            Self::WestSouthEast2 => vec![
                (TerrainSlope::South, 0),
            ],
            Self::SouthWest2NorthWest => vec![
                (TerrainSlope::All, 0),
            ],
        };
        proof {
            assert(r@ =~= north_west_neighbor_table(*self));
            assert forall|y: TerrainSlope, k: i8|
                is_ground_slope(*self) && is_ground_slope(y) && neighbor_meets(Compass::NorthWest, *self, (y, k)) implies #[trigger] r@.contains((y, k)) by {
                lemma_north_west_table_complete(*self, y, k);
            }
        }
        r
    }

    /// Slopes, each with its altitude offset, that may lie to the north-east of this tile.
    pub fn valid_north_east_neighbors(&self) -> (r: Vec<(TerrainSlope, i8)>)
        ensures
            r@ == north_east_neighbor_table(*self),
            *self != TerrainSlope::Undetermined ==> forall|i: int|
                0 <= i < r@.len() ==> neighbor_meets(Compass::NorthEast, *self, #[trigger] r@[i]),
            *self == TerrainSlope::VertialCliff ==> r@.len() == 0,
            is_ground_slope(*self) ==> forall|y: TerrainSlope, k: i8|
                is_ground_slope(y) && neighbor_meets(Compass::NorthEast, *self, (y, k)) ==> #[trigger] r@.contains((y, k)),
    {
        proof {
            if *self != TerrainSlope::Undetermined {
                lemma_north_east_table_meets(*self);
            }
        }
        let r = match self {
            Self::Undetermined => vec![
                (TerrainSlope::Flat, 0),
                (TerrainSlope::North, 0),
                (TerrainSlope::South, 0),
                (TerrainSlope::West, 0),
                (TerrainSlope::East, 0),
                (TerrainSlope::NorthWest, 0),
                (TerrainSlope::NorthEast, 0),
                (TerrainSlope::NorthSouthWest, 0),
                (TerrainSlope::NorthSouthEast, 0),
                (TerrainSlope::SouthWest, 0),
                (TerrainSlope::SouthEast, 0),
                (TerrainSlope::SouthNorthEast, 0),
                (TerrainSlope::SouthNorthWest, 0),
                (TerrainSlope::NorthEastWest2SouthWest, 0),
                (TerrainSlope::All, 0),
                (TerrainSlope::SouthWestEast2NorthEast, 0),
                (TerrainSlope::Flat, 1),
                (TerrainSlope::North, 1),
                (TerrainSlope::NorthWest, 1),
                (TerrainSlope::NorthEast, 1),
                (TerrainSlope::NorthSouthEast, 1),
                (TerrainSlope::East, 1),
                (TerrainSlope::SouthEast, 1),
                (TerrainSlope::All, -1),
                (TerrainSlope::South, -1),
                (TerrainSlope::SouthNorthWest, -1),
                (TerrainSlope::SouthNorthEast, -1),
                (TerrainSlope::SouthWest, -1),
                (TerrainSlope::NorthSouthWest, -1),
                (TerrainSlope::West, -1),
                (TerrainSlope::SouthEastWest2NorthWest, -1),
                (TerrainSlope::SouthWestEast2NorthEast, -1),
                (TerrainSlope::SouthEastWest2NorthWest, -2),
                (TerrainSlope::SouthWestEast2NorthEast, -2),
            ],
            Self::Flat | Self::South | Self::West | Self::NorthWest | Self::SouthWest | Self::SouthEast | Self::SouthNorthWest | Self::SouthEastWest2NorthWest => vec![
                (TerrainSlope::Flat, 0),
                (TerrainSlope::North, 0),
                (TerrainSlope::NorthWest, 0),
                (TerrainSlope::NorthEast, 0),
                (TerrainSlope::NorthWest2East, 0),
                (TerrainSlope::NorthSouthEast, 0),
                (TerrainSlope::SouthEast, 0),
                (TerrainSlope::East, 0),
                (TerrainSlope::NorthWestEast2SouthEast, 0),
                (TerrainSlope::All, -1),
                (TerrainSlope::South, -1),
                (TerrainSlope::SouthNorthWest, -1),
                (TerrainSlope::SouthNorthEast, -1),
                (TerrainSlope::SouthWest, -1),
                (TerrainSlope::NorthSouthWest, -1),
                (TerrainSlope::West, -1),
                (TerrainSlope::NorthEastWest2SouthWest, -1),
                (TerrainSlope::SouthWestEast2NorthEast, -1),
                (TerrainSlope::WestSouthEast2, -1),
                (TerrainSlope::WestNorthEast2, -1),
                (TerrainSlope::SouthEastWest2NorthWest, -2),
                (TerrainSlope::West2SouthEast, -2),
            ],
            Self::North | Self::East | Self::NorthEast | Self::SouthNorthEast | Self::NorthSouthWest | Self::NorthSouthEast | Self::All | Self::NorthEastWest2SouthWest | Self::SouthWestEast2NorthEast => vec![
                (TerrainSlope::All, 0),
                (TerrainSlope::West, 0),
                (TerrainSlope::South, 0),
                (TerrainSlope::SouthWest, 0),
                (TerrainSlope::NorthSouthWest, 0),
                (TerrainSlope::SouthNorthWest, 0),
                (TerrainSlope::SouthNorthEast, 0),
                (TerrainSlope::SouthWestEast2NorthEast, 0),
                (TerrainSlope::NorthEastWest2SouthWest, 0),
                (TerrainSlope::Flat, 1),
                (TerrainSlope::North, 1),
                (TerrainSlope::NorthWest, 1),
                (TerrainSlope::NorthEast, 1),
                (TerrainSlope::NorthSouthEast, 1),
                (TerrainSlope::SouthEast, 1),
                (TerrainSlope::East, 1),
                (TerrainSlope::NorthWestEast2SouthEast, 1),
                (TerrainSlope::SouthEastWest2NorthWest, -1),
                (TerrainSlope::South2NorthEast, -1),
                (TerrainSlope::SouthWest2NorthWest, -1),
            ],
            Self::VertialCliff | Self::East2NorthWest | Self::North2SouthWest | Self::South2NorthWest | Self::East2SouthWest | Self::North2SouthEast | Self::West2NorthEast | Self::SouthNorthEast2 | Self::EastNorthWest2 | Self::NorthSouthWest2 | Self::NorthWest2East | Self::SouthEast2West | Self::NorthEast2SouthEast | Self::WestNorthEast2 | Self::SouthNorthWest2 | Self::EastSouthWest2 | Self::NorthSouthEast2 => vec![],
            Self::NorthWestEast2SouthEast => vec![
                (TerrainSlope::South, 1),
                (TerrainSlope::SouthWest, 1),
                (TerrainSlope::SouthWestEast2NorthEast, 1),
                (TerrainSlope::All, 1),
                (TerrainSlope::West, 1),
                (TerrainSlope::NorthSouthWest, 1),
                (TerrainSlope::NorthEastWest2SouthWest, 1),
                (TerrainSlope::Flat, 2),
                (TerrainSlope::SouthEast, 2),
                (TerrainSlope::NorthSouthEast, 2),
                (TerrainSlope::NorthWest, 2),
                (TerrainSlope::NorthEast, 2),
                (TerrainSlope::North, 2),
                (TerrainSlope::NorthWestEast2SouthEast, 2),
                (TerrainSlope::East, 2),
            ],
            Self::South2NorthEast => vec![
                (TerrainSlope::South, 0),
            ],
            Self::West2SouthEast => vec![
                (TerrainSlope::SouthNorthWest, -1),
            ],
            Self::WestSouthEast2 => vec![
                (TerrainSlope::SouthEast, 0),
            ],
            Self::SouthWest2NorthWest => vec![
                (TerrainSlope::SouthNorthWest, -1),
                (TerrainSlope::West, -1),
            ],
        };
        proof {
            assert(r@ =~= north_east_neighbor_table(*self));
            assert forall|y: TerrainSlope, k: i8|
                is_ground_slope(*self) && is_ground_slope(y) && neighbor_meets(Compass::NorthEast, *self, (y, k)) implies #[trigger] r@.contains((y, k)) by {
                lemma_north_east_table_complete(*self, y, k);
            }
        }
        r
    }

    /// Slopes, each with its altitude offset, that may lie to the south of this tile.
    pub fn valid_south_neighbors(&self) -> (r: Vec<(TerrainSlope, i8)>)
        ensures
            r@ == south_neighbor_table(*self),
            *self != TerrainSlope::Undetermined ==> forall|i: int|
                0 <= i < r@.len() ==> neighbor_meets(Compass::South, *self, #[trigger] r@[i]),
            *self == TerrainSlope::VertialCliff ==> r@.len() == 0,
            is_ground_slope(*self) ==> forall|y: TerrainSlope, k: i8|
                is_ground_slope(y) && neighbor_meets(Compass::South, *self, (y, k)) ==> #[trigger] r@.contains((y, k)),
    {
        proof {
            if *self != TerrainSlope::Undetermined {
                lemma_south_table_meets(*self);
            }
        }
        let r = match self {
            Self::Undetermined => vec![
                (TerrainSlope::Flat, 0),
                (TerrainSlope::North, 0),
                (TerrainSlope::South, 0),
                (TerrainSlope::West, 0),
                (TerrainSlope::East, 0),
                (TerrainSlope::NorthWest, 0),
                (TerrainSlope::NorthEast, 0),
                (TerrainSlope::NorthSouthWest, 0),
                (TerrainSlope::NorthSouthEast, 0),
                (TerrainSlope::SouthWest, 0),
                (TerrainSlope::SouthEast, 0),
                (TerrainSlope::SouthNorthEast, 0),
                (TerrainSlope::SouthNorthWest, 0),
                (TerrainSlope::South2NorthEast, 0),
                (TerrainSlope::WestSouthEast2, 0),
                (TerrainSlope::All, 0),
                (TerrainSlope::SouthWestEast2NorthEast, 0),
                (TerrainSlope::SouthEastWest2NorthWest, 0),
                (TerrainSlope::Flat, 1),
                (TerrainSlope::South, 1),
                (TerrainSlope::SouthWest, 1),
                (TerrainSlope::SouthEast, 1),
                (TerrainSlope::SouthEastWest2NorthWest, 1),
                (TerrainSlope::SouthWestEast2NorthEast, 1),
                (TerrainSlope::SouthNorthWest, 1),
                (TerrainSlope::East, 1),
                (TerrainSlope::All, -1),
                (TerrainSlope::North, -1),
                (TerrainSlope::NorthSouthWest, -1),
                (TerrainSlope::NorthSouthEast, -1),
                (TerrainSlope::NorthWestEast2SouthEast, -1),
                (TerrainSlope::NorthEastWest2SouthWest, -1),
            ],
            Self::Flat | Self::North | Self::NorthWest | Self::NorthEast => vec![
                (TerrainSlope::Flat, 0),
                (TerrainSlope::South, 0),
                (TerrainSlope::SouthWest, 0),
                (TerrainSlope::SouthEast, 0),
                (TerrainSlope::All, -1),
                (TerrainSlope::North, -1),
                (TerrainSlope::NorthSouthWest, -1),
                (TerrainSlope::NorthSouthEast, -1),
            ],
            Self::South | Self::SouthNorthEast | Self::SouthNorthWest | Self::All => vec![
                (TerrainSlope::All, 0),
                (TerrainSlope::North, 0),
                (TerrainSlope::NorthSouthWest, 0),
                (TerrainSlope::NorthSouthEast, 0),
                (TerrainSlope::Flat, 1),
                (TerrainSlope::South, 1),
                (TerrainSlope::SouthWest, 1),
                (TerrainSlope::SouthEast, 1),
            ],
            Self::West | Self::SouthWest | Self::NorthSouthWest | Self::NorthEastWest2SouthWest => vec![
                (TerrainSlope::NorthWest, 0),
                (TerrainSlope::West, 0),
                (TerrainSlope::SouthNorthWest, 0),
                (TerrainSlope::SouthEastWest2NorthWest, 0),
                (TerrainSlope::WestSouthEast2, 0),
                (TerrainSlope::SouthWest2NorthWest, 0),
                (TerrainSlope::NorthEastWest2SouthWest, -1),
                (TerrainSlope::NorthWest2East, -1),
            ],
            Self::East | Self::SouthEast | Self::NorthSouthEast | Self::NorthWestEast2SouthEast => vec![
                (TerrainSlope::NorthEast, 0),
                (TerrainSlope::East, 0),
                (TerrainSlope::SouthNorthEast, 0),
                (TerrainSlope::SouthWestEast2NorthEast, 0),
                (TerrainSlope::South2NorthEast, 0),
                (TerrainSlope::NorthWestEast2SouthEast, -1),
                (TerrainSlope::WestNorthEast2, -1),
            ],
            Self::VertialCliff | Self::East2NorthWest | Self::North2SouthWest | Self::South2NorthWest | Self::East2SouthWest | Self::North2SouthEast | Self::West2NorthEast | Self::SouthNorthEast2 | Self::EastNorthWest2 | Self::NorthSouthWest2 | Self::SouthEast2West | Self::NorthEast2SouthEast | Self::SouthNorthWest2 | Self::EastSouthWest2 | Self::NorthSouthEast2 => vec![],
            Self::SouthWestEast2NorthEast => vec![
                (TerrainSlope::NorthEast, 1),
                (TerrainSlope::East, 1),
                (TerrainSlope::SouthNorthEast, 1),
                (TerrainSlope::SouthWestEast2NorthEast, 1),
            ],
            Self::SouthEastWest2NorthWest => vec![
                (TerrainSlope::NorthWest, 1),
                (TerrainSlope::West, 1),
                (TerrainSlope::SouthNorthWest, 1),
                (TerrainSlope::SouthEastWest2NorthWest, 1),
            ],
            Self::South2NorthEast => vec![
                (TerrainSlope::All, 1),
            ],
            Self::West2SouthEast => vec![
                (TerrainSlope::West, 1),
            ],
            Self::WestSouthEast2 => vec![
                (TerrainSlope::East, 1),
            ],
            Self::NorthWest2East => vec![
                (TerrainSlope::SouthWest, 0),
            ],
            Self::SouthWest2NorthWest => vec![
                (TerrainSlope::West2SouthEast, 0),
            ],
            Self::WestNorthEast2 => vec![
                (TerrainSlope::SouthNorthWest, 0),
            ],
        };
        proof {
            assert(r@ =~= south_neighbor_table(*self));
            assert forall|y: TerrainSlope, k: i8|
                is_ground_slope(*self) && is_ground_slope(y) && neighbor_meets(Compass::South, *self, (y, k)) implies #[trigger] r@.contains((y, k)) by {
                lemma_south_table_complete(*self, y, k);
            }
        }
        r
    }

    /// Slopes, each with its altitude offset, that may lie to the south-west of this tile.
    pub fn valid_south_west_neighbors(&self) -> (r: Vec<(TerrainSlope, i8)>)
        ensures
            r@ == south_west_neighbor_table(*self),
            *self != TerrainSlope::Undetermined ==> forall|i: int|
                0 <= i < r@.len() ==> neighbor_meets(Compass::SouthWest, *self, #[trigger] r@[i]),
            *self == TerrainSlope::VertialCliff ==> r@.len() == 0,
            is_ground_slope(*self) ==> forall|y: TerrainSlope, k: i8|
                is_ground_slope(y) && neighbor_meets(Compass::SouthWest, *self, (y, k)) ==> #[trigger] r@.contains((y, k)),
    {
        proof {
            if *self != TerrainSlope::Undetermined {
                lemma_south_west_table_meets(*self);
            }
        }
        let r = match self {
            Self::Undetermined => vec![
                (TerrainSlope::Flat, 0),
                (TerrainSlope::North, 0),
                (TerrainSlope::South, 0),
                (TerrainSlope::West, 0),
                (TerrainSlope::East, 0),
                (TerrainSlope::NorthWest, 0),
                (TerrainSlope::NorthEast, 0),
                (TerrainSlope::NorthSouthWest, 0),
                (TerrainSlope::NorthSouthEast, 0),
                (TerrainSlope::SouthWest, 0),
                (TerrainSlope::SouthEast, 0),
                (TerrainSlope::SouthNorthEast, 0),
                (TerrainSlope::SouthNorthWest, 0),
                (TerrainSlope::NorthEastWest2SouthWest, 0),
                (TerrainSlope::WestSouthEast2, 0),
                (TerrainSlope::All, 0),
                (TerrainSlope::All, -1),
                (TerrainSlope::East, -1),
                (TerrainSlope::North, -1),
                (TerrainSlope::NorthEast, -1),
                (TerrainSlope::SouthNorthEast, -1),
                (TerrainSlope::NorthSouthWest, -1),
                (TerrainSlope::NorthSouthEast, -1),
                (TerrainSlope::NorthWestEast2SouthEast, -1),
                (TerrainSlope::SouthWestEast2NorthEast, -1),
                (TerrainSlope::NorthWestEast2SouthEast, -2),
                (TerrainSlope::Flat, 1),
                (TerrainSlope::West, 1),
                (TerrainSlope::South, 1),
                (TerrainSlope::SouthWest, 1),
                (TerrainSlope::SouthEast, 1),
                (TerrainSlope::SouthNorthWest, 1),
                (TerrainSlope::NorthWest, 1),
                (TerrainSlope::NorthEast, 1),
                (TerrainSlope::East, 1),
                (TerrainSlope::All, 1),
                (TerrainSlope::SouthWest2NorthWest, 1),
                (TerrainSlope::Flat, 2),
                (TerrainSlope::SouthWestEast2NorthEast, 2),
                (TerrainSlope::SouthEastWest2NorthWest, 2),
            ],
            Self::Flat | Self::North | Self::East | Self::NorthWest | Self::NorthEast | Self::SouthEast | Self::NorthSouthEast | Self::NorthWestEast2SouthEast => vec![
                (TerrainSlope::Flat, 0),
                (TerrainSlope::West, 0),
                (TerrainSlope::South, 0),
                (TerrainSlope::SouthWest, 0),
                (TerrainSlope::SouthEast, 0),
                (TerrainSlope::SouthNorthWest, 0),
                (TerrainSlope::NorthWest, 0),
                (TerrainSlope::SouthEastWest2NorthWest, 0),
                (TerrainSlope::WestSouthEast2, 0),
                (TerrainSlope::All, -1),
                (TerrainSlope::East, -1),
                (TerrainSlope::North, -1),
                (TerrainSlope::NorthEast, -1),
                (TerrainSlope::NorthWest2East, -1),
                (TerrainSlope::SouthNorthEast, -1),
                (TerrainSlope::NorthSouthWest, -1),
                (TerrainSlope::NorthSouthEast, -1),
                (TerrainSlope::NorthEastWest2SouthWest, -1),
                (TerrainSlope::SouthWestEast2NorthEast, -1),
                (TerrainSlope::NorthWestEast2SouthEast, -2),
            ],
            Self::South | Self::West | Self::SouthWest | Self::SouthNorthEast | Self::SouthNorthWest | Self::NorthSouthWest | Self::All | Self::NorthEastWest2SouthWest | Self::SouthWestEast2NorthEast => vec![
                (TerrainSlope::All, 0),
                (TerrainSlope::North, 0),
                (TerrainSlope::NorthEast, 0),
                (TerrainSlope::East, 0),
                (TerrainSlope::SouthNorthEast, 0),
                (TerrainSlope::NorthSouthWest, 0),
                (TerrainSlope::NorthSouthEast, 0),
                (TerrainSlope::NorthEastWest2SouthWest, 0),
                (TerrainSlope::SouthWestEast2NorthEast, 0),
                (TerrainSlope::South2NorthEast, 0),
                (TerrainSlope::Flat, 1),
                (TerrainSlope::West, 1),
                (TerrainSlope::South, 1),
                (TerrainSlope::SouthWest, 1),
                (TerrainSlope::SouthEast, 1),
                (TerrainSlope::SouthNorthWest, 1),
                (TerrainSlope::NorthWest, 1),
                (TerrainSlope::SouthEastWest2NorthWest, 1),
                (TerrainSlope::West2SouthEast, 1),
                (TerrainSlope::SouthWest2NorthWest, 1),
                (TerrainSlope::NorthWestEast2SouthEast, -1),
                (TerrainSlope::WestNorthEast2, -1),
            ],
            Self::VertialCliff | Self::East2NorthWest | Self::North2SouthWest | Self::South2NorthWest | Self::East2SouthWest | Self::North2SouthEast | Self::West2NorthEast | Self::SouthNorthEast2 | Self::EastNorthWest2 | Self::NorthSouthWest2 | Self::SouthWest2NorthWest | Self::SouthEast2West | Self::NorthEast2SouthEast | Self::SouthNorthWest2 | Self::EastSouthWest2 | Self::NorthSouthEast2 => vec![],
            Self::SouthEastWest2NorthWest => vec![
                (TerrainSlope::Flat, 2),
                (TerrainSlope::All, 1),
                (TerrainSlope::North, 1),
                (TerrainSlope::NorthEast, 1),
                (TerrainSlope::East, 1),
                (TerrainSlope::SouthNorthEast, 1),
                (TerrainSlope::SouthWestEast2NorthEast, 1),
                (TerrainSlope::NorthSouthEast, 1),
                (TerrainSlope::NorthSouthWest, 1),
                (TerrainSlope::SouthEastWest2NorthWest, 2),
                (TerrainSlope::SouthNorthWest, 2),
                (TerrainSlope::West, 2),
                (TerrainSlope::South, 2),
                (TerrainSlope::SouthWest, 2),
            ],
            Self::South2NorthEast => vec![
                (TerrainSlope::East, 1),
            ],
            Self::West2SouthEast => vec![
                (TerrainSlope::Flat, 2),
            ],
            Self::WestSouthEast2 => vec![
                (TerrainSlope::Flat, 1),
            ],
            Self::NorthWest2East => vec![
                (TerrainSlope::SouthNorthWest, 0),
            ],
            Self::WestNorthEast2 => vec![
                (TerrainSlope::West, 1),
            ],
        };
        proof {
            assert(r@ =~= south_west_neighbor_table(*self));
            assert forall|y: TerrainSlope, k: i8|
                is_ground_slope(*self) && is_ground_slope(y) && neighbor_meets(Compass::SouthWest, *self, (y, k)) implies #[trigger] r@.contains((y, k)) by {
                lemma_south_west_table_complete(*self, y, k);
            }
        }
        r
    }

    /// Slopes, each with its altitude offset, that may lie to the south-east of this tile.
    pub fn valid_south_east_neighbors(&self) -> (r: Vec<(TerrainSlope, i8)>)
        ensures
            r@ == south_east_neighbor_table(*self),
            *self != TerrainSlope::Undetermined ==> forall|i: int|
                0 <= i < r@.len() ==> neighbor_meets(Compass::SouthEast, *self, #[trigger] r@[i]),
            *self == TerrainSlope::VertialCliff ==> r@.len() == 0,
            is_ground_slope(*self) ==> forall|y: TerrainSlope, k: i8|
                is_ground_slope(y) && neighbor_meets(Compass::SouthEast, *self, (y, k)) ==> #[trigger] r@.contains((y, k)),
    {
        proof {
            if *self != TerrainSlope::Undetermined {
                lemma_south_east_table_meets(*self);
            }
        }
        let r = match self {
            Self::Undetermined => vec![
                (TerrainSlope::Flat, 0),
                (TerrainSlope::North, 0),
                (TerrainSlope::South, 0),
                (TerrainSlope::West, 0),
                (TerrainSlope::East, 0),
                (TerrainSlope::NorthWest, 0),
                (TerrainSlope::NorthEast, 0),
                (TerrainSlope::NorthSouthWest, 0),
                (TerrainSlope::NorthSouthEast, 0),
                (TerrainSlope::SouthWest, 0),
                (TerrainSlope::SouthEast, 0),
                (TerrainSlope::SouthNorthEast, 0),
                (TerrainSlope::SouthNorthWest, 0),
                (TerrainSlope::South2NorthEast, 0),
                (TerrainSlope::WestSouthEast2, 0),
                (TerrainSlope::All, 0),
                (TerrainSlope::SouthWestEast2NorthEast, 0),
                (TerrainSlope::SouthEastWest2NorthWest, 0),
                (TerrainSlope::NorthWestEast2SouthEast, 0),
                (TerrainSlope::All, -1),
                (TerrainSlope::West, -1),
                (TerrainSlope::North, -1),
                (TerrainSlope::NorthWest, -1),
                (TerrainSlope::SouthNorthWest, -1),
                (TerrainSlope::NorthSouthWest, -1),
                (TerrainSlope::NorthSouthEast, -1),
                (TerrainSlope::NorthEastWest2SouthWest, -1),
                (TerrainSlope::NorthEastWest2SouthWest, -2),
                (TerrainSlope::Flat, 1),
                (TerrainSlope::East, 1),
                (TerrainSlope::South, 1),
                (TerrainSlope::SouthWest, 1),
                (TerrainSlope::SouthEast, 1),
                (TerrainSlope::SouthNorthEast, 1),
                (TerrainSlope::NorthEast, 1),
            ],
            Self::Flat | Self::North | Self::West | Self::NorthWest | Self::NorthEast | Self::SouthWest | Self::NorthSouthWest | Self::NorthEastWest2SouthWest => vec![
                (TerrainSlope::Flat, 0),
                (TerrainSlope::South, 0),
                (TerrainSlope::SouthNorthEast, 0),
                (TerrainSlope::NorthEast, 0),
                (TerrainSlope::SouthWest, 0),
                (TerrainSlope::SouthEast, 0),
                (TerrainSlope::East, 0),
                (TerrainSlope::SouthWestEast2NorthEast, 0),
                (TerrainSlope::South2NorthEast, 0),
                (TerrainSlope::All, -1),
                (TerrainSlope::West, -1),
                (TerrainSlope::North, -1),
                (TerrainSlope::NorthWest, -1),
                (TerrainSlope::SouthNorthWest, -1),
                (TerrainSlope::NorthSouthWest, -1),
                (TerrainSlope::NorthSouthEast, -1),
                (TerrainSlope::NorthWestEast2SouthEast, -1),
                (TerrainSlope::SouthEastWest2NorthWest, -1),
                (TerrainSlope::WestNorthEast2, -1),
                (TerrainSlope::NorthEastWest2SouthWest, -2),
            ],
            Self::South | Self::East | Self::SouthEast | Self::SouthNorthEast | Self::SouthNorthWest | Self::NorthSouthEast | Self::All | Self::NorthWestEast2SouthEast | Self::SouthEastWest2NorthWest => vec![
                (TerrainSlope::All, 0),
                (TerrainSlope::West, 0),
                (TerrainSlope::NorthWest, 0),
                (TerrainSlope::SouthNorthWest, 0),
                (TerrainSlope::North, 0),
                (TerrainSlope::NorthSouthWest, 0),
                (TerrainSlope::NorthSouthEast, 0),
                (TerrainSlope::NorthWestEast2SouthEast, 0),
                (TerrainSlope::SouthEastWest2NorthWest, 0),
                (TerrainSlope::WestSouthEast2, 0),
                (TerrainSlope::SouthWest2NorthWest, 0),
                (TerrainSlope::Flat, 1),
                (TerrainSlope::East, 1),
                (TerrainSlope::South, 1),
                (TerrainSlope::SouthWest, 1),
                (TerrainSlope::SouthEast, 1),
                (TerrainSlope::SouthNorthEast, 1),
                (TerrainSlope::NorthEast, 1),
                (TerrainSlope::SouthWestEast2NorthEast, 1),
                (TerrainSlope::NorthEastWest2SouthWest, -1),
                (TerrainSlope::NorthWest2East, -1),
                (TerrainSlope::West2SouthEast, -1),
            ],
            Self::VertialCliff | Self::East2NorthWest | Self::North2SouthWest | Self::South2NorthWest | Self::East2SouthWest | Self::North2SouthEast | Self::West2NorthEast | Self::SouthNorthEast2 | Self::EastNorthWest2 | Self::NorthSouthWest2 | Self::SouthEast2West | Self::NorthEast2SouthEast | Self::SouthNorthWest2 | Self::EastSouthWest2 | Self::NorthSouthEast2 => vec![],
            Self::SouthWestEast2NorthEast => vec![
                (TerrainSlope::All, 1),
                (TerrainSlope::NorthWest, 1),
                (TerrainSlope::SouthNorthWest, 1),
                (TerrainSlope::North, 1),
                (TerrainSlope::West, 1),
                (TerrainSlope::Flat, 2),
                (TerrainSlope::SouthEast, 2),
                (TerrainSlope::East, 2),
                (TerrainSlope::South, 2),
            ],
            Self::South2NorthEast => vec![
                (TerrainSlope::Flat, 2),
            ],
            Self::West2SouthEast => vec![
                (TerrainSlope::SouthNorthWest, 0),
            ],
            Self::WestSouthEast2 => vec![
                (TerrainSlope::All, 1),
            ],
            Self::NorthWest2East => vec![
                (TerrainSlope::East, 0),
            ],
            Self::SouthWest2NorthWest | Self::WestNorthEast2 => vec![
                (TerrainSlope::SouthWest, 0),
            ],
        };
        proof {
            assert(r@ =~= south_east_neighbor_table(*self));
            assert forall|y: TerrainSlope, k: i8|
                is_ground_slope(*self) && is_ground_slope(y) && neighbor_meets(Compass::SouthEast, *self, (y, k)) implies #[trigger] r@.contains((y, k)) by {
                lemma_south_east_table_complete(*self, y, k);
            }
        }
        r
    }

    /// Slopes, each with its altitude offset, that may lie to the west of this tile.
    pub fn valid_west_neighbors(&self) -> (r: Vec<(TerrainSlope, i8)>)
        ensures
            r@ == west_neighbor_table(*self),
            *self != TerrainSlope::Undetermined ==> forall|i: int|
                0 <= i < r@.len() ==> neighbor_meets(Compass::West, *self, #[trigger] r@[i]),
            *self == TerrainSlope::VertialCliff ==> r@.len() == 0,
            is_ground_slope(*self) ==> forall|y: TerrainSlope, k: i8|
                is_ground_slope(y) && neighbor_meets(Compass::West, *self, (y, k)) ==> #[trigger] r@.contains((y, k)),
    {
        proof {
            if *self != TerrainSlope::Undetermined {
                lemma_west_table_meets(*self);
            }
        }
        let r = match self {
            Self::Undetermined => vec![
                (TerrainSlope::Flat, 0),
                (TerrainSlope::North, 0),
                (TerrainSlope::South, 0),
                (TerrainSlope::West, 0),
                (TerrainSlope::East, 0),
                (TerrainSlope::NorthWest, 0),
                (TerrainSlope::NorthEast, 0),
                (TerrainSlope::NorthSouthWest, 0),
                (TerrainSlope::NorthSouthEast, 0),
                (TerrainSlope::SouthWest, 0),
                (TerrainSlope::SouthEast, 0),
                (TerrainSlope::SouthNorthEast, 0),
                (TerrainSlope::SouthNorthWest, 0),
                (TerrainSlope::WestSouthEast2, 0),
                (TerrainSlope::All, 0),
                (TerrainSlope::Flat, 1),
                (TerrainSlope::West, 1),
                (TerrainSlope::SouthWest, 1),
                (TerrainSlope::NorthWest, 1),
                (TerrainSlope::SouthNorthWest, 1),
                (TerrainSlope::SouthEastWest2NorthWest, 1),
                (TerrainSlope::All, -1),
                (TerrainSlope::East, -1),
                (TerrainSlope::NorthSouthEast, -1),
                (TerrainSlope::SouthNorthEast, -1),
                (TerrainSlope::NorthWestEast2SouthEast, -1),
                (TerrainSlope::SouthWestEast2NorthEast, -1),
            ],
            Self::Flat | Self::East | Self::NorthEast | Self::SouthEast => vec![
                (TerrainSlope::Flat, 0),
                (TerrainSlope::West, 0),
                (TerrainSlope::SouthWest, 0),
                (TerrainSlope::NorthWest, 0),
                (TerrainSlope::All, -1),
                (TerrainSlope::East, -1),
                (TerrainSlope::SouthNorthEast, -1),
                (TerrainSlope::NorthSouthEast, -1),
            ],
            Self::South | Self::SouthWest | Self::SouthNorthEast | Self::SouthWestEast2NorthEast => vec![
                (TerrainSlope::SouthEast, 0),
                (TerrainSlope::South, 0),
                (TerrainSlope::SouthNorthWest, 0),
                (TerrainSlope::SouthEastWest2NorthWest, 0),
                (TerrainSlope::West2SouthEast, 0),
                (TerrainSlope::SouthWestEast2NorthEast, -1),
                (TerrainSlope::South2NorthEast, -1),
            ],
            Self::North | Self::NorthWest | Self::NorthSouthEast | Self::NorthWestEast2SouthEast => vec![
                (TerrainSlope::NorthEast, 0),
                (TerrainSlope::NorthWest2East, 0),
                (TerrainSlope::North, 0),
                (TerrainSlope::NorthSouthWest, 0),
                (TerrainSlope::NorthEastWest2SouthWest, 0),
                (TerrainSlope::NorthWestEast2SouthEast, -1),
            ],
            Self::West | Self::SouthNorthWest | Self::NorthSouthWest | Self::All => vec![
                (TerrainSlope::All, 0),
                (TerrainSlope::East, 0),
                (TerrainSlope::SouthNorthEast, 0),
                (TerrainSlope::NorthSouthEast, 0),
                (TerrainSlope::Flat, 1),
                (TerrainSlope::West, 1),
                (TerrainSlope::NorthWest, 1),
                (TerrainSlope::SouthWest, 1),
                (TerrainSlope::SouthWest2NorthWest, 1),
            ],
            Self::VertialCliff | Self::East2NorthWest | Self::North2SouthWest | Self::West2SouthEast | Self::South2NorthWest | Self::East2SouthWest | Self::North2SouthEast | Self::West2NorthEast | Self::SouthNorthEast2 | Self::EastNorthWest2 | Self::NorthSouthWest2 | Self::SouthWest2NorthWest | Self::SouthEast2West | Self::NorthEast2SouthEast | Self::SouthNorthWest2 | Self::EastSouthWest2 | Self::NorthSouthEast2 => vec![],
            Self::NorthEastWest2SouthWest => vec![
                (TerrainSlope::North, 1),
                (TerrainSlope::NorthSouthWest, 1),
                (TerrainSlope::NorthEastWest2SouthWest, 1),
            ],
            Self::SouthEastWest2NorthWest => vec![
                (TerrainSlope::SouthEast, 1),
                (TerrainSlope::South, 1),
                (TerrainSlope::SouthNorthWest, 1),
                (TerrainSlope::SouthEastWest2NorthWest, 1),
            ],
            Self::South2NorthEast => vec![
                (TerrainSlope::WestSouthEast2, 0),
            ],
            Self::WestSouthEast2 => vec![
                (TerrainSlope::Flat, 1),
            ],
            Self::NorthWest2East => vec![
                (TerrainSlope::WestNorthEast2, 0),
            ],
            Self::WestNorthEast2 => vec![
                (TerrainSlope::West, 1),
            ],
        };
        proof {
            assert(r@ =~= west_neighbor_table(*self));
            assert forall|y: TerrainSlope, k: i8|
                is_ground_slope(*self) && is_ground_slope(y) && neighbor_meets(Compass::West, *self, (y, k)) implies #[trigger] r@.contains((y, k)) by {
                lemma_west_table_complete(*self, y, k);
            }
        }
        r
    }

    /// Slopes, each with its altitude offset, that may lie to the east of this tile.
    pub fn valid_east_neighbor(&self) -> (r: Vec<(TerrainSlope, i8)>)
        ensures
            r@ == east_neighbor_table(*self),
            *self != TerrainSlope::Undetermined ==> forall|i: int|
                0 <= i < r@.len() ==> neighbor_meets(Compass::East, *self, #[trigger] r@[i]),
            *self == TerrainSlope::VertialCliff ==> r@.len() == 0,
            is_ground_slope(*self) ==> forall|y: TerrainSlope, k: i8|
                is_ground_slope(y) && neighbor_meets(Compass::East, *self, (y, k)) ==> #[trigger] r@.contains((y, k)),
    {
        proof {
            if *self != TerrainSlope::Undetermined {
                lemma_east_table_meets(*self);
            }
        }
        let r = match self {
            Self::Undetermined => vec![
                (TerrainSlope::Flat, 0),
                (TerrainSlope::North, 0),
                (TerrainSlope::South, 0),
                (TerrainSlope::West, 0),
                (TerrainSlope::East, 0),
                (TerrainSlope::NorthWest, 0),
                (TerrainSlope::NorthEast, 0),
                (TerrainSlope::NorthWest2East, 0),
                (TerrainSlope::NorthSouthWest, 0),
                (TerrainSlope::NorthSouthEast, 0),
                (TerrainSlope::SouthWest, 0),
                (TerrainSlope::SouthEast, 0),
                (TerrainSlope::SouthNorthEast, 0),
                (TerrainSlope::SouthNorthWest, 0),
                (TerrainSlope::All, 0),
                (TerrainSlope::SouthWestEast2NorthEast, 0),
                (TerrainSlope::NorthWestEast2SouthEast, 0),
                (TerrainSlope::Flat, 1),
                (TerrainSlope::East, 1),
                (TerrainSlope::SouthEast, 1),
                (TerrainSlope::NorthEast, 1),
                (TerrainSlope::NorthSouthEast, 1),
                (TerrainSlope::North, 1),
                (TerrainSlope::NorthWestEast2SouthEast, 1),
                (TerrainSlope::SouthWestEast2NorthEast, 1),
                (TerrainSlope::All, -1),
                (TerrainSlope::West, -1),
                (TerrainSlope::NorthSouthWest, -1),
                (TerrainSlope::SouthNorthWest, -1),
                (TerrainSlope::NorthEastWest2SouthWest, -1),
                (TerrainSlope::SouthEastWest2NorthWest, -1),
            ],
            Self::Flat | Self::West | Self::NorthWest | Self::SouthWest => vec![
                (TerrainSlope::Flat, 0),
                (TerrainSlope::East, 0),
                (TerrainSlope::NorthEast, 0),
                (TerrainSlope::SouthEast, 0),
                (TerrainSlope::All, -1),
                (TerrainSlope::West, -1),
                (TerrainSlope::SouthNorthWest, -1),
                (TerrainSlope::NorthSouthWest, -1),
                (TerrainSlope::WestSouthEast2, -1),
                (TerrainSlope::WestNorthEast2, -1),
            ],
            Self::South | Self::SouthEast | Self::SouthNorthWest | Self::SouthEastWest2NorthWest => vec![
                (TerrainSlope::SouthWest, 0),
                (TerrainSlope::South, 0),
                (TerrainSlope::SouthNorthEast, 0),
                (TerrainSlope::SouthWestEast2NorthEast, 0),
                (TerrainSlope::SouthEastWest2NorthWest, -1),
                (TerrainSlope::SouthWest2NorthWest, -1),
            ],
            Self::North | Self::NorthEast | Self::NorthSouthWest | Self::NorthEastWest2SouthWest => vec![
                (TerrainSlope::NorthWest, 0),
                (TerrainSlope::North, 0),
                (TerrainSlope::NorthSouthEast, 0),
                (TerrainSlope::NorthWestEast2SouthEast, 0),
                (TerrainSlope::NorthEastWest2SouthWest, -1),
            ],
            Self::East | Self::SouthNorthEast | Self::NorthSouthEast | Self::All => vec![
                (TerrainSlope::All, 0),
                (TerrainSlope::West, 0),
                (TerrainSlope::SouthNorthWest, 0),
                (TerrainSlope::NorthSouthWest, 0),
                (TerrainSlope::West2SouthEast, -1),
                (TerrainSlope::Flat, 1),
                (TerrainSlope::East, 1),
                (TerrainSlope::NorthEast, 1),
                (TerrainSlope::SouthEast, 1),
            ],
            Self::VertialCliff | Self::East2NorthWest | Self::North2SouthWest | Self::South2NorthWest | Self::East2SouthWest | Self::North2SouthEast | Self::West2NorthEast | Self::SouthNorthEast2 | Self::EastNorthWest2 | Self::NorthSouthWest2 | Self::SouthEast2West | Self::NorthEast2SouthEast | Self::SouthNorthWest2 | Self::EastSouthWest2 | Self::NorthSouthEast2 => vec![],
            Self::NorthWestEast2SouthEast => vec![
                (TerrainSlope::North, 1),
                (TerrainSlope::NorthWest, 1),
                (TerrainSlope::NorthSouthEast, 1),
                (TerrainSlope::NorthWestEast2SouthEast, 1),
            ],
            Self::SouthWestEast2NorthEast => vec![
                (TerrainSlope::SouthWest, 1),
                (TerrainSlope::South, 1),
                (TerrainSlope::SouthNorthEast, 1),
                (TerrainSlope::SouthWestEast2NorthEast, 1),
            ],
            Self::South2NorthEast => vec![
                (TerrainSlope::South, 1),
            ],
            Self::West2SouthEast => vec![
                (TerrainSlope::SouthWest, 0),
            ],
            Self::WestSouthEast2 => vec![
                (TerrainSlope::South2NorthEast, 0),
            ],
            Self::NorthWest2East => vec![
                (TerrainSlope::NorthWestEast2SouthEast, 0),
            ],
            Self::SouthWest2NorthWest => vec![
                (TerrainSlope::SouthNorthWest, -1),
            ],
            Self::WestNorthEast2 => vec![
                (TerrainSlope::NorthWest2East, 0),
            ],
        };
        proof {
            assert(r@ =~= east_neighbor_table(*self));
            assert forall|y: TerrainSlope, k: i8|
                is_ground_slope(*self) && is_ground_slope(y) && neighbor_meets(Compass::East, *self, (y, k)) implies #[trigger] r@.contains((y, k)) by {
                lemma_east_table_complete(*self, y, k);
            }
        }
        r
    }

}

/// Whether the slope is one of the fifteen kinds that a city file can store.
pub open spec fn is_stored_kind(s: TerrainSlope) -> bool {
    match s {
        TerrainSlope::Flat | TerrainSlope::North | TerrainSlope::East | TerrainSlope::South
        | TerrainSlope::West | TerrainSlope::NorthSouthEast | TerrainSlope::SouthNorthEast
        | TerrainSlope::SouthNorthWest | TerrainSlope::NorthSouthWest | TerrainSlope::NorthEast
        | TerrainSlope::SouthEast | TerrainSlope::SouthWest | TerrainSlope::NorthWest
        | TerrainSlope::All | TerrainSlope::VertialCliff => true,
        _ => false,
    }
}

/// The slope that a stored byte stands for; bytes from 0x0F on fall back to a flat tile.
pub open spec fn slope_of_byte(value: u8) -> TerrainSlope {
    if value == 0x00 { TerrainSlope::Flat }
    else if value == 0x01 { TerrainSlope::North }
    else if value == 0x02 { TerrainSlope::East }
    else if value == 0x03 { TerrainSlope::South }
    else if value == 0x04 { TerrainSlope::West }
    else if value == 0x05 { TerrainSlope::NorthSouthEast }
    else if value == 0x06 { TerrainSlope::SouthNorthEast }
    else if value == 0x07 { TerrainSlope::SouthNorthWest }
    else if value == 0x08 { TerrainSlope::NorthSouthWest }
    else if value == 0x09 { TerrainSlope::NorthEast }
    else if value == 0x0A { TerrainSlope::SouthEast }
    else if value == 0x0B { TerrainSlope::SouthWest }
    else if value == 0x0C { TerrainSlope::NorthWest }
    else if value == 0x0D { TerrainSlope::All }
    else if value == 0x0E { TerrainSlope::VertialCliff }
    else { TerrainSlope::Flat }
}

/// The byte under which a stored kind of slope is written.
pub open spec fn byte_of_slope(s: TerrainSlope) -> u8 {
    match s {
        TerrainSlope::Flat => 0x00,
        TerrainSlope::North => 0x01,
        TerrainSlope::East => 0x02,
        TerrainSlope::South => 0x03,
        TerrainSlope::West => 0x04,
        TerrainSlope::NorthSouthEast => 0x05,
        TerrainSlope::SouthNorthEast => 0x06,
        TerrainSlope::SouthNorthWest => 0x07,
        TerrainSlope::NorthSouthWest => 0x08,
        TerrainSlope::NorthEast => 0x09,
        TerrainSlope::SouthEast => 0x0A,
        TerrainSlope::SouthWest => 0x0B,
        TerrainSlope::NorthWest => 0x0C,
        TerrainSlope::All => 0x0D,
        _ => 0x0E,
    }
}

impl TerrainSlope {
    /// Reads a stored slope byte. Bytes from 0x0F on are out of range and read as a flat tile.
    pub fn try_from_u8(value: u8) -> (r: TerrainSlope)
        ensures
            r == slope_of_byte(value),
            is_stored_kind(r),
    {
        match value {
            0x00 => TerrainSlope::Flat,
            0x01 => TerrainSlope::North,
            0x02 => TerrainSlope::East,
            0x03 => TerrainSlope::South,
            0x04 => TerrainSlope::West,
            0x05 => TerrainSlope::NorthSouthEast,
            0x06 => TerrainSlope::SouthNorthEast,
            0x07 => TerrainSlope::SouthNorthWest,
            0x08 => TerrainSlope::NorthSouthWest,
            0x09 => TerrainSlope::NorthEast,
            0x0A => TerrainSlope::SouthEast,
            0x0B => TerrainSlope::SouthWest,
            0x0C => TerrainSlope::NorthWest,
            0x0D => TerrainSlope::All,
            0x0E => TerrainSlope::VertialCliff,
            _ => TerrainSlope::Flat,
        }
    }

    /// Writes a stored kind of slope as its byte. The undetermined slope and the
    /// non-standard slopes have no byte.
    pub fn into_u8(self) -> (r: u8)
        requires
            is_stored_kind(self),
        ensures
            r == byte_of_slope(self),
            r <= 0x0E,
    {
        match self {
            TerrainSlope::Flat => 0x00,
            TerrainSlope::North => 0x01,
            TerrainSlope::East => 0x02,
            TerrainSlope::South => 0x03,
            TerrainSlope::West => 0x04,
            TerrainSlope::NorthSouthEast => 0x05,
            TerrainSlope::SouthNorthEast => 0x06,
            TerrainSlope::SouthNorthWest => 0x07,
            TerrainSlope::NorthSouthWest => 0x08,
            TerrainSlope::NorthEast => 0x09,
            TerrainSlope::SouthEast => 0x0A,
            TerrainSlope::SouthWest => 0x0B,
            TerrainSlope::NorthWest => 0x0C,
            TerrainSlope::All => 0x0D,
            _ => 0x0E,
        }
    }
}

/// Reading back the byte of a stored kind of slope gives the same slope.
pub proof fn lemma_slope_byte_round_trip(s: TerrainSlope)
    requires
        is_stored_kind(s),
    ensures
        slope_of_byte(byte_of_slope(s)) == s,
{
}

/// Every byte up to 0x0E is written back unchanged after it is read.
pub proof fn lemma_byte_slope_round_trip(value: u8)
    requires
        value <= 0x0E,
    ensures
        byte_of_slope(slope_of_byte(value)) == value,
{
}

} // verus!
