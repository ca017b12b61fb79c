//! Turning tile positions into positions on the world grid, in whole world units.

use vstd::prelude::*;

use crate::numbers::{clamp_to, Uf32};
use crate::world_constants::WorldConstants;

verus! {

/// The largest value of a `Uf32`.
pub open spec fn uf32_max() -> u32 {
    16777216
}

/// Converts tile positions of a city to world positions.
#[derive(Clone, Copy, Debug)]
pub struct CityCoordsFeature {
    world_constants: WorldConstants,
    sea_level: Uf32,
}

/// A point of the world grid, each component in world units.
pub type GridPoint = (Uf32, Uf32, Uf32);

impl View for CityCoordsFeature {
    /// The tile width, the tile height and the sea level.
    type V = (u8, u8, u32);

    closed spec fn view(&self) -> (u8, u8, u32) {
        (self.world_constants@.0, self.world_constants@.1, self.sea_level@)
    }
}

impl CityCoordsFeature {
    /// The converter of a city with the given sea level.
    pub closed spec fn wf(&self) -> bool {
        self.sea_level.wf()
    }

    /// A converter for a city whose sea level is given in levels of altitude.
    pub fn new(world_constants: WorldConstants, sea_level: u32) -> (r: Self)
        requires
            sea_level <= uf32_max(),
        ensures
            r.wf(),
            r@ == (world_constants@.0, world_constants@.1, sea_level),
    {
        CityCoordsFeature { world_constants, sea_level: Uf32::new(sea_level) }
    }

    /// The tile width, the tile height and the sea level.
    pub fn dimensions(&self) -> (r: (u8, u8, u32))
        ensures
            r == self@,
    {
        (self.world_constants.tile_size(), self.world_constants.tile_height(), self.sea_level.into_u32())
    }

    /// The world position of a tile corner at an altitude: the tile position times the
    /// tile width, and the altitude, but not below one level under the sea, times the tile
    /// height. Each component is held within the range of a `Uf32`.
    pub fn get_world_coords(&self, x: u32, y: u32, z: u32) -> (r: GridPoint)
        requires
            self.wf(),
            x <= uf32_max(),
            y <= uf32_max(),
            z <= uf32_max(),
            self@.2 >= 1,
            x * self@.0 <= u32::MAX,
            y * self@.0 <= u32::MAX,
            (if z >= self@.2 - 1 { z as int } else { self@.2 - 1 }) * self@.1 <= u32::MAX,
        ensures
            r.0@ == clamp_to(x * self@.0, 0, uf32_max()),
            r.1@ == clamp_to((if z >= self@.2 - 1 { z as int } else { self@.2 - 1 }) * self@.1, 0, uf32_max()),
            r.2@ == clamp_to(y * self@.0, 0, uf32_max()),
            r.0.wf() && r.1.wf() && r.2.wf(),
    {
        let tile_size = Uf32::new(self.world_constants.tile_size() as u32);
        let tile_height = Uf32::new(self.world_constants.tile_height() as u32);
        let x = Uf32::new(x);
        let y = Uf32::new(y);
        let z = Uf32::new(z);
        let floor = self.sea_level.sub(Uf32::new(1));
        let level = z.max_of(floor);
        (x.mul(tile_size), level.mul(tile_height), y.mul(tile_size))
    }

    /// The tile whose corner a building of a given size is placed at: city files give the
    /// bottom left tile, so the row moves up by the size less one.
    pub fn building_origin(x: u32, y: u32, size: u8) -> (r: (u32, u32))
        requires
            size >= 1,
            y >= size - 1,
        ensures
            r == (x, (y - (size - 1)) as u32),
    {
        (x, y - (size as u32 - 1))
    }

    /// Twice the offset from a building's corner to its center, in world units: its size
    /// times the tile width.
    pub fn building_span(&self, size: u8) -> (r: u8)
        requires
            size * self@.0 <= u8::MAX,
        ensures
            r == size * self@.0,
    {
        size * self.world_constants.tile_size()
    }
}

} // verus!
