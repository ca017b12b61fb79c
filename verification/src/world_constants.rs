//! The sizes that turn tile positions into world positions.

use vstd::prelude::*;

verus! {

/// The width and the height of a tile in world units.
#[derive(Clone, Copy, Debug)]
pub struct WorldConstants {
    tile_size: u8,
    tile_height: u8,
}

impl View for WorldConstants {
    /// The width and the height of a tile.
    type V = (u8, u8);

    closed spec fn view(&self) -> (u8, u8) {
        (self.tile_size, self.tile_height)
    }
}

impl Default for WorldConstants {
    /// Both sizes zero, as a fresh resource has them.
    fn default() -> (r: Self)
        ensures
            r@ == (0u8, 0u8),
    {
        WorldConstants { tile_size: 0, tile_height: 0 }
    }
}

impl WorldConstants {
    /// Constants with both sizes given.
    pub fn new(tile_size: u8, tile_height: u8) -> (r: Self)
        ensures
            r@ == (tile_size, tile_height),
    {
        WorldConstants { tile_size, tile_height }
    }

    /// The width of a tile.
    pub fn tile_size(&self) -> (r: u8)
        ensures
            r == self@.0,
    {
        self.tile_size
    }

    /// Sets the width of a tile.
    pub fn set_tile_size(&mut self, value: u8)
        ensures
            final(self)@ == (value, old(self)@.1),
    {
        self.tile_size = value;
    }

    /// The height of one level of altitude.
    pub fn tile_height(&self) -> (r: u8)
        ensures
            r == self@.1,
    {
        self.tile_height
    }

    /// Sets the height of one level of altitude.
    pub fn set_tile_height(&mut self, value: u8)
        ensures
            final(self)@ == (old(self)@.0, value),
    {
        self.tile_height = value;
    }
}

} // verus!
