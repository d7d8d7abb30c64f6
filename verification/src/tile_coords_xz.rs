use vstd::prelude::*;

use crate::direction_xz::DirectionXZ;

verus! {

/// A distance between tiles, counted in tiles.
pub type TileDistance = i32;

/// The coordinates of a tile on the map.
#[derive(Clone, Copy, PartialEq, Eq, Structural, Debug, Hash, PartialOrd, Ord)]
pub struct TileCoordsXZ {
    pub x: i32,
    pub z: i32,
}

/// Whether an integer fits in an `i32`.
pub open spec fn fits_i32(v: int) -> bool {
    i32::MIN <= v <= i32::MAX
}

/// The tile at the given integer coordinates (meaningful when both fit in `i32`).
pub open spec fn tile_at(x: int, z: int) -> TileCoordsXZ {
    TileCoordsXZ { x: x as i32, z: z as i32 }
}

impl TileCoordsXZ {
    /// The origin tile.
    pub fn zero() -> (r: TileCoordsXZ)
        ensures
            r.x == 0,
            r.z == 0,
    {
        TileCoordsXZ { x: 0, z: 0 }
    }

    /// The neighbouring tile in `direction`.
    pub open spec fn step(self, direction: DirectionXZ) -> TileCoordsXZ {
        tile_at(self.x + direction.dx(), self.z + direction.dz())
    }

    /// Whether the neighbouring tile in `direction` has representable coordinates.
    pub open spec fn can_step(self, direction: DirectionXZ) -> bool {
        fits_i32(self.x + direction.dx()) && fits_i32(self.z + direction.dz())
    }

    /// The tile offset by `other`.
    pub open spec fn offset(self, other: TileCoordsXZ) -> TileCoordsXZ {
        tile_at(self.x + other.x, self.z + other.z)
    }

    /// Whether `self + other` has representable coordinates.
    pub open spec fn can_offset(self, other: TileCoordsXZ) -> bool {
        fits_i32(self.x + other.x) && fits_i32(self.z + other.z)
    }

    pub fn new(x: i32, z: i32) -> (r: TileCoordsXZ)
        ensures
            r.x == x,
            r.z == z,
    {
        TileCoordsXZ { x, z }
    }

    /// The tile at the given non-negative coordinates.
    pub fn from_usizes(x: usize, z: usize) -> (r: TileCoordsXZ)
        requires
            x <= i32::MAX,
            z <= i32::MAX,
        ensures
            r.x == x,
            r.z == z,
    {
        TileCoordsXZ { x: x as i32, z: z as i32 }
    }

    /// The neighbouring tile in `direction`.
    pub fn plus_direction(self, direction: DirectionXZ) -> (r: TileCoordsXZ)
        requires
            self.can_step(direction),
        ensures
            r == self.step(direction),
            r.x == self.x + direction.dx(),
            r.z == self.z + direction.dz(),
    {
        match direction {
            DirectionXZ::North => TileCoordsXZ { x: self.x, z: self.z - 1 },
            DirectionXZ::East => TileCoordsXZ { x: self.x + 1, z: self.z },
            DirectionXZ::South => TileCoordsXZ { x: self.x, z: self.z + 1 },
            DirectionXZ::West => TileCoordsXZ { x: self.x - 1, z: self.z },
        }
    }

    /// The component-wise sum of two tile coordinates.
    pub fn plus(self, other: TileCoordsXZ) -> (r: TileCoordsXZ)
        requires
            self.can_offset(other),
        ensures
            r == self.offset(other),
            r.x == self.x + other.x,
            r.z == self.z + other.z,
    {
        TileCoordsXZ { x: self.x + other.x, z: self.z + other.z }
    }

    /// The component-wise difference of two tile coordinates.
    pub fn minus(self, other: TileCoordsXZ) -> (r: TileCoordsXZ)
        requires
            fits_i32(self.x - other.x),
            fits_i32(self.z - other.z),
        ensures
            r.x == self.x - other.x,
            r.z == self.z - other.z,
    {
        TileCoordsXZ { x: self.x - other.x, z: self.z - other.z }
    }
}

/// Stepping into a direction and then back returns to the starting tile.
pub proof fn lemma_step_back(tile: TileCoordsXZ, direction: DirectionXZ)
    requires
        tile.can_step(direction),
    ensures
        tile.step(direction).can_step(direction.spec_reverse()),
        tile.step(direction).step(direction.spec_reverse()) == tile,
{
}

} // verus!
