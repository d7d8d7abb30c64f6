use vstd::prelude::*;

use crate::building::military_unit_type::MilitaryUnitType;
use crate::tile_coords_xz::TileCoordsXZ;
use crate::MilitaryUnitId;

verus! {

/// Where a military unit is: fixed on a tile, or able to move and currently on a tile.
#[derive(Clone, Copy, PartialEq, Eq, Structural, Debug)]
pub enum MilitaryUnitLocation {
    Fixed(TileCoordsXZ),
    Movable(TileCoordsXZ),
}

/// A military unit on the map.
#[derive(Clone, Copy, PartialEq, Eq, Structural, Debug)]
pub struct MilitaryUnitInfo {
    pub id: MilitaryUnitId,
    pub unit_type: MilitaryUnitType,
    pub location: MilitaryUnitLocation,
}

} // verus!
