use vstd::prelude::*;

use crate::tile_coords_xz::TileCoordsXZ;
use crate::tile_coverage::TileCoverage;

verus! {

/// A kind of production site.
#[derive(Debug, PartialEq, Eq, Structural, Clone, Copy, Hash)]
pub enum ProductionType {
    CoalMine,
    IronMine,
    IronWorks,
    CargoPort,
}

impl ProductionType {
    pub fn all() -> (r: [ProductionType; 4])
        ensures
            r@ == seq![
                ProductionType::CoalMine,
                ProductionType::IronMine,
                ProductionType::IronWorks,
                ProductionType::CargoPort,
            ],
    {
        [ProductionType::CoalMine, ProductionType::IronMine, ProductionType::IronWorks, ProductionType::CargoPort]
    }

    /// Every production site uses the three by three tiles around its reference tile.
    pub fn relative_tiles_used(self) -> (r: TileCoverage)
        ensures
            r == (TileCoverage::Rectangular {
                north_west_inclusive: TileCoordsXZ { x: -1i32, z: -1i32 },
                south_east_inclusive: TileCoordsXZ { x: 1i32, z: 1i32 },
            }),
    {
        TileCoverage::Rectangular {
            north_west_inclusive: TileCoordsXZ::new(-1, -1),
            south_east_inclusive: TileCoordsXZ::new(1, 1),
        }
    }
}

} // verus!
