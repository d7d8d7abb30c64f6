use vstd::prelude::*;

use crate::building::WithRelativeTileCoverage;
use crate::building::industry_type::IndustryType;
use crate::military::ProjectileType;
use crate::tile_coords_xz::TileCoordsXZ;
use crate::tile_coverage::TileCoverage;

verus! {

/// A kind of military building.
#[derive(Clone, Copy, PartialEq, Eq, Structural, Debug, Hash)]
pub enum MilitaryBuildingType {
    FixedArtillery,
}

impl MilitaryBuildingType {
    pub fn all() -> (r: Vec<MilitaryBuildingType>)
        ensures
            r@ == seq![MilitaryBuildingType::FixedArtillery],
    {
        vec![MilitaryBuildingType::FixedArtillery]
    }

    /// The projectile the building fires.
    pub fn projectile_type(&self) -> (r: ProjectileType)
        ensures
            r == ProjectileType::Standard,
    {
        match self {
            MilitaryBuildingType::FixedArtillery => ProjectileType::Standard,
        }
    }

    /// Military buildings cover a single tile.
    pub open spec fn spec_relative_tiles_used(self) -> TileCoverage {
        TileCoverage::Single(TileCoordsXZ { x: 0i32, z: 0i32 })
    }

    pub fn relative_tiles_used(&self) -> (r: TileCoverage)
        ensures
            r == self.spec_relative_tiles_used(),
    {
        match self {
            MilitaryBuildingType::FixedArtillery => TileCoverage::single_at_zero(),
        }
    }

    /// The industry whose stock pays for building this military building.
    pub fn cost_provider(&self) -> (r: IndustryType)
        ensures
            r == IndustryType::MilitaryBase,
    {
        match self {
            MilitaryBuildingType::FixedArtillery => IndustryType::MilitaryBase,
        }
    }
}

impl WithRelativeTileCoverage for MilitaryBuildingType {
    open spec fn relative_coverage_valid(&self) -> bool {
        true
    }

    open spec fn spec_relative_coverage(&self) -> TileCoverage {
        self.spec_relative_tiles_used()
    }

    fn relative_tiles_used(&self) -> (r: TileCoverage) {
        MilitaryBuildingType::relative_tiles_used(self)
    }
}

} // verus!
