pub mod building_info;
pub mod building_state;
pub mod building_type;
pub mod industry_building_info;
pub mod industry_type;
pub mod military_building_info;
pub mod military_building_type;
pub mod military_unit_info;
pub mod military_unit_type;
pub mod station_info;
pub mod station_links;
pub mod station_type;
pub mod track_info;
pub mod track_state;

use vstd::prelude::*;

use crate::tile_coverage::TileCoverage;

verus! {

/// Something that uses tiles around a reference tile, given relative to it.
pub trait WithRelativeTileCoverage {
    /// The relative tiles can be computed.
    spec fn relative_coverage_valid(&self) -> bool;

    spec fn spec_relative_coverage(&self) -> TileCoverage;

    fn relative_tiles_used(&self) -> (r: TileCoverage)
        requires
            self.relative_coverage_valid(),
        ensures
            r == self.spec_relative_coverage(),
    ;
}

/// Why something cannot be built.
#[derive(Clone, Copy, PartialEq, Eq, Structural, Debug)]
pub enum BuildError {
    InvalidOverlap,
    InvalidTerrain,
    InvalidZoning,
    NotEnoughResources,
    InvalidOwner,
    UnknownError,
}

} // verus!
