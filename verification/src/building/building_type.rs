use vstd::prelude::*;

use crate::building::industry_type::IndustryType;
use crate::building::station_type::StationType;
use crate::tile_coords_xz::TileCoordsXZ;
use crate::tile_coverage::TileCoverage;
use crate::transport::track_type::TrackType;

verus! {

/// What kind of building stands somewhere: a station or an industry.
#[derive(Clone, Copy, PartialEq, Eq, Structural, Debug)]
pub enum BuildingType {
    Station(StationType),
    Industry(IndustryType),
}

impl BuildingType {
    pub open spec fn valid(self) -> bool {
        match self {
            BuildingType::Station(station_type) => station_type.valid(),
            BuildingType::Industry(_) => true,
        }
    }

    pub open spec fn spec_relative_tiles_used(self) -> TileCoverage {
        match self {
            BuildingType::Industry(industry_type) => industry_type.spec_relative_tiles_used(),
            BuildingType::Station(station_type) => station_type.spec_relative_tiles_used(),
        }
    }

    /// The track types at `relative_tile`: a station's track on its own tiles, nothing else.
    pub open spec fn spec_track_types_at(self, relative_tile: TileCoordsXZ) -> Seq<TrackType> {
        match self {
            BuildingType::Industry(_) => Seq::empty(),
            BuildingType::Station(station_type) => {
                if station_type.spec_relative_tiles_used().spec_contains(relative_tile) {
                    seq![station_type.spec_track_type()]
                } else {
                    Seq::empty()
                }
            },
        }
    }

    pub fn track_types_at(self, relative_tile: TileCoordsXZ) -> (r: Vec<TrackType>)
        requires
            self.valid(),
        ensures
            r@ == self.spec_track_types_at(relative_tile),
    {
        match self {
            BuildingType::Industry(_) => vec![],
            BuildingType::Station(station_type) => {
                if station_type.relative_tiles_used().contains(relative_tile) {
                    vec![station_type.track_type()]
                } else {
                    vec![]
                }
            },
        }
    }

    pub fn relative_tiles_used(self) -> (r: TileCoverage)
        requires
            self.valid(),
        ensures
            r == self.spec_relative_tiles_used(),
    {
        match self {
            BuildingType::Industry(industry_type) => industry_type.relative_tiles_used(),
            BuildingType::Station(station_type) => station_type.relative_tiles_used(),
        }
    }
}

} // verus!
