use vstd::prelude::*;

use crate::building::WithRelativeTileCoverage;
use crate::building::building_info::{WithOwner, WithTileCoverage};
use crate::id_map::Keyed;

use crate::building::military_building_type::MilitaryBuildingType;
use crate::tile_coords_xz::TileCoordsXZ;
use crate::tile_coverage::TileCoverage;
use crate::{MilitaryBuildingId, PlayerId};

verus! {

/// A military building placed on the map.
#[derive(Clone, Copy, PartialEq, Eq, Structural, Debug)]
pub struct MilitaryBuildingInfo {
    id: MilitaryBuildingId,
    owner_id: PlayerId,
    military_building_type: MilitaryBuildingType,
    reference_tile: TileCoordsXZ,
}

impl MilitaryBuildingInfo {
    pub closed spec fn spec_id(self) -> MilitaryBuildingId {
        self.id
    }

    pub closed spec fn spec_owner_id(self) -> PlayerId {
        self.owner_id
    }

    pub closed spec fn spec_military_building_type(self) -> MilitaryBuildingType {
        self.military_building_type
    }

    pub closed spec fn spec_reference_tile(self) -> TileCoordsXZ {
        self.reference_tile
    }

    /// The tile the building covers: its reference tile.
    pub open spec fn spec_covers_tiles(self) -> TileCoverage {
        TileCoverage::Single(self.spec_reference_tile())
    }

    pub fn new(
        id: MilitaryBuildingId,
        owner_id: PlayerId,
        military_building_type: MilitaryBuildingType,
        reference_tile: TileCoordsXZ,
    ) -> (r: MilitaryBuildingInfo)
        ensures
            r.spec_id() == id,
            r.spec_owner_id() == owner_id,
            r.spec_military_building_type() == military_building_type,
            r.spec_reference_tile() == reference_tile,
    {
        MilitaryBuildingInfo { id, owner_id, military_building_type, reference_tile }
    }

    pub fn id(&self) -> (r: MilitaryBuildingId)
        ensures
            r == self.spec_id(),
    {
        self.id
    }

    pub fn owner_id(&self) -> (r: PlayerId)
        ensures
            r == self.spec_owner_id(),
    {
        self.owner_id
    }

    pub fn military_building_type(&self) -> (r: MilitaryBuildingType)
        ensures
            r == self.spec_military_building_type(),
    {
        self.military_building_type
    }

    pub fn reference_tile(&self) -> (r: TileCoordsXZ)
        ensures
            r == self.spec_reference_tile(),
    {
        self.reference_tile
    }

    pub fn covers_tiles(&self) -> (r: TileCoverage)
        ensures
            r == self.spec_covers_tiles(),
            r.non_empty(),
    {
        proof {
            assert(self.spec_reference_tile().can_offset(TileCoordsXZ { x: 0, z: 0 }));
            assert(self.spec_reference_tile().offset(TileCoordsXZ { x: 0, z: 0 }) == self.spec_reference_tile());
        }
        self.military_building_type.relative_tiles_used().offset_by(self.reference_tile)
    }
}

impl Keyed for MilitaryBuildingInfo {
    closed spec fn spec_key(&self) -> u128 {
        self.id.0
    }

    fn key(&self) -> (r: u128) {
        self.id.0
    }
}

/// The key of a value is the raw value of its identifier.
pub broadcast proof fn lemma_key_is_id(info: MilitaryBuildingInfo)
    ensures
        #[trigger] info.spec_key() == info.spec_id().0,
{
}

impl WithOwner for MilitaryBuildingInfo {
    open spec fn spec_owner(&self) -> PlayerId {
        self.spec_owner_id()
    }

    fn owner_id(&self) -> (r: PlayerId) {
        MilitaryBuildingInfo::owner_id(self)
    }
}

impl WithTileCoverage for MilitaryBuildingInfo {
    open spec fn coverage_valid(&self) -> bool {
        true
    }

    open spec fn spec_coverage(&self) -> TileCoverage {
        self.spec_covers_tiles()
    }

    fn covers_tiles(&self) -> (r: TileCoverage) {
        MilitaryBuildingInfo::covers_tiles(self)
    }
}

impl WithRelativeTileCoverage for MilitaryBuildingInfo {
    open spec fn relative_coverage_valid(&self) -> bool {
        true
    }

    open spec fn spec_relative_coverage(&self) -> TileCoverage {
        self.spec_military_building_type().spec_relative_tiles_used()
    }

    fn relative_tiles_used(&self) -> (r: TileCoverage) {
        self.military_building_type.relative_tiles_used()
    }
}

} // verus!
