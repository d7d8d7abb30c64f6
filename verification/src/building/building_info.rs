use vstd::prelude::*;

use crate::tile_coords_xz::TileCoordsXZ;
use crate::tile_coverage::TileCoverage;
use crate::PlayerId;

verus! {

/// Something with an owner.
pub trait WithOwner {
    spec fn spec_owner(&self) -> PlayerId;

    fn owner_id(&self) -> (r: PlayerId)
        ensures
            r == self.spec_owner(),
    ;
}

/// Something that covers tiles of the map.
pub trait WithTileCoverage {
    /// The covered tiles can be computed.
    spec fn coverage_valid(&self) -> bool;

    spec fn spec_coverage(&self) -> TileCoverage;

    fn covers_tiles(&self) -> (r: TileCoverage)
        requires
            self.coverage_valid(),
        ensures
            r == self.spec_coverage(),
    ;
}

/// What does not change about a building: its owner and where it stands.
#[derive(Clone, Copy, PartialEq, Eq, Structural, Debug)]
pub struct BuildingStaticInfo {
    owner_id: PlayerId,
    reference_tile: TileCoordsXZ,
}

impl BuildingStaticInfo {
    pub closed spec fn spec_owner_id(self) -> PlayerId {
        self.owner_id
    }

    pub closed spec fn spec_reference_tile(self) -> TileCoordsXZ {
        self.reference_tile
    }

    pub closed spec fn spec_new(owner_id: PlayerId, reference_tile: TileCoordsXZ) -> BuildingStaticInfo {
        BuildingStaticInfo { owner_id, reference_tile }
    }

    pub broadcast proof fn lemma_spec_new(owner_id: PlayerId, reference_tile: TileCoordsXZ)
        ensures
            #[trigger] Self::spec_new(owner_id, reference_tile).spec_owner_id() == owner_id,
            Self::spec_new(owner_id, reference_tile).spec_reference_tile() == reference_tile,
    {
    }

    pub fn new(owner_id: PlayerId, reference_tile: TileCoordsXZ) -> (r: BuildingStaticInfo)
        ensures
            r == Self::spec_new(owner_id, reference_tile),
            r.spec_owner_id() == owner_id,
            r.spec_reference_tile() == reference_tile,
    {
        BuildingStaticInfo { owner_id, reference_tile }
    }

    pub fn owner_id(&self) -> (r: PlayerId)
        ensures
            r == self.spec_owner_id(),
    {
        self.owner_id
    }

    pub fn reference_tile(&self) -> (r: TileCoordsXZ)
        ensures
            r == self.spec_reference_tile(),
    {
        self.reference_tile
    }
}

} // verus!
