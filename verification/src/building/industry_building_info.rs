use vstd::prelude::*;

use crate::building::WithRelativeTileCoverage;
use crate::building::building_info::{WithOwner, WithTileCoverage};
use crate::id_map::Keyed;

use crate::building::building_info::BuildingStaticInfo;
use crate::building::industry_type::IndustryType;
use crate::building::station_type::{StationOrientation, StationType};
use crate::map_level::zoning::ZoningType;
use crate::resource_type::ResourceType;
use crate::tile_coords_xz::{fits_i32, tile_at, TileCoordsXZ};
use crate::tile_coverage::TileCoverage;
use crate::{IndustryBuildingId, PlayerId};

verus! {

/// An industry building placed on the map.
#[derive(Clone, Copy, PartialEq, Eq, Structural, Debug)]
pub struct IndustryBuildingInfo {
    id: IndustryBuildingId,
    industry_type: IndustryType,
    static_info: BuildingStaticInfo,
}

/// The station of one platform of four tiles running north to south.
pub open spec fn ns_1_4() -> StationType {
    StationType { orientation: StationOrientation::NorthToSouth, platforms: 1, length_in_tiles: 4 }
}

/// The station of one platform of four tiles running east to west.
pub open spec fn ew_1_4() -> StationType {
    StationType { orientation: StationOrientation::EastToWest, platforms: 1, length_in_tiles: 4 }
}

/// The places, relative to an industry's reference tile, where a station serving it could
/// stand: north-south stations two tiles west and east, for `z` from -4 to 1, then
/// east-west stations two tiles north and south, for `x` from -4 to 1.
pub open spec fn relative_candidate_station_locations() -> Seq<(TileCoordsXZ, StationType)> {
    Seq::new(
        24,
        |i: int|
            if i < 12 {
                (tile_at(if i % 2 == 0 { -2 } else { 2 }, i / 2 - 4), ns_1_4())
            } else {
                (tile_at((i - 12) / 2 - 4, if i % 2 == 0 { -2 } else { 2 }), ew_1_4())
            },
    )
}

impl IndustryBuildingInfo {
    pub closed spec fn spec_id(self) -> IndustryBuildingId {
        self.id
    }

    pub closed spec fn spec_industry_type(self) -> IndustryType {
        self.industry_type
    }

    pub closed spec fn spec_owner_id(self) -> PlayerId {
        self.static_info.spec_owner_id()
    }

    pub closed spec fn spec_reference_tile(self) -> TileCoordsXZ {
        self.static_info.spec_reference_tile()
    }

    /// The building that `new` makes from these parts.
    pub closed spec fn spec_new(
        owner_id: PlayerId,
        id: IndustryBuildingId,
        reference_tile: TileCoordsXZ,
        industry_type: IndustryType,
    ) -> IndustryBuildingInfo {
        IndustryBuildingInfo {
            id,
            industry_type,
            static_info: BuildingStaticInfo::spec_new(owner_id, reference_tile),
        }
    }

    /// The parts of a building made by `new`.
    pub broadcast proof fn lemma_spec_new(
        owner_id: PlayerId,
        id: IndustryBuildingId,
        reference_tile: TileCoordsXZ,
        industry_type: IndustryType,
    )
        ensures
            #[trigger] Self::spec_new(owner_id, id, reference_tile, industry_type).spec_id() == id,
            Self::spec_new(owner_id, id, reference_tile, industry_type).spec_owner_id() == owner_id,
            Self::spec_new(owner_id, id, reference_tile, industry_type).spec_reference_tile() == reference_tile,
            Self::spec_new(owner_id, id, reference_tile, industry_type).spec_industry_type() == industry_type,
    {
        BuildingStaticInfo::lemma_spec_new(owner_id, reference_tile);
    }

    /// The tiles around the reference tile that the building covers are representable.
    pub open spec fn valid(self) -> bool {
        &&& fits_i32(self.spec_reference_tile().x - 1)
        &&& fits_i32(self.spec_reference_tile().x + 1)
        &&& fits_i32(self.spec_reference_tile().z - 1)
        &&& fits_i32(self.spec_reference_tile().z + 1)
    }

    /// The tiles the building covers: the 3 by 3 square around its reference tile.
    pub open spec fn spec_covers_tiles(self) -> TileCoverage {
        self.spec_industry_type().spec_relative_tiles_used().spec_offset_by(self.spec_reference_tile())
    }

    pub fn new(
        owner_id: PlayerId,
        id: IndustryBuildingId,
        reference_tile: TileCoordsXZ,
        industry_type: IndustryType,
    ) -> (r: IndustryBuildingInfo)
        ensures
            r == Self::spec_new(owner_id, id, reference_tile, industry_type),
            r.spec_id() == id,
            r.spec_owner_id() == owner_id,
            r.spec_reference_tile() == reference_tile,
            r.spec_industry_type() == industry_type,
    {
        IndustryBuildingInfo {
            id,
            industry_type,
            static_info: BuildingStaticInfo::new(owner_id, reference_tile),
        }
    }

    pub fn id(&self) -> (r: IndustryBuildingId)
        ensures
            r == self.spec_id(),
    {
        self.id
    }

    pub fn industry_type(&self) -> (r: IndustryType)
        ensures
            r == self.spec_industry_type(),
    {
        self.industry_type
    }

    pub fn reference_tile(&self) -> (r: TileCoordsXZ)
        ensures
            r == self.spec_reference_tile(),
    {
        self.static_info.reference_tile()
    }

    pub fn owner_id(&self) -> (r: PlayerId)
        ensures
            r == self.spec_owner_id(),
    {
        self.static_info.owner_id()
    }

    pub fn required_zoning(&self) -> (r: Option<ZoningType>)
        ensures
            r == self.spec_industry_type().spec_required_zoning(),
    {
        self.industry_type.required_zoning()
    }

    /// The resources the building consumes, each once.
    pub fn industry_transform_inputs(&self) -> (r: Vec<ResourceType>)
        ensures
            r@ == self.spec_industry_type().spec_inputs(),
            r@.no_duplicates(),
    {
        proof {
            crate::building::industry_type::lemma_no_repeated_resources(self.industry_type);
        }
        self.industry_type.input_resource_types()
    }

    pub fn relative_tiles_used(&self) -> (r: TileCoverage)
        ensures
            r == self.spec_industry_type().spec_relative_tiles_used(),
    {
        self.industry_type.relative_tiles_used()
    }

    pub fn covers_tiles(&self) -> (r: TileCoverage)
        requires
            self.valid(),
        ensures
            r == self.spec_covers_tiles(),
            r.non_empty(),
            r.lo() == tile_at(self.spec_reference_tile().x - 1, self.spec_reference_tile().z - 1),
            r.hi() == tile_at(self.spec_reference_tile().x + 1, self.spec_reference_tile().z + 1),
    {
        self.relative_tiles_used().offset_by(self.reference_tile())
    }

    /// Where a station serving this building could stand, in absolute tiles.
    pub fn candidate_station_locations(&self) -> (r: Vec<(TileCoordsXZ, StationType)>)
        requires
            fits_i32(self.spec_reference_tile().x - 4),
            fits_i32(self.spec_reference_tile().x + 2),
            fits_i32(self.spec_reference_tile().z - 4),
            fits_i32(self.spec_reference_tile().z + 2),
        ensures
            r@.len() == 24,
            forall|i: int|
                0 <= i < 24 ==> #[trigger] r@[i] == (
                    relative_candidate_station_locations()[i].0.offset(self.spec_reference_tile()),
                    relative_candidate_station_locations()[i].1,
                ),
    {
        let reference_tile = self.reference_tile();
        let ns = StationType {
            orientation: StationOrientation::NorthToSouth,
            platforms: 1,
            length_in_tiles: 4,
        };
        let ew = StationType {
            orientation: StationOrientation::EastToWest,
            platforms: 1,
            length_in_tiles: 4,
        };
        let mut results: Vec<(TileCoordsXZ, StationType)> = Vec::new();
        let mut z: i32 = -4;
        while z <= 1
            invariant
                -4 <= z <= 2,
                reference_tile == self.spec_reference_tile(),
                fits_i32(reference_tile.x - 4),
                fits_i32(reference_tile.x + 2),
                fits_i32(reference_tile.z - 4),
                fits_i32(reference_tile.z + 2),
                ns == ns_1_4(),
                results@.len() == 2 * (z + 4),
                forall|i: int|
                    0 <= i < results@.len() ==> #[trigger] results@[i] == (
                        relative_candidate_station_locations()[i].0.offset(reference_tile),
                        relative_candidate_station_locations()[i].1,
                    ),
            decreases 2 - z,
        {
            let a = reference_tile.plus(TileCoordsXZ::new(-2, z));
            let b = reference_tile.plus(TileCoordsXZ::new(2, z));
            proof {
                let k = 2 * (z + 4);
                assert(k % 2 == 0 && k / 2 - 4 == z);
                assert((k + 1) % 2 == 1 && (k + 1) / 2 - 4 == z);
            }
            results.push((a, ns));
            results.push((b, ns));
            z = z + 1;
        }
        let mut x: i32 = -4;
        while x <= 1
            invariant
                -4 <= x <= 2,
                reference_tile == self.spec_reference_tile(),
                fits_i32(reference_tile.x - 4),
                fits_i32(reference_tile.x + 2),
                fits_i32(reference_tile.z - 4),
                fits_i32(reference_tile.z + 2),
                ew == ew_1_4(),
                results@.len() == 12 + 2 * (x + 4),
                forall|i: int|
                    0 <= i < results@.len() ==> #[trigger] results@[i] == (
                        relative_candidate_station_locations()[i].0.offset(reference_tile),
                        relative_candidate_station_locations()[i].1,
                    ),
            decreases 2 - x,
        {
            let a = reference_tile.plus(TileCoordsXZ::new(x, -2));
            let b = reference_tile.plus(TileCoordsXZ::new(x, 2));
            proof {
                let k = 12 + 2 * (x + 4);
                assert(k % 2 == 0 && (k - 12) / 2 - 4 == x);
                assert((k + 1) % 2 == 1 && (k + 1 - 12) / 2 - 4 == x);
            }
            results.push((a, ew));
            results.push((b, ew));
            x = x + 1;
        }
        results
    }
}

impl Keyed for IndustryBuildingInfo {
    closed spec fn spec_key(&self) -> u128 {
        self.id.0
    }

    fn key(&self) -> (r: u128) {
        self.id.0
    }
}

/// The key of a value is the raw value of its identifier.
pub broadcast proof fn lemma_key_is_id(info: IndustryBuildingInfo)
    ensures
        #[trigger] info.spec_key() == info.spec_id().0,
{
}

impl WithOwner for IndustryBuildingInfo {
    open spec fn spec_owner(&self) -> PlayerId {
        self.spec_owner_id()
    }

    fn owner_id(&self) -> (r: PlayerId) {
        IndustryBuildingInfo::owner_id(self)
    }
}

impl WithTileCoverage for IndustryBuildingInfo {
    open spec fn coverage_valid(&self) -> bool {
        self.valid()
    }

    open spec fn spec_coverage(&self) -> TileCoverage {
        self.spec_covers_tiles()
    }

    fn covers_tiles(&self) -> (r: TileCoverage) {
        IndustryBuildingInfo::covers_tiles(self)
    }
}

impl WithRelativeTileCoverage for IndustryBuildingInfo {
    open spec fn relative_coverage_valid(&self) -> bool {
        true
    }

    open spec fn spec_relative_coverage(&self) -> TileCoverage {
        self.spec_industry_type().spec_relative_tiles_used()
    }

    fn relative_tiles_used(&self) -> (r: TileCoverage) {
        IndustryBuildingInfo::relative_tiles_used(self)
    }
}

/// An industry building covers exactly the tiles at most one step away, along each axis,
/// from its reference tile: the three by three square around it.
pub proof fn lemma_industry_building_covers_square(info: IndustryBuildingInfo, t: TileCoordsXZ)
    requires
        info.valid(),
    ensures
        info.spec_covers_tiles().spec_contains(t) <==> (info.spec_reference_tile().x - 1 <= t.x
            <= info.spec_reference_tile().x + 1 && info.spec_reference_tile().z - 1 <= t.z
            <= info.spec_reference_tile().z + 1),
{
}

} // verus!
