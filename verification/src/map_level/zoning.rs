use vstd::prelude::*;

use crate::building::WithRelativeTileCoverage;
use crate::building::industry_building_info::IndustryBuildingInfo;
use crate::building::station_info::StationInfo;
use crate::building::BuildError;
use crate::grid_xz::GridXZ;
use crate::id_map::{IdMap, Keyed};
use crate::resource_type::ResourceType;
use crate::tile_coords_xz::{fits_i32, tile_at, TileCoordsXZ};
use crate::tile_coverage::TileCoverage;
use crate::ZoningId;

verus! {

/// What a zone on the map allows to be built: a source of one raw resource, or industry.
#[derive(Clone, Copy, PartialEq, Eq, Structural, Debug, Hash)]
pub enum ZoningType {
    Source(ResourceType),
    Industrial,
}

impl ZoningType {
    pub open spec fn spec_all() -> Seq<ZoningType> {
        seq![
            ZoningType::Source(ResourceType::Clay),
            ZoningType::Source(ResourceType::Coal),
            ZoningType::Source(ResourceType::FarmProducts),
            ZoningType::Source(ResourceType::Iron),
            ZoningType::Source(ResourceType::Limestone),
            ZoningType::Source(ResourceType::Nitrates),
            ZoningType::Source(ResourceType::Oil),
            ZoningType::Source(ResourceType::SandAndGravel),
            ZoningType::Source(ResourceType::Sulfur),
            ZoningType::Source(ResourceType::Wood),
            ZoningType::Industrial,
        ]
    }

    /// The zoning types that occur on maps: one source per raw resource, and industry.
    pub fn all() -> (r: Vec<ZoningType>)
        ensures
            r@ == Self::spec_all(),
    {
        vec![
            ZoningType::Source(ResourceType::Clay),
            ZoningType::Source(ResourceType::Coal),
            ZoningType::Source(ResourceType::FarmProducts),
            ZoningType::Source(ResourceType::Iron),
            ZoningType::Source(ResourceType::Limestone),
            ZoningType::Source(ResourceType::Nitrates),
            ZoningType::Source(ResourceType::Oil),
            ZoningType::Source(ResourceType::SandAndGravel),
            ZoningType::Source(ResourceType::Sulfur),
            ZoningType::Source(ResourceType::Wood),
            ZoningType::Industrial,
        ]
    }

    /// Every zone is a 3 by 3 square centred on its reference tile.
    pub open spec fn spec_relative_tiles_used(self) -> TileCoverage {
        TileCoverage::Rectangular {
            north_west_inclusive: TileCoordsXZ { x: -1i32, z: -1i32 },
            south_east_inclusive: TileCoordsXZ { x: 1i32, z: 1i32 },
        }
    }

    pub fn relative_tiles_used(&self) -> (r: TileCoverage)
        ensures
            r == self.spec_relative_tiles_used(),
    {
        TileCoverage::rectangular_odd(TileCoordsXZ::zero(), 3, 3)
    }
}

/// A zone placed on the map.
#[derive(Clone, Copy, PartialEq, Eq, Structural, Debug)]
pub struct ZoningInfo {
    id: ZoningId,
    zoning_type: ZoningType,
    reference_tile: TileCoordsXZ,
}

impl ZoningInfo {
    pub closed spec fn spec_id(self) -> ZoningId {
        self.id
    }

    pub closed spec fn spec_zoning_type(self) -> ZoningType {
        self.zoning_type
    }

    pub closed spec fn spec_reference_tile(self) -> TileCoordsXZ {
        self.reference_tile
    }

    /// Whether the covered tiles have representable coordinates.
    pub open spec fn valid(self) -> bool {
        &&& fits_i32(self.spec_reference_tile().x - 1)
        &&& fits_i32(self.spec_reference_tile().x + 1)
        &&& fits_i32(self.spec_reference_tile().z - 1)
        &&& fits_i32(self.spec_reference_tile().z + 1)
    }

    /// The tiles the zone covers: the 3 by 3 square around its reference tile.
    pub open spec fn spec_covers_tiles(self) -> TileCoverage {
        self.spec_zoning_type().spec_relative_tiles_used().spec_offset_by(self.spec_reference_tile())
    }

    pub fn new(id: ZoningId, zoning_type: ZoningType, reference_tile: TileCoordsXZ) -> (r: ZoningInfo)
        ensures
            r.spec_id() == id,
            r.spec_zoning_type() == zoning_type,
            r.spec_reference_tile() == reference_tile,
    {
        ZoningInfo { id, zoning_type, reference_tile }
    }

    pub fn id(&self) -> (r: ZoningId)
        ensures
            r == self.spec_id(),
    {
        self.id
    }

    pub fn zoning_type(&self) -> (r: ZoningType)
        ensures
            r == self.spec_zoning_type(),
    {
        self.zoning_type
    }

    pub fn reference_tile(&self) -> (r: TileCoordsXZ)
        ensures
            r == self.spec_reference_tile(),
    {
        self.reference_tile
    }

    pub fn covers_tiles(&self) -> (r: TileCoverage)
        requires
            self.valid(),
        ensures
            r == self.spec_covers_tiles(),
            r.lo() == tile_at(self.spec_reference_tile().x - 1, self.spec_reference_tile().z - 1),
            r.hi() == tile_at(self.spec_reference_tile().x + 1, self.spec_reference_tile().z + 1),
    {
        self.zoning_type.relative_tiles_used().offset_by(self.reference_tile)
    }
}

impl Keyed for ZoningInfo {
    closed spec fn spec_key(&self) -> u128 {
        self.id.0
    }

    fn key(&self) -> (r: u128) {
        self.id.0
    }
}

/// The zones of a map: each zone by its identifier, and which zone (if any) every tile lies in.
#[derive(Clone, Debug, PartialEq)]
pub struct Zoning {
    infos: IdMap<ZoningInfo>,
    grid: GridXZ<Option<ZoningId>>,
}

/// `grid` with every tile of `coverage` set to `id`.
pub open spec fn grid_with_zone(
    grid: Map<TileCoordsXZ, Option<ZoningId>>,
    coverage: TileCoverage,
    id: ZoningId,
) -> Map<TileCoordsXZ, Option<ZoningId>> {
    Map::new(
        |t: TileCoordsXZ| grid.dom().contains(t),
        |t: TileCoordsXZ|
            if coverage.spec_contains(t) {
                Some(id)
            } else {
                grid[t]
            },
    )
}

/// A zoning as it is stored: the size of the map and the zones in order.
#[derive(Clone, Debug, PartialEq)]
pub struct ZoningFlattened {
    pub size_x: usize,
    pub size_z: usize,
    pub infos: Vec<ZoningInfo>,
}

/// The zones by identifier after adding `infos` one after the other to `zones`, a later
/// zone replacing an earlier one with the same identifier.
pub open spec fn zones_added(zones: Map<u128, ZoningInfo>, infos: Seq<ZoningInfo>) -> Map<u128, ZoningInfo>
    decreases infos.len(),
{
    if infos.len() == 0 {
        zones
    } else {
        zones_added(zones, infos.drop_last()).insert(infos.last().spec_id().0, infos.last())
    }
}

/// `grid` with the tiles of each of `infos`, one after the other, set to that zone.
pub open spec fn grid_with_zones(grid: Map<TileCoordsXZ, Option<ZoningId>>, infos: Seq<ZoningInfo>) -> Map<
    TileCoordsXZ,
    Option<ZoningId>,
>
    decreases infos.len(),
{
    if infos.len() == 0 {
        grid
    } else {
        grid_with_zone(grid_with_zones(grid, infos.drop_last()), infos.last().spec_covers_tiles(), infos.last().spec_id())
    }
}

/// A map of `size_x` by `size_z` tiles in no zone.
pub open spec fn empty_zone_grid(size_x: int, size_z: int) -> Map<TileCoordsXZ, Option<ZoningId>> {
    Map::new(|t: TileCoordsXZ| 0 <= t.x < size_x && 0 <= t.z < size_z, |t: TileCoordsXZ| None::<ZoningId>)
}

/// Adding zones with distinct identifiers one after the other gives the zones that the
/// sequence holds, by identifier.
pub proof fn lemma_zones_added_unique(infos: Seq<ZoningInfo>)
    requires
        crate::id_map::keys_unique(infos),
    ensures
        zones_added(Map::empty(), infos) == crate::id_map::seq_to_map(infos),
    decreases infos.len(),
{
    if infos.len() == 0 {
        assert(crate::id_map::seq_to_map(infos) =~= Map::<u128, ZoningInfo>::empty());
    } else {
        let rest = infos.drop_last();
        let last = infos.last();
        assert(crate::id_map::keys_unique(rest)) by {
            assert forall|i: int, j: int|
                0 <= i < rest.len() && 0 <= j < rest.len() && i != j implies #[trigger] rest[i].spec_key()
                != #[trigger] rest[j].spec_key() by {
                assert(rest[i] == infos[i] && rest[j] == infos[j]);
            }
        }
        lemma_zones_added_unique(rest);
        assert(!crate::id_map::has_key(rest, last.spec_key())) by {
            if crate::id_map::has_key(rest, last.spec_key()) {
                let k = choose|k: int| 0 <= k < rest.len() && #[trigger] rest[k].spec_key() == last.spec_key();
                assert(infos[k] == rest[k]);
                assert(infos[infos.len() - 1] == last);
            }
        }
        assert(crate::id_map::keyed_insert(rest, last) == rest.push(last));
        assert(rest.push(last) =~= infos);
        crate::id_map::lemma_keyed_insert_map(rest, last);
    }
}

impl Zoning {
    pub closed spec fn wf(&self) -> bool {
        self.infos.wf() && self.grid.wf()
    }

    /// The zones, by the raw value of their identifiers.
    pub closed spec fn infos(&self) -> Map<u128, ZoningInfo> {
        self.infos@
    }

    /// The zones in the order in which they were first added.
    pub closed spec fn zonings_in_order(&self) -> Seq<ZoningInfo> {
        self.infos.entries()
    }

    /// The zone of every tile of the map.
    pub closed spec fn grid(&self) -> Map<TileCoordsXZ, Option<ZoningId>> {
        Map::new(|t: TileCoordsXZ| self.grid.in_bounds(t), |t: TileCoordsXZ| self.grid.at(t))
    }

    /// The zone `tile` lies in, if the tile is on the map, in a zone, and that zone is known.
    pub open spec fn spec_zoning_at(&self, tile: TileCoordsXZ) -> Option<ZoningInfo> {
        if self.grid().dom().contains(tile) {
            match self.grid()[tile] {
                Some(id) => if self.infos().dom().contains(id.0) {
                    Some(self.infos()[id.0])
                } else {
                    None
                },
                None => None,
            }
        } else {
            None
        }
    }

    /// Whether `tile` is on the map and in no zone.
    pub open spec fn spec_free_at_tile(&self, tile: TileCoordsXZ) -> bool {
        self.grid().dom().contains(tile) && self.grid()[tile] is None
    }

    /// A track can be built on `tile` when no zoning covers it.
    pub open spec fn spec_can_build_track(&self, tile: TileCoordsXZ) -> Result<(), BuildError> {
        if self.spec_free_at_tile(tile) {
            Ok(())
        } else {
            Err(BuildError::InvalidOverlap)
        }
    }

    /// A station can be built where no zoning covers any of its tiles.
    pub open spec fn spec_can_build_station(&self, station_info: StationInfo) -> Result<(), BuildError> {
        if (forall|t: TileCoordsXZ|
            station_info.spec_covers_tiles().spec_contains(t) ==> #[trigger] self.spec_free_at_tile(t)) {
            Ok(())
        } else {
            Err(BuildError::InvalidOverlap)
        }
    }

    /// An industry that needs a zoning can be built on a zoning of that type at its reference
    /// tile; one that needs none can be built where no zoning covers any of its tiles.
    pub open spec fn spec_can_build_industry_building(&self, info: IndustryBuildingInfo) -> Result<
        (),
        BuildError,
    > {
        match info.spec_industry_type().spec_required_zoning() {
            Some(required) => if (match self.spec_zoning_at(info.spec_reference_tile()) {
                Some(zoning) => zoning.spec_zoning_type() == required,
                None => false,
            }) {
                Ok(())
            } else {
                Err(BuildError::InvalidZoning)
            },
            None => if (forall|t: TileCoordsXZ|
                info.spec_covers_tiles().spec_contains(t) ==> #[trigger] self.spec_free_at_tile(t)) {
                Ok(())
            } else {
                Err(BuildError::InvalidOverlap)
            },
        }
    }

    pub closed spec fn spec_size_x(&self) -> int {
        self.grid.size_x() as int
    }

    pub closed spec fn spec_size_z(&self) -> int {
        self.grid.size_z() as int
    }

    /// The zoning as it is stored: its size and its zones in order.
    pub fn to_flattened(&self) -> (r: ZoningFlattened)
        requires
            self.wf(),
        ensures
            r.size_x == self.spec_size_x(),
            r.size_z == self.spec_size_z(),
            r.infos@ == self.zonings_in_order(),
    {
        let (size_x, size_z) = self.grid.dimensions();
        ZoningFlattened { size_x, size_z, infos: self.all_zonings() }
    }

    /// The zoning stored as `value`: a map of its size with its zones added in order.
    pub fn from_flattened(value: ZoningFlattened) -> (r: Zoning)
        requires
            value.size_x * value.size_z <= usize::MAX,
            forall|i: int|
                0 <= i < value.infos@.len() ==> (#[trigger] value.infos@[i]).valid() && forall|t: TileCoordsXZ|
                    value.infos@[i].spec_covers_tiles().spec_contains(t) ==> 0 <= t.x < value.size_x && 0 <= t.z
                        < value.size_z,
        ensures
            r.wf(),
            r.spec_size_x() == value.size_x,
            r.spec_size_z() == value.size_z,
            r.infos() == zones_added(Map::empty(), value.infos@),
            r.grid() == grid_with_zones(empty_zone_grid(value.size_x as int, value.size_z as int), value.infos@),
    {
        let mut result = Zoning::new(value.size_x, value.size_z);
        proof {
            assert(result.grid() =~= empty_zone_grid(value.size_x as int, value.size_z as int));
        }
        let mut i: usize = 0;
        while i < value.infos.len()
            invariant
                i <= value.infos@.len(),
                result.wf(),
                result.spec_size_x() == value.size_x,
                result.spec_size_z() == value.size_z,
                forall|j: int|
                    0 <= j < value.infos@.len() ==> (#[trigger] value.infos@[j]).valid() && forall|t: TileCoordsXZ|
                        value.infos@[j].spec_covers_tiles().spec_contains(t) ==> 0 <= t.x < value.size_x && 0
                            <= t.z < value.size_z,
                result.infos() == zones_added(Map::empty(), value.infos@.take(i as int)),
                result.grid() == grid_with_zones(
                    empty_zone_grid(value.size_x as int, value.size_z as int),
                    value.infos@.take(i as int),
                ),
            decreases value.infos.len() - i,
        {
            let info = value.infos[i];
            proof {
                assert(value.infos@.take(i as int + 1).drop_last() =~= value.infos@.take(i as int));
                assert(value.infos@.take(i as int + 1).last() == info);
                assert(info.valid());
                assert forall|t: TileCoordsXZ| info.spec_covers_tiles().spec_contains(t) implies result.grid().dom().contains(t) by {
                    assert(value.infos@[i as int].spec_covers_tiles().spec_contains(t));
                }
            }
            result.add_zoning(info);
            i = i + 1;
        }
        proof {
            crate::seq_util::lemma_take_full(value.infos@);
        }
        result
    }

    /// A `size_x` by `size_z` map without zones.
    pub fn new(size_x: usize, size_z: usize) -> (r: Zoning)
        requires
            size_x * size_z <= usize::MAX,
        ensures
            r.wf(),
            r.spec_size_x() == size_x,
            r.spec_size_z() == size_z,
            r.infos() == Map::<u128, ZoningInfo>::empty(),
            r.grid() == Map::new(
                |t: TileCoordsXZ| 0 <= t.x < size_x && 0 <= t.z < size_z,
                |t: TileCoordsXZ| None::<ZoningId>,
            ),
    {
        let r = Zoning { infos: IdMap::new(), grid: GridXZ::filled_with(size_x, size_z, None) };
        proof {
            assert(r.grid() =~= Map::new(
                |t: TileCoordsXZ| 0 <= t.x < size_x && 0 <= t.z < size_z,
                |t: TileCoordsXZ| None::<ZoningId>,
            ));
        }
        r
    }

    /// Adds a zone and marks the tiles it covers as lying in it.
    pub fn add_zoning(&mut self, zoning_info: ZoningInfo)
        requires
            old(self).wf(),
            zoning_info.valid(),
            forall|t: TileCoordsXZ|
                zoning_info.spec_covers_tiles().spec_contains(t) ==> old(self).grid().dom().contains(t),
        ensures
            final(self).wf(),
            final(self).spec_size_x() == old(self).spec_size_x(),
            final(self).spec_size_z() == old(self).spec_size_z(),
            final(self).infos() == old(self).infos().insert(zoning_info.spec_id().0, zoning_info),
            final(self).grid() == grid_with_zone(
                old(self).grid(),
                zoning_info.spec_covers_tiles(),
                zoning_info.spec_id(),
            ),
    {
        let coverage = zoning_info.covers_tiles();
        let id = zoning_info.id;
        self.infos.insert(zoning_info);
        proof {
            assert(self.grid() =~= Map::new(
                |t: TileCoordsXZ| old(self).grid().dom().contains(t),
                |t: TileCoordsXZ|
                    if Seq::<TileCoordsXZ>::empty().contains(t) {
                        Some(id)
                    } else {
                        old(self).grid()[t]
                    },
            ));
        }
        let tiles = coverage.to_set();
        proof {
            assert(tiles@.take(0) =~= Seq::<TileCoordsXZ>::empty());
        }
        let mut i: usize = 0;
        while i < tiles.len()
            invariant
                self.wf(),
                self.spec_size_x() == old(self).spec_size_x(),
                self.spec_size_z() == old(self).spec_size_z(),
                i <= tiles.len(),
                coverage == zoning_info.spec_covers_tiles(),
                id == zoning_info.spec_id(),
                self.infos() == old(self).infos().insert(zoning_info.spec_id().0, zoning_info),
                forall|t: TileCoordsXZ| #[trigger] tiles@.contains(t) <==> coverage.spec_contains(t),
                forall|t: TileCoordsXZ| coverage.spec_contains(t) ==> old(self).grid().dom().contains(t),
                self.grid() == Map::new(
                    |t: TileCoordsXZ| old(self).grid().dom().contains(t),
                    |t: TileCoordsXZ|
                        if tiles@.take(i as int).contains(t) {
                            Some(id)
                        } else {
                            old(self).grid()[t]
                        },
                ),
            decreases tiles.len() - i,
        {
            let tile = tiles[i];
            let ghost before = self.grid();
            proof {
                assert(tiles@.contains(tile));
                assert(old(self).grid().dom().contains(tile));
                assert(before.dom().contains(tile));
                assert(self.grid.in_bounds(tile));
            }
            self.grid.set(tile, Some(id));
            proof {
                assert forall|t: TileCoordsXZ| #[trigger] self.grid().dom().contains(t) == before.dom().contains(t) by {}
                assert forall|t: TileCoordsXZ| before.dom().contains(t) implies #[trigger] self.grid()[t] == (if t == tile {
                    Some(id)
                } else {
                    before[t]
                }) by {}
            }
            proof {
                assert forall|t: TileCoordsXZ| #[trigger] tiles@.take(i as int + 1).contains(t) <==> (
                tiles@.take(i as int).contains(t) || t == tile) by {
                    assert(tiles@.take(i as int + 1) =~= tiles@.take(i as int).push(tile));
                    crate::seq_util::lemma_push_contains(tiles@.take(i as int), tile, t);
                }
            }
            i = i + 1;
            proof {
                assert(self.grid() =~= Map::new(
                    |t: TileCoordsXZ| old(self).grid().dom().contains(t),
                    |t: TileCoordsXZ|
                        if tiles@.take(i as int).contains(t) {
                            Some(id)
                        } else {
                            old(self).grid()[t]
                        },
                ));
            }
        }
        proof {
            crate::seq_util::lemma_take_full(tiles@);
            assert(self.grid() =~= grid_with_zone(
                old(self).grid(),
                zoning_info.spec_covers_tiles(),
                zoning_info.spec_id(),
            ));
        }
    }

    /// Every zone, each once, in the order in which they were first added.
    pub fn all_zonings(&self) -> (r: Vec<ZoningInfo>)
        requires
            self.wf(),
        ensures
            r@ == self.zonings_in_order(),
            forall|z: ZoningInfo| #[trigger]
                r@.contains(z) <==> (self.infos().dom().contains(z.spec_id().0) && self.infos()[z.spec_id().0] == z),
    {
        proof {
            self.infos.lemma_entries();
        }
        self.infos.values().clone()
    }

    /// The zone `tile` lies in, if any.
    pub fn zoning_at_reference_tile(&self, tile: TileCoordsXZ) -> (r: Option<ZoningInfo>)
        requires
            self.wf(),
        ensures
            r == self.spec_zoning_at(tile),
    {
        match self.grid.get(tile) {
            Some(Some(id)) => self.infos.get(id.0),
            _ => None,
        }
    }

    /// Whether `tile` is on the map and lies in no zone.
    pub fn free_at_tile(&self, tile: TileCoordsXZ) -> (r: bool)
        requires
            self.wf(),
        ensures
            r == self.spec_free_at_tile(tile),
    {
        match self.grid.get(tile) {
            None => false,
            Some(found) => found.is_none(),
        }
    }

    /// Whether every tile of `coverage` is on the map and in no zone.
    fn all_free(&self, coverage: &TileCoverage) -> (r: bool)
        requires
            self.wf(),
        ensures
            r == (forall|t: TileCoordsXZ| coverage.spec_contains(t) ==> #[trigger] self.spec_free_at_tile(t)),
    {
        let tiles = coverage.to_set();
        let mut i: usize = 0;
        while i < tiles.len()
            invariant
                self.wf(),
                i <= tiles.len(),
                forall|t: TileCoordsXZ| #[trigger] tiles@.contains(t) <==> coverage.spec_contains(t),
                forall|j: int| 0 <= j < i ==> #[trigger] self.spec_free_at_tile(tiles@[j]),
            decreases tiles.len() - i,
        {
            if !self.free_at_tile(tiles[i]) {
                proof {
                    assert(tiles@.contains(tiles@[i as int]));
                }
                return false;
            }
            i = i + 1;
        }
        proof {
            assert forall|t: TileCoordsXZ| coverage.spec_contains(t) implies #[trigger] self.spec_free_at_tile(t) by {
                assert(tiles@.contains(t));
                let k = choose|k: int| 0 <= k < tiles@.len() && tiles@[k] == t;
                assert(self.spec_free_at_tile(tiles@[k]));
            }
        }
        true
    }

    /// Tracks can be built on a tile that is on the map and in no zone.
    pub fn can_build_track(&self, tile: TileCoordsXZ) -> (r: Result<(), BuildError>)
        requires
            self.wf(),
        ensures
            r == self.spec_can_build_track(tile),
    {
        if self.free_at_tile(tile) {
            Ok(())
        } else {
            Err(BuildError::InvalidOverlap)
        }
    }

    /// A station can be built where all its tiles are on the map and in no zone.
    pub fn can_build_station(&self, station_info: &StationInfo) -> (r: Result<(), BuildError>)
        requires
            self.wf(),
            station_info.valid(),
        ensures
            r == self.spec_can_build_station(*station_info),
    {
        if self.all_free(&station_info.covers_tiles()) {
            Ok(())
        } else {
            Err(BuildError::InvalidOverlap)
        }
    }

    /// An industry that needs a zoning can be built with its reference tile in a zone of
    /// that type; one that needs none, where all its tiles are on the map and in no zone.
    pub fn can_build_industry_building(&self, industry_building_info: &IndustryBuildingInfo) -> (r:
        Result<(), BuildError>)
        requires
            self.wf(),
            industry_building_info.valid(),
        ensures
            r == self.spec_can_build_industry_building(*industry_building_info),
    {
        match industry_building_info.required_zoning() {
            Some(required) => {
                let matches = match self.zoning_at_reference_tile(industry_building_info.reference_tile()) {
                    Some(zoning) => zoning.zoning_type() == required,
                    None => false,
                };
                if matches {
                    Ok(())
                } else {
                    Err(BuildError::InvalidZoning)
                }
            },
            None => {
                if self.all_free(&industry_building_info.covers_tiles()) {
                    Ok(())
                } else {
                    Err(BuildError::InvalidOverlap)
                }
            },
        }
    }
}

impl WithRelativeTileCoverage for ZoningType {
    open spec fn relative_coverage_valid(&self) -> bool {
        true
    }

    open spec fn spec_relative_coverage(&self) -> TileCoverage {
        self.spec_relative_tiles_used()
    }

    fn relative_tiles_used(&self) -> (r: TileCoverage) {
        ZoningType::relative_tiles_used(self)
    }
}

/// Storing a zoning and rebuilding it from what was stored gives back its zones.
pub proof fn lemma_flattened_round_trip_keeps_zones(zoning: &Zoning)
    requires
        zoning.wf(),
    ensures
        zones_added(Map::empty(), zoning.zonings_in_order()) == zoning.infos(),
{
    zoning.infos.lemma_entries();
    lemma_zones_added_unique(zoning.zonings_in_order());
}

} // verus!
