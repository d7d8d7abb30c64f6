use vstd::prelude::*;

use crate::building::WithRelativeTileCoverage;
use crate::building::building_info::{WithOwner, WithTileCoverage};
use crate::id_map::Keyed;

use crate::building::building_info::BuildingStaticInfo;
use crate::building::station_type::{PlatformIndex, StationType};
use crate::tile_coords_xz::{fits_i32, tile_at, TileCoordsXZ};
use crate::tile_coverage::TileCoverage;
use crate::transport::tile_track::TileTrack;
use crate::transport::track_type::TrackType;
use crate::transport::track_type_set::{group_track_type_set, TrackTypeSet};
use crate::{PlayerId, StationId};

verus! {

broadcast use group_track_type_set;

/// A station placed on the map.
#[derive(Clone, Copy, PartialEq, Eq, Structural, Debug)]
pub struct StationInfo {
    id: StationId,
    station_type: StationType,
    static_info: BuildingStaticInfo,
}

impl StationInfo {
    pub closed spec fn spec_id(self) -> StationId {
        self.id
    }

    pub closed spec fn spec_station_type(self) -> StationType {
        self.station_type
    }

    pub closed spec fn spec_owner_id(self) -> PlayerId {
        self.static_info.spec_owner_id()
    }

    pub closed spec fn spec_reference_tile(self) -> TileCoordsXZ {
        self.static_info.spec_reference_tile()
    }

    /// The station has a valid shape and its tiles are representable.
    pub open spec fn valid(self) -> bool {
        &&& self.spec_station_type().valid()
        &&& self.spec_station_type().fits_at(self.spec_reference_tile())
    }

    /// The tiles the station covers.
    pub open spec fn spec_covers_tiles(self) -> TileCoverage {
        self.spec_station_type().spec_relative_tiles_used().spec_offset_by(self.spec_reference_tile())
    }

    /// The track types of the station on `tile`: its platform track on its own tiles.
    pub open spec fn spec_station_track_types_at(self, tile: TileCoordsXZ) -> TrackTypeSet {
        if self.spec_covers_tiles().spec_contains(tile) {
            TrackTypeSet::spec_empty().spec_insert(self.spec_station_type().spec_track_type())
        } else {
            TrackTypeSet::spec_empty()
        }
    }

    pub fn new(
        owner_id: PlayerId,
        id: StationId,
        reference_tile: TileCoordsXZ,
        station_type: StationType,
    ) -> (r: StationInfo)
        ensures
            r.spec_id() == id,
            r.spec_owner_id() == owner_id,
            r.spec_reference_tile() == reference_tile,
            r.spec_station_type() == station_type,
    {
        StationInfo { id, station_type, static_info: BuildingStaticInfo::new(owner_id, reference_tile) }
    }

    pub fn id(&self) -> (r: StationId)
        ensures
            r == self.spec_id(),
    {
        self.id
    }

    pub fn station_type(&self) -> (r: StationType)
        ensures
            r == self.spec_station_type(),
    {
        self.station_type
    }

    pub fn reference_tile(&self) -> (r: TileCoordsXZ)
        ensures
            r == self.spec_reference_tile(),
    {
        self.static_info.reference_tile()
    }

    pub fn owner_id(&self) -> (r: PlayerId)
        ensures
            r == self.spec_owner_id(),
    {
        self.static_info.owner_id()
    }

    pub fn relative_tiles_used(&self) -> (r: TileCoverage)
        requires
            self.valid(),
        ensures
            r == self.spec_station_type().spec_relative_tiles_used(),
    {
        self.station_type.relative_tiles_used()
    }

    pub fn covers_tiles(&self) -> (r: TileCoverage)
        requires
            self.valid(),
        ensures
            r == self.spec_covers_tiles(),
            r.non_empty(),
            r.lo() == self.spec_reference_tile(),
            r.hi() == tile_at(
                self.spec_reference_tile().x + self.spec_station_type().extent().0 - 1,
                self.spec_reference_tile().z + self.spec_station_type().extent().1 - 1,
            ),
    {
        self.relative_tiles_used().offset_by(self.reference_tile())
    }

    /// The last track of each platform end, pointing out of the station.
    pub fn station_exit_tile_tracks(&self) -> (r: Vec<TileTrack>)
        requires
            self.valid(),
        ensures
            r@ == self.spec_station_type().spec_exit_tile_tracks(self.spec_reference_tile()).map_values(
                |e: (PlatformIndex, TileTrack)| e.1,
            ),
    {
        let exits = self.station_type.exit_tile_tracks(self.reference_tile());
        let mut results: Vec<TileTrack> = Vec::new();
        let mut i: usize = 0;
        while i < exits.len()
            invariant
                i <= exits.len(),
                results@ == exits@.take(i as int).map_values(|e: (PlatformIndex, TileTrack)| e.1),
            decreases exits.len() - i,
        {
            proof {
                assert(exits@.take(i as int + 1).map_values(|e: (PlatformIndex, TileTrack)| e.1)
                    =~= exits@.take(i as int).map_values(|e: (PlatformIndex, TileTrack)| e.1).push(
                    exits@[i as int].1,
                ));
            }
            results.push(exits[i].1);
            i = i + 1;
        }
        proof {
            crate::seq_util::lemma_take_full(exits@);
        }
        results
    }

    /// The track types of the station on `tile`.
    pub fn station_track_types_at(&self, tile: TileCoordsXZ) -> (r: TrackTypeSet)
        requires
            self.valid(),
        ensures
            r == self.spec_station_track_types_at(tile),
    {
        if self.covers_tiles().contains(tile) {
            TrackTypeSet::single(self.station_type.track_type())
        } else {
            TrackTypeSet::new()
        }
    }

    /// The tracks of the station: on every tile it covers, its platform track pointing
    /// towards either end.
    pub fn tile_tracks(&self) -> (r: Vec<TileTrack>)
        requires
            self.valid(),
        ensures
            r@.no_duplicates(),
            forall|t: TileTrack|
                #[trigger] r@.contains(t) <==> (self.spec_covers_tiles().spec_contains(t.tile)
                    && t.track_type == self.spec_station_type().spec_track_type()
                    && t.track_type.has_end(t.pointing_in)),
    {
        let tiles = self.covers_tiles().to_set();
        let track_type = self.station_type.track_type();
        let connections = track_type.connections();
        let mut results: Vec<TileTrack> = Vec::new();
        let mut i: usize = 0;
        while i < tiles.len()
            invariant
                i <= tiles.len(),
                tiles@.no_duplicates(),
                forall|t: TileCoordsXZ| #[trigger] tiles@.contains(t) <==> self.spec_covers_tiles().spec_contains(t),
                track_type == self.spec_station_type().spec_track_type(),
                connections@ == seq![track_type.ends().0, track_type.ends().1],
                results@.no_duplicates(),
                forall|t: TileTrack|
                    #[trigger] results@.contains(t) <==> (tiles@.take(i as int).contains(t.tile)
                        && t.track_type == track_type && t.track_type.has_end(t.pointing_in)),
            decreases tiles.len() - i,
        {
            let tile = tiles[i];
            let a = TileTrack { tile, track_type, pointing_in: connections[0] };
            let b = TileTrack { tile, track_type, pointing_in: connections[1] };
            proof {
                crate::transport::track_type::lemma_other_end_involution(track_type, track_type.ends().0);
                assert(!tiles@.take(i as int).contains(tile)) by {
                    if tiles@.take(i as int).contains(tile) {
                        let k = choose|k: int| 0 <= k < i && tiles@.take(i as int)[k] == tile;
                        assert(tiles@[k] == tiles@[i as int]);
                    }
                }
                assert(!results@.contains(a));
                crate::seq_util::lemma_push_no_duplicates(results@, a);
                assert(a != b);
                assert(!results@.contains(b));
                crate::seq_util::lemma_push_contains(results@, a, b);
                assert(!results@.push(a).contains(b));
                crate::seq_util::lemma_push_no_duplicates(results@.push(a), b);
            }
            let ghost before = results@;
            results.push(a);
            results.push(b);
            proof {
                assert forall|t: TileTrack|
                    #[trigger] results@.contains(t) <==> (tiles@.take(i as int + 1).contains(t.tile)
                        && t.track_type == track_type && t.track_type.has_end(t.pointing_in)) by {
                    assert(results@ == before.push(a).push(b));
                    assert(before.push(a).push(b).contains(t) <==> (before.push(a).contains(t) || t == b));
                    assert(before.push(a).contains(t) <==> (before.contains(t) || t == a));
                    assert(tiles@.take(i as int + 1) =~= tiles@.take(i as int).push(tile));
                    crate::seq_util::lemma_push_contains(tiles@.take(i as int), tile, t.tile);
                }
            }
            i = i + 1;
        }
        proof {
            crate::seq_util::lemma_take_full(tiles@);
        }
        results
    }
}

impl Keyed for StationInfo {
    closed spec fn spec_key(&self) -> u128 {
        self.id.0
    }

    fn key(&self) -> (r: u128) {
        self.id.0
    }
}

/// The key of a value is the raw value of its identifier.
pub broadcast proof fn lemma_key_is_id(info: StationInfo)
    ensures
        #[trigger] info.spec_key() == info.spec_id().0,
{
}

impl WithOwner for StationInfo {
    open spec fn spec_owner(&self) -> PlayerId {
        self.spec_owner_id()
    }

    fn owner_id(&self) -> (r: PlayerId) {
        StationInfo::owner_id(self)
    }
}

impl WithTileCoverage for StationInfo {
    open spec fn coverage_valid(&self) -> bool {
        self.valid()
    }

    open spec fn spec_coverage(&self) -> TileCoverage {
        self.spec_covers_tiles()
    }

    fn covers_tiles(&self) -> (r: TileCoverage) {
        StationInfo::covers_tiles(self)
    }
}

impl WithRelativeTileCoverage for StationInfo {
    open spec fn relative_coverage_valid(&self) -> bool {
        self.valid()
    }

    open spec fn spec_relative_coverage(&self) -> TileCoverage {
        self.spec_station_type().spec_relative_tiles_used()
    }

    fn relative_tiles_used(&self) -> (r: TileCoverage) {
        StationInfo::relative_tiles_used(self)
    }
}

/// A station covers exactly the rectangle that starts at its reference tile (its
/// north-west corner) and reaches `platforms` tiles across its platforms and
/// `length_in_tiles` tiles along them: platforms side by side eastwards for a north-south
/// station, southwards for an east-west one.
pub proof fn lemma_station_covers_its_platforms(info: StationInfo, t: TileCoordsXZ)
    requires
        info.valid(),
    ensures
        ({
            let r = info.spec_reference_tile();
            let st = info.spec_station_type();
            let (across_x, along_z) = match st.orientation {
                crate::building::station_type::StationOrientation::NorthToSouth => (
                    st.platforms as int,
                    st.length_in_tiles as int,
                ),
                crate::building::station_type::StationOrientation::EastToWest => (
                    st.length_in_tiles as int,
                    st.platforms as int,
                ),
            };
            info.spec_covers_tiles().spec_contains(t) <==> (r.x <= t.x < r.x + across_x && r.z <= t.z < r.z
                + along_z)
        }),
{
}

} // verus!
