use vstd::prelude::*;

use crate::building::building_info::{BuildingStaticInfo, WithTileCoverage};
use crate::building::industry_building_info::IndustryBuildingInfo;
use crate::building::industry_type::IndustryType;
use crate::building::military_building_info::MilitaryBuildingInfo;
use crate::building::station_info::StationInfo;
use crate::building::station_links::{
    building_station_distance, cargo_forwarding_distance_threshold, closest_station, links_for,
    station_link,
};
use crate::building::track_info::TrackInfo;
use crate::building::track_state::{
    after_append_all, after_attempted_removals, after_remove, empty_tracks, holds_track, tracks_in,
    MaybeTracksOnTile, TrackState,
};
use crate::building::BuildError;
use crate::direction_xz::DirectionXZ;
use crate::grid_xz::GridXZ;
use crate::id_map::{keyed_insert, lemma_keyed_insert_elements, seq_to_map, IdMap, Keyed};
use crate::resource_type::ResourceType;
use crate::tile_coords_xz::{fits_i32, TileCoordsXZ};
use crate::tile_coverage::TileCoverage;
use crate::transport::track_type::TrackType;
use crate::transport::track_type_set::{group_track_type_set, TrackTypeSet};
use crate::{IndustryBuildingId, MilitaryBuildingId, PlayerId, StationId, TrackId};

verus! {

broadcast use {
    group_track_type_set,
    crate::building::industry_building_info::lemma_key_is_id,
    crate::building::station_info::lemma_key_is_id,
    crate::building::military_building_info::lemma_key_is_id,
};

/// Whether a track can be built on a tile.
#[derive(Clone, Copy, PartialEq, Eq, Structural, Debug)]
pub enum CanBuildResponse {
    Buildable,
    AlreadyExists,
    Invalid(BuildError),
}

/// The one building found on a tile.
#[derive(Clone, Copy, PartialEq, Eq, Structural, Debug)]
pub enum BuildingAtTile {
    Station(StationInfo),
    Industry(IndustryBuildingInfo),
    Military(MilitaryBuildingInfo),
}

/// What a `BuildingState` holds, as mathematical values.
pub struct BuildingStateView {
    pub size_x: int,
    pub size_z: int,
    pub tracks: Map<TileCoordsXZ, MaybeTracksOnTile>,
    pub industry_buildings: Seq<IndustryBuildingInfo>,
    pub tile_industry_buildings: Map<TileCoordsXZ, Option<IndustryBuildingId>>,
    pub military_buildings: Seq<MilitaryBuildingInfo>,
    pub tile_military_buildings: Map<TileCoordsXZ, Option<MilitaryBuildingId>>,
    pub stations: Seq<StationInfo>,
    pub tile_stations: Map<TileCoordsXZ, Option<StationId>>,
    pub station_track_types_at: Map<TileCoordsXZ, TrackTypeSet>,
    pub closest_station_link: Seq<(IndustryBuildingId, StationId)>,
}

/// The map of a `size_x` by `size_z` area with `value` on every tile.
pub open spec fn uniform_grid<T>(size_x: int, size_z: int, value: T) -> Map<TileCoordsXZ, T> {
    Map::new(|t: TileCoordsXZ| 0 <= t.x < size_x && 0 <= t.z < size_z, |t: TileCoordsXZ| value)
}

/// `grid` with `value` on every tile of `coverage`.
pub open spec fn filled<T>(grid: Map<TileCoordsXZ, T>, coverage: TileCoverage, value: T) -> Map<
    TileCoordsXZ,
    T,
> {
    Map::new(
        |t: TileCoordsXZ| grid.dom().contains(t),
        |t: TileCoordsXZ|
            if coverage.spec_contains(t) {
                value
            } else {
                grid[t]
            },
    )
}

/// `grid` with `track_type` added to the set on every tile of `coverage`.
pub open spec fn with_track_type(
    grid: Map<TileCoordsXZ, TrackTypeSet>,
    coverage: TileCoverage,
    track_type: TrackType,
) -> Map<TileCoordsXZ, TrackTypeSet> {
    Map::new(
        |t: TileCoordsXZ| grid.dom().contains(t),
        |t: TileCoordsXZ|
            if coverage.spec_contains(t) {
                grid[t].spec_insert(track_type)
            } else {
                grid[t]
            },
    )
}

impl BuildingStateView {
    pub open spec fn in_bounds(self, tile: TileCoordsXZ) -> bool {
        0 <= tile.x < self.size_x && 0 <= tile.z < self.size_z
    }

    /// Whether every tile of `coverage` is on the map.
    pub open spec fn covers_in_bounds(self, coverage: TileCoverage) -> bool {
        forall|t: TileCoordsXZ| coverage.spec_contains(t) ==> self.in_bounds(t)
    }

    pub open spec fn find_industry_building(self, id: IndustryBuildingId) -> Option<IndustryBuildingInfo> {
        if seq_to_map(self.industry_buildings).dom().contains(id.0) {
            Some(seq_to_map(self.industry_buildings)[id.0])
        } else {
            None
        }
    }

    pub open spec fn find_station(self, id: StationId) -> Option<StationInfo> {
        if seq_to_map(self.stations).dom().contains(id.0) {
            Some(seq_to_map(self.stations)[id.0])
        } else {
            None
        }
    }

    pub open spec fn find_military_building(self, id: MilitaryBuildingId) -> Option<MilitaryBuildingInfo> {
        if seq_to_map(self.military_buildings).dom().contains(id.0) {
            Some(seq_to_map(self.military_buildings)[id.0])
        } else {
            None
        }
    }

    /// The industry building registered on `tile`, if it is known.
    pub open spec fn industry_building_at(self, tile: TileCoordsXZ) -> Option<IndustryBuildingInfo> {
        if self.tile_industry_buildings.dom().contains(tile) {
            match self.tile_industry_buildings[tile] {
                Some(id) => self.find_industry_building(id),
                None => None,
            }
        } else {
            None
        }
    }

    /// The station registered on `tile`, if it is known.
    pub open spec fn station_at(self, tile: TileCoordsXZ) -> Option<StationInfo> {
        if self.tile_stations.dom().contains(tile) {
            match self.tile_stations[tile] {
                Some(id) => self.find_station(id),
                None => None,
            }
        } else {
            None
        }
    }

    /// The military building registered on `tile`, if it is known.
    pub open spec fn military_building_at(self, tile: TileCoordsXZ) -> Option<MilitaryBuildingInfo> {
        if self.tile_military_buildings.dom().contains(tile) {
            match self.tile_military_buildings[tile] {
                Some(id) => self.find_military_building(id),
                None => None,
            }
        } else {
            None
        }
    }

    /// The building on `tile` when exactly one kind of building is registered there.
    pub open spec fn building_at(self, tile: TileCoordsXZ) -> Option<BuildingAtTile> {
        match (self.station_at(tile), self.industry_building_at(tile), self.military_building_at(tile)) {
            (Some(s), None, None) => Some(BuildingAtTile::Station(s)),
            (None, Some(i), None) => Some(BuildingAtTile::Industry(i)),
            (None, None, Some(m)) => Some(BuildingAtTile::Military(m)),
            _ => None,
        }
    }

    pub open spec fn tracks_at(self, tile: TileCoordsXZ) -> MaybeTracksOnTile {
        tracks_in(self.tracks, tile)
    }

    /// The track types on `tile`: those of its tracks, or else those of a station there.
    pub open spec fn track_types_at(self, tile: TileCoordsXZ) -> TrackTypeSet {
        if !self.tracks_at(tile).spec_track_types().spec_is_empty() {
            self.tracks_at(tile).spec_track_types()
        } else if self.station_track_types_at.dom().contains(tile) {
            self.station_track_types_at[tile]
        } else {
            TrackTypeSet::spec_empty()
        }
    }

    /// The station linked to the industry building `id`, if any.
    pub open spec fn linked_station_id(self, id: IndustryBuildingId) -> Option<StationId> {
        if exists|i: int|
            0 <= i < self.closest_station_link.len() && (#[trigger] self.closest_station_link[i]).0 == id {
            Some(
                self.closest_station_link[choose|i: int|
                    0 <= i < self.closest_station_link.len() && (#[trigger] self.closest_station_link[i]).0
                        == id].1,
            )
        } else {
            None
        }
    }

    /// The state after adding `building` (in place of one with the same identifier),
    /// registering it on its tiles and recalculating the links.
    pub open spec fn with_industry_building(self, building: IndustryBuildingInfo) -> BuildingStateView {
        BuildingStateView {
            industry_buildings: keyed_insert(self.industry_buildings, building),
            tile_industry_buildings: filled(
                self.tile_industry_buildings,
                building.spec_covers_tiles(),
                Some(building.spec_id()),
            ),
            closest_station_link: links_for(keyed_insert(self.industry_buildings, building), self.stations),
            ..self
        }
    }

    /// The state after adding `building` (in place of one with the same identifier) and
    /// registering it on its tile.
    pub open spec fn with_military_building(self, building: MilitaryBuildingInfo) -> BuildingStateView {
        BuildingStateView {
            military_buildings: keyed_insert(self.military_buildings, building),
            tile_military_buildings: filled(
                self.tile_military_buildings,
                building.spec_covers_tiles(),
                Some(building.spec_id()),
            ),
            ..self
        }
    }

    /// The state after adding `station` (in place of one with the same identifier),
    /// registering it and its track type on its tiles and recalculating the links.
    pub open spec fn with_station(self, station: StationInfo) -> BuildingStateView {
        BuildingStateView {
            stations: keyed_insert(self.stations, station),
            tile_stations: filled(self.tile_stations, station.spec_covers_tiles(), Some(station.spec_id())),
            station_track_types_at: with_track_type(
                self.station_track_types_at,
                station.spec_covers_tiles(),
                station.spec_station_type().spec_track_type(),
            ),
            closest_station_link: links_for(self.industry_buildings, keyed_insert(self.stations, station)),
            ..self
        }
    }

    /// The state after taking out the industry building `id` (if present), clearing its
    /// tiles and recalculating the links.
    pub open spec fn without_industry_building(self, id: IndustryBuildingId) -> BuildingStateView {
        let remaining = self.industry_buildings.filter(|b: IndustryBuildingInfo| b.spec_key() != id.0);
        BuildingStateView {
            industry_buildings: remaining,
            tile_industry_buildings: match self.find_industry_building(id) {
                Some(removed) => filled(self.tile_industry_buildings, removed.spec_covers_tiles(), None),
                None => self.tile_industry_buildings,
            },
            closest_station_link: links_for(remaining, self.stations),
            ..self
        }
    }

    /// The state after taking out the military building `id` (if present) and clearing its tile.
    pub open spec fn without_military_building(self, id: MilitaryBuildingId) -> BuildingStateView {
        BuildingStateView {
            military_buildings: self.military_buildings.filter(|b: MilitaryBuildingInfo| b.spec_key() != id.0),
            tile_military_buildings: match self.find_military_building(id) {
                Some(removed) => filled(self.tile_military_buildings, removed.spec_covers_tiles(), None),
                None => self.tile_military_buildings,
            },
            ..self
        }
    }

    /// The state after taking out the station `id` (if present), clearing its tiles and the
    /// track types it put there, and recalculating the links.
    pub open spec fn without_station(self, id: StationId) -> BuildingStateView {
        let remaining = self.stations.filter(|s: StationInfo| s.spec_key() != id.0);
        BuildingStateView {
            stations: remaining,
            tile_stations: match self.find_station(id) {
                Some(removed) => filled(self.tile_stations, removed.spec_covers_tiles(), None),
                None => self.tile_stations,
            },
            station_track_types_at: match self.find_station(id) {
                Some(removed) => filled(
                    self.station_track_types_at,
                    removed.spec_covers_tiles(),
                    TrackTypeSet::spec_empty(),
                ),
                None => self.station_track_types_at,
            },
            closest_station_link: links_for(self.industry_buildings, remaining),
            ..self
        }
    }

    /// The response to building a track of `track_type` for `owner_id` on `tile`: an
    /// overlap with another player's tracks, an industry, or a station without that track
    /// is invalid; an existing identical track (own or in a station) already exists.
    pub open spec fn can_build_track(
        self,
        owner_id: PlayerId,
        tile: TileCoordsXZ,
        track_type: TrackType,
    ) -> CanBuildResponse {
        let station = self.station_at(tile);
        let has_same_track_from_station = match station {
            Some(s) => s.spec_station_track_types_at(tile).has(track_type),
            None => false,
        };
        let invalid_overlaps = self.industry_building_at(tile) is Some || (!has_same_track_from_station
            && station is Some);
        let tracks = self.tracks_at(tile);
        let other_players_tracks = match tracks.spec_owner_id() {
            Some(p) => p != owner_id,
            None => false,
        };
        let has_same_track = tracks.spec_track_types().has(track_type) || has_same_track_from_station;
        if other_players_tracks || invalid_overlaps {
            CanBuildResponse::Invalid(BuildError::InvalidOverlap)
        } else if has_same_track {
            CanBuildResponse::AlreadyExists
        } else {
            CanBuildResponse::Buildable
        }
    }

    /// The resources that the industry buildings linked to station `station_id` consume.
    pub open spec fn accepts_resource(self, station_id: StationId, resource: ResourceType) -> bool {
        exists|k: int|
            0 <= k < self.closest_station_link.len() && (#[trigger] self.closest_station_link[k]).1
                == station_id && match self.find_industry_building(self.closest_station_link[k].0) {
                Some(b) => b.spec_industry_type().spec_inputs().contains(resource),
                None => false,
            }
    }

    /// A building on a covered tile of `coverage`, or a tile with tracks there, makes
    /// building over `coverage` an overlap.
    pub open spec fn overlaps(self, coverage: TileCoverage) -> bool {
        exists|t: TileCoordsXZ|
            coverage.spec_contains(t) && (#[trigger] self.building_at(t) is Some || self.tracks_at(t)
                != MaybeTracksOnTile::Empty)
    }
}

/// The first error, from position `i` on, in checking that `payers` can pay: a payer that is
/// unknown or not owned by `player_id` is an `UnknownError`, and one without enough cargo
/// (as `has_enough_cargo` says) is `NotEnoughResources`.
pub open spec fn first_payer_error(
    state: BuildingStateView,
    player_id: PlayerId,
    payers: Seq<IndustryBuildingId>,
    has_enough_cargo: Seq<bool>,
    i: int,
) -> Option<BuildError>
    decreases payers.len() - i,
{
    if i < 0 || i >= payers.len() {
        None
    } else {
        match state.find_industry_building(payers[i]) {
            None => Some(BuildError::UnknownError),
            Some(building) => if building.spec_owner_id() != player_id {
                Some(BuildError::UnknownError)
            } else if !has_enough_cargo[i] {
                Some(BuildError::NotEnoughResources)
            } else {
                first_payer_error(state, player_id, payers, has_enough_cargo, i + 1)
            },
        }
    }
}

/// The buildings and tracks of a map, with lookups by tile and the links from industry
/// buildings to the stations that forward their cargo.
pub struct BuildingState {
    tracks: TrackState,
    industry_buildings: IdMap<IndustryBuildingInfo>,
    tile_industry_buildings: GridXZ<Option<IndustryBuildingId>>,
    military_buildings: IdMap<MilitaryBuildingInfo>,
    tile_military_buildings: GridXZ<Option<MilitaryBuildingId>>,
    stations: IdMap<StationInfo>,
    tile_stations: GridXZ<Option<StationId>>,
    station_track_types_at: GridXZ<TrackTypeSet>,
    closest_station_link: Vec<(IndustryBuildingId, StationId)>,
}

impl View for BuildingState {
    type V = BuildingStateView;

    closed spec fn view(&self) -> BuildingStateView {
        BuildingStateView {
            size_x: self.tile_stations.size_x() as int,
            size_z: self.tile_stations.size_z() as int,
            tracks: self.tracks@,
            industry_buildings: self.industry_buildings.entries(),
            tile_industry_buildings: self.tile_industry_buildings@,
            military_buildings: self.military_buildings.entries(),
            tile_military_buildings: self.tile_military_buildings@,
            stations: self.stations.entries(),
            tile_stations: self.tile_stations@,
            station_track_types_at: self.station_track_types_at@,
            closest_station_link: self.closest_station_link@,
        }
    }
}

impl BuildingState {
    /// The sizes of all grids agree, and the buildings are valid and lie on the map.
    pub closed spec fn wf_except_links(&self) -> bool {
        let v = self@;
        &&& self.tracks.wf()
        &&& self.industry_buildings.wf()
        &&& self.military_buildings.wf()
        &&& self.stations.wf()
        &&& self.tile_industry_buildings.wf()
        &&& self.tile_military_buildings.wf()
        &&& self.tile_stations.wf()
        &&& self.station_track_types_at.wf()
        &&& self.tile_industry_buildings.size_x() == v.size_x
        &&& self.tile_industry_buildings.size_z() == v.size_z
        &&& self.tile_military_buildings.size_x() == v.size_x
        &&& self.tile_military_buildings.size_z() == v.size_z
        &&& self.station_track_types_at.size_x() == v.size_x
        &&& self.station_track_types_at.size_z() == v.size_z
        &&& self.tracks@.dom() == uniform_grid(v.size_x, v.size_z, MaybeTracksOnTile::Empty).dom()
        &&& v.size_x + v.size_z <= i32::MAX
        &&& forall|i: int|
            0 <= i < v.industry_buildings.len() ==> (#[trigger] v.industry_buildings[i]).valid()
                && v.covers_in_bounds(v.industry_buildings[i].spec_covers_tiles())
        &&& forall|i: int|
            0 <= i < v.stations.len() ==> (#[trigger] v.stations[i]).valid() && v.covers_in_bounds(
                v.stations[i].spec_covers_tiles(),
            )
        &&& forall|i: int|
            0 <= i < v.military_buildings.len() ==> v.covers_in_bounds(
                (#[trigger] v.military_buildings[i]).spec_covers_tiles(),
            )
    }

    /// Everything is in place, and the links are those the buildings and stations call for.
    pub closed spec fn wf(&self) -> bool {
        &&& self.wf_except_links()
        &&& self@.closest_station_link == links_for(self@.industry_buildings, self@.stations)
    }

    /// A `size_x` by `size_z` map without buildings or tracks.
    pub fn new(size_x: usize, size_z: usize) -> (r: BuildingState)
        requires
            size_x * size_z <= usize::MAX,
            size_x + size_z <= i32::MAX,
        ensures
            r.wf(),
            r@ == (BuildingStateView {
                size_x: size_x as int,
                size_z: size_z as int,
                tracks: empty_tracks(size_x as int, size_z as int),
                industry_buildings: Seq::empty(),
                tile_industry_buildings: uniform_grid(size_x as int, size_z as int, None),
                military_buildings: Seq::empty(),
                tile_military_buildings: uniform_grid(size_x as int, size_z as int, None),
                stations: Seq::empty(),
                tile_stations: uniform_grid(size_x as int, size_z as int, None),
                station_track_types_at: uniform_grid(
                    size_x as int,
                    size_z as int,
                    TrackTypeSet::spec_empty(),
                ),
                closest_station_link: Seq::empty(),
            }),
    {
        let r = BuildingState {
            tracks: TrackState::new(size_x, size_z),
            industry_buildings: IdMap::new(),
            tile_industry_buildings: GridXZ::filled_with(size_x, size_z, None),
            military_buildings: IdMap::new(),
            tile_military_buildings: GridXZ::filled_with(size_x, size_z, None),
            stations: IdMap::new(),
            tile_stations: GridXZ::filled_with(size_x, size_z, None),
            station_track_types_at: GridXZ::filled_with(size_x, size_z, TrackTypeSet::new()),
            closest_station_link: Vec::new(),
        };
        proof {
            assert(r.tracks@.dom() =~= uniform_grid(size_x as int, size_z as int, MaybeTracksOnTile::Empty).dom());
            assert(r.tile_industry_buildings@ =~= uniform_grid(size_x as int, size_z as int, None));
            assert(r.tile_military_buildings@ =~= uniform_grid(size_x as int, size_z as int, None));
            assert(r.tile_stations@ =~= uniform_grid(size_x as int, size_z as int, None));
            assert(r.station_track_types_at@ =~= uniform_grid(
                size_x as int,
                size_z as int,
                TrackTypeSet::spec_empty(),
            ));
            assert(links_for(Seq::<IndustryBuildingInfo>::empty(), Seq::<StationInfo>::empty()) == Seq::<
                (IndustryBuildingId, StationId),
            >::empty());
        }
        r
    }

    pub fn tracks_at(&self, tile: TileCoordsXZ) -> (r: MaybeTracksOnTile)
        requires
            self.wf(),
        ensures
            r == self@.tracks_at(tile),
    {
        self.tracks.tracks_at(tile)
    }

    /// The track types on `tile`: those of its tracks, or else those of a station there.
    pub fn track_types_at(&self, tile: TileCoordsXZ) -> (r: TrackTypeSet)
        requires
            self.wf(),
        ensures
            r == self@.track_types_at(tile),
    {
        let from_track = self.tracks.track_types_at(tile);
        if from_track.is_empty() {
            match self.station_track_types_at.get(tile) {
                Some(found) => found,
                None => TrackTypeSet::new(),
            }
        } else {
            from_track
        }
    }

    pub fn find_station(&self, station_id: StationId) -> (r: Option<StationInfo>)
        requires
            self.wf(),
        ensures
            r == self@.find_station(station_id),
    {
        proof {
            self.stations.lemma_entries();
        }
        self.stations.get(station_id.0)
    }

    pub fn find_industry_building(&self, industry_building_id: IndustryBuildingId) -> (r: Option<
        IndustryBuildingInfo,
    >)
        requires
            self.wf(),
        ensures
            r == self@.find_industry_building(industry_building_id),
    {
        proof {
            self.industry_buildings.lemma_entries();
        }
        self.industry_buildings.get(industry_building_id.0)
    }

    pub fn find_military_building(&self, military_building_id: MilitaryBuildingId) -> (r: Option<
        MilitaryBuildingInfo,
    >)
        requires
            self.wf(),
        ensures
            r == self@.find_military_building(military_building_id),
    {
        proof {
            self.military_buildings.lemma_entries();
        }
        self.military_buildings.get(military_building_id.0)
    }

    pub fn station_at(&self, tile: TileCoordsXZ) -> (r: Option<StationInfo>)
        requires
            self.wf(),
        ensures
            r == self@.station_at(tile),
    {
        match self.tile_stations.get(tile) {
            Some(Some(station_id)) => self.find_station(station_id),
            _ => None,
        }
    }

    pub fn industry_building_at(&self, tile: TileCoordsXZ) -> (r: Option<IndustryBuildingInfo>)
        requires
            self.wf(),
        ensures
            r == self@.industry_building_at(tile),
    {
        match self.tile_industry_buildings.get(tile) {
            Some(Some(industry_building_id)) => self.find_industry_building(industry_building_id),
            _ => None,
        }
    }

    pub fn military_building_at(&self, tile: TileCoordsXZ) -> (r: Option<MilitaryBuildingInfo>)
        requires
            self.wf(),
        ensures
            r == self@.military_building_at(tile),
    {
        match self.tile_military_buildings.get(tile) {
            Some(Some(military_building_id)) => self.find_military_building(military_building_id),
            _ => None,
        }
    }

    /// The building on `tile`, or `None` when there is none or when more than one kind of
    /// building is registered there.
    pub fn building_at(&self, tile: TileCoordsXZ) -> (r: Option<BuildingAtTile>)
        requires
            self.wf(),
        ensures
            r == self@.building_at(tile),
    {
        let station = self.station_at(tile);
        let industry_building = self.industry_building_at(tile);
        let military_building = self.military_building_at(tile);
        match (station, industry_building, military_building) {
            (Some(station), None, None) => Some(BuildingAtTile::Station(station)),
            (None, Some(industry_building), None) => Some(BuildingAtTile::Industry(industry_building)),
            (None, None, Some(military_building)) => Some(BuildingAtTile::Military(military_building)),
            _ => None,
        }
    }

    /// The track types on `tile` that reach its edge in direction `connection`, in
    /// declaration order.
    pub fn track_types_with_connection(&self, tile: TileCoordsXZ, connection: DirectionXZ) -> (r: Vec<
        TrackType,
    >)
        requires
            self.wf(),
        ensures
            r@ == TrackType::spec_all().filter(|t: TrackType| t.has_end(connection)).filter(
                |t: TrackType| self@.track_types_at(tile).has(t),
            ),
    {
        let track_types = self.track_types_at(tile);
        let matching = TrackType::matching_direction(connection);
        let mut result: Vec<TrackType> = Vec::new();
        let mut i: usize = 0;
        while i < matching.len()
            invariant
                i <= matching.len(),
                track_types == self@.track_types_at(tile),
                result@ == matching@.take(i as int).filter(|t: TrackType| track_types.has(t)),
            decreases matching.len() - i,
        {
            proof {
                crate::seq_util::lemma_filter_take_step(matching@, |t: TrackType| track_types.has(t), i as int);
            }
            let t = matching[i];
            if track_types.contains(t) {
                result.push(t);
            }
            i = i + 1;
        }
        proof {
            crate::seq_util::lemma_take_full(matching@);
        }
        result
    }

    /// Every track on the map, each listed once.
    pub fn all_track_infos(&self) -> (r: Vec<TrackInfo>)
        requires
            self.wf(),
        ensures
            r@.no_duplicates(),
            forall|info: TrackInfo| #[trigger] r@.contains(info) <==> holds_track(self@.tracks, info),
    {
        self.tracks.all_track_infos()
    }

    /// Every station, in the order in which they were first added.
    pub fn all_stations(&self) -> (r: Vec<StationInfo>)
        requires
            self.wf(),
        ensures
            r@ == self@.stations,
    {
        self.stations.values().clone()
    }

    /// Every industry building, in the order in which they were first added.
    pub fn all_industry_buildings(&self) -> (r: Vec<IndustryBuildingInfo>)
        requires
            self.wf(),
        ensures
            r@ == self@.industry_buildings,
    {
        self.industry_buildings.values().clone()
    }

    /// Every military building, in the order in which they were first added.
    pub fn all_military_buildings(&self) -> (r: Vec<MilitaryBuildingInfo>)
        requires
            self.wf(),
        ensures
            r@ == self@.military_buildings,
    {
        self.military_buildings.values().clone()
    }

    /// The stations of `player_id`, in order.
    pub fn find_players_stations(&self, player_id: PlayerId) -> (r: Vec<StationInfo>)
        requires
            self.wf(),
        ensures
            r@ == self@.stations.filter(|s: StationInfo| s.spec_owner_id() == player_id),
    {
        let all = self.stations.values();
        let mut result: Vec<StationInfo> = Vec::new();
        let mut i: usize = 0;
        while i < all.len()
            invariant
                i <= all.len(),
                result@ == all@.take(i as int).filter(|s: StationInfo| s.spec_owner_id() == player_id),
            decreases all.len() - i,
        {
            proof {
                crate::seq_util::lemma_filter_take_step(
                    all@,
                    |s: StationInfo| s.spec_owner_id() == player_id,
                    i as int,
                );
            }
            if all[i].owner_id() == player_id {
                result.push(all[i]);
            }
            i = i + 1;
        }
        proof {
            crate::seq_util::lemma_take_full(all@);
        }
        result
    }

    /// The industry buildings of `owner_id` of type `industry_type`, in order.
    pub fn find_industry_building_by_owner_and_type(
        &self,
        owner_id: PlayerId,
        industry_type: IndustryType,
    ) -> (r: Vec<IndustryBuildingInfo>)
        requires
            self.wf(),
        ensures
            r@ == self@.industry_buildings.filter(
                |b: IndustryBuildingInfo|
                    b.spec_owner_id() == owner_id && b.spec_industry_type() == industry_type,
            ),
    {
        let all = self.industry_buildings.values();
        let mut result: Vec<IndustryBuildingInfo> = Vec::new();
        let mut i: usize = 0;
        while i < all.len()
            invariant
                i <= all.len(),
                result@ == all@.take(i as int).filter(
                    |b: IndustryBuildingInfo|
                        b.spec_owner_id() == owner_id && b.spec_industry_type() == industry_type,
                ),
            decreases all.len() - i,
        {
            proof {
                crate::seq_util::lemma_filter_take_step(
                    all@,
                    |b: IndustryBuildingInfo|
                        b.spec_owner_id() == owner_id && b.spec_industry_type() == industry_type,
                    i as int,
                );
            }
            if all[i].owner_id() == owner_id && all[i].industry_type() == industry_type {
                result.push(all[i]);
            }
            i = i + 1;
        }
        proof {
            crate::seq_util::lemma_take_full(all@);
        }
        result
    }

    /// The station linked to `industry_building_id` for forwarding cargo, if any.
    fn linked_station_id(&self, industry_building_id: IndustryBuildingId) -> (r: Option<StationId>)
        requires
            self.wf(),
        ensures
            r == self@.linked_station_id(industry_building_id),
    {
        let mut i: usize = 0;
        while i < self.closest_station_link.len()
            invariant
                self.wf(),
                i <= self.closest_station_link.len(),
                forall|j: int| 0 <= j < i ==> (#[trigger] self.closest_station_link@[j]).0 != industry_building_id,
            decreases self.closest_station_link.len() - i,
        {
            if self.closest_station_link[i].0 == industry_building_id {
                proof {
                    self.lemma_links_unique();
                    let k = choose|k: int|
                        0 <= k < self@.closest_station_link.len() && (#[trigger] self@.closest_station_link[k]).0
                            == industry_building_id;
                    assert(k == i);
                }
                return Some(self.closest_station_link[i].1);
            }
            i = i + 1;
        }
        None
    }

    /// No two links start at the same industry building.
    proof fn lemma_links_unique(&self)
        requires
            self.wf(),
        ensures
            forall|i: int, j: int|
                0 <= i < self@.closest_station_link.len() && 0 <= j < self@.closest_station_link.len()
                    && i != j ==> (#[trigger] self@.closest_station_link[i]).0
                    != (#[trigger] self@.closest_station_link[j]).0,
    {
        self.industry_buildings.lemma_entries();
        crate::building::station_links::lemma_links_for_unique(self@.industry_buildings, self@.stations);
    }

    /// The station linked to `industry_building_id` for forwarding cargo, if it is known.
    pub fn find_linked_station(&self, industry_building_id: IndustryBuildingId) -> (r: Option<StationInfo>)
        requires
            self.wf(),
        ensures
            r == (match self@.linked_station_id(industry_building_id) {
                Some(station_id) => self@.find_station(station_id),
                None => None,
            }),
    {
        match self.linked_station_id(industry_building_id) {
            Some(station_id) => self.find_station(station_id),
            None => None,
        }
    }

    /// The industry buildings of `player_id` that have no linked station, in order.
    pub fn find_players_industry_buildings_without_linked_stations(&self, player_id: PlayerId) -> (r: Vec<
        IndustryBuildingInfo,
    >)
        requires
            self.wf(),
        ensures
            r@ == self@.industry_buildings.filter(
                |b: IndustryBuildingInfo|
                    b.spec_owner_id() == player_id && self@.linked_station_id(b.spec_id()) is None,
            ),
    {
        let all = self.industry_buildings.values();
        let mut result: Vec<IndustryBuildingInfo> = Vec::new();
        let mut i: usize = 0;
        while i < all.len()
            invariant
                self.wf(),
                all@ == self@.industry_buildings,
                i <= all.len(),
                result@ == all@.take(i as int).filter(
                    |b: IndustryBuildingInfo|
                        b.spec_owner_id() == player_id && self@.linked_station_id(b.spec_id()) is None,
                ),
            decreases all.len() - i,
        {
            proof {
                crate::seq_util::lemma_filter_take_step(
                    all@,
                    |b: IndustryBuildingInfo|
                        b.spec_owner_id() == player_id && self@.linked_station_id(b.spec_id()) is None,
                    i as int,
                );
            }
            let building = all[i];
            if building.owner_id() == player_id && self.linked_station_id(building.id()).is_none() {
                result.push(building);
            }
            i = i + 1;
        }
        proof {
            crate::seq_util::lemma_take_full(all@);
        }
        result
    }

    /// The distance between two buildings on the map fits in a tile distance.
    proof fn lemma_distance_fits(&self, a: TileCoverage, b: TileCoverage)
        requires
            self.wf_except_links(),
            a.non_empty(),
            b.non_empty(),
            self@.covers_in_bounds(a),
            self@.covers_in_bounds(b),
        ensures
            0 <= TileCoverage::spec_distance(a, b) <= i32::MAX,
    {
        assert(a.spec_contains(a.lo()) && a.spec_contains(a.hi()));
        assert(b.spec_contains(b.lo()) && b.spec_contains(b.hi()));
        assert(self@.in_bounds(a.lo()) && self@.in_bounds(a.hi()));
        assert(self@.in_bounds(b.lo()) && self@.in_bounds(b.hi()));
    }

    /// The closest station of the building's owner and its distance, the first such when
    /// several are equally close.
    fn find_closest_station(&self, building: &IndustryBuildingInfo) -> (r: Option<(StationInfo, i32)>)
        requires
            self.wf_except_links(),
            building.valid(),
            self@.covers_in_bounds(building.spec_covers_tiles()),
        ensures
            match r {
                Some((station, distance)) => closest_station(*building, self@.stations) == Some(
                    (station, distance as int),
                ),
                None => closest_station(*building, self@.stations) is None,
            },
    {
        let stations = self.stations.values();
        let coverage = building.covers_tiles();
        let mut best: Option<(StationInfo, i32)> = None;
        let mut i: usize = 0;
        while i < stations.len()
            invariant
                self.wf_except_links(),
                stations@ == self@.stations,
                building.valid(),
                self@.covers_in_bounds(building.spec_covers_tiles()),
                coverage == building.spec_covers_tiles(),
                coverage.non_empty(),
                i <= stations.len(),
                match best {
                    Some((station, distance)) => closest_station(*building, stations@.take(i as int))
                        == Some((station, distance as int)),
                    None => closest_station(*building, stations@.take(i as int)) is None,
                },
            decreases stations.len() - i,
        {
            let station = stations[i];
            proof {
                assert(stations@.take(i as int + 1).drop_last() =~= stations@.take(i as int));
                assert(stations@.take(i as int + 1).last() == station);
            }
            if station.owner_id() == building.owner_id() {
                let station_coverage = station.covers_tiles();
                proof {
                    assert(self@.stations[i as int] == station);
                    self.lemma_distance_fits(coverage, station_coverage);
                }
                let distance = TileCoverage::manhattan_distance_between_closest_tiles(
                    &coverage,
                    &station_coverage,
                );
                match best {
                    None => {
                        best = Some((station, distance));
                    },
                    Some((_, best_distance)) => {
                        if distance < best_distance {
                            best = Some((station, distance));
                        }
                    },
                }
            }
            i = i + 1;
        }
        proof {
            crate::seq_util::lemma_take_full(stations@);
        }
        best
    }

    /// Links every industry building to its closest own station when that station is
    /// within the cargo forwarding threshold.
    fn recalculate_cargo_forwarding_links(&mut self)
        requires
            old(self).wf_except_links(),
        ensures
            final(self).wf(),
            final(self)@ == (BuildingStateView {
                closest_station_link: links_for(old(self)@.industry_buildings, old(self)@.stations),
                ..old(self)@
            }),
    {
        let mut links: Vec<(IndustryBuildingId, StationId)> = Vec::new();
        let industries = self.industry_buildings.values().clone();
        proof {
            assert(industries@.take(0) =~= Seq::<IndustryBuildingInfo>::empty());
            assert(links_for(industries@.take(0), self@.stations) == links@);
        }
        let mut i: usize = 0;
        while i < industries.len()
            invariant
                industries@ == self@.industry_buildings,
                self@ == (BuildingStateView { closest_station_link: self@.closest_station_link, ..old(self)@ }),
                self.wf_except_links(),
                i <= industries.len(),
                links@ == links_for(industries@.take(i as int), self@.stations),
            decreases industries.len() - i,
        {
            let building = industries[i];
            proof {
                assert(industries@.take(i as int + 1).drop_last() =~= industries@.take(i as int));
                assert(industries@.take(i as int + 1).last() == building);
                assert(self@.industry_buildings[i as int] == building);
            }
            match self.find_closest_station(&building) {
                Some((closest_station, distance)) => {
                    if distance <= 1 {
                        links.push((building.id(), closest_station.id()));
                    }
                },
                None => {},
            }
            i = i + 1;
        }
        proof {
            crate::seq_util::lemma_take_full(industries@);
        }
        self.closest_station_link = links;
    }

    /// Adds an industry building (replacing one with the same identifier), registers it on
    /// the tiles it covers and recalculates the links to stations.
    pub fn append_industry_building(&mut self, industry_building: IndustryBuildingInfo)
        requires
            old(self).wf(),
            industry_building.valid(),
            old(self)@.covers_in_bounds(industry_building.spec_covers_tiles()),
        ensures
            final(self).wf(),
            final(self)@ == old(self)@.with_industry_building(industry_building),
    {
        let coverage = industry_building.covers_tiles();
        self.tile_industry_buildings.fill(&coverage, Some(industry_building.id()));
        self.industry_buildings.insert(industry_building);
        proof {
            assert(self.tile_industry_buildings@ =~= filled(
                old(self)@.tile_industry_buildings,
                industry_building.spec_covers_tiles(),
                Some(industry_building.spec_id()),
            ));
            lemma_keyed_insert_elements(old(self)@.industry_buildings, industry_building);
        }
        self.recalculate_cargo_forwarding_links();
    }

    /// Adds a military building (replacing one with the same identifier) and registers it on
    /// the tile it covers.
    pub fn append_military_building(&mut self, military_building: MilitaryBuildingInfo)
        requires
            old(self).wf(),
            old(self)@.covers_in_bounds(military_building.spec_covers_tiles()),
        ensures
            final(self).wf(),
            final(self)@ == old(self)@.with_military_building(military_building),
    {
        let coverage = military_building.covers_tiles();
        self.tile_military_buildings.fill(&coverage, Some(military_building.id()));
        self.military_buildings.insert(military_building);
        proof {
            assert(self.tile_military_buildings@ =~= filled(
                old(self)@.tile_military_buildings,
                military_building.spec_covers_tiles(),
                Some(military_building.spec_id()),
            ));
            lemma_keyed_insert_elements(old(self)@.military_buildings, military_building);
        }
    }

    /// Adds `track_type` to the station track types of every tile of `coverage`.
    fn add_station_track_type(&mut self, coverage: &TileCoverage, track_type: TrackType)
        requires
            old(self).wf_except_links(),
            old(self)@.covers_in_bounds(*coverage),
        ensures
            final(self).wf_except_links(),
            final(self)@ == (BuildingStateView {
                station_track_types_at: with_track_type(
                    old(self)@.station_track_types_at,
                    *coverage,
                    track_type,
                ),
                ..old(self)@
            }),
    {
        let tiles = coverage.to_set();
        proof {
            assert(tiles@.take(0) =~= Seq::<TileCoordsXZ>::empty());
            assert(self.station_track_types_at@ =~= Map::new(
                |t: TileCoordsXZ| old(self)@.station_track_types_at.dom().contains(t),
                |t: TileCoordsXZ|
                    if tiles@.take(0).contains(t) {
                        old(self)@.station_track_types_at[t].spec_insert(track_type)
                    } else {
                        old(self)@.station_track_types_at[t]
                    },
            ));
        }
        let mut i: usize = 0;
        while i < tiles.len()
            invariant
                self.wf_except_links(),
                i <= tiles.len(),
                tiles@.no_duplicates(),
                old(self).wf_except_links(),
                old(self)@.covers_in_bounds(*coverage),
                forall|t: TileCoordsXZ| #[trigger] tiles@.contains(t) <==> coverage.spec_contains(t),
                self@ == (BuildingStateView {
                    station_track_types_at: Map::new(
                        |t: TileCoordsXZ| old(self)@.station_track_types_at.dom().contains(t),
                        |t: TileCoordsXZ|
                            if tiles@.take(i as int).contains(t) {
                                old(self)@.station_track_types_at[t].spec_insert(track_type)
                            } else {
                                old(self)@.station_track_types_at[t]
                            },
                    ),
                    ..old(self)@
                }),
            decreases tiles.len() - i,
        {
            let tile = tiles[i];
            proof {
                assert(tiles@.contains(tile));
                assert(self.station_track_types_at.in_bounds(tile));
                assert(!tiles@.take(i as int).contains(tile)) by {
                    if tiles@.take(i as int).contains(tile) {
                        let k = choose|k: int| 0 <= k < i && tiles@.take(i as int)[k] == tile;
                        assert(tiles@[k] == tiles@[i as int]);
                    }
                }
            }
            let ghost before = self.station_track_types_at@;
            let found = self.station_track_types_at.get(tile);
            let mut set = match found {
                Some(set) => set,
                None => TrackTypeSet::new(),
            };
            set.insert(track_type);
            proof {
                assert(old(self)@.in_bounds(tile));
                assert(old(self)@.station_track_types_at.dom().contains(tile));
                assert(self@.station_track_types_at == before);
                assert(before[tile] == old(self)@.station_track_types_at[tile]);
                assert(set == old(self)@.station_track_types_at[tile].spec_insert(track_type));
            }
            self.station_track_types_at.set(tile, set);
            proof {
                assert forall|t: TileCoordsXZ| #[trigger] self.station_track_types_at@.dom().contains(t) == before.dom().contains(t) by {}
                assert forall|t: TileCoordsXZ| before.dom().contains(t) implies #[trigger] self.station_track_types_at@[t] == (if t == tile {
                    set
                } else {
                    before[t]
                }) by {}
                assert forall|t: TileCoordsXZ| #[trigger] tiles@.take(i as int + 1).contains(t) <==> (
                tiles@.take(i as int).contains(t) || t == tile) by {
                    assert(tiles@.take(i as int + 1) =~= tiles@.take(i as int).push(tile));
                    crate::seq_util::lemma_push_contains(tiles@.take(i as int), tile, t);
                }
                assert(self.station_track_types_at@ =~= Map::new(
                    |t: TileCoordsXZ| old(self)@.station_track_types_at.dom().contains(t),
                    |t: TileCoordsXZ|
                        if tiles@.take(i as int + 1).contains(t) {
                            old(self)@.station_track_types_at[t].spec_insert(track_type)
                        } else {
                            old(self)@.station_track_types_at[t]
                        },
                ));
            }
            i = i + 1;
        }
        proof {
            crate::seq_util::lemma_take_full(tiles@);
            assert(self.station_track_types_at@ =~= with_track_type(
                old(self)@.station_track_types_at,
                *coverage,
                track_type,
            ));
        }
    }

    /// Adds a station (replacing one with the same identifier), registers it and its track
    /// type on the tiles it covers, and recalculates the links.
    pub fn append_station(&mut self, station: StationInfo)
        requires
            old(self).wf(),
            station.valid(),
            old(self)@.covers_in_bounds(station.spec_covers_tiles()),
        ensures
            final(self).wf(),
            final(self)@ == old(self)@.with_station(station),
    {
        let coverage = station.covers_tiles();
        self.add_station_track_type(&coverage, station.station_type().track_type());
        self.tile_stations.fill(&coverage, Some(station.id()));
        self.stations.insert(station);
        proof {
            assert(self.tile_stations@ =~= filled(
                old(self)@.tile_stations,
                station.spec_covers_tiles(),
                Some(station.spec_id()),
            ));
            lemma_keyed_insert_elements(old(self)@.stations, station);
        }
        self.recalculate_cargo_forwarding_links();
    }

    /// Adds tracks one after the other.
    pub fn append_tracks(&mut self, additional: Vec<TrackInfo>)
        requires
            old(self).wf(),
        ensures
            final(self).wf(),
            final(self)@ == (BuildingStateView {
                tracks: after_append_all(old(self)@.tracks, additional@),
                ..old(self)@
            }),
    {
        self.tracks.append_tracks(additional);
        proof {
            crate::building::track_state::lemma_after_append_all_dom(old(self)@.tracks, additional@);
        }
    }

    /// Takes out the industry building `industry_building_id`, if present, clears its tiles
    /// and recalculates the links.
    pub fn remove_industry_building(&mut self, industry_building_id: IndustryBuildingId)
        requires
            old(self).wf(),
        ensures
            final(self).wf(),
            final(self)@ == old(self)@.without_industry_building(industry_building_id),
    {
        proof {
            self.industry_buildings.lemma_entries();
        }
        let removed = self.industry_buildings.remove(industry_building_id.0);
        match removed {
            Some(building) => {
                proof {
                    crate::id_map::lemma_seq_to_map_contains(old(self)@.industry_buildings);
                    assert(old(self)@.industry_buildings.contains(building));
                    let k = choose|k: int| 0 <= k < old(self)@.industry_buildings.len() && old(self)@.industry_buildings[k] == building;
                    assert(old(self)@.industry_buildings[k].valid());
                }
                self.tile_industry_buildings.fill(&building.covers_tiles(), None);
                proof {
                    assert(self.tile_industry_buildings@ =~= filled(
                        old(self)@.tile_industry_buildings,
                        building.spec_covers_tiles(),
                        None,
                    ));
                }
            },
            None => {},
        }
        proof {
            let v = old(self)@;
            crate::seq_util::lemma_filter_preserves(
                v.industry_buildings,
                |b: IndustryBuildingInfo| b.spec_key() != industry_building_id.0,
                |b: IndustryBuildingInfo| b.valid() && v.covers_in_bounds(b.spec_covers_tiles()),
            );
        }
        self.recalculate_cargo_forwarding_links();
    }

    /// Takes out the military building `military_building_id`, if present, and clears its tile.
    pub fn remove_military_building(&mut self, military_building_id: MilitaryBuildingId)
        requires
            old(self).wf(),
        ensures
            final(self).wf(),
            final(self)@ == old(self)@.without_military_building(military_building_id),
    {
        proof {
            self.military_buildings.lemma_entries();
        }
        let removed = self.military_buildings.remove(military_building_id.0);
        match removed {
            Some(building) => {
                proof {
                    crate::id_map::lemma_seq_to_map_contains(old(self)@.military_buildings);
                    assert(old(self)@.military_buildings.contains(building));
                    let k = choose|k: int| 0 <= k < old(self)@.military_buildings.len() && old(self)@.military_buildings[k] == building;
                    assert(old(self)@.covers_in_bounds(old(self)@.military_buildings[k].spec_covers_tiles()));
                }
                self.tile_military_buildings.fill(&building.covers_tiles(), None);
                proof {
                    assert(self.tile_military_buildings@ =~= filled(
                        old(self)@.tile_military_buildings,
                        building.spec_covers_tiles(),
                        None,
                    ));
                }
            },
            None => {},
        }
        proof {
            let v = old(self)@;
            crate::seq_util::lemma_filter_preserves(
                v.military_buildings,
                |b: MilitaryBuildingInfo| b.spec_key() != military_building_id.0,
                |b: MilitaryBuildingInfo| v.covers_in_bounds(b.spec_covers_tiles()),
            );
        }
    }

    /// Takes out the station `station_id`, if present, clears its tiles and track types,
    /// and recalculates the links.
    pub fn remove_station(&mut self, station_id: StationId)
        requires
            old(self).wf(),
        ensures
            final(self).wf(),
            final(self)@ == old(self)@.without_station(station_id),
    {
        proof {
            self.stations.lemma_entries();
        }
        let removed = self.stations.remove(station_id.0);
        match removed {
            Some(station) => {
                proof {
                    crate::id_map::lemma_seq_to_map_contains(old(self)@.stations);
                    assert(old(self)@.stations.contains(station));
                    let k = choose|k: int| 0 <= k < old(self)@.stations.len() && old(self)@.stations[k] == station;
                    assert(old(self)@.stations[k].valid());
                }
                let coverage = station.covers_tiles();
                self.tile_stations.fill(&coverage, None);
                self.station_track_types_at.fill(&coverage, TrackTypeSet::new());
                proof {
                    assert(self.tile_stations@ =~= filled(old(self)@.tile_stations, station.spec_covers_tiles(), None));
                    assert(self.station_track_types_at@ =~= filled(
                        old(self)@.station_track_types_at,
                        station.spec_covers_tiles(),
                        TrackTypeSet::spec_empty(),
                    ));
                }
            },
            None => {},
        }
        proof {
            let v = old(self)@;
            crate::seq_util::lemma_filter_preserves(
                v.stations,
                |s: StationInfo| s.spec_key() != station_id.0,
                |s: StationInfo| s.valid() && v.covers_in_bounds(s.spec_covers_tiles()),
            );
        }
        self.recalculate_cargo_forwarding_links();
    }

    /// Removes the tracks `track_ids` in order for `requesting_player_id`, stopping at the
    /// first one on a tile the player does not own.
    pub fn attempt_to_remove_tracks(&mut self, requesting_player_id: PlayerId, track_ids: &[TrackId]) -> (r:
        Result<(), ()>)
        requires
            old(self).wf(),
        ensures
            final(self).wf(),
            (final(self)@.tracks, r is Ok) == after_attempted_removals(
                old(self)@.tracks,
                requesting_player_id,
                track_ids@,
            ),
            final(self)@ == (BuildingStateView { tracks: final(self)@.tracks, ..old(self)@ }),
    {
        let r = self.tracks.attempt_to_remove_tracks(requesting_player_id, track_ids);
        proof {
            crate::building::track_state::lemma_after_attempted_removals_dom(
                old(self)@.tracks,
                requesting_player_id,
                track_ids@,
            );
        }
        r
    }

    /// Removes the track `track_id`.
    pub fn remove_track(&mut self, track_id: TrackId)
        requires
            old(self).wf(),
        ensures
            final(self).wf(),
            final(self)@ == (BuildingStateView { tracks: after_remove(old(self)@.tracks, track_id), ..old(self)@ }),
    {
        self.tracks.remove_track(track_id);
        proof {
            assert(after_remove(old(self)@.tracks, track_id).dom() =~= old(self)@.tracks.dom());
        }
    }

    /// Removes the industry building `industry_building_id` when it exists and belongs to
    /// `requesting_player_id`; otherwise changes nothing and fails.
    pub fn attempt_to_remove_industry_building(
        &mut self,
        requesting_player_id: PlayerId,
        industry_building_id: IndustryBuildingId,
    ) -> (r: Result<(), ()>)
        requires
            old(self).wf(),
        ensures
            final(self).wf(),
            (r is Ok) == (match old(self)@.find_industry_building(industry_building_id) {
                Some(building) => building.spec_owner_id() == requesting_player_id,
                None => false,
            }),
            final(self)@ == (if r is Ok {
                old(self)@.without_industry_building(industry_building_id)
            } else {
                old(self)@
            }),
    {
        match self.find_industry_building(industry_building_id) {
            None => Err(()),
            Some(industry_building) => {
                if industry_building.owner_id() == requesting_player_id {
                    self.remove_industry_building(industry_building_id);
                    Ok(())
                } else {
                    Err(())
                }
            },
        }
    }

    /// Removes the military building `military_building_id` when it exists and belongs to
    /// `requesting_player_id`; otherwise changes nothing and fails.
    pub fn attempt_to_remove_military_building(
        &mut self,
        requesting_player_id: PlayerId,
        military_building_id: MilitaryBuildingId,
    ) -> (r: Result<(), ()>)
        requires
            old(self).wf(),
        ensures
            final(self).wf(),
            (r is Ok) == (match old(self)@.find_military_building(military_building_id) {
                Some(building) => building.spec_owner_id() == requesting_player_id,
                None => false,
            }),
            final(self)@ == (if r is Ok {
                old(self)@.without_military_building(military_building_id)
            } else {
                old(self)@
            }),
    {
        match self.find_military_building(military_building_id) {
            None => Err(()),
            Some(military_building) => {
                if military_building.owner_id() == requesting_player_id {
                    self.remove_military_building(military_building_id);
                    Ok(())
                } else {
                    Err(())
                }
            },
        }
    }

    /// Removes the station `station_id` when it exists and belongs to `requesting_player_id`;
    /// otherwise changes nothing and fails.
    pub fn attempt_to_remove_station(&mut self, requesting_player_id: PlayerId, station_id: StationId) -> (r:
        Result<(), ()>)
        requires
            old(self).wf(),
        ensures
            final(self).wf(),
            (r is Ok) == (match old(self)@.find_station(station_id) {
                Some(station) => station.spec_owner_id() == requesting_player_id,
                None => false,
            }),
            final(self)@ == (if r is Ok {
                old(self)@.without_station(station_id)
            } else {
                old(self)@
            }),
    {
        match self.find_station(station_id) {
            None => Err(()),
            Some(station) => {
                if station.owner_id() == requesting_player_id {
                    self.remove_station(station_id);
                    Ok(())
                } else {
                    Err(())
                }
            },
        }
    }

    /// Every station the state holds is valid.
    proof fn lemma_found_station_valid(&self, id: StationId)
        requires
            self.wf(),
        ensures
            self@.find_station(id) matches Some(station) ==> station.valid(),
    {
        self.stations.lemma_entries();
        crate::id_map::lemma_seq_to_map_contains(self@.stations);
        if let Some(station) = self@.find_station(id) {
            assert(self@.stations.contains(station));
            let k = choose|k: int| 0 <= k < self@.stations.len() && self@.stations[k] == station;
            assert(self@.stations[k].valid());
        }
    }

    /// Fails with `InvalidOverlap` when any tile of `tile_coverage` holds a building or tracks.
    pub fn can_build_for_coverage(&self, tile_coverage: &TileCoverage) -> (r: Result<(), BuildError>)
        requires
            self.wf(),
        ensures
            r == (if self@.overlaps(*tile_coverage) {
                Err(BuildError::InvalidOverlap)
            } else {
                Ok(())
            }),
    {
        let tiles = tile_coverage.to_set();
        let mut i: usize = 0;
        while i < tiles.len()
            invariant
                self.wf(),
                i <= tiles.len(),
                forall|t: TileCoordsXZ| #[trigger] tiles@.contains(t) <==> tile_coverage.spec_contains(t),
                forall|j: int|
                    0 <= j < i ==> !(#[trigger] self@.building_at(tiles@[j]) is Some || self@.tracks_at(tiles@[j])
                        != MaybeTracksOnTile::Empty),
            decreases tiles.len() - i,
        {
            let tile = tiles[i];
            if self.building_at(tile).is_some() || self.tracks_at(tile) != MaybeTracksOnTile::Empty {
                proof {
                    assert(tiles@.contains(tile));
                }
                return Err(BuildError::InvalidOverlap);
            }
            i = i + 1;
        }
        proof {
            assert forall|t: TileCoordsXZ|
                tile_coverage.spec_contains(t) implies !(#[trigger] self@.building_at(t) is Some
                || self@.tracks_at(t) != MaybeTracksOnTile::Empty) by {
                assert(tiles@.contains(t));
                let k = choose|k: int| 0 <= k < tiles@.len() && tiles@[k] == t;
                assert(!(self@.building_at(tiles@[k]) is Some || self@.tracks_at(tiles@[k])
                    != MaybeTracksOnTile::Empty));
            }
        }
        Ok(())
    }

    /// Fails with `InvalidOverlap` when any tile `building_info` covers holds a building or tracks.
    pub fn can_build_with_coverage<T: WithTileCoverage>(&self, building_info: &T) -> (r: Result<(), BuildError>)
        requires
            self.wf(),
            building_info.coverage_valid(),
        ensures
            r == (if self@.overlaps(building_info.spec_coverage()) {
                Err(BuildError::InvalidOverlap)
            } else {
                Ok(())
            }),
    {
        self.can_build_for_coverage(&building_info.covers_tiles())
    }

    /// Whether `owner_id` can build a track of `track_type` on `tile`, leaving the cost aside.
    pub fn can_build_track(&self, owner_id: PlayerId, tile: TileCoordsXZ, track_type: TrackType) -> (r:
        CanBuildResponse)
        requires
            self.wf(),
        ensures
            r == self@.can_build_track(owner_id, tile, track_type),
    {
        let overlapping_station = self.station_at(tile);
        let has_same_track_from_station = match overlapping_station {
            Some(station) => {
                proof {
                    self.lemma_found_station_valid(self@.tile_stations[tile].unwrap());
                }
                station.station_track_types_at(tile).contains(track_type)
            },
            None => false,
        };
        let overlapping_industry = self.industry_building_at(tile);
        let invalid_station_overlap = !has_same_track_from_station && overlapping_station.is_some();
        let invalid_industry_overlap = overlapping_industry.is_some();
        let invalid_overlaps = invalid_industry_overlap || invalid_station_overlap;
        let overlapping_tracks = self.tracks_at(tile);
        let overlapping_other_players_tracks = match overlapping_tracks.owner_id() {
            Some(player_id) => player_id != owner_id,
            None => false,
        };
        let has_same_track = overlapping_tracks.track_types().contains(track_type) || has_same_track_from_station;
        if overlapping_other_players_tracks || invalid_overlaps {
            CanBuildResponse::Invalid(BuildError::InvalidOverlap)
        } else if has_same_track {
            CanBuildResponse::AlreadyExists
        } else {
            CanBuildResponse::Buildable
        }
    }

    /// The resources consumed by the industry buildings linked to `station_id`, each once.
    pub fn resource_types_accepted_by_station(&self, station_id: StationId) -> (r: Vec<ResourceType>)
        requires
            self.wf(),
        ensures
            r@.no_duplicates(),
            forall|resource: ResourceType| #[trigger]
                r@.contains(resource) <==> self@.accepts_resource(station_id, resource),
    {
        let mut results: Vec<ResourceType> = Vec::new();
        let mut i: usize = 0;
        while i < self.closest_station_link.len()
            invariant
                self.wf(),
                i <= self.closest_station_link.len(),
                results@.no_duplicates(),
                forall|resource: ResourceType| #[trigger]
                    results@.contains(resource) <==> exists|k: int|
                        0 <= k < i && (#[trigger] self@.closest_station_link[k]).1 == station_id && match self@.find_industry_building(
                            self@.closest_station_link[k].0,
                        ) {
                            Some(b) => b.spec_industry_type().spec_inputs().contains(resource),
                            None => false,
                        },
            decreases self.closest_station_link.len() - i,
        {
            let (industry_building_id, linked_station_id) = self.closest_station_link[i];
            let ghost before = results@;
            if station_id == linked_station_id {
                if let Some(building) = self.find_industry_building(industry_building_id) {
                    let inputs = building.industry_type().input_resource_types();
                    let mut j: usize = 0;
                    while j < inputs.len()
                        invariant
                            j <= inputs.len(),
                            results@.no_duplicates(),
                            forall|resource: ResourceType| #[trigger]
                                results@.contains(resource) <==> (before.contains(resource) || inputs@.take(
                                    j as int,
                                ).contains(resource)),
                        decreases inputs.len() - j,
                    {
                        let resource = inputs[j];
                        let ghost prev = results@;
                        if !crate::resource_type::contains_resource(&results, resource) {
                            proof {
                                crate::seq_util::lemma_push_no_duplicates(results@, resource);
                            }
                            results.push(resource);
                        }
                        proof {
                            assert forall|r: ResourceType| #[trigger] results@.contains(r) <==> (before.contains(r)
                                || inputs@.take(j as int + 1).contains(r)) by {
                                assert(inputs@.take(j as int + 1) =~= inputs@.take(j as int).push(resource));
                                crate::seq_util::lemma_push_contains(inputs@.take(j as int), resource, r);
                                crate::seq_util::lemma_push_contains(prev, resource, r);
                            }
                        }
                        j = j + 1;
                    }
                    proof {
                        crate::seq_util::lemma_take_full(inputs@);
                    }
                }
            }
            proof {
                assert forall|resource: ResourceType| #[trigger] results@.contains(resource) <==> exists|k: int|
                    0 <= k < i + 1 && (#[trigger] self@.closest_station_link[k]).1 == station_id && match self@.find_industry_building(
                        self@.closest_station_link[k].0,
                    ) {
                        Some(b) => b.spec_industry_type().spec_inputs().contains(resource),
                        None => false,
                    } by {
                    if results@.contains(resource) && !before.contains(resource) {
                        assert(self@.closest_station_link[i as int].1 == station_id);
                    }
                    if exists|k: int|
                        0 <= k < i + 1 && (#[trigger] self@.closest_station_link[k]).1 == station_id && match self@.find_industry_building(
                            self@.closest_station_link[k].0,
                        ) {
                            Some(b) => b.spec_industry_type().spec_inputs().contains(resource),
                            None => false,
                        } {
                        let k = choose|k: int|
                            0 <= k < i + 1 && (#[trigger] self@.closest_station_link[k]).1 == station_id && match self@.find_industry_building(
                                self@.closest_station_link[k].0,
                            ) {
                                Some(b) => b.spec_industry_type().spec_inputs().contains(resource),
                                None => false,
                            };
                        if k < i {
                            assert(before.contains(resource));
                        }
                    }
                }
            }
            i = i + 1;
        }
        results
    }

    /// Builds an industry building unless its tiles overlap a building or tracks; paying for
    /// it is left to the caller.
    pub fn build_industry_building(&mut self, industry_building_info: &IndustryBuildingInfo) -> (r: Result<
        (),
        BuildError,
    >)
        requires
            old(self).wf(),
            industry_building_info.valid(),
            old(self)@.covers_in_bounds(industry_building_info.spec_covers_tiles()),
        ensures
            final(self).wf(),
            r == (if old(self)@.overlaps(industry_building_info.spec_covers_tiles()) {
                Err(BuildError::InvalidOverlap)
            } else {
                Ok(())
            }),
            final(self)@ == (if r is Ok {
                old(self)@.with_industry_building(*industry_building_info)
            } else {
                old(self)@
            }),
    {
        self.can_build_with_coverage(industry_building_info)?;
        self.append_industry_building(*industry_building_info);
        Ok(())
    }

    /// Builds a military building unless its tile holds a building or tracks; paying for it
    /// is left to the caller.
    pub fn build_military_building(&mut self, military_building_info: &MilitaryBuildingInfo) -> (r: Result<
        (),
        BuildError,
    >)
        requires
            old(self).wf(),
            old(self)@.covers_in_bounds(military_building_info.spec_covers_tiles()),
        ensures
            final(self).wf(),
            r == (if old(self)@.overlaps(military_building_info.spec_covers_tiles()) {
                Err(BuildError::InvalidOverlap)
            } else {
                Ok(())
            }),
            final(self)@ == (if r is Ok {
                old(self)@.with_military_building(*military_building_info)
            } else {
                old(self)@
            }),
    {
        self.can_build_with_coverage(military_building_info)?;
        self.append_military_building(*military_building_info);
        Ok(())
    }

    /// Builds a station unless its tiles overlap a building or tracks; paying for it is left
    /// to the caller.
    pub fn build_station(&mut self, station_info: &StationInfo) -> (r: Result<(), BuildError>)
        requires
            old(self).wf(),
            station_info.valid(),
            old(self)@.covers_in_bounds(station_info.spec_covers_tiles()),
        ensures
            final(self).wf(),
            r == (if old(self)@.overlaps(station_info.spec_covers_tiles()) {
                Err(BuildError::InvalidOverlap)
            } else {
                Ok(())
            }),
            final(self)@ == (if r is Ok {
                old(self)@.with_station(*station_info)
            } else {
                old(self)@
            }),
    {
        self.can_build_with_coverage(station_info)?;
        self.append_station(*station_info);
        Ok(())
    }

    /// Lays tracks; paying for them is left to the caller.
    pub fn build_tracks(&mut self, tracks: Vec<TrackInfo>)
        requires
            old(self).wf(),
        ensures
            final(self).wf(),
            final(self)@ == (BuildingStateView {
                tracks: after_append_all(old(self)@.tracks, tracks@),
                ..old(self)@
            }),
    {
        self.append_tracks(tracks);
    }

    /// Gives `player_id` a construction yard centred on `tile`, under a fresh random
    /// identifier, which is returned so that the caller can stock it. The tiles must be free.
    pub fn gift_initial_construction_yard(&mut self, player_id: PlayerId, tile: TileCoordsXZ) -> (r:
        IndustryBuildingId)
        requires
            old(self).wf(),
            IndustryBuildingInfo::spec_new(
                player_id,
                IndustryBuildingId(0),
                tile,
                IndustryType::ConstructionYard,
            ).valid(),
            old(self)@.covers_in_bounds(
                IndustryBuildingInfo::spec_new(
                    player_id,
                    IndustryBuildingId(0),
                    tile,
                    IndustryType::ConstructionYard,
                ).spec_covers_tiles(),
            ),
            !old(self)@.overlaps(
                IndustryBuildingInfo::spec_new(
                    player_id,
                    IndustryBuildingId(0),
                    tile,
                    IndustryType::ConstructionYard,
                ).spec_covers_tiles(),
            ),
        ensures
            final(self).wf(),
            crate::randomness::is_v4_uuid_bits(r.0),
            final(self)@ == old(self)@.with_industry_building(
                IndustryBuildingInfo::spec_new(player_id, r, tile, IndustryType::ConstructionYard),
            ),
    {
        let construction_yard_id = IndustryBuildingId::random();
        let construction_yard = IndustryBuildingInfo::new(
            player_id,
            construction_yard_id,
            tile,
            IndustryType::ConstructionYard,
        );
        let ghost placeholder = IndustryBuildingInfo::spec_new(
            player_id,
            IndustryBuildingId(0),
            tile,
            IndustryType::ConstructionYard,
        );
        proof {
            IndustryBuildingInfo::lemma_spec_new(player_id, construction_yard_id, tile, IndustryType::ConstructionYard);
            IndustryBuildingInfo::lemma_spec_new(player_id, IndustryBuildingId(0), tile, IndustryType::ConstructionYard);
            assert(construction_yard.spec_covers_tiles() == placeholder.spec_covers_tiles());
        }
        let _ = self.build_industry_building(&construction_yard);
        construction_yard_id
    }

    /// The industry buildings of `player_id` of type `providing_industry_type` within that
    /// type's supply range of `coverage`, in order; `UnknownError` when the type supplies
    /// nothing to build with.
    pub fn industry_buildings_in_supply_range(
        &self,
        player_id: PlayerId,
        coverage: &TileCoverage,
        providing_industry_type: IndustryType,
    ) -> (r: Result<Vec<IndustryBuildingInfo>, BuildError>)
        requires
            self.wf(),
            forall|b: IndustryBuildingInfo|
                self@.industry_buildings.contains(b) && b.spec_owner_id() == player_id && b.spec_industry_type()
                    == providing_industry_type ==> fits_i32(
                    #[trigger] TileCoverage::spec_distance(*coverage, b.spec_covers_tiles()),
                ),
        ensures
            match providing_industry_type.spec_supply_range_in_tiles() {
                None => r == Err::<Vec<IndustryBuildingInfo>, BuildError>(BuildError::UnknownError),
                Some(range) => r is Ok && r.unwrap()@ == self@.industry_buildings.filter(
                    |b: IndustryBuildingInfo|
                        b.spec_owner_id() == player_id && b.spec_industry_type() == providing_industry_type
                            && TileCoverage::spec_distance(*coverage, b.spec_covers_tiles()) <= range,
                ),
            },
    {
        match providing_industry_type.supply_range_in_tiles() {
            None => Err(BuildError::UnknownError),
            Some(supply_range) => {
                let all = self.industry_buildings.values();
                let mut result: Vec<IndustryBuildingInfo> = Vec::new();
                let mut i: usize = 0;
                while i < all.len()
                    invariant
                        self.wf(),
                        all@ == self@.industry_buildings,
                        forall|b: IndustryBuildingInfo|
                            self@.industry_buildings.contains(b) && b.spec_owner_id() == player_id
                                && b.spec_industry_type() == providing_industry_type ==> fits_i32(
                                #[trigger] TileCoverage::spec_distance(*coverage, b.spec_covers_tiles()),
                            ),
                        i <= all.len(),
                        result@ == all@.take(i as int).filter(
                            |b: IndustryBuildingInfo|
                                b.spec_owner_id() == player_id && b.spec_industry_type() == providing_industry_type
                                    && TileCoverage::spec_distance(*coverage, b.spec_covers_tiles())
                                    <= supply_range,
                        ),
                    decreases all.len() - i,
                {
                    proof {
                        crate::seq_util::lemma_filter_take_step(
                            all@,
                            |b: IndustryBuildingInfo|
                                b.spec_owner_id() == player_id && b.spec_industry_type() == providing_industry_type
                                    && TileCoverage::spec_distance(*coverage, b.spec_covers_tiles())
                                    <= supply_range,
                            i as int,
                        );
                    }
                    let building = all[i];
                    if building.owner_id() == player_id && building.industry_type() == providing_industry_type {
                        let building_coverage = building.covers_tiles();
                        proof {
                            assert(self@.industry_buildings[i as int] == building);
                            assert(self@.industry_buildings.contains(building));
                        }
                        let distance = TileCoverage::manhattan_distance_between_closest_tiles(
                            coverage,
                            &building_coverage,
                        );
                        if distance <= supply_range {
                            result.push(building);
                        }
                    }
                    i = i + 1;
                }
                proof {
                    crate::seq_util::lemma_take_full(all@);
                }
                Ok(result)
            },
        }
    }

    /// Checks that each of `payers` is an industry building of `player_id` with enough cargo,
    /// in order; whether each has enough cargo is given by `has_enough_cargo`.
    pub fn can_pay_costs(
        &self,
        player_id: PlayerId,
        payers: &Vec<IndustryBuildingId>,
        has_enough_cargo: &Vec<bool>,
    ) -> (r: Result<(), BuildError>)
        requires
            self.wf(),
            payers.len() == has_enough_cargo.len(),
        ensures
            r == (match first_payer_error(self@, player_id, payers@, has_enough_cargo@, 0) {
                Some(error) => Err(error),
                None => Ok(()),
            }),
    {
        let mut i: usize = 0;
        while i < payers.len()
            invariant
                self.wf(),
                payers.len() == has_enough_cargo.len(),
                i <= payers.len(),
                first_payer_error(self@, player_id, payers@, has_enough_cargo@, 0) == first_payer_error(
                    self@,
                    player_id,
                    payers@,
                    has_enough_cargo@,
                    i as int,
                ),
            decreases payers.len() - i,
        {
            match self.find_industry_building(payers[i]) {
                Some(industry_building) => {
                    if industry_building.owner_id() != player_id {
                        return Err(BuildError::UnknownError);
                    }
                    if !has_enough_cargo[i] {
                        return Err(BuildError::NotEnoughResources);
                    }
                },
                None => {
                    return Err(BuildError::UnknownError);
                },
            }
            i = i + 1;
        }
        Ok(())
    }
}

/// The identifier of the first of `candidates` whose `has_enough_cargo` entry holds, or
/// `NotEnoughResources` when there is none.
pub fn first_supplier_with_enough_cargo(
    candidates: &Vec<IndustryBuildingInfo>,
    has_enough_cargo: &Vec<bool>,
) -> (r: Result<IndustryBuildingId, BuildError>)
    requires
        candidates.len() == has_enough_cargo.len(),
    ensures
        match r {
            Ok(id) => exists|i: int|
                0 <= i < candidates.len() && #[trigger] has_enough_cargo@[i] && id == candidates@[i].spec_id()
                    && forall|j: int| 0 <= j < i ==> !has_enough_cargo@[j],
            Err(error) => error == BuildError::NotEnoughResources && forall|j: int|
                0 <= j < candidates.len() ==> !#[trigger] has_enough_cargo@[j],
        },
{
    let mut i: usize = 0;
    while i < candidates.len()
        invariant
            candidates.len() == has_enough_cargo.len(),
            i <= candidates.len(),
            forall|j: int| 0 <= j < i ==> !#[trigger] has_enough_cargo@[j],
        decreases candidates.len() - i,
    {
        if has_enough_cargo[i] {
            return Ok(candidates[i].id());
        }
        i = i + 1;
    }
    Err(BuildError::NotEnoughResources)
}

/// Cargo forwarding links: in a well-formed state an industry building is linked to a
/// station exactly when its owner has a station within the forwarding threshold; the linked
/// station is then one of the owner's stations within the threshold, and none of the
/// owner's stations is nearer. An identifier of no industry building has no link.
pub proof fn lemma_cargo_forwarding_links(state: &BuildingState, id: IndustryBuildingId)
    requires
        state.wf(),
    ensures
        match state@.find_industry_building(id) {
            None => state@.linked_station_id(id) is None,
            Some(building) => {
                &&& state@.linked_station_id(id) is Some <==> exists|station: StationInfo|
                    #![trigger building_station_distance(building, station)]
                    state@.stations.contains(station) && station.spec_owner_id() == building.spec_owner_id()
                        && building_station_distance(building, station)
                        <= cargo_forwarding_distance_threshold()
                &&& state@.linked_station_id(id) matches Some(station_id) ==> exists|station: StationInfo|
                    #![trigger building_station_distance(building, station)]
                    state@.stations.contains(station) && station.spec_id() == station_id
                        && station.spec_owner_id() == building.spec_owner_id()
                        && building_station_distance(building, station)
                        <= cargo_forwarding_distance_threshold() && forall|other: StationInfo|
                        state@.stations.contains(other) && other.spec_owner_id() == building.spec_owner_id()
                            ==> building_station_distance(building, station)
                            <= #[trigger] building_station_distance(building, other)
            },
        },
{
    let v = state@;
    let bs = v.industry_buildings;
    let links = links_for(bs, v.stations);
    state.industry_buildings.lemma_entries();
    crate::building::station_links::lemma_links_for(bs, v.stations);
    crate::building::station_links::lemma_links_for_unique(bs, v.stations);
    match v.find_industry_building(id) {
        None => {
            if exists|k: int| 0 <= k < links.len() && (#[trigger] links[k]).0 == id {
                let k = choose|k: int| 0 <= k < links.len() && (#[trigger] links[k]).0 == id;
                let i = choose|i: int| 0 <= i < bs.len() && (#[trigger] links[k]).0 == bs[i].spec_id();
                crate::id_map::lemma_seq_to_map_at(bs, i);
            }
        },
        Some(building) => {
            assert(bs.contains(building));
            crate::building::station_links::lemma_station_link(building, v.stations);
            let i = choose|i: int| 0 <= i < bs.len() && bs[i] == building;
            assert(building.spec_id() == id);
            match station_link(building, v.stations) {
                Some(link) => {
                    assert(links.contains(link));
                    let k = choose|k: int| 0 <= k < links.len() && links[k] == link;
                    let k2 = choose|k2: int| 0 <= k2 < links.len() && (#[trigger] links[k2]).0 == id;
                    assert(k2 == k);
                    assert(v.linked_station_id(id) == Some(link.1));
                },
                None => {
                    if exists|k: int| 0 <= k < links.len() && (#[trigger] links[k]).0 == id {
                        let k = choose|k: int| 0 <= k < links.len() && (#[trigger] links[k]).0 == id;
                        assert(links.contains(links[k]));
                        let j = choose|j: int|
                            0 <= j < bs.len() && station_link(#[trigger] bs[j], v.stations) == Some(links[k]);
                        crate::building::station_links::lemma_station_link(bs[j], v.stations);
                        assert(bs[j].spec_key() == bs[i].spec_key());
                        assert(j == i);
                    }
                },
            }
        },
    }
}

/// Adding an industry building makes it the one found under its identifier and on every
/// tile it covers, and leaves the buildings under other identifiers as they were.
pub proof fn lemma_append_industry_building_found(
    state: &BuildingState,
    building: IndustryBuildingInfo,
    other: IndustryBuildingId,
)
    requires
        state.wf(),
        state@.covers_in_bounds(building.spec_covers_tiles()),
    ensures
        state@.with_industry_building(building).find_industry_building(building.spec_id()) == Some(building),
        other != building.spec_id() ==> state@.with_industry_building(building).find_industry_building(other)
            == state@.find_industry_building(other),
        forall|t: TileCoordsXZ|
            building.spec_covers_tiles().spec_contains(t) ==> #[trigger] state@.with_industry_building(
                building,
            ).industry_building_at(t) == Some(building),
{
    state.industry_buildings.lemma_entries();
    crate::id_map::lemma_keyed_insert_map(state@.industry_buildings, building);
    if other != building.spec_id() {
        assert(other.0 != building.spec_id().0);
    }
}

/// Adding a station makes it the one found under its identifier and on every tile it
/// covers, puts its track type on those tiles, and leaves the stations under other
/// identifiers as they were.
pub proof fn lemma_append_station_found(state: &BuildingState, station: StationInfo, other: StationId)
    requires
        state.wf(),
        state@.covers_in_bounds(station.spec_covers_tiles()),
    ensures
        state@.with_station(station).find_station(station.spec_id()) == Some(station),
        other != station.spec_id() ==> state@.with_station(station).find_station(other) == state@.find_station(
            other,
        ),
        forall|t: TileCoordsXZ|
            station.spec_covers_tiles().spec_contains(t) ==> #[trigger] state@.with_station(station).station_at(t)
                == Some(station) && state@.with_station(station).station_track_types_at[t].has(
                station.spec_station_type().spec_track_type(),
            ),
{
    state.stations.lemma_entries();
    crate::id_map::lemma_keyed_insert_map(state@.stations, station);
    if other != station.spec_id() {
        assert(other.0 != station.spec_id().0);
    }
}

/// Adding a military building makes it the one found under its identifier and on every
/// tile it covers, and leaves the military buildings under other identifiers as they were.
pub proof fn lemma_append_military_building_found(
    state: &BuildingState,
    building: MilitaryBuildingInfo,
    other: MilitaryBuildingId,
)
    requires
        state.wf(),
        state@.covers_in_bounds(building.spec_covers_tiles()),
    ensures
        state@.with_military_building(building).find_military_building(building.spec_id()) == Some(building),
        other != building.spec_id() ==> state@.with_military_building(building).find_military_building(other)
            == state@.find_military_building(other),
        forall|t: TileCoordsXZ|
            building.spec_covers_tiles().spec_contains(t) ==> #[trigger] state@.with_military_building(
                building,
            ).military_building_at(t) == Some(building),
{
    state.military_buildings.lemma_entries();
    crate::id_map::lemma_keyed_insert_map(state@.military_buildings, building);
    if other != building.spec_id() {
        assert(other.0 != building.spec_id().0);
    }
}

/// After taking out the industry building `id` none is found under that identifier or on
/// the tiles it covered, and the buildings under other identifiers are as they were.
pub proof fn lemma_remove_industry_building_gone(
    state: &BuildingState,
    id: IndustryBuildingId,
    other: IndustryBuildingId,
)
    requires
        state.wf(),
    ensures
        state@.without_industry_building(id).find_industry_building(id) is None,
        other != id ==> state@.without_industry_building(id).find_industry_building(other)
            == state@.find_industry_building(other),
        state@.find_industry_building(id) matches Some(removed) ==> forall|t: TileCoordsXZ|
            removed.spec_covers_tiles().spec_contains(t) ==> #[trigger] state@.without_industry_building(
                id,
            ).industry_building_at(t) is None,
{
    state.industry_buildings.lemma_entries();
    crate::id_map::lemma_keyed_remove_map(state@.industry_buildings, id.0);
    if other != id {
        assert(other.0 != id.0);
    }
}

/// After taking out the station `id` none is found under that identifier or on the tiles
/// it covered, those tiles hold no station track types, and the stations under other
/// identifiers are as they were.
pub proof fn lemma_remove_station_gone(state: &BuildingState, id: StationId, other: StationId)
    requires
        state.wf(),
    ensures
        state@.without_station(id).find_station(id) is None,
        other != id ==> state@.without_station(id).find_station(other) == state@.find_station(other),
        state@.find_station(id) matches Some(removed) ==> forall|t: TileCoordsXZ|
            removed.spec_covers_tiles().spec_contains(t) && state@.in_bounds(t) ==> #[trigger] state@.without_station(
                id,
            ).station_at(t) is None && state@.without_station(id).station_track_types_at[t].spec_is_empty(),
{
    state.stations.lemma_entries();
    crate::id_map::lemma_keyed_remove_map(state@.stations, id.0);
    if other != id {
        assert(other.0 != id.0);
    }
}

/// After taking out the military building `id` none is found under that identifier or on
/// the tiles it covered, and the military buildings under other identifiers are as they were.
pub proof fn lemma_remove_military_building_gone(
    state: &BuildingState,
    id: MilitaryBuildingId,
    other: MilitaryBuildingId,
)
    requires
        state.wf(),
    ensures
        state@.without_military_building(id).find_military_building(id) is None,
        other != id ==> state@.without_military_building(id).find_military_building(other)
            == state@.find_military_building(other),
        state@.find_military_building(id) matches Some(removed) ==> forall|t: TileCoordsXZ|
            removed.spec_covers_tiles().spec_contains(t) ==> #[trigger] state@.without_military_building(
                id,
            ).military_building_at(t) is None,
{
    state.military_buildings.lemma_entries();
    crate::id_map::lemma_keyed_remove_map(state@.military_buildings, id.0);
    if other != id {
        assert(other.0 != id.0);
    }
}

/// Removing an industry building that was just added under a new identifier brings back
/// the buildings and the cargo forwarding links as they were before.
pub proof fn lemma_remove_undoes_append_industry_building(state: &BuildingState, building: IndustryBuildingInfo)
    requires
        state.wf(),
        state@.find_industry_building(building.spec_id()) is None,
    ensures
        state@.with_industry_building(building).without_industry_building(building.spec_id()).industry_buildings
            == state@.industry_buildings,
        state@.with_industry_building(building).without_industry_building(
            building.spec_id(),
        ).closest_station_link == state@.closest_station_link,
{
    let bs = state@.industry_buildings;
    let key = building.spec_id().0;
    state.industry_buildings.lemma_entries();
    assert(!crate::id_map::has_key(bs, key));
    assert(crate::id_map::keyed_insert(bs, building) == bs.push(building));
    let p = |b: IndustryBuildingInfo| b.spec_key() != key;
    assert(bs.push(building).filter(p) == bs.filter(p)) by {
        reveal(Seq::filter);
        assert(bs.push(building).drop_last() =~= bs);
    }
    assert forall|i: int| 0 <= i < bs.len() implies p(#[trigger] bs[i]) by {
        if bs[i].spec_key() == key {
            assert(crate::id_map::has_key(bs, key));
        }
    }
    crate::seq_util::lemma_filter_keeps_all(bs, p);
}

/// Removing a station that was just added under a new identifier brings back the stations
/// and the cargo forwarding links as they were before.
pub proof fn lemma_remove_undoes_append_station(state: &BuildingState, station: StationInfo)
    requires
        state.wf(),
        state@.find_station(station.spec_id()) is None,
    ensures
        state@.with_station(station).without_station(station.spec_id()).stations == state@.stations,
        state@.with_station(station).without_station(station.spec_id()).closest_station_link
            == state@.closest_station_link,
{
    let ss = state@.stations;
    let key = station.spec_id().0;
    state.stations.lemma_entries();
    assert(!crate::id_map::has_key(ss, key));
    assert(crate::id_map::keyed_insert(ss, station) == ss.push(station));
    let p = |s: StationInfo| s.spec_key() != key;
    assert(ss.push(station).filter(p) == ss.filter(p)) by {
        reveal(Seq::filter);
        assert(ss.push(station).drop_last() =~= ss);
    }
    assert forall|i: int| 0 <= i < ss.len() implies p(#[trigger] ss[i]) by {
        if ss[i].spec_key() == key {
            assert(crate::id_map::has_key(ss, key));
        }
    }
    crate::seq_util::lemma_filter_keeps_all(ss, p);
}

/// A track just appended on a tile of the map that holds no building and no tracks of
/// another player is then reported as already existing.
pub proof fn lemma_appended_track_already_exists(state: &BuildingState, track: TrackInfo)
    requires
        state.wf(),
        state@.in_bounds(track.spec_tile()),
        state@.tracks_at(track.spec_tile()).spec_owner_id() is None || state@.tracks_at(
            track.spec_tile(),
        ).spec_owner_id() == Some(track.spec_owner_id()),
        state@.industry_building_at(track.spec_tile()) is None,
        state@.station_at(track.spec_tile()) is None,
    ensures
        (BuildingStateView {
            tracks: after_append_all(state@.tracks, seq![track]),
            ..state@
        }).can_build_track(track.spec_owner_id(), track.spec_tile(), track.spec_track_type())
            == CanBuildResponse::AlreadyExists,
{
    let tracks = seq![track];
    assert(tracks.drop_last() =~= Seq::<TrackInfo>::empty());
    assert(tracks.last() == track);
    assert(state@.tracks.dom().contains(track.spec_tile()));
    let before = state@.tracks[track.spec_tile()];
    let after = before.spec_appended(track.spec_owner_id(), track.spec_track_type());
    assert(after.spec_owner_id() == Some(track.spec_owner_id()));
    assert(after.spec_track_types().has(track.spec_track_type()));
    assert(after_append_all(state@.tracks, tracks.drop_last()) == state@.tracks);
    let appended = after_append_all(state@.tracks, tracks);
    assert(appended == crate::building::track_state::after_append(state@.tracks, track));
    assert(tracks_in(appended, track.spec_tile()) == after);
}

/// A tile with a building of any kind (station, industry or military) or with tracks on it
/// blocks building anything whose tiles include it.
pub proof fn lemma_occupied_tile_blocks_building(state: BuildingStateView, coverage: TileCoverage, t: TileCoordsXZ)
    requires
        coverage.spec_contains(t),
        state.building_at(t) is Some || state.tracks_at(t) != MaybeTracksOnTile::Empty,
    ensures
        state.overlaps(coverage),
{
    assert(coverage.spec_contains(t) && (state.building_at(t) is Some || state.tracks_at(t)
        != MaybeTracksOnTile::Empty));
}

/// Once an industry building has been built, it stands on each of its tiles (that holds no
/// station or military building), so nothing else can be built over any of them.
pub proof fn lemma_built_industry_building_blocks(
    state: &BuildingState,
    building: IndustryBuildingInfo,
    coverage: TileCoverage,
    t: TileCoordsXZ,
)
    requires
        state.wf(),
        state@.covers_in_bounds(building.spec_covers_tiles()),
        building.spec_covers_tiles().spec_contains(t),
        coverage.spec_contains(t),
        state@.station_at(t) is None,
        state@.military_building_at(t) is None,
    ensures
        state@.with_industry_building(building).building_at(t) == Some(BuildingAtTile::Industry(building)),
        state@.with_industry_building(building).overlaps(coverage),
{
    lemma_append_industry_building_found(state, building, building.spec_id());
    let after = state@.with_industry_building(building);
    assert(after.station_at(t) == state@.station_at(t));
    assert(after.military_building_at(t) == state@.military_building_at(t));
    lemma_occupied_tile_blocks_building(after, coverage, t);
}

/// Once a station has been built, it stands on each of its tiles (that holds no industry or
/// military building), so nothing else can be built over any of them.
pub proof fn lemma_built_station_blocks(
    state: &BuildingState,
    station: StationInfo,
    coverage: TileCoverage,
    t: TileCoordsXZ,
)
    requires
        state.wf(),
        state@.covers_in_bounds(station.spec_covers_tiles()),
        station.spec_covers_tiles().spec_contains(t),
        coverage.spec_contains(t),
        state@.industry_building_at(t) is None,
        state@.military_building_at(t) is None,
    ensures
        state@.with_station(station).building_at(t) == Some(BuildingAtTile::Station(station)),
        state@.with_station(station).overlaps(coverage),
{
    lemma_append_station_found(state, station, station.spec_id());
    let after = state@.with_station(station);
    assert(after.industry_building_at(t) == state@.industry_building_at(t));
    assert(after.military_building_at(t) == state@.military_building_at(t));
    lemma_occupied_tile_blocks_building(after, coverage, t);
}

/// Once a military building has been built, it stands on each of its tiles (that holds no
/// station or industry building), so nothing else can be built over any of them.
pub proof fn lemma_built_military_building_blocks(
    state: &BuildingState,
    building: MilitaryBuildingInfo,
    coverage: TileCoverage,
    t: TileCoordsXZ,
)
    requires
        state.wf(),
        state@.covers_in_bounds(building.spec_covers_tiles()),
        building.spec_covers_tiles().spec_contains(t),
        coverage.spec_contains(t),
        state@.station_at(t) is None,
        state@.industry_building_at(t) is None,
    ensures
        state@.with_military_building(building).building_at(t) == Some(BuildingAtTile::Military(building)),
        state@.with_military_building(building).overlaps(coverage),
{
    lemma_append_military_building_found(state, building, building.spec_id());
    let after = state@.with_military_building(building);
    assert(after.station_at(t) == state@.station_at(t));
    assert(after.industry_building_at(t) == state@.industry_building_at(t));
    lemma_occupied_tile_blocks_building(after, coverage, t);
}

} // verus!
