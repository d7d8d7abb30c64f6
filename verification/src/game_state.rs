use vstd::prelude::*;

use crate::building::building_state::{
    uniform_grid, BuildingState, BuildingStateView, CanBuildResponse,
};
use crate::building::industry_type::IndustryType;
use crate::building::industry_building_info::IndustryBuildingInfo;
use crate::building::station_info::StationInfo;
use crate::building::track_info::TrackInfo;
use crate::building::track_state::{empty_tracks, holds_track, MaybeTracksOnTile};
use crate::building::BuildError;
use crate::map_level::map_level::MapLevel;
use crate::map_level::zoning::ZoningInfo;
use crate::players::player_state::{players_by_id, PlayerState};
use crate::scenario::{PlayerProfile, Scenario};
use crate::server_response::PlayerInfo;
use crate::supply_chain::SupplyChain;
use crate::tile_coords_xz::TileCoordsXZ;
use crate::tile_coverage::TileCoverage;
use crate::transport::track_type::TrackType;
use crate::transport::track_type_set::TrackTypeSet;
use crate::{GameId, IndustryBuildingId, MilitaryBuildingId, PlayerId, ScenarioId, StationId, TrackId};

verus! {

/// The tracks of `tracks` that are to be built, in order, or the first error: a track
/// that cannot be built fails with its error; one that already exists is left out; one that
/// can be built fails with `costs` at its position when that is an error, and is kept
/// otherwise.
pub open spec fn tracks_to_build(
    state: GameState,
    requesting_player_id: PlayerId,
    tracks: Seq<TrackInfo>,
    costs: Seq<Result<(), BuildError>>,
) -> Result<Seq<TrackInfo>, BuildError>
    decreases tracks.len(),
{
    if tracks.len() == 0 {
        Ok(Seq::empty())
    } else {
        let last = tracks.last();
        match tracks_to_build(state, requesting_player_id, tracks.drop_last(), costs) {
            Err(e) => Err(e),
            Ok(kept) => match state.spec_can_build_track(requesting_player_id, last) {
                CanBuildResponse::Buildable => match costs[tracks.len() - 1] {
                    Err(e) => Err(e),
                    Ok(()) => Ok(kept.push(last)),
                },
                CanBuildResponse::AlreadyExists => Ok(kept),
                CanBuildResponse::Invalid(e) => Err(e),
            },
        }
    }
}

/// There are tracks, and all of them belong to one player.
pub open spec fn single_owner(tracks: Seq<TrackInfo>) -> bool {
    &&& tracks.len() > 0
    &&& forall|k: int| 0 <= k < tracks.len() ==> (#[trigger] tracks[k]).spec_owner_id() == tracks[0].spec_owner_id()
}

/// The tracks to build, when they belong to exactly one player; `InvalidOwner` otherwise.
pub open spec fn spec_can_build_tracks(
    state: GameState,
    requesting_player_id: PlayerId,
    tracks: Seq<TrackInfo>,
    costs: Seq<Result<(), BuildError>>,
) -> Result<Seq<TrackInfo>, BuildError> {
    match tracks_to_build(state, requesting_player_id, tracks, costs) {
        Err(e) => Err(e),
        Ok(kept) => if single_owner(kept) {
            Ok(kept)
        } else {
            Err(BuildError::InvalidOwner)
        },
    }
}

/// The answer to a build request: the placement check's error if there is one, otherwise
/// the outcome of the payment check.
pub open spec fn then_payment(placement: Result<(), BuildError>, payment: Result<(), BuildError>) -> Result<
    (),
    BuildError,
> {
    match placement {
        Err(e) => Err(e),
        Ok(()) => payment,
    }
}

/// The answer to a request to build tracks: the error of the checks of
/// `spec_can_build_tracks` if there is one, then that of the payment of all kept tracks,
/// otherwise the kept tracks.
pub open spec fn tracks_then_payment(
    checked: Result<Seq<TrackInfo>, BuildError>,
    payment: Result<(), BuildError>,
) -> Result<Seq<TrackInfo>, BuildError> {
    match checked {
        Err(e) => Err(e),
        Ok(kept) => match payment {
            Err(e) => Err(e),
            Ok(()) => Ok(kept),
        },
    }
}

/// The construction yard that `profile` starts with, under identifier `id`.
pub open spec fn initial_yard(profile: PlayerProfile, id: IndustryBuildingId) -> IndustryBuildingInfo {
    IndustryBuildingInfo::spec_new(
        profile.player_id,
        id,
        profile.initial_construction_yard,
        IndustryType::ConstructionYard,
    )
}

/// The tiles of the construction yard that `profile` starts with.
pub open spec fn initial_yard_tiles(profile: PlayerProfile) -> TileCoverage {
    initial_yard(profile, IndustryBuildingId(0)).spec_covers_tiles()
}

/// The players' starting construction yards fit on a map of `size_x` by `size_z` tiles and
/// do not share a tile.
pub open spec fn initial_yards_fit(players: Seq<PlayerProfile>, size_x: int, size_z: int) -> bool {
    &&& forall|i: int| 0 <= i < players.len() ==> (#[trigger] initial_yard(players[i], IndustryBuildingId(0))).valid()
    &&& forall|i: int, t: TileCoordsXZ|
        0 <= i < players.len() && #[trigger] initial_yard_tiles(players[i]).spec_contains(t) ==> 0 <= t.x < size_x
            && 0 <= t.z < size_z
    &&& forall|i: int, j: int, t: TileCoordsXZ|
        0 <= i < j < players.len() && #[trigger] initial_yard_tiles(players[i]).spec_contains(t)
            ==> !#[trigger] initial_yard_tiles(players[j]).spec_contains(t)
}

/// An empty map of `size_x` by `size_z` tiles with the players' construction yards added
/// one after the other under identifiers `ids`.
pub open spec fn with_initial_yards(
    size_x: int,
    size_z: int,
    players: Seq<PlayerProfile>,
    ids: Seq<IndustryBuildingId>,
) -> BuildingStateView
    decreases players.len(),
{
    if players.len() == 0 {
        empty_buildings(size_x, size_z)
    } else {
        with_initial_yards(size_x, size_z, players.drop_last(), ids).with_industry_building(
            initial_yard(players.last(), ids[players.len() - 1]),
        )
    }
}

/// A map of `size_x` by `size_z` tiles without buildings or tracks.
pub open spec fn empty_buildings(size_x: int, size_z: int) -> BuildingStateView {
    BuildingStateView {
        size_x,
        size_z,
        tracks: empty_tracks(size_x, size_z),
        industry_buildings: Seq::empty(),
        tile_industry_buildings: uniform_grid(size_x, size_z, None),
        military_buildings: Seq::empty(),
        tile_military_buildings: uniform_grid(size_x, size_z, None),
        stations: Seq::empty(),
        tile_stations: uniform_grid(size_x, size_z, None),
        station_track_types_at: uniform_grid(size_x, size_z, TrackTypeSet::spec_empty()),
        closest_station_link: Seq::empty(),
    }
}

/// The players of `profiles`, in order.
pub open spec fn profile_infos(profiles: Seq<PlayerProfile>) -> Seq<PlayerInfo> {
    profiles.map_values(
        |p: PlayerProfile| PlayerInfo { id: p.player_id, name: p.player_name, colour: p.player_colour },
    )
}

/// A game: its map, its players, and what they have built.
pub struct GameState {
    pub game_id: GameId,
    pub scenario_id: ScenarioId,
    map_level: MapLevel,
    buildings: BuildingState,
    players: PlayerState,
    supply_chain: SupplyChain,
    ignore_requesting_player_id: bool,
}

impl GameState {
    pub closed spec fn spec_game_id(&self) -> GameId {
        self.game_id
    }

    pub closed spec fn spec_scenario_id(&self) -> ScenarioId {
        self.scenario_id
    }

    pub closed spec fn spec_map_level(&self) -> MapLevel {
        self.map_level
    }

    pub closed spec fn spec_buildings(&self) -> BuildingStateView {
        self.buildings@
    }

    pub closed spec fn spec_players(&self) -> PlayerState {
        self.players
    }

    /// Whether requests are accepted on behalf of any player.
    pub closed spec fn spec_ignores_requesting_player(&self) -> bool {
        self.ignore_requesting_player_id
    }

    /// The parts are well formed, and the buildings cover the tiles of the map.
    pub closed spec fn wf(&self) -> bool {
        &&& self.map_level.wf()
        &&& self.buildings.wf()
        &&& self.players.wf()
        &&& self.buildings@.size_x == self.map_level.spec_terrain().spec_tile_count_x()
        &&& self.buildings@.size_z == self.map_level.spec_terrain().spec_tile_count_z()
    }

    /// A request of `requesting_player_id` about something of `owner_id` is accepted when
    /// they are the same player, or when requests are accepted on behalf of anyone.
    pub open spec fn spec_valid_owner(&self, requesting_player_id: PlayerId, owner_id: PlayerId) -> Result<
        (),
        BuildError,
    > {
        if self.spec_ignores_requesting_player() || owner_id == requesting_player_id {
            Ok(())
        } else {
            Err(BuildError::InvalidOwner)
        }
    }

    /// Whether a track of `track_type` can be built on `tile` for `owner_id`, leaving the
    /// cost aside: first the map decides, then what is built there.
    pub open spec fn spec_can_build_track_internal(
        &self,
        owner_id: PlayerId,
        tile: TileCoordsXZ,
        track_type: TrackType,
    ) -> CanBuildResponse {
        match self.spec_map_level().spec_can_build_track(tile, track_type) {
            Ok(()) => self.spec_buildings().can_build_track(owner_id, tile, track_type),
            Err(e) => CanBuildResponse::Invalid(e),
        }
    }

    /// Whether `track` can be built at the request of `requesting_player_id`, leaving the
    /// cost aside.
    pub open spec fn spec_can_build_track(&self, requesting_player_id: PlayerId, track: TrackInfo) -> CanBuildResponse {
        match self.spec_valid_owner(requesting_player_id, track.spec_owner_id()) {
            Ok(()) => self.spec_can_build_track_internal(track.spec_owner_id(), track.spec_tile(), track.spec_track_type()),
            Err(e) => CanBuildResponse::Invalid(e),
        }
    }

    /// Whether `building` can be built at the request of `requesting_player_id`, leaving
    /// the cost aside: the owner is checked, then the map, then what is built there.
    pub open spec fn spec_can_build_industry_building(
        &self,
        requesting_player_id: PlayerId,
        building: IndustryBuildingInfo,
    ) -> Result<(), BuildError> {
        match self.spec_valid_owner(requesting_player_id, building.spec_owner_id()) {
            Err(e) => Err(e),
            Ok(()) => match self.spec_map_level().spec_can_build_industry_building(building) {
                Err(e) => Err(e),
                Ok(()) => if self.spec_buildings().overlaps(building.spec_covers_tiles()) {
                    Err(BuildError::InvalidOverlap)
                } else {
                    Ok(())
                },
            },
        }
    }

    /// Whether `station` can be built at the request of `requesting_player_id`, leaving the
    /// cost aside: the owner is checked, then the map, then what is built there.
    pub open spec fn spec_can_build_station(&self, requesting_player_id: PlayerId, station: StationInfo) -> Result<
        (),
        BuildError,
    > {
        match self.spec_valid_owner(requesting_player_id, station.spec_owner_id()) {
            Err(e) => Err(e),
            Ok(()) => match self.spec_map_level().spec_can_build_station(station) {
                Err(e) => Err(e),
                Ok(()) => if self.spec_buildings().overlaps(station.spec_covers_tiles()) {
                    Err(BuildError::InvalidOverlap)
                } else {
                    Ok(())
                },
            },
        }
    }

    /// A new game on the scenario's map, with a fresh random identifier, the scenario's
    /// players, and for each player a construction yard where the scenario puts it, under a
    /// fresh random identifier; the caller stocks the yards.
    pub fn from_scenario(scenario: Scenario, ignore_requesting_player_id: bool) -> (r: GameState)
        requires
            scenario.map_level.wf(),
            scenario.map_level.spec_terrain().spec_tile_count_x() * scenario.map_level.spec_terrain().spec_tile_count_z()
                <= usize::MAX,
            scenario.map_level.spec_terrain().spec_tile_count_x() + scenario.map_level.spec_terrain().spec_tile_count_z()
                <= i32::MAX,
            initial_yards_fit(
                scenario.players@,
                scenario.map_level.spec_terrain().spec_tile_count_x(),
                scenario.map_level.spec_terrain().spec_tile_count_z(),
            ),
        ensures
            r.wf(),
            crate::randomness::is_v4_uuid_bits(r.spec_game_id().0),
            r.spec_scenario_id() == scenario.scenario_id,
            r.spec_map_level() == scenario.map_level,
            r.spec_players()@ == players_by_id(profile_infos(scenario.players@)),
            r.spec_ignores_requesting_player() == ignore_requesting_player_id,
            exists|ids: Seq<IndustryBuildingId>|
                ids.len() == scenario.players@.len() && r.spec_buildings() == with_initial_yards(
                    scenario.map_level.spec_terrain().spec_tile_count_x(),
                    scenario.map_level.spec_terrain().spec_tile_count_z(),
                    scenario.players@,
                    ids,
                ),
    {
        let game_id = GameId::random();
        let size_x = scenario.map_level.terrain().tile_count_x();
        let size_z = scenario.map_level.terrain().tile_count_z();
        let mut infos: Vec<PlayerInfo> = Vec::new();
        let mut i: usize = 0;
        while i < scenario.players.len()
            invariant
                i <= scenario.players@.len(),
                infos@ == profile_infos(scenario.players@).take(i as int),
            decreases scenario.players.len() - i,
        {
            infos.push(scenario.players[i].to_player_info());
            proof {
                assert(infos@ =~= profile_infos(scenario.players@).take(i as int + 1));
            }
            i = i + 1;
        }
        proof {
            crate::seq_util::lemma_take_full(profile_infos(scenario.players@));
        }
        let players = PlayerState::from_infos(infos);
        let mut buildings = BuildingState::new(size_x, size_z);
        let ghost mut ids: Seq<IndustryBuildingId> = Seq::empty();
        let ghost sx = size_x as int;
        let ghost sz = size_z as int;
        let mut k: usize = 0;
        while k < scenario.players.len()
            invariant
                k <= scenario.players@.len(),
                sx == size_x,
                sz == size_z,
                initial_yards_fit(scenario.players@, sx, sz),
                buildings.wf(),
                ids.len() == k,
                buildings@ == with_initial_yards(sx, sz, scenario.players@.take(k as int), ids),
                buildings@.size_x == sx,
                buildings@.size_z == sz,
                buildings@.tracks == empty_tracks(sx, sz),
                buildings@.tile_stations == uniform_grid(sx, sz, None::<StationId>),
                buildings@.tile_military_buildings == uniform_grid(sx, sz, None::<MilitaryBuildingId>),
                buildings@.tile_industry_buildings.dom() == uniform_grid(sx, sz, None::<IndustryBuildingId>).dom(),
                forall|t: TileCoordsXZ|
                    buildings@.tile_industry_buildings.dom().contains(t) && (
                    #[trigger] buildings@.tile_industry_buildings[t]) is Some ==> exists|j: int|
                        0 <= j < k && #[trigger] initial_yard_tiles(scenario.players@[j]).spec_contains(t),
            decreases scenario.players.len() - k,
        {
            let profile = &scenario.players[k];
            let ghost yard_tiles = initial_yard_tiles(*profile);
            proof {
                assert(initial_yard(scenario.players@[k as int], IndustryBuildingId(0)).valid());
                assert forall|t: TileCoordsXZ| yard_tiles.spec_contains(t) implies buildings@.in_bounds(t) by {
                    assert(initial_yard_tiles(scenario.players@[k as int]).spec_contains(t));
                }
                assert forall|t: TileCoordsXZ| yard_tiles.spec_contains(t) implies !(#[trigger] buildings@.building_at(t)
                    is Some || buildings@.tracks_at(t) != MaybeTracksOnTile::Empty) by {
                    assert(initial_yard_tiles(scenario.players@[k as int]).spec_contains(t));
                    if buildings@.tile_industry_buildings.dom().contains(t)
                        && buildings@.tile_industry_buildings[t] is Some {
                        let j = choose|j: int|
                            0 <= j < k && #[trigger] initial_yard_tiles(scenario.players@[j]).spec_contains(t);
                        assert(!initial_yard_tiles(scenario.players@[k as int]).spec_contains(t));
                    }
                }
            }
            let id = buildings.gift_initial_construction_yard(profile.player_id, profile.initial_construction_yard);
            proof {
                let old_ids = ids;
                ids = ids.push(id);
                assert(scenario.players@.take(k as int + 1).drop_last() =~= scenario.players@.take(k as int));
                assert(ids.drop_last() =~= old_ids);
                lemma_with_initial_yards_ids(sx, sz, scenario.players@.take(k as int), old_ids, ids);
                IndustryBuildingInfo::lemma_spec_new(profile.player_id, id, profile.initial_construction_yard, IndustryType::ConstructionYard);
                IndustryBuildingInfo::lemma_spec_new(profile.player_id, IndustryBuildingId(0), profile.initial_construction_yard, IndustryType::ConstructionYard);
                assert forall|t: TileCoordsXZ|
                    buildings@.tile_industry_buildings.dom().contains(t) && (
                    #[trigger] buildings@.tile_industry_buildings[t]) is Some implies exists|j: int|
                        0 <= j < k + 1 && #[trigger] initial_yard_tiles(scenario.players@[j]).spec_contains(t) by {
                    if yard_tiles.spec_contains(t) {
                        assert(initial_yard_tiles(scenario.players@[k as int]).spec_contains(t));
                    } else {
                        let j = choose|j: int|
                            0 <= j < k && #[trigger] initial_yard_tiles(scenario.players@[j]).spec_contains(t);
                        assert(initial_yard_tiles(scenario.players@[j]).spec_contains(t));
                    }
                }
            }
            k = k + 1;
        }
        proof {
            crate::seq_util::lemma_take_full(scenario.players@);
        }
        GameState {
            game_id,
            scenario_id: scenario.scenario_id,
            map_level: scenario.map_level,
            buildings,
            players,
            supply_chain: SupplyChain::new(),
            ignore_requesting_player_id,
        }
    }

    pub fn game_id(&self) -> (r: GameId)
        ensures
            r == self.spec_game_id(),
    {
        self.game_id
    }

    pub fn scenario_id(&self) -> (r: ScenarioId)
        ensures
            r == self.spec_scenario_id(),
    {
        self.scenario_id.copy()
    }

    pub fn map_level(&self) -> (r: &MapLevel)
        ensures
            *r == self.spec_map_level(),
    {
        &self.map_level
    }

    pub fn players(&self) -> (r: &PlayerState)
        ensures
            *r == self.spec_players(),
    {
        &self.players
    }

    pub fn building_state(&self) -> (r: &BuildingState)
        ensures
            r@ == self.spec_buildings(),
            self.wf() ==> r.wf(),
    {
        &self.buildings
    }

    pub fn supply_chain(&self) -> (r: &SupplyChain)
        ensures
            *r == (SupplyChain {}),
    {
        &self.supply_chain
    }

    /// Every track of the game, each once.
    pub fn track_infos(&self) -> (r: Vec<TrackInfo>)
        requires
            self.wf(),
        ensures
            r@.no_duplicates(),
            forall|info: TrackInfo| #[trigger] r@.contains(info) <==> holds_track(self.spec_buildings().tracks, info),
    {
        self.buildings.all_track_infos()
    }

    fn valid_owner(&self, requesting_player_id: PlayerId, owner_id: PlayerId) -> (r: Result<(), BuildError>)
        ensures
            r == self.spec_valid_owner(requesting_player_id, owner_id),
    {
        if self.ignore_requesting_player_id {
            Ok(())
        } else if owner_id == requesting_player_id {
            Ok(())
        } else {
            Err(BuildError::InvalidOwner)
        }
    }

    /// Whether `track` can be built at the request of `requesting_player_id`, leaving the
    /// cost aside.
    pub fn can_build_track(&self, requesting_player_id: PlayerId, track: &TrackInfo) -> (r: CanBuildResponse)
        requires
            self.wf(),
            track.spec_tile().has_vertices(),
        ensures
            r == self.spec_can_build_track(requesting_player_id, *track),
    {
        match self.valid_owner(requesting_player_id, track.owner_id()) {
            Ok(()) => self.can_build_track_internal(track.owner_id(), track.tile(), track.track_type()),
            Err(err) => CanBuildResponse::Invalid(err),
        }
    }

    /// Whether a track of `track_type` can be built on `tile` for `owner_id`, leaving the
    /// cost aside.
    pub fn can_build_track_internal(&self, owner_id: PlayerId, tile: TileCoordsXZ, track_type: TrackType) -> (r:
        CanBuildResponse)
        requires
            self.wf(),
            tile.has_vertices(),
        ensures
            r == self.spec_can_build_track_internal(owner_id, tile, track_type),
    {
        match self.map_level.can_build_track(tile, track_type) {
            Ok(()) => self.buildings.can_build_track(owner_id, tile, track_type),
            Err(err) => CanBuildResponse::Invalid(err),
        }
    }

    /// Whether `building` can be built at the request of `requesting_player_id`; the cost
    /// is checked by the caller after this.
    pub fn can_build_industry_building(&self, requesting_player_id: PlayerId, building: &IndustryBuildingInfo) -> (r:
        Result<(), BuildError>)
        requires
            self.wf(),
            building.valid(),
            MapLevel::coverage_has_vertices(building.spec_covers_tiles()),
        ensures
            r == self.spec_can_build_industry_building(requesting_player_id, *building),
    {
        self.valid_owner(requesting_player_id, building.owner_id())?;
        self.map_level.can_build_industry_building(building)?;
        self.buildings.can_build_with_coverage(building)?;
        Ok(())
    }

    /// Whether `station` can be built at the request of `requesting_player_id`; the cost is
    /// checked by the caller after this.
    pub fn can_build_station(&self, requesting_player_id: PlayerId, station: &StationInfo) -> (r: Result<
        (),
        BuildError,
    >)
        requires
            self.wf(),
            station.valid(),
            MapLevel::coverage_has_vertices(station.spec_covers_tiles()),
        ensures
            r == self.spec_can_build_station(requesting_player_id, *station),
    {
        self.valid_owner(requesting_player_id, station.owner_id())?;
        self.map_level.can_build_station(station)?;
        self.buildings.can_build_with_coverage(station)?;
        Ok(())
    }

    /// Tiles that can be built on lie within the buildings' grid.
    proof fn lemma_buildable_in_bounds(&self, coverage: TileCoverage)
        requires
            self.wf(),
            self.map_level.spec_coverage_buildable(coverage),
        ensures
            self.buildings@.covers_in_bounds(coverage),
    {
        assert forall|t: TileCoordsXZ| coverage.spec_contains(t) implies self.buildings@.in_bounds(t) by {
            assert(self.map_level.spec_terrain().spec_tile_in_bounds(t));
        }
    }

    /// Builds `building` at the request of `requesting_player_id` when it can be built and
    /// paid for. `payment` is the outcome of the cost check, which the caller makes on the
    /// cargo it holds; it decides only once the placement is allowed. Taking the cargo is
    /// left to the caller.
    pub fn build_industry_building(
        &mut self,
        requesting_player_id: PlayerId,
        building: &IndustryBuildingInfo,
        payment: Result<(), BuildError>,
    ) -> (r: Result<(), BuildError>)
        requires
            old(self).wf(),
            building.valid(),
            MapLevel::coverage_has_vertices(building.spec_covers_tiles()),
        ensures
            final(self).wf(),
            r == then_payment(old(self).spec_can_build_industry_building(requesting_player_id, *building), payment),
            final(self).spec_buildings() == (if r is Ok {
                old(self).spec_buildings().with_industry_building(*building)
            } else {
                old(self).spec_buildings()
            }),
            final(self).spec_map_level() == old(self).spec_map_level(),
            final(self).spec_players() == old(self).spec_players(),
    {
        self.can_build_industry_building(requesting_player_id, building)?;
        payment?;
        proof {
            self.lemma_buildable_in_bounds(building.spec_covers_tiles());
        }
        self.buildings.build_industry_building(building)
    }

    /// Builds `station` at the request of `requesting_player_id` when it can be built and
    /// paid for. `payment` is the outcome of the cost check, which the caller makes on the
    /// cargo it holds; it decides only once the placement is allowed. Taking the cargo is
    /// left to the caller.
    pub fn build_station(
        &mut self,
        requesting_player_id: PlayerId,
        station: &StationInfo,
        payment: Result<(), BuildError>,
    ) -> (r: Result<(), BuildError>)
        requires
            old(self).wf(),
            station.valid(),
            MapLevel::coverage_has_vertices(station.spec_covers_tiles()),
        ensures
            final(self).wf(),
            r == then_payment(old(self).spec_can_build_station(requesting_player_id, *station), payment),
            final(self).spec_buildings() == (if r is Ok {
                old(self).spec_buildings().with_station(*station)
            } else {
                old(self).spec_buildings()
            }),
            final(self).spec_map_level() == old(self).spec_map_level(),
            final(self).spec_players() == old(self).spec_players(),
    {
        self.can_build_station(requesting_player_id, station)?;
        payment?;
        proof {
            self.lemma_buildable_in_bounds(station.spec_covers_tiles());
        }
        self.buildings.build_station(station)
    }

    /// Removes the tracks `track_ids` for `requesting_player_id`, stopping at the first one
    /// on a tile the player does not own.
    pub fn remove_tracks(&mut self, requesting_player_id: PlayerId, track_ids: &[TrackId]) -> (r: Result<(), ()>)
        requires
            old(self).wf(),
        ensures
            final(self).wf(),
            (final(self).spec_buildings().tracks, r is Ok) == crate::building::track_state::after_attempted_removals(
                old(self).spec_buildings().tracks,
                requesting_player_id,
                track_ids@,
            ),
            final(self).spec_buildings() == (BuildingStateView {
                tracks: final(self).spec_buildings().tracks,
                ..old(self).spec_buildings()
            }),
            final(self).spec_map_level() == old(self).spec_map_level(),
            final(self).spec_players() == old(self).spec_players(),
    {
        self.buildings.attempt_to_remove_tracks(requesting_player_id, track_ids)
    }

    /// Removes the industry building `industry_building_id` when it belongs to
    /// `requesting_player_id`.
    pub fn remove_industry_building(&mut self, requesting_player_id: PlayerId, industry_building_id: IndustryBuildingId) -> (r:
        Result<(), ()>)
        requires
            old(self).wf(),
        ensures
            final(self).wf(),
            (r is Ok) == (match old(self).spec_buildings().find_industry_building(industry_building_id) {
                Some(building) => building.spec_owner_id() == requesting_player_id,
                None => false,
            }),
            final(self).spec_buildings() == (if r is Ok {
                old(self).spec_buildings().without_industry_building(industry_building_id)
            } else {
                old(self).spec_buildings()
            }),
            final(self).spec_map_level() == old(self).spec_map_level(),
            final(self).spec_players() == old(self).spec_players(),
    {
        self.buildings.attempt_to_remove_industry_building(requesting_player_id, industry_building_id)
    }

    /// Removes the station `station_id` when it belongs to `requesting_player_id`.
    pub fn remove_station(&mut self, requesting_player_id: PlayerId, station_id: StationId) -> (r: Result<(), ()>)
        requires
            old(self).wf(),
        ensures
            final(self).wf(),
            (r is Ok) == (match old(self).spec_buildings().find_station(station_id) {
                Some(station) => station.spec_owner_id() == requesting_player_id,
                None => false,
            }),
            final(self).spec_buildings() == (if r is Ok {
                old(self).spec_buildings().without_station(station_id)
            } else {
                old(self).spec_buildings()
            }),
            final(self).spec_map_level() == old(self).spec_map_level(),
            final(self).spec_players() == old(self).spec_players(),
    {
        self.buildings.attempt_to_remove_station(requesting_player_id, station_id)
    }

    /// Removes the military building `military_building_id` when it belongs to
    /// `requesting_player_id`.
    pub fn remove_military_building(&mut self, requesting_player_id: PlayerId, military_building_id: MilitaryBuildingId) -> (r:
        Result<(), ()>)
        requires
            old(self).wf(),
        ensures
            final(self).wf(),
            (r is Ok) == (match old(self).spec_buildings().find_military_building(military_building_id) {
                Some(building) => building.spec_owner_id() == requesting_player_id,
                None => false,
            }),
            final(self).spec_buildings() == (if r is Ok {
                old(self).spec_buildings().without_military_building(military_building_id)
            } else {
                old(self).spec_buildings()
            }),
            final(self).spec_map_level() == old(self).spec_map_level(),
            final(self).spec_players() == old(self).spec_players(),
    {
        self.buildings.attempt_to_remove_military_building(requesting_player_id, military_building_id)
    }

    /// The tracks of `track_infos` to build at the request of `requesting_player_id`:
    /// those that already exist are left out, and the first track that cannot be built, or
    /// whose own cost `track_costs` reports as unaffordable, gives the error. The kept
    /// tracks must all belong to one player. Whether the player can pay for all of them
    /// together is checked by the caller after this.
    pub fn can_build_tracks(
        &self,
        requesting_player_id: PlayerId,
        track_infos: &[TrackInfo],
        track_costs: &[Result<(), BuildError>],
    ) -> (r: Result<Vec<TrackInfo>, BuildError>)
        requires
            self.wf(),
            track_costs@.len() == track_infos@.len(),
            forall|i: int| 0 <= i < track_infos@.len() ==> (#[trigger] track_infos@[i]).spec_tile().has_vertices(),
        ensures
            match r {
                Ok(kept) => spec_can_build_tracks(*self, requesting_player_id, track_infos@, track_costs@) == Ok::<
                    Seq<TrackInfo>,
                    BuildError,
                >(kept@),
                Err(e) => spec_can_build_tracks(*self, requesting_player_id, track_infos@, track_costs@) == Err::<
                    Seq<TrackInfo>,
                    BuildError,
                >(e),
            },
    {
        let mut results: Vec<TrackInfo> = Vec::new();
        let mut first_owner: Option<PlayerId> = None;
        let mut one_owner = true;
        let mut i: usize = 0;
        while i < track_infos.len()
            invariant
                self.wf(),
                i <= track_infos@.len(),
                track_costs@.len() == track_infos@.len(),
                forall|j: int| 0 <= j < track_infos@.len() ==> (#[trigger] track_infos@[j]).spec_tile().has_vertices(),
                tracks_to_build(*self, requesting_player_id, track_infos@.take(i as int), track_costs@) == Ok::<
                    Seq<TrackInfo>,
                    BuildError,
                >(results@),
                first_owner == (if results@.len() > 0 {
                    Some(results@[0].spec_owner_id())
                } else {
                    None
                }),
                one_owner == forall|k: int|
                    0 <= k < results@.len() ==> (#[trigger] results@[k]).spec_owner_id() == results@[0].spec_owner_id(),
            decreases track_infos.len() - i,
        {
            let track = track_infos[i];
            proof {
                assert(track_infos@.take(i as int + 1).drop_last() =~= track_infos@.take(i as int));
                assert(track_infos@.take(i as int + 1).last() == track);
                assert(track_costs@.take(i as int + 1).len() == i + 1);
            }
            match self.can_build_track(requesting_player_id, &track) {
                CanBuildResponse::Buildable => {
                    let owner = track.owner_id();
                    match track_costs[i] {
                        Err(e) => {
                            proof {
                                crate::game_state::lemma_tracks_to_build_fails_later(
                                    *self,
                                    requesting_player_id,
                                    track_infos@,
                                    track_costs@,
                                    i as int + 1,
                                );
                            }
                            return Err(e);
                        },
                        Ok(()) => {},
                    }
                    let ghost before = results@;
                    results.push(track);
                    match first_owner {
                        None => {
                            first_owner = Some(owner);
                        },
                        Some(first) => {
                            if first != owner {
                                one_owner = false;
                            }
                        },
                    }
                    proof {
                        assert(results@ == before.push(track));
                        if before.len() > 0 {
                            assert(results@[0] == before[0]);
                        }
                        assert forall|k: int| 0 <= k < before.len() implies #[trigger] results@[k] == before[k] by {}
                        if one_owner {
                            assert forall|k: int| 0 <= k < results@.len() implies (#[trigger] results@[k]).spec_owner_id()
                                == results@[0].spec_owner_id() by {
                                if k < before.len() {
                                    assert(results@[k] == before[k]);
                                }
                            }
                        } else {
                            if before.len() > 0 && track.spec_owner_id() != before[0].spec_owner_id() {
                                assert(results@[before.len() as int] == track);
                            } else {
                                let k = choose|k: int|
                                    0 <= k < before.len() && (#[trigger] before[k]).spec_owner_id() != before[0].spec_owner_id();
                                assert(results@[k] == before[k]);
                            }
                        }
                    }
                },
                CanBuildResponse::AlreadyExists => {},
                CanBuildResponse::Invalid(e) => {
                    proof {
                        crate::game_state::lemma_tracks_to_build_fails_later(
                            *self,
                            requesting_player_id,
                            track_infos@,
                            track_costs@,
                            i as int + 1,
                        );
                    }
                    return Err(e);
                },
            }
            i = i + 1;
        }
        proof {
            crate::seq_util::lemma_take_full(track_infos@);
        }
        if first_owner.is_some() && one_owner {
            Ok(results)
        } else {
            Err(BuildError::InvalidOwner)
        }
    }

    /// Builds the tracks of `track_infos` that `can_build_tracks` keeps, and returns them,
    /// when the player can pay for them together. `total_payment` is the outcome of the
    /// check of that combined cost, which the caller makes on the cargo it holds for the
    /// tracks that `can_build_tracks` keeps; it decides only once those checks pass. Taking
    /// the cargo is left to the caller.
    pub fn build_tracks(
        &mut self,
        requesting_player_id: PlayerId,
        track_infos: &[TrackInfo],
        track_costs: &[Result<(), BuildError>],
        total_payment: Result<(), BuildError>,
    ) -> (r: Result<Vec<TrackInfo>, BuildError>)
        requires
            old(self).wf(),
            track_costs@.len() == track_infos@.len(),
            forall|i: int| 0 <= i < track_infos@.len() ==> (#[trigger] track_infos@[i]).spec_tile().has_vertices(),
        ensures
            final(self).wf(),
            match r {
                Ok(kept) => tracks_then_payment(
                    spec_can_build_tracks(*old(self), requesting_player_id, track_infos@, track_costs@),
                    total_payment,
                ) == Ok::<Seq<TrackInfo>, BuildError>(kept@),
                Err(e) => tracks_then_payment(
                    spec_can_build_tracks(*old(self), requesting_player_id, track_infos@, track_costs@),
                    total_payment,
                ) == Err::<Seq<TrackInfo>, BuildError>(e),
            },
            final(self).spec_buildings() == (match r {
                Ok(kept) => BuildingStateView {
                    tracks: crate::building::track_state::after_append_all(old(self).spec_buildings().tracks, kept@),
                    ..old(self).spec_buildings()
                },
                Err(_) => old(self).spec_buildings(),
            }),
            final(self).spec_map_level() == old(self).spec_map_level(),
            final(self).spec_players() == old(self).spec_players(),
    {
        let filtered = self.can_build_tracks(requesting_player_id, track_infos, track_costs)?;
        total_payment?;
        let mut to_append: Vec<TrackInfo> = Vec::new();
        let mut i: usize = 0;
        while i < filtered.len()
            invariant
                i <= filtered.len(),
                to_append@ == filtered@.take(i as int),
            decreases filtered.len() - i,
        {
            to_append.push(filtered[i]);
            proof {
                assert(to_append@ =~= filtered@.take(i as int + 1));
            }
            i = i + 1;
        }
        proof {
            crate::seq_util::lemma_take_full(filtered@);
        }
        self.buildings.build_tracks(to_append);
        Ok(filtered)
    }

    /// The zonings, in order, on whose reference tile no industry building stands.
    pub fn all_free_zonings(&self) -> (r: Vec<ZoningInfo>)
        requires
            self.wf(),
        ensures
            r@ == self.spec_map_level().spec_zoning().zonings_in_order().filter(
                |z: ZoningInfo| self.spec_buildings().industry_building_at(z.spec_reference_tile()) is None,
            ),
    {
        let all = self.map_level.zoning().all_zonings();
        let mut result: Vec<ZoningInfo> = Vec::new();
        let mut i: usize = 0;
        while i < all.len()
            invariant
                self.wf(),
                i <= all.len(),
                all@ == self.spec_map_level().spec_zoning().zonings_in_order(),
                result@ == all@.take(i as int).filter(
                    |z: ZoningInfo| self.spec_buildings().industry_building_at(z.spec_reference_tile()) is None,
                ),
            decreases all.len() - i,
        {
            proof {
                crate::seq_util::lemma_filter_take_step(
                    all@,
                    |z: ZoningInfo| self.spec_buildings().industry_building_at(z.spec_reference_tile()) is None,
                    i as int,
                );
            }
            let zoning = all[i];
            if self.buildings.industry_building_at(zoning.reference_tile()).is_none() {
                result.push(zoning);
            }
            i = i + 1;
        }
        proof {
            crate::seq_util::lemma_take_full(all@);
        }
        result
    }
}

/// Once the tracks up to some position fail, all the tracks fail with the same error.
pub proof fn lemma_tracks_to_build_fails_later(
    state: GameState,
    requesting_player_id: PlayerId,
    tracks: Seq<TrackInfo>,
    costs: Seq<Result<(), BuildError>>,
    i: int,
)
    requires
        0 <= i <= tracks.len(),
        tracks_to_build(state, requesting_player_id, tracks.take(i), costs) is Err,
    ensures
        tracks_to_build(state, requesting_player_id, tracks, costs) == tracks_to_build(
            state,
            requesting_player_id,
            tracks.take(i),
            costs,
        ),
    decreases tracks.len() - i,
{
    if i < tracks.len() {
        assert(tracks.take(i + 1).drop_last() =~= tracks.take(i));
        lemma_tracks_to_build_fails_later(state, requesting_player_id, tracks, costs, i + 1);
    } else {
        crate::seq_util::lemma_take_full(tracks);
    }
}

/// Adding the yards of some players only reads the identifiers at their positions.
pub proof fn lemma_with_initial_yards_ids(
    size_x: int,
    size_z: int,
    players: Seq<PlayerProfile>,
    ids: Seq<IndustryBuildingId>,
    longer: Seq<IndustryBuildingId>,
)
    requires
        ids.len() >= players.len(),
        longer.len() >= ids.len(),
        forall|i: int| 0 <= i < ids.len() ==> longer[i] == ids[i],
    ensures
        with_initial_yards(size_x, size_z, players, longer) == with_initial_yards(size_x, size_z, players, ids),
    decreases players.len(),
{
    if players.len() > 0 {
        lemma_with_initial_yards_ids(size_x, size_z, players.drop_last(), ids, longer);
    }
}

} // verus!
