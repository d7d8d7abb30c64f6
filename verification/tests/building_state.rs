use shared_domain::building::building_state::{
    first_supplier_with_enough_cargo, BuildingAtTile, BuildingState, CanBuildResponse,
};
use shared_domain::building::industry_building_info::IndustryBuildingInfo;
use shared_domain::building::industry_type::IndustryType;
use shared_domain::building::military_building_info::MilitaryBuildingInfo;
use shared_domain::building::military_building_type::MilitaryBuildingType;
use shared_domain::building::station_info::StationInfo;
use shared_domain::building::station_type::{StationOrientation, StationType};
use shared_domain::building::track_info::TrackInfo;
use shared_domain::building::track_state::MaybeTracksOnTile;
use shared_domain::building::BuildError;
use shared_domain::direction_xz::DirectionXZ;
use shared_domain::resource_type::ResourceType;
use shared_domain::tile_coords_xz::TileCoordsXZ;
use shared_domain::tile_coverage::TileCoverage;
use shared_domain::transport::track_type::TrackType;
use shared_domain::{IndustryBuildingId, MilitaryBuildingId, PlayerId, StationId, TrackId};

fn west_to_east_1_4() -> StationType {
    StationType { orientation: StationOrientation::EastToWest, platforms: 1, length_in_tiles: 4 }
}

fn north_to_south_1_4() -> StationType {
    StationType { orientation: StationOrientation::NorthToSouth, platforms: 1, length_in_tiles: 4 }
}

#[test]
fn test_disallow_build_station_over_tracks() {
    let size_x = 4;
    let size_z = 1;
    let mut building_state = BuildingState::new(size_x, size_z);
    let owner_id = PlayerId::random();
    let tile = TileCoordsXZ::new(2, 0);
    let track_type = TrackType::NorthWest;
    let track_info = TrackInfo::new(owner_id, tile, track_type);
    building_state.append_tracks(vec![track_info]);
    let station_info = StationInfo::new(
        owner_id,
        StationId::random(),
        TileCoordsXZ::new(0, 0),
        west_to_east_1_4(),
    );
    let result = building_state.can_build_with_coverage(&station_info);
    assert_eq!(result, Err(BuildError::InvalidOverlap));
}

#[test]
fn station_is_found_on_its_tiles_until_its_owner_removes_it() {
    let mut state = BuildingState::new(5, 5);
    let owner = PlayerId::new(1);
    let other = PlayerId::new(2);
    let station_id = StationId::new(10);
    let station = StationInfo::new(owner, station_id, TileCoordsXZ::new(0, 0), north_to_south_1_4());
    assert_eq!(state.build_station(&station), Ok(()));
    assert_eq!(state.find_station(station_id), Some(station));
    assert_eq!(state.station_at(TileCoordsXZ::new(0, 3)), Some(station));
    assert_eq!(state.station_at(TileCoordsXZ::new(1, 3)), None);
    assert_eq!(state.building_at(TileCoordsXZ::new(0, 2)), Some(BuildingAtTile::Station(station)));
    assert!(state.track_types_at(TileCoordsXZ::new(0, 1)).contains(TrackType::NorthSouth));
    assert_eq!(state.all_stations(), vec![station]);
    assert_eq!(state.find_players_stations(owner), vec![station]);
    assert_eq!(state.find_players_stations(other), vec![]);

    assert_eq!(state.attempt_to_remove_station(other, station_id), Err(()));
    assert_eq!(state.find_station(station_id), Some(station));
    assert_eq!(state.attempt_to_remove_station(owner, station_id), Ok(()));
    assert_eq!(state.find_station(station_id), None);
    assert_eq!(state.station_at(TileCoordsXZ::new(0, 3)), None);
    assert!(state.track_types_at(TileCoordsXZ::new(0, 1)).is_empty());
    assert_eq!(state.attempt_to_remove_station(owner, station_id), Err(()));
}

#[test]
fn building_over_another_building_is_an_overlap() {
    let mut state = BuildingState::new(8, 8);
    let owner = PlayerId::new(1);
    let station = StationInfo::new(owner, StationId::new(3), TileCoordsXZ::new(3, 0), north_to_south_1_4());
    assert_eq!(state.build_station(&station), Ok(()));
    let industry = IndustryBuildingInfo::new(
        owner,
        IndustryBuildingId::new(4),
        TileCoordsXZ::new(2, 2),
        IndustryType::SteelMill,
    );
    assert_eq!(state.build_industry_building(&industry), Err(BuildError::InvalidOverlap));
    assert_eq!(state.find_industry_building(IndustryBuildingId::new(4)), None);
    assert_eq!(state.all_industry_buildings(), vec![]);
}

#[test]
fn industry_is_linked_to_an_own_station_next_to_it() {
    let mut state = BuildingState::new(10, 10);
    let owner = PlayerId::new(1);
    let other = PlayerId::new(2);
    let industry_id = IndustryBuildingId::new(5);
    let industry = IndustryBuildingInfo::new(owner, industry_id, TileCoordsXZ::new(2, 2), IndustryType::SteelMill);
    assert_eq!(state.build_industry_building(&industry), Ok(()));
    assert_eq!(state.find_linked_station(industry_id), None);
    assert_eq!(state.find_players_industry_buildings_without_linked_stations(owner), vec![industry]);

    let foreign = StationInfo::new(other, StationId::new(7), TileCoordsXZ::new(4, 1), north_to_south_1_4());
    assert_eq!(state.build_station(&foreign), Ok(()));
    assert_eq!(state.find_linked_station(industry_id), None);

    let own_far = StationInfo::new(owner, StationId::new(8), TileCoordsXZ::new(8, 0), north_to_south_1_4());
    assert_eq!(state.build_station(&own_far), Ok(()));
    assert_eq!(state.find_linked_station(industry_id), None);

    let own_near = StationInfo::new(owner, StationId::new(9), TileCoordsXZ::new(0, 0), north_to_south_1_4());
    assert_eq!(state.build_station(&own_near), Ok(()));
    assert_eq!(state.find_linked_station(industry_id), Some(own_near));
    assert_eq!(state.find_players_industry_buildings_without_linked_stations(owner), vec![]);

    let accepted = state.resource_types_accepted_by_station(StationId::new(9));
    assert_eq!(accepted.len(), 2);
    assert!(accepted.contains(&ResourceType::Iron));
    assert!(accepted.contains(&ResourceType::Coal));
    assert_eq!(state.resource_types_accepted_by_station(StationId::new(8)), vec![]);

    assert_eq!(state.attempt_to_remove_station(owner, StationId::new(9)), Ok(()));
    assert_eq!(state.find_linked_station(industry_id), None);
}

#[test]
fn removing_an_industry_clears_its_tiles_and_links() {
    let mut state = BuildingState::new(10, 10);
    let owner = PlayerId::new(1);
    let industry_id = IndustryBuildingId::new(5);
    let industry = IndustryBuildingInfo::new(owner, industry_id, TileCoordsXZ::new(2, 2), IndustryType::Farm);
    state.append_industry_building(industry);
    assert_eq!(state.industry_building_at(TileCoordsXZ::new(1, 1)), Some(industry));
    assert_eq!(state.industry_building_at(TileCoordsXZ::new(3, 3)), Some(industry));
    assert_eq!(state.industry_building_at(TileCoordsXZ::new(4, 3)), None);
    assert_eq!(state.attempt_to_remove_industry_building(PlayerId::new(2), industry_id), Err(()));
    assert_eq!(state.attempt_to_remove_industry_building(owner, industry_id), Ok(()));
    assert_eq!(state.industry_building_at(TileCoordsXZ::new(1, 1)), None);
    assert_eq!(state.find_industry_building(industry_id), None);
    assert_eq!(state.attempt_to_remove_industry_building(owner, industry_id), Err(()));
}

#[test]
fn military_building_is_found_and_removed_by_its_owner() {
    let mut state = BuildingState::new(4, 4);
    let owner = PlayerId::new(1);
    let id = MilitaryBuildingId::new(6);
    let building = MilitaryBuildingInfo::new(id, owner, MilitaryBuildingType::FixedArtillery, TileCoordsXZ::new(1, 1));
    assert_eq!(state.build_military_building(&building), Ok(()));
    assert_eq!(state.military_building_at(TileCoordsXZ::new(1, 1)), Some(building));
    assert_eq!(state.building_at(TileCoordsXZ::new(1, 1)), Some(BuildingAtTile::Military(building)));
    assert_eq!(state.all_military_buildings(), vec![building]);
    assert_eq!(state.build_military_building(&building), Err(BuildError::InvalidOverlap));
    assert_eq!(state.attempt_to_remove_military_building(PlayerId::new(2), id), Err(()));
    assert_eq!(state.attempt_to_remove_military_building(owner, id), Ok(()));
    assert_eq!(state.find_military_building(id), None);
    assert_eq!(state.building_at(TileCoordsXZ::new(1, 1)), None);
}

#[test]
fn can_build_track_answers_for_each_kind_of_tile() {
    let mut state = BuildingState::new(10, 10);
    let owner = PlayerId::new(1);
    let other = PlayerId::new(2);
    state.append_tracks(vec![TrackInfo::new(owner, TileCoordsXZ::new(0, 0), TrackType::NorthEast)]);
    let station = StationInfo::new(owner, StationId::new(3), TileCoordsXZ::new(5, 0), north_to_south_1_4());
    state.append_station(station);
    let industry = IndustryBuildingInfo::new(owner, IndustryBuildingId::new(4), TileCoordsXZ::new(2, 6), IndustryType::Farm);
    state.append_industry_building(industry);

    let own_tile = TileCoordsXZ::new(0, 0);
    assert_eq!(state.can_build_track(owner, own_tile, TrackType::NorthEast), CanBuildResponse::AlreadyExists);
    assert_eq!(state.can_build_track(owner, own_tile, TrackType::EastWest), CanBuildResponse::Buildable);
    assert_eq!(
        state.can_build_track(other, own_tile, TrackType::EastWest),
        CanBuildResponse::Invalid(BuildError::InvalidOverlap)
    );
    let station_tile = TileCoordsXZ::new(5, 2);
    assert_eq!(state.can_build_track(owner, station_tile, TrackType::NorthSouth), CanBuildResponse::AlreadyExists);
    assert_eq!(
        state.can_build_track(owner, station_tile, TrackType::EastWest),
        CanBuildResponse::Invalid(BuildError::InvalidOverlap)
    );
    assert_eq!(
        state.can_build_track(owner, TileCoordsXZ::new(2, 6), TrackType::EastWest),
        CanBuildResponse::Invalid(BuildError::InvalidOverlap)
    );
    assert_eq!(state.can_build_track(other, TileCoordsXZ::new(9, 9), TrackType::EastWest), CanBuildResponse::Buildable);
}

#[test]
fn tracks_are_listed_and_removed_by_their_owner_only() {
    let mut state = BuildingState::new(6, 6);
    let owner = PlayerId::new(1);
    let other = PlayerId::new(2);
    let a = TrackInfo::new(owner, TileCoordsXZ::new(1, 1), TrackType::NorthSouth);
    let b = TrackInfo::new(owner, TileCoordsXZ::new(1, 1), TrackType::EastWest);
    let c = TrackInfo::new(owner, TileCoordsXZ::new(2, 1), TrackType::EastWest);
    let foreign = TrackInfo::new(other, TileCoordsXZ::new(1, 1), TrackType::SouthWest);
    state.append_tracks(vec![a, b, c, foreign]);
    let all = state.all_track_infos();
    assert_eq!(all.len(), 3);
    assert!(all.contains(&a) && all.contains(&b) && all.contains(&c));
    assert!(!all.contains(&foreign));

    let connected = state.track_types_with_connection(TileCoordsXZ::new(1, 1), DirectionXZ::West);
    assert_eq!(connected, vec![TrackType::EastWest]);

    assert_eq!(state.attempt_to_remove_tracks(other, &[TrackId::new(TileCoordsXZ::new(1, 1), TrackType::EastWest)]), Err(()));
    assert_eq!(state.all_track_infos().len(), 3);
    assert_eq!(
        state.attempt_to_remove_tracks(
            owner,
            &[TrackId::new(TileCoordsXZ::new(1, 1), TrackType::EastWest), TrackId::new(TileCoordsXZ::new(5, 5), TrackType::EastWest)]
        ),
        Err(())
    );
    assert_eq!(state.all_track_infos().len(), 2);
    state.remove_track(TrackId::new(TileCoordsXZ::new(1, 1), TrackType::NorthSouth));
    assert_eq!(state.tracks_at(TileCoordsXZ::new(1, 1)), MaybeTracksOnTile::Empty);
    assert_eq!(state.all_track_infos(), vec![c]);
}

#[test]
fn gifted_construction_yard_belongs_to_the_player() {
    let mut state = BuildingState::new(10, 10);
    let player = PlayerId::new(1);
    let id = state.gift_initial_construction_yard(player, TileCoordsXZ::new(4, 4));
    let yards = state.find_industry_building_by_owner_and_type(player, IndustryType::ConstructionYard);
    assert_eq!(yards.len(), 1);
    assert_eq!(yards[0].id(), id);
    assert_eq!(yards[0].reference_tile(), TileCoordsXZ::new(4, 4));
    assert_eq!(state.find_industry_building_by_owner_and_type(PlayerId::new(2), IndustryType::ConstructionYard), vec![]);
}

#[test]
fn supply_range_selects_the_players_providers_in_range() {
    let mut state = BuildingState::new(200, 10);
    let player = PlayerId::new(1);
    let near = IndustryBuildingInfo::new(player, IndustryBuildingId::new(1), TileCoordsXZ::new(5, 5), IndustryType::ConstructionYard);
    let far = IndustryBuildingInfo::new(player, IndustryBuildingId::new(2), TileCoordsXZ::new(190, 5), IndustryType::ConstructionYard);
    let foreign = IndustryBuildingInfo::new(PlayerId::new(2), IndustryBuildingId::new(3), TileCoordsXZ::new(9, 5), IndustryType::ConstructionYard);
    state.append_industry_building(near);
    state.append_industry_building(far);
    state.append_industry_building(foreign);
    let coverage = TileCoverage::Single(TileCoordsXZ::new(20, 5));
    assert_eq!(
        state.industry_buildings_in_supply_range(player, &coverage, IndustryType::ConstructionYard),
        Ok(vec![near])
    );
    assert_eq!(
        state.industry_buildings_in_supply_range(player, &coverage, IndustryType::Farm),
        Err(BuildError::UnknownError)
    );
}

#[test]
fn first_supplier_with_enough_cargo_picks_the_first_able_one() {
    let a = IndustryBuildingInfo::new(PlayerId::new(1), IndustryBuildingId::new(1), TileCoordsXZ::new(5, 5), IndustryType::ConstructionYard);
    let b = IndustryBuildingInfo::new(PlayerId::new(1), IndustryBuildingId::new(2), TileCoordsXZ::new(9, 5), IndustryType::ConstructionYard);
    assert_eq!(first_supplier_with_enough_cargo(&vec![a, b], &vec![false, true]), Ok(IndustryBuildingId::new(2)));
    assert_eq!(first_supplier_with_enough_cargo(&vec![a, b], &vec![true, true]), Ok(IndustryBuildingId::new(1)));
    assert_eq!(first_supplier_with_enough_cargo(&vec![a, b], &vec![false, false]), Err(BuildError::NotEnoughResources));
    assert_eq!(first_supplier_with_enough_cargo(&vec![], &vec![]), Err(BuildError::NotEnoughResources));
}

#[test]
fn paying_costs_needs_own_known_buildings_with_enough_cargo() {
    let mut state = BuildingState::new(10, 10);
    let player = PlayerId::new(1);
    let own = IndustryBuildingInfo::new(player, IndustryBuildingId::new(1), TileCoordsXZ::new(2, 2), IndustryType::ConstructionYard);
    let foreign = IndustryBuildingInfo::new(PlayerId::new(2), IndustryBuildingId::new(2), TileCoordsXZ::new(6, 6), IndustryType::ConstructionYard);
    state.append_industry_building(own);
    state.append_industry_building(foreign);
    assert_eq!(state.can_pay_costs(player, &vec![IndustryBuildingId::new(1)], &vec![true]), Ok(()));
    assert_eq!(state.can_pay_costs(player, &vec![], &vec![]), Ok(()));
    assert_eq!(
        state.can_pay_costs(player, &vec![IndustryBuildingId::new(1)], &vec![false]),
        Err(BuildError::NotEnoughResources)
    );
    assert_eq!(
        state.can_pay_costs(player, &vec![IndustryBuildingId::new(2)], &vec![true]),
        Err(BuildError::UnknownError)
    );
    assert_eq!(
        state.can_pay_costs(player, &vec![IndustryBuildingId::new(9)], &vec![true]),
        Err(BuildError::UnknownError)
    );
    assert_eq!(
        state.can_pay_costs(player, &vec![IndustryBuildingId::new(1), IndustryBuildingId::new(9)], &vec![false, true]),
        Err(BuildError::NotEnoughResources)
    );
}

#[test]
fn a_tile_without_tracks_has_no_owner() {
    let tile_coords = TileCoordsXZ::new(2, 3);
    let ann = PlayerId::new(1);
    let bob = PlayerId::new(2);
    let consistent = |tile: &MaybeTracksOnTile| {
        let empty = tile.track_types().is_empty();
        assert_eq!(empty, *tile == MaybeTracksOnTile::Empty);
        assert_eq!(empty, tile.owner_id().is_none());
    };
    let mut tile = MaybeTracksOnTile::default();
    consistent(&tile);
    tile.append_track(&TrackInfo::new(ann, tile_coords, TrackType::EastWest));
    consistent(&tile);
    assert_eq!(tile.owner_id(), Some(ann));
    tile.append_track(&TrackInfo::new(bob, tile_coords, TrackType::NorthSouth));
    consistent(&tile);
    assert!(!tile.track_types().contains(TrackType::NorthSouth));
    tile.append_track(&TrackInfo::new(ann, tile_coords, TrackType::NorthSouth));
    tile.remove_track_type(TrackType::EastWest);
    consistent(&tile);
    assert_eq!(tile.owner_id(), Some(ann));
    tile.remove_track_type(TrackType::NorthSouth);
    consistent(&tile);
    assert_eq!(tile, MaybeTracksOnTile::Empty);
    tile.remove_track_type(TrackType::NorthSouth);
    consistent(&tile);
}
