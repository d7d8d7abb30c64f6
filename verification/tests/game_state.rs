use shared_domain::building::building_state::CanBuildResponse;
use shared_domain::building::industry_building_info::IndustryBuildingInfo;
use shared_domain::building::industry_type::IndustryType;
use shared_domain::building::station_info::StationInfo;
use shared_domain::building::station_type::{StationOrientation, StationType};
use shared_domain::building::track_info::TrackInfo;
use shared_domain::building::BuildError;
use shared_domain::game_state::GameState;
use shared_domain::map_level::map_level::{Height, MapLevel};
use shared_domain::map_level::terrain::Terrain;
use shared_domain::map_level::zoning::{Zoning, ZoningInfo, ZoningType};
use shared_domain::scenario::{PlayerProfile, Scenario};
use shared_domain::server_response::Colour;
use shared_domain::tile_coords_xz::TileCoordsXZ;
use shared_domain::transport::track_type::TrackType;
use shared_domain::water::Water;
use shared_domain::{IndustryBuildingId, PlayerId, PlayerName, ScenarioId, StationId, TrackId, ZoningId};

const ANN: PlayerId = PlayerId(1);
const BOB: PlayerId = PlayerId(2);

fn scenario() -> Scenario {
    let heights = vec![vec![Height::from_u8(5); 11]; 11];
    let mut zoning = Zoning::new(10, 10);
    zoning.add_zoning(ZoningInfo::new(ZoningId::new(1), ZoningType::Industrial, TileCoordsXZ::new(7, 7)));
    let map_level = MapLevel::new(
        Terrain::new(11, 11, heights),
        Water { between: (Height::from_u8(2), Height::from_u8(3)) },
        zoning,
    );
    let profile = |id: PlayerId, name: &str, tile: TileCoordsXZ| {
        PlayerProfile::new(id, PlayerName::new(name.to_string()), Colour::rgb(1, 2, 3), tile)
    };
    Scenario {
        scenario_id: ScenarioId("europe".to_string()),
        players: vec![profile(ANN, "Ann", TileCoordsXZ::new(2, 2)), profile(BOB, "Bob", TileCoordsXZ::new(2, 6))],
        map_level,
    }
}

fn game() -> GameState {
    GameState::from_scenario(scenario(), false)
}

fn track(owner: PlayerId, x: i32, z: i32, track_type: TrackType) -> TrackInfo {
    TrackInfo::new(owner, TileCoordsXZ::new(x, z), track_type)
}

#[test]
fn a_new_game_gives_each_player_a_construction_yard() {
    let game = game();
    assert!(scenario().is_valid().is_ok());
    assert_eq!(game.scenario_id(), ScenarioId("europe".to_string()));
    assert_eq!(game.players().ids().len(), 2);
    assert_eq!(game.players().get(BOB).unwrap().name, PlayerName::new("Bob".to_string()));
    for (player, tile) in [(ANN, TileCoordsXZ::new(2, 2)), (BOB, TileCoordsXZ::new(2, 6))] {
        let yards = game.building_state().find_industry_building_by_owner_and_type(player, IndustryType::ConstructionYard);
        assert_eq!(yards.len(), 1);
        assert_eq!(yards[0].reference_tile(), tile);
    }
    assert_eq!(game.track_infos(), vec![]);
    assert_ne!(game.game_id(), GameState::from_scenario(scenario(), false).game_id());
}

#[test]
fn tracks_are_kept_filtered_and_checked_in_order() {
    let game = game();
    let a = track(ANN, 5, 2, TrackType::EastWest);
    let b = track(ANN, 6, 2, TrackType::EastWest);
    assert_eq!(game.can_build_tracks(ANN, &[a, b], &[Ok(()), Ok(())]), Ok(vec![a, b]));
    assert_eq!(
        game.can_build_tracks(BOB, &[a], &[Ok(())]),
        Err(BuildError::InvalidOwner)
    );
    let on_yard = track(ANN, 2, 2, TrackType::EastWest);
    assert_eq!(
        game.can_build_tracks(ANN, &[a, on_yard], &[Ok(()), Ok(())]),
        Err(BuildError::InvalidOverlap)
    );
    assert_eq!(
        game.can_build_tracks(ANN, &[a, on_yard], &[Err(BuildError::NotEnoughResources), Ok(())]),
        Err(BuildError::NotEnoughResources)
    );
    let on_zoning = track(ANN, 7, 7, TrackType::EastWest);
    assert_eq!(game.can_build_track(ANN, &on_zoning), CanBuildResponse::Invalid(BuildError::InvalidOverlap));
    assert_eq!(game.can_build_tracks(ANN, &[], &[]), Err(BuildError::InvalidOwner));
}

#[test]
fn built_tracks_are_left_out_when_asked_again() {
    let mut game = game();
    let a = track(ANN, 5, 2, TrackType::EastWest);
    let b = track(ANN, 6, 2, TrackType::EastWest);
    assert_eq!(game.build_tracks(ANN, &[a], &[Ok(())], Ok(())), Ok(vec![a]));
    assert_eq!(game.track_infos(), vec![a]);
    assert_eq!(game.can_build_track(ANN, &a), CanBuildResponse::AlreadyExists);
    assert_eq!(game.can_build_tracks(ANN, &[a], &[Ok(())]), Err(BuildError::InvalidOwner));
    assert_eq!(game.build_tracks(ANN, &[a, b], &[Ok(()), Ok(())], Ok(())), Ok(vec![b]));
    assert_eq!(game.track_infos().len(), 2);
    let c = track(ANN, 7, 2, TrackType::EastWest);
    assert_eq!(game.build_tracks(ANN, &[c], &[Ok(())], Err(BuildError::NotEnoughResources)), Err(BuildError::NotEnoughResources));
    assert_eq!(game.track_infos().len(), 2);
    assert_eq!(game.build_tracks(ANN, &[c], &[Ok(())], Ok(())), Ok(vec![c]));
    assert_eq!(game.remove_tracks(ANN, &[TrackId::new(TileCoordsXZ::new(7, 2), TrackType::EastWest)]), Ok(()));
    assert_eq!(
        game.can_build_track(BOB, &track(BOB, 5, 2, TrackType::NorthSouth)),
        CanBuildResponse::Invalid(BuildError::InvalidOverlap)
    );
    assert_eq!(game.remove_tracks(BOB, &[TrackId::new(TileCoordsXZ::new(5, 2), TrackType::EastWest)]), Err(()));
    assert_eq!(game.remove_tracks(ANN, &[TrackId::new(TileCoordsXZ::new(5, 2), TrackType::EastWest)]), Ok(()));
    assert_eq!(game.track_infos(), vec![b]);
}

#[test]
fn requests_on_behalf_of_anyone_are_accepted_when_owners_are_ignored() {
    let game = GameState::from_scenario(scenario(), true);
    let a = track(ANN, 5, 2, TrackType::EastWest);
    assert_eq!(game.can_build_tracks(BOB, &[a], &[Ok(())]), Ok(vec![a]));
    let b = track(BOB, 6, 2, TrackType::EastWest);
    assert_eq!(game.can_build_tracks(BOB, &[a, b], &[Ok(()), Ok(())]), Err(BuildError::InvalidOwner));
}

#[test]
fn stations_and_industries_are_checked_for_owner_map_and_overlap() {
    let mut game = game();
    let station = StationInfo::new(
        ANN,
        StationId::new(5),
        TileCoordsXZ::new(5, 0),
        StationType { orientation: StationOrientation::NorthToSouth, platforms: 1, length_in_tiles: 4 },
    );
    assert_eq!(game.can_build_station(BOB, &station), Err(BuildError::InvalidOwner));
    assert_eq!(game.build_station(ANN, &station, Err(BuildError::NotEnoughResources)), Err(BuildError::NotEnoughResources));
    assert_eq!(game.building_state().find_station(StationId::new(5)), None);
    assert_eq!(game.build_station(ANN, &station, Ok(())), Ok(()));
    assert_eq!(game.build_station(ANN, &station, Err(BuildError::NotEnoughResources)), Err(BuildError::InvalidOverlap));
    assert_eq!(game.building_state().find_station(StationId::new(5)), Some(station));

    let mill = IndustryBuildingInfo::new(ANN, IndustryBuildingId::new(9), TileCoordsXZ::new(7, 7), IndustryType::SteelMill);
    assert_eq!(game.all_free_zonings().len(), 1);
    assert_eq!(game.build_industry_building(ANN, &mill, Err(BuildError::NotEnoughResources)), Err(BuildError::NotEnoughResources));
    assert_eq!(game.all_free_zonings().len(), 1);
    assert_eq!(game.build_industry_building(ANN, &mill, Ok(())), Ok(()));
    assert_eq!(game.all_free_zonings(), vec![]);
    let elsewhere = IndustryBuildingInfo::new(ANN, IndustryBuildingId::new(10), TileCoordsXZ::new(7, 3), IndustryType::SteelMill);
    assert_eq!(game.can_build_industry_building(ANN, &elsewhere), Err(BuildError::InvalidZoning));

    assert_eq!(game.remove_industry_building(BOB, IndustryBuildingId::new(9)), Err(()));
    assert_eq!(game.remove_industry_building(ANN, IndustryBuildingId::new(9)), Ok(()));
    assert_eq!(game.all_free_zonings().len(), 1);
    assert_eq!(game.remove_station(ANN, StationId::new(5)), Ok(()));
    assert_eq!(game.building_state().find_station(StationId::new(5)), None);
}
