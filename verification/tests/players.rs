use shared_domain::players::player_state::PlayerState;
use shared_domain::scenario::PlayerProfile;
use shared_domain::server_response::{Colour, PlayerInfo};
use shared_domain::tile_coords_xz::TileCoordsXZ;
use shared_domain::{PlayerId, PlayerName};

fn info(id: u128, name: &str) -> PlayerInfo {
    PlayerInfo { id: PlayerId::new(id), name: PlayerName::new(name.to_string()), colour: Colour::rgb(1, 2, 3) }
}

#[test]
fn the_last_player_with_an_identifier_wins() {
    let state = PlayerState::from_infos(vec![info(1, "Ann"), info(2, "Bob"), info(1, "Cid")]);
    assert_eq!(state.get(PlayerId::new(1)), Some(info(1, "Cid")));
    assert_eq!(state.get(PlayerId::new(2)), Some(info(2, "Bob")));
    assert_eq!(state.get(PlayerId::new(3)), None);
    let mut ids = state.ids();
    ids.sort_by_key(|id| id.0);
    assert_eq!(ids, vec![PlayerId::new(1), PlayerId::new(2)]);
    let infos = state.infos();
    assert_eq!(infos.len(), 2);
    assert!(infos.contains(&info(1, "Cid")) && infos.contains(&info(2, "Bob")));
    assert_eq!(state.infos_cloned().len(), 2);
}

#[test]
fn no_players_from_no_infos() {
    let state = PlayerState::from_infos(vec![]);
    assert_eq!(state.ids(), vec![]);
    assert_eq!(state.infos(), vec![]);
}

#[test]
fn a_profile_describes_its_player() {
    let profile = PlayerProfile::new(
        PlayerId::new(5),
        PlayerName::new("Eve".to_string()),
        Colour::rgb(9, 8, 7),
        TileCoordsXZ::new(3, 4),
    );
    assert_eq!(
        profile.to_player_info(),
        PlayerInfo { id: PlayerId::new(5), name: PlayerName::new("Eve".to_string()), colour: Colour::rgb(9, 8, 7) }
    );
}

#[test]
fn a_player_is_found_under_its_own_identifier() {
    let state = PlayerState::from_infos(vec![info(7, "Gus"), info(9, "Hal")]);
    for id in state.ids() {
        let player = state.get(id).expect("every listed identifier has a player");
        assert_eq!(player.id, id);
    }
    assert_eq!(state.get(PlayerId::new(8)), None);
}
