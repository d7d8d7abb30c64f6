use shared_domain::server_response::Colour;
use shared_domain::{ClientId, GameId, IndustryBuildingId, PlayerId, ScenarioId, StationId, UserId, ZoningId};

fn has_v4_bits(value: u128) -> bool {
    (value >> 76) & 0xF == 4 && (value >> 62) & 0x3 == 2
}

#[test]
fn random_identifiers_are_version_4_uuids() {
    for _ in 0 .. 20 {
        assert!(has_v4_bits(PlayerId::random().0));
        assert!(has_v4_bits(GameId::random().0));
        assert!(has_v4_bits(StationId::random().0));
        assert!(has_v4_bits(UserId::random().0));
    }
    assert_ne!(PlayerId::random(), PlayerId::random());
}

#[test]
fn random_client_ids_stay_below_the_largest_value() {
    for _ in 0 .. 20 {
        assert!(ClientId::random().as_u128() < u128::MAX);
    }
    assert_eq!(ClientId::from_u128(42).as_u128(), 42);
}

#[test]
fn user_id_hash_folds_the_two_halves() {
    let id = UserId::new(0x0000_0000_0000_00FF_0000_0000_0000_0F0F);
    assert_eq!(id.hash_to_u64(), 0x0FF0);
    assert_eq!(UserId::new(7).hash_to_u64(), 7);
}

#[test]
fn scenarios_are_known_by_name() {
    let all = ScenarioId::all();
    assert_eq!(all, vec![ScenarioId("usa_east".to_string()), ScenarioId("europe".to_string())]);
    assert_eq!(ScenarioId::default(), ScenarioId("usa_east".to_string()));
    assert_eq!(ScenarioId::default_scenario(), ScenarioId("usa_east".to_string()));
    assert_eq!(ScenarioId::parse("europe"), Ok(ScenarioId("europe".to_string())));
    assert_eq!(ScenarioId::parse("mars"), Err(()));
    assert_eq!("usa_east".parse::<ScenarioId>(), Ok(ScenarioId("usa_east".to_string())));
    assert_eq!("".parse::<ScenarioId>(), Err(()));
}

#[test]
fn colours_from_one_seed_are_the_same() {
    assert_eq!(Colour::random(17), Colour::random(17));
    let colours: Vec<Colour> = (0 .. 8).map(Colour::random).collect();
    assert!(colours.iter().any(|c| *c != colours[0]));
    assert_eq!(Colour::rgb(1, 2, 3), Colour { r: 1, g: 2, b: 3 });
}

#[test]
fn identifiers_read_from_uuid_text() {
    let text = "67e55044-10b1-426f-9247-bb680e5fe0c8";
    assert_eq!(text.parse::<PlayerId>().unwrap(), PlayerId(0x67e5_5044_10b1_426f_9247_bb68_0e5f_e0c8));
    assert_eq!("67e5504410b1426f9247bb680e5fe0c8".parse::<StationId>().unwrap(), StationId(0x67e5_5044_10b1_426f_9247_bb68_0e5f_e0c8));
    assert!("not a uuid".parse::<GameId>().is_err());
    assert!("".parse::<UserId>().is_err());
    let id = IndustryBuildingId::random();
    let written = uuid::Uuid::from_u128(id.0).to_string();
    assert_eq!(written.parse::<IndustryBuildingId>().unwrap(), id);
    assert_eq!(uuid::Uuid::nil().to_string().parse::<ZoningId>().unwrap(), ZoningId(0));
}
