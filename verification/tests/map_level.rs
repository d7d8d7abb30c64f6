use shared_domain::building::industry_building_info::IndustryBuildingInfo;
use shared_domain::building::industry_type::IndustryType;
use shared_domain::building::station_info::StationInfo;
use shared_domain::building::station_type::{StationOrientation, StationType};
use shared_domain::building::BuildError;
use shared_domain::level::{Height as LevelHeight, Level, Terrain as LevelTerrain, Water as LevelWater};
use shared_domain::map_level::map_level::{Height, MapLevel, TerrainType};
use shared_domain::map_level::terrain::Terrain;
use shared_domain::map_level::zoning::{Zoning, ZoningInfo, ZoningType};
use shared_domain::resource_type::ResourceType;
use shared_domain::tile_coords_xz::TileCoordsXZ;
use shared_domain::transport::track_type::TrackType;
use shared_domain::vertex_coords_xz::VertexCoordsXZ;
use shared_domain::water::Water;
use shared_domain::{IndustryBuildingId, PlayerId, StationId, ZoningId};

fn heights(rows: &[&[u8]]) -> Vec<Vec<Height>> {
    rows.iter().map(|row| row.iter().map(|h| Height::from_u8(*h)).collect()).collect()
}

fn water() -> Water {
    Water { between: (Height::from_u8(2), Height::from_u8(3)) }
}

/// Seven by five vertices: flat land at height 5, a hill at the east end, water in the
/// south-west corner.
fn map_level(zoning: Zoning) -> MapLevel {
    let terrain = Terrain::new(
        7,
        5,
        heights(&[
            &[5, 5, 5, 5, 5, 9, 9],
            &[5, 5, 5, 5, 5, 9, 9],
            &[5, 5, 5, 5, 5, 9, 9],
            &[5, 5, 5, 5, 5, 9, 9],
            &[1, 5, 5, 5, 5, 9, 9],
        ]),
    );
    MapLevel::new(terrain, water(), zoning)
}

#[test]
fn terrain_letters_read_back() {
    for terrain_type in [TerrainType::Sand, TerrainType::Grass, TerrainType::Rocks] {
        assert_eq!(TerrainType::from_char(terrain_type.as_char()), Some(terrain_type));
    }
    assert_eq!(TerrainType::Sand.as_char(), 'S');
    assert_eq!(TerrainType::from_char('X'), None);
    assert_eq!(TerrainType::Rocks.as_u32(), 2);
    assert_eq!(TerrainType::fallback(), TerrainType::Grass);
}

#[test]
fn terrain_type_follows_height() {
    assert_eq!(TerrainType::default_from_height(Height::from_u8(9)), TerrainType::Sand);
    assert_eq!(TerrainType::default_from_height(Height::from_u8(10)), TerrainType::Grass);
    assert_eq!(TerrainType::default_from_height(Height::from_u8(15)), TerrainType::Grass);
    assert_eq!(TerrainType::default_from_height(Height::from_u8(16)), TerrainType::Rocks);
}

#[test]
fn average_height_rounds_halves_up() {
    let h = |v: u8| Height::from_u8(v);
    assert_eq!(Height::average_rounded(&[h(1), h(2)]).as_u8(), 2);
    assert_eq!(Height::average_rounded(&[h(1), h(1), h(2)]).as_u8(), 1);
    assert_eq!(Height::average_rounded(&[h(1), h(2), h(2)]).as_u8(), 2);
    assert_eq!(Height::average_rounded(&[h(255), h(255), h(254)]).as_u8(), 255);
    assert_eq!(Height::average_rounded(&[]).as_u8(), 0);
    assert_eq!(Height::fallback().as_u8(), 0);
    assert_eq!(h(3).plus(h(4)).as_u8(), 7);
}

#[test]
fn terrain_and_water_validity() {
    let terrain = Terrain::new(2, 1, heights(&[&[1, 2]]));
    assert!(terrain.is_valid().is_ok());
    assert!(Terrain::new(3, 1, heights(&[&[1, 2]])).is_valid().is_err());
    assert!(Terrain::new(2, 2, heights(&[&[1, 2]])).is_valid().is_err());
    assert!(water().is_valid().is_ok());
    assert!(Water { between: (Height::from_u8(2), Height::from_u8(4)) }.is_valid().is_err());
    assert!(Water { between: (Height::from_u8(255), Height::from_u8(0)) }.is_valid().is_err());
    assert!(water().under_water(Height::from_u8(2)));
    assert!(!water().under_water(Height::from_u8(3)));
    assert_eq!(terrain.tile_count_x(), 1);
    assert_eq!(terrain.tile_count_z(), 0);
    assert_eq!(terrain.height_at(VertexCoordsXZ { x: 1, z: 0 }).as_u8(), 2);
    assert_eq!(terrain.height_at(VertexCoordsXZ { x: 2, z: 0 }).as_u8(), 0);
    assert!(map_level(Zoning::new(6, 4)).is_valid().is_ok());
}

#[test]
fn tracks_need_dry_level_edges() {
    let level = map_level(Zoning::new(6, 4));
    assert!(level.tile_in_bounds(TileCoordsXZ::new(5, 3)));
    assert!(!level.tile_in_bounds(TileCoordsXZ::new(6, 3)));
    assert!(!level.tile_in_bounds(TileCoordsXZ::new(5, 4)));
    assert!(level.under_water(VertexCoordsXZ { x: 0, z: 4 }));
    assert_eq!(level.height_at(VertexCoordsXZ { x: 5, z: 0 }).as_u8(), 9);
    assert_eq!(level.can_build_track(TileCoordsXZ::new(1, 1), TrackType::EastWest), Ok(()));
    assert_eq!(level.can_build_track(TileCoordsXZ::new(0, 3), TrackType::NorthEast), Err(BuildError::InvalidTerrain));
    assert_eq!(level.can_build_track(TileCoordsXZ::new(4, 0), TrackType::NorthSouth), Err(BuildError::InvalidTerrain));
    assert_eq!(level.can_build_track(TileCoordsXZ::new(4, 0), TrackType::EastWest), Ok(()));
}

#[test]
fn buildings_need_flat_dry_land_on_the_map_and_free_of_zonings() {
    let station = |x: i32, z: i32| {
        StationInfo::new(
            PlayerId::new(1),
            StationId::new(1),
            TileCoordsXZ::new(x, z),
            StationType { orientation: StationOrientation::EastToWest, platforms: 1, length_in_tiles: 3 },
        )
    };
    let level = map_level(Zoning::new(6, 4));
    assert_eq!(level.can_build_station(&station(0, 0)), Ok(()));
    assert_eq!(level.can_build_station(&station(3, 0)), Err(BuildError::InvalidTerrain));
    assert_eq!(level.can_build_station(&station(0, 3)), Err(BuildError::InvalidTerrain));
    assert_eq!(level.can_build_station(&station(3, 5)), Err(BuildError::InvalidOverlap));

    let mut zoning = Zoning::new(6, 4);
    zoning.add_zoning(ZoningInfo::new(ZoningId::new(1), ZoningType::Industrial, TileCoordsXZ::new(1, 1)));
    let zoned = map_level(zoning);
    assert_eq!(zoned.can_build_station(&station(0, 0)), Err(BuildError::InvalidOverlap));
    let mill = IndustryBuildingInfo::new(PlayerId::new(1), IndustryBuildingId::new(2), TileCoordsXZ::new(1, 1), IndustryType::SteelMill);
    assert_eq!(zoned.can_build_industry_building(&mill), Ok(()));
    let mine = IndustryBuildingInfo::new(PlayerId::new(1), IndustryBuildingId::new(3), TileCoordsXZ::new(1, 1), IndustryType::CoalMine);
    assert_eq!(zoned.can_build_industry_building(&mine), Err(BuildError::InvalidZoning));
    assert_eq!(level.can_build_industry_building(&mill), Err(BuildError::InvalidZoning));
    let mut coal = Zoning::new(6, 4);
    coal.add_zoning(ZoningInfo::new(ZoningId::new(4), ZoningType::Source(ResourceType::Coal), TileCoordsXZ::new(1, 1)));
    assert_eq!(map_level(coal).can_build_industry_building(&mine), Ok(()));
}

#[test]
fn a_level_is_valid_with_a_full_height_map_and_consecutive_water_heights() {
    let terrain = LevelTerrain { size_x: 2, size_z: 2, height_map: vec![vec![LevelHeight(1); 2]; 2] };
    let level = Level { terrain: terrain.clone(), water: LevelWater { between: (LevelHeight(3), LevelHeight(4)) } };
    assert!(level.is_valid());
    let wrong_water = Level { terrain: terrain.clone(), water: LevelWater { between: (LevelHeight(3), LevelHeight(5)) } };
    assert!(!wrong_water.is_valid());
    let ragged = LevelTerrain { size_x: 2, size_z: 2, height_map: vec![vec![LevelHeight(1); 2], vec![LevelHeight(1)]] };
    assert!(!Level { terrain: ragged, water: LevelWater { between: (LevelHeight(3), LevelHeight(4)) } }.is_valid());
}

#[test]
fn a_stored_zoning_rebuilds_to_the_same_zones() {
    let mut zoning = Zoning::new(6, 4);
    zoning.add_zoning(ZoningInfo::new(ZoningId::new(1), ZoningType::Industrial, TileCoordsXZ::new(1, 1)));
    zoning.add_zoning(ZoningInfo::new(ZoningId::new(2), ZoningType::Source(ResourceType::Coal), TileCoordsXZ::new(4, 2)));
    let stored = zoning.to_flattened();
    assert_eq!(stored.size_x, 6);
    assert_eq!(stored.size_z, 4);
    assert_eq!(stored.infos.len(), 2);
    let rebuilt = Zoning::from_flattened(stored);
    assert_eq!(rebuilt.all_zonings(), zoning.all_zonings());
    assert_eq!(rebuilt, zoning);
    assert_eq!(rebuilt.zoning_at_reference_tile(TileCoordsXZ::new(5, 3)).map(|z| z.id()), Some(ZoningId::new(2)));
    assert!(rebuilt.free_at_tile(TileCoordsXZ::new(0, 3)));
    assert!(!rebuilt.free_at_tile(TileCoordsXZ::new(6, 3)));
    assert!(!rebuilt.free_at_tile(TileCoordsXZ::new(3, 3)));
}

#[test]
fn heights_correspond_to_their_numbers() {
    assert_eq!(Height::fallback(), Height::from_u8(0));
    for v in [0u8, 1, 17, 254, 255] {
        assert_eq!(Height::from_u8(v).as_u8(), v);
        assert_eq!(Height::from_u8(Height::from_u8(v).as_u8()), Height::from_u8(v));
    }
    assert_ne!(Height::from_u8(3), Height::from_u8(4));
}
