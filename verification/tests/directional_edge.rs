use shared_domain::direction_xz::DirectionXZ;
use shared_domain::directional_edge::DirectionalEdge;
use shared_domain::tile_coords_xz::TileCoordsXZ;
use shared_domain::transport::tile_track::TileTrack;
use shared_domain::transport::track_type::TrackType;

#[test]
fn test_entrance_to() {
    let tile_track = TileTrack {
        tile: TileCoordsXZ::new(1, 2),
        pointing_in: DirectionXZ::East,
        track_type: TrackType::NorthEast,
    };
    let directional_edge = DirectionalEdge::entrance_to(tile_track);
    assert_eq!(directional_edge, DirectionalEdge::new(TileCoordsXZ::new(1, 2), DirectionXZ::North));
}

#[test]
fn test_exit_from() {
    let tile_track = TileTrack {
        tile: TileCoordsXZ::new(1, 2),
        pointing_in: DirectionXZ::East,
        track_type: TrackType::NorthEast,
    };
    let directional_edge = DirectionalEdge::exit_from(tile_track);
    assert_eq!(directional_edge, DirectionalEdge::new(TileCoordsXZ::new(1, 2), DirectionXZ::West));
}

#[test]
fn test_mirror() {
    let tile = TileCoordsXZ::new(1, 2);
    let edge = DirectionalEdge::new(tile, DirectionXZ::North);
    let mirrored = edge.mirror();
    let expected = DirectionalEdge::new(tile.plus_direction(DirectionXZ::North), DirectionXZ::South);
    assert_eq!(mirrored, expected);
}

#[test]
fn mirroring_twice_gives_the_edge_back() {
    let edge = DirectionalEdge::new(TileCoordsXZ::new(-3, 5), DirectionXZ::West);
    assert_eq!(edge.mirror(), DirectionalEdge::new(TileCoordsXZ::new(-4, 5), DirectionXZ::East));
    assert_eq!(edge.mirror().mirror(), edge);
}
