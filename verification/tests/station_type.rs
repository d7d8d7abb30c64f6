use std::collections::HashSet;

use shared_domain::building::station_type::{StationOrientation, StationType};
use shared_domain::direction_xz::DirectionXZ;
use shared_domain::tile_coords_xz::TileCoordsXZ;
use shared_domain::transport::tile_track::TileTrack;
use shared_domain::transport::track_type::TrackType;

#[test]
fn station_type_exit_tile_tracks() {
    let station_type = StationType {
        orientation: StationOrientation::NorthToSouth,
        platforms: 2,
        length_in_tiles: 3,
    };
    let reference_tile = TileCoordsXZ::from_usizes(10, 20);
    let actual = station_type
        .exit_tile_tracks(reference_tile)
        .into_iter()
        .map(|(_, tile_track)| tile_track)
        .collect::<HashSet<_>>();
    let expected: HashSet<TileTrack> = [
        TileTrack {
            tile: TileCoordsXZ::from_usizes(10, 20),
            track_type: TrackType::NorthSouth,
            pointing_in: DirectionXZ::North,
        },
        TileTrack {
            tile: TileCoordsXZ::from_usizes(10, 22),
            track_type: TrackType::NorthSouth,
            pointing_in: DirectionXZ::South,
        },
        TileTrack {
            tile: TileCoordsXZ::from_usizes(11, 20),
            track_type: TrackType::NorthSouth,
            pointing_in: DirectionXZ::North,
        },
        TileTrack {
            tile: TileCoordsXZ::from_usizes(11, 22),
            track_type: TrackType::NorthSouth,
            pointing_in: DirectionXZ::South,
        },
    ]
    .into_iter()
    .collect();
    assert_eq!(actual, expected);
}

#[test]
fn east_west_station_exits_at_both_ends_of_each_platform() {
    let station_type = StationType {
        orientation: StationOrientation::EastToWest,
        platforms: 1,
        length_in_tiles: 4,
    };
    let actual = station_type
        .exit_tile_tracks(TileCoordsXZ::new(3, 7))
        .into_iter()
        .map(|(_, tile_track)| tile_track)
        .collect::<HashSet<_>>();
    let expected: HashSet<TileTrack> = [
        TileTrack { tile: TileCoordsXZ::new(3, 7), track_type: TrackType::EastWest, pointing_in: DirectionXZ::West },
        TileTrack { tile: TileCoordsXZ::new(6, 7), track_type: TrackType::EastWest, pointing_in: DirectionXZ::East },
    ]
    .into_iter()
    .collect();
    assert_eq!(actual, expected);
}

#[test]
fn a_station_without_platforms_has_no_exits() {
    let station_type = StationType { orientation: StationOrientation::EastToWest, platforms: 0, length_in_tiles: 0 };
    assert!(station_type.exit_tile_tracks(TileCoordsXZ::new(3, 3)).is_empty());
    let station_type = StationType { orientation: StationOrientation::NorthToSouth, platforms: 0, length_in_tiles: 4 };
    assert!(station_type.exit_tile_tracks(TileCoordsXZ::new(3, 3)).is_empty());
}
