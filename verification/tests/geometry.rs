use shared_domain::direction_xz::DirectionXZ;
use shared_domain::edge_xz::EdgeXZ;
use shared_domain::tile_coords_xz::TileCoordsXZ;
use shared_domain::tile_coverage::TileCoverage;
use shared_domain::transport::track_type::TrackType;
use shared_domain::transport::track_type_set::TrackTypeSet;
use shared_domain::vertex_coords_xz::VertexCoordsXZ;

#[test]
fn tile_arithmetic_is_componentwise() {
    let a = TileCoordsXZ::new(3, -2);
    let b = TileCoordsXZ::new(-1, 5);
    assert_eq!(a.plus(b), TileCoordsXZ::new(2, 3));
    assert_eq!(a.minus(b), TileCoordsXZ::new(4, -7));
    assert_eq!(a.plus_direction(DirectionXZ::North), TileCoordsXZ::new(3, -3));
    assert_eq!(a.plus_direction(DirectionXZ::East), TileCoordsXZ::new(4, -2));
    assert_eq!(TileCoordsXZ::from_usizes(7, 9), TileCoordsXZ::new(7, 9));
    assert_eq!(TileCoordsXZ::zero(), TileCoordsXZ::new(0, 0));
}

#[test]
fn reversing_a_direction_twice_gives_it_back() {
    for direction in DirectionXZ::all() {
        assert_ne!(direction.reverse(), direction);
        assert_eq!(direction.reverse().reverse(), direction);
    }
    assert_eq!(DirectionXZ::North.reverse(), DirectionXZ::South);
    assert_eq!(DirectionXZ::East.reverse(), DirectionXZ::West);
}

#[test]
fn coverage_distance_is_the_gap_between_closest_tiles() {
    let a = TileCoverage::Rectangular {
        north_west_inclusive: TileCoordsXZ::new(0, 0),
        south_east_inclusive: TileCoordsXZ::new(2, 2),
    };
    let b = TileCoverage::Single(TileCoordsXZ::new(5, 4));
    assert_eq!(TileCoverage::manhattan_distance_between_closest_tiles(&a, &b), 5);
    assert_eq!(TileCoverage::manhattan_distance_between_closest_tiles(&b, &a), 5);
    let touching = TileCoverage::Single(TileCoordsXZ::new(3, 1));
    assert_eq!(TileCoverage::manhattan_distance_between_closest_tiles(&a, &touching), 1);
    let inside = TileCoverage::Single(TileCoordsXZ::new(1, 1));
    assert_eq!(TileCoverage::manhattan_distance_between_closest_tiles(&a, &inside), 0);
}

#[test]
fn coverage_lists_and_contains_its_tiles() {
    let c = TileCoverage::rectangular_odd(TileCoordsXZ::new(5, 5), 3, 1);
    assert!(c.contains(TileCoordsXZ::new(4, 5)));
    assert!(c.contains(TileCoordsXZ::new(6, 5)));
    assert!(!c.contains(TileCoordsXZ::new(5, 4)));
    let tiles = c.to_set();
    assert_eq!(tiles.len(), 3);
    let moved = TileCoverage::single_at_zero().offset_by(TileCoordsXZ::new(-2, 7));
    assert_eq!(moved, TileCoverage::Single(TileCoordsXZ::new(-2, 7)));
    assert_eq!(moved.to_set(), vec![TileCoordsXZ::new(-2, 7)]);
}

#[test]
fn an_edge_is_shared_by_the_neighbouring_tiles() {
    let tile = TileCoordsXZ::new(4, 4);
    let east = EdgeXZ::from_tile_and_direction(tile, DirectionXZ::East);
    let from_neighbour = EdgeXZ::from_tile_and_direction(tile.plus_direction(DirectionXZ::East), DirectionXZ::West);
    assert_eq!(east, from_neighbour);
    let north = EdgeXZ::from_tile_and_direction(tile, DirectionXZ::North);
    assert_eq!(EdgeXZ::common_tile(east, north), Some(tile));
    assert_eq!(EdgeXZ::common_tile(north, east), Some(tile));
    assert_eq!(EdgeXZ::common_tile(east, east), None);
    let far = EdgeXZ::from_tile_and_direction(TileCoordsXZ::new(9, 9), DirectionXZ::North);
    assert_eq!(EdgeXZ::common_tile(east, far), None);
    let edges = EdgeXZ::for_tile(tile);
    assert_eq!(edges.len(), 4);
    assert!(edges.contains(&east) && edges.contains(&north));
}

#[test]
fn tracks_join_two_edges() {
    assert_eq!(TrackType::NorthEast.connections_clockwise(), (DirectionXZ::North, DirectionXZ::East));
    assert_eq!(TrackType::NorthWest.connections_clockwise(), (DirectionXZ::West, DirectionXZ::North));
    assert_eq!(TrackType::NorthEast.other_end(DirectionXZ::North), Some(DirectionXZ::East));
    assert_eq!(TrackType::NorthEast.other_end(DirectionXZ::East), Some(DirectionXZ::North));
    assert_eq!(TrackType::NorthEast.other_end(DirectionXZ::South), None);
    for track_type in TrackType::all() {
        for direction in track_type.connections() {
            let other = track_type.other_end(direction).unwrap();
            assert_ne!(other, direction);
            assert_eq!(track_type.other_end(other), Some(direction));
        }
    }
    assert_eq!(
        TrackType::matching_direction(DirectionXZ::South),
        vec![TrackType::NorthSouth, TrackType::SouthEast, TrackType::SouthWest]
    );
}

#[test]
fn track_type_sets_hold_what_was_inserted() {
    let mut set = TrackTypeSet::new();
    assert!(set.is_empty());
    set.insert(TrackType::EastWest);
    set.insert(TrackType::NorthEast);
    set.insert(TrackType::EastWest);
    assert!(set.contains(TrackType::EastWest));
    assert!(!set.contains(TrackType::NorthSouth));
    assert_eq!(set.to_vec(), vec![TrackType::NorthEast, TrackType::EastWest]);
    set.remove(TrackType::EastWest);
    assert_eq!(set, TrackTypeSet::single(TrackType::NorthEast));
    set.clear();
    assert!(set.is_empty());
}

#[test]
fn a_tile_has_four_corners_clockwise() {
    let tile = TileCoordsXZ::new(2, 3);
    assert_eq!(
        tile.vertex_coords(),
        [
            VertexCoordsXZ { x: 2, z: 3 },
            VertexCoordsXZ { x: 3, z: 3 },
            VertexCoordsXZ { x: 3, z: 4 },
            VertexCoordsXZ { x: 2, z: 4 },
        ]
    );
    assert_eq!(
        tile.vertex_coords_clockwise(DirectionXZ::West),
        (VertexCoordsXZ { x: 2, z: 4 }, VertexCoordsXZ { x: 2, z: 3 })
    );
}
