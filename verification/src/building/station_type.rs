use vstd::prelude::*;

use crate::direction_xz::DirectionXZ;
use crate::tile_coords_xz::{fits_i32, tile_at, TileCoordsXZ};
use crate::tile_coverage::TileCoverage;
use crate::transport::tile_track::TileTrack;
use crate::transport::track_type::TrackType;

verus! {

/// The index of a platform within a station.
#[derive(Clone, Copy, PartialEq, Eq, Structural, Debug, Hash)]
pub struct PlatformIndex(pub usize);

impl PlatformIndex {
    pub fn new(index: usize) -> (r: PlatformIndex)
        ensures
            r.0 == index,
    {
        PlatformIndex(index)
    }
}

/// The direction in which a station's platforms run.
#[derive(Clone, Copy, PartialEq, Eq, Structural, Debug, Hash)]
pub enum StationOrientation {
    NorthToSouth,
    EastToWest,
}

/// The shape of a station: its orientation, number of parallel platforms and their length.
#[derive(Clone, Copy, PartialEq, Eq, Structural, Debug, Hash)]
pub struct StationType {
    pub orientation: StationOrientation,
    pub platforms: usize,
    pub length_in_tiles: usize,
}

impl StationType {
    /// A station has at least one platform of at least one tile, and its extent is
    /// representable in tile coordinates.
    pub open spec fn valid(self) -> bool {
        &&& 1 <= self.platforms <= i32::MAX
        &&& 1 <= self.length_in_tiles <= i32::MAX
    }

    /// The extent of the station along `x` (east) and along `z` (south), in tiles.
    pub open spec fn extent(self) -> (int, int) {
        match self.orientation {
            StationOrientation::NorthToSouth => (self.platforms as int, self.length_in_tiles as int),
            StationOrientation::EastToWest => (self.length_in_tiles as int, self.platforms as int),
        }
    }

    /// Whether the station's tiles, placed at `reference_tile`, have representable coordinates.
    pub open spec fn fits_at(self, reference_tile: TileCoordsXZ) -> bool {
        &&& fits_i32(reference_tile.x + self.extent().0 - 1)
        &&& fits_i32(reference_tile.z + self.extent().1 - 1)
    }

    pub open spec fn spec_all() -> Seq<StationType> {
        seq![
            StationType {
                orientation: StationOrientation::NorthToSouth,
                platforms: 1,
                length_in_tiles: 4,
            },
            StationType {
                orientation: StationOrientation::EastToWest,
                platforms: 1,
                length_in_tiles: 4,
            },
        ]
    }

    /// The station types offered for building.
    pub fn all() -> (r: Vec<StationType>)
        ensures
            r@ == Self::spec_all(),
    {
        vec![
            StationType {
                orientation: StationOrientation::NorthToSouth,
                platforms: 1,
                length_in_tiles: 4,
            },
            StationType {
                orientation: StationOrientation::EastToWest,
                platforms: 1,
                length_in_tiles: 4,
            },
        ]
    }

    pub open spec fn spec_track_type(self) -> TrackType {
        match self.orientation {
            StationOrientation::NorthToSouth => TrackType::NorthSouth,
            StationOrientation::EastToWest => TrackType::EastWest,
        }
    }

    /// The track type laid along the station's platforms.
    pub fn track_type(self) -> (r: TrackType)
        ensures
            r == self.spec_track_type(),
    {
        match self.orientation {
            StationOrientation::NorthToSouth => TrackType::NorthSouth,
            StationOrientation::EastToWest => TrackType::EastWest,
        }
    }

    /// The rectangle of tiles the station covers, relative to its reference tile.
    pub open spec fn spec_relative_tiles_used(self) -> TileCoverage {
        TileCoverage::Rectangular {
            north_west_inclusive: TileCoordsXZ { x: 0i32, z: 0i32 },
            south_east_inclusive: tile_at(self.extent().0 - 1, self.extent().1 - 1),
        }
    }

    pub fn relative_tiles_used(self) -> (r: TileCoverage)
        requires
            self.valid(),
        ensures
            r == self.spec_relative_tiles_used(),
            r.non_empty(),
    {
        match self.orientation {
            StationOrientation::NorthToSouth => TileCoverage::Rectangular {
                north_west_inclusive: TileCoordsXZ::from_usizes(0, 0),
                south_east_inclusive: TileCoordsXZ::from_usizes(
                    self.platforms - 1,
                    self.length_in_tiles - 1,
                ),
            },
            StationOrientation::EastToWest => TileCoverage::Rectangular {
                north_west_inclusive: TileCoordsXZ::from_usizes(0, 0),
                south_east_inclusive: TileCoordsXZ::from_usizes(
                    self.length_in_tiles - 1,
                    self.platforms - 1,
                ),
            },
        }
    }

    /// The track of platform `platform` at its northern (or western) end, pointing out of the
    /// station, and at its southern (or eastern) end, pointing out of the station.
    pub open spec fn spec_platform_exits(self, reference_tile: TileCoordsXZ, platform: int) -> (
        TileTrack,
        TileTrack,
    ) {
        match self.orientation {
            StationOrientation::NorthToSouth => (
                TileTrack {
                    tile: tile_at(reference_tile.x + platform, reference_tile.z as int),
                    track_type: TrackType::NorthSouth,
                    pointing_in: DirectionXZ::North,
                },
                TileTrack {
                    tile: tile_at(
                        reference_tile.x + platform,
                        reference_tile.z + self.length_in_tiles - 1,
                    ),
                    track_type: TrackType::NorthSouth,
                    pointing_in: DirectionXZ::South,
                },
            ),
            StationOrientation::EastToWest => (
                TileTrack {
                    tile: tile_at(reference_tile.x as int, reference_tile.z + platform),
                    track_type: TrackType::EastWest,
                    pointing_in: DirectionXZ::West,
                },
                TileTrack {
                    tile: tile_at(
                        reference_tile.x + self.length_in_tiles - 1,
                        reference_tile.z + platform,
                    ),
                    track_type: TrackType::EastWest,
                    pointing_in: DirectionXZ::East,
                },
            ),
        }
    }

    /// Both exit tracks of every platform, platform by platform.
    pub open spec fn spec_exit_tile_tracks(self, reference_tile: TileCoordsXZ) -> Seq<
        (PlatformIndex, TileTrack),
    > {
        Seq::new(
            (2 * self.platforms) as nat,
            |i: int|
                (
                    PlatformIndex((i / 2) as usize),
                    if i % 2 == 0 {
                        self.spec_platform_exits(reference_tile, i / 2).0
                    } else {
                        self.spec_platform_exits(reference_tile, i / 2).1
                    },
                ),
        )
    }

    /// The last tracks of the station's platforms: a train parked about to leave one of them
    /// uses the whole length of its platform. Two per platform, so none for a station
    /// without platforms.
    pub fn exit_tile_tracks(self, reference_tile: TileCoordsXZ) -> (r: Vec<(PlatformIndex, TileTrack)>)
        requires
            self.platforms == 0 || (self.valid() && self.fits_at(reference_tile)),
        ensures
            r@ == self.spec_exit_tile_tracks(reference_tile),
            r@.len() == 2 * self.platforms,
    {
        let mut results: Vec<(PlatformIndex, TileTrack)> = Vec::new();
        let mut platform: usize = 0;
        while platform < self.platforms
            invariant
                self.platforms == 0 || (self.valid() && self.fits_at(reference_tile)),
                platform <= self.platforms,
                results@.len() == 2 * platform,
                forall|i: int|
                    0 <= i < results@.len() ==> #[trigger] results@[i]
                        == self.spec_exit_tile_tracks(reference_tile)[i],
            decreases self.platforms - platform,
        {
            let platform_index = PlatformIndex(platform);
            let last = self.length_in_tiles - 1;
            let (a, b) = match self.orientation {
                StationOrientation::NorthToSouth => {
                    let a = TileTrack {
                        tile: reference_tile.plus(TileCoordsXZ::from_usizes(platform, 0)),
                        track_type: TrackType::NorthSouth,
                        pointing_in: DirectionXZ::North,
                    };
                    let b = TileTrack {
                        tile: reference_tile.plus(TileCoordsXZ::from_usizes(platform, last)),
                        track_type: TrackType::NorthSouth,
                        pointing_in: DirectionXZ::South,
                    };
                    (a, b)
                },
                StationOrientation::EastToWest => {
                    let a = TileTrack {
                        tile: reference_tile.plus(TileCoordsXZ::from_usizes(0, platform)),
                        track_type: TrackType::EastWest,
                        pointing_in: DirectionXZ::West,
                    };
                    let b = TileTrack {
                        tile: reference_tile.plus(TileCoordsXZ::from_usizes(last, platform)),
                        track_type: TrackType::EastWest,
                        pointing_in: DirectionXZ::East,
                    };
                    (a, b)
                },
            };
            proof {
                let s = self.spec_exit_tile_tracks(reference_tile);
                let i = 2 * platform as int;
                assert(i / 2 == platform as int && i % 2 == 0);
                assert((i + 1) / 2 == platform as int && (i + 1) % 2 == 1);
                assert(s[i] == (platform_index, a));
                assert(s[i + 1] == (platform_index, b));
            }
            results.push((platform_index, a));
            results.push((platform_index, b));
            platform = platform + 1;
        }
        proof {
            assert(results@ =~= self.spec_exit_tile_tracks(reference_tile));
        }
        results
    }
}

/// Every exit track lies on the station's tiles and runs along its platforms, and the tile
/// it points to is not the station's: a train leaving by it leaves the station.
pub proof fn lemma_exit_tile_tracks_leave_station(
    station_type: StationType,
    reference_tile: TileCoordsXZ,
    i: int,
)
    requires
        station_type.valid(),
        station_type.fits_at(reference_tile),
        0 <= i < 2 * station_type.platforms,
    ensures
        ({
            let tile_track = station_type.spec_exit_tile_tracks(reference_tile)[i].1;
            let station = station_type.spec_relative_tiles_used().spec_offset_by(reference_tile);
            &&& station.spec_contains(tile_track.tile)
            &&& tile_track.track_type == station_type.spec_track_type()
            &&& tile_track.track_type.has_end(tile_track.pointing_in)
            &&& tile_track.tile.can_step(tile_track.pointing_in) ==> !station.spec_contains(
                tile_track.tile.step(tile_track.pointing_in),
            )
        }),
{
    assert(0 <= i / 2 < station_type.platforms);
}

} // verus!
