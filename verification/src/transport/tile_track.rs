use vstd::prelude::*;

use crate::direction_xz::DirectionXZ;
use crate::tile_coords_xz::TileCoordsXZ;
use crate::transport::track_type::TrackType;

verus! {

/// A track inside a tile, travelled towards the tile edge `pointing_in`.
#[derive(Clone, Copy, PartialEq, Eq, Structural, Debug, Hash, PartialOrd, Ord)]
pub struct TileTrack {
    pub tile: TileCoordsXZ,
    pub track_type: TrackType,
    pub pointing_in: DirectionXZ,
}

} // verus!
