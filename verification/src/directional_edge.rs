use vstd::prelude::*;

use crate::direction_xz::DirectionXZ;
use crate::edge_xz::EdgeXZ;
use crate::tile_coords_xz::TileCoordsXZ;
use crate::transport::tile_track::TileTrack;

verus! {

/// The crossing into `into_tile` through its edge in `from_direction`.
#[derive(Clone, Copy, PartialEq, Eq, Structural, Debug, Hash)]
pub struct DirectionalEdge {
    pub into_tile: TileCoordsXZ,
    pub from_direction: DirectionXZ,
}

impl DirectionalEdge {
    pub open spec fn spec_new(into_tile: TileCoordsXZ, from_direction: DirectionXZ) -> DirectionalEdge {
        DirectionalEdge { into_tile, from_direction }
    }

    /// The same edge crossed the other way.
    pub open spec fn spec_mirror(self) -> DirectionalEdge {
        Self::spec_new(self.into_tile.step(self.from_direction), self.from_direction.spec_reverse())
    }

    pub fn new(into_tile: TileCoordsXZ, from_direction: DirectionXZ) -> (r: DirectionalEdge)
        ensures
            r == Self::spec_new(into_tile, from_direction),
    {
        DirectionalEdge { into_tile, from_direction }
    }

    pub fn mirror(&self) -> (r: DirectionalEdge)
        requires
            self.into_tile.can_step(self.from_direction),
        ensures
            r == self.spec_mirror(),
    {
        let new_tile = self.into_tile.plus_direction(self.from_direction);
        Self::new(new_tile, self.from_direction.reverse())
    }

    /// The edge through which a train enters the tile of `tile_track`: the track's end
    /// opposite to where it points.
    pub fn entrance_to(tile_track: TileTrack) -> (r: DirectionalEdge)
        requires
            tile_track.track_type.has_end(tile_track.pointing_in),
        ensures
            r == Self::spec_new(
                tile_track.tile,
                tile_track.track_type.spec_other_end(tile_track.pointing_in),
            ),
    {
        Self::new(tile_track.tile, tile_track.track_type.other_end_unsafe(tile_track.pointing_in))
    }

    /// The crossing into `tile` over `edge`, or `None` when `tile` is not next to `edge`.
    pub fn from_tile_and_edge(tile: TileCoordsXZ, edge: EdgeXZ) -> (r: Option<DirectionalEdge>)
        requires
            edge.valid(),
        ensures
            r == (if edge.spec_both_tiles_and_directions()[0].0 == tile {
                Some(Self::spec_new(tile, edge.spec_both_tiles_and_directions()[0].1))
            } else if edge.spec_both_tiles_and_directions()[1].0 == tile {
                Some(Self::spec_new(tile, edge.spec_both_tiles_and_directions()[1].1))
            } else {
                None
            }),
    {
        let both = edge.both_tiles_and_directions();
        if both[0].0 == tile {
            Some(Self::new(tile, both[0].1))
        } else if both[1].0 == tile {
            Some(Self::new(tile, both[1].1))
        } else {
            None
        }
    }

    /// The edge through which a train leaves the tile of `tile_track`, seen from that tile.
    pub fn exit_from(tile_track: TileTrack) -> (r: DirectionalEdge)
        ensures
            r == Self::spec_new(tile_track.tile, tile_track.pointing_in.spec_reverse()),
    {
        Self::new(tile_track.tile, tile_track.pointing_in.reverse())
    }
}

/// Mirroring a directional edge twice gives it back.
pub proof fn lemma_mirror_involution(edge: DirectionalEdge)
    requires
        edge.into_tile.can_step(edge.from_direction),
    ensures
        edge.spec_mirror().into_tile.can_step(edge.spec_mirror().from_direction),
        edge.spec_mirror().spec_mirror() == edge,
{
}

/// The crossing into a tile over its own edge in a direction is the crossing from that direction.
pub proof fn lemma_from_tile_and_own_edge(tile: TileCoordsXZ, direction: DirectionXZ)
    requires
        tile.can_step(direction),
    ensures
        ({
            let edge = EdgeXZ::spec_from_tile_and_direction(tile, direction);
            let both = edge.spec_both_tiles_and_directions();
            &&& edge.valid()
            &&& (if both[0].0 == tile {
                Some(DirectionalEdge::spec_new(tile, both[0].1))
            } else if both[1].0 == tile {
                Some(DirectionalEdge::spec_new(tile, both[1].1))
            } else {
                None
            }) == Some(DirectionalEdge::spec_new(tile, direction))
        }),
{
}

} // verus!
