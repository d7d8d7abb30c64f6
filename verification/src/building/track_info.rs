use vstd::prelude::*;

use crate::direction_xz::DirectionXZ;
use crate::edge_xz::EdgeXZ;
use crate::tile_coords_xz::TileCoordsXZ;
use crate::transport::tile_track::TileTrack;
use crate::transport::track_type::TrackType;
use crate::{PlayerId, TrackId};

verus! {

/// A track owned by a player, as exchanged between server and clients.
#[derive(Clone, Copy, PartialEq, Eq, Structural, Debug)]
pub struct TrackInfo {
    id: TrackId,
    owner_id: PlayerId,
    pub tile: TileCoordsXZ,
    pub track_type: TrackType,
}

impl TrackInfo {
    pub closed spec fn spec_id(self) -> TrackId {
        self.id
    }

    pub closed spec fn spec_owner_id(self) -> PlayerId {
        self.owner_id
    }

    pub closed spec fn spec_tile(self) -> TileCoordsXZ {
        self.tile
    }

    pub closed spec fn spec_track_type(self) -> TrackType {
        self.track_type
    }

    /// The track built by `owner_id` on `tile` with `track_type`.
    pub closed spec fn spec_new(owner_id: PlayerId, tile: TileCoordsXZ, track_type: TrackType) -> TrackInfo {
        TrackInfo { id: TrackId { tile, track_type }, owner_id, tile, track_type }
    }

    /// A track made by `new` is determined by its owner, tile and type.
    pub broadcast proof fn lemma_spec_new(owner_id: PlayerId, tile: TileCoordsXZ, track_type: TrackType)
        ensures
            #[trigger] Self::spec_new(owner_id, tile, track_type).spec_id() == (TrackId { tile, track_type }),
            Self::spec_new(owner_id, tile, track_type).spec_owner_id() == owner_id,
            Self::spec_new(owner_id, tile, track_type).spec_tile() == tile,
            Self::spec_new(owner_id, tile, track_type).spec_track_type() == track_type,
    {
    }

    pub fn new(owner_id: PlayerId, tile: TileCoordsXZ, track_type: TrackType) -> (r: TrackInfo)
        ensures
            r == Self::spec_new(owner_id, tile, track_type),
            r.spec_id() == (TrackId { tile, track_type }),
            r.spec_owner_id() == owner_id,
            r.spec_tile() == tile,
            r.spec_track_type() == track_type,
    {
        TrackInfo { id: TrackId::new(tile, track_type), owner_id, tile, track_type }
    }

    /// The track that `owner_id` would lay along `tile_track`.
    pub fn from_tile_track(owner_id: PlayerId, tile_track: TileTrack) -> (r: TrackInfo)
        ensures
            r == Self::spec_new(owner_id, tile_track.tile, tile_track.track_type),
    {
        Self::new(owner_id, tile_track.tile, tile_track.track_type)
    }

    pub fn id(&self) -> (r: TrackId)
        ensures
            r == self.spec_id(),
    {
        self.id
    }

    pub fn tile(&self) -> (r: TileCoordsXZ)
        ensures
            r == self.spec_tile(),
    {
        self.tile
    }

    pub fn track_type(&self) -> (r: TrackType)
        ensures
            r == self.spec_track_type(),
    {
        self.track_type
    }

    pub fn owner_id(&self) -> (r: PlayerId)
        ensures
            r == self.spec_owner_id(),
    {
        self.owner_id
    }

    /// The two tile edges the track joins, in the clockwise order of its type.
    pub fn edges_clockwise(&self) -> (r: [EdgeXZ; 2])
        requires
            self.spec_tile().can_step(self.spec_track_type().ends().0),
            self.spec_tile().can_step(self.spec_track_type().ends().1),
        ensures
            r@ == seq![
                EdgeXZ::spec_from_tile_and_direction(self.spec_tile(), self.spec_track_type().ends().0),
                EdgeXZ::spec_from_tile_and_direction(self.spec_tile(), self.spec_track_type().ends().1),
            ],
    {
        let (a, b): (DirectionXZ, DirectionXZ) = self.track_type.connections_clockwise();
        [EdgeXZ::from_tile_and_direction(self.tile, a), EdgeXZ::from_tile_and_direction(self.tile, b)]
    }
}

} // verus!
