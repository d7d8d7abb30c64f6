use vstd::prelude::*;

use crate::building::track_info::TrackInfo;
use crate::grid_xz::GridXZ;
use crate::tile_coords_xz::TileCoordsXZ;
use crate::transport::track_type::{lemma_all_track_types_distinct, TrackType};
use crate::transport::track_type_set::{group_track_type_set, TrackTypeSet};
use crate::{PlayerId, TrackId};

verus! {

broadcast use group_track_type_set;

/// The tracks on one tile: none, or some track types that all belong to one player.
#[derive(Clone, Copy, PartialEq, Eq, Structural, Debug)]
pub enum MaybeTracksOnTile {
    Empty,
    SingleOwner { owner_id: PlayerId, track_types: TrackTypeSet },
}

impl MaybeTracksOnTile {
    /// A tile with an owner holds at least one track.
    pub open spec fn wf(self) -> bool {
        match self {
            MaybeTracksOnTile::Empty => true,
            MaybeTracksOnTile::SingleOwner { track_types, .. } => !track_types.spec_is_empty(),
        }
    }

    pub open spec fn spec_owner_id(self) -> Option<PlayerId> {
        match self {
            MaybeTracksOnTile::Empty => None,
            MaybeTracksOnTile::SingleOwner { owner_id, .. } => Some(owner_id),
        }
    }

    pub open spec fn spec_track_types(self) -> TrackTypeSet {
        match self {
            MaybeTracksOnTile::Empty => TrackTypeSet::spec_empty(),
            MaybeTracksOnTile::SingleOwner { track_types, .. } => track_types,
        }
    }

    /// The tile with `track_type` taken away; a tile left without tracks loses its owner.
    pub open spec fn spec_removed(self, track_type: TrackType) -> MaybeTracksOnTile {
        match self {
            MaybeTracksOnTile::Empty => MaybeTracksOnTile::Empty,
            MaybeTracksOnTile::SingleOwner { owner_id, track_types } => {
                if track_types.spec_remove(track_type).spec_is_empty() {
                    MaybeTracksOnTile::Empty
                } else {
                    MaybeTracksOnTile::SingleOwner {
                        owner_id,
                        track_types: track_types.spec_remove(track_type),
                    }
                }
            },
        }
    }

    /// The tile with a track of `owner_id` added: an empty tile becomes that player's, a
    /// tile of that player gains the track, and a tile of another player is left as it is.
    pub open spec fn spec_appended(self, owner_id: PlayerId, track_type: TrackType) -> MaybeTracksOnTile {
        match self {
            MaybeTracksOnTile::Empty => MaybeTracksOnTile::SingleOwner {
                owner_id,
                track_types: TrackTypeSet::spec_empty().spec_insert(track_type),
            },
            MaybeTracksOnTile::SingleOwner { owner_id: current, track_types } => {
                if current == owner_id {
                    MaybeTracksOnTile::SingleOwner {
                        owner_id: current,
                        track_types: track_types.spec_insert(track_type),
                    }
                } else {
                    self
                }
            },
        }
    }

    pub fn default() -> (r: MaybeTracksOnTile)
        ensures
            r == MaybeTracksOnTile::Empty,
    {
        MaybeTracksOnTile::Empty
    }

    pub fn owner_id(&self) -> (r: Option<PlayerId>)
        ensures
            r == self.spec_owner_id(),
    {
        match self {
            MaybeTracksOnTile::Empty => None,
            MaybeTracksOnTile::SingleOwner { owner_id, .. } => Some(*owner_id),
        }
    }

    pub fn track_types(&self) -> (r: TrackTypeSet)
        ensures
            r == self.spec_track_types(),
    {
        match self {
            MaybeTracksOnTile::Empty => TrackTypeSet::new(),
            MaybeTracksOnTile::SingleOwner { track_types, .. } => *track_types,
        }
    }

    pub fn remove_track_type(&mut self, track_type: TrackType)
        ensures
            *final(self) == old(self).spec_removed(track_type),
    {
        match self {
            MaybeTracksOnTile::Empty => {},
            MaybeTracksOnTile::SingleOwner { owner_id, track_types } => {
                let mut remaining = *track_types;
                remaining.remove(track_type);
                if remaining.is_empty() {
                    *self = MaybeTracksOnTile::Empty;
                } else {
                    *self = MaybeTracksOnTile::SingleOwner { owner_id: *owner_id, track_types: remaining };
                }
            },
        }
    }

    pub fn append_track(&mut self, track: &TrackInfo)
        ensures
            *final(self) == old(self).spec_appended(track.spec_owner_id(), track.spec_track_type()),
    {
        match self {
            MaybeTracksOnTile::Empty => {
                *self = MaybeTracksOnTile::SingleOwner {
                    owner_id: track.owner_id(),
                    track_types: TrackTypeSet::single(track.track_type()),
                };
            },
            MaybeTracksOnTile::SingleOwner { owner_id, track_types } => {
                if *owner_id == track.owner_id() {
                    let mut more = *track_types;
                    more.insert(track.track_type());
                    *self = MaybeTracksOnTile::SingleOwner { owner_id: *owner_id, track_types: more };
                }
            },
        }
    }
}

/// Adding a track of the tile's owner (or to an empty tile) makes the tile hold that
/// track and belong to that owner, keeping it well formed.
pub proof fn lemma_append_adds_track(tile: MaybeTracksOnTile, owner_id: PlayerId, track_type: TrackType)
    requires
        tile.spec_owner_id() is None || tile.spec_owner_id() == Some(owner_id),
        tile.wf(),
    ensures
        tile.spec_appended(owner_id, track_type).spec_owner_id() == Some(owner_id),
        tile.spec_appended(owner_id, track_type).spec_track_types().has(track_type),
        tile.spec_appended(owner_id, track_type).wf(),
{
    assert(tile.spec_appended(owner_id, track_type).spec_track_types().has(track_type));
}

/// Removing a track that was just added to a tile that did not hold it gives the tile back.
pub proof fn lemma_remove_undoes_append(
    tile: MaybeTracksOnTile,
    owner_id: PlayerId,
    track_type: TrackType,
)
    requires
        tile.wf(),
        tile.spec_owner_id() is None || tile.spec_owner_id() == Some(owner_id),
        !tile.spec_track_types().has(track_type),
    ensures
        tile.spec_appended(owner_id, track_type).spec_removed(track_type) == tile,
{
    match tile {
        MaybeTracksOnTile::Empty => {
            let s = TrackTypeSet::spec_empty().spec_insert(track_type).spec_remove(track_type);
            assert forall|t: TrackType| !s.has(t) by {
                assert(TrackTypeSet::spec_empty().spec_insert(track_type).has(t) == (t == track_type));
            }
            assert(s.spec_is_empty());
        },
        MaybeTracksOnTile::SingleOwner { owner_id: o, track_types } => {
            let s = track_types.spec_insert(track_type).spec_remove(track_type);
            assert forall|t: TrackType| s.has(t) == track_types.has(t) by {
                assert(track_types.spec_insert(track_type).has(t) == (track_types.has(t) || t == track_type));
            }
            TrackTypeSet::lemma_ext_eq(s, track_types);
        },
    }
}

/// Removing a track from a well formed tile keeps it well formed and leaves no such track.
pub proof fn lemma_remove_removes_track(tile: MaybeTracksOnTile, track_type: TrackType)
    requires
        tile.wf(),
    ensures
        tile.spec_removed(track_type).wf(),
        !tile.spec_removed(track_type).spec_track_types().has(track_type),
{
}

/// One change to the tracks of a tile: a track of a player added, or a track type taken away.
pub enum TrackTileEdit {
    Append { owner_id: PlayerId, track_type: TrackType },
    Remove { track_type: TrackType },
}

/// The tile after `edits`, applied in order, starting from `tile`.
pub open spec fn tile_after_edits(tile: MaybeTracksOnTile, edits: Seq<TrackTileEdit>) -> MaybeTracksOnTile
    decreases edits.len(),
{
    if edits.len() == 0 {
        tile
    } else {
        let before = tile_after_edits(tile, edits.drop_last());
        match edits.last() {
            TrackTileEdit::Append { owner_id, track_type } => before.spec_appended(owner_id, track_type),
            TrackTileEdit::Remove { track_type } => before.spec_removed(track_type),
        }
    }
}

/// On a tile reached from an empty one by adding and taking away tracks in any order, the
/// tile holds no track types exactly when it is `Empty`, exactly when it has no owner: a
/// tile left without tracks loses its owner, and a track of another player is never added.
pub proof fn lemma_track_tile_empty_iff_no_owner(edits: Seq<TrackTileEdit>)
    ensures
        ({
            let tile = tile_after_edits(MaybeTracksOnTile::Empty, edits);
            &&& tile.wf()
            &&& tile.spec_track_types().spec_is_empty() <==> tile == MaybeTracksOnTile::Empty
            &&& tile == MaybeTracksOnTile::Empty <==> tile.spec_owner_id() is None
        }),
    decreases edits.len(),
{
    if edits.len() > 0 {
        lemma_track_tile_empty_iff_no_owner(edits.drop_last());
        let before = tile_after_edits(MaybeTracksOnTile::Empty, edits.drop_last());
        match edits.last() {
            TrackTileEdit::Append { owner_id, track_type } => {
                let after = before.spec_appended(owner_id, track_type);
                if before.spec_owner_id() is None || before.spec_owner_id() == Some(owner_id) {
                    lemma_append_adds_track(before, owner_id, track_type);
                }
                assert(after.wf());
            },
            TrackTileEdit::Remove { track_type } => {
                lemma_remove_removes_track(before, track_type);
            },
        }
    }
    let tile = tile_after_edits(MaybeTracksOnTile::Empty, edits);
    if tile == MaybeTracksOnTile::Empty {
        assert forall|t: TrackType| !tile.spec_track_types().has(t) by {
            TrackTypeSet::lemma_empty_has(t);
        }
    }
}

/// Once an attempted removal in a sequence fails, the later ones change nothing.
pub proof fn lemma_removals_stop_at_failure(
    m: Map<TileCoordsXZ, MaybeTracksOnTile>,
    player_id: PlayerId,
    track_ids: Seq<TrackId>,
    k: int,
)
    requires
        0 <= k <= track_ids.len(),
        !after_attempted_removals(m, player_id, track_ids.take(k)).1,
    ensures
        after_attempted_removals(m, player_id, track_ids) == after_attempted_removals(
            m,
            player_id,
            track_ids.take(k),
        ),
    decreases track_ids.len(),
{
    if k == track_ids.len() {
        crate::seq_util::lemma_take_full(track_ids);
    } else {
        let shorter = track_ids.drop_last();
        assert(shorter.take(k) =~= track_ids.take(k));
        lemma_removals_stop_at_failure(m, player_id, shorter, k);
    }
}

/// Attempted removals never change which tiles the map has.
pub proof fn lemma_after_attempted_removals_dom(
    m: Map<TileCoordsXZ, MaybeTracksOnTile>,
    player_id: PlayerId,
    track_ids: Seq<TrackId>,
)
    ensures
        after_attempted_removals(m, player_id, track_ids).0.dom() == m.dom(),
    decreases track_ids.len(),
{
    if track_ids.len() > 0 {
        lemma_after_attempted_removals_dom(m, player_id, track_ids.drop_last());
        let before = after_attempted_removals(m, player_id, track_ids.drop_last()).0;
        assert(after_remove(before, track_ids.last()).dom() =~= before.dom());
    }
}

/// The tracks of a map, tile by tile.
pub struct TrackState {
    grid: GridXZ<MaybeTracksOnTile>,
}

/// The tracks on `tile` in the map `m`; a tile outside the map has none.
pub open spec fn tracks_in(m: Map<TileCoordsXZ, MaybeTracksOnTile>, tile: TileCoordsXZ) -> MaybeTracksOnTile {
    if m.dom().contains(tile) {
        m[tile]
    } else {
        MaybeTracksOnTile::Empty
    }
}

/// Whether `info` is one of the tracks recorded in `m`: its tile lies on the map, belongs
/// to its owner and holds its track type.
pub open spec fn holds_track(m: Map<TileCoordsXZ, MaybeTracksOnTile>, info: TrackInfo) -> bool {
    &&& m.dom().contains(info.spec_tile())
    &&& tracks_in(m, info.spec_tile()).spec_owner_id() == Some(info.spec_owner_id())
    &&& tracks_in(m, info.spec_tile()).spec_track_types().has(info.spec_track_type())
    &&& info == TrackInfo::spec_new(info.spec_owner_id(), info.spec_tile(), info.spec_track_type())
}

/// The map after removing the track `track_id`.
pub open spec fn after_remove(m: Map<TileCoordsXZ, MaybeTracksOnTile>, track_id: TrackId) -> Map<
    TileCoordsXZ,
    MaybeTracksOnTile,
> {
    if m.dom().contains(track_id.tile) {
        m.insert(track_id.tile, m[track_id.tile].spec_removed(track_id.track_type))
    } else {
        m
    }
}

/// The map after adding `track`.
pub open spec fn after_append(m: Map<TileCoordsXZ, MaybeTracksOnTile>, track: TrackInfo) -> Map<
    TileCoordsXZ,
    MaybeTracksOnTile,
> {
    if m.dom().contains(track.spec_tile()) {
        m.insert(
            track.spec_tile(),
            m[track.spec_tile()].spec_appended(track.spec_owner_id(), track.spec_track_type()),
        )
    } else {
        m
    }
}

/// The map after adding `tracks` one after the other.
pub open spec fn after_append_all(m: Map<TileCoordsXZ, MaybeTracksOnTile>, tracks: Seq<TrackInfo>) -> Map<
    TileCoordsXZ,
    MaybeTracksOnTile,
>
    decreases tracks.len(),
{
    if tracks.len() == 0 {
        m
    } else {
        after_append(after_append_all(m, tracks.drop_last()), tracks.last())
    }
}

/// Adding tracks never changes which tiles the map has.
pub proof fn lemma_after_append_all_dom(m: Map<TileCoordsXZ, MaybeTracksOnTile>, tracks: Seq<TrackInfo>)
    ensures
        after_append_all(m, tracks).dom() == m.dom(),
    decreases tracks.len(),
{
    if tracks.len() > 0 {
        lemma_after_append_all_dom(m, tracks.drop_last());
        assert(after_append_all(m, tracks).dom() =~= m.dom());
    }
}

/// The map after `player_id` asks to remove the tracks `track_ids` one after the other,
/// stopping at the first that is not theirs, and whether all were removed.
pub open spec fn after_attempted_removals(
    m: Map<TileCoordsXZ, MaybeTracksOnTile>,
    player_id: PlayerId,
    track_ids: Seq<TrackId>,
) -> (Map<TileCoordsXZ, MaybeTracksOnTile>, bool)
    decreases track_ids.len(),
{
    if track_ids.len() == 0 {
        (m, true)
    } else {
        let (before, ok) = after_attempted_removals(m, player_id, track_ids.drop_last());
        if !ok {
            (before, false)
        } else if tracks_in(before, track_ids.last().tile).spec_owner_id() == Some(player_id) {
            (after_remove(before, track_ids.last()), true)
        } else {
            (before, false)
        }
    }
}

/// The map of a `size_x` by `size_z` area without tracks.
pub open spec fn empty_tracks(size_x: int, size_z: int) -> Map<TileCoordsXZ, MaybeTracksOnTile> {
    Map::new(
        |t: TileCoordsXZ| 0 <= t.x < size_x && 0 <= t.z < size_z,
        |t: TileCoordsXZ| MaybeTracksOnTile::Empty,
    )
}

impl View for TrackState {
    type V = Map<TileCoordsXZ, MaybeTracksOnTile>;

    /// The tracks of every tile of the map.
    closed spec fn view(&self) -> Map<TileCoordsXZ, MaybeTracksOnTile> {
        Map::new(|t: TileCoordsXZ| self.grid.in_bounds(t), |t: TileCoordsXZ| self.grid.at(t))
    }
}

impl TrackState {
    pub closed spec fn wf(self) -> bool {
        &&& self.grid.wf()
        &&& self.grid.size_x() <= i32::MAX
        &&& self.grid.size_z() <= i32::MAX
    }

    pub fn new(size_x: usize, size_z: usize) -> (r: TrackState)
        requires
            size_x * size_z <= usize::MAX,
            size_x <= i32::MAX,
            size_z <= i32::MAX,
        ensures
            r.wf(),
            r@ == empty_tracks(size_x as int, size_z as int),
    {
        let r = TrackState { grid: GridXZ::filled_with(size_x, size_z, MaybeTracksOnTile::default()) };
        proof {
            assert(r@ =~= empty_tracks(size_x as int, size_z as int));
        }
        r
    }

    pub fn tracks_at(&self, tile: TileCoordsXZ) -> (r: MaybeTracksOnTile)
        requires
            self.wf(),
        ensures
            r == tracks_in(self@, tile),
    {
        match self.grid.get(tile) {
            Some(found) => found,
            None => MaybeTracksOnTile::default(),
        }
    }

    pub fn track_types_at(&self, tile: TileCoordsXZ) -> (r: TrackTypeSet)
        requires
            self.wf(),
        ensures
            r == tracks_in(self@, tile).spec_track_types(),
    {
        self.tracks_at(tile).track_types()
    }

    pub fn remove_track(&mut self, track_id: TrackId)
        requires
            old(self).wf(),
        ensures
            final(self).wf(),
            final(self)@ == after_remove(old(self)@, track_id),
    {
        match self.grid.get(track_id.tile) {
            None => {},
            Some(found) => {
                let mut updated = found;
                updated.remove_track_type(track_id.track_type);
                self.grid.set(track_id.tile, updated);
                proof {
                    assert(self@ =~= after_remove(old(self)@, track_id));
                }
            },
        }
    }

    /// Removes the track `track_id` when it lies on a tile owned by `requesting_player_id`;
    /// otherwise changes nothing and fails.
    pub fn attempt_to_remove_track(&mut self, requesting_player_id: PlayerId, track_id: TrackId) -> (r:
        Result<(), ()>)
        requires
            old(self).wf(),
        ensures
            final(self).wf(),
            (r is Ok) == (tracks_in(old(self)@, track_id.tile).spec_owner_id() == Some(
                requesting_player_id,
            )),
            final(self)@ == (if r is Ok {
                after_remove(old(self)@, track_id)
            } else {
                old(self)@
            }),
    {
        let track = self.tracks_at(track_id.tile);
        if track.owner_id() == Some(requesting_player_id) {
            self.remove_track(track_id);
            Ok(())
        } else {
            Err(())
        }
    }

    /// Removes the tracks `track_ids` in order on behalf of `requesting_player_id`, stopping
    /// at the first one whose tile the player does not own.
    pub fn attempt_to_remove_tracks(&mut self, requesting_player_id: PlayerId, track_ids: &[TrackId]) -> (r:
        Result<(), ()>)
        requires
            old(self).wf(),
        ensures
            final(self).wf(),
            (final(self)@, r is Ok) == after_attempted_removals(
                old(self)@,
                requesting_player_id,
                track_ids@,
            ),
    {
        let mut i: usize = 0;
        while i < track_ids.len()
            invariant
                self.wf(),
                i <= track_ids.len(),
                (self@, true) == after_attempted_removals(
                    old(self)@,
                    requesting_player_id,
                    track_ids@.take(i as int),
                ),
            decreases track_ids.len() - i,
        {
            let ghost before = self@;
            proof {
                assert(track_ids@.take(i as int + 1).drop_last() =~= track_ids@.take(i as int));
            }
            let result = self.attempt_to_remove_track(requesting_player_id, track_ids[i]);
            if result.is_err() {
                proof {
                    lemma_removals_stop_at_failure(
                        old(self)@,
                        requesting_player_id,
                        track_ids@,
                        i as int + 1,
                    );
                }
                return Err(());
            }
            i = i + 1;
        }
        proof {
            crate::seq_util::lemma_take_full(track_ids@);
        }
        Ok(())
    }

    /// Every track on the map, each listed once.
    pub fn all_track_infos(&self) -> (r: Vec<TrackInfo>)
        requires
            self.wf(),
        ensures
            r@.no_duplicates(),
            forall|info: TrackInfo| #[trigger] r@.contains(info) <==> holds_track(self@, info),
    {
        let coords = self.grid.coords();
        let all = TrackType::all();
        proof {
            lemma_all_track_types_distinct();
        }
        let mut result: Vec<TrackInfo> = Vec::new();
        let mut i: usize = 0;
        while i < coords.len()
            invariant
                self.wf(),
                all@ == TrackType::spec_all(),
                all@.no_duplicates(),
                coords@.no_duplicates(),
                forall|t: TileCoordsXZ| #[trigger] coords@.contains(t) <==> self.grid.in_bounds(t),
                i <= coords.len(),
                result@.no_duplicates(),
                forall|info: TrackInfo| #[trigger]
                    result@.contains(info) <==> (holds_track(self@, info) && coords@.take(
                        i as int,
                    ).contains(info.spec_tile())),
            decreases coords.len() - i,
        {
            let tile = coords[i];
            proof {
                assert(coords@.take(i as int + 1) =~= coords@.take(i as int).push(tile));
                if coords@.take(i as int).contains(tile) {
                    let k = choose|k: int| 0 <= k < i && coords@.take(i as int)[k] == tile;
                    assert(coords@[k] == coords@[i as int]);
                }
                assert forall|t: TileCoordsXZ| #[trigger] coords@.take(i as int + 1).contains(t) <==> (
                coords@.take(i as int).contains(t) || t == tile) by {
                    crate::seq_util::lemma_push_contains(coords@.take(i as int), tile, t);
                }
                assert(coords@.contains(tile));
            }
            let tracks = self.tracks_at(tile);
            match tracks {
                MaybeTracksOnTile::Empty => {},
                MaybeTracksOnTile::SingleOwner { owner_id, track_types } => {
                    let mut j: usize = 0;
                    while j < all.len()
                        invariant
                            self.wf(),
                            all@ == TrackType::spec_all(),
                            all@.no_duplicates(),
                            i < coords.len(),
                            tile == coords@[i as int],
                            !coords@.take(i as int).contains(tile),
                            self@.dom().contains(tile),
                            tracks == tracks_in(self@, tile),
                            tracks == (MaybeTracksOnTile::SingleOwner { owner_id, track_types }),
                            j <= all.len(),
                            result@.no_duplicates(),
                            forall|info: TrackInfo| #[trigger]
                                result@.contains(info) <==> (holds_track(self@, info) && (coords@.take(
                                    i as int,
                                ).contains(info.spec_tile()) || (info.spec_tile() == tile && all@.take(
                                    j as int,
                                ).contains(info.spec_track_type())))),
                        decreases all.len() - j,
                    {
                        let t = all[j];
                        proof {
                            assert(all@.take(j as int + 1) =~= all@.take(j as int).push(t));
                            if all@.take(j as int).contains(t) {
                                let k = choose|k: int| 0 <= k < j && all@.take(j as int)[k] == t;
                                assert(all@[k] == all@[j as int]);
                            }
                            assert forall|u: TrackType| #[trigger] all@.take(j as int + 1).contains(u) <==> (
                            all@.take(j as int).contains(u) || u == t) by {
                                crate::seq_util::lemma_push_contains(all@.take(j as int), t, u);
                            }
                        }
                        let ghost before = result@;
                        let ghost made = TrackInfo::spec_new(owner_id, tile, t);
                        proof {
                            TrackInfo::lemma_spec_new(owner_id, tile, t);
                        }
                        if track_types.contains(t) {
                            let info = TrackInfo::new(owner_id, tile, t);
                            proof {
                                assert(!result@.contains(info));
                                crate::seq_util::lemma_push_no_duplicates(result@, info);
                            }
                            result.push(info);
                        }
                        proof {
                            assert forall|info: TrackInfo| #[trigger]
                                result@.contains(info) <==> (holds_track(self@, info) && (coords@.take(
                                    i as int,
                                ).contains(info.spec_tile()) || (info.spec_tile() == tile && all@.take(
                                    j as int + 1,
                                ).contains(info.spec_track_type())))) by {
                                if track_types.has(t) {
                                    crate::seq_util::lemma_push_contains(before, made, info);
                                }
                                if info.spec_tile() == tile && info.spec_track_type() == t && holds_track(
                                    self@,
                                    info,
                                ) {
                                    assert(info == made);
                                }
                            }
                        }
                        j = j + 1;
                    }
                    proof {
                        assert forall|info: TrackInfo| #[trigger]
                            result@.contains(info) <==> (holds_track(self@, info) && coords@.take(
                                i as int + 1,
                            ).contains(info.spec_tile())) by {
                            if info.spec_tile() == tile && holds_track(self@, info) {
                                assert(all@.contains(info.spec_track_type()));
                                crate::seq_util::lemma_take_full(all@);
                            }
                        }
                    }
                },
            }
            i = i + 1;
        }
        proof {
            crate::seq_util::lemma_take_full(coords@);
        }
        result
    }

    fn append_track(&mut self, track: &TrackInfo)
        requires
            old(self).wf(),
        ensures
            final(self).wf(),
            final(self)@ == after_append(old(self)@, *track),
    {
        match self.grid.get(track.tile()) {
            None => {},
            Some(contents) => {
                let mut updated = contents;
                updated.append_track(track);
                self.grid.set(track.tile(), updated);
                proof {
                    assert(self@ =~= after_append(old(self)@, *track));
                }
            },
        }
    }

    /// Adds `tracks` one after the other.
    pub fn append_tracks(&mut self, tracks: Vec<TrackInfo>)
        requires
            old(self).wf(),
        ensures
            final(self).wf(),
            final(self)@ == after_append_all(old(self)@, tracks@),
    {
        let mut i: usize = 0;
        while i < tracks.len()
            invariant
                self.wf(),
                i <= tracks.len(),
                self@ == after_append_all(old(self)@, tracks@.take(i as int)),
            decreases tracks.len() - i,
        {
            proof {
                assert(tracks@.take(i as int + 1).drop_last() =~= tracks@.take(i as int));
            }
            self.append_track(&tracks[i]);
            i = i + 1;
        }
        proof {
            crate::seq_util::lemma_take_full(tracks@);
        }
    }
}

} // verus!
