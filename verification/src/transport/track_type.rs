use vstd::prelude::*;

use crate::direction_xz::DirectionXZ;

verus! {

/// A piece of straight or curved track inside one tile, named by the two tile edges it joins.
#[derive(Clone, Copy, PartialEq, Eq, Structural, Debug, Hash, PartialOrd, Ord)]
pub enum TrackType {
    NorthEast,
    NorthSouth,
    NorthWest,
    EastWest,
    SouthEast,
    SouthWest,
}

impl TrackType {
    /// The two tile edges the track joins, in clockwise order (north, east, south, west),
    /// where a track joining west and north starts at west.
    pub open spec fn ends(self) -> (DirectionXZ, DirectionXZ) {
        match self {
            TrackType::NorthEast => (DirectionXZ::North, DirectionXZ::East),
            TrackType::NorthSouth => (DirectionXZ::North, DirectionXZ::South),
            TrackType::NorthWest => (DirectionXZ::West, DirectionXZ::North),
            TrackType::EastWest => (DirectionXZ::East, DirectionXZ::West),
            TrackType::SouthEast => (DirectionXZ::East, DirectionXZ::South),
            TrackType::SouthWest => (DirectionXZ::South, DirectionXZ::West),
        }
    }

    /// Whether the track reaches the tile edge in `direction`.
    pub open spec fn has_end(self, direction: DirectionXZ) -> bool {
        self.ends().0 == direction || self.ends().1 == direction
    }

    /// The end of the track opposite to `direction` (meaningful when `has_end(direction)`).
    pub open spec fn spec_other_end(self, direction: DirectionXZ) -> DirectionXZ {
        if self.ends().0 == direction {
            self.ends().1
        } else {
            self.ends().0
        }
    }

    /// Every track type, in declaration order.
    pub open spec fn spec_all() -> Seq<TrackType> {
        seq![
            TrackType::NorthEast,
            TrackType::NorthSouth,
            TrackType::NorthWest,
            TrackType::EastWest,
            TrackType::SouthEast,
            TrackType::SouthWest,
        ]
    }

    pub fn all() -> (r: Vec<TrackType>)
        ensures
            r@ == Self::spec_all(),
    {
        vec![
            TrackType::NorthEast,
            TrackType::NorthSouth,
            TrackType::NorthWest,
            TrackType::EastWest,
            TrackType::SouthEast,
            TrackType::SouthWest,
        ]
    }

    pub fn connections_clockwise(self) -> (r: (DirectionXZ, DirectionXZ))
        ensures
            r == self.ends(),
    {
        match self {
            TrackType::NorthEast => (DirectionXZ::North, DirectionXZ::East),
            TrackType::NorthSouth => (DirectionXZ::North, DirectionXZ::South),
            TrackType::NorthWest => (DirectionXZ::West, DirectionXZ::North),
            TrackType::EastWest => (DirectionXZ::East, DirectionXZ::West),
            TrackType::SouthEast => (DirectionXZ::East, DirectionXZ::South),
            TrackType::SouthWest => (DirectionXZ::South, DirectionXZ::West),
        }
    }

    /// Both ends of the track.
    pub fn connections(self) -> (r: Vec<DirectionXZ>)
        ensures
            r@ == seq![self.ends().0, self.ends().1],
    {
        let (a, b) = self.connections_clockwise();
        vec![a, b]
    }

    /// The other end of the track when entering from `direction`, or `None` when the
    /// track does not reach that edge.
    pub fn other_end(self, direction: DirectionXZ) -> (r: Option<DirectionXZ>)
        ensures
            r == (if self.has_end(direction) {
                Some(self.spec_other_end(direction))
            } else {
                None
            }),
    {
        let (a, b) = self.connections_clockwise();
        if a == direction {
            Some(b)
        } else if b == direction {
            Some(a)
        } else {
            None
        }
    }

    /// The other end of the track when entering from `direction`, which must be an end.
    pub fn other_end_unsafe(self, direction: DirectionXZ) -> (r: DirectionXZ)
        requires
            self.has_end(direction),
        ensures
            r == self.spec_other_end(direction),
    {
        let (a, b) = self.connections_clockwise();
        if a == direction {
            b
        } else {
            a
        }
    }

    /// The track types that reach the tile edge in `direction`, in declaration order.
    pub fn matching_direction(direction: DirectionXZ) -> (r: Vec<TrackType>)
        ensures
            r@ == Self::spec_all().filter(|t: TrackType| t.has_end(direction)),
    {
        let all = Self::all();
        let mut result: Vec<TrackType> = Vec::new();
        let mut i: usize = 0;
        while i < all.len()
            invariant
                i <= all.len(),
                all@ == Self::spec_all(),
                result@ == all@.take(i as int).filter(|t: TrackType| t.has_end(direction)),
            decreases all.len() - i,
        {
            let t = all[i];
            proof {
                crate::seq_util::lemma_filter_take_step(all@, |t: TrackType| t.has_end(direction), i as int);
            }
            if t.other_end(direction).is_some() {
                result.push(t);
            }
            i = i + 1;
        }
        proof {
            crate::seq_util::lemma_take_full(all@);
        }
        result
    }
}

/// The two ends of a track are different, and following a track from one end to the
/// other and back returns to the first end.
pub proof fn lemma_other_end_involution(track_type: TrackType, direction: DirectionXZ)
    requires
        track_type.has_end(direction),
    ensures
        track_type.ends().0 != track_type.ends().1,
        track_type.has_end(track_type.spec_other_end(direction)),
        track_type.spec_other_end(direction) != direction,
        track_type.spec_other_end(track_type.spec_other_end(direction)) == direction,
{
}

/// Every track type is listed exactly once.
pub proof fn lemma_all_track_types_distinct()
    ensures
        TrackType::spec_all().no_duplicates(),
        forall|t: TrackType| #[trigger] TrackType::spec_all().contains(t),
{
    let s = TrackType::spec_all();
    assert(s[0] == TrackType::NorthEast && s[1] == TrackType::NorthSouth && s[2] == TrackType::NorthWest);
    assert(s[3] == TrackType::EastWest && s[4] == TrackType::SouthEast && s[5] == TrackType::SouthWest);
    assert forall|t: TrackType| #[trigger] s.contains(t) by {
        match t {
            TrackType::NorthEast => assert(s[0] == t),
            TrackType::NorthSouth => assert(s[1] == t),
            TrackType::NorthWest => assert(s[2] == t),
            TrackType::EastWest => assert(s[3] == t),
            TrackType::SouthEast => assert(s[4] == t),
            TrackType::SouthWest => assert(s[5] == t),
        }
    }
}

/// A track type joins the two tile edges in its name: a track reaches the north edge
/// exactly when its name holds North, and likewise for east, south and west, and its two
/// ends are different edges.
pub proof fn lemma_track_ends_are_named(track_type: TrackType)
    ensures
        track_type.has_end(DirectionXZ::North) <==> (track_type is NorthEast || track_type is NorthSouth
            || track_type is NorthWest),
        track_type.has_end(DirectionXZ::East) <==> (track_type is NorthEast || track_type is EastWest
            || track_type is SouthEast),
        track_type.has_end(DirectionXZ::South) <==> (track_type is NorthSouth || track_type is SouthEast
            || track_type is SouthWest),
        track_type.has_end(DirectionXZ::West) <==> (track_type is NorthWest || track_type is EastWest
            || track_type is SouthWest),
        track_type.ends().0 != track_type.ends().1,
{
}

} // verus!
