use vstd::prelude::*;

use crate::transport::track_type::TrackType;

verus! {

/// A set of track types, one flag per type.
#[derive(Clone, Copy, PartialEq, Eq, Structural, Debug, Hash)]
pub struct TrackTypeSet {
    north_east: bool,
    north_south: bool,
    north_west: bool,
    east_west: bool,
    south_east: bool,
    south_west: bool,
}

pub broadcast group group_track_type_set {
    TrackTypeSet::lemma_insert_has,
    TrackTypeSet::lemma_remove_has,
    TrackTypeSet::lemma_empty_has,
}

impl TrackTypeSet {
    /// Whether the set holds `track_type`.
    pub closed spec fn has(self, track_type: TrackType) -> bool {
        match track_type {
            TrackType::NorthEast => self.north_east,
            TrackType::NorthSouth => self.north_south,
            TrackType::NorthWest => self.north_west,
            TrackType::EastWest => self.east_west,
            TrackType::SouthEast => self.south_east,
            TrackType::SouthWest => self.south_west,
        }
    }

    /// Two sets with the same members are equal.
    pub proof fn lemma_ext_eq(a: TrackTypeSet, b: TrackTypeSet)
        requires
            forall|t: TrackType| a.has(t) == b.has(t),
        ensures
            a == b,
    {
        assert(a.has(TrackType::NorthEast) == b.has(TrackType::NorthEast));
        assert(a.has(TrackType::NorthSouth) == b.has(TrackType::NorthSouth));
        assert(a.has(TrackType::NorthWest) == b.has(TrackType::NorthWest));
        assert(a.has(TrackType::EastWest) == b.has(TrackType::EastWest));
        assert(a.has(TrackType::SouthEast) == b.has(TrackType::SouthEast));
        assert(a.has(TrackType::SouthWest) == b.has(TrackType::SouthWest));
    }

    /// The set with `track_type` added.
    pub closed spec fn spec_insert(self, track_type: TrackType) -> TrackTypeSet {
        match track_type {
            TrackType::NorthEast => TrackTypeSet { north_east: true, ..self },
            TrackType::NorthSouth => TrackTypeSet { north_south: true, ..self },
            TrackType::NorthWest => TrackTypeSet { north_west: true, ..self },
            TrackType::EastWest => TrackTypeSet { east_west: true, ..self },
            TrackType::SouthEast => TrackTypeSet { south_east: true, ..self },
            TrackType::SouthWest => TrackTypeSet { south_west: true, ..self },
        }
    }

    /// The set with `track_type` taken out.
    pub closed spec fn spec_remove(self, track_type: TrackType) -> TrackTypeSet {
        match track_type {
            TrackType::NorthEast => TrackTypeSet { north_east: false, ..self },
            TrackType::NorthSouth => TrackTypeSet { north_south: false, ..self },
            TrackType::NorthWest => TrackTypeSet { north_west: false, ..self },
            TrackType::EastWest => TrackTypeSet { east_west: false, ..self },
            TrackType::SouthEast => TrackTypeSet { south_east: false, ..self },
            TrackType::SouthWest => TrackTypeSet { south_west: false, ..self },
        }
    }

    /// The set holding no track type.
    pub closed spec fn spec_empty() -> TrackTypeSet {
        TrackTypeSet {
            north_east: false,
            north_south: false,
            north_west: false,
            east_west: false,
            south_east: false,
            south_west: false,
        }
    }

    /// What adding does to membership.
    pub broadcast proof fn lemma_insert_has(self, track_type: TrackType, other: TrackType)
        ensures
            #[trigger] self.spec_insert(track_type).has(other) == (self.has(other) || other == track_type),
    {
    }

    /// What removing does to membership.
    pub broadcast proof fn lemma_remove_has(self, track_type: TrackType, other: TrackType)
        ensures
            #[trigger] self.spec_remove(track_type).has(other) == (self.has(other) && other != track_type),
    {
    }

    /// The empty set has no members.
    pub broadcast proof fn lemma_empty_has(track_type: TrackType)
        ensures
            !(#[trigger] Self::spec_empty().has(track_type)),
    {
    }

    pub open spec fn spec_is_empty(self) -> bool {
        forall|t: TrackType| !self.has(t)
    }

    pub fn new() -> (r: TrackTypeSet)
        ensures
            r == Self::spec_empty(),
            forall|t: TrackType| !r.has(t),
    {
        TrackTypeSet {
            north_east: false,
            north_south: false,
            north_west: false,
            east_west: false,
            south_east: false,
            south_west: false,
        }
    }

    /// The set holding just `track_type`.
    pub fn single(track_type: TrackType) -> (r: TrackTypeSet)
        ensures
            r == Self::spec_empty().spec_insert(track_type),
            forall|t: TrackType| r.has(t) == (t == track_type),
    {
        let mut r = Self::new();
        r.insert(track_type);
        r
    }

    pub fn contains(&self, track_type: TrackType) -> (r: bool)
        ensures
            r == self.has(track_type),
    {
        match track_type {
            TrackType::NorthEast => self.north_east,
            TrackType::NorthSouth => self.north_south,
            TrackType::NorthWest => self.north_west,
            TrackType::EastWest => self.east_west,
            TrackType::SouthEast => self.south_east,
            TrackType::SouthWest => self.south_west,
        }
    }

    pub fn insert(&mut self, track_type: TrackType)
        ensures
            *final(self) == old(self).spec_insert(track_type),
            forall|t: TrackType| final(self).has(t) == (old(self).has(t) || t == track_type),
    {
        match track_type {
            TrackType::NorthEast => self.north_east = true,
            TrackType::NorthSouth => self.north_south = true,
            TrackType::NorthWest => self.north_west = true,
            TrackType::EastWest => self.east_west = true,
            TrackType::SouthEast => self.south_east = true,
            TrackType::SouthWest => self.south_west = true,
        }
    }

    pub fn remove(&mut self, track_type: TrackType)
        ensures
            *final(self) == old(self).spec_remove(track_type),
            forall|t: TrackType| final(self).has(t) == (old(self).has(t) && t != track_type),
    {
        match track_type {
            TrackType::NorthEast => self.north_east = false,
            TrackType::NorthSouth => self.north_south = false,
            TrackType::NorthWest => self.north_west = false,
            TrackType::EastWest => self.east_west = false,
            TrackType::SouthEast => self.south_east = false,
            TrackType::SouthWest => self.south_west = false,
        }
    }

    pub fn clear(&mut self)
        ensures
            *final(self) == Self::spec_empty(),
            forall|t: TrackType| !final(self).has(t),
    {
        *self = Self::new();
    }

    pub fn is_empty(&self) -> (r: bool)
        ensures
            r == self.spec_is_empty(),
    {
        let r = !(self.north_east || self.north_south || self.north_west || self.east_west
            || self.south_east || self.south_west);
        proof {
            if !r {
                if self.north_east {
                    assert(self.has(TrackType::NorthEast));
                } else if self.north_south {
                    assert(self.has(TrackType::NorthSouth));
                } else if self.north_west {
                    assert(self.has(TrackType::NorthWest));
                } else if self.east_west {
                    assert(self.has(TrackType::EastWest));
                } else if self.south_east {
                    assert(self.has(TrackType::SouthEast));
                } else {
                    assert(self.has(TrackType::SouthWest));
                }
            }
        }
        r
    }

    /// The members in declaration order of `TrackType`.
    pub fn to_vec(&self) -> (r: Vec<TrackType>)
        ensures
            r@ == TrackType::spec_all().filter(|t: TrackType| self.has(t)),
    {
        let all = TrackType::all();
        let mut result: Vec<TrackType> = Vec::new();
        let mut i: usize = 0;
        while i < all.len()
            invariant
                i <= all.len(),
                all@ == TrackType::spec_all(),
                result@ == all@.take(i as int).filter(|t: TrackType| self.has(t)),
            decreases all.len() - i,
        {
            let t = all[i];
            proof {
                crate::seq_util::lemma_filter_take_step(all@, |t: TrackType| self.has(t), i as int);
            }
            if self.contains(t) {
                result.push(t);
            }
            i = i + 1;
        }
        proof {
            crate::seq_util::lemma_take_full(all@);
        }
        result
    }
}

} // verus!
