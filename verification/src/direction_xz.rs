use vstd::prelude::*;

verus! {

/// One of the four compass directions on the tile grid.
///
/// The grid's `x` axis grows towards the east and its `z` axis grows towards the south.
#[derive(Clone, Copy, PartialEq, Eq, Structural, Debug, Hash, PartialOrd, Ord)]
pub enum DirectionXZ {
    North,
    East,
    South,
    West,
}

impl DirectionXZ {
    /// The direction pointing the other way.
    pub open spec fn spec_reverse(self) -> DirectionXZ {
        match self {
            DirectionXZ::North => DirectionXZ::South,
            DirectionXZ::East => DirectionXZ::West,
            DirectionXZ::South => DirectionXZ::North,
            DirectionXZ::West => DirectionXZ::East,
        }
    }

    /// The change of the `x` coordinate when stepping one tile in this direction.
    pub open spec fn dx(self) -> int {
        match self {
            DirectionXZ::East => 1,
            DirectionXZ::West => -1,
            _ => 0,
        }
    }

    /// The change of the `z` coordinate when stepping one tile in this direction.
    pub open spec fn dz(self) -> int {
        match self {
            DirectionXZ::South => 1,
            DirectionXZ::North => -1,
            _ => 0,
        }
    }

    #[verifier::when_used_as_spec(spec_reverse)]
    pub fn reverse(self) -> (r: DirectionXZ)
        ensures
            r == self.spec_reverse(),
    {
        match self {
            DirectionXZ::North => DirectionXZ::South,
            DirectionXZ::East => DirectionXZ::West,
            DirectionXZ::South => DirectionXZ::North,
            DirectionXZ::West => DirectionXZ::East,
        }
    }

    /// All four directions, clockwise from north.
    pub fn all() -> (r: Vec<DirectionXZ>)
        ensures
            r@ == seq![DirectionXZ::North, DirectionXZ::East, DirectionXZ::South, DirectionXZ::West],
    {
        vec![DirectionXZ::North, DirectionXZ::East, DirectionXZ::South, DirectionXZ::West]
    }
}

/// Reversing a direction twice gives it back, and a direction and its reverse
/// step in opposite ways.
pub proof fn lemma_reverse_involution(d: DirectionXZ)
    ensures
        d.spec_reverse().spec_reverse() == d,
        d.spec_reverse() != d,
        d.spec_reverse().dx() == -d.dx(),
        d.spec_reverse().dz() == -d.dz(),
{
}

} // verus!
