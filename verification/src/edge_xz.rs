use vstd::prelude::*;

use crate::direction_xz::DirectionXZ;
use crate::tile_coords_xz::{fits_i32, TileCoordsXZ};

verus! {

/// The edge between two neighbouring tiles, named by its western (for a horizontal step)
/// or northern (for a vertical step) tile.
#[derive(Clone, Copy, PartialEq, Eq, Structural, Debug, Hash, PartialOrd, Ord)]
pub enum EdgeXZ {
    Horizontal { west: TileCoordsXZ },
    Vertical { north: TileCoordsXZ },
}

impl EdgeXZ {
    /// Whether both tiles next to the edge have representable coordinates.
    pub open spec fn valid(self) -> bool {
        match self {
            EdgeXZ::Horizontal { west } => fits_i32(west.x + 1),
            EdgeXZ::Vertical { north } => fits_i32(north.z + 1),
        }
    }

    /// The edge of `tile` that lies in `direction`.
    pub open spec fn spec_from_tile_and_direction(
        tile: TileCoordsXZ,
        direction: DirectionXZ,
    ) -> EdgeXZ {
        match direction {
            DirectionXZ::North => EdgeXZ::Vertical { north: tile.step(DirectionXZ::North) },
            DirectionXZ::East => EdgeXZ::Horizontal { west: tile },
            DirectionXZ::South => EdgeXZ::Vertical { north: tile },
            DirectionXZ::West => EdgeXZ::Horizontal { west: tile.step(DirectionXZ::West) },
        }
    }

    /// The two tiles next to the edge, west before east and north before south.
    pub open spec fn spec_ordered_tiles(self) -> (TileCoordsXZ, TileCoordsXZ) {
        match self {
            EdgeXZ::Horizontal { west } => (west, west.step(DirectionXZ::East)),
            EdgeXZ::Vertical { north } => (north, north.step(DirectionXZ::South)),
        }
    }

    /// Each tile next to the edge, with the direction from that tile towards the edge.
    pub open spec fn spec_both_tiles_and_directions(self) -> Seq<(TileCoordsXZ, DirectionXZ)> {
        match self {
            EdgeXZ::Horizontal { west } => seq![
                (west, DirectionXZ::East),
                (west.step(DirectionXZ::East), DirectionXZ::West),
            ],
            EdgeXZ::Vertical { north } => seq![
                (north, DirectionXZ::South),
                (north.step(DirectionXZ::South), DirectionXZ::North),
            ],
        }
    }

    /// The tile that two edges share, or `None` when they share no tile or are the same edge.
    pub open spec fn spec_common_tile(a: EdgeXZ, b: EdgeXZ) -> Option<TileCoordsXZ> {
        let (a_0, a_1) = a.spec_ordered_tiles();
        let (b_0, b_1) = b.spec_ordered_tiles();
        if a == b {
            None
        } else if a_0 == b_0 || a_0 == b_1 {
            Some(a_0)
        } else if a_1 == b_0 || a_1 == b_1 {
            Some(a_1)
        } else {
            None
        }
    }

    pub fn from_tile_and_direction(tile: TileCoordsXZ, direction: DirectionXZ) -> (r: EdgeXZ)
        requires
            tile.can_step(direction),
        ensures
            r == Self::spec_from_tile_and_direction(tile, direction),
            r.valid(),
    {
        match direction {
            DirectionXZ::North => EdgeXZ::Vertical {
                north: tile.plus_direction(DirectionXZ::North),
            },
            DirectionXZ::East => EdgeXZ::Horizontal { west: tile },
            DirectionXZ::South => EdgeXZ::Vertical { north: tile },
            DirectionXZ::West => EdgeXZ::Horizontal { west: tile.plus_direction(DirectionXZ::West) },
        }
    }

    pub fn both_tiles_and_directions(self) -> (r: [(TileCoordsXZ, DirectionXZ); 2])
        requires
            self.valid(),
        ensures
            r@ == self.spec_both_tiles_and_directions(),
    {
        match self {
            EdgeXZ::Horizontal { west } => [
                (west, DirectionXZ::East),
                (west.plus_direction(DirectionXZ::East), DirectionXZ::West),
            ],
            EdgeXZ::Vertical { north } => [
                (north, DirectionXZ::South),
                (north.plus_direction(DirectionXZ::South), DirectionXZ::North),
            ],
        }
    }

    /// The four edges of `tile`: north, east, south, west.
    pub fn for_tile(tile: TileCoordsXZ) -> (r: [EdgeXZ; 4])
        requires
            tile.can_step(DirectionXZ::North),
            tile.can_step(DirectionXZ::East),
            tile.can_step(DirectionXZ::South),
            tile.can_step(DirectionXZ::West),
        ensures
            r@ == seq![
                Self::spec_from_tile_and_direction(tile, DirectionXZ::North),
                Self::spec_from_tile_and_direction(tile, DirectionXZ::East),
                Self::spec_from_tile_and_direction(tile, DirectionXZ::South),
                Self::spec_from_tile_and_direction(tile, DirectionXZ::West),
            ],
    {
        [
            EdgeXZ::from_tile_and_direction(tile, DirectionXZ::North),
            EdgeXZ::from_tile_and_direction(tile, DirectionXZ::East),
            EdgeXZ::from_tile_and_direction(tile, DirectionXZ::South),
            EdgeXZ::from_tile_and_direction(tile, DirectionXZ::West),
        ]
    }

    pub fn ordered_tiles(self) -> (r: (TileCoordsXZ, TileCoordsXZ))
        requires
            self.valid(),
        ensures
            r == self.spec_ordered_tiles(),
    {
        match self {
            EdgeXZ::Horizontal { west } => (west, west.plus_direction(DirectionXZ::East)),
            EdgeXZ::Vertical { north } => (north, north.plus_direction(DirectionXZ::South)),
        }
    }

    pub fn common_tile(a: EdgeXZ, b: EdgeXZ) -> (r: Option<TileCoordsXZ>)
        requires
            a.valid(),
            b.valid(),
        ensures
            r == Self::spec_common_tile(a, b),
    {
        let (a_0, a_1) = a.ordered_tiles();
        let (b_0, b_1) = b.ordered_tiles();
        if a == b {
            None
        } else if a_0 == b_0 {
            Some(a_0)
        } else if a_0 == b_1 {
            Some(a_0)
        } else if a_1 == b_0 {
            Some(a_1)
        } else if a_1 == b_1 {
            Some(a_1)
        } else {
            None
        }
    }
}

/// An edge seen from one tile is the same edge seen from the neighbouring tile across it.
pub proof fn lemma_edge_shared_by_neighbours(tile: TileCoordsXZ, direction: DirectionXZ)
    requires
        tile.can_step(direction),
    ensures
        tile.step(direction).can_step(direction.spec_reverse()),
        EdgeXZ::spec_from_tile_and_direction(tile, direction) == EdgeXZ::spec_from_tile_and_direction(
            tile.step(direction),
            direction.spec_reverse(),
        ),
{
}

/// The edge of a tile in a direction lists that tile with that direction among its two
/// sides, and the neighbour across it with the reverse direction.
pub proof fn lemma_edge_sides(tile: TileCoordsXZ, direction: DirectionXZ)
    requires
        tile.can_step(direction),
    ensures
        EdgeXZ::spec_from_tile_and_direction(tile, direction).valid(),
        EdgeXZ::spec_from_tile_and_direction(tile, direction).spec_both_tiles_and_directions().contains(
            (tile, direction),
        ),
        EdgeXZ::spec_from_tile_and_direction(tile, direction).spec_both_tiles_and_directions().contains(
            (tile.step(direction), direction.spec_reverse()),
        ),
{
    let e = EdgeXZ::spec_from_tile_and_direction(tile, direction);
    let s = e.spec_both_tiles_and_directions();
    match direction {
        DirectionXZ::North => {
            assert(s[1] == (tile, direction));
            assert(s[0] == (tile.step(direction), direction.spec_reverse()));
        },
        DirectionXZ::East => {
            assert(s[0] == (tile, direction));
            assert(s[1] == (tile.step(direction), direction.spec_reverse()));
        },
        DirectionXZ::South => {
            assert(s[0] == (tile, direction));
            assert(s[1] == (tile.step(direction), direction.spec_reverse()));
        },
        DirectionXZ::West => {
            assert(s[1] == (tile, direction));
            assert(s[0] == (tile.step(direction), direction.spec_reverse()));
        },
    }
}

/// The tile two edges share does not depend on the order in which they are given.
pub proof fn lemma_common_tile_symmetric(a: EdgeXZ, b: EdgeXZ)
    requires
        a.valid(),
        b.valid(),
    ensures
        EdgeXZ::spec_common_tile(a, b) == EdgeXZ::spec_common_tile(b, a),
{
}

} // verus!
