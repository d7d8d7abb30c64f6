use vstd::prelude::*;

use crate::direction_xz::DirectionXZ;
use crate::tile_coords_xz::TileCoordsXZ;

verus! {

/// The coordinates of a vertex of the map: the corner shared by up to four tiles. The
/// north-west corner of tile `(x, z)` is vertex `(x, z)`.
#[derive(Clone, Copy, PartialEq, Eq, Structural, Debug, Hash, PartialOrd, Ord)]
pub struct VertexCoordsXZ {
    pub x: i32,
    pub z: i32,
}

impl TileCoordsXZ {
    /// The corners of the tile have representable coordinates.
    pub open spec fn has_vertices(self) -> bool {
        self.x < i32::MAX && self.z < i32::MAX
    }

    /// The four corners of the tile, clockwise from the north-west one.
    pub open spec fn spec_vertex_coords(self) -> Seq<VertexCoordsXZ> {
        seq![
            VertexCoordsXZ { x: self.x, z: self.z },
            VertexCoordsXZ { x: (self.x + 1) as i32, z: self.z },
            VertexCoordsXZ { x: (self.x + 1) as i32, z: (self.z + 1) as i32 },
            VertexCoordsXZ { x: self.x, z: (self.z + 1) as i32 },
        ]
    }

    /// The two corners at the ends of the tile's edge in `direction`, in clockwise order.
    pub open spec fn spec_vertex_coords_clockwise(self, direction: DirectionXZ) -> (
        VertexCoordsXZ,
        VertexCoordsXZ,
    ) {
        let v = self.spec_vertex_coords();
        match direction {
            DirectionXZ::North => (v[0], v[1]),
            DirectionXZ::East => (v[1], v[2]),
            DirectionXZ::South => (v[2], v[3]),
            DirectionXZ::West => (v[3], v[0]),
        }
    }

    pub fn vertex_coords(self) -> (r: [VertexCoordsXZ; 4])
        requires
            self.has_vertices(),
        ensures
            r@ == self.spec_vertex_coords(),
    {
        [
            VertexCoordsXZ { x: self.x, z: self.z },
            VertexCoordsXZ { x: self.x + 1, z: self.z },
            VertexCoordsXZ { x: self.x + 1, z: self.z + 1 },
            VertexCoordsXZ { x: self.x, z: self.z + 1 },
        ]
    }

    pub fn vertex_coords_clockwise(self, direction: DirectionXZ) -> (r: (VertexCoordsXZ, VertexCoordsXZ))
        requires
            self.has_vertices(),
        ensures
            r == self.spec_vertex_coords_clockwise(direction),
    {
        let v = self.vertex_coords();
        match direction {
            DirectionXZ::North => (v[0], v[1]),
            DirectionXZ::East => (v[1], v[2]),
            DirectionXZ::South => (v[2], v[3]),
            DirectionXZ::West => (v[3], v[0]),
        }
    }
}

/// The edge of a tile in a direction joins the two corners on that side of the tile, in
/// clockwise order: both share the side's coordinate (`x + 1` for east, `z + 1` for south)
/// and they lie at the two ends of the side.
pub proof fn lemma_edge_corners_lie_on_their_side(tile: TileCoordsXZ, direction: DirectionXZ)
    requires
        tile.has_vertices(),
    ensures
        ({
            let (a, b) = tile.spec_vertex_coords_clockwise(direction);
            match direction {
                DirectionXZ::North => a.z == tile.z && b.z == tile.z && a.x == tile.x && b.x == tile.x + 1,
                DirectionXZ::East => a.x == tile.x + 1 && b.x == tile.x + 1 && a.z == tile.z && b.z == tile.z + 1,
                DirectionXZ::South => a.z == tile.z + 1 && b.z == tile.z + 1 && a.x == tile.x + 1 && b.x == tile.x,
                DirectionXZ::West => a.x == tile.x && b.x == tile.x && a.z == tile.z + 1 && b.z == tile.z,
            }
        }),
{
}

} // verus!
