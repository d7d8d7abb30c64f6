use vstd::prelude::*;

use crate::building::BuildError;
use crate::direction_xz::DirectionXZ;
use crate::map_level::map_level::Height;
use crate::tile_coords_xz::TileCoordsXZ;
use crate::transport::track_type::TrackType;
use crate::vertex_coords_xz::VertexCoordsXZ;

verus! {

/// The heights of the vertices of a map, row by row: `size_z` rows of `size_x` heights.
/// A map of `size_x` by `size_z` vertices has one tile fewer in each direction.
#[derive(Clone, Debug, PartialEq)]
pub struct Terrain {
    size_x: usize,
    size_z: usize,
    height_map: Vec<Vec<Height>>,
}

impl Terrain {
    pub closed spec fn spec_size_x(&self) -> int {
        self.size_x as int
    }

    pub closed spec fn spec_size_z(&self) -> int {
        self.size_z as int
    }

    pub closed spec fn heights(&self) -> Seq<Seq<Height>> {
        self.height_map@.map_values(|row: Vec<Height>| row@)
    }

    /// There are `size_z` rows of `size_x` heights each.
    pub open spec fn spec_is_valid(&self) -> bool {
        &&& self.heights().len() == self.spec_size_z()
        &&& forall|i: int| 0 <= i < self.heights().len() ==> (#[trigger] self.heights()[i]).len() == self.spec_size_x()
    }

    /// The height at `vertex`; the lowest height off the map.
    pub open spec fn spec_height_at(&self, vertex: VertexCoordsXZ) -> Height {
        if 0 <= vertex.z < self.heights().len() && 0 <= vertex.x < self.heights()[vertex.z as int].len() {
            self.heights()[vertex.z as int][vertex.x as int]
        } else {
            Height::spec_from_u8(0)
        }
    }

    /// Whether all four corners of `tile` are vertices of the map.
    pub open spec fn spec_tile_in_bounds(&self, tile: TileCoordsXZ) -> bool {
        0 <= tile.x && tile.x + 1 < self.spec_size_x() && 0 <= tile.z && tile.z + 1 < self.spec_size_z()
    }

    /// The two ends of the edge of `tile` in `direction` are at the same height.
    pub open spec fn spec_edge_level(&self, tile: TileCoordsXZ, direction: DirectionXZ) -> bool {
        let (a, b) = tile.spec_vertex_coords_clockwise(direction);
        self.spec_height_at(a) == self.spec_height_at(b)
    }

    pub fn new(size_x: usize, size_z: usize, height_map: Vec<Vec<Height>>) -> (r: Terrain)
        ensures
            r.spec_size_x() == size_x,
            r.spec_size_z() == size_z,
            r.heights() == height_map@.map_values(|row: Vec<Height>| row@),
    {
        Terrain { size_x, size_z, height_map }
    }

    pub fn is_valid(&self) -> (r: Result<(), String>)
        ensures
            r is Ok <==> self.spec_is_valid(),
    {
        if self.height_map.len() != self.size_z {
            return Err(String::from_str("Terrain must have one row of heights per vertex row"));
        }
        let mut i: usize = 0;
        while i < self.height_map.len()
            invariant
                i <= self.height_map@.len(),
                forall|j: int| 0 <= j < i ==> (#[trigger] self.heights()[j]).len() == self.spec_size_x(),
            decreases self.height_map.len() - i,
        {
            if self.height_map[i].len() != self.size_x {
                assert(self.heights()[i as int] == self.height_map@[i as int]@);
                return Err(String::from_str("Terrain must have one height per vertex in each row"));
            }
            i = i + 1;
        }
        Ok(())
    }

    /// The number of vertices from west to east.
    pub fn vertex_count_x(&self) -> (r: usize)
        ensures
            r == self.spec_size_x(),
    {
        self.size_x
    }

    /// The number of vertices from north to south.
    pub fn vertex_count_z(&self) -> (r: usize)
        ensures
            r == self.spec_size_z(),
    {
        self.size_z
    }

    /// The number of tiles from west to east: one fewer than the vertices, if any.
    pub open spec fn spec_tile_count_x(&self) -> int {
        if self.spec_size_x() == 0 {
            0
        } else {
            self.spec_size_x() - 1
        }
    }

    /// The number of tiles from north to south: one fewer than the vertices, if any.
    pub open spec fn spec_tile_count_z(&self) -> int {
        if self.spec_size_z() == 0 {
            0
        } else {
            self.spec_size_z() - 1
        }
    }

    /// The number of tiles from west to east.
    pub fn tile_count_x(&self) -> (r: usize)
        ensures
            r == self.spec_tile_count_x(),
    {
        if self.size_x == 0 {
            0
        } else {
            self.size_x - 1
        }
    }

    /// The number of tiles from north to south.
    pub fn tile_count_z(&self) -> (r: usize)
        ensures
            r == self.spec_tile_count_z(),
    {
        if self.size_z == 0 {
            0
        } else {
            self.size_z - 1
        }
    }

    pub fn height_at(&self, vertex: VertexCoordsXZ) -> (r: Height)
        ensures
            r == self.spec_height_at(vertex),
    {
        if vertex.z >= 0 && (vertex.z as usize) < self.height_map.len() {
            let row = &self.height_map[vertex.z as usize];
            proof {
                assert(self.heights()[vertex.z as int] == row@);
            }
            if vertex.x >= 0 && (vertex.x as usize) < row.len() {
                return row[vertex.x as usize];
            }
        }
        Height::from_u8(0)
    }

    pub fn tile_in_bounds(&self, tile: TileCoordsXZ) -> (r: bool)
        ensures
            r == self.spec_tile_in_bounds(tile),
    {
        tile.x >= 0 && tile.z >= 0 && (tile.x as usize) < self.size_x && (tile.x as usize) + 1 < self.size_x
            && (tile.z as usize) < self.size_z && (tile.z as usize) + 1 < self.size_z
    }

    /// A track can lie on `tile` when both edges it reaches are level.
    pub fn can_build_track(&self, tile: TileCoordsXZ, track_type: TrackType) -> (r: Result<(), BuildError>)
        requires
            tile.has_vertices(),
        ensures
            r == (if self.spec_edge_level(tile, track_type.ends().0) && self.spec_edge_level(
                tile,
                track_type.ends().1,
            ) {
                Ok(())
            } else {
                Err(BuildError::InvalidTerrain)
            }),
    {
        let (first, second) = track_type.connections_clockwise();
        let (a, b) = tile.vertex_coords_clockwise(first);
        let (c, d) = tile.vertex_coords_clockwise(second);
        if self.height_at(a) == self.height_at(b) && self.height_at(c) == self.height_at(d) {
            Ok(())
        } else {
            Err(BuildError::InvalidTerrain)
        }
    }
}

} // verus!
