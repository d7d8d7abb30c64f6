use vstd::prelude::*;

use crate::tile_coords_xz::{tile_at, TileCoordsXZ};
use crate::tile_coverage::TileCoverage;

verus! {

/// A rectangular grid with one value per tile, stored row by row.
#[derive(Clone, Debug, PartialEq)]
pub struct GridXZ<T> {
    size_x: usize,
    size_z: usize,
    data: Vec<T>,
}

/// The position of tile `(x, z)` in row-major storage lies within the storage.
pub proof fn lemma_index_in_range(x: int, z: int, size_x: int, size_z: int)
    by (nonlinear_arith)
    requires
        0 <= x < size_x,
        0 <= z < size_z,
    ensures
        0 <= z * size_x + x < size_x * size_z,
{
}

/// Different tiles have different positions in row-major storage.
pub proof fn lemma_index_injective(x1: int, z1: int, x2: int, z2: int, size_x: int)
    requires
        0 <= x1 < size_x,
        0 <= x2 < size_x,
        0 <= z1,
        0 <= z2,
        z1 * size_x + x1 == z2 * size_x + x2,
    ensures
        x1 == x2,
        z1 == z2,
{
    if z1 < z2 {
        assert(z1 * size_x + size_x <= z2 * size_x) by (nonlinear_arith)
            requires
                z1 < z2,
                0 < size_x,
        ;
    } else if z2 < z1 {
        assert(z2 * size_x + size_x <= z1 * size_x) by (nonlinear_arith)
            requires
                z2 < z1,
                0 < size_x,
        ;
    }
}

impl<T: Copy> View for GridXZ<T> {
    type V = Map<TileCoordsXZ, T>;

    /// The value of every tile on the grid.
    open spec fn view(&self) -> Map<TileCoordsXZ, T> {
        Map::new(|t: TileCoordsXZ| self.in_bounds(t), |t: TileCoordsXZ| self.at(t))
    }
}

impl<T: Copy> GridXZ<T> {
    pub closed spec fn size_x(self) -> nat {
        self.size_x as nat
    }

    pub closed spec fn size_z(self) -> nat {
        self.size_z as nat
    }

    /// The storage holds exactly one value per tile.
    pub closed spec fn wf(self) -> bool {
        self.data@.len() == self.size_x * self.size_z
    }

    /// Whether `tile` lies on the grid.
    pub open spec fn in_bounds(self, tile: TileCoordsXZ) -> bool {
        0 <= tile.x < self.size_x() && 0 <= tile.z < self.size_z()
    }

    /// The value at `tile` (meaningful when `tile` is in bounds).
    pub closed spec fn at(self, tile: TileCoordsXZ) -> T {
        self.data@[tile.z * self.size_x + tile.x]
    }

    /// The value at `tile`, or `None` off the grid.
    pub open spec fn spec_get(self, tile: TileCoordsXZ) -> Option<T> {
        if self.in_bounds(tile) {
            Some(self.at(tile))
        } else {
            None
        }
    }

    /// The number of tiles from west to east and from north to south.
    pub fn dimensions(&self) -> (r: (usize, usize))
        ensures
            r.0 == self.size_x(),
            r.1 == self.size_z(),
    {
        (self.size_x, self.size_z)
    }

    /// A `size_x` by `size_z` grid with `value` on every tile.
    pub fn filled_with(size_x: usize, size_z: usize, value: T) -> (r: GridXZ<T>)
        requires
            size_x * size_z <= usize::MAX,
        ensures
            r.wf(),
            r.size_x() == size_x,
            r.size_z() == size_z,
            forall|t: TileCoordsXZ| r.in_bounds(t) ==> #[trigger] r.at(t) == value,
    {
        let n: usize = size_x * size_z;
        let mut data: Vec<T> = Vec::new();
        let mut i: usize = 0;
        while i < n
            invariant
                i <= n,
                data@.len() == i,
                forall|j: int| 0 <= j < i ==> #[trigger] data@[j] == value,
            decreases n - i,
        {
            data.push(value);
            i = i + 1;
        }
        let r = GridXZ { size_x, size_z, data };
        proof {
            assert forall|t: TileCoordsXZ| r.in_bounds(t) implies #[trigger] r.at(t) == value by {
                lemma_index_in_range(t.x as int, t.z as int, size_x as int, size_z as int);
            }
        }
        r
    }

    pub fn get(&self, tile: TileCoordsXZ) -> (r: Option<T>)
        requires
            self.wf(),
        ensures
            r == self.spec_get(tile),
    {
        if tile.x < 0 || tile.z < 0 {
            return None;
        }
        let x = tile.x as usize;
        let z = tile.z as usize;
        if x >= self.size_x || z >= self.size_z {
            return None;
        }
        let n = self.data.len();
        proof {
            lemma_index_in_range(x as int, z as int, self.size_x as int, self.size_z as int);
            assert(z * self.size_x + x < n);
        }
        Some(self.data[z * self.size_x + x])
    }

    /// Puts `value` at `tile`, leaving every other tile as it was.
    pub fn set(&mut self, tile: TileCoordsXZ, value: T)
        requires
            old(self).wf(),
            old(self).in_bounds(tile),
        ensures
            final(self).wf(),
            final(self).size_x() == old(self).size_x(),
            final(self).size_z() == old(self).size_z(),
            final(self).at(tile) == value,
            forall|u: TileCoordsXZ|
                old(self).in_bounds(u) && u != tile ==> #[trigger] final(self).at(u) == old(self).at(u),
    {
        let x = tile.x as usize;
        let z = tile.z as usize;
        let n = self.data.len();
        proof {
            lemma_index_in_range(x as int, z as int, self.size_x as int, self.size_z as int);
            assert(z * self.size_x + x < n);
        }
        let i = z * self.size_x + x;
        self.data.set(i, value);
        proof {
            assert forall|u: TileCoordsXZ|
                old(self).in_bounds(u) && u != tile implies #[trigger] self.at(u) == old(self).at(u) by {
                lemma_index_in_range(u.x as int, u.z as int, self.size_x as int, self.size_z as int);
                if u.z * self.size_x + u.x == i {
                    lemma_index_injective(
                        u.x as int,
                        u.z as int,
                        x as int,
                        z as int,
                        self.size_x as int,
                    );
                }
            }
        }
    }

    /// Every tile of the grid, row by row.
    pub fn coords(&self) -> (r: Vec<TileCoordsXZ>)
        requires
            self.size_x() <= i32::MAX,
            self.size_z() <= i32::MAX,
        ensures
            r@.no_duplicates(),
            forall|t: TileCoordsXZ| #[trigger] r@.contains(t) <==> self.in_bounds(t),
    {
        let mut result: Vec<TileCoordsXZ> = Vec::new();
        let mut z: usize = 0;
        while z < self.size_z
            invariant
                self.size_x() <= i32::MAX,
                self.size_z() <= i32::MAX,
                z <= self.size_z,
                result@.no_duplicates(),
                forall|t: TileCoordsXZ| #[trigger] result@.contains(t) <==> (self.in_bounds(t) && t.z < z),
            decreases self.size_z - z,
        {
            let mut x: usize = 0;
            while x < self.size_x
                invariant
                    self.size_x() <= i32::MAX,
                    self.size_z() <= i32::MAX,
                    z < self.size_z,
                    x <= self.size_x,
                    result@.no_duplicates(),
                    forall|t: TileCoordsXZ| #[trigger] result@.contains(t) <==> (self.in_bounds(t) && (t.z
                        < z || (t.z == z && t.x < x))),
                decreases self.size_x - x,
            {
                let tile = TileCoordsXZ { x: x as i32, z: z as i32 };
                proof {
                    assert(tile.x == x && tile.z == z);
                    assert(!result@.contains(tile));
                    crate::seq_util::lemma_push_no_duplicates(result@, tile);
                }
                let ghost before = result@;
                result.push(tile);
                x = x + 1;
                proof {
                    assert forall|t: TileCoordsXZ| #[trigger] result@.contains(t) <==> (self.in_bounds(t)
                        && (t.z < z || (t.z == z && t.x < x))) by {
                        assert(result@ == before.push(tile));
                        assert(before.push(tile).contains(t) <==> (before.contains(t) || t == tile));
                    }
                }
            }
            z = z + 1;
        }
        result
    }

    /// Puts `value` on every tile of `coverage`, which must lie on the grid.
    pub fn fill(&mut self, coverage: &TileCoverage, value: T)
        requires
            old(self).wf(),
            forall|t: TileCoordsXZ| coverage.spec_contains(t) ==> old(self).in_bounds(t),
        ensures
            final(self).wf(),
            final(self).size_x() == old(self).size_x(),
            final(self).size_z() == old(self).size_z(),
            final(self)@ == Map::new(
                |t: TileCoordsXZ| old(self).in_bounds(t),
                |t: TileCoordsXZ|
                    if coverage.spec_contains(t) {
                        value
                    } else {
                        old(self)@[t]
                    },
            ),
    {
        let tiles = coverage.to_set();
        let mut i: usize = 0;
        while i < tiles.len()
            invariant
                self.wf(),
                self.size_x() == old(self).size_x(),
                self.size_z() == old(self).size_z(),
                i <= tiles.len(),
                forall|t: TileCoordsXZ| #[trigger] tiles@.contains(t) <==> coverage.spec_contains(t),
                forall|t: TileCoordsXZ| coverage.spec_contains(t) ==> old(self).in_bounds(t),
                forall|t: TileCoordsXZ|
                    old(self).in_bounds(t) ==> #[trigger] self.at(t) == (if tiles@.take(i as int).contains(t) {
                        value
                    } else {
                        old(self).at(t)
                    }),
            decreases tiles.len() - i,
        {
            let tile = tiles[i];
            proof {
                assert(tiles@.contains(tile));
            }
            self.set(tile, value);
            proof {
                assert forall|t: TileCoordsXZ| #[trigger] tiles@.take(i as int + 1).contains(t) <==> (
                tiles@.take(i as int).contains(t) || t == tile) by {
                    assert(tiles@.take(i as int + 1) =~= tiles@.take(i as int).push(tile));
                    crate::seq_util::lemma_push_contains(tiles@.take(i as int), tile, t);
                }
            }
            i = i + 1;
        }
        proof {
            crate::seq_util::lemma_take_full(tiles@);
            assert(self@ =~= Map::new(
                |t: TileCoordsXZ| old(self).in_bounds(t),
                |t: TileCoordsXZ|
                    if coverage.spec_contains(t) {
                        value
                    } else {
                        old(self)@[t]
                    },
            ));
        }
    }
}

} // verus!
