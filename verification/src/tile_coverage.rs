use vstd::prelude::*;

use crate::tile_coords_xz::{fits_i32, tile_at, TileCoordsXZ};

verus! {

/// The tiles a building or zone covers: one tile, or a rectangle given by its corners.
#[derive(Clone, Copy, PartialEq, Eq, Structural, Debug, Hash)]
pub enum TileCoverage {
    Single(TileCoordsXZ),
    Rectangular { north_west_inclusive: TileCoordsXZ, south_east_inclusive: TileCoordsXZ },
}

/// The distance between the closest points of the integer intervals `[alo, ahi]` and `[blo, bhi]`.
pub open spec fn axis_gap(alo: int, ahi: int, blo: int, bhi: int) -> int {
    if bhi < alo {
        alo - bhi
    } else if ahi < blo {
        blo - ahi
    } else {
        0
    }
}

/// The absolute difference of two integers.
pub open spec fn abs_diff(x: int, y: int) -> int {
    if x >= y {
        x - y
    } else {
        y - x
    }
}

/// The Manhattan distance between two tiles.
pub open spec fn manhattan(a: TileCoordsXZ, b: TileCoordsXZ) -> int {
    abs_diff(a.x as int, b.x as int) + abs_diff(a.z as int, b.z as int)
}

impl TileCoverage {
    /// The north-western corner.
    pub open spec fn lo(self) -> TileCoordsXZ {
        match self {
            TileCoverage::Single(t) => t,
            TileCoverage::Rectangular { north_west_inclusive, .. } => north_west_inclusive,
        }
    }

    /// The south-eastern corner.
    pub open spec fn hi(self) -> TileCoordsXZ {
        match self {
            TileCoverage::Single(t) => t,
            TileCoverage::Rectangular { south_east_inclusive, .. } => south_east_inclusive,
        }
    }

    /// Whether `tile` is covered.
    pub open spec fn spec_contains(self, tile: TileCoordsXZ) -> bool {
        &&& self.lo().x <= tile.x <= self.hi().x
        &&& self.lo().z <= tile.z <= self.hi().z
    }

    /// Whether at least one tile is covered.
    pub open spec fn non_empty(self) -> bool {
        self.lo().x <= self.hi().x && self.lo().z <= self.hi().z
    }

    /// Whether shifting by `offset` keeps the corners representable.
    pub open spec fn can_offset_by(self, offset: TileCoordsXZ) -> bool {
        self.lo().can_offset(offset) && self.hi().can_offset(offset)
    }

    /// The coverage shifted by `offset`.
    pub open spec fn spec_offset_by(self, offset: TileCoordsXZ) -> TileCoverage {
        match self {
            TileCoverage::Single(t) => TileCoverage::Single(t.offset(offset)),
            TileCoverage::Rectangular { north_west_inclusive, south_east_inclusive } => {
                TileCoverage::Rectangular {
                    north_west_inclusive: north_west_inclusive.offset(offset),
                    south_east_inclusive: south_east_inclusive.offset(offset),
                }
            },
        }
    }

    /// The `size_x` by `size_z` rectangle centred on `center`.
    pub open spec fn spec_rectangular_odd(center: TileCoordsXZ, size_x: i32, size_z: i32) -> TileCoverage {
        TileCoverage::Rectangular {
            north_west_inclusive: tile_at(center.x - size_x / 2, center.z - size_z / 2),
            south_east_inclusive: tile_at(center.x + size_x / 2, center.z + size_z / 2),
        }
    }

    /// The Manhattan distance between the closest tiles of two coverages.
    pub open spec fn spec_distance(a: TileCoverage, b: TileCoverage) -> int {
        axis_gap(a.lo().x as int, a.hi().x as int, b.lo().x as int, b.hi().x as int) + axis_gap(
            a.lo().z as int,
            a.hi().z as int,
            b.lo().z as int,
            b.hi().z as int,
        )
    }

    pub fn single_at_zero() -> (r: TileCoverage)
        ensures
            r == TileCoverage::Single(TileCoordsXZ { x: 0, z: 0 }),
    {
        TileCoverage::Single(TileCoordsXZ::zero())
    }

    /// The `size_x` by `size_z` rectangle centred on `center`; both sizes are odd.
    pub fn rectangular_odd(center: TileCoordsXZ, size_x: i32, size_z: i32) -> (r: TileCoverage)
        requires
            size_x > 0,
            size_z > 0,
            size_x % 2 == 1,
            size_z % 2 == 1,
            fits_i32(center.x - size_x / 2),
            fits_i32(center.x + size_x / 2),
            fits_i32(center.z - size_z / 2),
            fits_i32(center.z + size_z / 2),
        ensures
            r == Self::spec_rectangular_odd(center, size_x, size_z),
            r.non_empty(),
    {
        let half_x = size_x / 2;
        let half_z = size_z / 2;
        TileCoverage::Rectangular {
            north_west_inclusive: TileCoordsXZ::new(center.x - half_x, center.z - half_z),
            south_east_inclusive: TileCoordsXZ::new(center.x + half_x, center.z + half_z),
        }
    }

    pub fn contains(&self, tile: TileCoordsXZ) -> (r: bool)
        ensures
            r == self.spec_contains(tile),
    {
        match self {
            TileCoverage::Single(t) => *t == tile,
            TileCoverage::Rectangular { north_west_inclusive, south_east_inclusive } => {
                north_west_inclusive.x <= tile.x && tile.x <= south_east_inclusive.x
                    && north_west_inclusive.z <= tile.z && tile.z <= south_east_inclusive.z
            },
        }
    }

    pub fn offset_by(&self, offset: TileCoordsXZ) -> (r: TileCoverage)
        requires
            self.can_offset_by(offset),
        ensures
            r == self.spec_offset_by(offset),
            forall|t: TileCoordsXZ| r.spec_contains(t) <==> (fits_i32(t.x - offset.x) && fits_i32(
                t.z - offset.z,
            ) && self.spec_contains(tile_at(t.x - offset.x, t.z - offset.z))),
    {
        match self {
            TileCoverage::Single(t) => TileCoverage::Single(t.plus(offset)),
            TileCoverage::Rectangular { north_west_inclusive, south_east_inclusive } => {
                TileCoverage::Rectangular {
                    north_west_inclusive: north_west_inclusive.plus(offset),
                    south_east_inclusive: south_east_inclusive.plus(offset),
                }
            },
        }
    }

    /// Every covered tile, each once.
    pub fn to_set(&self) -> (r: Vec<TileCoordsXZ>)
        ensures
            r@.no_duplicates(),
            forall|t: TileCoordsXZ| #[trigger] r@.contains(t) <==> self.spec_contains(t),
    {
        let lo = match self {
            TileCoverage::Single(t) => *t,
            TileCoverage::Rectangular { north_west_inclusive, .. } => *north_west_inclusive,
        };
        let hi = match self {
            TileCoverage::Single(t) => *t,
            TileCoverage::Rectangular { south_east_inclusive, .. } => *south_east_inclusive,
        };
        let mut result: Vec<TileCoordsXZ> = Vec::new();
        if lo.x > hi.x || lo.z > hi.z {
            return result;
        }
        let mut z: i64 = lo.z as i64;
        while z <= hi.z as i64
            invariant
                lo == self.lo(),
                hi == self.hi(),
                lo.x <= hi.x,
                lo.z <= z <= hi.z + 1,
                result@.no_duplicates(),
                forall|t: TileCoordsXZ| #[trigger] result@.contains(t) <==> (self.spec_contains(t) && t.z < z),
            decreases hi.z + 1 - z,
        {
            let mut x: i64 = lo.x as i64;
            while x <= hi.x as i64
                invariant
                    lo == self.lo(),
                    hi == self.hi(),
                    lo.z <= z <= hi.z,
                    lo.x <= x <= hi.x + 1,
                    result@.no_duplicates(),
                    forall|t: TileCoordsXZ| #[trigger] result@.contains(t) <==> (self.spec_contains(t) && (t.z
                        < z || (t.z == z && t.x < x))),
                decreases hi.x + 1 - x,
            {
                let tile = TileCoordsXZ { x: x as i32, z: z as i32 };
                proof {
                    assert(tile.x == x && tile.z == z);
                    assert(!result@.contains(tile));
                    crate::seq_util::lemma_push_no_duplicates(result@, tile);
                }
                let ghost before = result@;
                result.push(tile);
                x = x + 1;
                proof {
                    assert forall|t: TileCoordsXZ| #[trigger] result@.contains(t) <==> (
                    self.spec_contains(t) && (t.z < z || (t.z == z && t.x < x))) by {
                        assert(result@ == before.push(tile));
                        assert(before.push(tile).contains(t) <==> (before.contains(t) || t == tile));
                    }
                }
            }
            z = z + 1;
        }
        result
    }

    /// The Manhattan distance between the closest tiles of `a` and `b`.
    pub fn manhattan_distance_between_closest_tiles(a: &TileCoverage, b: &TileCoverage) -> (r: i32)
        requires
            fits_i32(Self::spec_distance(*a, *b)),
        ensures
            r == Self::spec_distance(*a, *b),
    {
        let (alo, ahi) = match a {
            TileCoverage::Single(t) => (*t, *t),
            TileCoverage::Rectangular { north_west_inclusive, south_east_inclusive } => (
                *north_west_inclusive,
                *south_east_inclusive,
            ),
        };
        let (blo, bhi) = match b {
            TileCoverage::Single(t) => (*t, *t),
            TileCoverage::Rectangular { north_west_inclusive, south_east_inclusive } => (
                *north_west_inclusive,
                *south_east_inclusive,
            ),
        };
        let gap_x: i64 = if (bhi.x as i64) < (alo.x as i64) {
            alo.x as i64 - bhi.x as i64
        } else if (ahi.x as i64) < (blo.x as i64) {
            blo.x as i64 - ahi.x as i64
        } else {
            0
        };
        let gap_z: i64 = if (bhi.z as i64) < (alo.z as i64) {
            alo.z as i64 - bhi.z as i64
        } else if (ahi.z as i64) < (blo.z as i64) {
            blo.z as i64 - ahi.z as i64
        } else {
            0
        };
        (gap_x + gap_z) as i32
    }
}

/// The gap between two non-empty intervals is the least distance between a point of one
/// and a point of the other.
pub proof fn lemma_axis_gap_is_least(alo: int, ahi: int, blo: int, bhi: int)
    requires
        alo <= ahi,
        blo <= bhi,
    ensures
        forall|x: int, y: int|
            alo <= x <= ahi && blo <= y <= bhi ==> axis_gap(alo, ahi, blo, bhi) <= #[trigger] abs_diff(x, y),
        ({
            let (x, y) = if bhi < alo {
                (alo, bhi)
            } else if ahi < blo {
                (ahi, blo)
            } else if alo >= blo {
                (alo, alo)
            } else {
                (blo, blo)
            };
            &&& alo <= x <= ahi
            &&& blo <= y <= bhi
            &&& axis_gap(alo, ahi, blo, bhi) == abs_diff(x, y)
        }),
{
}

/// The distance between two non-empty coverages is the least Manhattan distance between
/// a tile of the one and a tile of the other, and some such pair of tiles attains it.
pub proof fn lemma_distance_between_closest_tiles(a: TileCoverage, b: TileCoverage)
    requires
        a.non_empty(),
        b.non_empty(),
    ensures
        forall|ta: TileCoordsXZ, tb: TileCoordsXZ|
            a.spec_contains(ta) && b.spec_contains(tb) ==> TileCoverage::spec_distance(a, b)
                <= manhattan(ta, tb),
        exists|ta: TileCoordsXZ, tb: TileCoordsXZ|
            a.spec_contains(ta) && b.spec_contains(tb) && TileCoverage::spec_distance(a, b)
                == manhattan(ta, tb),
{
    lemma_axis_gap_is_least(a.lo().x as int, a.hi().x as int, b.lo().x as int, b.hi().x as int);
    lemma_axis_gap_is_least(a.lo().z as int, a.hi().z as int, b.lo().z as int, b.hi().z as int);
    let (ax, bx) = if b.hi().x < a.lo().x {
        (a.lo().x as int, b.hi().x as int)
    } else if a.hi().x < b.lo().x {
        (a.hi().x as int, b.lo().x as int)
    } else if a.lo().x >= b.lo().x {
        (a.lo().x as int, a.lo().x as int)
    } else {
        (b.lo().x as int, b.lo().x as int)
    };
    let (az, bz) = if b.hi().z < a.lo().z {
        (a.lo().z as int, b.hi().z as int)
    } else if a.hi().z < b.lo().z {
        (a.hi().z as int, b.lo().z as int)
    } else if a.lo().z >= b.lo().z {
        (a.lo().z as int, a.lo().z as int)
    } else {
        (b.lo().z as int, b.lo().z as int)
    };
    let ta = tile_at(ax, az);
    let tb = tile_at(bx, bz);
    assert(a.spec_contains(ta) && b.spec_contains(tb));
    assert(TileCoverage::spec_distance(a, b) == manhattan(ta, tb));
}

} // verus!
