use vstd::prelude::*;

use crate::building::building_info::WithTileCoverage;
use crate::building::industry_building_info::IndustryBuildingInfo;
use crate::building::station_info::StationInfo;
use crate::building::BuildError;
use crate::map_level::terrain::Terrain;
use crate::map_level::zoning::Zoning;
use crate::tile_coords_xz::TileCoordsXZ;
use crate::tile_coverage::TileCoverage;
use crate::transport::track_type::TrackType;
use crate::vertex_coords_xz::VertexCoordsXZ;
use crate::water::Water;

verus! {

/// The kind of ground on a tile.
#[derive(Clone, Copy, PartialEq, Eq, Structural, Debug)]
pub enum TerrainType {
    Sand,
    Grass,
    Rocks,
}

impl TerrainType {
    /// The letter that stands for the terrain type in map files.
    pub open spec fn spec_as_char(self) -> char {
        match self {
            TerrainType::Sand => 'S',
            TerrainType::Grass => 'G',
            TerrainType::Rocks => 'R',
        }
    }

    /// The terrain type for a letter of a map file, if it stands for one.
    pub open spec fn spec_from_char(c: char) -> Option<TerrainType> {
        if c == 'S' {
            Some(TerrainType::Sand)
        } else if c == 'G' {
            Some(TerrainType::Grass)
        } else if c == 'R' {
            Some(TerrainType::Rocks)
        } else {
            None
        }
    }

    pub fn as_char(&self) -> (r: char)
        ensures
            r == self.spec_as_char(),
    {
        match self {
            TerrainType::Sand => 'S',
            TerrainType::Grass => 'G',
            TerrainType::Rocks => 'R',
        }
    }

    pub fn from_char(c: char) -> (r: Option<TerrainType>)
        ensures
            r == Self::spec_from_char(c),
    {
        if c == 'S' {
            Some(TerrainType::Sand)
        } else if c == 'G' {
            Some(TerrainType::Grass)
        } else if c == 'R' {
            Some(TerrainType::Rocks)
        } else {
            None
        }
    }

    /// The index of the terrain type's layer in the land texture.
    pub fn as_u32(&self) -> (r: u32)
        ensures
            r == (match self {
                TerrainType::Sand => 0u32,
                TerrainType::Grass => 1u32,
                TerrainType::Rocks => 2u32,
            }),
    {
        match self {
            TerrainType::Sand => 0,
            TerrainType::Grass => 1,
            TerrainType::Rocks => 2,
        }
    }

    pub fn fallback() -> (r: TerrainType)
        ensures
            r == TerrainType::Grass,
    {
        TerrainType::Grass
    }

    /// The terrain type of ground at `height`: sand up to 9, grass up to 15, rocks above.
    pub fn default_from_height(height: Height) -> (r: TerrainType)
        ensures
            r == (if height.spec_as_u8() <= 9 {
                TerrainType::Sand
            } else if height.spec_as_u8() <= 15 {
                TerrainType::Grass
            } else {
                TerrainType::Rocks
            }),
    {
        if height.0 <= 9 {
            TerrainType::Sand
        } else if height.0 <= 15 {
            TerrainType::Grass
        } else {
            TerrainType::Rocks
        }
    }
}

/// Reading back the letter of a terrain type gives that terrain type, and a letter that
/// reads as a terrain type is that terrain type's letter.
pub proof fn lemma_terrain_char_round_trip(terrain: TerrainType, c: char)
    ensures
        TerrainType::spec_from_char(terrain.spec_as_char()) == Some(terrain),
        TerrainType::spec_from_char(c) matches Some(t) ==> t.spec_as_char() == c,
{
}

/// A height read back as a number is the number it was made from, and a height made from
/// its own number is that height: heights and their numbers correspond one to one.
pub proof fn lemma_height_u8_round_trip(value: u8, height: Height)
    ensures
        Height::spec_from_u8(value).spec_as_u8() == value,
        Height::spec_from_u8(height.spec_as_u8()) == height,
        Height::spec_from_u8(value) == height <==> height.spec_as_u8() == value,
{
}

/// The height of a vertex of the map.
#[derive(Clone, Copy, Debug, PartialEq, Eq, Structural, Hash, PartialOrd, Ord)]
pub struct Height(u8);

/// The sum of the values of `heights`.
pub open spec fn height_sum(heights: Seq<Height>) -> int
    decreases heights.len(),
{
    if heights.len() == 0 {
        0
    } else {
        height_sum(heights.drop_last()) + heights.last().spec_as_u8()
    }
}

/// The mean of `heights` rounded to the nearest whole height, halves upwards; 0 for none.
pub open spec fn rounded_average(heights: Seq<Height>) -> int {
    if heights.len() == 0 {
        0
    } else {
        (2 * height_sum(heights) + heights.len()) / (2 * heights.len() as int)
    }
}

impl Height {
    pub closed spec fn spec_as_u8(self) -> u8 {
        self.0
    }

    pub closed spec fn spec_from_u8(height: u8) -> Height {
        Height(height)
    }

    pub fn from_u8(height: u8) -> (r: Height)
        ensures
            r == Self::spec_from_u8(height),
            r.spec_as_u8() == height,
    {
        Height(height)
    }

    pub fn fallback() -> (r: Height)
        ensures
            r == Self::spec_from_u8(0),
            r.spec_as_u8() == 0,
    {
        Height(0)
    }

    pub fn as_u8(self) -> (r: u8)
        ensures
            r == self.spec_as_u8(),
    {
        self.0
    }

    /// The sum of two heights.
    pub fn plus(self, rhs: Height) -> (r: Height)
        requires
            self.spec_as_u8() + rhs.spec_as_u8() <= u8::MAX,
        ensures
            r.spec_as_u8() == self.spec_as_u8() + rhs.spec_as_u8(),
    {
        Height(self.0 + rhs.0)
    }

    /// The mean of `heights`, rounded to the nearest whole height with halves upwards;
    /// the lowest height when there are none.
    pub fn average_rounded(heights: &[Height]) -> (r: Height)
        ensures
            r.spec_as_u8() == rounded_average(heights@),
    {
        let mut sum: u128 = 0;
        let mut i: usize = 0;
        while i < heights.len()
            invariant
                i <= heights.len(),
                sum == height_sum(heights@.take(i as int)),
                sum <= 255 * i,
            decreases heights.len() - i,
        {
            proof {
                assert(heights@.take(i as int + 1).drop_last() =~= heights@.take(i as int));
            }
            sum = sum + heights[i].0 as u128;
            i = i + 1;
        }
        proof {
            crate::seq_util::lemma_take_full(heights@);
        }
        if heights.len() == 0 {
            return Height(0);
        }
        let len = heights.len() as u128;
        let rounded = (2 * sum + len) / (2 * len);
        proof {
            assert(rounded <= 255) by (nonlinear_arith)
                requires
                    rounded == (2 * sum + len) / (2 * len),
                    sum <= 255 * len,
                    len > 0,
            ;
        }
        Height(rounded as u8)
    }
}

/// A map: its terrain, its water level and its zonings.
#[derive(Clone, Debug, PartialEq)]
pub struct MapLevel {
    terrain: Terrain,
    water: Water,
    zoning: Zoning,
}

impl MapLevel {
    pub closed spec fn spec_terrain(&self) -> Terrain {
        self.terrain
    }

    pub closed spec fn spec_water(&self) -> Water {
        self.water
    }

    pub closed spec fn spec_zoning(&self) -> Zoning {
        self.zoning
    }

    pub open spec fn wf(&self) -> bool {
        self.spec_zoning().wf()
    }

    /// The height of corner `k` (clockwise from the north-west one) of `tile`.
    pub open spec fn corner_height(&self, tile: TileCoordsXZ, k: int) -> Height {
        self.spec_terrain().spec_height_at(tile.spec_vertex_coords()[k])
    }

    /// Whether corner `k` of `tile` is under water.
    pub open spec fn corner_under_water(&self, tile: TileCoordsXZ, k: int) -> bool {
        self.spec_water().spec_under_water(self.corner_height(tile, k))
    }

    /// Whether some corner of `tile` is under water.
    pub open spec fn tile_under_water(&self, tile: TileCoordsXZ) -> bool {
        exists|k: int| 0 <= k < 4 && #[trigger] self.corner_under_water(tile, k)
    }

    /// A track of `track_type` can be built on `tile` when no corner of the tile is under
    /// water, the edges it reaches are level and no zoning covers the tile.
    pub open spec fn spec_can_build_track(&self, tile: TileCoordsXZ, track_type: TrackType) -> Result<
        (),
        BuildError,
    > {
        if self.tile_under_water(tile) {
            Err(BuildError::InvalidTerrain)
        } else if !(self.spec_terrain().spec_edge_level(tile, track_type.ends().0)
            && self.spec_terrain().spec_edge_level(tile, track_type.ends().1)) {
            Err(BuildError::InvalidTerrain)
        } else {
            self.spec_zoning().spec_can_build_track(tile)
        }
    }

    /// Something can stand on `coverage` when all its tiles are on the map, none of their
    /// corners is under water and all their corners are at one height.
    pub open spec fn spec_coverage_buildable(&self, coverage: TileCoverage) -> bool {
        &&& forall|t: TileCoordsXZ| coverage.spec_contains(t) ==> #[trigger] self.spec_terrain().spec_tile_in_bounds(t)
        &&& forall|t: TileCoordsXZ, k: int|
            coverage.spec_contains(t) && 0 <= k < 4 ==> !#[trigger] self.corner_under_water(t, k)
        &&& forall|t1: TileCoordsXZ, k1: int, t2: TileCoordsXZ, k2: int|
            coverage.spec_contains(t1) && coverage.spec_contains(t2) && 0 <= k1 < 4 && 0 <= k2 < 4
                ==> #[trigger] self.corner_height(t1, k1) == #[trigger] self.corner_height(t2, k2)
    }

    /// An industry building can stand where its zoning allows it and its tiles can be built on.
    pub open spec fn spec_can_build_industry_building(&self, info: IndustryBuildingInfo) -> Result<
        (),
        BuildError,
    > {
        match self.spec_zoning().spec_can_build_industry_building(info) {
            Err(e) => Err(e),
            Ok(()) => if self.spec_coverage_buildable(info.spec_covers_tiles()) {
                Ok(())
            } else {
                Err(BuildError::InvalidTerrain)
            },
        }
    }

    /// A station can stand where no zoning is in the way and its tiles can be built on.
    pub open spec fn spec_can_build_station(&self, info: StationInfo) -> Result<(), BuildError> {
        match self.spec_zoning().spec_can_build_station(info) {
            Err(e) => Err(e),
            Ok(()) => if self.spec_coverage_buildable(info.spec_covers_tiles()) {
                Ok(())
            } else {
                Err(BuildError::InvalidTerrain)
            },
        }
    }

    /// Every tile of `coverage` has representable corners.
    pub open spec fn coverage_has_vertices(coverage: TileCoverage) -> bool {
        forall|t: TileCoordsXZ| coverage.spec_contains(t) ==> #[trigger] t.has_vertices()
    }

    pub fn new(terrain: Terrain, water: Water, zoning: Zoning) -> (r: MapLevel)
        ensures
            r.spec_terrain() == terrain,
            r.spec_water() == water,
            r.spec_zoning() == zoning,
    {
        MapLevel { terrain, water, zoning }
    }

    /// The terrain's shape is valid, and so is the water level.
    pub fn is_valid(&self) -> (r: Result<(), String>)
        ensures
            r is Ok <==> (self.spec_terrain().spec_is_valid() && self.spec_water().spec_is_valid()),
    {
        self.terrain.is_valid()?;
        self.water.is_valid()?;
        Ok(())
    }

    pub fn terrain(&self) -> (r: &Terrain)
        ensures
            *r == self.spec_terrain(),
    {
        &self.terrain
    }

    pub fn water(&self) -> (r: &Water)
        ensures
            *r == self.spec_water(),
    {
        &self.water
    }

    pub fn zoning(&self) -> (r: &Zoning)
        ensures
            *r == self.spec_zoning(),
    {
        &self.zoning
    }

    pub fn height_at(&self, vertex_coords_xz: VertexCoordsXZ) -> (r: Height)
        ensures
            r == self.spec_terrain().spec_height_at(vertex_coords_xz),
    {
        self.terrain.height_at(vertex_coords_xz)
    }

    pub fn under_water(&self, vertex_coords_xz: VertexCoordsXZ) -> (r: bool)
        ensures
            r == self.spec_water().spec_under_water(self.spec_terrain().spec_height_at(vertex_coords_xz)),
    {
        self.water.under_water(self.height_at(vertex_coords_xz))
    }

    pub fn tile_in_bounds(&self, tile: TileCoordsXZ) -> (r: bool)
        ensures
            r == self.spec_terrain().spec_tile_in_bounds(tile),
    {
        self.terrain.tile_in_bounds(tile)
    }

    /// Whether some corner of `tile` is under water.
    fn any_corner_under_water(&self, tile: TileCoordsXZ) -> (r: bool)
        requires
            tile.has_vertices(),
        ensures
            r == self.tile_under_water(tile),
    {
        let corners = tile.vertex_coords();
        let mut i: usize = 0;
        while i < 4
            invariant
                i <= 4,
                corners@ == tile.spec_vertex_coords(),
                forall|k: int| 0 <= k < i ==> !#[trigger] self.corner_under_water(tile, k),
            decreases 4 - i,
        {
            if self.under_water(corners[i]) {
                assert(self.corner_under_water(tile, i as int));
                return true;
            }
            i = i + 1;
        }
        false
    }

    pub fn can_build_track(&self, tile: TileCoordsXZ, track_type: TrackType) -> (r: Result<(), BuildError>)
        requires
            self.wf(),
            tile.has_vertices(),
        ensures
            r == self.spec_can_build_track(tile, track_type),
    {
        if self.any_corner_under_water(tile) {
            return Err(BuildError::InvalidTerrain);
        }
        self.terrain.can_build_track(tile, track_type)?;
        self.zoning.can_build_track(tile)?;
        Ok(())
    }

    pub fn can_build_industry_building(&self, industry_building_info: &IndustryBuildingInfo) -> (r: Result<
        (),
        BuildError,
    >)
        requires
            self.wf(),
            industry_building_info.valid(),
            Self::coverage_has_vertices(industry_building_info.spec_covers_tiles()),
        ensures
            r == self.spec_can_build_industry_building(*industry_building_info),
    {
        self.zoning.can_build_industry_building(industry_building_info)?;
        self.can_build_for_coverage(&industry_building_info.covers_tiles())?;
        Ok(())
    }

    pub fn can_build_station(&self, station_info: &StationInfo) -> (r: Result<(), BuildError>)
        requires
            self.wf(),
            station_info.valid(),
            Self::coverage_has_vertices(station_info.spec_covers_tiles()),
        ensures
            r == self.spec_can_build_station(*station_info),
    {
        self.zoning.can_build_station(station_info)?;
        self.can_build_for_coverage(&station_info.covers_tiles())?;
        Ok(())
    }

    fn can_build_for_coverage(&self, tile_coverage: &TileCoverage) -> (r: Result<(), BuildError>)
        requires
            Self::coverage_has_vertices(*tile_coverage),
        ensures
            r == (if self.spec_coverage_buildable(*tile_coverage) {
                Ok(())
            } else {
                Err(BuildError::InvalidTerrain)
            }),
    {
        let tiles = tile_coverage.to_set();
        if tiles.len() == 0 {
            proof {
                assert forall|t: TileCoordsXZ| !tile_coverage.spec_contains(t) by {
                    if tile_coverage.spec_contains(t) {
                        assert(tiles@.contains(t));
                    }
                }
            }
            return Ok(());
        }
        let first = tiles[0];
        assert(tiles@.contains(first));
        let reference = self.height_at(first.vertex_coords()[0]);
        let mut out_of_bounds = false;
        let mut under_water = false;
        let mut equal_heights = true;
        let mut i: usize = 0;
        while i < tiles.len()
            invariant
                i <= tiles.len(),
                tiles@.len() > 0,
                forall|t: TileCoordsXZ| #[trigger] tiles@.contains(t) <==> tile_coverage.spec_contains(t),
                Self::coverage_has_vertices(*tile_coverage),
                reference == self.corner_height(tiles@[0], 0),
                out_of_bounds == exists|j: int|
                    0 <= j < i && !self.spec_terrain().spec_tile_in_bounds(#[trigger] tiles@[j]),
                under_water == exists|j: int, k: int|
                    0 <= j < i && 0 <= k < 4 && #[trigger] self.corner_under_water(tiles@[j], k),
                equal_heights == forall|j: int, k: int|
                    0 <= j < i && 0 <= k < 4 ==> #[trigger] self.corner_height(tiles@[j], k) == reference,
            decreases tiles.len() - i,
        {
            let tile = tiles[i];
            assert(tiles@.contains(tile));
            if !self.tile_in_bounds(tile) {
                out_of_bounds = true;
            }
            let corners = tile.vertex_coords();
            let mut k: usize = 0;
            while k < 4
                invariant
                    k <= 4,
                    i < tiles.len(),
                    tile == tiles@[i as int],
                    corners@ == tile.spec_vertex_coords(),
                    under_water == ((exists|j: int, m: int|
                        0 <= j < i && 0 <= m < 4 && #[trigger] self.corner_under_water(tiles@[j], m)) || (exists|
                        m: int,
                    | 0 <= m < k && #[trigger] self.corner_under_water(tile, m))),
                    equal_heights == ((forall|j: int, m: int|
                        0 <= j < i && 0 <= m < 4 ==> #[trigger] self.corner_height(tiles@[j], m) == reference)
                        && (forall|m: int| 0 <= m < k ==> #[trigger] self.corner_height(tile, m) == reference)),
                decreases 4 - k,
            {
                let height = self.height_at(corners[k]);
                assert(height == self.corner_height(tile, k as int));
                if self.water.under_water(height) {
                    assert(self.corner_under_water(tile, k as int));
                    under_water = true;
                }
                if height != reference {
                    equal_heights = false;
                }
                k = k + 1;
            }
            proof {
                let ghost before = exists|j: int, m: int|
                    0 <= j < i && 0 <= m < 4 && #[trigger] self.corner_under_water(tiles@[j], m);
                let ghost here = exists|m: int| 0 <= m < 4 && #[trigger] self.corner_under_water(tile, m);
                let ghost after = exists|j: int, m: int|
                    0 <= j < i + 1 && 0 <= m < 4 && #[trigger] self.corner_under_water(tiles@[j], m);
                if before {
                    let (j, m) = choose|j: int, m: int|
                        0 <= j < i && 0 <= m < 4 && #[trigger] self.corner_under_water(tiles@[j], m);
                    assert(0 <= j < i + 1 && 0 <= m < 4 && self.corner_under_water(tiles@[j], m));
                    assert(after);
                }
                if here {
                    let m = choose|m: int| 0 <= m < 4 && #[trigger] self.corner_under_water(tile, m);
                    assert(self.corner_under_water(tiles@[i as int], m));
                    assert(after);
                }
                if after {
                    let (j, m) = choose|j: int, m: int|
                        0 <= j < i + 1 && 0 <= m < 4 && #[trigger] self.corner_under_water(tiles@[j], m);
                    if j == i {
                        assert(self.corner_under_water(tile, m));
                        assert(here);
                    } else {
                        assert(before);
                    }
                }
                if under_water && !before {
                    let m = choose|m: int| 0 <= m < k && #[trigger] self.corner_under_water(tile, m);
                    assert(here);
                }
                if here {
                    let m = choose|m: int| 0 <= m < 4 && #[trigger] self.corner_under_water(tile, m);
                    assert(0 <= m < k && self.corner_under_water(tile, m));
                }
                assert(under_water == after);
                assert(equal_heights == forall|j: int, m: int|
                    0 <= j < i + 1 && 0 <= m < 4 ==> #[trigger] self.corner_height(tiles@[j], m) == reference) by {
                    if !equal_heights {
                        if exists|m: int| 0 <= m < 4 && #[trigger] self.corner_height(tile, m) != reference {
                            let m = choose|m: int| 0 <= m < 4 && #[trigger] self.corner_height(tile, m) != reference;
                            assert(self.corner_height(tiles@[i as int], m) != reference);
                        }
                    }
                }
                assert(out_of_bounds == exists|j: int|
                    0 <= j < i + 1 && !self.spec_terrain().spec_tile_in_bounds(#[trigger] tiles@[j])) by {
                    if out_of_bounds && !self.spec_terrain().spec_tile_in_bounds(tile) {
                        assert(!self.spec_terrain().spec_tile_in_bounds(tiles@[i as int]));
                    }
                }
            }
            i = i + 1;
        }
        proof {
            let buildable = self.spec_coverage_buildable(*tile_coverage);
            if !out_of_bounds && !under_water && equal_heights {
                assert forall|t: TileCoordsXZ| tile_coverage.spec_contains(t) implies #[trigger] self.spec_terrain().spec_tile_in_bounds(t) by {
                    assert(tiles@.contains(t));
                    let j = choose|j: int| 0 <= j < tiles@.len() && tiles@[j] == t;
                    assert(self.spec_terrain().spec_tile_in_bounds(tiles@[j]));
                }
                assert forall|t: TileCoordsXZ, k: int|
                    tile_coverage.spec_contains(t) && 0 <= k < 4 implies !#[trigger] self.corner_under_water(t, k) by {
                    assert(tiles@.contains(t));
                    let j = choose|j: int| 0 <= j < tiles@.len() && tiles@[j] == t;
                    assert(!self.corner_under_water(tiles@[j], k));
                }
                assert forall|t1: TileCoordsXZ, k1: int, t2: TileCoordsXZ, k2: int|
                    tile_coverage.spec_contains(t1) && tile_coverage.spec_contains(t2) && 0 <= k1 < 4 && 0 <= k2 < 4
                        implies #[trigger] self.corner_height(t1, k1) == #[trigger] self.corner_height(t2, k2) by {
                    assert(tiles@.contains(t1));
                    assert(tiles@.contains(t2));
                    let j1 = choose|j: int| 0 <= j < tiles@.len() && tiles@[j] == t1;
                    let j2 = choose|j: int| 0 <= j < tiles@.len() && tiles@[j] == t2;
                    assert(self.corner_height(tiles@[j1], k1) == reference);
                    assert(self.corner_height(tiles@[j2], k2) == reference);
                }
                assert(buildable);
            } else {
                if out_of_bounds {
                    let j = choose|j: int| 0 <= j < tiles@.len() && !self.spec_terrain().spec_tile_in_bounds(#[trigger] tiles@[j]);
                    assert(tiles@.contains(tiles@[j]));
                } else if under_water {
                    let (j, k) = choose|j: int, k: int|
                        0 <= j < tiles@.len() && 0 <= k < 4 && #[trigger] self.corner_under_water(tiles@[j], k);
                    assert(tiles@.contains(tiles@[j]));
                } else {
                    let (j, k) = choose|j: int, k: int|
                        0 <= j < tiles@.len() && 0 <= k < 4 && #[trigger] self.corner_height(tiles@[j], k) != reference;
                    assert(tiles@.contains(tiles@[j]));
                    assert(tiles@.contains(tiles@[0]));
                    assert(self.corner_height(tiles@[j], k) != self.corner_height(tiles@[0], 0));
                }
                assert(!buildable);
            }
        }
        if !out_of_bounds && !under_water && equal_heights {
            Ok(())
        } else {
            Err(BuildError::InvalidTerrain)
        }
    }
}

/// The vertex `dx` tiles east and `dz` tiles south of the north-west corner of `tile`; for
/// `dx` and `dz` in `{0, 1}` these are the tile's four corners.
pub open spec fn tile_corner(tile: TileCoordsXZ, dx: int, dz: int) -> VertexCoordsXZ {
    VertexCoordsXZ { x: (tile.x + dx) as i32, z: (tile.z + dz) as i32 }
}

/// Corner `(dx, dz)` of `tile` is the one that the map's corner numbering names.
proof fn lemma_tile_corner_numbered(map: MapLevel, tile: TileCoordsXZ, dx: int, dz: int) -> (k: int)
    requires
        0 <= dx <= 1,
        0 <= dz <= 1,
    ensures
        k == (if dz == 0 {
            dx
        } else {
            3 - dx
        }),
        map.corner_height(tile, k) == map.spec_terrain().spec_height_at(tile_corner(tile, dx, dz)),
{
    let k = if dz == 0 {
        dx
    } else {
        3 - dx
    };
    assert(tile.spec_vertex_coords()[k] == tile_corner(tile, dx, dz));
    k
}

/// Whether the vertex `v` of the map lies at or below the lower water height.
pub open spec fn vertex_flooded(map: MapLevel, v: VertexCoordsXZ) -> bool {
    map.spec_terrain().spec_height_at(v).spec_as_u8() <= map.spec_water().between.0.spec_as_u8()
}

/// Nothing can stand on tiles of which a corner is flooded, which lie off the map, or whose
/// corners are not all at one height: a station or an industry building there is refused,
/// with `InvalidTerrain` once its zoning allows it.
pub proof fn lemma_buildings_need_dry_flat_land(
    map: MapLevel,
    station: StationInfo,
    industry: IndustryBuildingInfo,
    t1: TileCoordsXZ,
    dx1: int,
    dz1: int,
    t2: TileCoordsXZ,
    dx2: int,
    dz2: int,
)
    requires
        0 <= dx1 <= 1,
        0 <= dz1 <= 1,
        0 <= dx2 <= 1,
        0 <= dz2 <= 1,
    ensures
        ({
            let coverage = station.spec_covers_tiles();
            let refused = coverage.spec_contains(t1) && (vertex_flooded(map, tile_corner(t1, dx1, dz1))
                || !(0 <= t1.x && t1.x + 1 < map.spec_terrain().spec_size_x() && 0 <= t1.z && t1.z + 1
                < map.spec_terrain().spec_size_z()) || (coverage.spec_contains(t2)
                && map.spec_terrain().spec_height_at(tile_corner(t1, dx1, dz1)) != map.spec_terrain().spec_height_at(
                tile_corner(t2, dx2, dz2),
            )));
            &&& refused ==> map.spec_can_build_station(station) is Err
            &&& refused && map.spec_zoning().spec_can_build_station(station) is Ok ==> map.spec_can_build_station(
                station,
            ) == Err::<(), BuildError>(BuildError::InvalidTerrain)
        }),
        ({
            let coverage = industry.spec_covers_tiles();
            let refused = coverage.spec_contains(t1) && (vertex_flooded(map, tile_corner(t1, dx1, dz1))
                || !(0 <= t1.x && t1.x + 1 < map.spec_terrain().spec_size_x() && 0 <= t1.z && t1.z + 1
                < map.spec_terrain().spec_size_z()) || (coverage.spec_contains(t2)
                && map.spec_terrain().spec_height_at(tile_corner(t1, dx1, dz1)) != map.spec_terrain().spec_height_at(
                tile_corner(t2, dx2, dz2),
            )));
            &&& refused ==> map.spec_can_build_industry_building(industry) is Err
            &&& refused && map.spec_zoning().spec_can_build_industry_building(industry) is Ok
                ==> map.spec_can_build_industry_building(industry) == Err::<(), BuildError>(
                BuildError::InvalidTerrain,
            )
        }),
{
    let k1 = lemma_tile_corner_numbered(map, t1, dx1, dz1);
    let k2 = lemma_tile_corner_numbered(map, t2, dx2, dz2);
    assert(map.corner_under_water(t1, k1) == vertex_flooded(map, tile_corner(t1, dx1, dz1)));
    assert(map.spec_terrain().spec_tile_in_bounds(t1) == (0 <= t1.x && t1.x + 1 < map.spec_terrain().spec_size_x()
        && 0 <= t1.z && t1.z + 1 < map.spec_terrain().spec_size_z()));
    if station.spec_covers_tiles().spec_contains(t1) && station.spec_covers_tiles().spec_contains(t2) {
        assert(map.corner_height(t1, k1) == map.corner_height(t2, k2) || !map.spec_coverage_buildable(
            station.spec_covers_tiles(),
        ));
    }
    if industry.spec_covers_tiles().spec_contains(t1) && industry.spec_covers_tiles().spec_contains(t2) {
        assert(map.corner_height(t1, k1) == map.corner_height(t2, k2) || !map.spec_coverage_buildable(
            industry.spec_covers_tiles(),
        ));
    }
}

/// Whether the two corners at the ends of the side of `tile` in `direction` are at the
/// same height.
pub open spec fn side_level(map: MapLevel, tile: TileCoordsXZ, direction: crate::direction_xz::DirectionXZ) -> bool {
    let h = |dx: int, dz: int| map.spec_terrain().spec_height_at(tile_corner(tile, dx, dz));
    match direction {
        crate::direction_xz::DirectionXZ::North => h(0, 0) == h(1, 0),
        crate::direction_xz::DirectionXZ::East => h(1, 0) == h(1, 1),
        crate::direction_xz::DirectionXZ::South => h(1, 1) == h(0, 1),
        crate::direction_xz::DirectionXZ::West => h(0, 1) == h(0, 0),
    }
}

/// A track can be built on a tile exactly when none of the tile's four corners is flooded,
/// the two corners of each side the track reaches are at one height, and the zoning leaves
/// the tile free; the terrain's refusals are `InvalidTerrain`.
pub proof fn lemma_track_needs_dry_level_edges(map: MapLevel, tile: TileCoordsXZ, track_type: TrackType)
    requires
        tile.has_vertices(),
    ensures
        ({
            let flooded = vertex_flooded(map, tile_corner(tile, 0, 0)) || vertex_flooded(map, tile_corner(tile, 1, 0))
                || vertex_flooded(map, tile_corner(tile, 1, 1)) || vertex_flooded(map, tile_corner(tile, 0, 1));
            let level = forall|d: crate::direction_xz::DirectionXZ|
                #[trigger] track_type.has_end(d) ==> side_level(map, tile, d);
            map.spec_can_build_track(tile, track_type) == if flooded || !level {
                Err(BuildError::InvalidTerrain)
            } else {
                map.spec_zoning().spec_can_build_track(tile)
            }
        }),
{
    let k00 = lemma_tile_corner_numbered(map, tile, 0, 0);
    let k10 = lemma_tile_corner_numbered(map, tile, 1, 0);
    let k11 = lemma_tile_corner_numbered(map, tile, 1, 1);
    let k01 = lemma_tile_corner_numbered(map, tile, 0, 1);
    assert(map.tile_under_water(tile) == (vertex_flooded(map, tile_corner(tile, 0, 0)) || vertex_flooded(
        map,
        tile_corner(tile, 1, 0),
    ) || vertex_flooded(map, tile_corner(tile, 1, 1)) || vertex_flooded(map, tile_corner(tile, 0, 1)))) by {
        assert(map.corner_under_water(tile, 0) == vertex_flooded(map, tile_corner(tile, 0, 0)));
        assert(map.corner_under_water(tile, 1) == vertex_flooded(map, tile_corner(tile, 1, 0)));
        assert(map.corner_under_water(tile, 2) == vertex_flooded(map, tile_corner(tile, 1, 1)));
        assert(map.corner_under_water(tile, 3) == vertex_flooded(map, tile_corner(tile, 0, 1)));
        if map.tile_under_water(tile) {
            let k = choose|k: int| 0 <= k < 4 && #[trigger] map.corner_under_water(tile, k);
            assert(k == 0 || k == 1 || k == 2 || k == 3);
        }
    }
    assert forall|d: crate::direction_xz::DirectionXZ| #[trigger]
        map.spec_terrain().spec_edge_level(tile, d) == side_level(map, tile, d) by {
        crate::vertex_coords_xz::lemma_edge_corners_lie_on_their_side(tile, d);
        let (a, b) = tile.spec_vertex_coords_clockwise(d);
        match d {
            crate::direction_xz::DirectionXZ::North => {
                assert(a == tile_corner(tile, 0, 0) && b == tile_corner(tile, 1, 0));
            },
            crate::direction_xz::DirectionXZ::East => {
                assert(a == tile_corner(tile, 1, 0) && b == tile_corner(tile, 1, 1));
            },
            crate::direction_xz::DirectionXZ::South => {
                assert(a == tile_corner(tile, 1, 1) && b == tile_corner(tile, 0, 1));
            },
            crate::direction_xz::DirectionXZ::West => {
                assert(a == tile_corner(tile, 0, 1) && b == tile_corner(tile, 0, 0));
            },
        }
    }
    let level = forall|d: crate::direction_xz::DirectionXZ|
        #[trigger] track_type.has_end(d) ==> side_level(map, tile, d);
    assert(level == (map.spec_terrain().spec_edge_level(tile, track_type.ends().0)
        && map.spec_terrain().spec_edge_level(tile, track_type.ends().1))) by {
        if level {
            assert(track_type.has_end(track_type.ends().0));
            assert(track_type.has_end(track_type.ends().1));
        }
    }
}

} // verus!
