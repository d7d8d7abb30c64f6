use vstd::prelude::*;

verus! {

/// The height of a vertex.
#[derive(Clone, Copy)]
pub struct Height(pub u8);

/// The heights of the vertices of a map, row by row.
#[derive(Clone)]
pub struct Terrain {
    pub size_x: usize,
    pub size_z: usize,
    pub height_map: Vec<Vec<Height>>,
}

impl Terrain {
    /// There are `size_z` rows of `size_x` heights each.
    pub open spec fn spec_is_valid(&self) -> bool {
        &&& self.height_map@.len() == self.size_z
        &&& forall|i: int| 0 <= i < self.height_map@.len() ==> (#[trigger] self.height_map@[i])@.len() == self.size_x
    }

    fn is_valid(&self) -> (r: bool)
        ensures
            r == self.spec_is_valid(),
    {
        if self.height_map.len() != self.size_z {
            return false;
        }
        let mut i: usize = 0;
        while i < self.height_map.len()
            invariant
                i <= self.height_map@.len(),
                forall|j: int| 0 <= j < i ==> (#[trigger] self.height_map@[j])@.len() == self.size_x,
            decreases self.height_map.len() - i,
        {
            if self.height_map[i].len() != self.size_x {
                return false;
            }
            i = i + 1;
        }
        true
    }
}

/// The water level, strictly between two consecutive heights.
#[derive(Clone, Copy)]
pub struct Water {
    pub between: (Height, Height),
}

impl Water {
    /// The two heights are consecutive.
    pub open spec fn spec_is_valid(&self) -> bool {
        self.between.0.0 + 1 == self.between.1.0
    }

    fn is_valid(&self) -> (r: bool)
        requires
            self.between.0.0 < u8::MAX,
        ensures
            r == self.spec_is_valid(),
    {
        let (below, above) = self.between;
        below.0 + 1 == above.0
    }
}

/// A map: its terrain and its water level.
#[derive(Clone)]
pub struct Level {
    pub terrain: Terrain,
    pub water: Water,
}

impl Level {
    /// Whether the terrain has the declared size and the water lies between two
    /// consecutive heights.
    pub fn is_valid(&self) -> (r: bool)
        requires
            self.water.between.0.0 < u8::MAX,
        ensures
            r == (self.terrain.spec_is_valid() && self.water.spec_is_valid()),
    {
        self.terrain.is_valid() && self.water.is_valid()
    }
}

} // verus!
