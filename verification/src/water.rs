use vstd::prelude::*;

use crate::map_level::map_level::Height;

verus! {

/// The water level of a map: the surface lies between two consecutive heights, and every
/// vertex at or below the lower one is under water.
#[derive(Clone, Copy, Debug, PartialEq, Eq)]
pub struct Water {
    pub between: (Height, Height),
}

impl Water {
    /// The two heights are consecutive.
    pub open spec fn spec_is_valid(self) -> bool {
        self.between.0.spec_as_u8() + 1 == self.between.1.spec_as_u8()
    }

    /// Whether a vertex at `height` is under water.
    pub open spec fn spec_under_water(self, height: Height) -> bool {
        height.spec_as_u8() <= self.between.0.spec_as_u8()
    }

    pub fn is_valid(&self) -> (r: Result<(), String>)
        ensures
            r is Ok <==> self.spec_is_valid(),
    {
        let below = self.between.0.as_u8() as u16;
        let above = self.between.1.as_u8() as u16;
        if below + 1 == above {
            Ok(())
        } else {
            Err(String::from_str("Water must lie between two consecutive heights"))
        }
    }

    pub fn under_water(&self, height: Height) -> (r: bool)
        ensures
            r == self.spec_under_water(height),
    {
        height.as_u8() <= self.between.0.as_u8()
    }
}

} // verus!
