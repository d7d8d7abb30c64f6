use vstd::prelude::*;

verus! {

/// A kind of military unit.
#[derive(Clone, Copy, PartialEq, Eq, Structural, Debug, Hash)]
pub enum MilitaryUnitType {
    FixedArtillery,
    MovableArtillery,
}

impl MilitaryUnitType {
    pub fn all() -> (r: Vec<MilitaryUnitType>)
        ensures
            r@ == seq![MilitaryUnitType::FixedArtillery, MilitaryUnitType::MovableArtillery],
    {
        vec![MilitaryUnitType::FixedArtillery, MilitaryUnitType::MovableArtillery]
    }
}

} // verus!
