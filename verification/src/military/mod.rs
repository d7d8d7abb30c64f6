use vstd::prelude::*;

verus! {

/// A kind of projectile.
#[derive(Clone, Copy, PartialEq, Eq, Structural, Debug, Hash)]
pub enum ProjectileType {
    Standard,
}

} // verus!
