use vstd::prelude::*;

verus! {

/// A kind of resource; in a way, also a kind of cargo.
#[derive(Clone, Copy, PartialEq, Eq, Structural, Debug, Hash, PartialOrd, Ord)]
pub enum ResourceType {
    // Raw
    Clay,
    Coal,
    FarmProducts,
    Iron,
    Limestone,
    Nitrates,
    Oil,
    SandAndGravel,
    Sulfur,
    Wood,
    // Derived
    Ammunition,
    Cellulose,
    Cement,
    Concrete,
    Explosives,
    Food,
    Fuel,
    Steel,
    Timber,
    ArtilleryWeapons,
}

impl ResourceType {
    /// Every resource type, raw ones first.
    pub open spec fn spec_all() -> Seq<ResourceType> {
        seq![
            ResourceType::Clay,
            ResourceType::Coal,
            ResourceType::FarmProducts,
            ResourceType::Iron,
            ResourceType::Limestone,
            ResourceType::Nitrates,
            ResourceType::Oil,
            ResourceType::SandAndGravel,
            ResourceType::Sulfur,
            ResourceType::Wood,
            ResourceType::Ammunition,
            ResourceType::Cellulose,
            ResourceType::Cement,
            ResourceType::Concrete,
            ResourceType::Explosives,
            ResourceType::Food,
            ResourceType::Fuel,
            ResourceType::Steel,
            ResourceType::Timber,
            ResourceType::ArtilleryWeapons,
        ]
    }

    pub fn all() -> (r: Vec<ResourceType>)
        ensures
            r@ == Self::spec_all(),
    {
        vec![
            ResourceType::Clay,
            ResourceType::Coal,
            ResourceType::FarmProducts,
            ResourceType::Iron,
            ResourceType::Limestone,
            ResourceType::Nitrates,
            ResourceType::Oil,
            ResourceType::SandAndGravel,
            ResourceType::Sulfur,
            ResourceType::Wood,
            ResourceType::Ammunition,
            ResourceType::Cellulose,
            ResourceType::Cement,
            ResourceType::Concrete,
            ResourceType::Explosives,
            ResourceType::Food,
            ResourceType::Fuel,
            ResourceType::Steel,
            ResourceType::Timber,
            ResourceType::ArtilleryWeapons,
        ]
    }
}

/// Every resource type occurs in the list of all resource types, exactly once.
pub proof fn lemma_all_resource_types_listed(resource: ResourceType)
    ensures
        ResourceType::spec_all().contains(resource),
        ResourceType::spec_all().no_duplicates(),
{
    let s = ResourceType::spec_all();
    match resource {
        ResourceType::Clay => assert(s[0] == resource),
        ResourceType::Coal => assert(s[1] == resource),
        ResourceType::FarmProducts => assert(s[2] == resource),
        ResourceType::Iron => assert(s[3] == resource),
        ResourceType::Limestone => assert(s[4] == resource),
        ResourceType::Nitrates => assert(s[5] == resource),
        ResourceType::Oil => assert(s[6] == resource),
        ResourceType::SandAndGravel => assert(s[7] == resource),
        ResourceType::Sulfur => assert(s[8] == resource),
        ResourceType::Wood => assert(s[9] == resource),
        ResourceType::Ammunition => assert(s[10] == resource),
        ResourceType::Cellulose => assert(s[11] == resource),
        ResourceType::Cement => assert(s[12] == resource),
        ResourceType::Concrete => assert(s[13] == resource),
        ResourceType::Explosives => assert(s[14] == resource),
        ResourceType::Food => assert(s[15] == resource),
        ResourceType::Fuel => assert(s[16] == resource),
        ResourceType::Steel => assert(s[17] == resource),
        ResourceType::Timber => assert(s[18] == resource),
        ResourceType::ArtilleryWeapons => assert(s[19] == resource),
    }
}

/// Whether `resources` holds `resource`.
pub fn contains_resource(resources: &Vec<ResourceType>, resource: ResourceType) -> (r: bool)
    ensures
        r == resources@.contains(resource),
{
    let mut i: usize = 0;
    while i < resources.len()
        invariant
            i <= resources.len(),
            forall|j: int| 0 <= j < i ==> resources@[j] != resource,
        decreases resources.len() - i,
    {
        if resources[i] == resource {
            return true;
        }
        i = i + 1;
    }
    false
}

} // verus!
