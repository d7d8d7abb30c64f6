use vstd::prelude::*;

use crate::building::industry_type::IndustryType;
use crate::resource_type::ResourceType;

verus! {

/// The industries, in order, that make `resource_type` from raw resources and bring it to
/// `target_type`; empty for a combination that the chain does not cover.
pub open spec fn supply_chain_for(resource_type: ResourceType, target_type: IndustryType) -> Seq<
    IndustryType,
> {
    match (resource_type, target_type) {
        (ResourceType::Steel, IndustryType::ConstructionYard) => seq![
            IndustryType::IronMine,
            IndustryType::CoalMine,
            IndustryType::SteelMill,
            IndustryType::ConstructionYard,
        ],
        (ResourceType::Timber, IndustryType::ConstructionYard) => seq![
            IndustryType::Forestry,
            IndustryType::LumberMill,
            IndustryType::ConstructionYard,
        ],
        (ResourceType::Concrete, IndustryType::ConstructionYard) => seq![
            IndustryType::ClayPit,
            IndustryType::SandAndGravelQuarry,
            IndustryType::LimestoneMine,
            IndustryType::CementPlant,
            IndustryType::ConcretePlant,
            IndustryType::ConstructionYard,
        ],
        (ResourceType::ArtilleryWeapons, IndustryType::MilitaryBase) => seq![
            IndustryType::CoalMine,
            IndustryType::IronMine,
            IndustryType::SteelMill,
            IndustryType::WeaponsFactory,
            IndustryType::MilitaryBase,
        ],
        (ResourceType::Food, IndustryType::MilitaryBase) => seq![
            IndustryType::Farm,
            IndustryType::FoodProcessingPlant,
            IndustryType::MilitaryBase,
        ],
        (ResourceType::Ammunition, IndustryType::MilitaryBase) => seq![
            IndustryType::Forestry,
            IndustryType::CellulosePlant,
            IndustryType::AmmunitionFactory,
            IndustryType::ExplosivesPlant,
            IndustryType::NitrateMine,
            IndustryType::SulfurMine,
            IndustryType::IronMine,
            IndustryType::CoalMine,
            IndustryType::SteelMill,
            IndustryType::MilitaryBase,
        ],
        (ResourceType::Fuel, IndustryType::MilitaryBase) => seq![
            IndustryType::OilWell,
            IndustryType::OilRefinery,
            IndustryType::MilitaryBase,
        ],
        _ => seq![],
    }
}

/// The supply chains for each of `resources`, one after the other.
pub open spec fn supply_chains_for(resources: Seq<ResourceType>, target_type: IndustryType) -> Seq<
    IndustryType,
>
    decreases resources.len(),
{
    if resources.len() == 0 {
        seq![]
    } else {
        supply_chains_for(resources.drop_last(), target_type) + supply_chain_for(
            resources.last(),
            target_type,
        )
    }
}

/// The supply chains: which industries turn raw resources into what an industry consumes.
#[derive(Debug, PartialEq, Clone)]
pub struct SupplyChain {}

impl SupplyChain {
    pub fn new() -> (r: SupplyChain)
        ensures
            r == (SupplyChain {}),
    {
        SupplyChain {}
    }

    /// The supply chains for every resource that `target_type` consumes, in the order of
    /// its inputs.
    pub fn industries_for_industry(&self, target_type: IndustryType) -> (r: Vec<IndustryType>)
        ensures
            r@ == supply_chains_for(target_type.spec_inputs(), target_type),
    {
        let inputs = self.input_resource_types(target_type);
        let mut results: Vec<IndustryType> = Vec::new();
        let mut i: usize = 0;
        while i < inputs.len()
            invariant
                i <= inputs.len(),
                inputs@ == target_type.spec_inputs(),
                results@ == supply_chains_for(inputs@.take(i as int), target_type),
            decreases inputs.len() - i,
        {
            let mut chain = self.industries_for_resource_and_target(inputs[i], target_type);
            proof {
                assert(inputs@.take(i as int + 1).drop_last() =~= inputs@.take(i as int));
            }
            results.append(&mut chain);
            i = i + 1;
        }
        proof {
            crate::seq_util::lemma_take_full(inputs@);
        }
        results
    }

    /// The industries, in order, that make `resource_type` and bring it to `target_type`.
    pub fn industries_for_resource_and_target(
        &self,
        resource_type: ResourceType,
        target_type: IndustryType,
    ) -> (r: Vec<IndustryType>)
        ensures
            r@ == supply_chain_for(resource_type, target_type),
    {
        match (resource_type, target_type) {
            (ResourceType::Steel, IndustryType::ConstructionYard) => vec![
                IndustryType::IronMine,
                IndustryType::CoalMine,
                IndustryType::SteelMill,
                IndustryType::ConstructionYard,
            ],
            (ResourceType::Timber, IndustryType::ConstructionYard) => vec![
                IndustryType::Forestry,
                IndustryType::LumberMill,
                IndustryType::ConstructionYard,
            ],
            (ResourceType::Concrete, IndustryType::ConstructionYard) => vec![
                IndustryType::ClayPit,
                IndustryType::SandAndGravelQuarry,
                IndustryType::LimestoneMine,
                IndustryType::CementPlant,
                IndustryType::ConcretePlant,
                IndustryType::ConstructionYard,
            ],
            (ResourceType::ArtilleryWeapons, IndustryType::MilitaryBase) => vec![
                IndustryType::CoalMine,
                IndustryType::IronMine,
                IndustryType::SteelMill,
                IndustryType::WeaponsFactory,
                IndustryType::MilitaryBase,
            ],
            (ResourceType::Food, IndustryType::MilitaryBase) => vec![
                IndustryType::Farm,
                IndustryType::FoodProcessingPlant,
                IndustryType::MilitaryBase,
            ],
            (ResourceType::Ammunition, IndustryType::MilitaryBase) => vec![
                IndustryType::Forestry,
                IndustryType::CellulosePlant,
                IndustryType::AmmunitionFactory,
                IndustryType::ExplosivesPlant,
                IndustryType::NitrateMine,
                IndustryType::SulfurMine,
                IndustryType::IronMine,
                IndustryType::CoalMine,
                IndustryType::SteelMill,
                IndustryType::MilitaryBase,
            ],
            (ResourceType::Fuel, IndustryType::MilitaryBase) => vec![
                IndustryType::OilWell,
                IndustryType::OilRefinery,
                IndustryType::MilitaryBase,
            ],
            _ => vec![],
        }
    }

    /// The resources that `target_type` consumes.
    pub fn input_resource_types(&self, target_type: IndustryType) -> (r: Vec<ResourceType>)
        ensures
            r@ == target_type.spec_inputs(),
    {
        target_type.input_resource_types()
    }
}

/// Every supply chain that exists ends at its target, which consumes the resource, and
/// holds an industry that produces the resource.
pub proof fn lemma_supply_chain_delivers(resource_type: ResourceType, target_type: IndustryType)
    requires
        supply_chain_for(resource_type, target_type).len() > 0,
    ensures
        supply_chain_for(resource_type, target_type).last() == target_type,
        target_type.spec_inputs().contains(resource_type),
        exists|i: int|
            0 <= i < supply_chain_for(resource_type, target_type).len() && (#[trigger] supply_chain_for(
                resource_type,
                target_type,
            )[i]).spec_outputs().contains(resource_type),
{
    let chain = supply_chain_for(resource_type, target_type);
    let producer: int = match resource_type {
        ResourceType::Steel => 2,
        ResourceType::Timber => 1,
        ResourceType::Concrete => 4,
        ResourceType::ArtilleryWeapons => 3,
        ResourceType::Food => 1,
        ResourceType::Ammunition => 2,
        _ => 1,
    };
    assert(chain[producer].spec_outputs()[0] == resource_type);
}

/// Some industry of `chain` produces `resource_type`.
pub open spec fn chain_produces(chain: Seq<IndustryType>, resource_type: ResourceType) -> bool {
    exists|j: int| 0 <= j < chain.len() && (#[trigger] chain[j]).spec_outputs().contains(resource_type)
}

/// Every input of every industry of `chain` before its last one, the target, is produced
/// by some industry of the chain.
pub open spec fn inputs_produced_within(chain: Seq<IndustryType>) -> bool {
    forall|i: int, k: int|
        0 <= i < chain.len() - 1 && 0 <= k < chain[i].spec_inputs().len() ==> chain_produces(
            chain,
            #[trigger] chain[i].spec_inputs()[k],
        )
}

/// The industry at position `j` of `chain` produces input `k` of the industry at `i`.
proof fn lemma_produced_at(chain: Seq<IndustryType>, i: int, k: int, j: int)
    requires
        0 <= i < chain.len(),
        0 <= k < chain[i].spec_inputs().len(),
        0 <= j < chain.len(),
        chain[j].spec_outputs().len() > 0,
        chain[j].spec_outputs()[0] == chain[i].spec_inputs()[k],
    ensures
        chain_produces(chain, chain[i].spec_inputs()[k]),
{
    assert(chain[j].spec_outputs().contains(chain[i].spec_inputs()[k]));
}

/// A supply chain is closed: every input of every industry in it other than the target is
/// produced by some industry of the same chain.
pub proof fn lemma_supply_chain_closed(resource_type: ResourceType, target_type: IndustryType)
    ensures
        inputs_produced_within(supply_chain_for(resource_type, target_type)),
{
    let chain = supply_chain_for(resource_type, target_type);
    match (resource_type, target_type) {
        (ResourceType::Steel, IndustryType::ConstructionYard) => {
            lemma_produced_at(chain, 2, 0, 0);
            lemma_produced_at(chain, 2, 1, 1);
        },
        (ResourceType::Timber, IndustryType::ConstructionYard) => {
            lemma_produced_at(chain, 1, 0, 0);
        },
        (ResourceType::Concrete, IndustryType::ConstructionYard) => {
            lemma_produced_at(chain, 3, 0, 0);
            lemma_produced_at(chain, 3, 1, 2);
            lemma_produced_at(chain, 4, 0, 3);
            lemma_produced_at(chain, 4, 1, 1);
        },
        (ResourceType::ArtilleryWeapons, IndustryType::MilitaryBase) => {
            lemma_produced_at(chain, 2, 0, 1);
            lemma_produced_at(chain, 2, 1, 0);
            lemma_produced_at(chain, 3, 0, 2);
        },
        (ResourceType::Food, IndustryType::MilitaryBase) => {
            lemma_produced_at(chain, 1, 0, 0);
        },
        (ResourceType::Ammunition, IndustryType::MilitaryBase) => {
            lemma_produced_at(chain, 1, 0, 0);
            lemma_produced_at(chain, 2, 0, 8);
            lemma_produced_at(chain, 2, 1, 3);
            lemma_produced_at(chain, 3, 0, 4);
            lemma_produced_at(chain, 3, 1, 5);
            lemma_produced_at(chain, 3, 2, 1);
            lemma_produced_at(chain, 8, 0, 6);
            lemma_produced_at(chain, 8, 1, 7);
        },
        (ResourceType::Fuel, IndustryType::MilitaryBase) => {
            lemma_produced_at(chain, 1, 0, 0);
        },
        _ => {},
    }
    assert forall|i: int, k: int|
        0 <= i < chain.len() - 1 && 0 <= k < chain[i].spec_inputs().len() implies chain_produces(
        chain,
        #[trigger] chain[i].spec_inputs()[k],
    ) by {
        assert(chain.len() <= 10);
        assert(i == 0 || i == 1 || i == 2 || i == 3 || i == 4 || i == 5 || i == 6 || i == 7 || i == 8);
        assert(k == 0 || k == 1 || k == 2 || k == 3);
    }
}

} // verus!
