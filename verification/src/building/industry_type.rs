use vstd::prelude::*;

use crate::building::WithRelativeTileCoverage;
use crate::map_level::zoning::ZoningType;
use crate::resource_type::{contains_resource, ResourceType};
use crate::tile_coords_xz::{TileCoordsXZ, TileDistance};
use crate::tile_coverage::TileCoverage;

verus! {

/// A kind of industry building.
#[derive(Clone, Copy, PartialEq, Eq, Structural, Debug, Hash)]
pub enum IndustryType {
    CoalMine,
    OilWell,
    IronMine,
    NitrateMine,
    SulfurMine,
    Farm,
    Forestry,
    ClayPit,
    LimestoneMine,
    SandAndGravelQuarry,
    PowerPlant,
    CoalToOilPlant,
    SteelMill,
    ExplosivesPlant,
    FoodProcessingPlant,
    LumberMill,
    CellulosePlant,
    CementPlant,
    OilRefinery,
    ConcretePlant,
    TrainFactory,
    WeaponsFactory,
    AmmunitionFactory,
    MilitaryBase,
    ConstructionYard,
}

impl IndustryType {
    /// The industry types offered for building, in order. `CellulosePlant` is not among them.
    pub open spec fn spec_all() -> Seq<IndustryType> {
        seq![IndustryType::CoalMine, IndustryType::OilWell, IndustryType::IronMine, IndustryType::NitrateMine, IndustryType::SulfurMine, IndustryType::Farm, IndustryType::Forestry, IndustryType::ClayPit, IndustryType::LimestoneMine, IndustryType::SandAndGravelQuarry, IndustryType::PowerPlant, IndustryType::CoalToOilPlant, IndustryType::SteelMill, IndustryType::ExplosivesPlant, IndustryType::FoodProcessingPlant, IndustryType::LumberMill, IndustryType::CementPlant, IndustryType::OilRefinery, IndustryType::ConcretePlant, IndustryType::TrainFactory, IndustryType::WeaponsFactory, IndustryType::AmmunitionFactory, IndustryType::MilitaryBase, IndustryType::ConstructionYard]
    }

    pub fn all() -> (r: Vec<IndustryType>)
        ensures
            r@ == Self::spec_all(),
    {
        vec![IndustryType::CoalMine, IndustryType::OilWell, IndustryType::IronMine, IndustryType::NitrateMine, IndustryType::SulfurMine, IndustryType::Farm, IndustryType::Forestry, IndustryType::ClayPit, IndustryType::LimestoneMine, IndustryType::SandAndGravelQuarry, IndustryType::PowerPlant, IndustryType::CoalToOilPlant, IndustryType::SteelMill, IndustryType::ExplosivesPlant, IndustryType::FoodProcessingPlant, IndustryType::LumberMill, IndustryType::CementPlant, IndustryType::OilRefinery, IndustryType::ConcretePlant, IndustryType::TrainFactory, IndustryType::WeaponsFactory, IndustryType::AmmunitionFactory, IndustryType::MilitaryBase, IndustryType::ConstructionYard]
    }

    /// The zoning the industry must be built on: its raw resource's source for extracting
    /// industries, industrial zoning for all others.
    pub open spec fn spec_required_zoning(self) -> Option<ZoningType> {
        match self {
            IndustryType::CoalMine => Some(ZoningType::Source(ResourceType::Coal)),
            IndustryType::OilWell => Some(ZoningType::Source(ResourceType::Oil)),
            IndustryType::IronMine => Some(ZoningType::Source(ResourceType::Iron)),
            IndustryType::NitrateMine => Some(ZoningType::Source(ResourceType::Nitrates)),
            IndustryType::SulfurMine => Some(ZoningType::Source(ResourceType::Sulfur)),
            IndustryType::Farm => Some(ZoningType::Source(ResourceType::FarmProducts)),
            IndustryType::Forestry => Some(ZoningType::Source(ResourceType::Wood)),
            IndustryType::ClayPit => Some(ZoningType::Source(ResourceType::Clay)),
            IndustryType::LimestoneMine => Some(ZoningType::Source(ResourceType::Limestone)),
            IndustryType::SandAndGravelQuarry => Some(ZoningType::Source(ResourceType::SandAndGravel)),
            IndustryType::PowerPlant => Some(ZoningType::Industrial),
            IndustryType::CoalToOilPlant => Some(ZoningType::Industrial),
            IndustryType::SteelMill => Some(ZoningType::Industrial),
            IndustryType::ExplosivesPlant => Some(ZoningType::Industrial),
            IndustryType::FoodProcessingPlant => Some(ZoningType::Industrial),
            IndustryType::LumberMill => Some(ZoningType::Industrial),
            IndustryType::CellulosePlant => Some(ZoningType::Industrial),
            IndustryType::CementPlant => Some(ZoningType::Industrial),
            IndustryType::OilRefinery => Some(ZoningType::Industrial),
            IndustryType::ConcretePlant => Some(ZoningType::Industrial),
            IndustryType::TrainFactory => Some(ZoningType::Industrial),
            IndustryType::WeaponsFactory => Some(ZoningType::Industrial),
            IndustryType::AmmunitionFactory => Some(ZoningType::Industrial),
            IndustryType::MilitaryBase => Some(ZoningType::Industrial),
            IndustryType::ConstructionYard => Some(ZoningType::Industrial),
        }
    }

    pub fn required_zoning(self) -> (r: Option<ZoningType>)
        ensures
            r == self.spec_required_zoning(),
    {
        match self {
            IndustryType::CoalMine => Some(ZoningType::Source(ResourceType::Coal)),
            IndustryType::OilWell => Some(ZoningType::Source(ResourceType::Oil)),
            IndustryType::IronMine => Some(ZoningType::Source(ResourceType::Iron)),
            IndustryType::NitrateMine => Some(ZoningType::Source(ResourceType::Nitrates)),
            IndustryType::SulfurMine => Some(ZoningType::Source(ResourceType::Sulfur)),
            IndustryType::Farm => Some(ZoningType::Source(ResourceType::FarmProducts)),
            IndustryType::Forestry => Some(ZoningType::Source(ResourceType::Wood)),
            IndustryType::ClayPit => Some(ZoningType::Source(ResourceType::Clay)),
            IndustryType::LimestoneMine => Some(ZoningType::Source(ResourceType::Limestone)),
            IndustryType::SandAndGravelQuarry => Some(ZoningType::Source(ResourceType::SandAndGravel)),
            IndustryType::PowerPlant => Some(ZoningType::Industrial),
            IndustryType::CoalToOilPlant => Some(ZoningType::Industrial),
            IndustryType::SteelMill => Some(ZoningType::Industrial),
            IndustryType::ExplosivesPlant => Some(ZoningType::Industrial),
            IndustryType::FoodProcessingPlant => Some(ZoningType::Industrial),
            IndustryType::LumberMill => Some(ZoningType::Industrial),
            IndustryType::CellulosePlant => Some(ZoningType::Industrial),
            IndustryType::CementPlant => Some(ZoningType::Industrial),
            IndustryType::OilRefinery => Some(ZoningType::Industrial),
            IndustryType::ConcretePlant => Some(ZoningType::Industrial),
            IndustryType::TrainFactory => Some(ZoningType::Industrial),
            IndustryType::WeaponsFactory => Some(ZoningType::Industrial),
            IndustryType::AmmunitionFactory => Some(ZoningType::Industrial),
            IndustryType::MilitaryBase => Some(ZoningType::Industrial),
            IndustryType::ConstructionYard => Some(ZoningType::Industrial),
        }
    }

    /// The resources the industry consumes, in the order of its transformation's inputs.
    pub open spec fn spec_inputs(self) -> Seq<ResourceType> {
        match self {
            IndustryType::CoalMine => seq![],
            IndustryType::OilWell => seq![],
            IndustryType::IronMine => seq![],
            IndustryType::NitrateMine => seq![],
            IndustryType::SulfurMine => seq![],
            IndustryType::Farm => seq![],
            IndustryType::Forestry => seq![],
            IndustryType::ClayPit => seq![],
            IndustryType::LimestoneMine => seq![],
            IndustryType::SandAndGravelQuarry => seq![],
            IndustryType::PowerPlant => seq![ResourceType::Coal],
            IndustryType::CoalToOilPlant => seq![ResourceType::Coal],
            IndustryType::SteelMill => seq![ResourceType::Iron, ResourceType::Coal],
            IndustryType::ExplosivesPlant => seq![ResourceType::Nitrates, ResourceType::Sulfur, ResourceType::Cellulose],
            IndustryType::FoodProcessingPlant => seq![ResourceType::FarmProducts],
            IndustryType::LumberMill => seq![ResourceType::Wood],
            IndustryType::CellulosePlant => seq![ResourceType::Wood],
            IndustryType::CementPlant => seq![ResourceType::Clay, ResourceType::Limestone],
            IndustryType::OilRefinery => seq![ResourceType::Oil],
            IndustryType::ConcretePlant => seq![ResourceType::Cement, ResourceType::SandAndGravel],
            IndustryType::TrainFactory => seq![ResourceType::Steel],
            IndustryType::WeaponsFactory => seq![ResourceType::Steel],
            IndustryType::AmmunitionFactory => seq![ResourceType::Steel, ResourceType::Explosives],
            IndustryType::MilitaryBase => seq![ResourceType::Ammunition, ResourceType::Food, ResourceType::Fuel, ResourceType::ArtilleryWeapons],
            IndustryType::ConstructionYard => seq![ResourceType::Concrete, ResourceType::Steel, ResourceType::Timber],
        }
    }

    /// The resources the industry produces, in the order of its transformation's outputs.
    pub open spec fn spec_outputs(self) -> Seq<ResourceType> {
        match self {
            IndustryType::CoalMine => seq![ResourceType::Coal],
            IndustryType::OilWell => seq![ResourceType::Oil],
            IndustryType::IronMine => seq![ResourceType::Iron],
            IndustryType::NitrateMine => seq![ResourceType::Nitrates],
            IndustryType::SulfurMine => seq![ResourceType::Sulfur],
            IndustryType::Farm => seq![ResourceType::FarmProducts],
            IndustryType::Forestry => seq![ResourceType::Wood],
            IndustryType::ClayPit => seq![ResourceType::Clay],
            IndustryType::LimestoneMine => seq![ResourceType::Limestone],
            IndustryType::SandAndGravelQuarry => seq![ResourceType::SandAndGravel],
            IndustryType::PowerPlant => seq![],
            IndustryType::CoalToOilPlant => seq![ResourceType::Oil],
            IndustryType::SteelMill => seq![ResourceType::Steel],
            IndustryType::ExplosivesPlant => seq![ResourceType::Explosives],
            IndustryType::FoodProcessingPlant => seq![ResourceType::Food],
            IndustryType::LumberMill => seq![ResourceType::Timber],
            IndustryType::CellulosePlant => seq![ResourceType::Cellulose],
            IndustryType::CementPlant => seq![ResourceType::Cement],
            IndustryType::OilRefinery => seq![ResourceType::Fuel],
            IndustryType::ConcretePlant => seq![ResourceType::Concrete],
            IndustryType::TrainFactory => seq![],
            IndustryType::WeaponsFactory => seq![ResourceType::ArtilleryWeapons],
            IndustryType::AmmunitionFactory => seq![ResourceType::Ammunition],
            IndustryType::MilitaryBase => seq![],
            IndustryType::ConstructionYard => seq![],
        }
    }

    pub fn input_resource_types(self) -> (r: Vec<ResourceType>)
        ensures
            r@ == self.spec_inputs(),
    {
        match self {
            IndustryType::CoalMine => vec![],
            IndustryType::OilWell => vec![],
            IndustryType::IronMine => vec![],
            IndustryType::NitrateMine => vec![],
            IndustryType::SulfurMine => vec![],
            IndustryType::Farm => vec![],
            IndustryType::Forestry => vec![],
            IndustryType::ClayPit => vec![],
            IndustryType::LimestoneMine => vec![],
            IndustryType::SandAndGravelQuarry => vec![],
            IndustryType::PowerPlant => vec![ResourceType::Coal],
            IndustryType::CoalToOilPlant => vec![ResourceType::Coal],
            IndustryType::SteelMill => vec![ResourceType::Iron, ResourceType::Coal],
            IndustryType::ExplosivesPlant => vec![ResourceType::Nitrates, ResourceType::Sulfur, ResourceType::Cellulose],
            IndustryType::FoodProcessingPlant => vec![ResourceType::FarmProducts],
            IndustryType::LumberMill => vec![ResourceType::Wood],
            IndustryType::CellulosePlant => vec![ResourceType::Wood],
            IndustryType::CementPlant => vec![ResourceType::Clay, ResourceType::Limestone],
            IndustryType::OilRefinery => vec![ResourceType::Oil],
            IndustryType::ConcretePlant => vec![ResourceType::Cement, ResourceType::SandAndGravel],
            IndustryType::TrainFactory => vec![ResourceType::Steel],
            IndustryType::WeaponsFactory => vec![ResourceType::Steel],
            IndustryType::AmmunitionFactory => vec![ResourceType::Steel, ResourceType::Explosives],
            IndustryType::MilitaryBase => vec![ResourceType::Ammunition, ResourceType::Food, ResourceType::Fuel, ResourceType::ArtilleryWeapons],
            IndustryType::ConstructionYard => vec![ResourceType::Concrete, ResourceType::Steel, ResourceType::Timber],
        }
    }

    pub fn output_resource_types(self) -> (r: Vec<ResourceType>)
        ensures
            r@ == self.spec_outputs(),
    {
        match self {
            IndustryType::CoalMine => vec![ResourceType::Coal],
            IndustryType::OilWell => vec![ResourceType::Oil],
            IndustryType::IronMine => vec![ResourceType::Iron],
            IndustryType::NitrateMine => vec![ResourceType::Nitrates],
            IndustryType::SulfurMine => vec![ResourceType::Sulfur],
            IndustryType::Farm => vec![ResourceType::FarmProducts],
            IndustryType::Forestry => vec![ResourceType::Wood],
            IndustryType::ClayPit => vec![ResourceType::Clay],
            IndustryType::LimestoneMine => vec![ResourceType::Limestone],
            IndustryType::SandAndGravelQuarry => vec![ResourceType::SandAndGravel],
            IndustryType::PowerPlant => vec![],
            IndustryType::CoalToOilPlant => vec![ResourceType::Oil],
            IndustryType::SteelMill => vec![ResourceType::Steel],
            IndustryType::ExplosivesPlant => vec![ResourceType::Explosives],
            IndustryType::FoodProcessingPlant => vec![ResourceType::Food],
            IndustryType::LumberMill => vec![ResourceType::Timber],
            IndustryType::CellulosePlant => vec![ResourceType::Cellulose],
            IndustryType::CementPlant => vec![ResourceType::Cement],
            IndustryType::OilRefinery => vec![ResourceType::Fuel],
            IndustryType::ConcretePlant => vec![ResourceType::Concrete],
            IndustryType::TrainFactory => vec![],
            IndustryType::WeaponsFactory => vec![ResourceType::ArtilleryWeapons],
            IndustryType::AmmunitionFactory => vec![ResourceType::Ammunition],
            IndustryType::MilitaryBase => vec![],
            IndustryType::ConstructionYard => vec![],
        }
    }

    pub fn produces(self, resource: ResourceType) -> (r: bool)
        ensures
            r == self.spec_outputs().contains(resource),
    {
        contains_resource(&self.output_resource_types(), resource)
    }

    pub fn consumes(self, resource: ResourceType) -> (r: bool)
        ensures
            r == self.spec_inputs().contains(resource),
    {
        contains_resource(&self.input_resource_types(), resource)
    }

    /// How far from a building of this type its stock can be used to build, in tiles.
    pub open spec fn spec_supply_range_in_tiles(self) -> Option<TileDistance> {
        match self {
            IndustryType::ConstructionYard => Some(128i32),
            IndustryType::MilitaryBase => Some(32i32),
            _ => None,
        }
    }

    pub fn supply_range_in_tiles(self) -> (r: Option<TileDistance>)
        ensures
            r == self.spec_supply_range_in_tiles(),
    {
        match self {
            IndustryType::ConstructionYard => Some(128),
            IndustryType::MilitaryBase => Some(32),
            _ => None,
        }
    }

    /// Every industry covers the 3 by 3 square centred on its reference tile.
    pub open spec fn spec_relative_tiles_used(self) -> TileCoverage {
        TileCoverage::Rectangular {
            north_west_inclusive: TileCoordsXZ { x: -1i32, z: -1i32 },
            south_east_inclusive: TileCoordsXZ { x: 1i32, z: 1i32 },
        }
    }

    pub fn relative_tiles_used(&self) -> (r: TileCoverage)
        ensures
            r == self.spec_relative_tiles_used(),
    {
        TileCoverage::rectangular_odd(TileCoordsXZ::zero(), 3, 3)
    }
}

/// An industry that must be built on a resource's source zoning consumes nothing and
/// produces exactly that resource; every other industry needs industrial zoning.
pub proof fn lemma_source_industries_extract_their_resource(industry: IndustryType)
    ensures
        match industry.spec_required_zoning() {
            Some(ZoningType::Source(resource)) => industry.spec_inputs() == Seq::<ResourceType>::empty()
                && industry.spec_outputs() == seq![resource],
            Some(ZoningType::Industrial) => true,
            None => false,
        },
{
}

/// No industry lists a resource twice among its inputs or among its outputs.
pub proof fn lemma_no_repeated_resources(industry: IndustryType)
    ensures
        industry.spec_inputs().no_duplicates(),
        industry.spec_outputs().no_duplicates(),
{
}

impl WithRelativeTileCoverage for IndustryType {
    open spec fn relative_coverage_valid(&self) -> bool {
        true
    }

    open spec fn spec_relative_coverage(&self) -> TileCoverage {
        self.spec_relative_tiles_used()
    }

    fn relative_tiles_used(&self) -> (r: TileCoverage) {
        IndustryType::relative_tiles_used(self)
    }
}

/// What each processing industry consumes and produces, as its production transform
/// lists them: a steel mill turns iron and coal into steel, a power plant burns coal, and
/// so on; warehouses (the military base and the construction yard) take in what they store
/// and produce nothing. The extracting industries are covered by
/// `lemma_source_industries_extract_their_resource`.
pub proof fn lemma_processing_industries_transform()
    ensures
        IndustryType::SteelMill.spec_inputs() == seq![ResourceType::Iron, ResourceType::Coal],
        IndustryType::SteelMill.spec_outputs() == seq![ResourceType::Steel],
        IndustryType::PowerPlant.spec_inputs() == seq![ResourceType::Coal],
        IndustryType::PowerPlant.spec_outputs() == Seq::<ResourceType>::empty(),
        IndustryType::CoalToOilPlant.spec_inputs() == seq![ResourceType::Coal],
        IndustryType::CoalToOilPlant.spec_outputs() == seq![ResourceType::Oil],
        IndustryType::ExplosivesPlant.spec_inputs() == seq![ResourceType::Nitrates, ResourceType::Sulfur, ResourceType::Cellulose],
        IndustryType::ExplosivesPlant.spec_outputs() == seq![ResourceType::Explosives],
        IndustryType::FoodProcessingPlant.spec_inputs() == seq![ResourceType::FarmProducts],
        IndustryType::FoodProcessingPlant.spec_outputs() == seq![ResourceType::Food],
        IndustryType::LumberMill.spec_inputs() == seq![ResourceType::Wood],
        IndustryType::LumberMill.spec_outputs() == seq![ResourceType::Timber],
        IndustryType::CellulosePlant.spec_inputs() == seq![ResourceType::Wood],
        IndustryType::CellulosePlant.spec_outputs() == seq![ResourceType::Cellulose],
        IndustryType::CementPlant.spec_inputs() == seq![ResourceType::Clay, ResourceType::Limestone],
        IndustryType::CementPlant.spec_outputs() == seq![ResourceType::Cement],
        IndustryType::OilRefinery.spec_inputs() == seq![ResourceType::Oil],
        IndustryType::OilRefinery.spec_outputs() == seq![ResourceType::Fuel],
        IndustryType::ConcretePlant.spec_inputs() == seq![ResourceType::Cement, ResourceType::SandAndGravel],
        IndustryType::ConcretePlant.spec_outputs() == seq![ResourceType::Concrete],
        IndustryType::TrainFactory.spec_inputs() == seq![ResourceType::Steel],
        IndustryType::TrainFactory.spec_outputs() == Seq::<ResourceType>::empty(),
        IndustryType::WeaponsFactory.spec_inputs() == seq![ResourceType::Steel],
        IndustryType::WeaponsFactory.spec_outputs() == seq![ResourceType::ArtilleryWeapons],
        IndustryType::AmmunitionFactory.spec_inputs() == seq![ResourceType::Steel, ResourceType::Explosives],
        IndustryType::AmmunitionFactory.spec_outputs() == seq![ResourceType::Ammunition],
        IndustryType::MilitaryBase.spec_inputs() == seq![ResourceType::Ammunition, ResourceType::Food, ResourceType::Fuel, ResourceType::ArtilleryWeapons],
        IndustryType::MilitaryBase.spec_outputs() == Seq::<ResourceType>::empty(),
        IndustryType::ConstructionYard.spec_inputs() == seq![ResourceType::Concrete, ResourceType::Steel, ResourceType::Timber],
        IndustryType::ConstructionYard.spec_outputs() == Seq::<ResourceType>::empty(),
{
}

/// Only the construction yard (within 128 tiles) and the military base (within 32 tiles)
/// draw on suppliers around them; no other industry has a supply range.
pub proof fn lemma_supply_ranges(industry: IndustryType)
    ensures
        industry.spec_supply_range_in_tiles() is Some <==> (industry is ConstructionYard || industry is MilitaryBase),
        IndustryType::ConstructionYard.spec_supply_range_in_tiles() == Some(128i32),
        IndustryType::MilitaryBase.spec_supply_range_in_tiles() == Some(32i32),
{
}

} // verus!
