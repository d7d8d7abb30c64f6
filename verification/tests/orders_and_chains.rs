use shared_domain::building::industry_type::IndustryType;
use shared_domain::non_empty_circular_list::NonEmptyCircularList;
use shared_domain::production_type::ProductionType;
use shared_domain::resource_type::ResourceType;
use shared_domain::supply_chain::SupplyChain;
use shared_domain::tile_coords_xz::TileCoordsXZ;
use shared_domain::tile_coverage::TileCoverage;
use shared_domain::transport::movement_orders::{
    LoadAction, MovementOrder, MovementOrderAction, MovementOrderLocation, MovementOrders, UnloadAction,
};
use shared_domain::StationId;

#[test]
fn orders_are_followed_round_and_round() {
    let a = MovementOrder::stop_at_station(StationId::new(1));
    let b = MovementOrder::stop_at_station(StationId::new(2));
    let c = MovementOrder {
        go_to: MovementOrderLocation::StationId(StationId::new(3)),
        action: MovementOrderAction::PassingThrough,
    };
    assert_eq!(
        a.action,
        MovementOrderAction::LoadAndUnload(LoadAction::LoadAvailable, UnloadAction::UnloadAvailable)
    );
    let mut orders = MovementOrders::one(a);
    assert_eq!(orders.current_order(), a);
    orders.advance_to_next_order();
    assert_eq!(orders.current_order(), a);
    orders.push(b);
    orders.push(c);
    assert_eq!(orders.current_order(), a);
    orders.advance_to_next_order();
    assert_eq!(orders.current_order(), b);
    orders.advance_to_next_order();
    assert_eq!(orders.current_order(), c);
    orders.advance_to_next_order();
    assert_eq!(orders.current_order(), a);
    assert!(!orders.is_stopped());
    orders.force_stop();
    assert!(orders.is_stopped());
    assert_eq!(orders.current_order(), a);
}

#[test]
fn a_circular_list_wraps_around() {
    let mut list = NonEmptyCircularList::one(10);
    list.push(20);
    assert_eq!(list.next(), 10);
    list.advance();
    assert_eq!(list.next(), 20);
    list.advance();
    assert_eq!(list.next(), 10);
}

#[test]
fn construction_yard_chains_follow_its_inputs() {
    let chain = SupplyChain::new();
    assert_eq!(
        chain.input_resource_types(IndustryType::ConstructionYard),
        vec![ResourceType::Concrete, ResourceType::Steel, ResourceType::Timber]
    );
    assert_eq!(
        chain.industries_for_resource_and_target(ResourceType::Timber, IndustryType::ConstructionYard),
        vec![IndustryType::Forestry, IndustryType::LumberMill, IndustryType::ConstructionYard]
    );
    assert_eq!(
        chain.industries_for_resource_and_target(ResourceType::Coal, IndustryType::ConstructionYard),
        vec![]
    );
    let all = chain.industries_for_industry(IndustryType::ConstructionYard);
    assert_eq!(all.len(), 6 + 4 + 3);
    assert_eq!(all[0], IndustryType::ClayPit);
    assert_eq!(all[5], IndustryType::ConstructionYard);
    assert_eq!(all[6], IndustryType::IronMine);
    assert_eq!(all[12], IndustryType::ConstructionYard);
    assert_eq!(chain.industries_for_industry(IndustryType::CoalMine), vec![]);
}

#[test]
fn every_supply_chain_ends_at_a_target_that_consumes_what_it_makes() {
    let chain = SupplyChain::new();
    for target in [IndustryType::ConstructionYard, IndustryType::MilitaryBase] {
        for resource in target.input_resource_types() {
            let industries = chain.industries_for_resource_and_target(resource, target);
            assert_eq!(*industries.last().unwrap(), target);
            assert!(industries.iter().any(|industry| industry.produces(resource)));
            assert!(target.consumes(resource));
        }
    }
}

#[test]
fn industry_tables() {
    assert_eq!(IndustryType::SteelMill.input_resource_types(), vec![ResourceType::Iron, ResourceType::Coal]);
    assert_eq!(IndustryType::SteelMill.output_resource_types(), vec![ResourceType::Steel]);
    assert!(IndustryType::CoalMine.produces(ResourceType::Coal));
    assert!(!IndustryType::CoalMine.consumes(ResourceType::Coal));
    assert_eq!(IndustryType::ConstructionYard.supply_range_in_tiles(), Some(128));
    assert_eq!(IndustryType::MilitaryBase.supply_range_in_tiles(), Some(32));
    assert_eq!(IndustryType::Farm.supply_range_in_tiles(), None);
    assert_eq!(IndustryType::all().len(), 24);
    assert!(!IndustryType::all().contains(&IndustryType::CellulosePlant));
    assert_eq!(ResourceType::all().len(), 20);
}

#[test]
fn production_sites_use_three_by_three_tiles() {
    assert_eq!(ProductionType::all().len(), 4);
    assert_eq!(
        ProductionType::IronWorks.relative_tiles_used(),
        TileCoverage::Rectangular {
            north_west_inclusive: TileCoordsXZ::new(-1, -1),
            south_east_inclusive: TileCoordsXZ::new(1, 1),
        }
    );
}

#[test]
fn every_input_within_a_supply_chain_is_produced_within_it() {
    let chain = SupplyChain::new();
    for target in IndustryType::all() {
        for resource in ResourceType::all() {
            let industries = chain.industries_for_resource_and_target(resource, target);
            if industries.is_empty() {
                continue;
            }
            for industry in &industries[.. industries.len() - 1] {
                for input in industry.input_resource_types() {
                    assert!(industries.iter().any(|other| other.produces(input)), "{input:?} for {industry:?}");
                }
            }
        }
    }
    assert_eq!(chain.industries_for_resource_and_target(ResourceType::Coal, IndustryType::PowerPlant), vec![]);
}
