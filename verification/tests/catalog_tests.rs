use trade_world::housing::{Housing, HousingType};
use trade_world::production::ProductionType;
use trade_world::workers::WorkerType;

#[test]
fn worker_catalog_costs_are_in_cents() {
    assert_eq!(WorkerType::details(&WorkerType::Basic).cost, 10_000);
    assert_eq!(WorkerType::details(&WorkerType::Advanced).cost, 17_500);
    assert_eq!(WorkerType::details(&WorkerType::Expert).cost, 25_000);
    assert_eq!(WorkerType::details(&WorkerType::Basic).name, "Basic Worker");
    assert_eq!(WorkerType::all().len(), 3);
}

#[test]
fn housing_catalog_matches_the_fixed_table() {
    let standard = HousingType::Standard.details();
    assert_eq!(standard.cost, 75_000);
    assert_eq!(standard.land_used, 20);
    assert_eq!(standard.accomodates.0, 5);
    assert_eq!(standard.accomodates.1, WorkerType::Advanced);
    assert_eq!(
        HousingType::all(),
        vec![HousingType::Cheap, HousingType::Standard, HousingType::Fancy]
    );
}

#[test]
fn production_catalog_lists_each_crew() {
    let sawmill = ProductionType::Sawmill.details();
    assert_eq!(sawmill.cost, 100_000);
    assert_eq!(sawmill.land, 45);
    assert_eq!(
        sawmill.workers,
        vec![(WorkerType::Basic, 5), (WorkerType::Advanced, 2)]
    );
    let warehouse = ProductionType::Warehouse.details();
    assert!(warehouse.workers.is_empty());
    assert_eq!(ProductionType::all().len(), 4);
}

#[test]
fn housing_destroy_decrements_by_the_full_amount() {
    let mut housing = Housing::new();
    housing.build(HousingType::Fancy, 5);
    assert_eq!(housing.destroy(HousingType::Fancy, 3), Ok(()));
    assert_eq!(housing.fancy, 2);
}
