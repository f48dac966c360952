use trade_world::errors::EconomyError;
use trade_world::game_state::GameState;
use trade_world::housing::HousingType;
use trade_world::production::ProductionType;
use trade_world::tile::Tile;
use trade_world::workers::WorkerType;

#[test]
fn build_production_fails_atomically_on_missing_workers() {
    // Land{total:500, available:500}; Sawmill costs 1000.00, needs 45 land
    // and 5 Basic + 2 Advanced workers, but only 3 Basic are available.
    let mut tile = Tile::new();
    tile.tile_state.workers.hire(WorkerType::Basic, 3);
    tile.tile_state.workers.hire(WorkerType::Advanced, 2);
    let mut money: u64 = 100_000;
    let r = tile.build_production(ProductionType::Sawmill, &mut money, 1);
    assert_eq!(r, Err(EconomyError::InsufficientWorkers));
    assert_eq!(tile.tile_state.land.available, 500);
    assert_eq!(money, 100_000);
    assert_eq!(tile.owned_production_buildings(ProductionType::Sawmill), 0);
    assert_eq!(tile.tile_state.workers.get_available(WorkerType::Basic), 3);
    assert_eq!(tile.tile_state.workers.get_available(WorkerType::Advanced), 2);
}

#[test]
fn build_production_succeeds_with_workers_land_and_funds() {
    let mut tile = Tile::new();
    tile.tile_state.workers.hire(WorkerType::Basic, 6);
    tile.tile_state.workers.hire(WorkerType::Advanced, 2);
    let mut money: u64 = 150_000;
    let r = tile.build_production(ProductionType::Sawmill, &mut money, 1);
    assert_eq!(r, Ok(()));
    assert_eq!(money, 50_000);
    assert_eq!(tile.tile_state.land.available, 455);
    assert_eq!(tile.owned_production_buildings(ProductionType::Sawmill), 1);
    assert_eq!(tile.tile_state.workers.get_available(WorkerType::Basic), 1);
    assert_eq!(tile.tile_state.workers.get_available(WorkerType::Advanced), 0);
}

#[test]
fn build_production_checks_funds_then_land() {
    let mut tile = Tile::new();
    let mut money: u64 = 10_000;
    let r = tile.build_production(ProductionType::Warehouse, &mut money, 1);
    assert_eq!(r, Err(EconomyError::InsufficientFunds));
    assert_eq!(money, 10_000);

    let mut rich: u64 = 100_000_000;
    // 11 warehouses need 550 land but only 500 exist
    let r = tile.build_production(ProductionType::Warehouse, &mut rich, 11);
    assert_eq!(r, Err(EconomyError::InsufficientLand));
    assert_eq!(rich, 100_000_000);
    assert_eq!(tile.tile_state.land.available, 500);
}

#[test]
fn build_housing_reserves_land_and_money() {
    let mut tile = Tile::new();
    let mut money: u64 = 200_000;
    // cheap housing: 500.00 and 10 land per unit
    let r = tile.build_housing(HousingType::Cheap, &mut money, 2);
    assert_eq!(r, Ok(()));
    assert_eq!(money, 100_000);
    assert_eq!(tile.tile_state.land.available, 480);
    assert_eq!(tile.owned_housing(HousingType::Cheap), 2);

    let r = tile.build_housing(HousingType::Fancy, &mut money, 1);
    assert_eq!(r, Err(EconomyError::InsufficientFunds));
    assert_eq!(money, 100_000);
    assert_eq!(tile.owned_housing(HousingType::Fancy), 0);

    let mut rich: u64 = 10_000_000;
    // 49 standard houses need 980 land; only 480 are left
    let r = tile.build_housing(HousingType::Standard, &mut rich, 49);
    assert_eq!(r, Err(EconomyError::InsufficientLand));
    assert_eq!(rich, 10_000_000);
    assert_eq!(tile.tile_state.land.available, 480);
}

#[test]
fn destroy_housing_frees_land() {
    let mut tile = Tile::new();
    let mut money: u64 = 1_000_000;
    assert_eq!(tile.build_housing(HousingType::Standard, &mut money, 3), Ok(()));
    assert_eq!(tile.tile_state.land.available, 440);
    assert_eq!(tile.destroy_housing(HousingType::Standard, 2), Ok(()));
    assert_eq!(tile.owned_housing(HousingType::Standard), 1);
    assert_eq!(tile.tile_state.land.available, 480);
    // destroying more than stand is a caller bug, reported without change
    assert_eq!(
        tile.destroy_housing(HousingType::Standard, 2),
        Err(EconomyError::OverRelease)
    );
    assert_eq!(tile.owned_housing(HousingType::Standard), 1);
    assert_eq!(tile.tile_state.land.available, 480);
}

#[test]
fn hire_workers_needs_housing_then_funds() {
    let mut tile = Tile::new();
    let mut money: u64 = 1_000_000;
    // no housing yet: capacity 0 <= hired 0
    assert_eq!(
        tile.hire_workers(WorkerType::Basic, &mut money, 1),
        Err(EconomyError::InsufficientHousing)
    );
    assert_eq!(tile.hired_workers(WorkerType::Basic), 0);
    assert_eq!(money, 1_000_000);

    assert_eq!(tile.build_housing(HousingType::Cheap, &mut money, 1), Ok(()));
    assert_eq!(tile.workers_can_accommodate(WorkerType::Basic), 10);
    let mut poor: u64 = 5_000;
    assert_eq!(
        tile.hire_workers(WorkerType::Basic, &mut poor, 1),
        Err(EconomyError::InsufficientFunds)
    );
    assert_eq!(poor, 5_000);

    // basic workers cost 100.00 each
    assert_eq!(tile.hire_workers(WorkerType::Basic, &mut money, 3), Ok(()));
    assert_eq!(tile.hired_workers(WorkerType::Basic), 3);
    assert_eq!(money, 950_000 - 30_000);
}

#[test]
fn capacity_ledgers_reconcile_after_aggregate_operations() {
    let mut tile = Tile::new();
    let mut money: u64 = 10_000_000;
    assert_eq!(tile.build_housing(HousingType::Cheap, &mut money, 2), Ok(()));
    assert_eq!(tile.hire_workers(WorkerType::Basic, &mut money, 8), Ok(()));
    assert_eq!(tile.build_production(ProductionType::WaterPump, &mut money, 1), Ok(()));
    // land: available + used == total
    let land = tile.tile_state.land;
    assert_eq!(land.available + land.used(), land.total);
    assert_eq!(land.used(), 2 * 10 + 25);
    // workers: available + assigned == total for the basic pool
    let basic = tile.tile_state.workers.basic;
    assert_eq!(basic.total - basic.assigned, tile.tile_state.workers.get_available(WorkerType::Basic));
    assert_eq!(basic.total, 8);
    assert_eq!(basic.assigned, 6);
}

#[test]
fn buy_tile_debits_cash_and_marks_ownership() {
    let mut state = GameState::new();
    assert_eq!(state.cash, 1_000_000);
    let mut tile = Tile::new();
    tile.id = String::from("STR-1001");
    tile.price = 49_090;
    state.tiles.push(tile);
    assert!(state.buy_tile(0));
    assert_eq!(state.cash, 1_000_000 - 49_090);
    assert!(state.tiles[0].is_owned);

    let mut dear = Tile::new();
    dear.price = 100_000_000;
    state.tiles.push(dear);
    assert!(!state.buy_tile(1));
    assert_eq!(state.cash, 1_000_000 - 49_090);
    assert!(!state.tiles[1].is_owned);
}
