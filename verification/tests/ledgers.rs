use trade_world::errors::EconomyError;
use trade_world::land::Land;
use trade_world::workers::{WorkerCategory, WorkerType, Workers};

#[test]
fn land_new_starts_full() {
    let land = Land::new(500);
    assert_eq!(land.total, 500);
    assert_eq!(land.available, 500);
    assert_eq!(land.used(), 0);
}

#[test]
fn land_use_and_free_conserve_total() {
    let mut land = Land::new(500);
    assert!(land.use_land(120).is_ok());
    assert_eq!(land.available, 380);
    assert_eq!(land.used(), 120);
    assert_eq!(land.available + land.used(), land.total);
    assert!(land.free_land(20).is_ok());
    assert_eq!(land.available, 400);
    assert_eq!(land.available + land.used(), land.total);
}

#[test]
fn land_use_insufficient_is_rejected_without_change() {
    let mut land = Land::new(100);
    assert!(land.use_land(60).is_ok());
    let r = land.use_land(41);
    assert_eq!(r, Err(EconomyError::InsufficientLand));
    assert_eq!(land.available, 40);
    assert_eq!(land.total, 100);
}

#[test]
fn land_free_more_than_used_is_over_release() {
    let mut land = Land::new(100);
    assert!(land.use_land(30).is_ok());
    let r = land.free_land(31);
    assert_eq!(r, Err(EconomyError::OverRelease));
    assert_eq!(land.available, 70);
}

#[test]
fn worker_category_fire_respects_assignments() {
    // total 10, assigned 8: firing 3 would leave 7 < 8 assigned
    let mut cat = WorkerCategory { total: 10, assigned: 8 };
    assert_eq!(cat.fire(3), Err(EconomyError::InsufficientAvailable));
    assert_eq!(cat.total, 10);
    assert_eq!(cat.assigned, 8);
    assert_eq!(cat.fire(1), Ok(()));
    assert_eq!(cat.total, 9);
    assert_eq!(cat.assigned, 8);
}

#[test]
fn worker_category_assign_and_unassign() {
    let mut cat = WorkerCategory::new();
    cat.hire(5);
    assert_eq!(cat.available(), 5);
    assert_eq!(cat.assign(6), Err(EconomyError::InsufficientAvailable));
    assert_eq!(cat.assign(3), Ok(()));
    assert_eq!(cat.available(), 2);
    assert_eq!(cat.unassign(4), Err(EconomyError::OverUnassign));
    assert_eq!(cat.unassign(3), Ok(()));
    assert_eq!(cat.available(), 5);
    // conservation: available + assigned == total after every operation
    assert_eq!(cat.available() + cat.assigned, cat.total);
}

#[test]
fn workers_check_assign_is_all_or_nothing() {
    let mut workers = Workers::new();
    workers.hire(WorkerType::Basic, 10);
    workers.hire(WorkerType::Advanced, 1);
    // advanced demand cannot be met, so the basic pool must stay untouched
    let demand = [(WorkerType::Basic, 5u64), (WorkerType::Advanced, 2u64)];
    let r = workers.check_assign(&demand);
    assert_eq!(r, Err(EconomyError::InsufficientWorkers));
    assert_eq!(workers.get_available(WorkerType::Basic), 10);
    assert_eq!(workers.get_available(WorkerType::Advanced), 1);
    // once both fit, both are assigned
    workers.hire(WorkerType::Advanced, 1);
    assert_eq!(workers.check_assign(&demand), Ok(()));
    assert_eq!(workers.get_available(WorkerType::Basic), 5);
    assert_eq!(workers.get_available(WorkerType::Advanced), 0);
}

#[test]
fn error_messages_are_displayable() {
    assert_eq!(EconomyError::InsufficientFunds.message(), "Insufficient funds.");
    assert_eq!(EconomyError::InsufficientLand.message(), "Not enough land available.");
}
