use crate::buildings::{lemma_capacity_le_footprint, Buildings};
use crate::errors::EconomyError;
use crate::housing::{
    housing_cost, housing_land, lemma_housing_footprint_bounds, HousingType,
};
use crate::inventory::Inventory;
use crate::land::Land;
use crate::production::{
    lemma_production_footprint_bounds, production_cost, production_land, production_workers,
    ProductionType,
};
use crate::workers::{demand, worker_cost, WorkerType, Workers};
use vstd::arithmetic::mul::{
    lemma_mul_inequality, lemma_mul_is_commutative, lemma_mul_is_distributive_add,
    lemma_mul_nonnegative,
};
use vstd::prelude::*;

verus! {

/// `c * a <= c * b` for a non-negative left factor.
proof fn lemma_mul_le_left(c: int, a: int, b: int)
    requires
        c >= 0,
        a <= b,
    ensures
        c * a <= c * b,
{
    lemma_mul_inequality(a, b, c);
    lemma_mul_is_commutative(a, c);
    lemma_mul_is_commutative(b, c);
}

/// `a <= c * a` once the factor `c` is at least one.
proof fn lemma_mul_le_self(c: int, a: int)
    requires
        c >= 1,
        a >= 0,
    ensures
        a <= c * a,
{
    lemma_mul_inequality(1, c, a);
    lemma_mul_is_commutative(c, a);
}

/// A product of two `u64` values fits in a `u128`.
proof fn lemma_u64_mul_fits_u128(a: u64, b: u64)
    ensures
        0 <= a * b <= u128::MAX,
{
    lemma_mul_nonnegative(a as int, b as int);
    lemma_mul_inequality(a as int, u64::MAX as int, b as int);
    lemma_mul_le_left(u64::MAX as int, b as int, u64::MAX as int);
    lemma_mul_is_commutative(u64::MAX as int, b as int);
}

/// The per-parcel mutable economy state: one land ledger, the building
/// stock, the worker pools and one item container.
///
/// Well-formedness ties the parts together: every component is well formed,
/// and the used portion of the land ledger is exactly the land footprint of
/// the building stock (buildings are the only thing that consumes land).
#[derive(Debug)]
pub struct TileState {
    pub inventory: Inventory,
    pub buildings: Buildings,
    pub land: Land,
    pub workers: Workers,
}

impl TileState {
    pub open spec fn wf(self) -> bool {
        &&& self.inventory.wf()
        &&& self.land.wf()
        &&& self.workers.wf()
        &&& self.land.spec_used() == self.buildings.land_footprint()
    }

    /// A fresh parcel state: 500 land, all available; no buildings, no
    /// workers, an empty container.
    pub fn new() -> (r: TileState)
        ensures
            r.wf(),
            r.land.total == 500,
            r.land.available == 500,
            forall|t: WorkerType|
                r.workers.spec_cat(t).total == 0 && r.workers.spec_cat(t).assigned == 0,
            forall|t: HousingType| r.buildings.housing.spec_count(t) == 0,
            forall|t: ProductionType| r.buildings.production.spec_count(t) == 0,
            r.inventory.items@.len() == 0,
            r.inventory.weight == 0,
            r.inventory.volume == 0,
            r.inventory.max_weight == 500_000,
            r.inventory.max_volume == 500_000,
    {
        TileState {
            inventory: Inventory::new(),
            buildings: Buildings::new(),
            land: Land::new(500),
            workers: Workers::new(),
        }
    }
}

/// One land parcel: static descriptive fields, an ownership flag, and the
/// mutable economy state. Only the flag and the state change over a session.
#[derive(Debug)]
pub struct Tile {
    pub id: String,
    pub description: String,
    pub resources: Vec<String>,
    pub price: u64,
    pub row: u32,
    pub col: u32,
    pub is_owned: bool,
    pub tile_state: TileState,
}

/// The descriptive fields and the ownership flag agree between two tiles.
pub open spec fn same_static_fields(a: Tile, b: Tile) -> bool {
    &&& a.id == b.id
    &&& a.description == b.description
    &&& a.resources == b.resources
    &&& a.price == b.price
    &&& a.row == b.row
    &&& a.col == b.col
    &&& a.is_owned == b.is_owned
}

impl Tile {
    pub open spec fn wf(self) -> bool {
        self.tile_state.wf()
    }

    /// Whether the caller's money covers `amount` buildings or hires at the
    /// given unit cost (in cents).
    pub open spec fn funds_ok(unit_cost: u64, amount: u64, money: u64) -> bool {
        money >= unit_cost * amount
    }

    /// Whether the available land covers `amount` buildings at the given
    /// per-unit footprint.
    pub open spec fn land_ok(self, unit_land: u64, amount: u64) -> bool {
        self.tile_state.land.available >= unit_land * amount
    }

    /// Whether the free workers of every tier cover the crew demanded by a
    /// production building type.
    pub open spec fn workers_ok(self, production_type: ProductionType) -> bool {
        &&& demand(production_workers(production_type), WorkerType::Basic)
            <= self.tile_state.workers.basic.spec_available()
        &&& demand(production_workers(production_type), WorkerType::Advanced)
            <= self.tile_state.workers.advanced.spec_available()
        &&& demand(production_workers(production_type), WorkerType::Expert)
            <= self.tile_state.workers.expert.spec_available()
    }

    /// An unowned placeholder tile with a fresh state.
    pub fn new() -> (r: Tile)
        ensures
            r.wf(),
            r.id@.len() == 0,
            r.description@.len() == 0,
            r.resources@.len() == 0,
            r.price == 0,
            r.row == 0,
            r.col == 0,
            !r.is_owned,
            r.tile_state.land.total == 500,
            r.tile_state.land.available == 500,
            forall|t: WorkerType|
                r.tile_state.workers.spec_cat(t).total == 0 && r.tile_state.workers.spec_cat(
                    t,
                ).assigned == 0,
            forall|t: HousingType| r.tile_state.buildings.housing.spec_count(t) == 0,
            forall|t: ProductionType| r.tile_state.buildings.production.spec_count(t) == 0,
            r.tile_state.inventory.items@.len() == 0,
            r.tile_state.inventory.weight == 0,
            r.tile_state.inventory.volume == 0,
            r.tile_state.inventory.max_weight == 500_000,
            r.tile_state.inventory.max_volume == 500_000,
    {
        Tile {
            id: String::new(),
            description: String::new(),
            resources: Vec::new(),
            price: 0,
            row: 0,
            col: 0,
            is_owned: false,
            tile_state: TileState::new(),
        }
    }

    /// How many workers of a tier are employed on this tile.
    pub fn hired_workers(&self, worker_type: WorkerType) -> (r: u64)
        ensures
            r == self.tile_state.workers.spec_cat(worker_type).total,
    {
        self.tile_state.workers.get_total(worker_type)
    }

    /// How many workers of a tier the housing stock can accommodate.
    pub fn workers_can_accommodate(&self, worker_type: WorkerType) -> (r: u64)
        requires
            self.wf(),
        ensures
            r == self.tile_state.buildings.spec_capacity(worker_type),
    {
        proof {
            lemma_capacity_le_footprint(self.tile_state.buildings, worker_type);
        }
        self.tile_state.buildings.get_capacity(worker_type)
    }

    /// Hires `amount` workers of a tier: refuses `InsufficientHousing` when
    /// the housing capacity for the tier is already met or exceeded, then
    /// `InsufficientFunds` when the money does not cover the hiring cost;
    /// otherwise debits the money and employs the workers. No mutation at
    /// all on failure.
    pub fn hire_workers(&mut self, worker_type: WorkerType, money: &mut u64, amount: u64) -> (r:
        Result<(), EconomyError>)
        requires
            old(self).wf(),
            old(self).tile_state.workers.spec_cat(worker_type).total + amount <= u64::MAX,
        ensures
            final(self).wf(),
            same_static_fields(*final(self), *old(self)),
            final(self).tile_state.inventory == old(self).tile_state.inventory,
            final(self).tile_state.land == old(self).tile_state.land,
            final(self).tile_state.buildings == old(self).tile_state.buildings,
            r == Err::<(), EconomyError>(EconomyError::InsufficientHousing) <==> old(self).tile_state.buildings.spec_capacity(worker_type) <= old(self).tile_state.workers.spec_cat(worker_type).total,
            r == Err::<(), EconomyError>(EconomyError::InsufficientFunds) <==> (old(self).tile_state.buildings.spec_capacity(worker_type) > old(self).tile_state.workers.spec_cat(worker_type).total && !Tile::funds_ok(
                worker_cost(worker_type),
                amount,
                *old(money),
            )),
            r is Ok <==> (old(self).tile_state.buildings.spec_capacity(worker_type) > old(self).tile_state.workers.spec_cat(worker_type).total && Tile::funds_ok(
                worker_cost(worker_type),
                amount,
                *old(money),
            )),
            r is Ok ==> *final(money) == *old(money) - worker_cost(worker_type) * amount,
            r is Ok ==> final(self).tile_state.workers.spec_cat(worker_type).total == old(self).tile_state.workers.spec_cat(worker_type).total + amount,
            r is Ok ==> final(self).tile_state.workers.spec_cat(worker_type).assigned == old(self).tile_state.workers.spec_cat(worker_type).assigned,
            r is Ok ==> forall|t: WorkerType|
                t != worker_type ==> final(self).tile_state.workers.spec_cat(t) == old(self).tile_state.workers.spec_cat(t),
            r is Err ==> *final(self) == *old(self) && *final(money) == *old(money),
    {
        let cost = worker_type.details().cost;
        let capacity = self.workers_can_accommodate(worker_type);
        let hired = self.hired_workers(worker_type);
        if capacity <= hired {
            return Err(EconomyError::InsufficientHousing);
        }
        proof {
            lemma_u64_mul_fits_u128(cost, amount);
        }
        let total_cost: u128 = (cost as u128) * (amount as u128);
        if (*money as u128) < total_cost {
            return Err(EconomyError::InsufficientFunds);
        }
        *money = *money - (total_cost as u64);
        self.tile_state.workers.hire(worker_type, amount);
        Ok(())
    }

    /// How many housing units of a type stand on this tile.
    pub fn owned_housing(&self, housing_type: HousingType) -> (r: u64)
        ensures
            r == self.tile_state.buildings.housing.spec_count(housing_type),
    {
        match housing_type {
            HousingType::Cheap => self.tile_state.buildings.housing.cheap,
            HousingType::Standard => self.tile_state.buildings.housing.standard,
            HousingType::Fancy => self.tile_state.buildings.housing.fancy,
        }
    }

    /// Builds `amount` housing units of a type: refuses `InsufficientFunds`
    /// when the money does not cover the building cost, then
    /// `InsufficientLand` when the available land does not cover the
    /// footprint; otherwise reserves the land, debits the money and
    /// increments the housing count. No mutation at all on failure.
    pub fn build_housing(&mut self, housing_type: HousingType, money: &mut u64, amount: u64) -> (r:
        Result<(), EconomyError>)
        requires
            old(self).wf(),
        ensures
            final(self).wf(),
            same_static_fields(*final(self), *old(self)),
            final(self).tile_state.inventory == old(self).tile_state.inventory,
            final(self).tile_state.workers == old(self).tile_state.workers,
            final(self).tile_state.buildings.production == old(self).tile_state.buildings.production,
            final(self).tile_state.land.total == old(self).tile_state.land.total,
            r == Err::<(), EconomyError>(EconomyError::InsufficientFunds) <==> !Tile::funds_ok(
                housing_cost(housing_type),
                amount,
                *old(money),
            ),
            r == Err::<(), EconomyError>(EconomyError::InsufficientLand) <==> (Tile::funds_ok(
                housing_cost(housing_type),
                amount,
                *old(money),
            ) && !old(self).land_ok(housing_land(housing_type), amount)),
            r is Ok <==> (Tile::funds_ok(housing_cost(housing_type), amount, *old(money)) && old(self).land_ok(housing_land(housing_type), amount)),
            r is Ok ==> *final(money) == *old(money) - housing_cost(housing_type) * amount,
            r is Ok ==> final(self).tile_state.land.available == old(self).tile_state.land.available - housing_land(housing_type) * amount,
            r is Ok ==> final(self).tile_state.buildings.housing.spec_count(housing_type) == old(self).tile_state.buildings.housing.spec_count(housing_type) + amount,
            r is Ok ==> forall|t: HousingType|
                t != housing_type ==> final(self).tile_state.buildings.housing.spec_count(t) == old(self).tile_state.buildings.housing.spec_count(t),
            r is Err ==> *final(self) == *old(self) && *final(money) == *old(money),
    {
        let details = housing_type.details();
        proof {
            lemma_u64_mul_fits_u128(details.cost, amount);
            lemma_u64_mul_fits_u128(details.land_used, amount);
        }
        let total_cost: u128 = (details.cost as u128) * (amount as u128);
        let total_land: u128 = (details.land_used as u128) * (amount as u128);
        if (*money as u128) < total_cost {
            return Err(EconomyError::InsufficientFunds);
        }
        if (self.tile_state.land.available as u128) < total_land {
            return Err(EconomyError::InsufficientLand);
        }
        let land_amount = total_land as u64;
        let used = self.tile_state.land.use_land(land_amount);
        proof {
            assert(used is Ok);
            // the housing count stays in range: its own land share already
            // fits the (grown) used portion of the ledger
            lemma_housing_footprint_bounds(old(self).tile_state.buildings.housing, housing_type);
            lemma_production_footprint_bounds(
                old(self).tile_state.buildings.production,
                ProductionType::Warehouse,
            );
            crate::housing::lemma_housing_land_positive(housing_type);
            lemma_mul_is_distributive_add(
                housing_land(housing_type) as int,
                old(self).tile_state.buildings.housing.spec_count(housing_type) as int,
                amount as int,
            );
            lemma_mul_le_self(
                housing_land(housing_type) as int,
                old(self).tile_state.buildings.housing.spec_count(housing_type) + amount,
            );
        }
        self.tile_state.buildings.housing.build(housing_type, amount);
        *money = *money - (total_cost as u64);
        Ok(())
    }

    /// Destroys `amount` housing units of a type: refuses `OverRelease` when
    /// fewer than `amount` units stand; otherwise releases their land and
    /// decrements the count. No mutation at all on failure.
    pub fn destroy_housing(&mut self, housing_type: HousingType, amount: u64) -> (r: Result<
        (),
        EconomyError,
    >)
        requires
            old(self).wf(),
        ensures
            final(self).wf(),
            same_static_fields(*final(self), *old(self)),
            final(self).tile_state.inventory == old(self).tile_state.inventory,
            final(self).tile_state.workers == old(self).tile_state.workers,
            final(self).tile_state.buildings.production == old(self).tile_state.buildings.production,
            final(self).tile_state.land.total == old(self).tile_state.land.total,
            r is Ok <==> amount <= old(self).tile_state.buildings.housing.spec_count(housing_type),
            r is Ok ==> final(self).tile_state.buildings.housing.spec_count(housing_type) == old(self).tile_state.buildings.housing.spec_count(housing_type) - amount,
            r is Ok ==> forall|t: HousingType|
                t != housing_type ==> final(self).tile_state.buildings.housing.spec_count(t) == old(self).tile_state.buildings.housing.spec_count(t),
            r is Ok ==> final(self).tile_state.land.available == old(self).tile_state.land.available + housing_land(housing_type) * amount,
            r is Err ==> *final(self) == *old(self) && r == Err::<(), EconomyError>(
                EconomyError::OverRelease,
            ),
    {
        let details = housing_type.details();
        let owned = self.owned_housing(housing_type);
        if owned < amount {
            return Err(EconomyError::OverRelease);
        }
        proof {
            lemma_u64_mul_fits_u128(details.land_used, amount);
            lemma_housing_footprint_bounds(self.tile_state.buildings.housing, housing_type);
            lemma_production_footprint_bounds(
                self.tile_state.buildings.production,
                ProductionType::Warehouse,
            );
            crate::housing::lemma_housing_land_positive(housing_type);
            lemma_mul_le_left(housing_land(housing_type) as int, amount as int, owned as int);
        }
        let total_land: u128 = (details.land_used as u128) * (amount as u128);
        let freed = self.tile_state.land.free_land(total_land as u64);
        proof {
            assert(freed is Ok);
            lemma_mul_is_distributive_add(
                housing_land(housing_type) as int,
                (old(self).tile_state.buildings.housing.spec_count(housing_type) - amount) as int,
                amount as int,
            );
        }
        let destroyed = self.tile_state.buildings.housing.destroy(housing_type, amount);
        proof {
            assert(destroyed is Ok);
        }
        Ok(())
    }

    /// How many production buildings of a type stand on this tile.
    pub fn owned_production_buildings(&self, production_type: ProductionType) -> (r: u64)
        ensures
            r == self.tile_state.buildings.production.spec_count(production_type),
    {
        match production_type {
            ProductionType::Warehouse => self.tile_state.buildings.production.warehouse,
            ProductionType::Sawmill => self.tile_state.buildings.production.sawmill,
            ProductionType::WaterPump => self.tile_state.buildings.production.water_pump,
            ProductionType::Workshop => self.tile_state.buildings.production.workshop,
        }
    }

    /// Builds `amount` production buildings of a type: refuses
    /// `InsufficientFunds`, then `InsufficientLand`, then
    /// `InsufficientWorkers` (the building type's whole crew demand is
    /// validated against every tier before any worker is assigned). On
    /// success the land is reserved, the crew is assigned, the money is
    /// debited and the building count increments. If any check fails, none
    /// of land, workers, money or building count changes.
    pub fn build_production(
        &mut self,
        production_type: ProductionType,
        money: &mut u64,
        amount: u64,
    ) -> (r: Result<(), EconomyError>)
        requires
            old(self).wf(),
        ensures
            final(self).wf(),
            same_static_fields(*final(self), *old(self)),
            final(self).tile_state.inventory == old(self).tile_state.inventory,
            final(self).tile_state.buildings.housing == old(self).tile_state.buildings.housing,
            final(self).tile_state.land.total == old(self).tile_state.land.total,
            r == Err::<(), EconomyError>(EconomyError::InsufficientFunds) <==> !Tile::funds_ok(
                production_cost(production_type),
                amount,
                *old(money),
            ),
            r == Err::<(), EconomyError>(EconomyError::InsufficientLand) <==> (Tile::funds_ok(
                production_cost(production_type),
                amount,
                *old(money),
            ) && !old(self).land_ok(production_land(production_type), amount)),
            r == Err::<(), EconomyError>(EconomyError::InsufficientWorkers) <==> (Tile::funds_ok(
                production_cost(production_type),
                amount,
                *old(money),
            ) && old(self).land_ok(production_land(production_type), amount) && !old(self).workers_ok(production_type)),
            r is Ok <==> (Tile::funds_ok(production_cost(production_type), amount, *old(money))
                && old(self).land_ok(production_land(production_type), amount) && old(self).workers_ok(production_type)),
            r is Ok ==> *final(money) == *old(money) - production_cost(production_type) * amount,
            r is Ok ==> final(self).tile_state.land.available == old(self).tile_state.land.available - production_land(production_type) * amount,
            r is Ok ==> final(self).tile_state.buildings.production.spec_count(production_type)
                == old(self).tile_state.buildings.production.spec_count(production_type) + amount,
            r is Ok ==> forall|t: ProductionType|
                t != production_type ==> final(self).tile_state.buildings.production.spec_count(t)
                    == old(self).tile_state.buildings.production.spec_count(t),
            r is Ok ==> final(self).tile_state.workers.basic.assigned == old(self).tile_state.workers.basic.assigned + demand(
                production_workers(production_type),
                WorkerType::Basic,
            ),
            r is Ok ==> final(self).tile_state.workers.advanced.assigned == old(self).tile_state.workers.advanced.assigned + demand(
                production_workers(production_type),
                WorkerType::Advanced,
            ),
            r is Ok ==> final(self).tile_state.workers.expert.assigned == old(self).tile_state.workers.expert.assigned + demand(
                production_workers(production_type),
                WorkerType::Expert,
            ),
            r is Ok ==> final(self).tile_state.workers.basic.total == old(self).tile_state.workers.basic.total && final(self).tile_state.workers.advanced.total
                == old(self).tile_state.workers.advanced.total && final(self).tile_state.workers.expert.total == old(self).tile_state.workers.expert.total,
            r is Err ==> *final(self) == *old(self) && *final(money) == *old(money),
    {
        let details = production_type.details();
        proof {
            lemma_u64_mul_fits_u128(details.cost, amount);
            lemma_u64_mul_fits_u128(details.land, amount);
        }
        let total_cost: u128 = (details.cost as u128) * (amount as u128);
        let total_land: u128 = (details.land as u128) * (amount as u128);
        if (*money as u128) < total_cost {
            return Err(EconomyError::InsufficientFunds);
        }
        if (self.tile_state.land.available as u128) < total_land {
            return Err(EconomyError::InsufficientLand);
        }
        match self.tile_state.workers.check_assign(details.workers.as_slice()) {
            Err(e) => {
                return Err(e);
            },
            Ok(()) => {},
        }
        let used = self.tile_state.land.use_land(total_land as u64);
        proof {
            assert(used is Ok);
            lemma_production_footprint_bounds(
                old(self).tile_state.buildings.production,
                production_type,
            );
            lemma_housing_footprint_bounds(
                old(self).tile_state.buildings.housing,
                HousingType::Cheap,
            );
            crate::production::lemma_production_land_positive(production_type);
            lemma_mul_is_distributive_add(
                production_land(production_type) as int,
                old(self).tile_state.buildings.production.spec_count(production_type) as int,
                amount as int,
            );
            lemma_mul_le_self(
                production_land(production_type) as int,
                old(self).tile_state.buildings.production.spec_count(production_type) + amount,
            );
        }
        self.tile_state.buildings.production.build(production_type, amount);
        *money = *money - (total_cost as u64);
        Ok(())
    }
}

} // verus!
