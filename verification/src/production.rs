use crate::workers::WorkerType;
use vstd::prelude::*;

verus! {

/// A production building type.
#[derive(Copy, Clone, Eq, PartialEq, Structural, Debug, Hash)]
pub enum ProductionType {
    Warehouse,
    Sawmill,
    Workshop,
    WaterPump,
}

/// Catalog entry for a production building type. `cost` is the building
/// cost in cents; `workers` lists the crew each building needs per tier;
/// `land` is the land footprint per building.
#[derive(Debug, Clone)]
pub struct ProductionDetails {
    pub name: String,
    pub description: String,
    pub cost: u64,
    pub workers: Vec<(WorkerType, u64)>,
    pub land: u64,
}

/// Building cost of the given production type, in cents.
pub open spec fn production_cost(t: ProductionType) -> u64 {
    match t {
        ProductionType::Warehouse => 60_000,
        ProductionType::Sawmill => 100_000,
        ProductionType::Workshop => 190_000,
        ProductionType::WaterPump => 70_000,
    }
}

/// Land used by one building of the given production type.
pub open spec fn production_land(t: ProductionType) -> u64 {
    match t {
        ProductionType::Warehouse => 50,
        ProductionType::Sawmill => 45,
        ProductionType::Workshop => 40,
        ProductionType::WaterPump => 25,
    }
}

/// The crew one building of the given production type needs.
pub open spec fn production_workers(t: ProductionType) -> Seq<(WorkerType, u64)> {
    match t {
        ProductionType::Warehouse => seq![],
        ProductionType::Sawmill => seq![(WorkerType::Basic, 5u64), (WorkerType::Advanced, 2u64)],
        ProductionType::Workshop => seq![(WorkerType::Advanced, 5u64), (WorkerType::Expert, 3u64)],
        ProductionType::WaterPump => seq![(WorkerType::Basic, 6u64)],
    }
}

impl ProductionType {
    /// Every production building type, in catalog order.
    pub fn all() -> (r: Vec<ProductionType>)
        ensures
            r@ == seq![
                ProductionType::Warehouse,
                ProductionType::Sawmill,
                ProductionType::Workshop,
                ProductionType::WaterPump,
            ],
    {
        let mut v: Vec<ProductionType> = Vec::new();
        v.push(ProductionType::Warehouse);
        v.push(ProductionType::Sawmill);
        v.push(ProductionType::Workshop);
        v.push(ProductionType::WaterPump);
        proof {
            assert(v@ =~= seq![
                ProductionType::Warehouse,
                ProductionType::Sawmill,
                ProductionType::Workshop,
                ProductionType::WaterPump,
            ]);
        }
        v
    }

    /// Catalog information about this production building type.
    pub fn details(&self) -> (r: ProductionDetails)
        ensures
            r.cost == production_cost(*self),
            r.land == production_land(*self),
            r.workers@ == production_workers(*self),
    {
        match self {
            ProductionType::Sawmill => {
                let mut crew: Vec<(WorkerType, u64)> = Vec::new();
                crew.push((WorkerType::Basic, 5));
                crew.push((WorkerType::Advanced, 2));
                proof {
                    assert(crew@ =~= production_workers(ProductionType::Sawmill));
                }
                ProductionDetails {
                    name: String::from_str("Sawmill"),
                    description: String::from_str("Processes logs into basic wood products."),
                    cost: 100_000,
                    workers: crew,
                    land: 45,
                }
            },
            ProductionType::Warehouse => {
                let crew: Vec<(WorkerType, u64)> = Vec::new();
                proof {
                    assert(crew@ =~= production_workers(ProductionType::Warehouse));
                }
                ProductionDetails {
                    name: String::from_str("Warehouse"),
                    description: String::from_str("Safe storage of materials."),
                    cost: 60_000,
                    workers: crew,
                    land: 50,
                }
            },
            ProductionType::Workshop => {
                let mut crew: Vec<(WorkerType, u64)> = Vec::new();
                crew.push((WorkerType::Advanced, 5));
                crew.push((WorkerType::Expert, 3));
                proof {
                    assert(crew@ =~= production_workers(ProductionType::Workshop));
                }
                ProductionDetails {
                    name: String::from_str("Workshop"),
                    description: String::from_str(
                        "Produces wooden items from basic wood products.",
                    ),
                    cost: 190_000,
                    workers: crew,
                    land: 40,
                }
            },
            ProductionType::WaterPump => {
                let mut crew: Vec<(WorkerType, u64)> = Vec::new();
                crew.push((WorkerType::Basic, 6));
                proof {
                    assert(crew@ =~= production_workers(ProductionType::WaterPump));
                }
                ProductionDetails {
                    name: String::from_str("Water Pump"),
                    description: String::from_str("Extracts water from nearby water sources."),
                    cost: 70_000,
                    workers: crew,
                    land: 25,
                }
            },
        }
    }
}

/// How many production buildings of each type stand on a tile.
#[derive(Debug, Clone, Copy, PartialEq, Eq, Structural)]
pub struct Production {
    pub warehouse: u64,
    pub sawmill: u64,
    pub workshop: u64,
    pub water_pump: u64,
}

impl Production {
    pub open spec fn spec_count(self, t: ProductionType) -> u64 {
        match t {
            ProductionType::Warehouse => self.warehouse,
            ProductionType::Sawmill => self.sawmill,
            ProductionType::Workshop => self.workshop,
            ProductionType::WaterPump => self.water_pump,
        }
    }

    /// Total land occupied by the production buildings counted here.
    pub open spec fn land_footprint(self) -> int {
        production_land(ProductionType::Warehouse) * self.warehouse + production_land(
            ProductionType::Sawmill,
        ) * self.sawmill + production_land(ProductionType::Workshop) * self.workshop
            + production_land(ProductionType::WaterPump) * self.water_pump
    }

    pub fn new() -> (r: Production)
        ensures
            forall|t: ProductionType| r.spec_count(t) == 0,
            r.land_footprint() == 0,
    {
        Production { warehouse: 0, sawmill: 0, workshop: 0, water_pump: 0 }
    }

    /// Records `amount` newly built buildings of one type. Funds, land and
    /// workers must already have been validated by the caller; this never
    /// fails.
    pub fn build(&mut self, production_type: ProductionType, amount: u64)
        requires
            old(self).spec_count(production_type) + amount <= u64::MAX,
        ensures
            final(self).spec_count(production_type) == old(self).spec_count(production_type)
                + amount,
            forall|t: ProductionType|
                t != production_type ==> final(self).spec_count(t) == old(self).spec_count(t),
            final(self).land_footprint() == old(self).land_footprint() + production_land(
                production_type,
            ) * amount,
    {
        match production_type {
            ProductionType::WaterPump => {
                self.water_pump = self.water_pump + amount;
                proof {
                    assert(production_land(production_type) == 25);
                    assert(self.land_footprint() == old(self).land_footprint() + 25 * amount);
                }
            },
            ProductionType::Warehouse => {
                self.warehouse = self.warehouse + amount;
                proof {
                    assert(production_land(production_type) == 50);
                    assert(self.land_footprint() == old(self).land_footprint() + 50 * amount);
                }
            },
            ProductionType::Workshop => {
                self.workshop = self.workshop + amount;
                proof {
                    assert(production_land(production_type) == 40);
                    assert(self.land_footprint() == old(self).land_footprint() + 40 * amount);
                }
            },
            ProductionType::Sawmill => {
                self.sawmill = self.sawmill + amount;
                proof {
                    assert(production_land(production_type) == 45);
                    assert(self.land_footprint() == old(self).land_footprint() + 45 * amount);
                }
            },
        }
    }
}

/// The production footprint is non-negative, and each type's own share (and
/// bare count) is bounded by it.
pub proof fn lemma_production_footprint_bounds(p: Production, t: ProductionType)
    ensures
        p.land_footprint() >= 0,
        production_land(t) * p.spec_count(t) <= p.land_footprint(),
        p.spec_count(t) <= p.land_footprint(),
{
    assert(production_land(ProductionType::Warehouse) == 50);
    assert(production_land(ProductionType::Sawmill) == 45);
    assert(production_land(ProductionType::Workshop) == 40);
    assert(production_land(ProductionType::WaterPump) == 25);
    match t {
        ProductionType::Warehouse => {
            assert(production_land(t) * p.spec_count(t) == 50 * p.warehouse);
        },
        ProductionType::Sawmill => {
            assert(production_land(t) * p.spec_count(t) == 45 * p.sawmill);
        },
        ProductionType::Workshop => {
            assert(production_land(t) * p.spec_count(t) == 40 * p.workshop);
        },
        ProductionType::WaterPump => {
            assert(production_land(t) * p.spec_count(t) == 25 * p.water_pump);
        },
    }
}

/// Every production building type occupies at least one unit of land.
pub proof fn lemma_production_land_positive(t: ProductionType)
    ensures
        production_land(t) >= 1,
{
    match t {
        ProductionType::Warehouse => {},
        ProductionType::Sawmill => {},
        ProductionType::Workshop => {},
        ProductionType::WaterPump => {},
    }
}

} // verus!
