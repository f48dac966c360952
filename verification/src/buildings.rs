use crate::housing::{housing_accommodates, housing_for, Housing};
use crate::production::Production;
use crate::workers::WorkerType;
use vstd::prelude::*;

verus! {

/// The building stock of one tile: production buildings and worker housing.
#[derive(Debug, Clone, Copy, PartialEq, Eq, Structural)]
pub struct Buildings {
    pub production: Production,
    pub housing: Housing,
}

impl Buildings {
    /// Total land occupied by every building counted here.
    pub open spec fn land_footprint(self) -> int {
        self.housing.land_footprint() + self.production.land_footprint()
    }

    /// How many workers of the given tier the housing stock accommodates:
    /// units of the tier's housing type times the accommodation per unit.
    pub open spec fn spec_capacity(self, t: WorkerType) -> int {
        housing_accommodates(housing_for(t)) * self.housing.spec_count(housing_for(t))
    }

    pub fn new() -> (r: Buildings)
        ensures
            forall|t: WorkerType| r.spec_capacity(t) == 0,
            r.land_footprint() == 0,
            forall|t: crate::production::ProductionType| r.production.spec_count(t) == 0,
            forall|t: crate::housing::HousingType| r.housing.spec_count(t) == 0,
    {
        Buildings { production: Production::new(), housing: Housing::new() }
    }

    pub fn get_capacity(&self, worker_type: WorkerType) -> (r: u64)
        requires
            self.spec_capacity(worker_type) <= u64::MAX,
        ensures
            r == self.spec_capacity(worker_type),
    {
        match worker_type {
            WorkerType::Basic => {
                proof {
                    assert(self.spec_capacity(worker_type) == 10 * self.housing.cheap);
                }
                self.housing.cheap * 10
            },
            WorkerType::Advanced => {
                proof {
                    assert(self.spec_capacity(worker_type) == 5 * self.housing.standard);
                }
                self.housing.standard * 5
            },
            WorkerType::Expert => {
                proof {
                    assert(self.spec_capacity(worker_type) == 3 * self.housing.fancy);
                }
                self.housing.fancy * 3
            },
        }
    }
}

/// A tier's worker capacity never exceeds the land footprint of the whole
/// building stock: accommodation per housing unit never exceeds the land one
/// unit occupies.
pub proof fn lemma_capacity_le_footprint(b: Buildings, t: WorkerType)
    ensures
        b.land_footprint() >= 0,
        b.spec_capacity(t) <= b.land_footprint(),
{
    crate::housing::lemma_housing_footprint_bounds(b.housing, housing_for(t));
    crate::production::lemma_production_footprint_bounds(
        b.production,
        crate::production::ProductionType::Warehouse,
    );
    match t {
        WorkerType::Basic => {
            assert(b.spec_capacity(t) == 10 * b.housing.cheap);
            assert(crate::housing::housing_land(housing_for(t)) * b.housing.spec_count(
                housing_for(t),
            ) == 10 * b.housing.cheap);
        },
        WorkerType::Advanced => {
            assert(b.spec_capacity(t) == 5 * b.housing.standard);
            assert(crate::housing::housing_land(housing_for(t)) * b.housing.spec_count(
                housing_for(t),
            ) == 20 * b.housing.standard);
        },
        WorkerType::Expert => {
            assert(b.spec_capacity(t) == 3 * b.housing.fancy);
            assert(crate::housing::housing_land(housing_for(t)) * b.housing.spec_count(
                housing_for(t),
            ) == 30 * b.housing.fancy);
        },
    }
}

} // verus!
