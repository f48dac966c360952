use crate::errors::EconomyError;
use crate::workers::WorkerType;
use vstd::prelude::*;

verus! {

/// A housing quality class.
#[derive(Debug, Clone, Copy, PartialEq, Eq, Structural, Hash)]
pub enum HousingType {
    Cheap,
    Standard,
    Fancy,
}

/// How many workers one unit of a housing type accommodates, and of which
/// tier.
#[derive(Debug, Clone, Copy, PartialEq, Eq, Structural)]
pub struct Accomodation(pub u64, pub WorkerType);

/// Catalog entry for a housing type. `cost` is the building cost per unit,
/// in cents; `land_used` is the land footprint per unit.
#[derive(Debug, Clone)]
pub struct HousingDetails {
    pub name: String,
    pub description: String,
    pub cost: u64,
    pub accomodates: Accomodation,
    pub land_used: u64,
}

/// Building cost per unit of the given housing type, in cents.
pub open spec fn housing_cost(t: HousingType) -> u64 {
    match t {
        HousingType::Cheap => 50_000,
        HousingType::Standard => 75_000,
        HousingType::Fancy => 125_000,
    }
}

/// Land used per unit of the given housing type.
pub open spec fn housing_land(t: HousingType) -> u64 {
    match t {
        HousingType::Cheap => 10,
        HousingType::Standard => 20,
        HousingType::Fancy => 30,
    }
}

/// Workers accommodated per unit of the given housing type.
pub open spec fn housing_accommodates(t: HousingType) -> u64 {
    match t {
        HousingType::Cheap => 10,
        HousingType::Standard => 5,
        HousingType::Fancy => 3,
    }
}

/// The worker tier that a housing type accommodates.
pub open spec fn housing_tier(t: HousingType) -> WorkerType {
    match t {
        HousingType::Cheap => WorkerType::Basic,
        HousingType::Standard => WorkerType::Advanced,
        HousingType::Fancy => WorkerType::Expert,
    }
}

/// The housing type that accommodates a worker tier.
pub open spec fn housing_for(t: WorkerType) -> HousingType {
    match t {
        WorkerType::Basic => HousingType::Cheap,
        WorkerType::Advanced => HousingType::Standard,
        WorkerType::Expert => HousingType::Fancy,
    }
}

impl HousingType {
    /// Every housing type, in catalog order.
    pub fn all() -> (r: Vec<HousingType>)
        ensures
            r@ == seq![HousingType::Cheap, HousingType::Standard, HousingType::Fancy],
    {
        let mut v: Vec<HousingType> = Vec::new();
        v.push(HousingType::Cheap);
        v.push(HousingType::Standard);
        v.push(HousingType::Fancy);
        proof {
            assert(v@ =~= seq![HousingType::Cheap, HousingType::Standard, HousingType::Fancy]);
        }
        v
    }

    /// Catalog information about this housing type.
    pub fn details(&self) -> (r: HousingDetails)
        ensures
            r.cost == housing_cost(*self),
            r.land_used == housing_land(*self),
            r.accomodates.0 == housing_accommodates(*self),
            r.accomodates.1 == housing_tier(*self),
    {
        match self {
            HousingType::Cheap => HousingDetails {
                name: String::from_str("Cheap Housing"),
                description: String::from_str("The most basic shack."),
                cost: 50_000,
                accomodates: Accomodation(10, WorkerType::Basic),
                land_used: 10,
            },
            HousingType::Standard => HousingDetails {
                name: String::from_str("Standard Housing"),
                description: String::from_str("Normal housing with some comforts."),
                cost: 75_000,
                accomodates: Accomodation(5, WorkerType::Advanced),
                land_used: 20,
            },
            HousingType::Fancy => HousingDetails {
                name: String::from_str("Fancy Housing"),
                description: String::from_str("A fancy home fit for a king."),
                cost: 125_000,
                accomodates: Accomodation(3, WorkerType::Expert),
                land_used: 30,
            },
        }
    }
}

/// How many housing units of each type stand on a tile.
#[derive(Debug, Clone, Copy, PartialEq, Eq, Structural)]
pub struct Housing {
    pub cheap: u64,
    pub standard: u64,
    pub fancy: u64,
}

impl Housing {
    pub open spec fn spec_count(self, t: HousingType) -> u64 {
        match t {
            HousingType::Cheap => self.cheap,
            HousingType::Standard => self.standard,
            HousingType::Fancy => self.fancy,
        }
    }

    /// Total land occupied by the housing units counted here.
    pub open spec fn land_footprint(self) -> int {
        housing_land(HousingType::Cheap) * self.cheap + housing_land(HousingType::Standard)
            * self.standard + housing_land(HousingType::Fancy) * self.fancy
    }

    pub fn new() -> (r: Housing)
        ensures
            forall|t: HousingType| r.spec_count(t) == 0,
            r.land_footprint() == 0,
    {
        Housing { cheap: 0, standard: 0, fancy: 0 }
    }

    /// Records `amount` newly built units of one type. Funds and land must
    /// already have been validated by the caller; this never fails.
    pub fn build(&mut self, housing_type: HousingType, amount: u64)
        requires
            old(self).spec_count(housing_type) + amount <= u64::MAX,
        ensures
            final(self).spec_count(housing_type) == old(self).spec_count(housing_type) + amount,
            forall|t: HousingType|
                t != housing_type ==> final(self).spec_count(t) == old(self).spec_count(t),
            final(self).land_footprint() == old(self).land_footprint() + housing_land(
                housing_type,
            ) * amount,
    {
        match housing_type {
            HousingType::Cheap => {
                self.cheap = self.cheap + amount;
                proof {
                    assert(housing_land(housing_type) == 10);
                    assert(self.land_footprint() == old(self).land_footprint() + 10 * amount);
                }
            },
            HousingType::Standard => {
                self.standard = self.standard + amount;
                proof {
                    assert(housing_land(housing_type) == 20);
                    assert(self.land_footprint() == old(self).land_footprint() + 20 * amount);
                }
            },
            HousingType::Fancy => {
                self.fancy = self.fancy + amount;
                proof {
                    assert(housing_land(housing_type) == 30);
                    assert(self.land_footprint() == old(self).land_footprint() + 30 * amount);
                }
            },
        }
    }

    /// Removes `amount` units of one type from the count, refusing without
    /// any change when fewer than `amount` units stand.
    pub fn destroy(&mut self, housing_type: HousingType, amount: u64) -> (r: Result<(), EconomyError>)
        ensures
            r is Ok <==> amount <= old(self).spec_count(housing_type),
            r is Ok ==> final(self).spec_count(housing_type) == old(self).spec_count(housing_type)
                - amount,
            r is Ok ==> forall|t: HousingType|
                t != housing_type ==> final(self).spec_count(t) == old(self).spec_count(t),
            r is Ok ==> final(self).land_footprint() == old(self).land_footprint() - housing_land(
                housing_type,
            ) * amount,
            r is Err ==> *final(self) == *old(self) && r == Err::<(), EconomyError>(
                EconomyError::OverRelease,
            ),
    {
        match housing_type {
            HousingType::Cheap => {
                if self.cheap < amount {
                    return Err(EconomyError::OverRelease);
                }
                self.cheap = self.cheap - amount;
                proof {
                    assert(housing_land(housing_type) == 10);
                    assert(self.land_footprint() == old(self).land_footprint() - 10 * amount);
                }
            },
            HousingType::Standard => {
                if self.standard < amount {
                    return Err(EconomyError::OverRelease);
                }
                self.standard = self.standard - amount;
                proof {
                    assert(housing_land(housing_type) == 20);
                    assert(self.land_footprint() == old(self).land_footprint() - 20 * amount);
                }
            },
            HousingType::Fancy => {
                if self.fancy < amount {
                    return Err(EconomyError::OverRelease);
                }
                self.fancy = self.fancy - amount;
                proof {
                    assert(housing_land(housing_type) == 30);
                    assert(self.land_footprint() == old(self).land_footprint() - 30 * amount);
                }
            },
        }
        Ok(())
    }
}

/// The housing footprint is non-negative, and each type's own share (and
/// bare count) is bounded by it.
pub proof fn lemma_housing_footprint_bounds(h: Housing, t: HousingType)
    ensures
        h.land_footprint() >= 0,
        housing_land(t) * h.spec_count(t) <= h.land_footprint(),
        h.spec_count(t) <= h.land_footprint(),
{
    assert(housing_land(HousingType::Cheap) == 10);
    assert(housing_land(HousingType::Standard) == 20);
    assert(housing_land(HousingType::Fancy) == 30);
    match t {
        HousingType::Cheap => {
            assert(housing_land(t) * h.spec_count(t) == 10 * h.cheap);
        },
        HousingType::Standard => {
            assert(housing_land(t) * h.spec_count(t) == 20 * h.standard);
        },
        HousingType::Fancy => {
            assert(housing_land(t) * h.spec_count(t) == 30 * h.fancy);
        },
    }
}

/// Every housing type occupies at least one unit of land.
pub proof fn lemma_housing_land_positive(t: HousingType)
    ensures
        housing_land(t) >= 1,
{
    match t {
        HousingType::Cheap => {},
        HousingType::Standard => {},
        HousingType::Fancy => {},
    }
}

} // verus!
