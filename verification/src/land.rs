use crate::errors::EconomyError;
use vstd::prelude::*;

verus! {

/// A single land pool with a used/available split.
///
/// Well-formedness: `available <= total`; the used portion is always
/// `total - available`, so `available + used == total` holds by construction
/// and every operation below preserves it.
#[derive(Clone, Copy, Debug, PartialEq, Eq, Structural)]
pub struct Land {
    pub total: u64,
    pub available: u64,
}

impl Land {
    pub open spec fn wf(self) -> bool {
        self.available <= self.total
    }

    pub open spec fn spec_used(self) -> int {
        self.total - self.available
    }

    /// A fresh pool starts with all of its land available.
    pub fn new(total: u64) -> (r: Land)
        ensures
            r.wf(),
            r.total == total,
            r.available == total,
    {
        Land { total, available: total }
    }

    pub fn used(&self) -> (r: u64)
        requires
            self.wf(),
        ensures
            r == self.spec_used(),
    {
        self.total - self.available
    }

    /// Reserves `amount` units, or refuses without any change when fewer
    /// than `amount` are available (check-then-act, no partial effect).
    pub fn use_land(&mut self, amount: u64) -> (r: Result<(), EconomyError>)
        requires
            old(self).wf(),
        ensures
            final(self).wf(),
            final(self).total == old(self).total,
            r is Ok <==> amount <= old(self).available,
            r is Ok ==> final(self).available == old(self).available - amount,
            r is Err ==> *final(self) == *old(self) && r == Err::<(), EconomyError>(
                EconomyError::InsufficientLand,
            ),
    {
        if self.available >= amount {
            self.available = self.available - amount;
            Ok(())
        } else {
            Err(EconomyError::InsufficientLand)
        }
    }

    /// Releases `amount` units back to the pool, or refuses without any
    /// change when more than the used portion would be released.
    pub fn free_land(&mut self, amount: u64) -> (r: Result<(), EconomyError>)
        requires
            old(self).wf(),
        ensures
            final(self).wf(),
            final(self).total == old(self).total,
            r is Ok <==> amount <= old(self).spec_used(),
            r is Ok ==> final(self).available == old(self).available + amount,
            r is Err ==> *final(self) == *old(self) && r == Err::<(), EconomyError>(
                EconomyError::OverRelease,
            ),
    {
        if self.total - self.available >= amount {
            self.available = self.available + amount;
            Ok(())
        } else {
            Err(EconomyError::OverRelease)
        }
    }
}

/// Capacity-ledger conservation for land: in every well-formed pool the
/// available and used portions partition the total.
pub proof fn lemma_land_conservation(land: Land)
    requires
        land.wf(),
    ensures
        land.available + land.spec_used() == land.total,
{
}

} // verus!
