use crate::errors::EconomyError;
use vstd::prelude::*;

verus! {

/// A worker skill class, with distinct hiring cost and housing requirement.
#[derive(Debug, Clone, Copy, PartialEq, Eq, Structural, Hash)]
pub enum WorkerType {
    Basic,
    Advanced,
    Expert,
}

/// Catalog entry for a worker tier. `cost` is the hiring cost per worker,
/// in cents.
#[derive(Debug, Clone)]
pub struct WorkerDetails {
    pub name: String,
    pub description: String,
    pub cost: u64,
}

/// Hiring cost per worker of the given tier, in cents.
pub open spec fn worker_cost(t: WorkerType) -> u64 {
    match t {
        WorkerType::Basic => 10_000,
        WorkerType::Advanced => 17_500,
        WorkerType::Expert => 25_000,
    }
}

pub open spec fn worker_name(t: WorkerType) -> Seq<char> {
    match t {
        WorkerType::Basic => "Basic Worker"@,
        WorkerType::Advanced => "Advanced Worker"@,
        WorkerType::Expert => "Expert Worker"@,
    }
}

impl WorkerType {
    /// Every worker tier, in catalog order.
    pub fn all() -> (r: Vec<WorkerType>)
        ensures
            r@ == seq![WorkerType::Basic, WorkerType::Advanced, WorkerType::Expert],
    {
        let mut v: Vec<WorkerType> = Vec::new();
        v.push(WorkerType::Basic);
        v.push(WorkerType::Advanced);
        v.push(WorkerType::Expert);
        proof {
            assert(v@ =~= seq![WorkerType::Basic, WorkerType::Advanced, WorkerType::Expert]);
        }
        v
    }

    /// Catalog information about this worker tier.
    pub fn details(&self) -> (r: WorkerDetails)
        ensures
            r.cost == worker_cost(*self),
            r.name@ == worker_name(*self),
    {
        match self {
            WorkerType::Basic => WorkerDetails {
                name: String::from_str("Basic Worker"),
                description: String::from_str("Can perform the most simple tasks."),
                cost: 10_000,
            },
            WorkerType::Advanced => WorkerDetails {
                name: String::from_str("Advanced Worker"),
                description: String::from_str(
                    "Has good education and can perform more complex tasks.",
                ),
                cost: 17_500,
            },
            WorkerType::Expert => WorkerDetails {
                name: String::from_str("Expert Worker"),
                description: String::from_str(
                    "Has the skills to accomplish the most complex tasks.",
                ),
                cost: 25_000,
            },
        }
    }
}

/// One worker pool: how many workers of a tier are employed on a tile
/// (`total`) and how many of those are assigned to a job (`assigned`).
///
/// Well-formedness: `assigned <= total`; the free portion is always
/// `total - assigned`.
#[derive(Debug, Clone, Copy, PartialEq, Eq, Structural)]
pub struct WorkerCategory {
    pub total: u64,
    pub assigned: u64,
}

impl WorkerCategory {
    pub open spec fn wf(self) -> bool {
        self.assigned <= self.total
    }

    pub open spec fn spec_available(self) -> int {
        self.total - self.assigned
    }

    pub fn new() -> (r: WorkerCategory)
        ensures
            r.wf(),
            r.total == 0,
            r.assigned == 0,
    {
        WorkerCategory { total: 0, assigned: 0 }
    }

    pub fn available(&self) -> (r: u64)
        requires
            self.wf(),
        ensures
            r == self.spec_available(),
    {
        self.total - self.assigned
    }

    /// Employs `amount` more workers. Payment must already have been
    /// validated by the caller; this never fails.
    pub fn hire(&mut self, amount: u64)
        requires
            old(self).wf(),
            old(self).total + amount <= u64::MAX,
        ensures
            final(self).wf(),
            final(self).total == old(self).total + amount,
            final(self).assigned == old(self).assigned,
    {
        self.total = self.total + amount;
    }

    /// Dismisses `amount` workers, refusing (without any change) when that
    /// would push the employed count below the assigned count: a worker
    /// currently assigned to a job cannot be fired.
    pub fn fire(&mut self, amount: u64) -> (r: Result<(), EconomyError>)
        requires
            old(self).wf(),
        ensures
            final(self).wf(),
            final(self).assigned == old(self).assigned,
            r is Ok <==> amount <= old(self).spec_available(),
            r is Ok ==> final(self).total == old(self).total - amount,
            r is Err ==> *final(self) == *old(self) && r == Err::<(), EconomyError>(
                EconomyError::InsufficientAvailable,
            ),
    {
        if self.total - self.assigned >= amount {
            self.total = self.total - amount;
            Ok(())
        } else {
            Err(EconomyError::InsufficientAvailable)
        }
    }

    /// Moves `amount` workers from the free pool onto a job, refusing
    /// (without any change) when fewer than `amount` are free.
    pub fn assign(&mut self, amount: u64) -> (r: Result<(), EconomyError>)
        requires
            old(self).wf(),
        ensures
            final(self).wf(),
            final(self).total == old(self).total,
            r is Ok <==> amount <= old(self).spec_available(),
            r is Ok ==> final(self).assigned == old(self).assigned + amount,
            r is Err ==> *final(self) == *old(self) && r == Err::<(), EconomyError>(
                EconomyError::InsufficientAvailable,
            ),
    {
        if self.total - self.assigned >= amount {
            self.assigned = self.assigned + amount;
            Ok(())
        } else {
            Err(EconomyError::InsufficientAvailable)
        }
    }

    /// Returns `amount` workers from their job to the free pool, refusing
    /// (without any change) when fewer than `amount` are assigned.
    pub fn unassign(&mut self, amount: u64) -> (r: Result<(), EconomyError>)
        requires
            old(self).wf(),
        ensures
            final(self).wf(),
            final(self).total == old(self).total,
            r is Ok <==> amount <= old(self).assigned,
            r is Ok ==> final(self).assigned == old(self).assigned - amount,
            r is Err ==> *final(self) == *old(self) && r == Err::<(), EconomyError>(
                EconomyError::OverUnassign,
            ),
    {
        if self.assigned >= amount {
            self.assigned = self.assigned - amount;
            Ok(())
        } else {
            Err(EconomyError::OverUnassign)
        }
    }
}

/// Capacity-ledger conservation for one worker pool: in every well-formed
/// pool the assigned and free portions partition the employed total.
pub proof fn lemma_worker_conservation(cat: WorkerCategory)
    requires
        cat.wf(),
    ensures
        cat.spec_available() + cat.assigned == cat.total,
{
}

/// The worker pools of one tile, one per tier.
#[derive(Debug, Clone, Copy, PartialEq, Eq, Structural)]
pub struct Workers {
    pub basic: WorkerCategory,
    pub advanced: WorkerCategory,
    pub expert: WorkerCategory,
}

/// Total demand that a requirement list places on one tier: the sum of the
/// amounts requested for that tier.
pub open spec fn demand(ws: Seq<(WorkerType, u64)>, t: WorkerType) -> int
    decreases ws.len(),
{
    if ws.len() == 0 {
        0
    } else {
        (if ws[0].0 == t {
            ws[0].1 as int
        } else {
            0
        }) + demand(ws.drop_first(), t)
    }
}

pub proof fn lemma_demand_push(ws: Seq<(WorkerType, u64)>, x: (WorkerType, u64), t: WorkerType)
    ensures
        demand(ws.push(x), t) == demand(ws, t) + (if x.0 == t {
            x.1 as int
        } else {
            0
        }),
    decreases ws.len(),
{
    assert(ws.push(x)[0] == if ws.len() == 0 {
        x
    } else {
        ws[0]
    });
    if ws.len() == 0 {
        assert(ws.push(x).drop_first() =~= Seq::<(WorkerType, u64)>::empty());
        assert(demand(ws.push(x), t) == (if x.0 == t {
            x.1 as int
        } else {
            0
        }) + demand(Seq::<(WorkerType, u64)>::empty(), t));
    } else {
        assert(ws.push(x).drop_first() =~= ws.drop_first().push(x));
        lemma_demand_push(ws.drop_first(), x, t);
    }
}

pub proof fn lemma_demand_nonneg(ws: Seq<(WorkerType, u64)>, t: WorkerType)
    ensures
        demand(ws, t) >= 0,
    decreases ws.len(),
{
    if ws.len() > 0 {
        lemma_demand_nonneg(ws.drop_first(), t);
    }
}

impl Workers {
    pub open spec fn wf(self) -> bool {
        self.basic.wf() && self.advanced.wf() && self.expert.wf()
    }

    pub open spec fn spec_cat(self, t: WorkerType) -> WorkerCategory {
        match t {
            WorkerType::Basic => self.basic,
            WorkerType::Advanced => self.advanced,
            WorkerType::Expert => self.expert,
        }
    }

    pub fn new() -> (r: Workers)
        ensures
            r.wf(),
            forall|t: WorkerType| r.spec_cat(t).total == 0 && r.spec_cat(t).assigned == 0,
    {
        Workers {
            basic: WorkerCategory::new(),
            advanced: WorkerCategory::new(),
            expert: WorkerCategory::new(),
        }
    }

    pub fn get_total(&self, worker_type: WorkerType) -> (r: u64)
        ensures
            r == self.spec_cat(worker_type).total,
    {
        match worker_type {
            WorkerType::Basic => self.basic.total,
            WorkerType::Advanced => self.advanced.total,
            WorkerType::Expert => self.expert.total,
        }
    }

    pub fn get_available(&self, worker_type: WorkerType) -> (r: u64)
        requires
            self.wf(),
        ensures
            r == self.spec_cat(worker_type).spec_available(),
    {
        match worker_type {
            WorkerType::Basic => self.basic.available(),
            WorkerType::Advanced => self.advanced.available(),
            WorkerType::Expert => self.expert.available(),
        }
    }

    /// Assigns `amount` workers of one tier, refusing without any change
    /// when fewer than `amount` of that tier are free.
    pub fn assign(&mut self, worker_type: WorkerType, amount: u64) -> (r: Result<
        (),
        EconomyError,
    >)
        requires
            old(self).wf(),
        ensures
            final(self).wf(),
            r is Ok <==> amount <= old(self).spec_cat(worker_type).spec_available(),
            r is Ok ==> final(self).spec_cat(worker_type).assigned == old(self).spec_cat(
                worker_type,
            ).assigned + amount,
            r is Ok ==> final(self).spec_cat(worker_type).total == old(self).spec_cat(
                worker_type,
            ).total,
            r is Ok ==> forall|t: WorkerType|
                t != worker_type ==> final(self).spec_cat(t) == old(self).spec_cat(t),
            r is Err ==> *final(self) == *old(self) && r == Err::<(), EconomyError>(
                EconomyError::InsufficientAvailable,
            ),
    {
        match worker_type {
            WorkerType::Basic => self.basic.assign(amount),
            WorkerType::Advanced => self.advanced.assign(amount),
            WorkerType::Expert => self.expert.assign(amount),
        }
    }

    /// Employs `amount` more workers of one tier (payment already validated
    /// by the caller).
    pub fn hire(&mut self, worker_type: WorkerType, amount: u64)
        requires
            old(self).wf(),
            old(self).spec_cat(worker_type).total + amount <= u64::MAX,
        ensures
            final(self).wf(),
            final(self).spec_cat(worker_type).total == old(self).spec_cat(worker_type).total
                + amount,
            final(self).spec_cat(worker_type).assigned == old(self).spec_cat(
                worker_type,
            ).assigned,
            forall|t: WorkerType|
                t != worker_type ==> final(self).spec_cat(t) == old(self).spec_cat(t),
    {
        match worker_type {
            WorkerType::Basic => self.basic.hire(amount),
            WorkerType::Advanced => self.advanced.hire(amount),
            WorkerType::Expert => self.expert.hire(amount),
        }
    }

    /// All-or-nothing multi-tier reservation: validates the full demand that
    /// `workers` places on every tier before assigning any worker. Either
    /// every requested worker is assigned, or nothing changes at all.
    pub fn check_assign(&mut self, workers: &[(WorkerType, u64)]) -> (r: Result<(), EconomyError>)
        requires
            old(self).wf(),
        ensures
            final(self).wf(),
            r is Ok <==> (demand(workers@, WorkerType::Basic) <= old(self).basic.spec_available()
                && demand(workers@, WorkerType::Advanced) <= old(self).advanced.spec_available()
                && demand(workers@, WorkerType::Expert) <= old(self).expert.spec_available()),
            r is Ok ==> final(self).basic.assigned == old(self).basic.assigned + demand(
                workers@,
                WorkerType::Basic,
            ),
            r is Ok ==> final(self).advanced.assigned == old(self).advanced.assigned + demand(
                workers@,
                WorkerType::Advanced,
            ),
            r is Ok ==> final(self).expert.assigned == old(self).expert.assigned + demand(
                workers@,
                WorkerType::Expert,
            ),
            r is Ok ==> final(self).basic.total == old(self).basic.total,
            r is Ok ==> final(self).advanced.total == old(self).advanced.total,
            r is Ok ==> final(self).expert.total == old(self).expert.total,
            r is Err ==> *final(self) == *old(self) && r == Err::<(), EconomyError>(
                EconomyError::InsufficientWorkers,
            ),
    {
        let n = workers.len();
        let mut db: u128 = 0;
        let mut da: u128 = 0;
        let mut de: u128 = 0;
        let mut i: usize = 0;
        while i < n
            invariant
                n == workers@.len(),
                i <= n,
                db == demand(workers@.take(i as int), WorkerType::Basic),
                da == demand(workers@.take(i as int), WorkerType::Advanced),
                de == demand(workers@.take(i as int), WorkerType::Expert),
                db <= i * (u64::MAX as int),
                da <= i * (u64::MAX as int),
                de <= i * (u64::MAX as int),
            decreases n - i,
        {
            let (t, amount) = workers[i];
            proof {
                assert(workers@.take(i + 1 as int) =~= workers@.take(i as int).push(workers@[i as int]));
                lemma_demand_push(workers@.take(i as int), workers@[i as int], WorkerType::Basic);
                lemma_demand_push(workers@.take(i as int), workers@[i as int], WorkerType::Advanced);
                lemma_demand_push(workers@.take(i as int), workers@[i as int], WorkerType::Expert);
            }
            match t {
                WorkerType::Basic => {
                    db = db + amount as u128;
                },
                WorkerType::Advanced => {
                    da = da + amount as u128;
                },
                WorkerType::Expert => {
                    de = de + amount as u128;
                },
            }
            i = i + 1;
        }
        proof {
            assert(workers@.take(n as int) =~= workers@);
        }
        if db > self.basic.available() as u128 || da > self.advanced.available() as u128 || de
            > self.expert.available() as u128 {
            proof {
                lemma_demand_nonneg(workers@, WorkerType::Basic);
                lemma_demand_nonneg(workers@, WorkerType::Advanced);
                lemma_demand_nonneg(workers@, WorkerType::Expert);
            }
            return Err(EconomyError::InsufficientWorkers);
        }
        self.basic.assigned = self.basic.assigned + db as u64;
        self.advanced.assigned = self.advanced.assigned + da as u64;
        self.expert.assigned = self.expert.assigned + de as u64;
        Ok(())
    }
}

} // verus!
