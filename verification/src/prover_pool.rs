//! The pool of prover workers: which workers exist and which of them can take a job.
//!
//! Each worker is a thread that owns one prover. The pool here follows what those
//! threads report of themselves and decides over it.

use vstd::prelude::*;

use crate::config::ProversConfig;
use crate::requests::WorkerRole;

verus! {

/// Job type for worker availability checks.
#[derive(Debug, Clone, Copy, PartialEq, Eq, Structural)]
pub enum JobType {
    ShardedApp,
    Leaf,
    Internal,
    /// In-process EVM prove step.
    Root,
    /// In-process EVM prove step.
    Halo2,
}

/// What a worker thread reports of itself.
#[derive(Debug, Clone, Copy, PartialEq, Eq, Structural)]
pub struct WorkerStatus {
    pub is_busy: bool,
    /// Set once the prover is built and the worker accepts jobs.
    pub is_initialized: bool,
}

impl WorkerStatus {
    /// Whether the worker can take a job.
    pub open spec fn available(self) -> bool {
        !self.is_busy && self.is_initialized
    }

    /// Whether the worker can take a job.
    pub fn is_available(self) -> (r: bool)
        ensures
            r == self.available(),
    {
        !self.is_busy && self.is_initialized
    }
}

/// How many of `workers` can take a job.
pub open spec fn available_in(workers: Seq<WorkerStatus>) -> nat
    decreases workers.len(),
{
    if workers.len() == 0 {
        0
    } else {
        available_in(workers.drop_last()) + if workers.last().available() {
            1nat
        } else {
            0nat
        }
    }
}

/// How many of `workers` are busy.
pub open spec fn busy_in(workers: Seq<WorkerStatus>) -> nat
    decreases workers.len(),
{
    if workers.len() == 0 {
        0
    } else {
        busy_in(workers.drop_last()) + if workers.last().is_busy {
            1nat
        } else {
            0nat
        }
    }
}

/// How many of `workers` are initialized.
pub open spec fn initialized_in(workers: Seq<WorkerStatus>) -> nat
    decreases workers.len(),
{
    if workers.len() == 0 {
        0
    } else {
        initialized_in(workers.drop_last()) + if workers.last().is_initialized {
            1nat
        } else {
            0nat
        }
    }
}

fn count_available(workers: &Vec<WorkerStatus>) -> (r: usize)
    ensures
        r == available_in(workers@),
        r <= workers@.len(),
{
    let mut count: usize = 0;
    let mut i: usize = 0;
    while i < workers.len()
        invariant
            i <= workers@.len(),
            count <= i,
            count == available_in(workers@.take(i as int)),
        decreases workers@.len() - i,
    {
        assert(workers@.take(i + 1).drop_last() =~= workers@.take(i as int));
        if workers[i].is_available() {
            count = count + 1;
        }
        i = i + 1;
    }
    assert(workers@.take(workers@.len() as int) =~= workers@);
    count
}

fn count_busy(workers: &Vec<WorkerStatus>) -> (r: usize)
    ensures
        r == busy_in(workers@),
        r <= workers@.len(),
{
    let mut count: usize = 0;
    let mut i: usize = 0;
    while i < workers.len()
        invariant
            i <= workers@.len(),
            count <= i,
            count == busy_in(workers@.take(i as int)),
        decreases workers@.len() - i,
    {
        assert(workers@.take(i + 1).drop_last() =~= workers@.take(i as int));
        if workers[i].is_busy {
            count = count + 1;
        }
        i = i + 1;
    }
    assert(workers@.take(workers@.len() as int) =~= workers@);
    count
}

fn count_initialized(workers: &Vec<WorkerStatus>) -> (r: usize)
    ensures
        r == initialized_in(workers@),
        r <= workers@.len(),
{
    let mut count: usize = 0;
    let mut i: usize = 0;
    while i < workers.len()
        invariant
            i <= workers@.len(),
            count <= i,
            count == initialized_in(workers@.take(i as int)),
        decreases workers@.len() - i,
    {
        assert(workers@.take(i + 1).drop_last() =~= workers@.take(i as int));
        if workers[i].is_initialized {
            count = count + 1;
        }
        i = i + 1;
    }
    assert(workers@.take(workers@.len() as int) =~= workers@);
    count
}

/// Whether any of `workers` can take a job.
pub open spec fn any_available(workers: Seq<WorkerStatus>) -> bool {
    exists|i: int| 0 <= i < workers.len() && (#[trigger] workers[i]).available()
}

/// Whether all of `workers` are initialized.
pub open spec fn all_initialized(workers: Seq<WorkerStatus>) -> bool {
    forall|i: int| 0 <= i < workers.len() ==> (#[trigger] workers[i]).is_initialized
}

/// The first worker at or after `from` that can take a job.
pub fn next_available(workers: &Vec<WorkerStatus>, from: usize) -> (r: Option<usize>)
    ensures
        r matches Some(i) ==> from <= i < workers@.len() && workers@[i as int].available()
            && forall|j: int| from <= j < i ==> !(#[trigger] workers@[j]).available(),
        r is None ==> forall|j: int|
            from <= j < workers@.len() ==> !(#[trigger] workers@[j]).available(),
{
    let mut i: usize = from;
    while i < workers.len()
        invariant
            from <= i,
            forall|j: int|
                from <= j < i && j < workers@.len() ==> !(#[trigger] workers@[j]).available(),
        decreases workers@.len() - i,
    {
        if workers[i].is_available() {
            return Some(i);
        }
        i = i + 1;
    }
    None
}

fn check_all_initialized(workers: &Vec<WorkerStatus>) -> (r: bool)
    ensures
        r == all_initialized(workers@),
{
    let mut i: usize = 0;
    while i < workers.len()
        invariant
            i <= workers@.len(),
            forall|j: int| 0 <= j < i ==> (#[trigger] workers@[j]).is_initialized,
        decreases workers@.len() - i,
    {
        if !workers[i].is_initialized {
            return false;
        }
        i = i + 1;
    }
    true
}

fn fresh_workers(count: usize) -> (r: Vec<WorkerStatus>)
    ensures
        r@ == Seq::new(
            count as nat,
            |i: int| WorkerStatus { is_busy: false, is_initialized: false },
        ),
{
    let mut workers: Vec<WorkerStatus> = Vec::new();
    let mut i: usize = 0;
    while i < count
        invariant
            i <= count,
            workers@.len() == i,
            forall|j: int|
                0 <= j < i ==> #[trigger] workers@[j] == (WorkerStatus {
                    is_busy: false,
                    is_initialized: false,
                }),
        decreases count - i,
    {
        workers.push(WorkerStatus { is_busy: false, is_initialized: false });
        i = i + 1;
    }
    assert(workers@ =~= Seq::new(
        count as nat,
        |i: int| WorkerStatus { is_busy: false, is_initialized: false },
    ));
    workers
}

/// How many workers of a type a role builds out of `config`.
pub open spec fn pool_size(config: ProversConfig, role: WorkerRole, job_type: JobType) -> usize {
    match job_type {
        JobType::ShardedApp => if role.proves_stark() {
            config.max_app_provers
        } else {
            0
        },
        JobType::Leaf => if role.proves_stark() {
            config.max_leaf_provers
        } else {
            0
        },
        JobType::Internal => if role.proves_stark() {
            config.max_internal_provers
        } else {
            0
        },
        JobType::Root => if role.proves_evm() {
            config.max_root_provers
        } else {
            0
        },
        JobType::Halo2 => if role.proves_evm() {
            config.max_halo2_provers
        } else {
            0
        },
    }
}

/// The workers of a pool, as they last reported themselves.
///
/// App workers are program-agnostic: any free one can take any job, and loads the
/// prover of the job's program if it holds another.
pub struct ProverPool {
    pub app_workers: Vec<WorkerStatus>,
    pub leaf_workers: Vec<WorkerStatus>,
    pub internal_workers: Vec<WorkerStatus>,
    pub root_workers: Vec<WorkerStatus>,
    pub halo2_workers: Vec<WorkerStatus>,
    /// Whether the pool was shut down.
    pub cancelled: bool,
}

impl ProverPool {
    /// The workers of a type.
    pub open spec fn workers_of(self, job_type: JobType) -> Seq<WorkerStatus> {
        match job_type {
            JobType::ShardedApp => self.app_workers@,
            JobType::Leaf => self.leaf_workers@,
            JobType::Internal => self.internal_workers@,
            JobType::Root => self.root_workers@,
            JobType::Halo2 => self.halo2_workers@,
        }
    }

    /// A pool whose workers have not reported yet. The role decides which kinds of
    /// worker there are: one that runs STARK proving has app, leaf and internal
    /// workers, one that runs the EVM step has root and halo2 workers.
    pub fn new(config: &ProversConfig, role: WorkerRole) -> (r: Self)
        ensures
            !r.cancelled,
            forall|t: JobType| (#[trigger] r.workers_of(t)).len() == pool_size(*config, role, t),
            forall|t: JobType, i: int|
                0 <= i < r.workers_of(t).len() ==> #[trigger] r.workers_of(t)[i] == (
                WorkerStatus { is_busy: false, is_initialized: false }),
    {
        let runs_stark = role.runs_stark_proving();
        let runs_evm = role.runs_evm_prove();
        let app_count = if runs_stark {
            config.max_app_provers
        } else {
            0
        };
        let leaf_count = if runs_stark {
            config.max_leaf_provers
        } else {
            0
        };
        let internal_count = if runs_stark {
            config.max_internal_provers
        } else {
            0
        };
        let root_count = if runs_evm {
            config.max_root_provers
        } else {
            0
        };
        let halo2_count = if runs_evm {
            config.max_halo2_provers
        } else {
            0
        };
        ProverPool {
            app_workers: fresh_workers(app_count),
            leaf_workers: fresh_workers(leaf_count),
            internal_workers: fresh_workers(internal_count),
            root_workers: fresh_workers(root_count),
            halo2_workers: fresh_workers(halo2_count),
            cancelled: false,
        }
    }

    /// The workers of a type.
    pub fn workers(&self, job_type: JobType) -> (r: &Vec<WorkerStatus>)
        ensures
            r@ == self.workers_of(job_type),
    {
        match job_type {
            JobType::ShardedApp => &self.app_workers,
            JobType::Leaf => &self.leaf_workers,
            JobType::Internal => &self.internal_workers,
            JobType::Root => &self.root_workers,
            JobType::Halo2 => &self.halo2_workers,
        }
    }

    /// Worker `idx` of a type reported its status.
    pub fn report(&mut self, job_type: JobType, idx: usize, status: WorkerStatus)
        requires
            idx < old(self).workers_of(job_type).len(),
        ensures
            final(self).cancelled == old(self).cancelled,
            final(self).workers_of(job_type) == old(self).workers_of(job_type).update(
                idx as int,
                status,
            ),
            forall|t: JobType|
                t != job_type ==> #[trigger] final(self).workers_of(t) == old(self).workers_of(t),
    {
        match job_type {
            JobType::ShardedApp => self.app_workers.set(idx, status),
            JobType::Leaf => self.leaf_workers.set(idx, status),
            JobType::Internal => self.internal_workers.set(idx, status),
            JobType::Root => self.root_workers.set(idx, status),
            JobType::Halo2 => self.halo2_workers.set(idx, status),
        }
    }

    /// Whether any worker of the given type is available.
    pub fn has_available_worker(&self, job_type: JobType) -> (r: bool)
        ensures
            r == any_available(self.workers_of(job_type)),
    {
        match next_available(self.workers(job_type), 0) {
            Some(i) => {
                assert(self.workers_of(job_type)[i as int].available());
                true
            },
            None => false,
        }
    }

    /// How many workers of the given type are busy.
    pub fn busy_count(&self, job_type: JobType) -> (r: usize)
        ensures
            r == busy_in(self.workers_of(job_type)),
    {
        count_busy(self.workers(job_type))
    }

    /// How many workers of the given type can take a job.
    pub fn available_count(&self, job_type: JobType) -> (r: usize)
        ensures
            r == available_in(self.workers_of(job_type)),
    {
        count_available(self.workers(job_type))
    }

    /// Whether all provers are initialized and ready to accept work.
    pub fn all_provers_initialized(&self) -> (r: bool)
        ensures
            r == forall|t: JobType| all_initialized(#[trigger] self.workers_of(t)),
            r == (all_initialized(self.app_workers@) && all_initialized(self.leaf_workers@)
                && all_initialized(self.internal_workers@) && all_initialized(self.root_workers@)
                && all_initialized(self.halo2_workers@)),
    {
        let r = check_all_initialized(&self.app_workers) && check_all_initialized(
            &self.leaf_workers,
        ) && check_all_initialized(&self.internal_workers) && check_all_initialized(
            &self.root_workers,
        ) && check_all_initialized(&self.halo2_workers);
        proof {
            if forall|t: JobType| all_initialized(#[trigger] self.workers_of(t)) {
                assert(all_initialized(self.workers_of(JobType::ShardedApp)));
                assert(all_initialized(self.workers_of(JobType::Leaf)));
                assert(all_initialized(self.workers_of(JobType::Internal)));
                assert(all_initialized(self.workers_of(JobType::Root)));
                assert(all_initialized(self.workers_of(JobType::Halo2)));
            }
        }
        r
    }

    /// How many workers of the given type are initialized.
    pub fn initialized_count(&self, job_type: JobType) -> (r: usize)
        ensures
            r == initialized_in(self.workers_of(job_type)),
    {
        count_initialized(self.workers(job_type))
    }

    /// The pool size for a given worker type.
    pub fn configured_count(&self, job_type: JobType) -> (r: usize)
        ensures
            r == self.workers_of(job_type).len(),
    {
        self.workers(job_type).len()
    }

    /// Shut the pool down: no further job is dispatched.
    pub fn shutdown(&mut self)
        ensures
            final(self).cancelled,
            forall|t: JobType| #[trigger] final(self).workers_of(t) == old(self).workers_of(t),
    {
        self.cancelled = true;
    }
}

/// A worker is available exactly if the count of available ones is not zero, and an
/// initialized worker is either available or busy.
pub proof fn counts_agree(workers: Seq<WorkerStatus>)
    ensures
        any_available(workers) <==> available_in(workers) > 0,
        available_in(workers) + busy_in(workers) <= workers.len(),
        all_initialized(workers) <==> initialized_in(workers) == workers.len(),
        initialized_in(workers) <= workers.len(),
        all_initialized(workers) ==> available_in(workers) + busy_in(workers) == workers.len(),
    decreases workers.len(),
{
    if workers.len() > 0 {
        let rest = workers.drop_last();
        counts_agree(rest);
        if any_available(rest) {
            let i = choose|i: int| 0 <= i < rest.len() && (#[trigger] rest[i]).available();
            assert(workers[i].available());
        }
        if any_available(workers) {
            let i = choose|i: int| 0 <= i < workers.len() && (#[trigger] workers[i]).available();
            if i < rest.len() {
                assert(rest[i].available());
            }
        }
        if all_initialized(rest) && workers.last().is_initialized {
            assert forall|i: int| 0 <= i < workers.len() implies (
            #[trigger] workers[i]).is_initialized by {
                if i < rest.len() {
                    assert(rest[i].is_initialized);
                }
            }
        }
        if all_initialized(workers) {
            assert forall|i: int| 0 <= i < rest.len() implies (
            #[trigger] rest[i]).is_initialized by {
                assert(workers[i].is_initialized);
            }
            assert(workers[workers.len() - 1].is_initialized);
        }
    }
}

/// A pool in which every role of the pipeline has its configured provers: `Full`
/// builds all kinds, `StarkOnly` no root and halo2 workers, `EvmDedicated` only
/// those.
pub proof fn role_gates_the_pool(config: ProversConfig)
    ensures
        pool_size(config, WorkerRole::Full, JobType::ShardedApp) == config.max_app_provers,
        pool_size(config, WorkerRole::Full, JobType::Leaf) == config.max_leaf_provers,
        pool_size(config, WorkerRole::Full, JobType::Internal) == config.max_internal_provers,
        pool_size(config, WorkerRole::Full, JobType::Root) == config.max_root_provers,
        pool_size(config, WorkerRole::Full, JobType::Halo2) == config.max_halo2_provers,
        forall|t: JobType|
            (t == JobType::Root || t == JobType::Halo2) ==> #[trigger] pool_size(
                config,
                WorkerRole::StarkOnly,
                t,
            ) == 0 && pool_size(config, WorkerRole::EvmDedicated, t) == pool_size(
                config,
                WorkerRole::Full,
                t,
            ),
        forall|t: JobType|
            (t != JobType::Root && t != JobType::Halo2) ==> #[trigger] pool_size(
                config,
                WorkerRole::EvmDedicated,
                t,
            ) == 0 && pool_size(config, WorkerRole::StarkOnly, t) == pool_size(
                config,
                WorkerRole::Full,
                t,
            ),
{
}

/// A worker can take a job exactly if its prover is built and it is not at another.
pub proof fn free_workers_are_built_and_idle(worker: WorkerStatus, r: bool)
    requires
        call_ensures(WorkerStatus::is_available, (worker,), r),
    ensures
        r <==> worker.is_initialized && !worker.is_busy,
{
}

/// The workers of each type are kept apart: what is said of one type is said of its own
/// workers. A type has a free worker exactly if one of them is built and not at a job.
pub proof fn each_type_has_its_own_workers(
    pool: &ProverPool,
    job_type: JobType,
    workers: Seq<WorkerStatus>,
    r: bool,
)
    requires
        call_ensures(ProverPool::has_available_worker, (pool, job_type), r),
        workers == match job_type {
            JobType::ShardedApp => pool.app_workers@,
            JobType::Leaf => pool.leaf_workers@,
            JobType::Internal => pool.internal_workers@,
            JobType::Root => pool.root_workers@,
            JobType::Halo2 => pool.halo2_workers@,
        },
    ensures
        r <==> exists|i: int|
            0 <= i < workers.len() && !(#[trigger] workers[i]).is_busy
                && workers[i].is_initialized,
{
    assert(workers == pool.workers_of(job_type));
    if r {
        let i = choose|i: int| 0 <= i < workers.len() && (#[trigger] workers[i]).available();
        assert(!workers[i].is_busy && workers[i].is_initialized);
    } else {
        assert forall|i: int| 0 <= i < workers.len() implies (#[trigger] workers[i]).is_busy
            || !workers[i].is_initialized by {
            assert(!workers[i].available());
        }
    }
}

/// A count goes up by one for each worker that it is about, and for no other.
pub proof fn counts_go_up_one_by_one(workers: Seq<WorkerStatus>, more: WorkerStatus)
    ensures
        available_in(Seq::<WorkerStatus>::empty()) == 0,
        busy_in(Seq::<WorkerStatus>::empty()) == 0,
        initialized_in(Seq::<WorkerStatus>::empty()) == 0,
        available_in(workers.push(more)) == available_in(workers) + if !more.is_busy
            && more.is_initialized {
            1int
        } else {
            0
        },
        busy_in(workers.push(more)) == busy_in(workers) + if more.is_busy {
            1int
        } else {
            0
        },
        initialized_in(workers.push(more)) == initialized_in(workers) + if more.is_initialized {
            1int
        } else {
            0
        },
{
    assert(workers.push(more).drop_last() =~= workers);
}

/// A new pool has the configured number of each kind of worker that its role calls for
/// and none of the others, and none of them has reported yet.
pub proof fn new_pools_follow_the_role(config: &ProversConfig, role: WorkerRole, r: ProverPool)
    requires
        call_ensures(ProverPool::new, (config, role), r),
    ensures
        !r.cancelled,
        r.app_workers@.len() == if role == WorkerRole::EvmDedicated {
            0
        } else {
            config.max_app_provers as int
        },
        r.leaf_workers@.len() == if role == WorkerRole::EvmDedicated {
            0
        } else {
            config.max_leaf_provers as int
        },
        r.internal_workers@.len() == if role == WorkerRole::EvmDedicated {
            0
        } else {
            config.max_internal_provers as int
        },
        r.root_workers@.len() == if role == WorkerRole::StarkOnly {
            0
        } else {
            config.max_root_provers as int
        },
        r.halo2_workers@.len() == if role == WorkerRole::StarkOnly {
            0
        } else {
            config.max_halo2_provers as int
        },
        forall|i: int|
            0 <= i < r.app_workers@.len() ==> !(#[trigger] r.app_workers@[i]).is_busy
                && !r.app_workers@[i].is_initialized,
{
    assert(r.workers_of(JobType::ShardedApp).len() == pool_size(
        *config,
        role,
        JobType::ShardedApp,
    ));
    assert(r.workers_of(JobType::Leaf).len() == pool_size(*config, role, JobType::Leaf));
    assert(r.workers_of(JobType::Internal).len() == pool_size(*config, role, JobType::Internal));
    assert(r.workers_of(JobType::Root).len() == pool_size(*config, role, JobType::Root));
    assert(r.workers_of(JobType::Halo2).len() == pool_size(*config, role, JobType::Halo2));
    assert forall|i: int| 0 <= i < r.app_workers@.len() implies !(
    #[trigger] r.app_workers@[i]).is_busy && !r.app_workers@[i].is_initialized by {
        assert(r.workers_of(JobType::ShardedApp)[i] == r.app_workers@[i]);
    }
}

/// All provers are initialized exactly if no worker of any type is left that is not.
pub proof fn readiness_is_of_all_workers(pool: &ProverPool, r: bool)
    requires
        call_ensures(ProverPool::all_provers_initialized, (pool,), r),
    ensures
        r ==> (forall|i: int|
            0 <= i < pool.app_workers@.len() ==> (#[trigger] pool.app_workers@[i]).is_initialized)
            && (forall|i: int|
            0 <= i < pool.leaf_workers@.len() ==> (
            #[trigger] pool.leaf_workers@[i]).is_initialized) && (forall|i: int|
            0 <= i < pool.internal_workers@.len() ==> (
            #[trigger] pool.internal_workers@[i]).is_initialized) && (forall|i: int|
            0 <= i < pool.root_workers@.len() ==> (
            #[trigger] pool.root_workers@[i]).is_initialized) && (forall|i: int|
            0 <= i < pool.halo2_workers@.len() ==> (
            #[trigger] pool.halo2_workers@[i]).is_initialized),
        !r ==> (exists|i: int|
            0 <= i < pool.app_workers@.len() && !(
            #[trigger] pool.app_workers@[i]).is_initialized) || (exists|i: int|
            0 <= i < pool.leaf_workers@.len() && !(
            #[trigger] pool.leaf_workers@[i]).is_initialized) || (exists|i: int|
            0 <= i < pool.internal_workers@.len() && !(
            #[trigger] pool.internal_workers@[i]).is_initialized) || (exists|i: int|
            0 <= i < pool.root_workers@.len() && !(
            #[trigger] pool.root_workers@[i]).is_initialized) || (exists|i: int|
            0 <= i < pool.halo2_workers@.len() && !(
            #[trigger] pool.halo2_workers@[i]).is_initialized),
{
}

/// The counts of a pool are of the workers of the type that was asked for.
pub proof fn counts_are_of_the_type(
    pool: &ProverPool,
    busy: usize,
    available: usize,
    initialized: usize,
    configured: usize,
)
    requires
        call_ensures(ProverPool::busy_count, (pool, JobType::ShardedApp), busy),
        call_ensures(ProverPool::available_count, (pool, JobType::ShardedApp), available),
        call_ensures(ProverPool::initialized_count, (pool, JobType::ShardedApp), initialized),
        call_ensures(ProverPool::configured_count, (pool, JobType::ShardedApp), configured),
    ensures
        configured == pool.app_workers@.len(),
        busy + available <= configured,
        initialized <= configured,
        available <= initialized,
        available > 0 <==> exists|i: int|
            0 <= i < pool.app_workers@.len() && !(#[trigger] pool.app_workers@[i]).is_busy
                && pool.app_workers@[i].is_initialized,
        busy > 0 <==> exists|i: int|
            0 <= i < pool.app_workers@.len() && (#[trigger] pool.app_workers@[i]).is_busy,
        initialized == configured <==> forall|i: int|
            0 <= i < pool.app_workers@.len() ==> (#[trigger] pool.app_workers@[i]).is_initialized,
{
    let workers = pool.app_workers@;
    counts_agree(workers);
    busy_counts(workers);
    if any_available(workers) {
        let i = choose|i: int| 0 <= i < workers.len() && (#[trigger] workers[i]).available();
        assert(!workers[i].is_busy && workers[i].is_initialized);
    } else {
        assert forall|i: int| 0 <= i < workers.len() implies (#[trigger] workers[i]).is_busy
            || !workers[i].is_initialized by {
            assert(!workers[i].available());
        }
    }
}

proof fn busy_counts(workers: Seq<WorkerStatus>)
    ensures
        busy_in(workers) > 0 <==> exists|i: int|
            0 <= i < workers.len() && (#[trigger] workers[i]).is_busy,
        available_in(workers) <= initialized_in(workers),
    decreases workers.len(),
{
    if workers.len() > 0 {
        let rest = workers.drop_last();
        busy_counts(rest);
        if busy_in(rest) > 0 {
            let i = choose|i: int| 0 <= i < rest.len() && (#[trigger] rest[i]).is_busy;
            assert(workers[i].is_busy);
        }
        if workers.last().is_busy {
            assert(workers[workers.len() - 1].is_busy);
        }
        if exists|i: int| 0 <= i < workers.len() && (#[trigger] workers[i]).is_busy {
            let i = choose|i: int| 0 <= i < workers.len() && (#[trigger] workers[i]).is_busy;
            if i < rest.len() {
                assert(rest[i].is_busy);
            }
        }
    }
}

/// A report changes the status of the worker that made it and of no other.
pub proof fn reports_change_one_worker(
    pool: &mut ProverPool,
    job_type: JobType,
    idx: usize,
    status: WorkerStatus,
)
    requires
        call_ensures(ProverPool::report, (pool, job_type, idx, status), ()),
        idx < old(pool).workers_of(job_type).len(),
    ensures
        final(pool).workers_of(job_type)[idx as int] == status,
        forall|t: JobType, i: int|
            (t != job_type || i != idx) && 0 <= i < old(pool).workers_of(t).len()
                ==> #[trigger] final(pool).workers_of(t)[i] == old(pool).workers_of(t)[i],
        forall|t: JobType|
            (#[trigger] final(pool).workers_of(t)).len() == old(pool).workers_of(t).len(),
        final(pool).cancelled == old(pool).cancelled,
{
    assert forall|t: JobType| (#[trigger] final(pool).workers_of(t)).len()
        == old(pool).workers_of(t).len() by {
        if t == job_type {
            assert(final(pool).workers_of(t) == old(pool).workers_of(t).update(
                idx as int,
                status,
            ));
        }
    }
    assert forall|t: JobType, i: int|
        (t != job_type || i != idx) && 0 <= i < old(pool).workers_of(t).len() implies
        #[trigger] final(pool).workers_of(t)[i] == old(pool).workers_of(t)[i] by {
        if t == job_type {
            assert(final(pool).workers_of(t) == old(pool).workers_of(t).update(
                idx as int,
                status,
            ));
        }
    }
}

/// A pool that is shut down takes no more jobs, and its workers stay as they are.
pub proof fn shut_down_pools_keep_their_workers(pool: &mut ProverPool, job_type: JobType)
    requires
        call_ensures(ProverPool::shutdown, (pool,), ()),
    ensures
        final(pool).cancelled,
        final(pool).workers_of(job_type) == old(pool).workers_of(job_type),
{
}

} // verus!
