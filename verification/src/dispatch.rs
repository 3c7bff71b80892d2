//! Dispatch of jobs to the workers of a pool, and what their outcomes come to.

use vstd::prelude::*;
use vstd::string::*;

use crate::program::ProgramRef;
use crate::prover_pool::{next_available, JobType, ProverPool, WorkerStatus};
use crate::provers::ProverResult;
use crate::results::ProofResult;
use crate::segments::ShardedAppProverJob;
use crate::text::{decimal, join, joined, push_usize, views};

verus! {

/// Job types for app workers. Every one names the program it is for, so that the
/// worker can load that program's prover before it runs the job.
pub enum AppProverJob<F> {
    ShardedApp { target_program: ProgramRef, job: Box<ShardedAppProverJob> },
    /// Coordinator of a parallel job: runs the executor and proves segments itself.
    ParallelCoordinator { target_program: ProgramRef, f: F },
    /// Further prover of a parallel job.
    SegmentConsumer { target_program: ProgramRef, f: F },
    /// Loads a just registered program's prover ahead of its first job.
    Preload { target_program: ProgramRef },
}

impl<F> AppProverJob<F> {
    /// The program that the job is for.
    pub open spec fn target(self) -> ProgramRef {
        match self {
            AppProverJob::ShardedApp { target_program, .. } => target_program,
            AppProverJob::ParallelCoordinator { target_program, .. } => target_program,
            AppProverJob::SegmentConsumer { target_program, .. } => target_program,
            AppProverJob::Preload { target_program } => target_program,
        }
    }

    pub fn target_program(&self) -> (r: &ProgramRef)
        ensures
            *r == self.target(),
    {
        match self {
            AppProverJob::ShardedApp { target_program, .. } => target_program,
            AppProverJob::ParallelCoordinator { target_program, .. } => target_program,
            AppProverJob::SegmentConsumer { target_program, .. } => target_program,
            AppProverJob::Preload { target_program } => target_program,
        }
    }
}

/// How a sharded app job is run.
#[derive(Debug, Clone, Copy, PartialEq, Eq, Structural)]
pub enum AppRoute {
    /// On one worker.
    Single,
    /// On several: one coordinates, the others consume segments.
    Parallel,
}

/// Decide how a sharded app job is run.
pub fn app_route(job: &ShardedAppProverJob) -> (r: AppRoute)
    ensures
        r == if job.max_app_provers > 1 {
            AppRoute::Parallel
        } else {
            AppRoute::Single
        },
{
    if job.max_app_provers > 1 {
        AppRoute::Parallel
    } else {
        AppRoute::Single
    }
}

/// What handing a job to a worker's queue came to.
#[derive(Debug, Clone, Copy, PartialEq, Eq, Structural)]
pub enum SendOutcome {
    Sent,
    /// The queue already holds a job.
    Full,
    Disconnected,
}

/// Why a job could not be dispatched, or was lost.
#[derive(Debug, Clone, Copy, PartialEq, Eq, Structural)]
pub enum DispatchError {
    NoWorkers(JobType),
    ChannelClosed,
    PoolCancelled,
    ResultDropped,
}

/// The name of a job type.
pub open spec fn kind_name(job_type: JobType) -> Seq<char> {
    match job_type {
        JobType::ShardedApp => "app"@,
        JobType::Leaf => "leaf"@,
        JobType::Internal => "internal"@,
        JobType::Root => "root"@,
        JobType::Halo2 => "halo2"@,
    }
}

fn kind_str(job_type: JobType) -> (r: &'static str)
    ensures
        r@ == kind_name(job_type),
{
    match job_type {
        JobType::ShardedApp => "app",
        JobType::Leaf => "leaf",
        JobType::Internal => "internal",
        JobType::Root => "root",
        JobType::Halo2 => "halo2",
    }
}

impl DispatchError {
    /// The text a reader is shown for the error.
    pub open spec fn text(self) -> Seq<char> {
        match self {
            DispatchError::NoWorkers(t) => "No "@ + kind_name(t)
                + " workers available - check prover pool configuration"@,
            DispatchError::ChannelClosed => "Worker channel closed"@,
            DispatchError::PoolCancelled => "Prover pool cancelled"@,
            DispatchError::ResultDropped => "Worker dropped result channel"@,
        }
    }

    /// The text a reader is shown for the error.
    pub fn message(self) -> (r: String)
        ensures
            r@ == self.text(),
    {
        match self {
            DispatchError::NoWorkers(t) => {
                let mut out = "No ".to_owned();
                out.append(kind_str(t));
                out.append(" workers available - check prover pool configuration");
                out
            },
            DispatchError::ChannelClosed => "Worker channel closed".to_owned(),
            DispatchError::PoolCancelled => "Prover pool cancelled".to_owned(),
            DispatchError::ResultDropped => "Worker dropped result channel".to_owned(),
        }
    }
}

/// What a dispatcher does next.
#[derive(Debug, Clone, Copy, PartialEq, Eq, Structural)]
pub enum DispatchAction {
    /// Hand the job to the queue of this worker.
    Offer(usize),
    /// Wait until a worker becomes free or the pool is shut down, then scan again
    /// from the first worker.
    Wait,
    /// The job is with this worker: its result is awaited.
    Await(usize),
    Fail(DispatchError),
}

/// What a dispatcher does that has come to worker `from` in its scan.
pub open spec fn scan_action(pool: ProverPool, job_type: JobType, from: int) -> DispatchAction
    decreases pool.workers_of(job_type).len() - from,
{
    if from >= pool.workers_of(job_type).len() {
        if pool.cancelled {
            DispatchAction::Fail(DispatchError::PoolCancelled)
        } else {
            DispatchAction::Wait
        }
    } else if pool.workers_of(job_type)[from].available() {
        DispatchAction::Offer(from as usize)
    } else {
        scan_action(pool, job_type, from + 1)
    }
}

proof fn scan_skips(pool: ProverPool, job_type: JobType, from: int, to: int)
    requires
        0 <= from <= to <= pool.workers_of(job_type).len(),
        forall|j: int|
            from <= j < to ==> !(#[trigger] pool.workers_of(job_type)[j]).available(),
    ensures
        scan_action(pool, job_type, from) == scan_action(pool, job_type, to),
    decreases to - from,
{
    if from < to {
        assert(!pool.workers_of(job_type)[from].available());
        scan_skips(pool, job_type, from + 1, to);
    }
}

/// Begin to dispatch a job of a type: it goes to the first worker that is free.
pub fn begin_dispatch(pool: &ProverPool, job_type: JobType) -> (r: DispatchAction)
    ensures
        pool.workers_of(job_type).len() == 0 ==> r == DispatchAction::Fail(
            DispatchError::NoWorkers(job_type),
        ),
        pool.workers_of(job_type).len() > 0 ==> r == scan_action(*pool, job_type, 0),
{
    if pool.workers(job_type).len() == 0 {
        return DispatchAction::Fail(DispatchError::NoWorkers(job_type));
    }
    continue_scan(pool, job_type, 0)
}

/// Go on with the scan at worker `from`. Once no worker is left, a pool that was shut
/// down fails the job and any other has the dispatcher wait.
pub fn continue_scan(pool: &ProverPool, job_type: JobType, from: usize) -> (r: DispatchAction)
    ensures
        r == scan_action(*pool, job_type, from as int),
{
    let workers = pool.workers(job_type);
    if from >= workers.len() {
        return if pool.cancelled {
            DispatchAction::Fail(DispatchError::PoolCancelled)
        } else {
            DispatchAction::Wait
        };
    }
    match next_available(workers, from) {
        Some(i) => {
            proof {
                scan_skips(*pool, job_type, from as int, i as int);
            }
            DispatchAction::Offer(i)
        },
        None => {
            proof {
                scan_skips(*pool, job_type, from as int, workers@.len() as int);
            }
            if pool.cancelled {
                DispatchAction::Fail(DispatchError::PoolCancelled)
            } else {
                DispatchAction::Wait
            }
        },
    }
}

/// The queue of worker `idx` answered the offer. A full queue has the scan go on.
pub fn offered(pool: &ProverPool, job_type: JobType, idx: usize, outcome: SendOutcome) -> (r:
    DispatchAction)
    requires
        idx < pool.workers_of(job_type).len(),
    ensures
        outcome == SendOutcome::Sent ==> r == DispatchAction::Await(idx),
        outcome == SendOutcome::Full ==> r == scan_action(*pool, job_type, idx + 1),
        outcome == SendOutcome::Disconnected ==> r == DispatchAction::Fail(
            DispatchError::ChannelClosed,
        ),
{
    let count = pool.workers(job_type).len();
    assert(idx < count);
    match outcome {
        SendOutcome::Sent => DispatchAction::Await(idx),
        SendOutcome::Full => continue_scan(pool, job_type, idx + 1),
        SendOutcome::Disconnected => DispatchAction::Fail(DispatchError::ChannelClosed),
    }
}

/// A job is only ever offered to a worker that can take it, in order, and a
/// dispatcher gives up or waits only when no worker is left that could.
pub proof fn offers_go_to_free_workers(pool: ProverPool, job_type: JobType, from: int)
    requires
        0 <= from <= pool.workers_of(job_type).len() <= usize::MAX,
    ensures
        scan_action(pool, job_type, from) matches DispatchAction::Offer(i) ==> from <= i
            < pool.workers_of(job_type).len() && pool.workers_of(job_type)[i as int].available()
            && forall|j: int|
            from <= j < i ==> !(#[trigger] pool.workers_of(job_type)[j]).available(),
        scan_action(pool, job_type, from) !is Offer ==> forall|j: int|
            from <= j < pool.workers_of(job_type).len() ==> !(
            #[trigger] pool.workers_of(job_type)[j]).available(),
        scan_action(pool, job_type, from) is Wait ==> !pool.cancelled,
        scan_action(pool, job_type, from) is Fail ==> pool.cancelled,
        !(scan_action(pool, job_type, from) is Await),
    decreases pool.workers_of(job_type).len() - from,
{
    if from < pool.workers_of(job_type).len() {
        if !pool.workers_of(job_type)[from].available() {
            offers_go_to_free_workers(pool, job_type, from + 1);
        }
    }
}

/// Whether a worker is offered the preload of a just registered program: every one
/// that is not busy, whether initialized or not. One that still waits for its first
/// deployment runs it as soon as the deployment wakes it.
pub fn takes_preload(worker: &WorkerStatus) -> (r: bool)
    ensures
        r == !worker.is_busy,
{
    !worker.is_busy
}

/// Whether a parallel job can start: there must be a free app worker for each of its
/// provers.
pub fn check_parallel_capacity(
    pool: &ProverPool,
    program: &ProgramRef,
    max_app_provers: usize,
) -> (r: Result<(), String>)
    ensures
        ({
            let have = crate::prover_pool::available_in(pool.workers_of(JobType::ShardedApp));
            if have >= max_app_provers {
                r is Ok
            } else {
                r is Err && r->Err_0@
                    == "Not enough available app workers for parallel proving of "@
                    + program.rendered() + ": need "@ + decimal(max_app_provers as nat)
                    + ", have "@ + decimal(have)
            }
        }),
{
    let have = pool.available_count(JobType::ShardedApp);
    if have >= max_app_provers {
        return Ok(());
    }
    let mut out = "Not enough available app workers for parallel proving of ".to_owned();
    let shown = program.render();
    out.append(shown.as_str());
    out.append(": need ");
    push_usize(&mut out, max_app_provers);
    out.append(", have ");
    push_usize(&mut out, have);
    Err(out)
}

/// For how long the consumers of a parallel job are given to start, in nanoseconds: two
/// seconds.
pub const CONSUMER_START_TIMEOUT_NANOS: u128 = 2_000_000_000;

/// How long it takes from one look at the consumers to the next, in milliseconds.
pub const CONSUMER_START_POLL_MS: u64 = 5;

/// How long a job that finds no free worker waits until it looks again, in seconds.
pub const DISPATCH_POLL_SECS: u64 = 1;

/// What to do while the consumers of a parallel job start.
pub enum StartWait {
    /// They are running: the coordinator can be dispatched.
    Started,
    /// Look again after [`CONSUMER_START_POLL_MS`].
    Retry,
    TimedOut(String),
}

/// Whether enough app workers are busy for the coordinator to be dispatched, when
/// `waited_nanos` have passed since the first look. Without this barrier the coordinator
/// could queue behind a consumer and never run.
pub fn consumers_started(pool: &ProverPool, min_busy: usize, waited_nanos: u128) -> (r: StartWait)
    ensures
        ({
            let busy = crate::prover_pool::busy_in(pool.workers_of(JobType::ShardedApp));
            if busy >= min_busy {
                r is Started
            } else if waited_nanos >= CONSUMER_START_TIMEOUT_NANOS {
                r is TimedOut && r->TimedOut_0@
                    == "Timed out waiting for app consumers to start: need busy >= "@ + decimal(
                    min_busy as nat,
                ) + ", got "@ + decimal(busy)
            } else {
                r is Retry
            }
        }),
{
    let busy = pool.busy_count(JobType::ShardedApp);
    if busy >= min_busy {
        return StartWait::Started;
    }
    if waited_nanos < CONSUMER_START_TIMEOUT_NANOS {
        return StartWait::Retry;
    }
    let mut out = "Timed out waiting for app consumers to start: need busy >= ".to_owned();
    push_usize(&mut out, min_busy);
    out.append(", got ");
    push_usize(&mut out, busy);
    StartWait::TimedOut(out)
}

/// What the consumers of a parallel job came to.
pub struct ConsumerTally {
    pub proofs: Vec<ProofResult>,
    pub errors: Vec<String>,
    pub canceled: bool,
}

impl ConsumerTally {
    pub fn new() -> (r: Self)
        ensures
            r.proofs@ == Seq::<ProofResult>::empty(),
            r.errors@ == Seq::<String>::empty(),
            !r.canceled,
    {
        ConsumerTally { proofs: Vec::new(), errors: Vec::new(), canceled: false }
    }

    /// Count in the outcome of one consumer; `None` stands for a consumer that
    /// dropped its result channel.
    pub fn count(&mut self, outcome: Option<ProverResult>)
        ensures
            outcome matches Some(ProverResult::Success(results)) ==> final(self).proofs@ == old(self).proofs@ + results@ && final(self).errors == old(self).errors && final(self).canceled == old(self).canceled,
            outcome matches Some(ProverResult::Error(e)) ==> final(self).proofs == old(self).proofs && final(self).errors@ == old(self).errors@.push(e) && final(self).canceled == old(self).canceled,
            outcome matches Some(ProverResult::Canceled) ==> final(self).proofs == old(self).proofs && final(self).errors == old(self).errors && final(self).canceled,
            outcome is None ==> {
                &&& final(self).proofs == old(self).proofs
                &&& final(self).canceled == old(self).canceled
                &&& final(self).errors@.len() == old(self).errors@.len() + 1
                &&& final(self).errors@.drop_last() == old(self).errors@
                &&& final(self).errors@.last()@ == "Consumer dropped result channel"@
            },
    {
        match outcome {
            Some(ProverResult::Success(results)) => {
                let mut results = results;
                self.proofs.append(&mut results);
            },
            Some(ProverResult::Error(e)) => {
                self.errors.push(e);
            },
            Some(ProverResult::Canceled) => {
                self.canceled = true;
            },
            None => {
                self.errors.push("Consumer dropped result channel".to_owned());
                assert(self.errors@.drop_last() =~= old(self).errors@);
            },
        }
    }
}

/// What a parallel job comes to.
pub open spec fn merges(
    coordinator: ProverResult,
    tally: ConsumerTally,
    r: ProverResult,
) -> bool {
    if coordinator is Canceled || tally.canceled {
        r is Canceled
    } else if tally.errors@.len() == 0 {
        match coordinator {
            ProverResult::Success(results) => r is Success && r->Success_0@ == results@
                + tally.proofs@,
            _ => r == coordinator,
        }
    } else {
        let errors = joined(views(tally.errors@), "; "@);
        match coordinator {
            ProverResult::Error(e) => r is Error && r->Error_0@
                == "Parallel app coordinator failed: "@ + e@ + "; consumer failure(s): "@ + errors,
            _ => r is Error && r->Error_0@ == "Parallel app consumer failure(s): "@ + errors,
        }
    }
}

/// Merge the coordinator's result with what its consumers came to.
///
/// Any canceled part leaves the segment set incomplete, so the job has nothing to
/// report whatever the others did. Otherwise any failure fails the job.
pub fn merge_parallel_app_results(
    coordinator_result: ProverResult,
    consumer_proofs: Vec<ProofResult>,
    consumer_errors: Vec<String>,
    consumer_canceled: bool,
) -> (r: ProverResult)
    ensures
        merges(
            coordinator_result,
            (ConsumerTally {
                proofs: consumer_proofs,
                errors: consumer_errors,
                canceled: consumer_canceled,
            }),
            r,
        ),
{
    match coordinator_result {
        ProverResult::Canceled => ProverResult::Canceled,
        ProverResult::Success(results) => {
            if consumer_canceled {
                return ProverResult::Canceled;
            }
            if consumer_errors.len() == 0 {
                let mut results = results;
                let mut consumer_proofs = consumer_proofs;
                results.append(&mut consumer_proofs);
                return ProverResult::Success(results);
            }
            let mut out = "Parallel app consumer failure(s): ".to_owned();
            let errors = join(&consumer_errors, "; ");
            out.append(errors.as_str());
            ProverResult::Error(out)
        },
        ProverResult::Error(coordinator_error) => {
            if consumer_canceled {
                return ProverResult::Canceled;
            }
            if consumer_errors.len() == 0 {
                return ProverResult::Error(coordinator_error);
            }
            let mut out = "Parallel app coordinator failed: ".to_owned();
            out.append(coordinator_error.as_str());
            out.append("; consumer failure(s): ");
            let errors = join(&consumer_errors, "; ");
            out.append(errors.as_str());
            ProverResult::Error(out)
        },
    }
}

/// A parallel job succeeds exactly if its coordinator and all its consumers did, and
/// it is canceled exactly if any part of it was.
pub proof fn parallel_success_needs_every_part(
    coordinator: ProverResult,
    tally: ConsumerTally,
    r: ProverResult,
)
    requires
        merges(coordinator, tally, r),
    ensures
        r is Success <==> coordinator is Success && tally.errors@.len() == 0 && !tally.canceled,
        r is Canceled <==> coordinator is Canceled || tally.canceled,
{
}

/// Process-wide app job and prover swap counters. Their ratio bounds what dispatch
/// by program could save. They wrap around.
#[derive(Debug, Clone, Copy, PartialEq, Eq, Structural)]
pub struct AppCounters {
    pub jobs: u64,
    pub swaps: u64,
}

impl AppCounters {
    pub fn new() -> (r: Self)
        ensures
            r.jobs == 0,
            r.swaps == 0,
    {
        AppCounters { jobs: 0, swaps: 0 }
    }

    /// Total app jobs executed since process start.
    pub fn app_jobs_total(&self) -> (r: u64)
        ensures
            r == self.jobs,
    {
        self.jobs
    }

    /// Total app jobs that switched from one loaded program to another.
    pub fn app_swaps_total(&self) -> (r: u64)
        ensures
            r == self.swaps,
    {
        self.swaps
    }
}

/// What an app worker does before it runs a job.
#[derive(Debug, Clone, Copy, PartialEq, Eq, Structural)]
pub enum LoadStep {
    /// The program is not known to this worker: the job is refused.
    Unknown,
    /// The prover of the job's program is loaded already.
    Ready,
    /// Drop the prover that is loaded, if any, and build one for the job's program.
    Build,
}

/// Whether the program that a worker holds is `target`.
pub open spec fn holds(loaded: Option<ProgramRef>, target: ProgramRef) -> bool {
    loaded is Some && loaded->0.id() == target.id()
}

/// The counters once a job is taken up: one more job, and one more swap where `swaps`.
pub open spec fn counted(before: AppCounters, swaps: bool) -> AppCounters {
    AppCounters {
        jobs: before.jobs.wrapping_add(1),
        swaps: if swaps {
            before.swaps.wrapping_add(1)
        } else {
            before.swaps
        },
    }
}

/// Take up a job for `target` on a worker that holds `loaded`; `known` says whether
/// the worker has the program's execution instances. The job is counted, and so is
/// a swap where a prover of another program is dropped for it.
pub fn take_app_job(
    loaded: &mut Option<ProgramRef>,
    target: &ProgramRef,
    known: bool,
    counters: &mut AppCounters,
) -> (r: LoadStep)
    ensures
        *final(counters) == counted(
            *old(counters),
            known && *old(loaded) is Some && !holds(*old(loaded), *target),
        ),
        r == if !known {
            LoadStep::Unknown
        } else if holds(*old(loaded), *target) {
            LoadStep::Ready
        } else {
            LoadStep::Build
        },
        r == LoadStep::Build ==> *final(loaded) is None,
        r != LoadStep::Build ==> *final(loaded) == *old(loaded),
{
    counters.jobs = counters.jobs.wrapping_add(1);
    if !known {
        return LoadStep::Unknown;
    }
    let ready = match loaded.as_ref() {
        Some(program) => program.same(target),
        None => false,
    };
    if ready {
        return LoadStep::Ready;
    }
    if loaded.is_some() {
        counters.swaps = counters.swaps.wrapping_add(1);
    }
    *loaded = None;
    LoadStep::Build
}

/// No job swaps more than once: until the counters wrap around, there are never more
/// swaps than jobs.
pub proof fn swaps_never_outrun_jobs(before: AppCounters, swaps: bool)
    requires
        before.swaps <= before.jobs,
        before.jobs < u64::MAX,
    ensures
        counted(before, swaps).swaps <= counted(before, swaps).jobs,
        counted(before, swaps).jobs == before.jobs + 1,
{
}

/// The prover for `target` was built, or failed to be. Only a worker that has built
/// it holds the program.
pub fn prover_built(
    loaded: &mut Option<ProgramRef>,
    worker: &str,
    target: &ProgramRef,
    outcome: Result<(), String>,
) -> (r: Result<(), ProverResult>)
    requires
        *old(loaded) is None,
    ensures
        outcome is Ok ==> r is Ok && *final(loaded) == Some(*target),
        outcome matches Err(e) ==> {
            &&& *final(loaded) is None
            &&& r is Err
            &&& r->Err_0 is Error
            &&& r->Err_0->Error_0@ == "Worker "@ + worker@ + ": failed to build GPU prover for "@
                + target.rendered() + ": "@ + e@
        },
{
    match outcome {
        Ok(()) => {
            *loaded = Some(target.clone());
            Ok(())
        },
        Err(e) => {
            let mut out = "Worker ".to_owned();
            out.append(worker);
            out.append(": failed to build GPU prover for ");
            let shown = target.render();
            out.append(shown.as_str());
            out.append(": ");
            out.append(e.as_str());
            Err(ProverResult::Error(out))
        },
    }
}

/// Refuse a job for a program that the worker does not know.
pub fn unknown_program(worker: &str, target: &ProgramRef) -> (r: ProverResult)
    ensures
        r is Error,
        r->Error_0@ == "Worker "@ + worker@ + ": program "@ + target.rendered()
            + " not in execution_instances; manager validation should have rejected this dispatch"@,
{
    let mut out = "Worker ".to_owned();
    out.append(worker);
    out.append(": program ");
    let shown = target.render();
    out.append(shown.as_str());
    out.append(
        " not in execution_instances; manager validation should have rejected this dispatch",
    );
    ProverResult::Error(out)
}

/// What a panic carried.
pub enum PanicPayload {
    Text(String),
    Other,
}

impl PanicPayload {
    /// What is said of the panic.
    pub open spec fn said(self) -> Seq<char> {
        match self {
            PanicPayload::Text(s) => s@,
            PanicPayload::Other => "Unknown panic"@,
        }
    }
}

/// The message of a panic.
pub fn panic_message(payload: PanicPayload) -> (r: String)
    ensures
        r@ == payload.said(),
{
    match payload {
        PanicPayload::Text(s) => s,
        PanicPayload::Other => "Unknown panic".to_owned(),
    }
}

/// The text of a job whose prover panicked.
pub fn panic_failure(payload: PanicPayload) -> (r: String)
    ensures
        r@ == "Prover panicked: "@ + payload.said(),
{
    let mut out = "Prover panicked: ".to_owned();
    let text = panic_message(payload);
    out.append(text.as_str());
    out
}

/// Convert the outcome of a job that may have panicked.
pub fn handle_panic_result(result: Result<ProverResult, PanicPayload>) -> (r: ProverResult)
    ensures
        result matches Ok(p) ==> r == p,
        result matches Err(payload) ==> r is Error && r->Error_0@ == "Prover panicked: "@
            + payload.said(),
{
    match result {
        Ok(p) => p,
        Err(payload) => ProverResult::Error(panic_failure(payload)),
    }
}

/// The name of worker `idx` of a type.
pub fn worker_name(job_type: JobType, idx: usize) -> (r: String)
    ensures
        r@ == kind_name(job_type) + "-prover-"@ + decimal(idx as nat),
{
    let mut out = kind_str(job_type).to_owned();
    out.append("-prover-");
    push_usize(&mut out, idx);
    out
}

/// A job is offered to the first free worker of its type, whichever it is, and never to
/// one of another type. Without any the dispatcher waits, unless the pool was shut down;
/// a type without workers fails the job at once.
pub proof fn jobs_go_to_the_first_free_worker(
    pool: &ProverPool,
    job_type: JobType,
    workers: Seq<WorkerStatus>,
    r: DispatchAction,
)
    requires
        call_ensures(begin_dispatch, (pool, job_type), r),
        workers == match job_type {
            JobType::ShardedApp => pool.app_workers@,
            JobType::Leaf => pool.leaf_workers@,
            JobType::Internal => pool.internal_workers@,
            JobType::Root => pool.root_workers@,
            JobType::Halo2 => pool.halo2_workers@,
        },
        workers.len() <= usize::MAX,
    ensures
        r is Offer <==> exists|i: int|
            0 <= i < workers.len() && !(#[trigger] workers[i]).is_busy
                && workers[i].is_initialized,
        r matches DispatchAction::Offer(i) ==> i < workers.len() && !workers[i as int].is_busy
            && workers[i as int].is_initialized && forall|j: int|
            0 <= j < i ==> (#[trigger] workers[j]).is_busy || !workers[j].is_initialized,
        !(r is Await),
        r == DispatchAction::Fail(DispatchError::NoWorkers(job_type)) <==> workers.len() == 0,
        workers.len() > 0 && !(r is Offer) ==> r == if pool.cancelled {
            DispatchAction::Fail(DispatchError::PoolCancelled)
        } else {
            DispatchAction::Wait
        },
{
    if workers.len() > 0 {
        scanned(*pool, job_type, workers, 0, r);
    }
}

/// What a scan from worker `from` on comes to.
proof fn scanned(
    pool: ProverPool,
    job_type: JobType,
    workers: Seq<WorkerStatus>,
    from: int,
    r: DispatchAction,
)
    requires
        workers == pool.workers_of(job_type),
        r == scan_action(pool, job_type, from),
        0 <= from <= workers.len() <= usize::MAX,
    ensures
        r is Offer <==> exists|i: int|
            from <= i < workers.len() && !(#[trigger] workers[i]).is_busy
                && workers[i].is_initialized,
        r matches DispatchAction::Offer(i) ==> from <= i < workers.len()
            && !workers[i as int].is_busy && workers[i as int].is_initialized && forall|j: int|
            from <= j < i ==> (#[trigger] workers[j]).is_busy || !workers[j].is_initialized,
        !(r is Offer) ==> r == if pool.cancelled {
            DispatchAction::Fail(DispatchError::PoolCancelled)
        } else {
            DispatchAction::Wait
        },
    decreases workers.len() - from,
{
    if from < workers.len() && !workers[from].available() {
        scanned(pool, job_type, workers, from + 1, r);
        if exists|i: int|
            from <= i < workers.len() && !(#[trigger] workers[i]).is_busy
                && workers[i].is_initialized {
            let i = choose|i: int|
                from <= i < workers.len() && !(#[trigger] workers[i]).is_busy
                    && workers[i].is_initialized;
            assert(i != from);
        }
    } else if from < workers.len() {
        assert(!workers[from].is_busy && workers[from].is_initialized);
    }
}

/// A worker whose queue is full is passed over for the next free one behind it; one that
/// took the job is awaited, and one that is gone fails it.
pub proof fn full_queues_are_passed_over(
    pool: &ProverPool,
    job_type: JobType,
    workers: Seq<WorkerStatus>,
    idx: usize,
    outcome: SendOutcome,
    r: DispatchAction,
)
    requires
        call_ensures(offered, (pool, job_type, idx, outcome), r),
        workers == match job_type {
            JobType::ShardedApp => pool.app_workers@,
            JobType::Leaf => pool.leaf_workers@,
            JobType::Internal => pool.internal_workers@,
            JobType::Root => pool.root_workers@,
            JobType::Halo2 => pool.halo2_workers@,
        },
        idx < workers.len() <= usize::MAX,
    ensures
        r is Await <==> outcome == SendOutcome::Sent,
        outcome == SendOutcome::Sent ==> r == DispatchAction::Await(idx),
        outcome == SendOutcome::Disconnected ==> r == DispatchAction::Fail(
            DispatchError::ChannelClosed,
        ),
        outcome == SendOutcome::Full ==> (r is Offer <==> exists|i: int|
            idx < i < workers.len() && !(#[trigger] workers[i]).is_busy
                && workers[i].is_initialized),
        outcome == SendOutcome::Full ==> (r matches DispatchAction::Offer(i) ==> idx < i
            && !workers[i as int].is_busy && workers[i as int].is_initialized),
        outcome == SendOutcome::Full && !(r is Offer) ==> r == if pool.cancelled {
            DispatchAction::Fail(DispatchError::PoolCancelled)
        } else {
            DispatchAction::Wait
        },
{
    if outcome == SendOutcome::Full {
        scanned(*pool, job_type, workers, idx + 1, r);
    }
}

/// A job runs in parallel exactly if it asks for more than one prover, and may start
/// exactly if at least that many app workers are free.
pub proof fn parallel_jobs_need_their_provers(
    job: &ShardedAppProverJob,
    pool: &ProverPool,
    program: &ProgramRef,
    route: AppRoute,
    free: usize,
    r: Result<(), String>,
)
    requires
        call_ensures(app_route, (job,), route),
        call_ensures(ProverPool::available_count, (pool, JobType::ShardedApp), free),
        call_ensures(check_parallel_capacity, (pool, program, job.max_app_provers), r),
    ensures
        route == AppRoute::Parallel <==> job.max_app_provers > 1,
        r is Ok <==> free >= job.max_app_provers,
{
}

/// The coordinator waits until enough app workers are busy, and no longer than two
/// seconds.
pub proof fn coordinators_wait_for_their_consumers(
    pool: &ProverPool,
    min_busy: usize,
    waited_nanos: u128,
    busy: usize,
    r: StartWait,
)
    requires
        call_ensures(ProverPool::busy_count, (pool, JobType::ShardedApp), busy),
        call_ensures(consumers_started, (pool, min_busy, waited_nanos), r),
    ensures
        r is Started <==> busy >= min_busy,
        r is Retry <==> busy < min_busy && waited_nanos < 2_000_000_000,
        r is TimedOut <==> busy < min_busy && waited_nanos >= 2_000_000_000,
{
}

/// A parallel job that succeeds reports all that its parts proved: first what the
/// coordinator did, then what the consumers did, with nothing lost, added or out of
/// order. A failed part is told, and a canceled one leaves nothing to tell.
pub proof fn parallel_results_are_complete(
    coordinator: ProverResult,
    proofs: Vec<ProofResult>,
    errors: Vec<String>,
    canceled: bool,
    r: ProverResult,
)
    requires
        call_ensures(merge_parallel_app_results, (coordinator, proofs, errors, canceled), r),
    ensures
        r is Canceled <==> coordinator is Canceled || canceled,
        r is Success <==> coordinator is Success && errors@.len() == 0 && !canceled,
        r is Success ==> {
            let results = r->Success_0@;
            let n = coordinator->Success_0@.len() as int;
            &&& results.len() == n + proofs@.len()
            &&& results.take(n) == coordinator->Success_0@
            &&& results.skip(n) == proofs@
        },
        r is Error && errors@.len() == 0 ==> r == coordinator,
        r is Error && errors@.len() == 1 && coordinator is Success ==> r->Error_0@
            == "Parallel app consumer failure(s): "@ + errors@[0]@,
        r is Error && errors@.len() == 1 && coordinator is Error ==> r->Error_0@
            == "Parallel app coordinator failed: "@ + coordinator->Error_0@
            + "; consumer failure(s): "@ + errors@[0]@,
{
    if r is Success {
        let n = coordinator->Success_0@.len() as int;
        assert(r->Success_0@.take(n) =~= coordinator->Success_0@);
        assert(r->Success_0@.skip(n) =~= proofs@);
    }
    if errors@.len() == 1 {
        assert(views(errors@)[0] == errors@[0]@);
    }
}

/// The tally of a job keeps what each consumer came to: its proofs behind those of the
/// ones before it, or its error, or that it was canceled.
pub proof fn tallies_keep_every_outcome(tally: &mut ConsumerTally, outcome: Option<ProverResult>)
    requires
        call_ensures(ConsumerTally::count, (tally, outcome), ()),
    ensures
        final(tally).proofs@.len() >= old(tally).proofs@.len(),
        final(tally).proofs@.take(old(tally).proofs@.len() as int) == old(tally).proofs@,
        final(tally).errors@.len() >= old(tally).errors@.len(),
        final(tally).errors@.take(old(tally).errors@.len() as int) == old(tally).errors@,
        old(tally).canceled ==> final(tally).canceled,
        outcome matches Some(ProverResult::Success(results)) ==> final(tally).proofs@.skip(
            old(tally).proofs@.len() as int,
        ) == results@,
        final(tally).errors@.len() > old(tally).errors@.len() <==> outcome is None
            || outcome->0 is Error,
        final(tally).canceled && !old(tally).canceled <==> !old(tally).canceled && outcome
            == Some(ProverResult::Canceled),
        final(tally).errors@.len() <= old(tally).errors@.len() + 1,
        outcome is Some && outcome->0 is Error ==> final(tally).errors@.last()
            == outcome->0->Error_0,
        outcome is None ==> final(tally).errors@.last()@ == "Consumer dropped result channel"@,
        !(outcome is Some && outcome->0 is Success) ==> final(tally).proofs@
            == old(tally).proofs@,
{
    assert(final(tally).proofs@.take(old(tally).proofs@.len() as int) =~= old(tally).proofs@);
    assert(final(tally).errors@.take(old(tally).errors@.len() as int) =~= old(tally).errors@);
    if let Some(ProverResult::Success(results)) = outcome {
        assert(final(tally).proofs@.skip(old(tally).proofs@.len() as int) =~= results@);
    }
}

/// A worker that holds the program of a job runs it at once, keeps holding it, and counts
/// no swap. Any other worker that knows the program builds its prover, and that is a swap
/// exactly if it held another one. Every job is counted.
pub proof fn jobs_load_what_they_need(
    loaded: &mut Option<ProgramRef>,
    target: &ProgramRef,
    known: bool,
    counters: &mut AppCounters,
    r: LoadStep,
)
    requires
        call_ensures(take_app_job, (loaded, target, known, counters), r),
    ensures
        r == LoadStep::Unknown <==> !known,
        r == LoadStep::Ready <==> known && *old(loaded) is Some && (*old(loaded))->0.name@
            == target.name@ && (*old(loaded))->0.version == target.version,
        r == LoadStep::Build ==> *final(loaded) is None,
        r != LoadStep::Build ==> *final(loaded) == *old(loaded),
        final(counters).jobs == old(counters).jobs.wrapping_add(1),
        final(counters).swaps == if r == LoadStep::Build && *old(loaded) is Some {
            old(counters).swaps.wrapping_add(1)
        } else {
            old(counters).swaps
        },
{
}

/// A worker that has built the prover of a program runs the next job for it at once.
pub proof fn built_provers_are_held(
    loaded: &mut Option<ProgramRef>,
    worker: &str,
    target: &ProgramRef,
    outcome: Result<(), String>,
    r: Result<(), ProverResult>,
)
    requires
        call_ensures(prover_built, (loaded, worker, target, outcome), r),
    ensures
        r is Ok <==> outcome is Ok,
        outcome is Ok ==> *final(loaded) is Some && (*final(loaded))->0.name@ == target.name@ && (
        *final(loaded))->0.version == target.version,
        outcome is Err ==> *final(loaded) is None && r->Err_0 is Error,
{
}

/// A job that did not panic comes to what it came to; one that did fails with what the
/// panic said.
pub proof fn panics_fail_the_job(result: Result<ProverResult, PanicPayload>, r: ProverResult)
    requires
        call_ensures(handle_panic_result, (result,), r),
    ensures
        result matches Ok(p) ==> r == p,
        result matches Err(PanicPayload::Text(s)) ==> r is Error && r->Error_0@
            == "Prover panicked: "@ + s@,
        result matches Err(PanicPayload::Other) ==> r is Error && r->Error_0@
            == "Prover panicked: Unknown panic"@,
{
    reveal_strlit("Prover panicked: ");
    reveal_strlit("Unknown panic");
    reveal_strlit("Prover panicked: Unknown panic");
    assert("Prover panicked: "@ + "Unknown panic"@ =~= "Prover panicked: Unknown panic"@);
}

/// Workers are told apart by their names: different workers have different ones, of
/// whatever type they are.
pub proof fn workers_have_different_names(
    s: JobType,
    t: JobType,
    i: usize,
    j: usize,
    a: String,
    b: String,
)
    requires
        call_ensures(worker_name, (s, i), a),
        call_ensures(worker_name, (t, j), b),
        a@ == b@,
    ensures
        s == t && i == j,
{
    reveal_strlit("app");
    reveal_strlit("leaf");
    reveal_strlit("internal");
    reveal_strlit("root");
    reveal_strlit("halo2");
    reveal_strlit("-prover-");
    assert(a@[0] == kind_name(s)[0]);
    assert(b@[0] == kind_name(t)[0]);
    assert(s == t);
    let n = kind_name(s).len() + 8;
    assert(a@.skip(n as int) =~= crate::text::decimal(i as nat));
    assert(b@.skip(n as int) =~= crate::text::decimal(j as nat));
    crate::text::decimal_is_injective(i as nat, j as nat);
}

/// What is said of a job that was not dispatched names the type of worker it was for.
pub proof fn lost_jobs_are_told(e: DispatchError, r: String)
    requires
        call_ensures(DispatchError::message, (e,), r),
    ensures
        e == DispatchError::NoWorkers(JobType::ShardedApp) ==> r@ == "No "@ + "app"@
            + " workers available - check prover pool configuration"@,
        e == DispatchError::NoWorkers(JobType::Leaf) ==> r@ == "No "@ + "leaf"@
            + " workers available - check prover pool configuration"@,
        e == DispatchError::NoWorkers(JobType::Internal) ==> r@ == "No "@ + "internal"@
            + " workers available - check prover pool configuration"@,
        e == DispatchError::NoWorkers(JobType::Root) ==> r@ == "No "@ + "root"@
            + " workers available - check prover pool configuration"@,
        e == DispatchError::NoWorkers(JobType::Halo2) ==> r@ == "No "@ + "halo2"@
            + " workers available - check prover pool configuration"@,
        e is ChannelClosed ==> r@ == "Worker channel closed"@,
        e is PoolCancelled ==> r@ == "Prover pool cancelled"@,
        e is ResultDropped ==> r@ == "Worker dropped result channel"@,
{
}

/// A scan goes on from the worker it is told, and finds the first free one from there on.
pub proof fn scans_go_on_where_they_stopped(
    pool: &ProverPool,
    job_type: JobType,
    from: usize,
    workers: Seq<WorkerStatus>,
    r: DispatchAction,
)
    requires
        call_ensures(continue_scan, (pool, job_type, from), r),
        workers == match job_type {
            JobType::ShardedApp => pool.app_workers@,
            JobType::Leaf => pool.leaf_workers@,
            JobType::Internal => pool.internal_workers@,
            JobType::Root => pool.root_workers@,
            JobType::Halo2 => pool.halo2_workers@,
        },
        from <= workers.len() <= usize::MAX,
    ensures
        r is Offer <==> exists|i: int|
            from <= i < workers.len() && !(#[trigger] workers[i]).is_busy
                && workers[i].is_initialized,
        r matches DispatchAction::Offer(i) ==> from <= i < workers.len()
            && !workers[i as int].is_busy && workers[i as int].is_initialized && forall|j: int|
            from <= j < i ==> (#[trigger] workers[j]).is_busy || !workers[j].is_initialized,
        !(r is Offer) && pool.cancelled ==> r == DispatchAction::Fail(
            DispatchError::PoolCancelled,
        ),
        !(r is Offer) && !pool.cancelled ==> r is Wait,
{
    scanned(*pool, job_type, workers, from as int, r);
}

/// The program of a job is the one it names, whatever its kind.
pub proof fn jobs_name_their_program<F>(job: &AppProverJob<F>, r: &ProgramRef)
    requires
        call_ensures(AppProverJob::<F>::target_program, (job,), r),
    ensures
        job matches AppProverJob::ShardedApp { target_program, .. } ==> *r == target_program,
        job matches AppProverJob::ParallelCoordinator { target_program, .. } ==> *r
            == target_program,
        job matches AppProverJob::SegmentConsumer { target_program, .. } ==> *r
            == target_program,
        job matches AppProverJob::Preload { target_program } ==> *r == target_program,
{
}

/// A panic is told by what it said, and one that said nothing is told as unknown.
pub proof fn panics_are_told(payload: PanicPayload, message: String, failure: String)
    requires
        call_ensures(panic_message, (payload,), message),
        call_ensures(panic_failure, (payload,), failure),
    ensures
        payload is Text ==> message@ == payload->Text_0@,
        payload is Other ==> message@ == "Unknown panic"@,
        failure@ == "Prover panicked: "@ + message@,
{
}

/// Nothing is counted before the first job, and a tally holds nothing before the first
/// outcome.
pub proof fn counts_start_at_zero(counters: AppCounters, tally: ConsumerTally)
    requires
        call_ensures(AppCounters::new, (), counters),
        call_ensures(ConsumerTally::new, (), tally),
    ensures
        counters.jobs == 0,
        counters.swaps == 0,
        tally.proofs@.len() == 0,
        tally.errors@.len() == 0,
        !tally.canceled,
{
}

} // verus!
