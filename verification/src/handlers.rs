//! Decisions of the worker's HTTP endpoints.

use std::collections::BTreeMap;

use vstd::prelude::*;
use vstd::string::*;

use crate::artifacts::ArtifactStatus;
use crate::cancellation::{cancel, recorded, Cancellations};
use crate::context::ProofContext;
use crate::dispatch::AppCounters;
use crate::janitor::ActiveUploads;
use crate::program::ProgramRef;
use crate::prover_pool::{
    all_initialized, any_available, busy_in, initialized_in, JobType, ProverPool,
};
use crate::provers::ProverResult;
use crate::registration::RegistrationResult;
use crate::requests::{ShardedAppProveRequest, WorkerRole};
use crate::results::ProofResult;
use crate::segments::ShardedAppProverJob;
use crate::text::{decimal, push_usize};
use crate::uploads::{
    answers, check_uuid, invalid_uuid_text, joined_path, staged_deferral_state_path, staged_dir,
    staged_input_path, state_filename, uploaded_input_root, uuid_rejection,
    validate_uploaded_proof_uuid, Reply, BAD_REQUEST, CONFLICT, OK, REQUEST_TIMEOUT,
    SERVICE_UNAVAILABLE,
};

verus! {

/// Worker information for work requests.
#[derive(Debug, Clone, Copy)]
pub struct WorkerInfo {
    pub prover_id: usize,
    pub num_provers: usize,
    /// Number of app prover instances, also the app-prove parallelism of a proof.
    pub max_app_provers: usize,
    /// Default VM memory limit applied when a request does not set one.
    pub default_segment_memory: Option<usize>,
    /// Deployment role this worker plays.
    pub worker_role: WorkerRole,
}

/// Health check response.
#[derive(Debug)]
pub struct HealthResponse {
    pub status: String,
    pub app_workers_busy: usize,
    pub leaf_workers_busy: usize,
    pub internal_workers_busy: usize,
    /// Total app jobs dispatched since process start.
    pub app_jobs_total: u64,
    /// Total prover swaps since process start.
    pub app_swaps_total: u64,
}

/// Readiness check response.
#[derive(Debug)]
pub struct ReadyResponse {
    pub ready: bool,
    pub message: String,
    /// Programs this worker can prove right now.
    pub programs: Vec<ProgramRef>,
}

/// Health check endpoint.
pub fn healthz(pool: &ProverPool, counters: &AppCounters) -> (r: HealthResponse)
    ensures
        r.status@ == "ok"@,
        r.app_workers_busy == busy_in(pool.workers_of(JobType::ShardedApp)),
        r.leaf_workers_busy == busy_in(pool.workers_of(JobType::Leaf)),
        r.internal_workers_busy == busy_in(pool.workers_of(JobType::Internal)),
        r.app_jobs_total == counters.jobs,
        r.app_swaps_total == counters.swaps,
{
    HealthResponse {
        status: "ok".to_owned(),
        app_workers_busy: pool.busy_count(JobType::ShardedApp),
        leaf_workers_busy: pool.busy_count(JobType::Leaf),
        internal_workers_busy: pool.busy_count(JobType::Internal),
        app_jobs_total: counters.app_jobs_total(),
        app_swaps_total: counters.app_swaps_total(),
    }
}

/// What a readiness evaluation resolved to.
#[derive(Debug, Clone, Copy, PartialEq, Eq, Structural)]
pub enum Readiness {
    Ready,
    ArtifactsNotLoaded,
    /// EVM artifacts (halo2 key) not loaded.
    EvmArtifactsNotLoaded,
    ProversInitializing,
}

/// What the readiness of a worker resolves to.
pub open spec fn readiness(
    role: WorkerRole,
    artifacts_ready: bool,
    provers_ready: bool,
    evm_artifacts_ready: bool,
) -> Readiness {
    if !artifacts_ready {
        Readiness::ArtifactsNotLoaded
    } else if role == WorkerRole::EvmDedicated && !evm_artifacts_ready {
        Readiness::EvmArtifactsNotLoaded
    } else if !provers_ready {
        Readiness::ProversInitializing
    } else {
        Readiness::Ready
    }
}

/// Decide readiness from the worker's role and component state.
///
/// A worker is ready once its artifacts and provers are. Only a dedicated EVM worker
/// also waits for the EVM artifacts.
pub fn evaluate_readiness(
    role: WorkerRole,
    artifacts_ready: bool,
    provers_ready: bool,
    evm_artifacts_ready: bool,
) -> (r: Readiness)
    ensures
        r == readiness(role, artifacts_ready, provers_ready, evm_artifacts_ready),
{
    if !artifacts_ready {
        return Readiness::ArtifactsNotLoaded;
    }
    if role == WorkerRole::EvmDedicated && !evm_artifacts_ready {
        return Readiness::EvmArtifactsNotLoaded;
    }
    if !provers_ready {
        return Readiness::ProversInitializing;
    }
    Readiness::Ready
}

/// Roles that run STARK proving do not depend on the EVM artifacts; a dedicated EVM
/// worker is never ready without them. Every worker is ready exactly if all it needs
/// is there.
pub proof fn readiness_follows_the_role(
    role: WorkerRole,
    artifacts_ready: bool,
    provers_ready: bool,
    evm_artifacts_ready: bool,
)
    ensures
        role.proves_stark() ==> readiness(role, artifacts_ready, provers_ready, evm_artifacts_ready)
            == readiness(role, artifacts_ready, provers_ready, !evm_artifacts_ready),
        readiness(role, artifacts_ready, provers_ready, evm_artifacts_ready) == Readiness::Ready
            <==> artifacts_ready && provers_ready && (role == WorkerRole::EvmDedicated
            ==> evm_artifacts_ready),
{
}

/// The message of a readiness check.
pub open spec fn readiness_text(readiness: Readiness, pool: ProverPool) -> Seq<char> {
    match readiness {
        Readiness::Ready => "Worker is ready"@,
        Readiness::ArtifactsNotLoaded => "Artifacts not loaded"@,
        Readiness::EvmArtifactsNotLoaded => "EVM artifacts (halo2 key) not loaded"@,
        Readiness::ProversInitializing => "Provers initializing: app="@ + decimal(
            initialized_in(pool.workers_of(JobType::ShardedApp)),
        ) + "/"@ + decimal(pool.workers_of(JobType::ShardedApp).len()) + ", leaf="@ + decimal(
            initialized_in(pool.workers_of(JobType::Leaf)),
        ) + "/"@ + decimal(pool.workers_of(JobType::Leaf).len()) + ", internal="@ + decimal(
            initialized_in(pool.workers_of(JobType::Internal)),
        ) + "/"@ + decimal(pool.workers_of(JobType::Internal).len()),
    }
}

fn readiness_message(readiness: Readiness, pool: &ProverPool) -> (r: String)
    ensures
        r@ == readiness_text(readiness, *pool),
{
    match readiness {
        Readiness::Ready => "Worker is ready".to_owned(),
        Readiness::ArtifactsNotLoaded => "Artifacts not loaded".to_owned(),
        Readiness::EvmArtifactsNotLoaded => "EVM artifacts (halo2 key) not loaded".to_owned(),
        Readiness::ProversInitializing => {
            let mut out = "Provers initializing: app=".to_owned();
            push_usize(&mut out, pool.initialized_count(JobType::ShardedApp));
            out.append("/");
            push_usize(&mut out, pool.configured_count(JobType::ShardedApp));
            out.append(", leaf=");
            push_usize(&mut out, pool.initialized_count(JobType::Leaf));
            out.append("/");
            push_usize(&mut out, pool.configured_count(JobType::Leaf));
            out.append(", internal=");
            push_usize(&mut out, pool.initialized_count(JobType::Internal));
            out.append("/");
            push_usize(&mut out, pool.configured_count(JobType::Internal));
            out
        },
    }
}

/// Readiness check endpoint: the status and the response.
pub fn readyz(
    role: WorkerRole,
    artifacts_ready: bool,
    evm_artifacts_ready: bool,
    pool: &ProverPool,
    programs: Vec<ProgramRef>,
) -> (r: (u16, ReadyResponse))
    ensures
        ({
            let provers_ready = forall|t: JobType| all_initialized(#[trigger] pool.workers_of(t));
            let state = readiness(role, artifacts_ready, provers_ready, evm_artifacts_ready);
            &&& r.1.ready == (state == Readiness::Ready)
            &&& r.0 == if r.1.ready {
                OK
            } else {
                SERVICE_UNAVAILABLE
            }
            &&& r.1.message@ == readiness_text(state, *pool)
            &&& r.1.programs == programs
        }),
{
    let state = evaluate_readiness(
        role,
        artifacts_ready,
        pool.all_provers_initialized(),
        evm_artifacts_ready,
    );
    let ready = state == Readiness::Ready;
    let status = if ready {
        OK
    } else {
        SERVICE_UNAVAILABLE
    };
    (status, ReadyResponse { ready, message: readiness_message(state, pool), programs })
}

/// Record a cancellation, so that the proving loops stop at their next segment.
pub fn handle_cancel_proof(cancellations: &mut Cancellations, proof_uuid: String) -> (r: Reply)
    ensures
        uuid_rejection(proof_uuid@) is None ==> answers(r, OK, "Canceled"@) && final(cancellations)@ == recorded(old(cancellations)@, proof_uuid@),
        uuid_rejection(proof_uuid@) matches Some(reason) ==> answers(
            r,
            BAD_REQUEST,
            invalid_uuid_text(reason),
        ) && final(cancellations)@ == old(cancellations)@,
{
    match check_uuid(proof_uuid.as_str()) {
        Err(e) => return e,
        Ok(()) => {},
    }
    cancel(cancellations, proof_uuid);
    Reply { status: OK, body: "Canceled".to_owned() }
}

/// The answer to a registration: the verification baseline, or why it was refused.
pub enum RegistrationReply {
    /// The body is the program's baseline, empty when none was derived.
    Baseline(Vec<u8>),
    Refused(Reply),
}

/// Answer a `register_program` request.
pub fn registration_reply(result: RegistrationResult) -> (r: RegistrationReply)
    ensures
        match result {
            RegistrationResult::Accepted(baseline)
            | RegistrationResult::AlreadyRegistered(baseline) => match baseline {
                Some(bytes) => r == RegistrationReply::Baseline(bytes),
                None => r is Baseline && r->Baseline_0@.len() == 0,
            },
            RegistrationResult::Conflict(reason) => r is Refused && answers(
                r->Refused_0,
                CONFLICT,
                reason@,
            ),
            RegistrationResult::Invalid(reason) => r is Refused && answers(
                r->Refused_0,
                BAD_REQUEST,
                reason@,
            ),
        },
{
    match result {
        RegistrationResult::Accepted(baseline) | RegistrationResult::AlreadyRegistered(baseline) => {
            match baseline {
                Some(bytes) => RegistrationReply::Baseline(bytes),
                None => RegistrationReply::Baseline(Vec::new()),
            }
        },
        RegistrationResult::Conflict(reason) => RegistrationReply::Refused(
            Reply { status: CONFLICT, body: reason },
        ),
        RegistrationResult::Invalid(reason) => RegistrationReply::Refused(
            Reply { status: BAD_REQUEST, body: reason },
        ),
    }
}

/// The answer to a `register_program` request that could not be decoded.
pub fn undecodable_registration(e: &str) -> (r: Reply)
    ensures
        answers(r, BAD_REQUEST, "Failed to deserialize register_program request: "@ + e@),
{
    let mut body = "Failed to deserialize register_program request: ".to_owned();
    body.append(e);
    Reply { status: BAD_REQUEST, body }
}

/// Where a sharded job finds its input: the main input, and one deferral state per
/// circuit.
pub struct StagedInputs {
    pub input_path: String,
    pub deferral_state_paths: Vec<String>,
}

/// Whether `staged` are the inputs of a proof with `circuits` deferral circuits.
pub open spec fn locates(staged: StagedInputs, proof_uuid: Seq<char>, circuits: usize) -> bool {
    &&& staged.input_path@ == joined_path(staged_dir(proof_uuid), "input.bin"@)
    &&& staged.deferral_state_paths@.len() == circuits
    &&& forall|i: int|
        0 <= i < circuits ==> (#[trigger] staged.deferral_state_paths@[i])@ == joined_path(
            staged_dir(proof_uuid),
            state_filename(i as usize),
        )
}

/// Take up a sharded app prove request: its proof becomes active, and its inputs are
/// located from its uuid and the number of circuits of the loaded keyset. A request
/// with a rejected uuid is turned away and activates nothing.
pub fn admit_sharded_app_prove(
    request: &ShardedAppProveRequest,
    status: ArtifactStatus,
    active: &mut ActiveUploads,
) -> (r: Result<StagedInputs, Reply>)
    ensures
        uuid_rejection(request.proof_uuid@) is None ==> r is Ok && final(active)@ == old(active)@.insert(request.proof_uuid@) && locates(
            r->Ok_0,
            request.proof_uuid@,
            status.circuits(),
        ),
        uuid_rejection(request.proof_uuid@) matches Some(reason) ==> r is Err && answers(
            r->Err_0,
            BAD_REQUEST,
            invalid_uuid_text(reason),
        ) && final(active)@ == old(active)@,
{
    let uuid = request.proof_uuid.as_str();
    match check_uuid(uuid) {
        Err(e) => return Err(e),
        Ok(()) => {},
    }
    active.activate(uuid);
    let circuits = status.loaded_deferral_circuit_count();
    let mut paths: Vec<String> = Vec::new();
    let mut i: usize = 0;
    while i < circuits
        invariant
            i <= circuits,
            paths@.len() == i,
            uuid@ == request.proof_uuid@,
            forall|j: int|
                0 <= j < i ==> (#[trigger] paths@[j])@ == joined_path(
                    staged_dir(uuid@),
                    state_filename(j as usize),
                ),
        decreases circuits - i,
    {
        paths.push(staged_deferral_state_path(uuid, i));
        i = i + 1;
    }
    Ok(StagedInputs { input_path: staged_input_path(uuid), deferral_state_paths: paths })
}

/// The files that must be there before a sharded job starts, in the order in which
/// they are awaited.
pub fn required_files(staged: &StagedInputs) -> (r: Vec<String>)
    ensures
        r@ == seq![staged.input_path] + staged.deferral_state_paths@,
{
    let mut out: Vec<String> = Vec::new();
    out.push(staged.input_path.clone());
    let mut i: usize = 0;
    while i < staged.deferral_state_paths.len()
        invariant
            i <= staged.deferral_state_paths@.len(),
            out@ == seq![staged.input_path] + staged.deferral_state_paths@.take(i as int),
        decreases staged.deferral_state_paths@.len() - i,
    {
        out.push(staged.deferral_state_paths[i].clone());
        assert(out@ =~= seq![staged.input_path] + staged.deferral_state_paths@.take(i + 1));
        i = i + 1;
    }
    assert(staged.deferral_state_paths@.take(i as int) =~= staged.deferral_state_paths@);
    out
}

/// For how long the staged files of a sharded job are awaited, all together, in
/// nanoseconds: thirty seconds.
pub const STAGED_FILE_TIMEOUT_NANOS: u128 = 30_000_000_000;

/// How long it takes from one look at an awaited file to the next, in milliseconds.
pub const STAGED_FILE_POLL_MS: u64 = 100;

/// Why a sharded app prove request is turned away once it was admitted.
pub enum ShardedRefusal {
    /// The file at this path did not come in time.
    FileMissing(String),
    NoAppWorker,
}

/// What follows a look at an awaited file.
pub enum FileWait {
    /// It is there.
    Present,
    /// Look again after [`STAGED_FILE_POLL_MS`].
    Retry,
    /// It did not come in time.
    TimedOut(ShardedRefusal),
}

/// Decide what follows a look at an awaited file, when `waited_nanos` have passed since
/// the first look at the first one.
pub fn await_file(path: &str, present: bool, waited_nanos: u128) -> (r: FileWait)
    ensures
        present ==> r is Present,
        !present && waited_nanos <= STAGED_FILE_TIMEOUT_NANOS ==> r is Retry,
        !present && waited_nanos > STAGED_FILE_TIMEOUT_NANOS ==> (r matches FileWait::TimedOut(
            ShardedRefusal::FileMissing(missing),
        ) && missing@ == path@),
{
    if present {
        return FileWait::Present;
    }
    if waited_nanos <= STAGED_FILE_TIMEOUT_NANOS {
        return FileWait::Retry;
    }
    FileWait::TimedOut(ShardedRefusal::FileMissing(path.to_owned()))
}

/// What is left to do for a request that was turned away.
pub struct RefusedJob {
    pub reply: Reply,
    /// The directory of the proof's staged files, to be removed.
    pub dir: String,
}

/// Turn away a request that was admitted. Its proof is no longer active, and its staged
/// files go.
pub fn refuse_sharded(
    request: &ShardedAppProveRequest,
    refusal: ShardedRefusal,
    active: &mut ActiveUploads,
) -> (r: RefusedJob)
    ensures
        final(active)@ == old(active)@.remove(request.proof_uuid@),
        r.dir@ == staged_dir(request.proof_uuid@),
        match refusal {
            ShardedRefusal::FileMissing(path) => answers(
                r.reply,
                REQUEST_TIMEOUT,
                "Timeout waiting for input file: "@ + path@,
            ),
            ShardedRefusal::NoAppWorker => answers(
                r.reply,
                SERVICE_UNAVAILABLE,
                "No available app workers"@,
            ),
        },
{
    let dir = active.release(uploaded_input_root(), request.proof_uuid.as_str());
    let reply = match refusal {
        ShardedRefusal::FileMissing(path) => {
            let mut body = "Timeout waiting for input file: ".to_owned();
            body.append(path.as_str());
            Reply { status: REQUEST_TIMEOUT, body }
        },
        ShardedRefusal::NoAppWorker => Reply {
            status: SERVICE_UNAVAILABLE,
            body: "No available app workers".to_owned(),
        },
    };
    RefusedJob { reply, dir }
}

/// Close a sharded job that was run, whatever it came to. Its proof is no longer active,
/// and the directory returned, which holds its staged files, goes.
pub fn close_sharded(request: &ShardedAppProveRequest, active: &mut ActiveUploads) -> (dir: String)
    ensures
        final(active)@ == old(active)@.remove(request.proof_uuid@),
        dir@ == staged_dir(request.proof_uuid@),
{
    active.release(uploaded_input_root(), request.proof_uuid.as_str())
}

/// Make the job of a sharded app prove request whose inputs are there, if an app
/// worker is free. The limit of the request outranks the worker's default, and
/// results are streamed.
pub fn sharded_job(
    request: &ShardedAppProveRequest,
    staged: StagedInputs,
    info: &WorkerInfo,
    pool: &ProverPool,
) -> (r: Result<ShardedAppProverJob, ShardedRefusal>)
    ensures
        !any_available(pool.workers_of(JobType::ShardedApp)) ==> r == Err::<
            ShardedAppProverJob,
            ShardedRefusal,
        >(ShardedRefusal::NoAppWorker),
        any_available(pool.workers_of(JobType::ShardedApp)) ==> r is Ok && {
            let job = r->Ok_0;
            &&& job.context.proof_uuid == request.proof_uuid
            &&& job.context.program == request.program
            &&& job.context.labels@ == Map::<String, String>::empty()
            &&& job.context.proof_type == crate::context::ProofType::Stark
            &&& job.num_provers == request.num_provers
            &&& job.prover_id == request.prover_id
            &&& job.input_path == staged.input_path
            &&& job.deferral_state_paths == staged.deferral_state_paths
            &&& job.segment_memory == if request.segment_memory is Some {
                request.segment_memory
            } else {
                info.default_segment_memory
            }
            &&& job.max_app_provers == info.max_app_provers
            &&& job.streams_results
        },
{
    if !pool.has_available_worker(JobType::ShardedApp) {
        return Err(ShardedRefusal::NoAppWorker);
    }
    let segment_memory = if request.segment_memory.is_some() {
        request.segment_memory
    } else {
        info.default_segment_memory
    };
    Ok(
        ShardedAppProverJob {
            context: ProofContext::new(
                request.proof_uuid.clone(),
                request.program.clone(),
                BTreeMap::new(),
            ),
            num_provers: request.num_provers,
            prover_id: request.prover_id,
            input_path: staged.input_path,
            segment_memory,
            max_app_provers: info.max_app_provers,
            streams_results: true,
            deferral_state_paths: staged.deferral_state_paths,
        },
    )
}

/// The answer to an accepted sharded app prove request.
pub fn sharded_accepted() -> (r: Reply)
    ensures
        answers(r, OK, "Edge work accepted"@),
{
    Reply { status: OK, body: "Edge work accepted".to_owned() }
}

/// What is reported to the manager of a job that is over.
pub enum Report {
    Nothing,
    Results(Vec<ProofResult>),
    Error(String),
}

/// What is reported of a job: its results, or the text of its failure or of the
/// failure to dispatch it. Of a canceled proof the manager wants no result.
pub fn report_of(outcome: Result<ProverResult, String>) -> (r: Report)
    ensures
        r == match outcome {
            Ok(ProverResult::Success(results)) => Report::Results(results),
            Ok(ProverResult::Error(e)) => Report::Error(e),
            Ok(ProverResult::Canceled) => Report::Nothing,
            Err(e) => Report::Error(e),
        },
{
    match outcome {
        Ok(ProverResult::Success(results)) => Report::Results(results),
        Ok(ProverResult::Error(e)) => Report::Error(e),
        Ok(ProverResult::Canceled) => Report::Nothing,
        Err(e) => Report::Error(e),
    }
}

/// What is reported of a streaming job: its results were sent as they came.
pub fn streamed_report_of(outcome: Result<ProverResult, String>) -> (r: Report)
    ensures
        r == match outcome {
            Ok(ProverResult::Success(_)) => Report::Nothing,
            Ok(ProverResult::Error(e)) => Report::Error(e),
            Ok(ProverResult::Canceled) => Report::Nothing,
            Err(e) => Report::Error(e),
        },
{
    match report_of(outcome) {
        Report::Results(_) => Report::Nothing,
        other => other,
    }
}

/// What keeps a worker from being ready is the first of these that holds: its artifacts
/// are missing; it is a dedicated EVM worker and the EVM artifacts are; its provers are
/// not built. With none of them it is ready.
pub proof fn one_reason_keeps_a_worker_waiting(
    role: WorkerRole,
    artifacts_ready: bool,
    provers_ready: bool,
    evm_artifacts_ready: bool,
    r: Readiness,
)
    requires
        call_ensures(
            evaluate_readiness,
            (role, artifacts_ready, provers_ready, evm_artifacts_ready),
            r,
        ),
    ensures
        r is Ready <==> artifacts_ready && provers_ready && (role is EvmDedicated
            ==> evm_artifacts_ready),
        r is ArtifactsNotLoaded <==> !artifacts_ready,
        r is EvmArtifactsNotLoaded <==> artifacts_ready && role is EvmDedicated
            && !evm_artifacts_ready,
        r is ProversInitializing <==> artifacts_ready && !provers_ready && (role is EvmDedicated
            ==> evm_artifacts_ready),
{
}

/// The readiness check answers 200 exactly if the worker is ready, and 503 otherwise. It
/// lists the programs it was given either way.
pub proof fn readiness_is_answered(
    role: WorkerRole,
    artifacts_ready: bool,
    evm_artifacts_ready: bool,
    pool: &ProverPool,
    programs: Vec<ProgramRef>,
    provers_ready: bool,
    r: (u16, ReadyResponse),
)
    requires
        call_ensures(readyz, (role, artifacts_ready, evm_artifacts_ready, pool, programs), r),
        call_ensures(ProverPool::all_provers_initialized, (pool,), provers_ready),
    ensures
        r.1.ready <==> artifacts_ready && provers_ready && (role is EvmDedicated
            ==> evm_artifacts_ready),
        r.1.ready ==> r.0 == 200 && r.1.message@ == "Worker is ready"@,
        !r.1.ready ==> r.0 == 503,
        !artifacts_ready ==> r.1.message@ == "Artifacts not loaded"@,
        r.1.programs == programs,
{
}

/// The health check reports the busy workers of each type as the pool counts them.
pub proof fn health_follows_the_pool(
    pool: &ProverPool,
    counters: &AppCounters,
    r: HealthResponse,
    app: usize,
    leaf: usize,
    internal: usize,
)
    requires
        call_ensures(healthz, (pool, counters), r),
        call_ensures(ProverPool::busy_count, (pool, JobType::ShardedApp), app),
        call_ensures(ProverPool::busy_count, (pool, JobType::Leaf), leaf),
        call_ensures(ProverPool::busy_count, (pool, JobType::Internal), internal),
    ensures
        r.status@ == "ok"@,
        r.app_workers_busy == app,
        r.leaf_workers_busy == leaf,
        r.internal_workers_busy == internal,
        r.app_jobs_total == counters.jobs,
        r.app_swaps_total == counters.swaps,
{
}

/// A cancellation is recorded exactly if its uuid is one that uploads accept. Another is
/// answered 400 and changes nothing.
pub proof fn accepted_uuids_are_canceled(
    record: &mut Cancellations,
    proof_uuid: String,
    uuid: &str,
    checked: Result<(), &'static str>,
    r: Reply,
)
    requires
        call_ensures(handle_cancel_proof, (record, proof_uuid), r),
        call_ensures(validate_uploaded_proof_uuid, (uuid,), checked),
        uuid@ == proof_uuid@,
    ensures
        checked is Ok ==> r.status == 200 && r.body@ == "Canceled"@ && final(record)@.contains(
            proof_uuid@,
        ),
        checked is Err ==> r.status == 400 && r.body@ == "Invalid proof_uuid: "@
            + checked->Err_0@ && final(record)@ == old(record)@,
{
    if checked is Ok && !old(record)@.contains(proof_uuid@) {
        let after = final(record)@;
        assert(after[after.len() - 1] == proof_uuid@);
    }
}

/// A registration that went well is answered with the baseline, and with nothing where
/// there is none. A conflict is answered 409, a bad request 400, both with the reason.
pub proof fn registrations_are_answered(result: RegistrationResult, r: RegistrationReply)
    requires
        call_ensures(registration_reply, (result,), r),
    ensures
        r is Baseline <==> result is Accepted || result is AlreadyRegistered,
        result is Accepted && result->Accepted_0 is Some ==> r->Baseline_0
            == result->Accepted_0->0,
        result is AlreadyRegistered && result->AlreadyRegistered_0 is Some ==> r->Baseline_0
            == result->AlreadyRegistered_0->0,
        result is Accepted && result->Accepted_0 is None ==> r->Baseline_0@.len() == 0,
        result is AlreadyRegistered && result->AlreadyRegistered_0 is None
            ==> r->Baseline_0@.len() == 0,
        result is Conflict ==> r->Refused_0.status == 409 && r->Refused_0.body@
            == result->Conflict_0@,
        result is Invalid ==> r->Refused_0.status == 400 && r->Refused_0.body@
            == result->Invalid_0@,
{
}

/// A sharded job is admitted exactly if its uuid is one that uploads accept. Its proof is
/// then active, and its inputs are where uploads stage them: the main input, and a state
/// for each circuit that is loaded, in order.
pub proof fn admitted_jobs_find_their_inputs(
    request: &ShardedAppProveRequest,
    status: ArtifactStatus,
    active: &mut ActiveUploads,
    uuid: &str,
    checked: Result<(), &'static str>,
    r: Result<StagedInputs, Reply>,
    input_path: String,
    circuit_idx: usize,
    state_path: String,
)
    requires
        call_ensures(admit_sharded_app_prove, (request, status, active), r),
        uuid@ == request.proof_uuid@,
        call_ensures(validate_uploaded_proof_uuid, (uuid,), checked),
        call_ensures(staged_input_path, (uuid,), input_path),
        call_ensures(staged_deferral_state_path, (uuid, circuit_idx), state_path),
    ensures
        r is Ok <==> checked is Ok,
        r is Ok ==> final(active)@.contains(request.proof_uuid@),
        r is Ok ==> r->Ok_0.input_path@ == input_path@,
        r is Ok && !(status is Loaded && status->deferral_circuits is Some)
            ==> r->Ok_0.deferral_state_paths@.len() == 0,
        r is Ok && status is Loaded && status->deferral_circuits is Some
            ==> r->Ok_0.deferral_state_paths@.len() == status->deferral_circuits->0,
        r is Ok && circuit_idx < r->Ok_0.deferral_state_paths@.len()
            ==> r->Ok_0.deferral_state_paths@[circuit_idx as int]@ == state_path@,
        r is Err ==> r->Err_0.status == 400 && final(active)@ == old(active)@,
        forall|other: Seq<char>|
            other != request.proof_uuid@ ==> final(active)@.contains(other) == #[trigger] old(
                active,
            )@.contains(other),
{
}

/// The main input is awaited first, and after it the deferral states, all of them and in
/// order.
pub proof fn the_input_is_awaited_first(staged: &StagedInputs, r: Vec<String>)
    requires
        call_ensures(required_files, (staged,), r),
    ensures
        r@.len() == staged.deferral_state_paths@.len() + 1,
        r@[0] == staged.input_path,
        forall|i: int|
            0 <= i < staged.deferral_state_paths@.len() ==> #[trigger] r@[i + 1]
                == staged.deferral_state_paths@[i],
{
}

/// A file that is there is never waited for; one that is not is waited for thirty seconds
/// and no longer, and is then named.
pub proof fn files_are_awaited_for_thirty_seconds(
    path: &str,
    present: bool,
    waited_nanos: u128,
    r: FileWait,
)
    requires
        call_ensures(await_file, (path, present, waited_nanos), r),
    ensures
        r is Present <==> present,
        r is Retry <==> !present && waited_nanos <= 30_000_000_000,
        r is TimedOut ==> r->TimedOut_0 is FileMissing && r->TimedOut_0->FileMissing_0@ == path@,
{
}

/// A job that is turned away or closed gives its proof up, and names the same directory.
pub proof fn ended_jobs_are_released(
    request: &ShardedAppProveRequest,
    refusal: ShardedRefusal,
    refused: &mut ActiveUploads,
    r: RefusedJob,
    closed: &mut ActiveUploads,
    dir: String,
)
    requires
        call_ensures(refuse_sharded, (request, refusal, refused), r),
        call_ensures(close_sharded, (request, closed), dir),
    ensures
        !final(refused)@.contains(request.proof_uuid@),
        !final(closed)@.contains(request.proof_uuid@),
        r.dir@ == dir@,
        refusal is NoAppWorker ==> r.reply.status == 503 && r.reply.body@
            == "No available app workers"@,
        refusal is FileMissing ==> r.reply.status == 408 && r.reply.body@
            == "Timeout waiting for input file: "@ + refusal->FileMissing_0@,
{
}

/// A sharded job is made exactly if an app worker is free. It is what was asked for, on
/// the staged inputs, and streams; the memory limit is the one of the request if that has
/// one, and the default of the worker otherwise.
pub proof fn jobs_are_what_was_asked_for(
    request: &ShardedAppProveRequest,
    staged: StagedInputs,
    info: &WorkerInfo,
    pool: &ProverPool,
    free: bool,
    r: Result<ShardedAppProverJob, ShardedRefusal>,
)
    requires
        call_ensures(sharded_job, (request, staged, info, pool), r),
        call_ensures(ProverPool::has_available_worker, (pool, JobType::ShardedApp), free),
    ensures
        r is Ok <==> free,
        r is Err ==> r->Err_0 is NoAppWorker,
        r is Ok ==> {
            &&& r->Ok_0.context.proof_uuid == request.proof_uuid
            &&& r->Ok_0.context.program == request.program
            &&& r->Ok_0.num_provers == request.num_provers
            &&& r->Ok_0.prover_id == request.prover_id
            &&& r->Ok_0.input_path == staged.input_path
            &&& r->Ok_0.deferral_state_paths == staged.deferral_state_paths
            &&& r->Ok_0.max_app_provers == info.max_app_provers
            &&& r->Ok_0.streams_results
        },
        r is Ok && request.segment_memory is Some ==> r->Ok_0.segment_memory
            == request.segment_memory,
        r is Ok && request.segment_memory is None ==> r->Ok_0.segment_memory
            == info.default_segment_memory,
{
}

/// Results are reported, unless they were streamed. A failure is reported by its text, in
/// both ways, and of a canceled proof nothing is.
pub proof fn outcomes_are_reported(
    outcome: Result<ProverResult, String>,
    r: Report,
    streamed: Report,
)
    requires
        call_ensures(report_of, (outcome,), r),
        call_ensures(streamed_report_of, (outcome,), streamed),
    ensures
        r is Results <==> outcome is Ok && outcome->Ok_0 is Success,
        r is Results ==> r->Results_0 == outcome->Ok_0->Success_0 && streamed is Nothing,
        outcome is Err ==> r is Error && r->Error_0 == outcome->Err_0 && streamed == r,
        outcome is Ok && outcome->Ok_0 is Error ==> r is Error && r->Error_0
            == outcome->Ok_0->Error_0 && streamed == r,
        outcome is Ok && outcome->Ok_0 is Canceled ==> r is Nothing && streamed is Nothing,
{
}

/// While provers are being built, the readiness check tells how many of each type are
/// there and how many there will be.
pub proof fn waiting_workers_tell_their_counts(
    role: WorkerRole,
    evm_artifacts_ready: bool,
    pool: &ProverPool,
    programs: Vec<ProgramRef>,
    r: (u16, ReadyResponse),
    built: (usize, usize, usize),
    configured: (usize, usize, usize),
)
    requires
        call_ensures(readyz, (role, true, evm_artifacts_ready, pool, programs), r),
        call_ensures(ProverPool::initialized_count, (pool, JobType::ShardedApp), built.0),
        call_ensures(ProverPool::initialized_count, (pool, JobType::Leaf), built.1),
        call_ensures(ProverPool::initialized_count, (pool, JobType::Internal), built.2),
        call_ensures(ProverPool::configured_count, (pool, JobType::ShardedApp), configured.0),
        call_ensures(ProverPool::configured_count, (pool, JobType::Leaf), configured.1),
        call_ensures(ProverPool::configured_count, (pool, JobType::Internal), configured.2),
        !r.1.ready,
    ensures
        role is EvmDedicated && !evm_artifacts_ready ==> r.1.message@
            == "EVM artifacts (halo2 key) not loaded"@,
        !(role is EvmDedicated && !evm_artifacts_ready) ==> r.1.message@
            == "Provers initializing: app="@ + decimal(built.0 as nat) + "/"@ + decimal(
            configured.0 as nat,
        ) + ", leaf="@ + decimal(built.1 as nat) + "/"@ + decimal(configured.1 as nat)
            + ", internal="@ + decimal(built.2 as nat) + "/"@ + decimal(configured.2 as nat),
{
}

} // verus!
