use edge_worker::active_leaves::{with_active_jobs, ActiveLeafJobs};
use edge_worker::artifacts::{
    check_deferral_states, deferral_state_failure, depth0_encode_failure, needs_depth0_proofs,
    ArtifactStatus, StateFailure,
};
use edge_worker::config::ProversConfig;
use edge_worker::context::{ProofContext, ProofType, WithProofContext};
use edge_worker::dispatch::AppCounters;
use edge_worker::handlers::{
    admit_sharded_app_prove, await_file, close_sharded, evaluate_readiness, healthz, readyz,
    refuse_sharded, registration_reply, report_of, required_files, sharded_accepted, sharded_job,
    streamed_report_of, undecodable_registration, FileWait, Readiness, RegistrationReply, Report,
    ShardedRefusal, WorkerInfo, STAGED_FILE_POLL_MS, STAGED_FILE_TIMEOUT_NANOS,
};
use edge_worker::janitor::ActiveUploads;
use edge_worker::program::ProgramRef;
use edge_worker::prover_pool::{JobType, ProverPool, WorkerStatus};
use edge_worker::provers::ProverResult;
use edge_worker::registration::{
    conclude_registration, invalid_vm_config, registration_step, Preparation, RegistrationOutcome,
    RegistrationResult, RegistrationStep, StoreAction, TaskEnd,
};
use edge_worker::requests::{
    EvmProveRequest, GeneralProveRequest, ProofsTypeWire, ShardedAppProveRequest,
    StartProofRequest, Step, WorkerRole,
};
use edge_worker::results::{
    AppProof, AppProofState, ErrorResult, EvmProof, EvmProofState, ProofResult,
};

#[test]
fn readiness_full_and_normal_ignore_evm_artifacts() {
    for role in [WorkerRole::Full, WorkerRole::StarkOnly] {
        assert_eq!(
            evaluate_readiness(role, true, true, false),
            Readiness::Ready,
            "{role:?} should be ready without EVM artifacts",
        );
        assert_eq!(
            evaluate_readiness(role, false, true, true),
            Readiness::ArtifactsNotLoaded,
        );
        assert_eq!(
            evaluate_readiness(role, true, false, true),
            Readiness::ProversInitializing,
        );
    }
}

#[test]
fn readiness_evm_dedicated_requires_evm_artifacts() {
    assert_eq!(
        evaluate_readiness(WorkerRole::EvmDedicated, true, true, true),
        Readiness::Ready,
    );
    assert_eq!(
        evaluate_readiness(WorkerRole::EvmDedicated, true, true, false),
        Readiness::EvmArtifactsNotLoaded,
    );
    assert_eq!(
        evaluate_readiness(WorkerRole::EvmDedicated, false, true, false),
        Readiness::ArtifactsNotLoaded,
    );
}

#[test]
fn worker_role_predicates() {
    assert!(WorkerRole::Full.runs_stark_proving());
    assert!(WorkerRole::Full.runs_evm_prove());
    assert!(WorkerRole::StarkOnly.runs_stark_proving());
    assert!(!WorkerRole::StarkOnly.runs_evm_prove());
    assert!(!WorkerRole::EvmDedicated.runs_stark_proving());
    assert!(WorkerRole::EvmDedicated.runs_evm_prove());
    assert!(WorkerRole::default().runs_stark_proving());
}

fn pool() -> ProverPool {
    ProverPool::new(&ProversConfig::default(), WorkerRole::Full)
}

fn set(pool: &mut ProverPool, job_type: JobType, is_busy: bool) {
    for idx in 0..pool.configured_count(job_type) {
        pool.report(job_type, idx, WorkerStatus { is_busy, is_initialized: true });
    }
}

#[test]
fn health_counts_busy_workers() {
    let mut pool = pool();
    set(&mut pool, JobType::Leaf, true);
    let counters = AppCounters { jobs: 9, swaps: 2 };
    let health = healthz(&pool, &counters);
    assert_eq!(health.status, "ok");
    assert_eq!(
        (health.app_workers_busy, health.leaf_workers_busy, health.internal_workers_busy),
        (0, 2, 0)
    );
    assert_eq!((health.app_jobs_total, health.app_swaps_total), (9, 2));
}

#[test]
fn readiness_is_answered_with_what_is_missing() {
    let mut pool = pool();
    set(&mut pool, JobType::Leaf, false);
    let programs = || vec![ProgramRef::new("a", 1)];
    let (status, body) = readyz(WorkerRole::Full, true, false, &pool, programs());
    assert_eq!(status, 503);
    assert!(!body.ready);
    assert_eq!(body.message, "Provers initializing: app=0/2, leaf=2/2, internal=0/1");
    assert_eq!(body.programs, programs());
    let (status, body) = readyz(WorkerRole::Full, false, false, &pool, programs());
    assert_eq!((status, body.message.as_str()), (503, "Artifacts not loaded"));
    for t in [JobType::ShardedApp, JobType::Internal, JobType::Root, JobType::Halo2] {
        set(&mut pool, t, false);
    }
    let (status, body) = readyz(WorkerRole::EvmDedicated, true, false, &pool, programs());
    assert_eq!((status, body.message.as_str()), (503, "EVM artifacts (halo2 key) not loaded"));
    let (status, body) = readyz(WorkerRole::Full, true, false, &pool, programs());
    assert_eq!((status, body.ready, body.message.as_str()), (200, true, "Worker is ready"));
}

fn request(uuid: &str) -> ShardedAppProveRequest {
    ShardedAppProveRequest {
        proof_uuid: uuid.to_string(),
        program: ProgramRef::new("prog", 2),
        prover_id: 1,
        num_provers: 4,
        segment_memory: None,
    }
}

#[test]
fn sharded_requests_are_admitted_and_become_jobs() {
    let loaded = ArtifactStatus::Loaded { has_evm: false, deferral_circuits: Some(2) };
    let mut active = ActiveUploads::new();
    let staged = match admit_sharded_app_prove(&request("p-9"), loaded, &mut active) {
        Ok(staged) => staged,
        Err(e) => panic!("{}", e.body),
    };
    assert!(active.is_active("p-9"));
    assert_eq!(
        required_files(&staged),
        vec![
            "/dev/shm/edge_p-9/input.bin",
            "/dev/shm/edge_p-9/deferral_state_0.bin",
            "/dev/shm/edge_p-9/deferral_state_1.bin",
        ]
    );
    let info = WorkerInfo {
        prover_id: 1,
        num_provers: 4,
        max_app_provers: 2,
        default_segment_memory: Some(77),
        worker_role: WorkerRole::Full,
    };
    let mut pool = pool();
    let again = admit_sharded_app_prove(&request("p-9"), loaded, &mut active)
        .unwrap_or_else(|e| panic!("{}", e.body));
    match sharded_job(&request("p-9"), again, &info, &pool) {
        Err(refusal) => assert!(matches!(refusal, ShardedRefusal::NoAppWorker)),
        Ok(_) => panic!("no worker is free"),
    }
    set(&mut pool, JobType::ShardedApp, false);
    match sharded_job(&request("p-9"), staged, &info, &pool) {
        Ok(job) => {
            assert_eq!(job.context.proof_uuid, "p-9");
            assert_eq!(job.segment_memory, Some(77));
            assert_eq!((job.prover_id, job.num_provers, job.max_app_provers), (1, 4, 2));
            assert!(job.streams_results);
            assert!(job.is_deferral_job());
        }
        Err(_) => panic!("a worker is free"),
    }
    assert!(admit_sharded_app_prove(&request("a b"), loaded, &mut active).is_err());
    assert!(!active.is_active("a b"));
    assert_eq!(sharded_accepted().body, "Edge work accepted");
}

#[test]
fn staged_files_are_awaited_for_thirty_seconds() {
    let limit: u128 = 30_000_000_000;
    assert_eq!((STAGED_FILE_TIMEOUT_NANOS, STAGED_FILE_POLL_MS), (limit, 100));
    assert!(matches!(await_file("/f", true, limit + 1), FileWait::Present));
    assert!(matches!(await_file("/f", false, 0), FileWait::Retry));
    assert!(matches!(await_file("/f", false, limit), FileWait::Retry));
    assert!(matches!(
        await_file("/f", false, limit + 1),
        FileWait::TimedOut(ShardedRefusal::FileMissing(path)) if path == "/f"
    ));
}

#[test]
fn refused_and_finished_jobs_release_their_proof() {
    let status = ArtifactStatus::NotLoaded;
    let mut active = ActiveUploads::new();
    active.activate("other");
    for (refusal, code, body) in [
        (
            ShardedRefusal::FileMissing("/f".to_string()),
            408,
            "Timeout waiting for input file: /f",
        ),
        (ShardedRefusal::NoAppWorker, 503, "No available app workers"),
    ] {
        assert!(admit_sharded_app_prove(&request("p-9"), status, &mut active).is_ok());
        assert!(active.is_active("p-9"));
        let refused = refuse_sharded(&request("p-9"), refusal, &mut active);
        assert_eq!((refused.reply.status, refused.reply.body.as_str()), (code, body));
        assert_eq!(refused.dir, "/dev/shm/edge_p-9");
        assert!(!active.is_active("p-9"));
        assert!(active.is_active("other"));
    }
    assert!(admit_sharded_app_prove(&request("p-9"), status, &mut active).is_ok());
    assert_eq!(close_sharded(&request("p-9"), &mut active), "/dev/shm/edge_p-9");
    assert!(!active.is_active("p-9"));
    assert!(active.is_active("other"));
}

#[test]
fn only_results_and_errors_are_reported() {
    assert!(matches!(report_of(Ok(ProverResult::Success(vec![]))), Report::Results(_)));
    assert!(matches!(report_of(Ok(ProverResult::Canceled)), Report::Nothing));
    assert!(matches!(report_of(Err("x".to_string())), Report::Error(e) if e == "x"));
    assert!(matches!(streamed_report_of(Ok(ProverResult::Success(vec![]))), Report::Nothing));
    assert!(matches!(
        streamed_report_of(Ok(ProverResult::Error("y".to_string()))),
        Report::Error(e) if e == "y"
    ));
}

#[test]
fn deferral_jobs_must_match_the_keyset() {
    let loaded = |n: Option<usize>| ArtifactStatus::Loaded { has_evm: true, deferral_circuits: n };
    assert!(check_deferral_states(0, ArtifactStatus::NoStore).is_ok());
    assert_eq!(
        check_deferral_states(1, ArtifactStatus::NoStore),
        Err("Artifact store not initialized".to_string())
    );
    assert_eq!(
        check_deferral_states(1, ArtifactStatus::NotLoaded),
        Err("Edge artifacts not loaded".to_string())
    );
    assert!(check_deferral_states(1, loaded(None)).unwrap_err().contains("(1 circuits)"));
    assert!(check_deferral_states(1, loaded(Some(2))).unwrap_err().contains("expects 2"));
    assert!(check_deferral_states(2, loaded(Some(2))).is_ok());
    let program = ProgramRef::new("a", 1);
    assert_eq!(needs_depth0_proofs(loaded(None), &program, false), Ok(false));
    assert_eq!(needs_depth0_proofs(loaded(Some(1)), &program, true), Ok(true));
    assert_eq!(
        needs_depth0_proofs(loaded(Some(1)), &program, false),
        Err("vmexe for a@v1 not loaded on this worker".to_string())
    );
    assert_eq!(loaded(Some(3)).loaded_deferral_circuit_count(), 3);
    assert_eq!(ArtifactStatus::NotLoaded.loaded_deferral_circuit_count(), 0);
    assert_eq!(
        deferral_state_failure(1, "/p", StateFailure::Read("gone".to_string())),
        "Failed to read deferral state file for circuit 1 at /p: gone"
    );
    assert_eq!(
        deferral_state_failure(1, "/p", StateFailure::Decode("eof".to_string())),
        "Failed to deserialize DeferralState for circuit 1 at /p: eof"
    );
    assert_eq!(
        depth0_encode_failure("eof"),
        "encode depth-0 DeferralMerkleProofs failed: eof"
    );
}

#[test]
fn registrations_are_answered_with_the_baseline() {
    let program = ProgramRef::new("a", 1);
    assert!(matches!(
        registration_step(RegistrationOutcome::Accepted),
        RegistrationStep::PrepareAndWait
    ));
    assert!(matches!(
        registration_step(RegistrationOutcome::AlreadyRegistered),
        RegistrationStep::Wait
    ));
    match registration_step(RegistrationOutcome::Conflict("busy".to_string())) {
        RegistrationStep::Done(result) => match registration_reply(result) {
            RegistrationReply::Refused(r) => assert_eq!((r.status, r.body.as_str()), (409, "busy")),
            _ => panic!("a conflict is refused"),
        },
        _ => panic!("a conflict is final"),
    }
    assert!(matches!(
        registration_reply(conclude_registration(&program, Some(vec![5]), true)),
        RegistrationReply::Baseline(b) if b == vec![5]
    ));
    assert!(matches!(
        conclude_registration(&program, Some(vec![5]), false),
        RegistrationResult::AlreadyRegistered(Some(_))
    ));
    match registration_reply(conclude_registration(&program, None, true)) {
        RegistrationReply::Refused(r) => assert_eq!(
            (r.status, r.body.as_str()),
            (400, "Failed to derive a verifying key for a@v1")
        ),
        _ => panic!("a failed derivation is refused"),
    }
    match invalid_vm_config("bad") {
        RegistrationResult::Invalid(e) => {
            assert_eq!(e, "vm_config is not a valid SdkVmConfig: bad")
        }
        _ => panic!("expected an invalid registration"),
    }
    assert_eq!(
        undecodable_registration("eof").body,
        "Failed to deserialize register_program request: eof"
    );
}

#[test]
fn preparations_end_published_released_or_failed() {
    let mut p = Preparation::Deriving;
    assert_eq!(p.advance(TaskEnd::Done), StoreAction::RecordBaseline);
    assert_eq!(p.advance(TaskEnd::Done), StoreAction::InstallRegistration);
    assert_eq!(p.advance(TaskEnd::Failed), StoreAction::PublishRegistration);
    assert_eq!(p, Preparation::Published);
    let mut p = Preparation::Deriving;
    assert_eq!(p.advance(TaskEnd::Panicked), StoreAction::ReleaseRegistration);
    assert_eq!(p, Preparation::Released);
    let mut p = Preparation::Compiling;
    assert_eq!(p.advance(TaskEnd::Failed), StoreAction::FailRegistration);
    assert_eq!(p, Preparation::Failed);
}

#[test]
fn failed_leaf_jobs_name_the_running_ones() {
    let mut active = ActiveLeafJobs::new();
    assert_eq!(active.snapshot_summary(), "none");
    active.begin("leaf-prover-1", "p", 4, 7);
    active.begin("leaf-prover-0", "q", 0, 3);
    assert_eq!(active.snapshot_summary(), "leaf-prover-0:q[0-3], leaf-prover-1:p[4-7]");
    active.begin("leaf-prover-1", "r", 8, 8);
    match with_active_jobs(ProverResult::Error("x".to_string()), &active) {
        ProverResult::Error(e) => assert_eq!(
            e,
            "x [active_leaf_jobs=leaf-prover-0:q[0-3], leaf-prover-1:r[8-8]]"
        ),
        _ => panic!("an error stays one"),
    }
    active.end("leaf-prover-0");
    assert_eq!(active.snapshot_summary(), "leaf-prover-1:r[8-8]");
    assert!(matches!(with_active_jobs(ProverResult::Canceled, &active), ProverResult::Canceled));
}

fn context() -> ProofContext {
    ProofContext::new("u".to_string(), ProgramRef::new("a", 1), Default::default())
}

#[test]
fn contexts_default_to_stark() {
    assert_eq!(context().proof_type, ProofType::Stark);
    assert_eq!(context().clone(), context());
    let request = StartProofRequest::minimal("proof-no-def".to_string());
    assert!(!request.input_already_uploaded);
    assert_eq!(request.proof_type, ProofType::Stark);
    assert!(request.program.is_none());
}

#[test]
fn requests_name_their_step() {
    let request = GeneralProveRequest::EvmProve(EvmProveRequest {
        context: context(),
        internal_proof_bytes: vec![1],
        deferral_merkle_proofs_bytes: None,
        proof_has_deferral: false,
    });
    assert_eq!(Step::from(&request), Step::EvmProve);
    assert_eq!(request.request_details().step, Step::EvmProve);
    assert_eq!(request.request_details().context, context());
    assert_eq!(request.proof_uuid(), "u");
    assert_eq!(request.context(), &context());
    assert_eq!(ProofsTypeWire::Combined.label(), "Combined");
}

fn app(worker_id: usize) -> ProofResult {
    ProofResult::App(AppProof {
        context: context(),
        state: AppProofState {
            proof: Some(vec![1]),
            segment_idx: 3,
            prove_time_ms: 1,
            fastfwd_time_ms: 0,
            stark_prove_time_ms: 1,
            queue_wait_ms: 0,
            metered_time_ms: 0,
            sub_metrics: vec![],
            final_merkle_path_bytes: None,
            deferral_merkle_proofs_bytes: None,
            worker_id,
            completed_at_ms: 0,
        },
    })
}

#[test]
fn the_last_stamp_wins() {
    let mut result = app(0);
    result.stamp(4, 100);
    result.stamp(5, 200);
    match &result {
        ProofResult::App(p) => {
            assert_eq!((p.state.worker_id, p.state.completed_at_ms), (5, 200));
            assert_eq!(p.state.segment_idx, 3);
        }
        _ => panic!("the kind stays"),
    }
    assert_eq!(result.kind(), "app");
    assert_eq!(result.describe(), "AppProof(segment_idx: 3, has_proof: true)");
    assert_eq!(result.proof_uuid(), "u");
}

#[test]
fn results_are_described_in_one_line() {
    let evm = ProofResult::Evm(EvmProof {
        context: context(),
        state: EvmProofState {
            proof: None,
            prove_time_ms: 0,
            root_prove_time_ms: 0,
            sub_metrics: vec![],
        },
    });
    assert_eq!((evm.kind(), evm.describe().as_str()), ("evm", "EvmProof(has_proof: false)"));
    let error = ProofResult::Error(ErrorResult {
        context: context(),
        step: "s".to_string(),
        error: "e".to_string(),
    });
    assert_eq!(error.describe(), "ErrorResult(proof_uuid: u, step: s, error: e)");
}
