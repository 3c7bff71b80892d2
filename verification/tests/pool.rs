use edge_worker::config::ProversConfig;
use edge_worker::dispatch::{
    app_route, begin_dispatch, check_parallel_capacity, consumers_started, continue_scan,
    handle_panic_result, merge_parallel_app_results, offered, panic_failure, prover_built,
    take_app_job, takes_preload, unknown_program, worker_name, AppCounters, AppProverJob, AppRoute,
    ConsumerTally, DispatchAction, DispatchError, LoadStep, PanicPayload, SendOutcome, StartWait,
};
use edge_worker::context::ProofContext;
use edge_worker::program::ProgramRef;
use edge_worker::prover_pool::{next_available, JobType, ProverPool, WorkerStatus};
use edge_worker::provers::ProverResult;
use edge_worker::requests::WorkerRole;
use edge_worker::segments::ShardedAppProverJob;

fn config() -> ProversConfig {
    ProversConfig {
        max_app_provers: 2,
        max_leaf_provers: 2,
        max_internal_provers: 1,
        max_root_provers: 1,
        max_halo2_provers: 1,
        default_segment_memory: None,
    }
}

#[test]
fn full_builds_all_classes() {
    let pool = ProverPool::new(&config(), WorkerRole::Full);
    assert_eq!(pool.configured_count(JobType::ShardedApp), 2);
    assert_eq!(pool.configured_count(JobType::Leaf), 2);
    assert_eq!(pool.configured_count(JobType::Internal), 1);
    assert_eq!(pool.configured_count(JobType::Root), 1);
    assert_eq!(pool.configured_count(JobType::Halo2), 1);
}

#[test]
fn normal_skips_root_and_halo2() {
    let pool = ProverPool::new(&config(), WorkerRole::StarkOnly);
    assert_eq!(pool.configured_count(JobType::ShardedApp), 2);
    assert_eq!(pool.configured_count(JobType::Leaf), 2);
    assert_eq!(pool.configured_count(JobType::Internal), 1);
    assert_eq!(pool.configured_count(JobType::Root), 0);
    assert_eq!(pool.configured_count(JobType::Halo2), 0);
}

#[test]
fn evm_dedicated_skips_app_leaf_internal() {
    let pool = ProverPool::new(&config(), WorkerRole::EvmDedicated);
    assert_eq!(pool.configured_count(JobType::ShardedApp), 0);
    assert_eq!(pool.configured_count(JobType::Leaf), 0);
    assert_eq!(pool.configured_count(JobType::Internal), 0);
    assert_eq!(pool.configured_count(JobType::Root), 1);
    assert_eq!(pool.configured_count(JobType::Halo2), 1);
}

#[test]
fn parallel_app_result_fails_when_any_consumer_fails() {
    let result = merge_parallel_app_results(
        ProverResult::Success(vec![]),
        vec![],
        vec!["segment 7 failed".to_string()],
        false,
    );

    let ProverResult::Error(error) = result else {
        panic!("consumer failure must fail the parallel app job");
    };
    assert!(error.contains("segment 7 failed"));
}

#[test]
fn parallel_app_result_is_canceled_when_any_part_is() {
    assert!(matches!(
        merge_parallel_app_results(ProverResult::Canceled, vec![], vec![], false),
        ProverResult::Canceled
    ));
    assert!(matches!(
        merge_parallel_app_results(ProverResult::Success(vec![]), vec![], vec![], true),
        ProverResult::Canceled
    ));
}

#[test]
fn coordinator_and_consumer_errors_are_joined() {
    let result = merge_parallel_app_results(
        ProverResult::Error("boom".to_string()),
        vec![],
        vec!["a".to_string(), "b".to_string()],
        false,
    );
    match result {
        ProverResult::Error(e) => assert_eq!(
            e,
            "Parallel app coordinator failed: boom; consumer failure(s): a; b"
        ),
        _ => panic!("expected an error"),
    }
}

fn busy() -> WorkerStatus {
    WorkerStatus { is_busy: true, is_initialized: true }
}

fn free() -> WorkerStatus {
    WorkerStatus { is_busy: false, is_initialized: true }
}

#[test]
fn a_new_pool_waits_for_its_provers() {
    let mut pool = ProverPool::new(&config(), WorkerRole::StarkOnly);
    assert!(!pool.all_provers_initialized());
    assert!(!pool.has_available_worker(JobType::Leaf));
    assert_eq!(pool.initialized_count(JobType::Leaf), 0);
    for idx in 0..2 {
        pool.report(JobType::ShardedApp, idx, free());
        pool.report(JobType::Leaf, idx, free());
    }
    pool.report(JobType::Internal, 0, busy());
    assert!(pool.all_provers_initialized());
    assert_eq!(pool.busy_count(JobType::Internal), 1);
    assert_eq!(pool.available_count(JobType::Leaf), 2);
    assert_eq!(pool.workers(JobType::Root).len(), 0);
    assert_eq!(next_available(pool.workers(JobType::Internal), 0), None);
    assert_eq!(next_available(pool.workers(JobType::Leaf), 1), Some(1));
    pool.shutdown();
    assert!(pool.cancelled);
}

#[test]
fn jobs_are_offered_to_free_workers_in_order() {
    let mut pool = ProverPool::new(&config(), WorkerRole::Full);
    assert!(matches!(begin_dispatch(&pool, JobType::Leaf), DispatchAction::Wait));
    pool.report(JobType::Leaf, 0, busy());
    pool.report(JobType::Leaf, 1, free());
    assert!(matches!(begin_dispatch(&pool, JobType::Leaf), DispatchAction::Offer(1)));
    assert!(matches!(
        offered(&pool, JobType::Leaf, 1, SendOutcome::Sent),
        DispatchAction::Await(1)
    ));
    assert!(matches!(
        offered(&pool, JobType::Leaf, 1, SendOutcome::Full),
        DispatchAction::Wait
    ));
    assert!(matches!(
        offered(&pool, JobType::Leaf, 1, SendOutcome::Disconnected),
        DispatchAction::Fail(DispatchError::ChannelClosed)
    ));
    assert!(matches!(continue_scan(&pool, JobType::Leaf, 2), DispatchAction::Wait));

    let empty = ProverPool::new(&config(), WorkerRole::StarkOnly);
    match begin_dispatch(&empty, JobType::Root) {
        DispatchAction::Fail(e) => assert!(matches!(e, DispatchError::NoWorkers(JobType::Root))),
        _ => panic!("no root workers are configured"),
    }
    pool.shutdown();
    pool.report(JobType::Leaf, 1, busy());
    assert!(matches!(
        begin_dispatch(&pool, JobType::Leaf),
        DispatchAction::Fail(DispatchError::PoolCancelled)
    ));
}

#[test]
fn preloads_go_to_idle_workers() {
    assert!(takes_preload(&free()));
    assert!(!takes_preload(&busy()));
}

fn sharded(max_app_provers: usize) -> ShardedAppProverJob {
    ShardedAppProverJob {
        context: ProofContext::new(
            "p".to_string(),
            ProgramRef::new("prog", 1),
            Default::default(),
        ),
        num_provers: 1,
        prover_id: 0,
        input_path: "/x".to_string(),
        segment_memory: None,
        max_app_provers,
        streams_results: true,
        deferral_state_paths: vec![],
    }
}

#[test]
fn several_app_provers_run_a_job_in_parallel() {
    assert!(matches!(app_route(&sharded(1)), AppRoute::Single));
    assert!(matches!(app_route(&sharded(2)), AppRoute::Parallel));
    let job: AppProverJob<()> = AppProverJob::Preload { target_program: ProgramRef::new("z", 3) };
    assert_eq!(job.target_program(), &ProgramRef::new("z", 3));
    let mut pool = ProverPool::new(&config(), WorkerRole::Full);
    let program = ProgramRef::new("prog", 1);
    pool.report(JobType::ShardedApp, 0, free());
    assert_eq!(
        check_parallel_capacity(&pool, &program, 2),
        Err("Not enough available app workers for parallel proving of prog@v1: need 2, have 1"
            .to_string())
    );
    pool.report(JobType::ShardedApp, 1, free());
    assert!(check_parallel_capacity(&pool, &program, 2).is_ok());
}

#[test]
fn consumers_must_start_before_the_deadline() {
    let mut pool = ProverPool::new(&config(), WorkerRole::Full);
    pool.report(JobType::ShardedApp, 0, busy());
    pool.report(JobType::ShardedApp, 1, free());
    let limit: u128 = 2_000_000_000;
    assert!(matches!(consumers_started(&pool, 1, limit), StartWait::Started));
    assert!(matches!(consumers_started(&pool, 2, limit - 1), StartWait::Retry));
    assert!(matches!(
        consumers_started(&pool, 2, limit),
        StartWait::TimedOut(e)
            if e == "Timed out waiting for app consumers to start: need busy >= 2, got 1"
    ));
}

#[test]
fn consumer_outcomes_are_tallied() {
    let mut tally = ConsumerTally::new();
    tally.count(Some(ProverResult::Success(vec![])));
    tally.count(Some(ProverResult::Error("e1".to_string())));
    tally.count(None);
    assert_eq!(tally.errors.len(), 2);
    assert_eq!(tally.errors[0], "e1");
    assert!(!tally.canceled);
    tally.count(Some(ProverResult::Canceled));
    assert!(tally.canceled);
}

#[test]
fn swaps_are_counted_only_between_programs() {
    let mut counters = AppCounters::new();
    let mut loaded = None;
    let a = ProgramRef::new("a", 1);
    let b = ProgramRef::new("b", 1);
    assert!(matches!(take_app_job(&mut loaded, &a, true, &mut counters), LoadStep::Build));
    assert!(prover_built(&mut loaded, "app-prover-0", &a, Ok(())).is_ok());
    assert!(matches!(take_app_job(&mut loaded, &a, true, &mut counters), LoadStep::Ready));
    assert!(matches!(take_app_job(&mut loaded, &b, false, &mut counters), LoadStep::Unknown));
    assert_eq!((counters.app_jobs_total(), counters.app_swaps_total()), (3, 0));
    assert!(matches!(take_app_job(&mut loaded, &b, true, &mut counters), LoadStep::Build));
    assert_eq!((counters.app_jobs_total(), counters.app_swaps_total()), (4, 1));
    assert!(loaded.is_none());
    match prover_built(&mut loaded, "app-prover-0", &b, Err("oom".to_string())) {
        Err(ProverResult::Error(e)) => {
            assert_eq!(e, "Worker app-prover-0: failed to build GPU prover for b@v1: oom")
        }
        _ => panic!("a failed build must be reported"),
    }
    assert!(loaded.is_none());
    match unknown_program("app-prover-0", &b) {
        ProverResult::Error(e) => {
            assert!(e.starts_with("Worker app-prover-0: program b@v1 not in execution_instances"))
        }
        _ => panic!("an unknown program is refused"),
    }
}

#[test]
fn panics_become_errors() {
    assert!(matches!(handle_panic_result(Ok(ProverResult::Canceled)), ProverResult::Canceled));
    match handle_panic_result(Err(PanicPayload::Text("oops".to_string()))) {
        ProverResult::Error(e) => assert_eq!(e, "Prover panicked: oops"),
        _ => panic!("expected an error"),
    }
    assert_eq!(panic_failure(PanicPayload::Text("x".to_string())), "Prover panicked: x");
    match handle_panic_result(Err(PanicPayload::Other)) {
        ProverResult::Error(e) => assert_eq!(e, "Prover panicked: Unknown panic"),
        _ => panic!("expected an error"),
    }
    assert_eq!(worker_name(JobType::Leaf, 3), "leaf-prover-3");
}
