use edge_worker::context::ProofContext;
use edge_worker::program::ProgramRef;
use edge_worker::provers::{
    is_misplaced, is_uncountable, plan_internal, plan_leaf, prove_internal_with_prover,
    prove_leaf_with_prover, validate_internal_job, validate_leaf_job, AggregationError,
    Aggregation, ChildVkKind, InternalCircuit, InternalProverJob, LeafProverJob, LeafRun,
    ProofWithPublicValue, ProverResult,
};
use edge_worker::results::{InternalProofState, ProofResult, SpanMetric};
use edge_worker::segments::ShardedAppProverJob;
use edge_worker::simulation::{prove_internal, prove_leaf, prove_sharded_app};

type Job = ProofWithPublicValue<Vec<u8>, Vec<u32>>;

fn context() -> ProofContext {
    ProofContext::new(
        "test-proof-id".to_string(),
        ProgramRef::new("test-program", 1),
        Default::default(),
    )
}

fn proofs(count: usize, size: usize) -> Vec<Job> {
    (0..count)
        .map(|_| ProofWithPublicValue { proof: vec![0u8; size], user_public_values: None })
        .collect()
}

fn simulated(size: usize, ms: u64) -> LeafRun {
    LeafRun { encoded: Ok(vec![0u8; size]), prove_time_ms: ms, sub_metrics: vec![] }
}

fn plus(a: u64, b: u64) -> u64 {
    (f64::from_bits(a) + f64::from_bits(b)).to_bits()
}

fn metric(name: &str, ms: f64) -> SpanMetric {
    SpanMetric { name: name.to_string(), ms_bits: ms.to_bits() }
}

#[test]
fn test_leaf_prove_mock() {
    let job = LeafProverJob {
        context: context(),
        app_proofs: proofs(4, 256),
        segment_start: 0,
        segment_end: 4,
    };
    match prove_leaf(job, || simulated(512, 200)) {
        ProverResult::Success(proofs) => {
            assert_eq!(proofs.len(), 1);
            match &proofs[0] {
                ProofResult::Leaf(leaf_proof) => {
                    assert_eq!(leaf_proof.state.segment_start, 0);
                    assert_eq!(leaf_proof.state.segment_end, 4);
                    assert_eq!(leaf_proof.state.prove_time_ms, 200);
                    assert_eq!(leaf_proof.context.proof_uuid, "test-proof-id");
                }
                _ => panic!("Expected Leaf proof"),
            }
        }
        ProverResult::Error(e) => panic!("Unexpected error: {}", e),
        ProverResult::Canceled => panic!("Unexpected cancellation"),
    }
}

#[test]
fn test_leaf_prove_empty_app_proofs() {
    let job = LeafProverJob {
        context: context(),
        app_proofs: proofs(0, 0),
        segment_start: 0,
        segment_end: 0,
    };
    match prove_leaf(job, || simulated(512, 200)) {
        ProverResult::Error(e) => {
            assert!(e.contains("empty"), "Error should mention empty list: {}", e);
        }
        ProverResult::Success(_) => panic!("Should have failed with empty app_proofs"),
        ProverResult::Canceled => panic!("Unexpected cancellation"),
    }
}

#[test]
fn test_leaf_prove_invalid_segment_range() {
    let job = LeafProverJob {
        context: context(),
        app_proofs: proofs(2, 256),
        segment_start: 10,
        segment_end: 5,
    };
    match prove_leaf(job, || simulated(512, 200)) {
        ProverResult::Error(e) => {
            assert!(
                e.contains("Invalid segment range"),
                "Error should mention invalid range: {}",
                e
            );
        }
        ProverResult::Success(_) => panic!("Should have failed with invalid segment range"),
        ProverResult::Canceled => panic!("Unexpected cancellation"),
    }
}

fn internal_job(child_proofs: Vec<Job>, layer_idx: usize, end: usize, last: bool) -> InternalProverJob<Vec<u8>, Vec<u32>> {
    InternalProverJob {
        context: context(),
        child_proofs,
        layer_idx,
        segment_start: 0,
        segment_end: end,
        is_final_proof: last,
        proof_has_deferral: false,
    }
}

#[test]
fn test_internal_prove_mock() {
    let job = internal_job(proofs(2, 512), 0, 8, false);
    match prove_internal(job, || simulated(1024, 300), || 200, plus) {
        ProverResult::Success(proofs) => {
            assert_eq!(proofs.len(), 1);
            match &proofs[0] {
                ProofResult::Internal(internal_proof) => {
                    assert_eq!(internal_proof.state.layer_idx, 0);
                    assert_eq!(internal_proof.state.segment_start, 0);
                    assert_eq!(internal_proof.state.segment_end, 8);
                    assert_eq!(internal_proof.state.compression_time_ms, 0);
                }
                _ => panic!("Expected Internal proof"),
            }
        }
        ProverResult::Error(e) => panic!("Unexpected error: {}", e),
        ProverResult::Canceled => panic!("Unexpected cancellation"),
    }
}

#[test]
fn test_final_internal_prove_mock() {
    let job = internal_job(proofs(2, 1024), 2, 16, true);
    match prove_internal(job, || simulated(1024, 300), || 200, plus) {
        ProverResult::Success(proofs) => {
            assert_eq!(proofs.len(), 1);
            match &proofs[0] {
                ProofResult::Internal(internal_proof) => {
                    assert_eq!(internal_proof.state.layer_idx, 2);
                    assert_eq!(internal_proof.state.compression_time_ms, 200);
                    assert!(!internal_proof.state.ready_for_evm);
                    assert!(internal_proof.state.proof.is_some());
                }
                _ => panic!("Expected Internal proof"),
            }
        }
        ProverResult::Error(e) => panic!("Unexpected error: {}", e),
        ProverResult::Canceled => panic!("Unexpected cancellation"),
    }
}

fn sharded_job(prover_id: usize, streams_results: bool) -> ShardedAppProverJob {
    ShardedAppProverJob {
        context: context(),
        num_provers: 4,
        prover_id,
        input_path: "/tmp/test-input".to_string(),
        segment_memory: None,
        max_app_provers: 1,
        streams_results,
        deferral_state_paths: vec![],
    }
}

#[test]
fn test_sharded_app_prove_mock() {
    let app = prove_sharded_app(sharded_job(0, false), 100, Ok(vec![7]), |_| simulated(256, 20));
    assert!(app.streamed.is_empty());
    match app.result {
        ProverResult::Success(proofs) => {
            assert!(!proofs.is_empty());

            let mut found_e2_result = false;
            let mut app_proof_count = 0;
            for proof in proofs {
                match proof {
                    ProofResult::ExecuteE2(e2_result) => {
                        assert_eq!(e2_result.state.num_segments, 16);
                        assert_eq!(e2_result.state.segments, vec![vec![7u8]; 16]);
                        assert_eq!(e2_result.state.cost, 1000);
                        assert_eq!(e2_result.state.execute_time_ms, 100);
                        found_e2_result = true;
                    }
                    ProofResult::App(app_proof) => {
                        assert!(app_proof.state.segment_idx < 16);
                        app_proof_count += 1;
                    }
                    _ => panic!("Unexpected proof type"),
                }
            }
            assert!(found_e2_result, "Expected ExecuteE2Result from worker 0");
            assert_eq!(app_proof_count, 4, "Expected 4 app proofs");
        }
        ProverResult::Error(e) => panic!("Unexpected error: {}", e),
        ProverResult::Canceled => panic!("Unexpected cancellation"),
    }
}

fn indices(proofs: &[ProofResult]) -> Vec<usize> {
    proofs
        .iter()
        .filter_map(|p| match p {
            ProofResult::App(app) => Some(app.state.segment_idx),
            _ => None,
        })
        .collect()
}

#[test]
fn test_sharded_app_prove_non_zero_worker() {
    let app = prove_sharded_app(sharded_job(1, false), 100, Ok(vec![]), |_| simulated(256, 20));
    match app.result {
        ProverResult::Success(proofs) => {
            for proof in &proofs {
                if matches!(proof, ProofResult::ExecuteE2(_)) {
                    panic!("Worker 1 should not emit ExecuteE2Result");
                }
            }
            assert_eq!(proofs.len(), 4, "Expected 4 app proofs");
            assert_eq!(indices(&proofs), vec![1, 5, 9, 13]);
        }
        ProverResult::Error(e) => panic!("Unexpected error: {}", e),
        ProverResult::Canceled => panic!("Unexpected cancellation"),
    }
}

#[test]
fn streaming_simulations_send_results_as_they_come() {
    let app = prove_sharded_app(sharded_job(0, true), 1, Ok(vec![]), |_| simulated(8, 20));
    assert_eq!(app.streamed.len(), 5);
    assert!(matches!(app.streamed[0], ProofResult::ExecuteE2(_)));
    assert_eq!(indices(&app.streamed), vec![0, 4, 8, 12]);
    assert!(matches!(app.result, ProverResult::Success(results) if results.is_empty()));

    let failing = |idx: usize| LeafRun {
        encoded: if idx < 8 { Ok(vec![]) } else { Err(format!("no {idx}")) },
        prove_time_ms: 0,
        sub_metrics: vec![],
    };
    let app = prove_sharded_app(sharded_job(0, true), 1, Ok(vec![]), failing);
    assert_eq!(app.streamed.len(), 3);
    match &app.streamed[0] {
        ProofResult::ExecuteE2(e) => assert_eq!(e.state.execute_time_ms, 1),
        _ => panic!("the execution is sent first"),
    }
    assert_eq!(indices(&app.streamed), vec![0, 4]);
    match app.result {
        ProverResult::Error(e) => assert_eq!(e, "Sharded app prove failed: no 8"),
        _ => panic!("expected an error"),
    }
    let app =
        prove_sharded_app(sharded_job(0, true), 1, Err("seg".to_string()), |_| simulated(8, 20));
    assert!(app.streamed.is_empty());
    assert!(matches!(app.result, ProverResult::Error(e) if e == "Sharded app prove failed: seg"));
}

#[test]
fn leaf_jobs_need_one_proof_per_segment() {
    assert!(validate_leaf_job(4, 4, 7).is_ok());
    assert_eq!(validate_leaf_job(0, 0, 0), Err(AggregationError::NoAppProofs));
    assert_eq!(
        validate_leaf_job(1, 3, 2),
        Err(AggregationError::InvalidSegmentRange { start: 3, end: 2 })
    );
    let mismatch = validate_leaf_job(4, 0, 4).unwrap_err();
    assert_eq!(
        mismatch.message(),
        "Proof count 4 does not match segment range [0, 4] (expected 5)"
    );
    let many = validate_leaf_job(5, 0, 4).unwrap_err();
    assert_eq!(many.message(), "Too many app proofs: 5 exceeds MAX_NUM_CHILDREN_LEAF=4");
}

#[test]
fn internal_jobs_fit_the_circuit() {
    assert!(validate_internal_job(3, 0, 40).is_ok());
    assert_eq!(validate_internal_job(0, 0, 0), Err(AggregationError::NoChildProofs));
    assert_eq!(
        validate_internal_job(4, 0, 3).unwrap_err().message(),
        "Too many child proofs: 4 exceeds MAX_NUM_CHILDREN_INTERNAL=3"
    );
    assert_eq!(
        validate_internal_job(2, 9, 3).unwrap_err().message(),
        "Invalid segment range: start 9 > end 3"
    );
}

fn tagged(tag: u8, values: Option<Vec<u32>>) -> Job {
    ProofWithPublicValue { proof: vec![tag], user_public_values: values }
}

#[test]
fn public_values_come_from_the_terminal_proof() {
    let job = LeafProverJob {
        context: context(),
        app_proofs: vec![tagged(1, Some(vec![9])), tagged(2, None)],
        segment_start: 0,
        segment_end: 1,
    };
    let plan = plan_leaf(job).unwrap_or_else(|e| panic!("{}", e.message()));
    assert_eq!(plan.proofs, vec![vec![1u8], vec![2]]);
    assert_eq!(plan.user_public_values, None);
    assert_eq!(plan.child_vk_kind, ChildVkKind::App);

    let children = vec![tagged(1, Some(vec![7])), tagged(2, Some(vec![8])), tagged(3, None)];
    let plan = plan_internal(internal_job(children, 1, 9, true))
        .unwrap_or_else(|e| panic!("{}", e.message()));
    assert_eq!(plan.user_public_values, Some(vec![8]));
    assert_eq!(plan.circuit, InternalCircuit::Recursive);
    assert_eq!(plan.child_vk_kind, ChildVkKind::Standard);
    assert!(plan.wrap);

    let mut deferral = internal_job(vec![tagged(1, None)], 2, 9, true);
    deferral.proof_has_deferral = true;
    let plan = plan_internal(deferral).unwrap_or_else(|e| panic!("{}", e.message()));
    assert!(!plan.wrap);
    assert_eq!(plan.child_vk_kind, ChildVkKind::RecursiveSelf);
    let plan = plan_internal(internal_job(vec![tagged(1, None)], 0, 9, false))
        .unwrap_or_else(|e| panic!("{}", e.message()));
    assert_eq!(plan.circuit, InternalCircuit::ForLeaf);
    assert!(!plan.wrap);
}

#[test]
fn whole_leaf_jobs_run_through_the_circuit() {
    let job = LeafProverJob {
        context: context(),
        app_proofs: vec![tagged(1, None), tagged(2, Some(vec![5]))],
        segment_start: 6,
        segment_end: 7,
    };
    let result = prove_leaf_with_prover(job, |proofs, kind, values| {
        assert_eq!(kind, ChildVkKind::App);
        assert_eq!(values, Some(vec![5]));
        LeafRun {
            encoded: Ok(proofs.concat()),
            prove_time_ms: 11,
            sub_metrics: vec![metric("x", 1.5)],
        }
    });
    match result {
        ProverResult::Success(results) => match &results[0] {
            ProofResult::Leaf(p) => {
                assert_eq!(p.state.proof, Some(vec![1, 2]));
                assert_eq!(p.state.segment_start, 6);
                assert_eq!(p.state.sub_metrics.len(), 1);
            }
            _ => panic!("expected a leaf proof"),
        },
        _ => panic!("expected success"),
    }
    let job = LeafProverJob {
        context: context(),
        app_proofs: vec![tagged(1, None)],
        segment_start: 6,
        segment_end: 7,
    };
    match prove_leaf_with_prover(job, |_, _, _| panic!("a refused job must not run")) {
        ProverResult::Error(e) => assert_eq!(
            e,
            "Leaf prove failed: Proof count 1 does not match segment range [6, 7] (expected 2)"
        ),
        _ => panic!("expected an error"),
    }
}

fn run_of(
    proof: Result<Vec<u8>, String>,
    time_ms: u64,
    sub_metrics: Vec<SpanMetric>,
) -> Aggregation<Vec<u8>> {
    Aggregation { proof, time_ms, sub_metrics }
}

fn encode(last: Job) -> Result<Vec<u8>, String> {
    let mut bytes = last.proof;
    bytes.extend(last.user_public_values.unwrap_or_default().iter().map(|v| *v as u8));
    Ok(bytes)
}

fn internal_state(result: ProverResult) -> InternalProofState {
    match result {
        ProverResult::Success(mut results) => {
            assert_eq!(results.len(), 1);
            match results.remove(0) {
                ProofResult::Internal(p) => p.state,
                _ => panic!("expected an internal proof"),
            }
        }
        _ => panic!("expected success"),
    }
}

#[test]
fn wrap_timings_are_reported_and_summed() {
    let job = internal_job(vec![tagged(4, Some(vec![9])), tagged(5, None)], 3, 9, true);
    let result = prove_internal_with_prover(
        job,
        |circuit, proofs, kind| {
            assert_eq!((circuit, kind), (InternalCircuit::Recursive, ChildVkKind::RecursiveSelf));
            if *proofs == vec![vec![4u8], vec![5]] {
                run_of(Ok(vec![1]), 30, vec![metric("a", 1.0), metric("b", 2.0)])
            } else {
                assert_eq!(*proofs, vec![vec![1u8]]);
                run_of(Ok(vec![2]), 8, vec![metric("b", 0.5), metric("c", 4.0)])
            }
        },
        encode,
        plus,
    );
    let state = internal_state(result);
    assert_eq!(state.proof, Some(vec![2, 9]));
    assert_eq!((state.prove_time_ms, state.compression_time_ms), (30, 8));
    assert_eq!(state.wrap_sub_metrics.len(), 2);
    let total = |name: &str| {
        let m = state.sub_metrics.iter().find(|m| m.name == name).unwrap();
        f64::from_bits(m.ms_bits)
    };
    assert_eq!(state.sub_metrics.len(), 3);
    assert_eq!((total("a"), total("b"), total("c")), (1.0, 2.5, 4.0));
}

#[test]
fn only_a_final_proof_without_a_tail_is_wrapped() {
    let mut with_tail = internal_job(vec![tagged(4, None)], 1, 9, true);
    with_tail.proof_has_deferral = true;
    for (job, circuit, kind) in [
        (with_tail, InternalCircuit::Recursive, ChildVkKind::Standard),
        (
            internal_job(vec![tagged(4, None)], 0, 9, false),
            InternalCircuit::ForLeaf,
            ChildVkKind::Standard,
        ),
        (
            internal_job(vec![tagged(4, None)], 2, 9, false),
            InternalCircuit::Recursive,
            ChildVkKind::RecursiveSelf,
        ),
    ] {
        let aggregate = |asked: InternalCircuit, proofs: &Vec<Vec<u8>>, child: ChildVkKind| {
            assert_eq!((asked, child), (circuit, kind));
            assert_eq!(*proofs, vec![vec![4u8]]);
            run_of(Ok(vec![1]), 30, vec![metric("a", 1.0)])
        };
        let state = internal_state(prove_internal_with_prover(job, aggregate, encode, plus));
        assert_eq!(state.proof, Some(vec![1]));
        assert_eq!((state.prove_time_ms, state.compression_time_ms), (30, 0));
        assert!(state.wrap_sub_metrics.is_empty());
        assert_eq!(state.sub_metrics.len(), 1);
    }
}

#[test]
fn failed_circuits_fail_internal_jobs() {
    let failure = |job, wrap: Result<Vec<u8>, String>, first: Result<Vec<u8>, String>| {
        let aggregate = |_: InternalCircuit, proofs: &Vec<Vec<u8>>, _: ChildVkKind| {
            let made = if *proofs == vec![vec![4u8]] { first.clone() } else { wrap.clone() };
            run_of(made, 5, vec![])
        };
        match prove_internal_with_prover(job, aggregate, |_| Err("wire".to_string()), plus) {
            ProverResult::Error(e) => e,
            _ => panic!("expected an error"),
        }
    };
    let job = || internal_job(vec![tagged(4, None)], 1, 9, true);
    let bad = |e: &str| Err(e.to_string());
    assert_eq!(failure(job(), Ok(vec![]), bad("gpu")), "Internal prove failed: gpu");
    assert_eq!(failure(job(), bad("wrap"), Ok(vec![1])), "Internal prove failed: wrap");
    assert_eq!(failure(job(), Ok(vec![2]), Ok(vec![1])), "Internal prove failed: wire");
    assert_eq!(
        failure(internal_job(vec![], 1, 9, true), Ok(vec![]), Ok(vec![])),
        "Internal prove failed: Cannot aggregate empty child_proofs list"
    );
}

#[test]
fn jobs_that_cannot_run_are_told_apart() {
    assert!(is_misplaced(&internal_job(vec![tagged(4, None)], 0, 9, true)));
    assert!(!is_misplaced(&internal_job(vec![tagged(4, None)], 1, 9, true)));
    assert!(!is_misplaced(&internal_job(vec![tagged(4, None)], 0, 9, false)));
    assert!(!is_misplaced(&internal_job(vec![], 0, 9, true)));
    let leaf = |app_proofs: Vec<Job>, segment_start, segment_end| LeafProverJob {
        context: context(),
        app_proofs,
        segment_start,
        segment_end,
    };
    assert!(is_uncountable(&leaf(vec![tagged(1, None)], 0, usize::MAX)));
    assert!(!is_uncountable(&leaf(vec![tagged(1, None)], 1, usize::MAX)));
    assert!(!is_uncountable(&leaf(vec![], 0, usize::MAX)));
}
