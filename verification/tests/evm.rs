use edge_worker::artifacts::ArtifactStatus;
use edge_worker::config::ProversConfig;
use edge_worker::context::{ProofContext, ProofType};
use edge_worker::evm::{
    begin_evm_prep, begin_stark_merge, check_handoff, evm_gate, evm_unsupported, finish_evm_prep,
    finish_stark_merge, halo2_proved, root_proved, undecodable_root, EvmPrep, Halo2Outcome,
    MergeFailure, RootTimings, StarkMerge,
};
use edge_worker::program::ProgramRef;
use edge_worker::prover_pool::{JobType, ProverPool, WorkerStatus};
use edge_worker::provers::{InternalProverJob, LeafRun, ProofWithPublicValue, ProverResult};
use edge_worker::recursion::{
    internal_follow_up, plan_recursion, undecodable_request, work_accepted, InternalFollowUp,
    RecursionWork,
};
use edge_worker::requests::{
    DeferralTailDispatch, EvmProveRequest, GeneralProveRequest, InternalLayerMetadataWire,
    InternalProveRequest, LeafProveRequest, ProofsTypeWire, WorkerRole,
};
use edge_worker::results::{
    EvmProof, EvmProofState, InternalProof, InternalProofState, ProofResult, RootProofState,
    SpanMetric,
};
use edge_worker::simulation::prove_internal;
use openvm_sdk::F;
use openvm_stark_backend::p3_field::PrimeCharacteristicRing;
use openvm_verify_stark_host::deferral::DeferralMerkleProofs;

fn context(uuid: &str, proof_type: ProofType) -> ProofContext {
    let mut ctx = ProofContext::new(
        uuid.to_string(),
        ProgramRef::new("test", 1),
        Default::default(),
    );
    ctx.proof_type = proof_type;
    ctx
}

fn tail() -> DeferralTailDispatch {
    DeferralTailDispatch {
        layer_metadata: InternalLayerMetadataWire {
            internal_recursive_layer: 1,
            internal_node_idx: 4,
            proofs_type: ProofsTypeWire::Vm,
        },
        final_merkle_path_bytes: vec![1],
    }
}

fn internal(bytes: Option<Vec<u8>>) -> ProofResult {
    ProofResult::Internal(InternalProof {
        context: context("u", ProofType::Evm),
        state: InternalProofState {
            proof: bytes,
            layer_idx: 2,
            segment_start: 0,
            segment_end: 7,
            prove_time_ms: 5,
            compression_time_ms: 6,
            sub_metrics: vec![],
            wrap_sub_metrics: vec![],
            deferral_merkle_proofs_bytes: None,
            ready_for_evm: false,
            worker_id: 0,
            completed_at_ms: 0,
        },
    })
}

fn metric(name: &str) -> SpanMetric {
    SpanMetric { name: name.to_string(), ms_bits: 0 }
}

fn evm_result() -> ProofResult {
    ProofResult::Evm(EvmProof {
        context: context("u", ProofType::Evm),
        state: EvmProofState {
            proof: Some(vec![42]),
            prove_time_ms: 70,
            root_prove_time_ms: 0,
            sub_metrics: vec![metric("prove"), metric("wrap")],
        },
    })
}

fn failed(prep: EvmPrep) -> String {
    match prep {
        EvmPrep::Failed(e) => e,
        _ => panic!("expected a failure"),
    }
}

#[test]
fn the_final_internal_proof_starts_unflagged_and_is_prepared() {
    let job: InternalProverJob<Vec<u8>, ()> = InternalProverJob {
        context: context("proof-evm", ProofType::Evm),
        child_proofs: vec![ProofWithPublicValue { proof: vec![0u8; 64], user_public_values: None }],
        layer_idx: 2,
        segment_start: 0,
        segment_end: 4,
        is_final_proof: true,
        proof_has_deferral: false,
    };
    let run = LeafRun { encoded: Ok(vec![9; 8]), prove_time_ms: 1, sub_metrics: vec![] };
    let results = match prove_internal(job, || run, || 2, |a: u64, b: u64| a.wrapping_add(b)) {
        ProverResult::Success(r) => r,
        _ => panic!("internal prove failed"),
    };
    match &results[0] {
        ProofResult::Internal(ip) => {
            assert!(ip.state.proof.is_some());
            assert!(!ip.state.ready_for_evm);
        }
        _ => panic!("expected Internal"),
    }
    match begin_evm_prep("proof-evm", results, None, Some(vec![3])) {
        EvmPrep::Ready(ProofResult::Internal(ip)) => {
            assert!(ip.state.ready_for_evm);
            assert_eq!(ip.state.proof, Some(vec![9; 8]));
            assert_eq!(ip.state.deferral_merkle_proofs_bytes, Some(vec![3]));
            assert_eq!(ip.state.compression_time_ms, 2);
        }
        _ => panic!("expected the ready proof"),
    }
}

#[test]
fn evm_preparation_fails_without_a_proof() {
    assert_eq!(
        failed(begin_evm_prep("u", vec![evm_result()], None, None)),
        "evm prep: expected an Internal result for u, found none"
    );
    assert_eq!(
        failed(begin_evm_prep("u", vec![internal(None)], None, None)),
        "evm prep: final internal proof for u has no proof bytes"
    );
}

#[test]
fn merged_proofs_replace_the_raw_ones() {
    let (raw, bytes) = match begin_evm_prep("u", vec![internal(Some(vec![1]))], Some(tail()), None)
    {
        EvmPrep::Merge { internal, proof_bytes, tail } => {
            assert_eq!(tail.final_merkle_path_bytes, vec![1]);
            (internal, proof_bytes)
        }
        _ => panic!("a tail is merged"),
    };
    assert_eq!(bytes, vec![1]);
    match finish_evm_prep("u", raw, Ok((vec![8], vec![9]))) {
        Ok(ProofResult::Internal(p)) => {
            assert_eq!(p.state.proof, Some(vec![8]));
            assert_eq!(p.state.deferral_merkle_proofs_bytes, Some(vec![9]));
            assert!(p.state.ready_for_evm);
            assert_eq!(p.state.layer_idx, 2);
        }
        _ => panic!("expected the merged proof"),
    }
    let raw = || match internal(None) {
        ProofResult::Internal(p) => p,
        _ => panic!("unreachable"),
    };
    let e = || "e".to_string();
    let texts = [
        (MergeFailure::Decode(e()), "evm prep: failed to decode final internal proof for u: e"),
        (MergeFailure::Merge(e()), "evm prep: deferral tail merge failed for u: e"),
        (MergeFailure::EncodeProof(e()), "evm prep: failed to encode merged proof for u: e"),
        (MergeFailure::EncodeMerkle(e()), "evm prep: failed to encode merkle proofs for u: e"),
        (MergeFailure::Task(e()), "evm prep: tail-merge task failed for u: e"),
    ];
    for (failure, text) in texts {
        match finish_evm_prep("u", raw(), Err(failure)) {
            Err(said) => assert_eq!(said, text),
            Ok(_) => panic!("expected a failure"),
        }
    }
}

#[test]
fn stark_merges_complete_the_proof() {
    match begin_stark_merge("u", vec![internal(Some(vec![1]))], Some(tail())) {
        StarkMerge::Merge { internal, proof_bytes, .. } => {
            assert_eq!(proof_bytes, vec![1]);
            match finish_stark_merge("u", internal, Ok((vec![8], vec![9]))) {
                Ok(ProofResult::Internal(p)) => {
                    assert_eq!(p.state.proof, Some(vec![8]));
                    assert_eq!(p.state.deferral_merkle_proofs_bytes, Some(vec![9]));
                    assert!(!p.state.ready_for_evm);
                }
                _ => panic!("expected the merged proof"),
            }
        }
        StarkMerge::Failed(e) => panic!("{e}"),
    }
    let text = |m: StarkMerge| match m {
        StarkMerge::Failed(e) => e,
        _ => panic!("expected a failure"),
    };
    assert_eq!(
        text(begin_stark_merge("u", vec![], Some(tail()))),
        "stark deferral merge: expected an Internal result for u, found none"
    );
    assert_eq!(
        text(begin_stark_merge("u", vec![internal(None)], None)),
        "stark deferral merge: missing deferral tail dispatch for u"
    );
    assert_eq!(
        text(begin_stark_merge("u", vec![internal(None)], Some(tail()))),
        "stark deferral merge failed for u: stark deferral merge: final internal proof for u has no proof bytes"
    );
    let raw = || match internal(None) {
        ProofResult::Internal(p) => p,
        _ => panic!("unreachable"),
    };
    match finish_stark_merge("u", raw(), Err(MergeFailure::Merge("m".to_string()))) {
        Err(e) => assert_eq!(e, "stark deferral merge failed for u: m"),
        Ok(_) => panic!("expected a failure"),
    }
    match finish_stark_merge("u", raw(), Err(MergeFailure::EncodeProof("m".to_string()))) {
        Err(e) => assert_eq!(
            e,
            "stark deferral merge failed for u: stark deferral merge: failed to encode merged proof for u: m"
        ),
        Ok(_) => panic!("expected a failure"),
    }
}

#[test]
fn root_timings_are_folded_into_the_evm_proof() {
    let state = RootProofState {
        proof: Some(vec![1, 2]),
        prove_time_ms: 33,
        sub_metrics: vec![metric("prove")],
    };
    let (bytes, root) = match root_proved("u", Ok(state)) {
        Ok(r) => r,
        Err(e) => panic!("{e}"),
    };
    assert_eq!(bytes, vec![1, 2]);
    let results = vec![internal(None), evm_result()];
    match halo2_proved("u", root, Halo2Outcome::Finished(ProverResult::Success(results))) {
        Ok(ProofResult::Evm(p)) => {
            assert_eq!(p.state.proof, Some(vec![42]));
            assert_eq!(p.state.prove_time_ms, 70);
            assert_eq!(p.state.root_prove_time_ms, 33);
            let names: Vec<&str> = p.state.sub_metrics.iter().map(|m| m.name.as_str()).collect();
            assert_eq!(names, vec!["halo2_prove", "halo2_wrap", "root_prove"]);
        }
        _ => panic!("expected the EVM proof"),
    }
}

#[test]
fn evm_failures_are_worded() {
    let said = |r: Result<ProofResult, String>| match r {
        Err(e) => e,
        Ok(_) => panic!("expected a failure"),
    };
    let root = || RootTimings { prove_time_ms: 0, sub_metrics: vec![] };
    assert_eq!(
        said(halo2_proved("u", root(), Halo2Outcome::Finished(ProverResult::Success(vec![])))),
        "EVM prove: halo2 stage for u produced no Evm proof"
    );
    assert_eq!(
        said(halo2_proved(
            "u",
            root(),
            Halo2Outcome::Finished(ProverResult::Error("x".to_string()))
        )),
        "Halo2 prove failed for u: x"
    );
    assert_eq!(
        said(halo2_proved("u", root(), Halo2Outcome::Finished(ProverResult::Canceled))),
        "Halo2 prove for u was canceled"
    );
    assert_eq!(
        said(halo2_proved("u", root(), Halo2Outcome::NotDispatched("x".to_string()))),
        "Failed to submit halo2 job for u: x"
    );
    assert!(matches!(
        root_proved("u", Err("x".to_string())),
        Err(e) if e == "Root prove failed for u: x"
    ));
    let empty = RootProofState { proof: None, prove_time_ms: 0, sub_metrics: vec![] };
    assert!(matches!(
        root_proved("u", Ok(empty)),
        Err(e) if e == "EVM prove: root result for u has no proof bytes"
    ));
    assert_eq!(
        undecodable_root("u", "x"),
        "EVM prove: failed to decode root proof for u: x"
    );
    assert_eq!(
        evm_unsupported("u"),
        "EvmProve dispatched to proof u on a worker built without EVM support"
    );
    let loaded = |has_evm: bool| ArtifactStatus::Loaded { has_evm, deferral_circuits: None };
    assert!(evm_gate("u", loaded(true)).is_ok());
    assert_eq!(
        evm_gate("u", loaded(false)),
        Err("EVM prove requested but worker has no EVM artifacts (evm-prove build without halo2_pk_path); aborting proof u".to_string())
    );
    assert!(evm_gate("u", ArtifactStatus::NoStore).is_err());
}

fn decode(bytes: &Vec<u8>) -> Result<ProofWithPublicValue<u8, ()>, String> {
    match bytes.first() {
        Some(b) => Ok(ProofWithPublicValue { proof: *b, user_public_values: None }),
        None => Err("empty proof".to_string()),
    }
}

fn free_pool() -> ProverPool {
    let mut pool = ProverPool::new(&ProversConfig::default(), WorkerRole::Full);
    for t in [JobType::Leaf, JobType::Internal] {
        pool.report(t, 0, WorkerStatus { is_busy: false, is_initialized: true });
    }
    pool
}

fn leaf_request(app_proofs: Vec<Vec<u8>>) -> GeneralProveRequest {
    GeneralProveRequest::LeafProve(LeafProveRequest {
        context: context("u", ProofType::Stark),
        app_proofs,
        segment_start: 2,
        segment_end: 3,
    })
}

fn internal_request(child_proofs: Vec<Vec<u8>>, with_tail: bool) -> GeneralProveRequest {
    GeneralProveRequest::InternalProve(InternalProveRequest {
        context: context("u", ProofType::Stark),
        child_proofs,
        layer_idx: 1,
        segment_start: 0,
        segment_end: 3,
        is_final_proof: true,
        deferral_tail: if with_tail { Some(tail()) } else { None },
        deferral_merkle_proofs_bytes: Some(vec![6]),
    })
}

#[test]
fn aggregation_requests_are_routed() {
    let pool = free_pool();
    match plan_recursion(leaf_request(vec![vec![5], vec![6]]), &pool, &decode) {
        Ok(RecursionWork::Leaf(job)) => {
            assert_eq!((job.segment_start, job.segment_end), (2, 3));
            let proofs: Vec<u8> = job.app_proofs.iter().map(|p| p.proof).collect();
            assert_eq!(proofs, vec![5, 6]);
        }
        _ => panic!("expected a leaf job"),
    }
    match plan_recursion(internal_request(vec![vec![5]], true), &pool, &decode) {
        Ok(RecursionWork::Internal(work)) => {
            assert!(work.job.proof_has_deferral);
            assert!(work.deferral_tail.is_some());
            assert_eq!(work.depth0_merkle_bytes, Some(vec![6]));
        }
        _ => panic!("expected an internal job"),
    }
    match plan_recursion(internal_request(vec![vec![5]], false), &pool, &decode) {
        Ok(RecursionWork::Internal(work)) => assert!(!work.job.proof_has_deferral),
        _ => panic!("expected an internal job"),
    }
    let handoff = GeneralProveRequest::EvmProve(EvmProveRequest {
        context: context("u", ProofType::Evm),
        internal_proof_bytes: vec![],
        deferral_merkle_proofs_bytes: None,
        proof_has_deferral: true,
    });
    let busy = ProverPool::new(&ProversConfig::default(), WorkerRole::Full);
    assert!(matches!(
        plan_recursion(handoff, &busy, &decode),
        Ok(RecursionWork::Evm(req)) if req.proof_has_deferral
    ));
}

#[test]
fn aggregation_requests_are_refused() {
    let refusal = |r: Result<RecursionWork<u8, ()>, edge_worker::uploads::Reply>| match r {
        Err(reply) => (reply.status, reply.body),
        Ok(_) => panic!("expected a refusal"),
    };
    let pool = free_pool();
    let busy = ProverPool::new(&ProversConfig::default(), WorkerRole::Full);
    assert_eq!(
        refusal(plan_recursion(leaf_request(vec![vec![]]), &busy, &decode)),
        (503, "No available leaf workers".to_string())
    );
    assert_eq!(
        refusal(plan_recursion(internal_request(vec![vec![]], false), &busy, &decode)),
        (503, "No available internal workers".to_string())
    );
    assert_eq!(
        refusal(plan_recursion(leaf_request(vec![vec![1], vec![]]), &pool, &decode)),
        (400, "Invalid app proofs: empty proof".to_string())
    );
    assert_eq!(
        refusal(plan_recursion(internal_request(vec![vec![]], false), &pool, &decode)),
        (400, "Invalid child proofs: empty proof".to_string())
    );
    let reply = undecodable_request("eof");
    assert_eq!(
        (reply.status, reply.body.as_str()),
        (400, "Failed to deserialize work envelope: eof")
    );
    assert_eq!(work_accepted().body, "Work completed");
}

#[test]
fn only_final_proofs_are_merged_or_handed_on() {
    let stark = context("u", ProofType::Stark);
    let evm = context("u", ProofType::Evm);
    assert_eq!(internal_follow_up(false, &evm, true), InternalFollowUp::Submit);
    assert_eq!(internal_follow_up(true, &stark, false), InternalFollowUp::Submit);
    assert_eq!(internal_follow_up(true, &stark, true), InternalFollowUp::MergeDeferralTail);
    assert_eq!(internal_follow_up(true, &evm, true), InternalFollowUp::PrepareEvm);
    assert_eq!(internal_follow_up(true, &evm, false), InternalFollowUp::PrepareEvm);
}

type Handed = ProofWithPublicValue<Vec<u8>, Vec<u8>>;

fn handoff(internal: Vec<u8>, merkle: Option<Vec<u8>>) -> EvmProveRequest {
    EvmProveRequest {
        context: context("u", ProofType::Evm),
        internal_proof_bytes: internal,
        deferral_merkle_proofs_bytes: merkle,
        proof_has_deferral: true,
    }
}

fn take(bytes: &Vec<u8>) -> Result<Handed, String> {
    if bytes.is_empty() {
        return Err("nothing".to_string());
    }
    Ok(ProofWithPublicValue { proof: bytes.clone(), user_public_values: None })
}

fn merkle_bytes() -> Vec<u8> {
    let proofs = DeferralMerkleProofs {
        initial_merkle_proof: vec![[F::from_u32(5); 8]],
        final_merkle_proof: vec![[F::from_u32(6); 8], [F::ZERO; 8]],
    };
    let mut bytes = Vec::new();
    proofs.encode(&mut bytes).unwrap();
    bytes
}

#[test]
fn handed_off_requests_are_decoded_in_order() {
    let read = |r: Result<Handed, String>| r.map(|p| p.proof);
    assert_eq!(read(check_handoff(&handoff(vec![1, 2], None), &take)), Ok(vec![1, 2]));
    let whole = merkle_bytes();
    assert_eq!(whole.len(), 4 + 32 + 4 + 64);
    let request = handoff(vec![3], Some(whole.clone()));
    assert_eq!(read(check_handoff(&request, &take)), Ok(vec![3]));

    let mut wild = whole.clone();
    wild[4..8].copy_from_slice(&[0xff; 4]);
    for broken in [vec![], whole[..whole.len() - 1].to_vec(), wild] {
        let cause = DeferralMerkleProofs::decode(&mut broken.as_slice()).err().unwrap();
        assert_eq!(
            read(check_handoff(&handoff(vec![3], Some(broken)), &take)),
            Err(format!("EvmProve: failed to decode deferral merkle proofs for u: {cause}"))
        );
    }
    let both = handoff(vec![], Some(vec![1]));
    assert_eq!(
        read(check_handoff(&both, &take)),
        Err("EvmProve: failed to decode handed-off internal proof for u: nothing".to_string())
    );
}
