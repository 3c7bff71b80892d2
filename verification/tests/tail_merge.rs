use edge_worker::artifacts::ArtifactStatus;
use edge_worker::program::ProgramRef;
use edge_worker::requests::{DeferralTailDispatch, InternalLayerMetadataWire, ProofsTypeWire};
use edge_worker::tail_merge::{TailMerge, TailStage};

fn tail(path: Vec<u8>) -> DeferralTailDispatch {
    DeferralTailDispatch {
        layer_metadata: InternalLayerMetadataWire {
            internal_recursive_layer: 1,
            internal_node_idx: 4,
            proofs_type: ProofsTypeWire::Vm,
        },
        final_merkle_path_bytes: path,
    }
}

fn loaded(circuits: Option<usize>) -> ArtifactStatus {
    ArtifactStatus::Loaded { has_evm: true, deferral_circuits: circuits }
}

fn begin(circuits: usize, path: Vec<u8>) -> TailMerge {
    match TailMerge::begin(loaded(Some(circuits)), &tail(path)) {
        Ok(m) => m,
        Err(e) => panic!("{e}"),
    }
}

fn input() -> Vec<u8> {
    bincode::serialize(&openvm_sdk::DeferralInput { byte_vec: vec![vec![1, 2], vec![]] }).unwrap()
}

fn program() -> ProgramRef {
    ProgramRef::new("prog", 1)
}

#[test]
fn merges_run_in_order() {
    let mut merge = begin(2, vec![7]);
    for idx in 0..2 {
        assert_eq!(merge.stage(), TailStage::ReadInput);
        let path = merge.input_path("u");
        assert_eq!(path, format!("/dev/shm/edge_u/deferral_input_{idx}.bin"));
        assert!(merge.input_read(&path, Ok(input())).is_ok());
    }
    assert_eq!(merge.inputs().len(), 2);
    assert_eq!(bincode::serialize(&merge.inputs()[1]).unwrap(), input());
    assert_eq!(merge.input_dir("u"), "/dev/shm/edge_u");
    for stage in [
        TailStage::CleanDir,
        TailStage::FindProgram,
        TailStage::BuildSdk,
        TailStage::BuildProver,
        TailStage::TakeDeferralProver,
        TailStage::TakePublicValues,
        TailStage::DecodePath,
        TailStage::ProveCircuits,
        TailStage::ProveDeferral,
        TailStage::ProveMixed,
        TailStage::Wrap,
    ] {
        assert_eq!(merge.stage(), stage);
        assert!(merge.advance("u", &program(), Ok(())).is_ok());
    }
    assert_eq!(merge.stage(), TailStage::ReadDepth);
    assert_eq!(merge.merged("u", 3), Ok(2));
    assert_eq!(merge.stage(), TailStage::Finished);
}

#[test]
fn merges_need_a_deferral_deployment() {
    let refusal = |status| match TailMerge::begin(status, &tail(vec![1])) {
        Err(e) => e,
        Ok(_) => panic!("expected a refusal"),
    };
    assert_eq!(refusal(ArtifactStatus::NoStore), "Artifact store not initialized");
    assert_eq!(refusal(ArtifactStatus::NotLoaded), "Edge artifacts not loaded");
    assert_eq!(
        refusal(loaded(None)),
        "Tail deferral merge requested but this worker is not a deferral deployment (enable_deferral not set)."
    );
    assert_eq!(begin(0, vec![]).stage(), TailStage::CleanDir);
}

#[test]
fn inputs_must_be_there_and_decode() {
    let mut merge = begin(1, vec![1]);
    assert_eq!(
        merge.input_read("/in", Err("gone".to_string())),
        Err("Failed to read deferral input for circuit 0 at /in: gone (the manager pushes it just-in-time before the final internal prove)".to_string())
    );
    let cut = input();
    let said = merge.input_read("/in", Ok(cut[..cut.len() - 1].to_vec())).unwrap_err();
    assert!(said.starts_with("Failed to deserialize DeferralInput for circuit 0 at /in: "));
    assert_eq!(merge.stage(), TailStage::ReadInput);
    assert!(merge.input_read("/in", Ok(input())).is_ok());
    assert_eq!(merge.stage(), TailStage::CleanDir);
}

fn at(stage: TailStage) -> TailMerge {
    let mut merge = begin(0, vec![1, 2, 3]);
    while merge.stage() != stage {
        assert!(merge.advance("u", &program(), Ok(())).is_ok());
    }
    merge
}

#[test]
fn every_stage_words_its_failure() {
    let texts = [
        (TailStage::FindProgram, "vmexe for prog@v1 not loaded on this worker"),
        (TailStage::BuildSdk, "Sdk::from_deferral_cached_proving_key failed: e"),
        (TailStage::BuildProver, "Sdk::prover failed: e"),
        (TailStage::TakeDeferralProver, "Reconstructed deferral SDK has no deferral prover"),
        (
            TailStage::TakePublicValues,
            "EVM prove: final internal proof for u has no user_public_values; cannot reconstruct VmStarkProof for deferral merge",
        ),
        (
            TailStage::DecodePath,
            "EVM prove[u]: failed to decode final-side deferral path bytes (3 bytes) from DeferralTailDispatch: e",
        ),
        (TailStage::ProveCircuits, "multi_deferral_circuit_prover.prove failed: e"),
        (TailStage::ProveDeferral, "agg_prover.prove_def failed: e"),
        (TailStage::ProveMixed, "agg_prover.prove_mixed failed: e"),
        (TailStage::Wrap, "agg_prover.wrap_proof failed: e"),
    ];
    for (stage, text) in texts {
        let mut merge = at(stage);
        assert_eq!(
            merge.advance("u", &program(), Err("e".to_string())),
            Err(text.to_string())
        );
        assert_eq!(merge.stage(), stage);
    }
    let mut merge = at(TailStage::CleanDir);
    assert!(merge.advance("u", &program(), Err("e".to_string())).is_ok());
    let mut merge = at(TailStage::ReadDepth);
    assert_eq!(
        merge.merged("u", 2),
        Err("EVM prove[u]: merged proof has only 2 public-value AIRs but DeferralPvs lives at DEF_PVS_AIR_ID=2; deferral keyset mismatch?".to_string())
    );
}

#[test]
fn an_empty_path_is_refused_before_proving() {
    let mut merge = begin(0, vec![]);
    while merge.stage() != TailStage::TakePublicValues {
        assert!(merge.advance("u", &program(), Ok(())).is_ok());
    }
    assert_eq!(
        merge.advance("u", &program(), Ok(())),
        Err("EVM prove[u]: deferral tail dispatch is missing final_merkle_path_bytes; the terminal AppProof never carried the (DEFERRAL_AS,0) path.".to_string())
    );
    assert_eq!(merge.stage(), TailStage::TakePublicValues);
}
