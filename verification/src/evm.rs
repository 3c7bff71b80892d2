//! The EVM step and the deferral merge: from a final internal proof to what is
//! submitted for it.

use vstd::prelude::*;
use vstd::string::*;

use crate::artifacts::ArtifactStatus;
use crate::encoding::{check_merkle_proofs, merkle_proofs_error};
use crate::provers::{ProofWithPublicValue, ProverResult};
use crate::requests::{DeferralTailDispatch, EvmProveRequest, ProofBytes};
use crate::results::{
    distinct_names, EvmProof, EvmProofState, InternalProof, InternalProofState, ProofResult,
    RootProofState, SpanMetric,
};

verus! {

/// The first internal proof among the results.
pub open spec fn first_internal(results: Seq<ProofResult>) -> Option<InternalProof>
    decreases results.len(),
{
    if results.len() == 0 {
        None
    } else {
        match results[0] {
            ProofResult::Internal(p) => Some(p),
            _ => first_internal(results.drop_first()),
        }
    }
}

/// The first EVM proof among the results.
pub open spec fn first_evm(results: Seq<ProofResult>) -> Option<EvmProof>
    decreases results.len(),
{
    if results.len() == 0 {
        None
    } else {
        match results[0] {
            ProofResult::Evm(p) => Some(p),
            _ => first_evm(results.drop_first()),
        }
    }
}

/// Take the first internal proof out of the results.
pub fn take_internal(results: Vec<ProofResult>) -> (r: Option<InternalProof>)
    ensures
        r == first_internal(results@),
{
    let mut rest = results;
    while rest.len() > 0
        invariant
            first_internal(results@) == first_internal(rest@),
        decreases rest@.len(),
    {
        let ghost before = rest@;
        let next = rest.remove(0);
        assert(rest@ =~= before.drop_first());
        if let ProofResult::Internal(p) = next {
            return Some(p);
        }
    }
    None
}

/// Take the first EVM proof out of the results.
pub fn take_evm(results: Vec<ProofResult>) -> (r: Option<EvmProof>)
    ensures
        r == first_evm(results@),
{
    let mut rest = results;
    while rest.len() > 0
        invariant
            first_evm(results@) == first_evm(rest@),
        decreases rest@.len(),
    {
        let ghost before = rest@;
        let next = rest.remove(0);
        assert(rest@ =~= before.drop_first());
        if let ProofResult::Evm(p) = next {
            return Some(p);
        }
    }
    None
}

/// Where the merge of a deferral tail went wrong, and what was said of it.
pub enum MergeFailure {
    Decode(String),
    Merge(String),
    EncodeProof(String),
    EncodeMerkle(String),
    /// The task that ran the merge was lost.
    Task(String),
}

fn three(a: &str, b: &str, c: &str) -> (r: String)
    ensures
        r@ == a@ + b@ + c@,
{
    let mut out = a.to_owned();
    out.append(b);
    out.append(c);
    out
}

fn four(a: &str, b: &str, c: &str, d: &str) -> (r: String)
    ensures
        r@ == a@ + b@ + c@ + d@,
{
    let mut out = a.to_owned();
    out.append(b);
    out.append(c);
    out.append(d);
    out
}

/// What the EVM preparation of a final internal proof comes to first.
pub enum EvmPrep {
    /// The text of the error that is submitted.
    Failed(String),
    /// The deferral tail is to be merged into the proof.
    Merge { internal: InternalProof, proof_bytes: ProofBytes, tail: DeferralTailDispatch },
    /// Nothing is to be merged: this is submitted.
    Ready(ProofResult),
}

/// The internal proof with its finished proof and merkle proofs, marked as ready for
/// the EVM step.
pub open spec fn ready_for_evm(
    internal: InternalProof,
    proof: ProofBytes,
    merkle: Option<Vec<u8>>,
) -> ProofResult {
    ProofResult::Internal(
        InternalProof {
            state: InternalProofState {
                proof: Some(proof),
                deferral_merkle_proofs_bytes: merkle,
                ready_for_evm: true,
                ..internal.state
            },
            ..internal
        },
    )
}

/// Begin to prepare the final internal proof of an EVM proof. With a deferral tail it
/// is merged first; otherwise it is handed on as it is, with the depth-0 merkle
/// proofs if there are any.
pub fn begin_evm_prep(
    proof_uuid: &str,
    results: Vec<ProofResult>,
    deferral_tail: Option<DeferralTailDispatch>,
    depth0_merkle_bytes: Option<Vec<u8>>,
) -> (r: EvmPrep)
    ensures
        match first_internal(results@) {
            None => r is Failed && r->Failed_0@ == "evm prep: expected an Internal result for "@
                + proof_uuid@ + ", found none"@,
            Some(internal) => match internal.state.proof {
                None => r is Failed && r->Failed_0@ == "evm prep: final internal proof for "@
                    + proof_uuid@ + " has no proof bytes"@,
                Some(bytes) => match deferral_tail {
                    Some(tail) => r is Merge && r->Merge_proof_bytes@ == bytes@ && r->Merge_tail
                        == tail && r->Merge_internal == (InternalProof {
                        state: InternalProofState { proof: None, ..internal.state },
                        ..internal
                    }),
                    None => r == EvmPrep::Ready(
                        ready_for_evm(internal, bytes, depth0_merkle_bytes),
                    ),
                },
            },
        },
{
    let mut internal = match take_internal(results) {
        Some(p) => p,
        None => return EvmPrep::Failed(
            three("evm prep: expected an Internal result for ", proof_uuid, ", found none"),
        ),
    };
    let proof_bytes = match internal.state.proof.take() {
        Some(bytes) => bytes,
        None => return EvmPrep::Failed(
            three("evm prep: final internal proof for ", proof_uuid, " has no proof bytes"),
        ),
    };
    match deferral_tail {
        Some(tail) => EvmPrep::Merge { internal, proof_bytes, tail },
        None => {
            internal.state.proof = Some(proof_bytes);
            internal.state.deferral_merkle_proofs_bytes = depth0_merkle_bytes;
            internal.state.ready_for_evm = true;
            EvmPrep::Ready(ProofResult::Internal(internal))
        },
    }
}

/// The text submitted for a failed merge of an EVM proof.
pub open spec fn evm_merge_text(proof_uuid: Seq<char>, failure: MergeFailure) -> Seq<char> {
    match failure {
        MergeFailure::Decode(e) => "evm prep: failed to decode final internal proof for "@
            + proof_uuid + ": "@ + e@,
        MergeFailure::Merge(e) => "evm prep: deferral tail merge failed for "@ + proof_uuid + ": "@
            + e@,
        MergeFailure::EncodeProof(e) => "evm prep: failed to encode merged proof for "@ + proof_uuid
            + ": "@ + e@,
        MergeFailure::EncodeMerkle(e) => "evm prep: failed to encode merkle proofs for "@
            + proof_uuid + ": "@ + e@,
        MergeFailure::Task(e) => "evm prep: tail-merge task failed for "@ + proof_uuid + ": "@ + e@,
    }
}

/// Finish the preparation of an EVM proof whose tail was merged: the merged proof and
/// its merkle proofs are submitted in place of the raw ones, or the error is.
pub fn finish_evm_prep(
    proof_uuid: &str,
    internal: InternalProof,
    merged: Result<(ProofBytes, Vec<u8>), MergeFailure>,
) -> (r: Result<ProofResult, String>)
    ensures
        merged matches Ok((proof, merkle)) ==> r is Ok && r->Ok_0 == ready_for_evm(
            internal,
            proof,
            Some(merkle),
        ),
        merged matches Err(failure) ==> r is Err && r->Err_0@ == evm_merge_text(
            proof_uuid@,
            failure,
        ),
{
    match merged {
        Ok((proof, merkle)) => {
            let mut internal = internal;
            internal.state.proof = Some(proof);
            internal.state.deferral_merkle_proofs_bytes = Some(merkle);
            internal.state.ready_for_evm = true;
            Ok(ProofResult::Internal(internal))
        },
        Err(failure) => Err(
            match failure {
                MergeFailure::Decode(e) => four(
                    "evm prep: failed to decode final internal proof for ",
                    proof_uuid,
                    ": ",
                    e.as_str(),
                ),
                MergeFailure::Merge(e) => four(
                    "evm prep: deferral tail merge failed for ",
                    proof_uuid,
                    ": ",
                    e.as_str(),
                ),
                MergeFailure::EncodeProof(e) => four(
                    "evm prep: failed to encode merged proof for ",
                    proof_uuid,
                    ": ",
                    e.as_str(),
                ),
                MergeFailure::EncodeMerkle(e) => four(
                    "evm prep: failed to encode merkle proofs for ",
                    proof_uuid,
                    ": ",
                    e.as_str(),
                ),
                MergeFailure::Task(e) => four(
                    "evm prep: tail-merge task failed for ",
                    proof_uuid,
                    ": ",
                    e.as_str(),
                ),
            },
        ),
    }
}

/// What the deferral merge of a STARK proof comes to first.
pub enum StarkMerge {
    /// The text of the error that is submitted.
    Failed(String),
    /// The deferral tail is to be merged into the proof.
    Merge { internal: InternalProof, proof_bytes: ProofBytes, tail: DeferralTailDispatch },
}

/// Begin to merge the deferral tail of a STARK proof into its final internal proof.
pub fn begin_stark_merge(
    proof_uuid: &str,
    results: Vec<ProofResult>,
    deferral_tail: Option<DeferralTailDispatch>,
) -> (r: StarkMerge)
    ensures
        match first_internal(results@) {
            None => r is Failed && r->Failed_0@
                == "stark deferral merge: expected an Internal result for "@ + proof_uuid@
                + ", found none"@,
            Some(internal) => match deferral_tail {
                None => r is Failed && r->Failed_0@
                    == "stark deferral merge: missing deferral tail dispatch for "@ + proof_uuid@,
                Some(tail) => match internal.state.proof {
                    None => r is Failed && r->Failed_0@ == "stark deferral merge failed for "@
                        + proof_uuid@ + ": "@
                        + ("stark deferral merge: final internal proof for "@ + proof_uuid@
                        + " has no proof bytes"@),
                    Some(bytes) => r is Merge && r->Merge_proof_bytes@ == bytes@ && r->Merge_tail
                        == tail && r->Merge_internal == (InternalProof {
                        state: InternalProofState { proof: None, ..internal.state },
                        ..internal
                    }),
                },
            },
        },
{
    let mut internal = match take_internal(results) {
        Some(p) => p,
        None => return StarkMerge::Failed(
            three(
                "stark deferral merge: expected an Internal result for ",
                proof_uuid,
                ", found none",
            ),
        ),
    };
    let tail = match deferral_tail {
        Some(tail) => tail,
        None => {
            let mut out = "stark deferral merge: missing deferral tail dispatch for ".to_owned();
            out.append(proof_uuid);
            return StarkMerge::Failed(out);
        },
    };
    match internal.state.proof.take() {
        Some(proof_bytes) => StarkMerge::Merge { internal, proof_bytes, tail },
        None => {
            let cause = three(
                "stark deferral merge: final internal proof for ",
                proof_uuid,
                " has no proof bytes",
            );
            StarkMerge::Failed(
                four("stark deferral merge failed for ", proof_uuid, ": ", cause.as_str()),
            )
        },
    }
}

/// What is said of a failed merge of a STARK proof. The merge speaks for itself.
pub open spec fn stark_merge_cause(proof_uuid: Seq<char>, failure: MergeFailure) -> Seq<char> {
    match failure {
        MergeFailure::Decode(e) =>
            "stark deferral merge: failed to decode final internal proof for "@ + proof_uuid
            + ": "@ + e@,
        MergeFailure::Merge(e) => e@,
        MergeFailure::EncodeProof(e) => "stark deferral merge: failed to encode merged proof for "@
            + proof_uuid + ": "@ + e@,
        MergeFailure::EncodeMerkle(e) =>
            "stark deferral merge: failed to encode merkle proofs for "@ + proof_uuid + ": "@
            + e@,
        MergeFailure::Task(e) => "stark deferral merge: tail-merge task failed for "@ + proof_uuid
            + ": "@ + e@,
    }
}

/// Finish the merge of a STARK proof: the merged proof with its merkle proofs
/// completes it, in place of the raw internal proof.
pub fn finish_stark_merge(
    proof_uuid: &str,
    internal: InternalProof,
    merged: Result<(ProofBytes, Vec<u8>), MergeFailure>,
) -> (r: Result<ProofResult, String>)
    ensures
        merged matches Ok((proof, merkle)) ==> r is Ok && r->Ok_0 == ProofResult::Internal(
            (InternalProof {
                state: InternalProofState {
                    proof: Some(proof),
                    deferral_merkle_proofs_bytes: Some(merkle),
                    ..internal.state
                },
                ..internal
            }),
        ),
        merged matches Err(failure) ==> r is Err && r->Err_0@ == "stark deferral merge failed for "@
            + proof_uuid@ + ": "@ + stark_merge_cause(proof_uuid@, failure),
{
    match merged {
        Ok((proof, merkle)) => {
            let mut internal = internal;
            internal.state.proof = Some(proof);
            internal.state.deferral_merkle_proofs_bytes = Some(merkle);
            Ok(ProofResult::Internal(internal))
        },
        Err(failure) => {
            let cause = match failure {
                MergeFailure::Decode(e) => four(
                    "stark deferral merge: failed to decode final internal proof for ",
                    proof_uuid,
                    ": ",
                    e.as_str(),
                ),
                MergeFailure::Merge(e) => e,
                MergeFailure::EncodeProof(e) => four(
                    "stark deferral merge: failed to encode merged proof for ",
                    proof_uuid,
                    ": ",
                    e.as_str(),
                ),
                MergeFailure::EncodeMerkle(e) => four(
                    "stark deferral merge: failed to encode merkle proofs for ",
                    proof_uuid,
                    ": ",
                    e.as_str(),
                ),
                MergeFailure::Task(e) => four(
                    "stark deferral merge: tail-merge task failed for ",
                    proof_uuid,
                    ": ",
                    e.as_str(),
                ),
            };
            Err(four("stark deferral merge failed for ", proof_uuid, ": ", cause.as_str()))
        },
    }
}

/// Refuse the EVM step on a worker without EVM artifacts.
pub fn evm_gate(proof_uuid: &str, status: ArtifactStatus) -> (r: Result<(), String>)
    ensures
        (status matches ArtifactStatus::Loaded { has_evm, .. } && has_evm) ==> r is Ok,
        !(status matches ArtifactStatus::Loaded { has_evm, .. } && has_evm) ==> r is Err
            && r->Err_0@
            == "EVM prove requested but worker has no EVM artifacts (evm-prove build without halo2_pk_path); aborting proof "@
            + proof_uuid@,
{
    if status.evm_ready() {
        return Ok(());
    }
    let mut out =
        "EVM prove requested but worker has no EVM artifacts (evm-prove build without halo2_pk_path); aborting proof ".to_owned();
    out.append(proof_uuid);
    Err(out)
}

/// The timings of the root stage, kept until the EVM proof is there.
pub struct RootTimings {
    pub prove_time_ms: u64,
    pub sub_metrics: Vec<SpanMetric>,
}

/// The root stage is over: its proof goes on to the halo2 stage, its timings are kept.
pub fn root_proved(proof_uuid: &str, outcome: Result<RootProofState, String>) -> (r: Result<
    (ProofBytes, RootTimings),
    String,
>)
    ensures
        match outcome {
            Err(e) => r is Err && r->Err_0@ == "Root prove failed for "@ + proof_uuid@ + ": "@ + e@,
            Ok(state) => match state.proof {
                None => r is Err && r->Err_0@ == "EVM prove: root result for "@ + proof_uuid@
                    + " has no proof bytes"@,
                Some(bytes) => r is Ok && r->Ok_0.0 == bytes && r->Ok_0.1 == (RootTimings {
                    prove_time_ms: state.prove_time_ms,
                    sub_metrics: state.sub_metrics,
                }),
            },
        },
{
    match outcome {
        Err(e) => Err(four("Root prove failed for ", proof_uuid, ": ", e.as_str())),
        Ok(state) => match state.proof {
            None => Err(
                three("EVM prove: root result for ", proof_uuid, " has no proof bytes"),
            ),
            Some(bytes) => Ok(
                (
                    bytes,
                    RootTimings {
                        prove_time_ms: state.prove_time_ms,
                        sub_metrics: state.sub_metrics,
                    },
                ),
            ),
        },
    }
}

/// The text of a root proof that does not decode.
pub fn undecodable_root(proof_uuid: &str, e: &str) -> (r: String)
    ensures
        r@ == "EVM prove: failed to decode root proof for "@ + proof_uuid@ + ": "@ + e@,
{
    four("EVM prove: failed to decode root proof for ", proof_uuid, ": ", e)
}

/// Whether `out` are `metrics` with `prefix` before each name.
pub open spec fn prefixed(
    metrics: Seq<SpanMetric>,
    prefix: Seq<char>,
    out: Seq<SpanMetric>,
) -> bool {
    out.len() == metrics.len() && forall|i: int|
        0 <= i < metrics.len() ==> (#[trigger] out[i]).name@ == prefix + metrics[i].name@
            && out[i].ms_bits == metrics[i].ms_bits
}

fn push_prefixed(out: &mut Vec<SpanMetric>, metrics: &Vec<SpanMetric>, prefix: &str)
    ensures
        final(out)@.len() == old(out)@.len() + metrics@.len(),
        final(out)@.take(old(out)@.len() as int) == old(out)@,
        prefixed(metrics@, prefix@, final(out)@.skip(old(out)@.len() as int)),
{
    let ghost before = out@;
    let mut i: usize = 0;
    while i < metrics.len()
        invariant
            i <= metrics@.len(),
            out@.len() == before.len() + i,
            forall|j: int| 0 <= j < before.len() ==> #[trigger] out@[j] == before[j],
            forall|j: int|
                before.len() <= j < out@.len() ==> (#[trigger] out@[j]).name@ == prefix@
                    + metrics@[j - before.len()].name@ && out@[j].ms_bits == metrics@[j
                    - before.len()].ms_bits,
        decreases metrics@.len() - i,
    {
        let mut name = prefix.to_owned();
        name.append(metrics[i].name.as_str());
        out.push(SpanMetric { name, ms_bits: metrics[i].ms_bits });
        i = i + 1;
    }
    assert(out@.take(before.len() as int) =~= before);
}

/// Whether `out` are the timings of both stages: those of halo2 under `halo2_`, then
/// those of root under `root_`.
pub open spec fn folds(
    halo2: Seq<SpanMetric>,
    root: Seq<SpanMetric>,
    out: Seq<SpanMetric>,
) -> bool {
    &&& out.len() == halo2.len() + root.len()
    &&& prefixed(halo2, "halo2_"@, out.take(halo2.len() as int))
    &&& prefixed(root, "root_"@, out.skip(halo2.len() as int))
}

/// What the halo2 stage came to.
pub enum Halo2Outcome {
    Finished(ProverResult),
    /// The job could not be dispatched.
    NotDispatched(String),
}

/// The EVM step is over: the EVM proof that the halo2 stage made, with the timings of
/// the root stage folded into it, or what went wrong.
pub fn halo2_proved(proof_uuid: &str, root: RootTimings, outcome: Halo2Outcome) -> (r: Result<
    ProofResult,
    String,
>)
    ensures
        match outcome {
            Halo2Outcome::NotDispatched(e) => r is Err && r->Err_0@
                == "Failed to submit halo2 job for "@ + proof_uuid@ + ": "@ + e@,
            Halo2Outcome::Finished(ProverResult::Error(e)) => r is Err && r->Err_0@
                == "Halo2 prove failed for "@ + proof_uuid@ + ": "@ + e@,
            Halo2Outcome::Finished(ProverResult::Canceled) => r is Err && r->Err_0@
                == "Halo2 prove for "@ + proof_uuid@ + " was canceled"@,
            Halo2Outcome::Finished(ProverResult::Success(results)) => match first_evm(results@) {
                None => r is Err && r->Err_0@ == "EVM prove: halo2 stage for "@ + proof_uuid@
                    + " produced no Evm proof"@,
                Some(evm) => {
                    &&& r is Ok
                    &&& r->Ok_0 matches ProofResult::Evm(p)
                    &&& p.context == evm.context
                    &&& p.state.proof == evm.state.proof
                    &&& p.state.prove_time_ms == evm.state.prove_time_ms
                    &&& p.state.root_prove_time_ms == root.prove_time_ms
                    &&& folds(evm.state.sub_metrics@, root.sub_metrics@, p.state.sub_metrics@)
                },
            },
        },
{
    match outcome {
        Halo2Outcome::NotDispatched(e) => Err(
            four("Failed to submit halo2 job for ", proof_uuid, ": ", e.as_str()),
        ),
        Halo2Outcome::Finished(ProverResult::Error(e)) => Err(
            four("Halo2 prove failed for ", proof_uuid, ": ", e.as_str()),
        ),
        Halo2Outcome::Finished(ProverResult::Canceled) => Err(
            three("Halo2 prove for ", proof_uuid, " was canceled"),
        ),
        Halo2Outcome::Finished(ProverResult::Success(results)) => {
            let evm = match take_evm(results) {
                Some(evm) => evm,
                None => return Err(
                    three("EVM prove: halo2 stage for ", proof_uuid, " produced no Evm proof"),
                ),
            };
            let mut sub_metrics: Vec<SpanMetric> = Vec::new();
            push_prefixed(&mut sub_metrics, &evm.state.sub_metrics, "halo2_");
            let ghost halo2_part = sub_metrics@;
            assert(halo2_part.skip(0) =~= halo2_part);
            push_prefixed(&mut sub_metrics, &root.sub_metrics, "root_");
            assert(sub_metrics@.take(halo2_part.len() as int) =~= halo2_part);
            let state = EvmProofState {
                proof: evm.state.proof,
                prove_time_ms: evm.state.prove_time_ms,
                root_prove_time_ms: root.prove_time_ms,
                sub_metrics,
            };
            Ok(ProofResult::Evm(EvmProof { context: evm.context, state }))
        },
    }
}

/// The timings of the two stages stay distinguishable: where the names within each
/// stage are distinct, so are all names of the folded timings.
pub proof fn folded_timings_stay_distinct(
    halo2: Seq<SpanMetric>,
    root: Seq<SpanMetric>,
    out: Seq<SpanMetric>,
)
    requires
        folds(halo2, root, out),
        distinct_names(halo2),
        distinct_names(root),
    ensures
        distinct_names(out),
{
    reveal_strlit("halo2_");
    reveal_strlit("root_");
    let n = halo2.len() as int;
    assert forall|i: int, j: int| 0 <= i < j < out.len() implies (#[trigger] out[i]).name@ != (
    #[trigger] out[j]).name@ by {
        if i < n {
            assert(out.take(n)[i] == out[i]);
            assert(out[i].name@[0] == 'h');
        } else {
            assert(out.skip(n)[i - n] == out[i]);
        }
        if j < n {
            assert(out.take(n)[j] == out[j]);
            assert(halo2[i].name@ != halo2[j].name@);
            assert(out[i].name@.skip(6) =~= halo2[i].name@);
            assert(out[j].name@.skip(6) =~= halo2[j].name@);
        } else {
            assert(out.skip(n)[j - n] == out[j]);
            assert(out[j].name@[0] == 'r');
            if i >= n {
                assert(root[i - n].name@ != root[j - n].name@);
                assert(out[i].name@.skip(5) =~= root[i - n].name@);
                assert(out[j].name@.skip(5) =~= root[j - n].name@);
            }
        }
    }
}

/// Whether `r` is what checking a handed-off EVM request comes to once its internal
/// proof was decoded to `decoded`. Merkle proofs that were not handed off are none to
/// check.
pub open spec fn is_handoff<P, U>(
    request: EvmProveRequest,
    decoded: Result<ProofWithPublicValue<P, U>, String>,
    r: Result<ProofWithPublicValue<P, U>, String>,
) -> bool {
    match decoded {
        Err(e) => r is Err && r->Err_0@
            == "EvmProve: failed to decode handed-off internal proof for "@
            + request.context.proof_uuid@ + ": "@ + e@,
        Ok(internal) => {
            let refused = match request.deferral_merkle_proofs_bytes {
                Some(bytes) => merkle_proofs_error(bytes@),
                None => None,
            };
            match refused {
                None => r == Ok::<ProofWithPublicValue<P, U>, String>(internal),
                Some(e) => r is Err && r->Err_0@
                    == "EvmProve: failed to decode deferral merkle proofs for "@
                    + request.context.proof_uuid@ + ": "@ + e,
            }
        },
    }
}

/// Check a handed-off EVM request and take its internal proof out of it with `decode`.
/// The internal proof is decoded first, and its failure is the one that is told.
pub fn check_handoff<P, U, D: Fn(&Vec<u8>) -> Result<ProofWithPublicValue<P, U>, String>>(
    request: &EvmProveRequest,
    decode: &D,
) -> (r: Result<ProofWithPublicValue<P, U>, String>)
    requires
        forall|bytes: &Vec<u8>| #[trigger] call_requires(*decode, (bytes,)),
    ensures
        exists|decoded: Result<ProofWithPublicValue<P, U>, String>| #[trigger]
            call_ensures(*decode, (&request.internal_proof_bytes,), decoded) && is_handoff(
                *request,
                decoded,
                r,
            ),
{
    let proof_uuid = request.context.proof_uuid.as_str();
    let decoded = decode(&request.internal_proof_bytes);
    let ghost seen = decoded;
    assert(call_ensures(*decode, (&request.internal_proof_bytes,), seen));
    let internal = match decoded {
        Err(e) => {
            return Err(
                four(
                    "EvmProve: failed to decode handed-off internal proof for ",
                    proof_uuid,
                    ": ",
                    e.as_str(),
                ),
            );
        },
        Ok(internal) => internal,
    };
    match &request.deferral_merkle_proofs_bytes {
        None => Ok(internal),
        Some(bytes) => match check_merkle_proofs(bytes.as_slice()) {
            Ok(()) => Ok(internal),
            Err(e) => Err(
                four(
                    "EvmProve: failed to decode deferral merkle proofs for ",
                    proof_uuid,
                    ": ",
                    e.as_str(),
                ),
            ),
        },
    }
}

/// The text submitted for an EVM request on a worker that cannot run the EVM step.
pub fn evm_unsupported(proof_uuid: &str) -> (r: String)
    ensures
        r@ == "EvmProve dispatched to proof "@ + proof_uuid@
            + " on a worker built without EVM support"@,
{
    three("EvmProve dispatched to proof ", proof_uuid, " on a worker built without EVM support")
}

/// Of several results the first internal proof is taken, and only without any is there
/// none; the same holds of EVM proofs.
pub proof fn the_first_proof_is_taken(
    results: Vec<ProofResult>,
    internal: Option<InternalProof>,
    evm: Option<EvmProof>,
)
    requires
        call_ensures(take_internal, (results,), internal),
        call_ensures(take_evm, (results,), evm),
    ensures
        internal is Some <==> exists|i: int|
            0 <= i < results@.len() && (#[trigger] results@[i]) is Internal,
        internal matches Some(p) ==> exists|i: int|
            {
                &&& 0 <= i < results@.len()
                &&& #[trigger] results@[i] == ProofResult::Internal(p)
                &&& forall|j: int| 0 <= j < i ==> !((#[trigger] results@[j]) is Internal)
            },
        evm is Some <==> exists|i: int|
            0 <= i < results@.len() && (#[trigger] results@[i]) is Evm,
        evm matches Some(p) ==> exists|i: int|
            {
                &&& 0 <= i < results@.len()
                &&& #[trigger] results@[i] == ProofResult::Evm(p)
                &&& forall|j: int| 0 <= j < i ==> !((#[trigger] results@[j]) is Evm)
            },
{
    first_internal_is_somewhere(results@);
    first_evm_is_somewhere(results@);
}

proof fn first_internal_is_somewhere(results: Seq<ProofResult>)
    ensures
        first_internal(results) is Some <==> exists|i: int|
            0 <= i < results.len() && (#[trigger] results[i]) is Internal,
        first_internal(results) matches Some(p) ==> exists|i: int|
            {
                &&& 0 <= i < results.len()
                &&& #[trigger] results[i] == ProofResult::Internal(p)
                &&& forall|j: int| 0 <= j < i ==> !((#[trigger] results[j]) is Internal)
            },
    decreases results.len(),
{
    if results.len() > 0 {
        let rest = results.drop_first();
        first_internal_is_somewhere(rest);
        if !(results[0] is Internal) {
            if let Some(p) = first_internal(rest) {
                let i = choose|i: int|
                    {
                        &&& 0 <= i < rest.len()
                        &&& #[trigger] rest[i] == ProofResult::Internal(p)
                        &&& forall|j: int| 0 <= j < i ==> !((#[trigger] rest[j]) is Internal)
                    };
                assert(results[i + 1] == ProofResult::Internal(p));
                assert forall|j: int| 0 <= j < i + 1 implies !((
                #[trigger] results[j]) is Internal) by {
                    if j > 0 {
                        assert(rest[j - 1] == results[j]);
                    }
                }
            }
            if exists|i: int| 0 <= i < results.len() && (#[trigger] results[i]) is Internal {
                let i = choose|i: int|
                    0 <= i < results.len() && (#[trigger] results[i]) is Internal;
                assert(rest[i - 1] == results[i]);
            }
        }
    }
}

proof fn first_evm_is_somewhere(results: Seq<ProofResult>)
    ensures
        first_evm(results) is Some <==> exists|i: int|
            0 <= i < results.len() && (#[trigger] results[i]) is Evm,
        first_evm(results) matches Some(p) ==> exists|i: int|
            {
                &&& 0 <= i < results.len()
                &&& #[trigger] results[i] == ProofResult::Evm(p)
                &&& forall|j: int| 0 <= j < i ==> !((#[trigger] results[j]) is Evm)
            },
    decreases results.len(),
{
    if results.len() > 0 {
        let rest = results.drop_first();
        first_evm_is_somewhere(rest);
        if !(results[0] is Evm) {
            if let Some(p) = first_evm(rest) {
                let i = choose|i: int|
                    {
                        &&& 0 <= i < rest.len()
                        &&& #[trigger] rest[i] == ProofResult::Evm(p)
                        &&& forall|j: int| 0 <= j < i ==> !((#[trigger] rest[j]) is Evm)
                    };
                assert(results[i + 1] == ProofResult::Evm(p));
                assert forall|j: int| 0 <= j < i + 1 implies !((#[trigger] results[j]) is Evm) by {
                    if j > 0 {
                        assert(rest[j - 1] == results[j]);
                    }
                }
            }
            if exists|i: int| 0 <= i < results.len() && (#[trigger] results[i]) is Evm {
                let i = choose|i: int| 0 <= i < results.len() && (#[trigger] results[i]) is Evm;
                assert(rest[i - 1] == results[i]);
            }
        }
    }
}

/// A proof without a tail goes on to the EVM step at once, as it was proved and with the
/// merkle proofs that came with it; one with a tail is merged first. Only a job without an
/// internal proof, or whose proof is missing, fails here.
pub proof fn evm_preparation_keeps_the_proof(
    proof_uuid: &str,
    results: Vec<ProofResult>,
    deferral_tail: Option<DeferralTailDispatch>,
    depth0_merkle_bytes: Option<Vec<u8>>,
    internal: Option<InternalProof>,
    r: EvmPrep,
)
    requires
        call_ensures(take_internal, (results,), internal),
        call_ensures(
            begin_evm_prep,
            (proof_uuid, results, deferral_tail, depth0_merkle_bytes),
            r,
        ),
    ensures
        r is Failed <==> internal is None || internal->0.state.proof is None,
        r is Merge <==> !(r is Failed) && deferral_tail is Some,
        r is Ready <==> !(r is Failed) && deferral_tail is None,
        r matches EvmPrep::Ready(result) ==> {
            &&& result matches ProofResult::Internal(p)
            &&& p.context == internal->0.context
            &&& p.state.proof == internal->0.state.proof
            &&& p.state.ready_for_evm
            &&& p.state.deferral_merkle_proofs_bytes == depth0_merkle_bytes
            &&& p.state.layer_idx == internal->0.state.layer_idx
            &&& p.state.segment_start == internal->0.state.segment_start
            &&& p.state.segment_end == internal->0.state.segment_end
            &&& p.state.prove_time_ms == internal->0.state.prove_time_ms
            &&& p.state.compression_time_ms == internal->0.state.compression_time_ms
            &&& p.state.sub_metrics == internal->0.state.sub_metrics
            &&& p.state.wrap_sub_metrics == internal->0.state.wrap_sub_metrics
        },
        r matches EvmPrep::Merge { internal: kept, proof_bytes, tail } ==> {
            &&& Some(tail) == deferral_tail
            &&& proof_bytes@ == internal->0.state.proof->0@
            &&& kept.context == internal->0.context
            &&& kept.state.layer_idx == internal->0.state.layer_idx
            &&& kept.state.prove_time_ms == internal->0.state.prove_time_ms
        },
{
}

/// A merged proof goes on to the EVM step in place of the raw one, with its own merkle
/// proofs; a failed merge submits no proof at all.
pub proof fn merged_proofs_replace_the_raw_one(
    proof_uuid: &str,
    internal: InternalProof,
    merged: Result<(ProofBytes, Vec<u8>), MergeFailure>,
    evm: Result<ProofResult, String>,
    stark: Result<ProofResult, String>,
)
    requires
        call_ensures(finish_evm_prep, (proof_uuid, internal, merged), evm),
        call_ensures(finish_stark_merge, (proof_uuid, internal, merged), stark),
    ensures
        evm is Ok <==> merged is Ok,
        stark is Ok <==> merged is Ok,
        merged is Ok ==> {
            &&& evm->Ok_0 matches ProofResult::Internal(p)
            &&& p.state.proof == Some(merged->Ok_0.0)
            &&& p.state.deferral_merkle_proofs_bytes == Some(merged->Ok_0.1)
            &&& p.state.ready_for_evm
            &&& p.context == internal.context
            &&& p.state.layer_idx == internal.state.layer_idx
            &&& p.state.segment_start == internal.state.segment_start
            &&& p.state.segment_end == internal.state.segment_end
            &&& p.state.prove_time_ms == internal.state.prove_time_ms
        },
        merged is Ok ==> {
            &&& stark->Ok_0 matches ProofResult::Internal(p)
            &&& p.state.proof == Some(merged->Ok_0.0)
            &&& p.state.deferral_merkle_proofs_bytes == Some(merged->Ok_0.1)
            &&& p.state.ready_for_evm == internal.state.ready_for_evm
            &&& p.context == internal.context
            &&& p.state.layer_idx == internal.state.layer_idx
            &&& p.state.segment_start == internal.state.segment_start
            &&& p.state.segment_end == internal.state.segment_end
        },
        merged matches Err(MergeFailure::Merge(e)) ==> evm->Err_0@
            == "evm prep: deferral tail merge failed for "@ + proof_uuid@ + ": "@ + e@
            && stark->Err_0@ == "stark deferral merge failed for "@ + proof_uuid@ + ": "@ + e@,
        merged matches Err(MergeFailure::Decode(e)) ==> evm->Err_0@
            == "evm prep: failed to decode final internal proof for "@ + proof_uuid@ + ": "@ + e@,
        merged matches Err(MergeFailure::EncodeProof(e)) ==> evm->Err_0@
            == "evm prep: failed to encode merged proof for "@ + proof_uuid@ + ": "@ + e@,
        merged matches Err(MergeFailure::EncodeMerkle(e)) ==> evm->Err_0@
            == "evm prep: failed to encode merkle proofs for "@ + proof_uuid@ + ": "@ + e@,
        merged matches Err(MergeFailure::Task(e)) ==> evm->Err_0@
            == "evm prep: tail-merge task failed for "@ + proof_uuid@ + ": "@ + e@,
{
}

/// A STARK proof with a tail is merged exactly if it has both its proof and the tail.
pub proof fn stark_merges_need_proof_and_tail(
    proof_uuid: &str,
    results: Vec<ProofResult>,
    deferral_tail: Option<DeferralTailDispatch>,
    internal: Option<InternalProof>,
    r: StarkMerge,
)
    requires
        call_ensures(take_internal, (results,), internal),
        call_ensures(begin_stark_merge, (proof_uuid, results, deferral_tail), r),
    ensures
        r is Merge <==> internal is Some && internal->0.state.proof is Some
            && deferral_tail is Some,
        r matches StarkMerge::Merge { internal: kept, proof_bytes, tail } ==> {
            &&& Some(tail) == deferral_tail
            &&& proof_bytes@ == internal->0.state.proof->0@
            &&& kept.context == internal->0.context
            &&& kept.state.layer_idx == internal->0.state.layer_idx
        },
{
}

/// The EVM step runs exactly on a worker that has loaded the EVM key.
pub proof fn only_evm_workers_pass_the_gate(
    proof_uuid: &str,
    status: ArtifactStatus,
    r: Result<(), String>,
)
    requires
        call_ensures(evm_gate, (proof_uuid, status), r),
    ensures
        r is Ok <==> status is Loaded && status->has_evm,
{
}

/// A root proof goes on to the halo2 stage as it is, and its timings are kept for the end.
pub proof fn root_proofs_go_on(
    proof_uuid: &str,
    outcome: Result<RootProofState, String>,
    r: Result<(ProofBytes, RootTimings), String>,
)
    requires
        call_ensures(root_proved, (proof_uuid, outcome), r),
    ensures
        r is Ok <==> outcome is Ok && outcome->Ok_0.proof is Some,
        r is Ok ==> outcome->Ok_0.proof == Some(r->Ok_0.0) && r->Ok_0.1.prove_time_ms
            == outcome->Ok_0.prove_time_ms && r->Ok_0.1.sub_metrics == outcome->Ok_0.sub_metrics,
        outcome matches Err(e) ==> r->Err_0@ == "Root prove failed for "@ + proof_uuid@ + ": "@
            + e@,
{
}

/// The EVM proof that is reported is the one that the halo2 stage made, with its own time
/// and the time of the root stage beside it. Every span of either stage is kept, under the
/// name of its stage and with its duration, and there are no others.
pub proof fn evm_proofs_keep_both_stages(
    proof_uuid: &str,
    root: RootTimings,
    outcome: Halo2Outcome,
    evm: Option<EvmProof>,
    r: Result<ProofResult, String>,
)
    requires
        call_ensures(halo2_proved, (proof_uuid, root, outcome), r),
        outcome matches Halo2Outcome::Finished(ProverResult::Success(results)) ==> call_ensures(
            take_evm,
            (results,),
            evm,
        ),
        !(outcome is Finished && outcome->Finished_0 is Success) ==> evm is None,
    ensures
        r is Ok <==> evm is Some,
        r is Ok ==> {
            &&& r->Ok_0 matches ProofResult::Evm(p)
            &&& p.context == evm->0.context
            &&& p.state.proof == evm->0.state.proof
            &&& p.state.prove_time_ms == evm->0.state.prove_time_ms
            &&& p.state.root_prove_time_ms == root.prove_time_ms
            &&& p.state.sub_metrics@.len() == evm->0.state.sub_metrics@.len()
                + root.sub_metrics@.len()
            &&& forall|i: int|
                0 <= i < evm->0.state.sub_metrics@.len() ==> (
                #[trigger] evm->0.state.sub_metrics@[i]).ms_bits
                    == p.state.sub_metrics@[i].ms_bits && p.state.sub_metrics@[i].name@
                    == "halo2_"@ + evm->0.state.sub_metrics@[i].name@
            &&& forall|i: int|
                0 <= i < root.sub_metrics@.len() ==> (#[trigger] root.sub_metrics@[i]).ms_bits
                    == p.state.sub_metrics@[evm->0.state.sub_metrics@.len() + i].ms_bits
                    && p.state.sub_metrics@[evm->0.state.sub_metrics@.len() + i].name@ == "root_"@
                    + root.sub_metrics@[i].name@
        },
{
    if r is Ok {
        let out = r->Ok_0->Evm_0.state.sub_metrics@;
        let halo2 = evm->0.state.sub_metrics@;
        let n = halo2.len() as int;
        assert forall|i: int| 0 <= i < n implies (#[trigger] halo2[i]).ms_bits == out[i].ms_bits
            && out[i].name@ == "halo2_"@ + halo2[i].name@ by {
            assert(out.take(n)[i] == out[i]);
        }
        assert forall|i: int| 0 <= i < root.sub_metrics@.len() implies (
        #[trigger] root.sub_metrics@[i]).ms_bits == out[n + i].ms_bits && out[n + i].name@
            == "root_"@ + root.sub_metrics@[i].name@ by {
            assert(out.skip(n)[i] == out[n + i]);
        }
    }
}

/// A handed-off request is taken exactly if its internal proof decodes and its merkle
/// proofs, where it has any, do; then it is the decoded proof that is taken.
pub proof fn decodable_handoffs_are_taken<
    P,
    U,
    D: Fn(&Vec<u8>) -> Result<ProofWithPublicValue<P, U>, String>,
>(request: &EvmProveRequest, decode: &D, r: Result<ProofWithPublicValue<P, U>, String>)
    requires
        call_ensures(check_handoff::<P, U, D>, (request, decode), r),
    ensures
        exists|decoded: Result<ProofWithPublicValue<P, U>, String>|
            {
                &&& #[trigger] call_ensures(*decode, (&request.internal_proof_bytes,), decoded)
                &&& r is Ok <==> decoded is Ok && (request.deferral_merkle_proofs_bytes is None
                    || merkle_proofs_error(request.deferral_merkle_proofs_bytes->0@) is None)
                &&& r is Ok ==> r == decoded
                &&& decoded is Err ==> r->Err_0@
                    == "EvmProve: failed to decode handed-off internal proof for "@
                    + request.context.proof_uuid@ + ": "@ + decoded->Err_0@
            },
{
    let decoded = choose|decoded: Result<ProofWithPublicValue<P, U>, String>| #[trigger]
        call_ensures(*decode, (&request.internal_proof_bytes,), decoded) && is_handoff(
            *request,
            decoded,
            r,
        );
    assert(call_ensures(*decode, (&request.internal_proof_bytes,), decoded));
}

} // verus!
