//! Result types that a worker returns to the manager.
//!
//! Sub-step timings are carried as [`SpanMetric`]s: a name and the bit pattern of
//! the number of milliseconds.

use vstd::prelude::*;
use vstd::string::*;

use crate::context::{ProofContext, WithProofContext};
use crate::requests::{ProofBytes, SegmentBytes};
use crate::text::{decimal, push_decimal, push_usize};

verus! {

/// One sub-step timing: its name, and its duration in milliseconds as the bits of a
/// double.
#[derive(Debug, PartialEq, Eq)]
pub struct SpanMetric {
    pub name: String,
    pub ms_bits: u64,
}

impl Clone for SpanMetric {
    fn clone(&self) -> (res: Self)
        ensures
            res == *self,
    {
        SpanMetric { name: self.name.clone(), ms_bits: self.ms_bits }
    }
}

/// Whether no name occurs twice among `metrics`.
pub open spec fn distinct_names(metrics: Seq<SpanMetric>) -> bool {
    forall|i: int, j: int|
        0 <= i < j < metrics.len() ==> (#[trigger] metrics[i]).name@ != (
        #[trigger] metrics[j]).name@
}

/// Segment information discovered by metered execution.
pub struct ExecuteE2Result {
    pub context: ProofContext,
    pub state: ExecuteE2State,
}

/// State from metered execution.
#[derive(Debug)]
pub struct ExecuteE2State {
    pub num_segments: usize,
    /// Each entry is an encoded segment.
    pub segments: Vec<SegmentBytes>,
    pub cost: u64,
    /// Wall-clock time for metered execution, in milliseconds.
    pub execute_time_ms: u64,
}

/// App proof for a single segment.
pub struct AppProof {
    pub context: ProofContext,
    pub state: AppProofState,
}

/// App proof state.
pub struct AppProofState {
    /// Encoded proof when present.
    pub proof: Option<ProofBytes>,
    pub segment_idx: usize,
    /// Wall-clock time for this segment's app proof, in milliseconds.
    pub prove_time_ms: u64,
    /// Time spent fast-forwarding from snapshot to segment start, in milliseconds.
    pub fastfwd_time_ms: u64,
    /// Time spent generating the STARK proof, in milliseconds.
    pub stark_prove_time_ms: u64,
    /// Time the segment sat in the channel between the executor and the prover, in
    /// milliseconds.
    pub queue_wait_ms: u64,
    /// Time of this worker's executor between the end of its previous send and this
    /// one, in milliseconds. It covers every segment executed since that send.
    pub metered_time_ms: u64,
    /// STARK sub-step timings.
    pub sub_metrics: Vec<SpanMetric>,
    /// Terminal segment of a deferral job only: the depth-independent
    /// authentication path from the final memory merkle tree.
    pub final_merkle_path_bytes: Option<Vec<u8>>,
    /// Terminal segment only: the complete depth-0 merkle proofs of a proof that made
    /// no deferred calls on a deferral deployment.
    pub deferral_merkle_proofs_bytes: Option<Vec<u8>>,
    /// Worker that produced the result, set by the manager on receipt.
    pub worker_id: usize,
    /// Manager clock at receipt, in milliseconds since the epoch.
    pub completed_at_ms: u64,
}

/// Leaf proof aggregating multiple app proofs.
pub struct LeafProof {
    pub context: ProofContext,
    pub state: LeafProofState,
}

/// Leaf proof state.
pub struct LeafProofState {
    /// Encoded proof when present.
    pub proof: Option<ProofBytes>,
    pub segment_start: usize,
    /// Inclusive end segment index.
    pub segment_end: usize,
    /// Wall-clock time for leaf aggregation, in milliseconds.
    pub prove_time_ms: u64,
    /// STARK sub-step timings.
    pub sub_metrics: Vec<SpanMetric>,
    /// Worker that produced the result, set by the manager on receipt.
    pub worker_id: usize,
    /// Manager clock at receipt, in milliseconds since the epoch.
    pub completed_at_ms: u64,
}

/// Internal proof aggregating leaf or other internal proofs.
pub struct InternalProof {
    pub context: ProofContext,
    pub state: InternalProofState,
}

/// Internal proof state.
pub struct InternalProofState {
    /// Encoded proof when present.
    pub proof: Option<ProofBytes>,
    /// Layer index (0 = bottom layer aggregating leaf proofs).
    pub layer_idx: usize,
    pub segment_start: usize,
    /// Inclusive end segment index.
    pub segment_end: usize,
    /// Wall-clock time for internal aggregation, in milliseconds.
    pub prove_time_ms: u64,
    /// Compression time (non-zero only for the final proof), in milliseconds.
    pub compression_time_ms: u64,
    /// STARK sub-step timings.
    pub sub_metrics: Vec<SpanMetric>,
    /// Span durations of the wrap of the final proof, empty where no wrap ran.
    pub wrap_sub_metrics: Vec<SpanMetric>,
    /// Merkle proofs of the merged final internal proof of a deferral job.
    pub deferral_merkle_proofs_bytes: Option<Vec<u8>>,
    /// Set on the post-merge final internal proof of an EVM proof, to have the EVM
    /// step dispatched.
    pub ready_for_evm: bool,
    /// Worker that produced the result, set by the manager on receipt.
    pub worker_id: usize,
    /// Manager clock at receipt, in milliseconds since the epoch.
    pub completed_at_ms: u64,
}

/// Root proof state: the worker-internal payload of the root prove stage. It is
/// consumed by the halo2 stage and never reported to the manager.
pub struct RootProofState {
    /// Encoded root proof when present.
    pub proof: Option<ProofBytes>,
    /// Wall-clock time for root proving, in milliseconds.
    pub prove_time_ms: u64,
    /// Root prover sub-step timings.
    pub sub_metrics: Vec<SpanMetric>,
}

/// EVM proof wrapping the root proof for on-chain verification.
pub struct EvmProof {
    pub context: ProofContext,
    pub state: EvmProofState,
}

/// EVM proof state.
pub struct EvmProofState {
    /// Encoded EVM proof when present.
    pub proof: Option<ProofBytes>,
    /// Wall-clock time for halo2 proving, in milliseconds.
    pub prove_time_ms: u64,
    /// Wall-clock time for root proving, in milliseconds.
    pub root_prove_time_ms: u64,
    /// Root and halo2 sub-step timings, prefixed `root_` and `halo2_`.
    pub sub_metrics: Vec<SpanMetric>,
}

/// Error result when a proving step fails.
#[derive(Debug)]
pub struct ErrorResult {
    pub context: ProofContext,
    pub step: String,
    pub error: String,
}

/// Result types returned from a worker to the manager.
pub enum ProofResult {
    ExecuteE2(ExecuteE2Result),
    App(AppProof),
    Leaf(LeafProof),
    Internal(InternalProof),
    Evm(EvmProof),
    Error(ErrorResult),
}

/// What a worker posts to the manager's result endpoint.
pub struct ResultPayload {
    pub worker_id: usize,
    pub proof_uuid: String,
    pub result: ProofResult,
}

/// The text of a boolean.
pub open spec fn bool_text(b: bool) -> Seq<char> {
    if b {
        "true"@
    } else {
        "false"@
    }
}

fn bool_str(b: bool) -> (r: &'static str)
    ensures
        r@ == bool_text(b),
{
    if b {
        "true"
    } else {
        "false"
    }
}

impl ProofResult {
    /// The short name of the result's kind.
    pub open spec fn kind_name(self) -> Seq<char> {
        match self {
            ProofResult::ExecuteE2(_) => "execute_e2"@,
            ProofResult::App(_) => "app"@,
            ProofResult::Leaf(_) => "leaf"@,
            ProofResult::Internal(_) => "internal"@,
            ProofResult::Evm(_) => "evm"@,
            ProofResult::Error(_) => "error"@,
        }
    }

    pub fn kind(&self) -> (r: &str)
        ensures
            r@ == self.kind_name(),
    {
        match self {
            ProofResult::ExecuteE2(_) => "execute_e2",
            ProofResult::App(_) => "app",
            ProofResult::Leaf(_) => "leaf",
            ProofResult::Internal(_) => "internal",
            ProofResult::Evm(_) => "evm",
            ProofResult::Error(_) => "error",
        }
    }

    /// The result with the worker and the receipt time recorded on the state it
    /// carries, where that state has a place for them.
    pub open spec fn stamped(self, worker_id: usize, completed_at_ms: u64) -> ProofResult {
        match self {
            ProofResult::App(p) => ProofResult::App(
                AppProof { state: AppProofState { worker_id, completed_at_ms, ..p.state }, ..p },
            ),
            ProofResult::Leaf(p) => ProofResult::Leaf(
                LeafProof { state: LeafProofState { worker_id, completed_at_ms, ..p.state }, ..p },
            ),
            ProofResult::Internal(p) => ProofResult::Internal(
                InternalProof {
                    state: InternalProofState { worker_id, completed_at_ms, ..p.state },
                    ..p
                },
            ),
            other => other,
        }
    }

    /// Record the worker and the receipt time on the carried state.
    pub fn stamp(&mut self, worker_id: usize, completed_at_ms: u64)
        ensures
            *final(self) == old(self).stamped(worker_id, completed_at_ms),
    {
        match self {
            ProofResult::App(p) => {
                p.state.worker_id = worker_id;
                p.state.completed_at_ms = completed_at_ms;
            },
            ProofResult::Leaf(p) => {
                p.state.worker_id = worker_id;
                p.state.completed_at_ms = completed_at_ms;
            },
            ProofResult::Internal(p) => {
                p.state.worker_id = worker_id;
                p.state.completed_at_ms = completed_at_ms;
            },
            ProofResult::ExecuteE2(_) | ProofResult::Evm(_) | ProofResult::Error(_) => {},
        }
    }

    /// One line that describes the result.
    pub open spec fn described(self) -> Seq<char> {
        match self {
            ProofResult::ExecuteE2(r) => "ExecuteE2Result(num_segments: "@ + decimal(
                r.state.num_segments as nat,
            ) + ", cost: "@ + decimal(r.state.cost as nat) + ")"@,
            ProofResult::App(r) => "AppProof(segment_idx: "@ + decimal(r.state.segment_idx as nat)
                + ", has_proof: "@ + bool_text(r.state.proof is Some) + ")"@,
            ProofResult::Leaf(r) => "LeafProof(segments: ["@ + decimal(r.state.segment_start as nat)
                + "-"@ + decimal(r.state.segment_end as nat) + "], has_proof: "@ + bool_text(
                r.state.proof is Some,
            ) + ")"@,
            ProofResult::Internal(r) => "InternalProof(layer_idx: "@ + decimal(
                r.state.layer_idx as nat,
            ) + ", segments: ["@ + decimal(r.state.segment_start as nat) + "-"@ + decimal(
                r.state.segment_end as nat,
            ) + "], has_proof: "@ + bool_text(r.state.proof is Some) + ")"@,
            ProofResult::Evm(r) => "EvmProof(has_proof: "@ + bool_text(r.state.proof is Some)
                + ")"@,
            ProofResult::Error(r) => "ErrorResult(proof_uuid: "@ + r.context.proof_uuid@
                + ", step: "@ + r.step@ + ", error: "@ + r.error@ + ")"@,
        }
    }

    /// One line that describes the result.
    pub fn describe(&self) -> (out: String)
        ensures
            out@ == self.described(),
    {
        match self {
            ProofResult::ExecuteE2(r) => {
                let mut out = "ExecuteE2Result(num_segments: ".to_owned();
                push_usize(&mut out, r.state.num_segments);
                out.append(", cost: ");
                push_decimal(&mut out, r.state.cost);
                out.append(")");
                out
            },
            ProofResult::App(r) => {
                let mut out = "AppProof(segment_idx: ".to_owned();
                push_usize(&mut out, r.state.segment_idx);
                out.append(", has_proof: ");
                out.append(bool_str(r.state.proof.is_some()));
                out.append(")");
                out
            },
            ProofResult::Leaf(r) => {
                let mut out = "LeafProof(segments: [".to_owned();
                push_usize(&mut out, r.state.segment_start);
                out.append("-");
                push_usize(&mut out, r.state.segment_end);
                out.append("], has_proof: ");
                out.append(bool_str(r.state.proof.is_some()));
                out.append(")");
                out
            },
            ProofResult::Internal(r) => {
                let mut out = "InternalProof(layer_idx: ".to_owned();
                push_usize(&mut out, r.state.layer_idx);
                out.append(", segments: [");
                push_usize(&mut out, r.state.segment_start);
                out.append("-");
                push_usize(&mut out, r.state.segment_end);
                out.append("], has_proof: ");
                out.append(bool_str(r.state.proof.is_some()));
                out.append(")");
                out
            },
            ProofResult::Evm(r) => {
                let mut out = "EvmProof(has_proof: ".to_owned();
                out.append(bool_str(r.state.proof.is_some()));
                out.append(")");
                out
            },
            ProofResult::Error(r) => {
                let mut out = "ErrorResult(proof_uuid: ".to_owned();
                out.append(r.context.proof_uuid.as_str());
                out.append(", step: ");
                out.append(r.step.as_str());
                out.append(", error: ");
                out.append(r.error.as_str());
                out.append(")");
                out
            },
        }
    }
}

/// Stamping changes neither the kind nor the context of a result, a later stamp
/// replaces an earlier one, and execution, EVM and error results are left alone.
pub proof fn stamping_is_last_wins(r: ProofResult, w1: usize, t1: u64, w2: usize, t2: u64)
    ensures
        r.stamped(w1, t1).stamped(w2, t2) == r.stamped(w2, t2),
        r.stamped(w1, t1).held_context() == r.held_context(),
        r.stamped(w1, t1).kind_name() == r.kind_name(),
        r.stamped(w1, t1).described() == r.described(),
        r is ExecuteE2 || r is Evm || r is Error ==> r.stamped(w1, t1) == r,
{
}

impl WithProofContext for ProofResult {
    open spec fn held_context(&self) -> ProofContext {
        match self {
            ProofResult::ExecuteE2(r) => r.context,
            ProofResult::App(r) => r.context,
            ProofResult::Leaf(r) => r.context,
            ProofResult::Internal(r) => r.context,
            ProofResult::Evm(r) => r.context,
            ProofResult::Error(r) => r.context,
        }
    }

    fn context(&self) -> (r: &ProofContext) {
        match self {
            ProofResult::ExecuteE2(r) => &r.context,
            ProofResult::App(r) => &r.context,
            ProofResult::Leaf(r) => &r.context,
            ProofResult::Internal(r) => &r.context,
            ProofResult::Evm(r) => &r.context,
            ProofResult::Error(r) => &r.context,
        }
    }

    fn proof_uuid(&self) -> (r: &str) {
        self.context().proof_uuid.as_str()
    }
}

/// A stamp records who sent an app, leaf or internal proof, and when it came, and touches
/// nothing else of it. Other results have no place for it and stay as they are.
pub proof fn stamps_touch_nothing_else(
    result: &mut ProofResult,
    worker_id: usize,
    at_ms: u64,
    before: ProofResult,
    after: ProofResult,
)
    requires
        call_ensures(ProofResult::stamp, (result, worker_id, at_ms), ()),
        before == *old(result),
        after == *final(result),
    ensures
        before is App ==> {
            &&& after is App
            &&& after->App_0.state.worker_id == worker_id
            &&& after->App_0.state.completed_at_ms == at_ms
            &&& after->App_0.state.proof == before->App_0.state.proof
            &&& after->App_0.state.segment_idx == before->App_0.state.segment_idx
            &&& after->App_0.state.sub_metrics == before->App_0.state.sub_metrics
            &&& after->App_0.context == before->App_0.context
        },
        before is Leaf ==> {
            &&& after is Leaf
            &&& after->Leaf_0.state.worker_id == worker_id
            &&& after->Leaf_0.state.completed_at_ms == at_ms
            &&& after->Leaf_0.state.proof == before->Leaf_0.state.proof
            &&& after->Leaf_0.state.segment_start == before->Leaf_0.state.segment_start
            &&& after->Leaf_0.state.segment_end == before->Leaf_0.state.segment_end
            &&& after->Leaf_0.context == before->Leaf_0.context
        },
        before is Internal ==> {
            &&& after is Internal
            &&& after->Internal_0.state.worker_id == worker_id
            &&& after->Internal_0.state.completed_at_ms == at_ms
            &&& after->Internal_0.state.proof == before->Internal_0.state.proof
            &&& after->Internal_0.state.layer_idx == before->Internal_0.state.layer_idx
            &&& after->Internal_0.state.segment_start == before->Internal_0.state.segment_start
            &&& after->Internal_0.state.segment_end == before->Internal_0.state.segment_end
            &&& after->Internal_0.state.ready_for_evm == before->Internal_0.state.ready_for_evm
            &&& after->Internal_0.context == before->Internal_0.context
        },
        !(before is App || before is Leaf || before is Internal) ==> after == before,
{
}

/// The six kinds of results have their own names, and a description begins with the kind
/// and says of a proof which segments it covers and whether it is there.
pub proof fn results_are_described_by_their_kind(result: &ProofResult, kind: &str, text: String)
    requires
        call_ensures(ProofResult::kind, (result,), kind),
        call_ensures(ProofResult::describe, (result,), text),
    ensures
        result is ExecuteE2 ==> kind@ == "execute_e2"@ && text@
            == "ExecuteE2Result(num_segments: "@ + decimal(
            result->ExecuteE2_0.state.num_segments as nat,
        ) + ", cost: "@ + decimal(result->ExecuteE2_0.state.cost as nat) + ")"@,
        result is App ==> kind@ == "app"@ && text@ == "AppProof(segment_idx: "@ + decimal(
            result->App_0.state.segment_idx as nat,
        ) + ", has_proof: "@ + (if result->App_0.state.proof is Some {
            "true"@
        } else {
            "false"@
        }) + ")"@,
        result is Leaf ==> kind@ == "leaf"@ && text@ == "LeafProof(segments: ["@ + decimal(
            result->Leaf_0.state.segment_start as nat,
        ) + "-"@ + decimal(result->Leaf_0.state.segment_end as nat) + "], has_proof: "@ + (
        if result->Leaf_0.state.proof is Some {
            "true"@
        } else {
            "false"@
        }) + ")"@,
        result is Internal ==> kind@ == "internal"@ && text@ == "InternalProof(layer_idx: "@
            + decimal(result->Internal_0.state.layer_idx as nat) + ", segments: ["@ + decimal(
            result->Internal_0.state.segment_start as nat,
        ) + "-"@ + decimal(result->Internal_0.state.segment_end as nat) + "], has_proof: "@ + (
        if result->Internal_0.state.proof is Some {
            "true"@
        } else {
            "false"@
        }) + ")"@,
        result is Evm ==> kind@ == "evm"@ && text@ == "EvmProof(has_proof: "@ + (
        if result->Evm_0.state.proof is Some {
            "true"@
        } else {
            "false"@
        }) + ")"@,
        result is Error ==> kind@ == "error"@ && text@ == "ErrorResult(proof_uuid: "@
            + result->Error_0.context.proof_uuid@ + ", step: "@ + result->Error_0.step@
            + ", error: "@ + result->Error_0.error@ + ")"@,
{
}

} // verus!
