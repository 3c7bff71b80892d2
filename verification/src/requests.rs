//! Request types for the manager ↔ worker protocol.
//!
//! Proof and segment payloads are carried as opaque bytes ([`ProofBytes`],
//! [`SegmentBytes`]).

use std::collections::BTreeMap;

use vstd::prelude::*;
use vstd::std_specs::convert::*;

use crate::context::{ProofContext, ProofType, WithProofContext};
use crate::program::ProgramRef;

verus! {

/// Encoded proof payload, opaque on the wire.
pub type ProofBytes = Vec<u8>;

/// Encoded segment payload, opaque on the wire.
pub type SegmentBytes = Vec<u8>;

/// The aggregation step that a request asks for.
#[derive(Clone, Copy, Debug, PartialEq, Eq, Structural)]
pub enum Step {
    LeafProve,
    InternalProve,
    EvmProve,
}

/// Request details extracted from any prove request.
pub struct RequestDetails {
    pub context: ProofContext,
    pub step: Step,
}

/// Start a new proof: the client-facing entry point.
#[derive(Debug)]
pub struct StartProofRequest {
    pub proof_uuid: String,
    /// Target program. Optional where exactly one program is loaded.
    pub program: Option<ProgramRef>,
    /// Opaque key/value labels carried with the proof.
    pub labels: BTreeMap<String, String>,
    /// Requested final proof artifact type.
    pub proof_type: ProofType,
    /// Whether the caller pushed the input to every worker beforehand, so that the
    /// manager skips its fan-out.
    pub input_already_uploaded: bool,
    /// Optional override for the maximum segment memory.
    pub segment_memory: Option<usize>,
    /// Optional override for the leaf packing threshold.
    pub leaf_pack_threshold: Option<usize>,
    /// Optional override for the watchdog timeout, in seconds.
    pub timeout_secs: Option<u64>,
}

impl StartProofRequest {
    /// A request that names only the proof: every optional field at its default.
    pub fn minimal(proof_uuid: String) -> (r: Self)
        ensures
            r.proof_uuid == proof_uuid,
            r.program is None,
            r.labels@ == Map::<String, String>::empty(),
            r.proof_type == ProofType::Stark,
            !r.input_already_uploaded,
            r.segment_memory is None,
            r.leaf_pack_threshold is None,
            r.timeout_secs is None,
    {
        StartProofRequest {
            proof_uuid,
            program: None,
            labels: BTreeMap::new(),
            proof_type: ProofType::default(),
            input_already_uploaded: false,
            segment_memory: None,
            leaf_pack_threshold: None,
            timeout_secs: None,
        }
    }
}

/// Deployment role a worker plays in the prover fleet.
#[derive(Clone, Copy, Debug, PartialEq, Eq, Structural)]
pub enum WorkerRole {
    /// App + leaf + internal, plus the EVM step (root + halo2). Default.
    Full,
    /// App + leaf + internal only.
    StarkOnly,
    /// Root + halo2 only.
    EvmDedicated,
}

impl Default for WorkerRole {
    fn default() -> (r: Self)
        ensures
            r == WorkerRole::Full,
    {
        WorkerRole::Full
    }
}

impl WorkerRole {
    /// Whether a worker with this role runs STARK proving (app + leaf + internal).
    pub open spec fn proves_stark(self) -> bool {
        self != WorkerRole::EvmDedicated
    }

    /// Whether a worker with this role runs the EVM step (root + halo2).
    pub open spec fn proves_evm(self) -> bool {
        self != WorkerRole::StarkOnly
    }

    /// Whether a worker with this role runs STARK proving (app + leaf + internal).
    pub fn runs_stark_proving(self) -> (r: bool)
        ensures
            r == self.proves_stark(),
    {
        matches!(self, WorkerRole::Full | WorkerRole::StarkOnly)
    }

    /// Whether a worker with this role runs the EVM step (root + halo2).
    pub fn runs_evm_prove(self) -> (r: bool)
        ensures
            r == self.proves_evm(),
    {
        matches!(self, WorkerRole::Full | WorkerRole::EvmDedicated)
    }
}

/// Every role runs at least one half of the pipeline, and only `Full` runs both.
pub proof fn roles_cover_the_pipeline(role: WorkerRole)
    ensures
        role.proves_stark() || role.proves_evm(),
        role.proves_stark() && role.proves_evm() <==> role == WorkerRole::Full,
{
}

/// Worker self-registration with the manager.
#[derive(Debug)]
pub struct RegisterWorkerRequest {
    /// HTTP URL where this worker can be reached.
    pub worker_url: String,
    /// Exact stable worker id.
    pub worker_id: usize,
    /// Number of pre-loaded app prover instances on this worker.
    pub max_app_provers: usize,
    /// Number of concurrent leaf proofs this worker can run.
    pub max_leaf_provers: usize,
    /// Number of concurrent internal proofs this worker can run.
    pub max_internal_provers: usize,
    /// Programs this worker has loaded.
    pub loaded_programs: Vec<ProgramRef>,
    /// The deployment role this worker plays.
    pub worker_role: WorkerRole,
}

/// The manager's current program list.
#[derive(Debug)]
pub struct LoadoutResponse {
    pub programs: Vec<ProgramRef>,
}

/// Sharded app prove kickoff for a single worker.
///
/// Each worker independently discovers the segment boundaries and proves the
/// segments where `segment_idx % num_provers == prover_id`. The request carries no
/// paths: the worker derives them from `proof_uuid`.
#[derive(Debug)]
pub struct ShardedAppProveRequest {
    pub proof_uuid: String,
    pub program: ProgramRef,
    /// Worker id (0-indexed).
    pub prover_id: usize,
    /// Total number of workers.
    pub num_provers: usize,
    /// Optional override for the maximum segment memory.
    pub segment_memory: Option<usize>,
}

/// Leaf prove request: aggregate a batch of app proofs into a leaf proof.
pub struct LeafProveRequest {
    pub context: ProofContext,
    /// App proofs to be aggregated into a single leaf proof.
    pub app_proofs: Vec<ProofBytes>,
    pub segment_start: usize,
    /// Inclusive end segment index.
    pub segment_end: usize,
}

/// Internal prove request: aggregate a group of leaf or internal proofs into a
/// higher-layer internal proof.
pub struct InternalProveRequest {
    pub context: ProofContext,
    pub child_proofs: Vec<ProofBytes>,
    pub layer_idx: usize,
    pub segment_start: usize,
    pub segment_end: usize,
    /// Whether this is the final proof in the recursion tree.
    pub is_final_proof: bool,
    /// Attached on the final internal prove of a deferral job.
    pub deferral_tail: Option<DeferralTailDispatch>,
    /// Encoded depth-0 merkle proofs for a proof that made no deferred calls on a
    /// deferral deployment.
    pub deferral_merkle_proofs_bytes: Option<Vec<u8>>,
}

/// The inputs that the deferral merge needs, handed from the manager to the worker
/// that runs the final internal prove.
#[derive(Debug)]
pub struct DeferralTailDispatch {
    /// Tree-shape state at the point the final internal proof is produced.
    pub layer_metadata: InternalLayerMetadataWire,
    /// Depth-independent authentication path from the final memory merkle tree.
    /// Empty where the terminal app proof never reported it.
    pub final_merkle_path_bytes: Vec<u8>,
}

/// Wire form of the aggregation layer metadata.
#[derive(Debug, Clone, Copy, PartialEq, Eq, Structural)]
pub struct InternalLayerMetadataWire {
    /// Number of recursive rounds reached when the final internal proof was produced.
    pub internal_recursive_layer: u32,
    /// Highest assigned internal node index.
    pub internal_node_idx: u32,
    /// Kind of proofs the tree holds.
    pub proofs_type: ProofsTypeWire,
}

impl Default for InternalLayerMetadataWire {
    fn default() -> (r: Self)
        ensures
            r.internal_recursive_layer == 0,
            r.internal_node_idx == 0,
            r.proofs_type == ProofsTypeWire::Vm,
    {
        InternalLayerMetadataWire {
            internal_recursive_layer: 0,
            internal_node_idx: 0,
            proofs_type: ProofsTypeWire::default(),
        }
    }
}

/// Kind of proofs that an aggregation tree holds.
#[derive(Debug, Clone, Copy, PartialEq, Eq, Structural)]
pub enum ProofsTypeWire {
    Vm,
    Deferral,
    Mix,
    Combined,
}

impl Default for ProofsTypeWire {
    fn default() -> (r: Self)
        ensures
            r == ProofsTypeWire::Vm,
    {
        ProofsTypeWire::Vm
    }
}

impl ProofsTypeWire {
    /// The name shown for the kind.
    pub open spec fn name(self) -> Seq<char> {
        match self {
            ProofsTypeWire::Vm => "Vm"@,
            ProofsTypeWire::Deferral => "Deferral"@,
            ProofsTypeWire::Mix => "Mix"@,
            ProofsTypeWire::Combined => "Combined"@,
        }
    }

    /// The name shown for the kind.
    pub fn label(self) -> (r: &'static str)
        ensures
            r@ == self.name(),
    {
        match self {
            ProofsTypeWire::Vm => "Vm",
            ProofsTypeWire::Deferral => "Deferral",
            ProofsTypeWire::Mix => "Mix",
            ProofsTypeWire::Combined => "Combined",
        }
    }
}

/// EVM prove request: the finished internal proof handed off to an eligible worker,
/// which runs root → halo2.
pub struct EvmProveRequest {
    pub context: ProofContext,
    /// The finished (post-merge) internal proof.
    pub internal_proof_bytes: ProofBytes,
    /// Serialized deferral merkle proofs, where there are any.
    pub deferral_merkle_proofs_bytes: Option<Vec<u8>>,
    /// Whether this proof ran the deferral tail merge.
    pub proof_has_deferral: bool,
}

/// Aggregation prove requests dispatched per step on the worker.
pub enum GeneralProveRequest {
    LeafProve(LeafProveRequest),
    InternalProve(InternalProveRequest),
    /// The EVM step (root → halo2).
    EvmProve(EvmProveRequest),
}

impl GeneralProveRequest {
    /// The step that the request asks for.
    pub open spec fn requested_step(self) -> Step {
        match self {
            GeneralProveRequest::LeafProve(_) => Step::LeafProve,
            GeneralProveRequest::InternalProve(_) => Step::InternalProve,
            GeneralProveRequest::EvmProve(_) => Step::EvmProve,
        }
    }

    pub fn request_details(&self) -> (r: RequestDetails)
        ensures
            r.context.same_as(self.held_context()),
            r.step == self.requested_step(),
    {
        RequestDetails { context: self.context().clone(), step: Step::from(self) }
    }
}

impl From<&GeneralProveRequest> for Step {
    fn from(req: &GeneralProveRequest) -> (r: Self) {
        match req {
            GeneralProveRequest::LeafProve(_) => Step::LeafProve,
            GeneralProveRequest::InternalProve(_) => Step::InternalProve,
            GeneralProveRequest::EvmProve(_) => Step::EvmProve,
        }
    }
}

impl FromSpecImpl<&GeneralProveRequest> for Step {
    open spec fn obeys_from_spec() -> bool {
        true
    }

    open spec fn from_spec(req: &GeneralProveRequest) -> Step {
        req.requested_step()
    }
}

impl WithProofContext for GeneralProveRequest {
    open spec fn held_context(&self) -> ProofContext {
        match self {
            GeneralProveRequest::LeafProve(req) => req.context,
            GeneralProveRequest::InternalProve(req) => req.context,
            GeneralProveRequest::EvmProve(req) => req.context,
        }
    }

    fn context(&self) -> (r: &ProofContext) {
        match self {
            GeneralProveRequest::LeafProve(req) => &req.context,
            GeneralProveRequest::InternalProve(req) => &req.context,
            GeneralProveRequest::EvmProve(req) => &req.context,
        }
    }

    fn proof_uuid(&self) -> (r: &str) {
        self.context().proof_uuid.as_str()
    }
}

/// STARK proving is for full and STARK-only workers, the EVM step for full and dedicated
/// ones.
pub proof fn roles_run_their_steps(role: WorkerRole, stark: bool, evm: bool)
    requires
        call_ensures(WorkerRole::runs_stark_proving, (role,), stark),
        call_ensures(WorkerRole::runs_evm_prove, (role,), evm),
    ensures
        stark <==> role is Full || role is StarkOnly,
        evm <==> role is Full || role is EvmDedicated,
{
}

/// The details of a request are its own context and the step of its kind.
pub proof fn details_are_those_of_the_request(request: &GeneralProveRequest, r: RequestDetails)
    requires
        call_ensures(GeneralProveRequest::request_details, (request,), r),
    ensures
        request is LeafProve ==> r.step is LeafProve && r.context.proof_uuid
            == request->LeafProve_0.context.proof_uuid && r.context.program
            == request->LeafProve_0.context.program && r.context.labels@
            == request->LeafProve_0.context.labels@ && r.context.proof_type
            == request->LeafProve_0.context.proof_type,
        request is InternalProve ==> r.step is InternalProve && r.context.proof_uuid
            == request->InternalProve_0.context.proof_uuid && r.context.program
            == request->InternalProve_0.context.program && r.context.labels@
            == request->InternalProve_0.context.labels@ && r.context.proof_type
            == request->InternalProve_0.context.proof_type,
        request is EvmProve ==> r.step is EvmProve && r.context.proof_uuid
            == request->EvmProve_0.context.proof_uuid && r.context.program
            == request->EvmProve_0.context.program && r.context.labels@
            == request->EvmProve_0.context.labels@ && r.context.proof_type
            == request->EvmProve_0.context.proof_type,
{
}

/// The four kinds of proofs are shown under different names.
pub proof fn kinds_have_different_names(
    a: ProofsTypeWire,
    b: ProofsTypeWire,
    shown_a: &'static str,
    shown_b: &'static str,
)
    requires
        call_ensures(ProofsTypeWire::label, (a,), shown_a),
        call_ensures(ProofsTypeWire::label, (b,), shown_b),
    ensures
        shown_a@ == shown_b@ <==> a == b,
        a is Vm ==> shown_a@ == "Vm"@,
        a is Deferral ==> shown_a@ == "Deferral"@,
        a is Mix ==> shown_a@ == "Mix"@,
        a is Combined ==> shown_a@ == "Combined"@,
{
    reveal_strlit("Vm");
    reveal_strlit("Deferral");
    reveal_strlit("Mix");
    reveal_strlit("Combined");
    assert("Vm"@.len() == 2 && "Deferral"@.len() == 8 && "Mix"@.len() == 3 && "Combined"@[0]
        == 'C' && "Deferral"@[0] == 'D');
}

/// A minimal request names the proof and asks for nothing else.
pub proof fn minimal_requests_name_the_proof(proof_uuid: String, r: StartProofRequest)
    requires
        call_ensures(StartProofRequest::minimal, (proof_uuid,), r),
    ensures
        r.proof_uuid == proof_uuid,
        r.program is None,
        r.labels@ == Map::<String, String>::empty(),
        r.proof_type is Stark,
        !r.input_already_uploaded,
        r.segment_memory is None,
        r.leaf_pack_threshold is None,
        r.timeout_secs is None,
{
}

} // verus!
