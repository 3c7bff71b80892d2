//! Aggregation provers: what a leaf or internal job asks of the circuits, and what
//! it reports.
//!
//! The circuits themselves are handed in. A job is first turned into a plan, which
//! names the circuit, the child key and the proofs in order; the circuits are run as
//! the plan says, and what they came to is turned into the result that is reported.

use vstd::prelude::*;
use vstd::string::*;

use crate::context::ProofContext;
use crate::requests::ProofBytes;
use crate::results::{
    InternalProof, InternalProofState, LeafProof, LeafProofState, ProofResult, SpanMetric,
};
use crate::sdk::{max_num_children_internal, max_num_children_leaf};
use crate::span_timing::{add_metrics, metrics_added};
use crate::text::{decimal, push_usize};

verus! {

/// Result from a prover.
pub enum ProverResult {
    /// Successful proof results (may be multiple for a sharded app prove).
    Success(Vec<ProofResult>),
    /// Error during proving.
    Error(String),
    /// The proof was canceled, so the job stopped at its next segment and has
    /// nothing to report.
    Canceled,
}

/// A proof with the user public values that the terminal segment attached to it.
pub struct ProofWithPublicValue<P, U> {
    pub proof: P,
    pub user_public_values: Option<U>,
}

/// Job for the leaf prover.
pub struct LeafProverJob<P, U> {
    pub context: ProofContext,
    pub app_proofs: Vec<ProofWithPublicValue<P, U>>,
    pub segment_start: usize,
    /// Inclusive end segment index.
    pub segment_end: usize,
}

/// Job for the internal prover.
pub struct InternalProverJob<P, U> {
    pub context: ProofContext,
    pub child_proofs: Vec<ProofWithPublicValue<P, U>>,
    pub layer_idx: usize,
    pub segment_start: usize,
    pub segment_end: usize,
    pub is_final_proof: bool,
    /// Whether this proof carries a deferral tail. Only the final internal proof
    /// consults it.
    pub proof_has_deferral: bool,
}

/// Which key the children of an aggregation were proved under.
#[derive(Debug, Clone, Copy, PartialEq, Eq, Structural)]
pub enum ChildVkKind {
    Standard,
    App,
    RecursiveSelf,
}

/// Which of the two internal circuits runs.
#[derive(Debug, Clone, Copy, PartialEq, Eq, Structural)]
pub enum InternalCircuit {
    /// Aggregates leaf proofs.
    ForLeaf,
    /// Aggregates internal proofs, its own among them.
    Recursive,
}

/// A job that the aggregation provers reject.
#[derive(Debug, Clone, Copy, PartialEq, Eq, Structural)]
pub enum AggregationError {
    NoAppProofs,
    NoChildProofs,
    InvalidSegmentRange { start: usize, end: usize },
    ProofCountMismatch { count: usize, start: usize, end: usize, expected: usize },
    TooManyAppProofs { count: usize, limit: usize },
    TooManyChildProofs { count: usize, limit: usize },
}

impl AggregationError {
    /// The text a reader is shown for the error.
    pub open spec fn text(self) -> Seq<char> {
        match self {
            AggregationError::NoAppProofs => "Cannot aggregate empty app_proofs list"@,
            AggregationError::NoChildProofs => "Cannot aggregate empty child_proofs list"@,
            AggregationError::InvalidSegmentRange { start, end } =>
                "Invalid segment range: start "@ + decimal(start as nat) + " > end "@ + decimal(
                end as nat,
            ),
            AggregationError::ProofCountMismatch { count, start, end, expected } =>
                "Proof count "@ + decimal(count as nat) + " does not match segment range ["@
                + decimal(start as nat) + ", "@ + decimal(end as nat) + "] (expected "@ + decimal(
                expected as nat,
            ) + ")"@,
            AggregationError::TooManyAppProofs { count, limit } => "Too many app proofs: "@
                + decimal(count as nat) + " exceeds MAX_NUM_CHILDREN_LEAF="@ + decimal(
                limit as nat,
            ),
            AggregationError::TooManyChildProofs { count, limit } => "Too many child proofs: "@
                + decimal(count as nat) + " exceeds MAX_NUM_CHILDREN_INTERNAL="@ + decimal(
                limit as nat,
            ),
        }
    }

    /// The text a reader is shown for the error.
    pub fn message(self) -> (r: String)
        ensures
            r@ == self.text(),
    {
        match self {
            AggregationError::NoAppProofs => "Cannot aggregate empty app_proofs list".to_owned(),
            AggregationError::NoChildProofs => "Cannot aggregate empty child_proofs list".to_owned(),
            AggregationError::InvalidSegmentRange { start, end } => {
                let mut out = "Invalid segment range: start ".to_owned();
                push_usize(&mut out, start);
                out.append(" > end ");
                push_usize(&mut out, end);
                out
            },
            AggregationError::ProofCountMismatch { count, start, end, expected } => {
                let mut out = "Proof count ".to_owned();
                push_usize(&mut out, count);
                out.append(" does not match segment range [");
                push_usize(&mut out, start);
                out.append(", ");
                push_usize(&mut out, end);
                out.append("] (expected ");
                push_usize(&mut out, expected);
                out.append(")");
                out
            },
            AggregationError::TooManyAppProofs { count, limit } => {
                let mut out = "Too many app proofs: ".to_owned();
                push_usize(&mut out, count);
                out.append(" exceeds MAX_NUM_CHILDREN_LEAF=");
                push_usize(&mut out, limit);
                out
            },
            AggregationError::TooManyChildProofs { count, limit } => {
                let mut out = "Too many child proofs: ".to_owned();
                push_usize(&mut out, count);
                out.append(" exceeds MAX_NUM_CHILDREN_INTERNAL=");
                push_usize(&mut out, limit);
                out
            },
        }
    }
}

/// Why a leaf job over `count` proofs for the segments `start..=end` is rejected,
/// if it is.
pub open spec fn leaf_rejection(count: usize, start: usize, end: usize) -> Option<
    AggregationError,
> {
    if count == 0 {
        Some(AggregationError::NoAppProofs)
    } else if start > end {
        Some(AggregationError::InvalidSegmentRange { start, end })
    } else if count != end - start + 1 {
        Some(
            AggregationError::ProofCountMismatch {
                count,
                start,
                end,
                expected: (end - start + 1) as usize,
            },
        )
    } else if count > 4 {
        Some(AggregationError::TooManyAppProofs { count, limit: 4 })
    } else {
        None
    }
}

/// Why an internal job over `count` proofs for the segments `start..=end` is
/// rejected, if it is.
pub open spec fn internal_rejection(count: usize, start: usize, end: usize) -> Option<
    AggregationError,
> {
    if count == 0 {
        Some(AggregationError::NoChildProofs)
    } else if start > end {
        Some(AggregationError::InvalidSegmentRange { start, end })
    } else if count > 3 {
        Some(AggregationError::TooManyChildProofs { count, limit: 3 })
    } else {
        None
    }
}

/// Check a leaf job: there are proofs, one for each segment of its range, and no
/// more than the circuit takes.
pub fn validate_leaf_job(count: usize, start: usize, end: usize) -> (r: Result<
    (),
    AggregationError,
>)
    requires
        count > 0 ==> end - start < usize::MAX,
    ensures
        leaf_rejection(count, start, end) is None ==> r is Ok,
        leaf_rejection(count, start, end) matches Some(e) ==> r == Err::<(), AggregationError>(e),
{
    if count == 0 {
        return Err(AggregationError::NoAppProofs);
    }
    if start > end {
        return Err(AggregationError::InvalidSegmentRange { start, end });
    }
    let expected = end - start + 1;
    if count != expected {
        return Err(AggregationError::ProofCountMismatch { count, start, end, expected });
    }
    let limit = max_num_children_leaf();
    if count > limit {
        return Err(AggregationError::TooManyAppProofs { count, limit });
    }
    Ok(())
}

/// Check an internal job: there are proofs, its range is one, and there are no more
/// proofs than the circuit takes.
pub fn validate_internal_job(count: usize, start: usize, end: usize) -> (r: Result<
    (),
    AggregationError,
>)
    ensures
        internal_rejection(count, start, end) is None ==> r is Ok,
        internal_rejection(count, start, end) matches Some(e) ==> r == Err::<(), AggregationError>(
            e,
        ),
{
    if count == 0 {
        return Err(AggregationError::NoChildProofs);
    }
    if start > end {
        return Err(AggregationError::InvalidSegmentRange { start, end });
    }
    let limit = max_num_children_internal();
    if count > limit {
        return Err(AggregationError::TooManyChildProofs { count, limit });
    }
    Ok(())
}

/// The bare proofs, in order.
pub open spec fn bare_proofs<P, U>(proofs: Seq<ProofWithPublicValue<P, U>>) -> Seq<P> {
    Seq::new(proofs.len(), |i: int| proofs[i].proof)
}

/// The user public values of the last proof that has any.
pub open spec fn last_public_values<P, U>(proofs: Seq<ProofWithPublicValue<P, U>>) -> Option<U>
    decreases proofs.len(),
{
    if proofs.len() == 0 {
        None
    } else if proofs.last().user_public_values is Some {
        proofs.last().user_public_values
    } else {
        last_public_values(proofs.drop_last())
    }
}

/// What a leaf aggregation runs on.
pub struct LeafPlan<P, U> {
    pub context: ProofContext,
    /// The app proofs, in segment order.
    pub proofs: Vec<P>,
    /// The children are app proofs.
    pub child_vk_kind: ChildVkKind,
    /// Taken from the last app proof: only the terminal segment has any.
    pub user_public_values: Option<U>,
    pub segment_start: usize,
    pub segment_end: usize,
}

/// Whether a leaf job has proofs, and a range with more segments than can be counted.
pub open spec fn spans_too_much<P, U>(job: LeafProverJob<P, U>) -> bool {
    job.app_proofs@.len() > 0 && job.segment_end - job.segment_start == usize::MAX
}

/// Whether a leaf job cannot be checked at all, because its range cannot be counted.
pub fn is_uncountable<P, U>(job: &LeafProverJob<P, U>) -> (r: bool)
    ensures
        r == spans_too_much(*job),
{
    job.app_proofs.len() > 0 && job.segment_start == 0 && job.segment_end == usize::MAX
}

/// Check a leaf job and lay out its aggregation.
pub fn plan_leaf<P, U>(job: LeafProverJob<P, U>) -> (r: Result<LeafPlan<P, U>, AggregationError>)
    requires
        !spans_too_much(job),
    ensures
        leaf_rejection(job.app_proofs@.len() as usize, job.segment_start, job.segment_end) matches Some(
            e,
        ) ==> r is Err && r->Err_0 == e,
        leaf_rejection(job.app_proofs@.len() as usize, job.segment_start, job.segment_end) is None
            ==> r is Ok && {
            let plan = r->Ok_0;
            &&& plan.context == job.context
            &&& plan.proofs@ == bare_proofs(job.app_proofs@)
            &&& plan.child_vk_kind == ChildVkKind::App
            &&& plan.user_public_values == job.app_proofs@.last().user_public_values
            &&& plan.segment_start == job.segment_start
            &&& plan.segment_end == job.segment_end
        },
{
    let mut rest = job.app_proofs;
    let ghost all = rest@;
    match validate_leaf_job(rest.len(), job.segment_start, job.segment_end) {
        Err(e) => return Err(e),
        Ok(()) => {},
    }
    let mut proofs: Vec<P> = Vec::new();
    let mut user_public_values: Option<U> = None;
    assert(all.skip(0) =~= all);
    while rest.len() > 0
        invariant
            proofs@.len() <= all.len(),
            rest@ == all.skip(proofs@.len() as int),
            forall|i: int| 0 <= i < proofs@.len() ==> #[trigger] proofs@[i] == all[i].proof,
            proofs@.len() > 0 ==> user_public_values == all[proofs@.len()
                - 1].user_public_values,
        decreases rest@.len(),
    {
        let ghost k = proofs@.len() as int;
        let next = rest.remove(0);
        assert(next == all[k]);
        assert(rest@ =~= all.skip(k + 1));
        proofs.push(next.proof);
        user_public_values = next.user_public_values;
    }
    assert(proofs@ =~= bare_proofs(all));
    Ok(
        LeafPlan {
            context: job.context,
            proofs,
            child_vk_kind: ChildVkKind::App,
            user_public_values,
            segment_start: job.segment_start,
            segment_end: job.segment_end,
        },
    )
}

/// What a leaf aggregation came to.
pub struct LeafRun {
    /// The encoded proof, or what went wrong.
    pub encoded: Result<ProofBytes, String>,
    pub prove_time_ms: u64,
    pub sub_metrics: Vec<SpanMetric>,
}

/// Whether `r` reports `run` for the segments `start..=end`: the encoded proof, or the
/// text of what went wrong.
pub open spec fn reports_leaf(
    context: ProofContext,
    start: usize,
    end: usize,
    run: LeafRun,
    r: ProverResult,
) -> bool {
    match run.encoded {
        Err(e) => r is Error && r->Error_0@ == "Leaf prove failed: "@ + e@,
        Ok(proof) => r is Success && r->Success_0@ == seq![
            ProofResult::Leaf(
                LeafProof {
                    context,
                    state: LeafProofState {
                        proof: Some(proof),
                        segment_start: start,
                        segment_end: end,
                        prove_time_ms: run.prove_time_ms,
                        sub_metrics: run.sub_metrics,
                        worker_id: 0,
                        completed_at_ms: 0,
                    },
                },
            ),
        ],
    }
}

/// Turn the outcome of a leaf aggregation into what is reported.
pub fn finish_leaf(
    context: ProofContext,
    segment_start: usize,
    segment_end: usize,
    run: LeafRun,
) -> (r: ProverResult)
    ensures
        reports_leaf(context, segment_start, segment_end, run, r),
{
    match run.encoded {
        Err(e) => ProverResult::Error(leaf_failure(e.as_str())),
        Ok(proof) => {
            let state = LeafProofState {
                proof: Some(proof),
                segment_start,
                segment_end,
                prove_time_ms: run.prove_time_ms,
                sub_metrics: run.sub_metrics,
                worker_id: 0,
                completed_at_ms: 0,
            };
            let mut results: Vec<ProofResult> = Vec::new();
            results.push(ProofResult::Leaf(LeafProof { context, state }));
            ProverResult::Success(results)
        },
    }
}

/// The text reported for a failed leaf job.
pub fn leaf_failure(e: &str) -> (r: String)
    ensures
        r@ == "Leaf prove failed: "@ + e@,
{
    let mut out = "Leaf prove failed: ".to_owned();
    out.append(e);
    out
}

/// Run a leaf job: check it, aggregate its proofs with `aggregate`, and report. The
/// aggregation is handed the proofs in order, the kind of their key, and the user
/// public values to attach.
pub fn prove_leaf_with_prover<P, U, A: FnOnce(Vec<P>, ChildVkKind, Option<U>) -> LeafRun>(
    job: LeafProverJob<P, U>,
    aggregate: A,
) -> (r: ProverResult)
    requires
        !spans_too_much(job),
        forall|proofs: Vec<P>, kind: ChildVkKind, values: Option<U>| #[trigger]
            call_requires(aggregate, (proofs, kind, values)),
    ensures
        leaf_rejection(job.app_proofs@.len() as usize, job.segment_start, job.segment_end) matches Some(
            e,
        ) ==> r is Error && r->Error_0@ == "Leaf prove failed: "@ + e.text(),
        leaf_rejection(job.app_proofs@.len() as usize, job.segment_start, job.segment_end) is None
            ==> exists|proofs: Vec<P>, run: LeafRun| #[trigger]
            call_ensures(
                aggregate,
                (proofs, ChildVkKind::App, job.app_proofs@.last().user_public_values),
                run,
            ) && proofs@ == bare_proofs(job.app_proofs@) && reports_leaf(
                job.context,
                job.segment_start,
                job.segment_end,
                run,
                r,
            ),
{
    match plan_leaf(job) {
        Err(e) => {
            let text = e.message();
            ProverResult::Error(leaf_failure(text.as_str()))
        },
        Ok(plan) => {
            let ghost proofs = plan.proofs;
            let run = aggregate(plan.proofs, plan.child_vk_kind, plan.user_public_values);
            let ghost seen = run;
            assert(call_ensures(
                aggregate,
                (proofs, ChildVkKind::App, job.app_proofs@.last().user_public_values),
                seen,
            ));
            finish_leaf(plan.context, plan.segment_start, plan.segment_end, run)
        },
    }
}

/// The circuit that proves layer `layer_idx`.
pub open spec fn layer_circuit(layer_idx: usize) -> InternalCircuit {
    if layer_idx == 0 {
        InternalCircuit::ForLeaf
    } else {
        InternalCircuit::Recursive
    }
}

/// The key the children of layer `layer_idx` were proved under. The children of
/// layer 0 are leaf proofs and those of layer 1 come from the leaf-aggregating
/// circuit; above that they come from the recursive circuit itself.
pub open spec fn layer_child_kind(layer_idx: usize) -> ChildVkKind {
    if layer_idx < 2 {
        ChildVkKind::Standard
    } else {
        ChildVkKind::RecursiveSelf
    }
}

/// What an internal aggregation runs on.
pub struct InternalPlan<P, U> {
    pub context: ProofContext,
    /// The child proofs, in order.
    pub proofs: Vec<P>,
    pub circuit: InternalCircuit,
    pub child_vk_kind: ChildVkKind,
    /// Whether the aggregated proof is wrapped once more in the recursive circuit.
    pub wrap: bool,
    /// Propagated from the terminal segment.
    pub user_public_values: Option<U>,
    pub layer_idx: usize,
    pub segment_start: usize,
    pub segment_end: usize,
}

/// Whether the aggregated proof of a job is wrapped once more in the recursive circuit.
///
/// The final proof is, unless it carries a deferral tail: the tail merge then supplies
/// the wrap.
pub open spec fn is_wrapped<P, U>(job: InternalProverJob<P, U>) -> bool {
    job.is_final_proof && !job.proof_has_deferral
}

/// Whether a job passes its checks but is to be wrapped at layer 0, below which there
/// is no recursive proof that could be.
pub open spec fn wraps_layer_zero<P, U>(job: InternalProverJob<P, U>) -> bool {
    &&& internal_rejection(
        job.child_proofs@.len() as usize,
        job.segment_start,
        job.segment_end,
    ) is None
    &&& is_wrapped(job)
    &&& job.layer_idx == 0
}

/// Whether an internal job cannot be run at all, because it is to be wrapped at layer 0.
pub fn is_misplaced<P, U>(job: &InternalProverJob<P, U>) -> (r: bool)
    ensures
        r == wraps_layer_zero(*job),
{
    let checked = validate_internal_job(
        job.child_proofs.len(),
        job.segment_start,
        job.segment_end,
    );
    match checked {
        Ok(()) => job.is_final_proof && !job.proof_has_deferral && job.layer_idx == 0,
        Err(_) => false,
    }
}

/// Check an internal job and lay out its aggregation.
pub fn plan_internal<P, U>(job: InternalProverJob<P, U>) -> (r: Result<
    InternalPlan<P, U>,
    AggregationError,
>)
    requires
        !wraps_layer_zero(job),
    ensures
        internal_rejection(
            job.child_proofs@.len() as usize,
            job.segment_start,
            job.segment_end,
        ) matches Some(e) ==> r is Err && r->Err_0 == e,
        internal_rejection(job.child_proofs@.len() as usize, job.segment_start, job.segment_end) is None
            ==> r is Ok && is_internal_plan(job, r->Ok_0),
{
    let mut rest = job.child_proofs;
    let ghost all = rest@;
    match validate_internal_job(rest.len(), job.segment_start, job.segment_end) {
        Err(e) => return Err(e),
        Ok(()) => {},
    }
    let mut proofs: Vec<P> = Vec::new();
    let mut user_public_values: Option<U> = None;
    assert(all.skip(0) =~= all);
    while rest.len() > 0
        invariant
            proofs@.len() <= all.len(),
            rest@ == all.skip(proofs@.len() as int),
            forall|i: int| 0 <= i < proofs@.len() ==> #[trigger] proofs@[i] == all[i].proof,
            user_public_values == last_public_values(all.take(proofs@.len() as int)),
        decreases rest@.len(),
    {
        let ghost k = proofs@.len() as int;
        let next = rest.remove(0);
        assert(next == all[k]);
        assert(rest@ =~= all.skip(k + 1));
        assert(all.take(k + 1).drop_last() =~= all.take(k));
        assert(all.take(k + 1).last() == next);
        proofs.push(next.proof);
        if next.user_public_values.is_some() {
            user_public_values = next.user_public_values;
        }
    }
    assert(proofs@ =~= bare_proofs(all));
    assert(all.take(all.len() as int) =~= all);
    let circuit = if job.layer_idx == 0 {
        InternalCircuit::ForLeaf
    } else {
        InternalCircuit::Recursive
    };
    let child_vk_kind = if job.layer_idx < 2 {
        ChildVkKind::Standard
    } else {
        ChildVkKind::RecursiveSelf
    };
    Ok(
        InternalPlan {
            context: job.context,
            proofs,
            circuit,
            child_vk_kind,
            wrap: job.is_final_proof && !job.proof_has_deferral,
            user_public_values,
            layer_idx: job.layer_idx,
            segment_start: job.segment_start,
            segment_end: job.segment_end,
        },
    )
}

/// Timings of the wrap of a final proof.
pub struct WrapTimings {
    pub wrap_time_ms: u64,
    pub sub_metrics: Vec<SpanMetric>,
}

/// What an internal aggregation came to.
pub struct InternalRun {
    /// The encoded proof, or what went wrong.
    pub encoded: Result<ProofBytes, String>,
    pub prove_time_ms: u64,
    pub sub_metrics: Vec<SpanMetric>,
    /// The timings of the wrap, where one ran.
    pub wrap: Option<WrapTimings>,
}

/// Whether `r` reports `run` for the segments `start..=end` of a layer, where `plus`
/// sums two durations.
///
/// The proof reported is the raw internal one: it carries no deferral merkle proofs
/// and is not ready for the EVM step.
pub open spec fn reports_internal<F: Fn(u64, u64) -> u64>(
    context: ProofContext,
    layer_idx: usize,
    start: usize,
    end: usize,
    run: InternalRun,
    plus: F,
    r: ProverResult,
) -> bool {
    match run.encoded {
        Err(e) => r is Error && r->Error_0@ == "Internal prove failed: "@ + e@,
        Ok(proof) => {
            &&& r is Success
            &&& r->Success_0@.len() == 1
            &&& r->Success_0@[0] matches ProofResult::Internal(p)
            &&& p.context == context
            &&& p.state.proof == Some(proof)
            &&& p.state.layer_idx == layer_idx
            &&& p.state.segment_start == start
            &&& p.state.segment_end == end
            &&& p.state.prove_time_ms == run.prove_time_ms
            &&& p.state.deferral_merkle_proofs_bytes is None
            &&& !p.state.ready_for_evm
            &&& p.state.worker_id == 0
            &&& p.state.completed_at_ms == 0
            &&& run.wrap is None ==> p.state.compression_time_ms == 0 && p.state.sub_metrics@
                == run.sub_metrics@ && p.state.wrap_sub_metrics@.len() == 0
            &&& run.wrap matches Some(w) ==> p.state.compression_time_ms == w.wrap_time_ms
                && p.state.wrap_sub_metrics == w.sub_metrics && metrics_added(
                run.sub_metrics@,
                w.sub_metrics@,
                plus,
                p.state.sub_metrics@,
            )
        },
    }
}

/// Turn the outcome of an internal aggregation into what is reported.
pub fn finish_internal<F: Fn(u64, u64) -> u64>(
    context: ProofContext,
    layer_idx: usize,
    segment_start: usize,
    segment_end: usize,
    run: InternalRun,
    plus: F,
) -> (r: ProverResult)
    requires
        forall|x: u64, y: u64| #[trigger] call_requires(plus, (x, y)),
    ensures
        reports_internal(context, layer_idx, segment_start, segment_end, run, plus, r),
{
    let proof = match run.encoded {
        Err(e) => return ProverResult::Error(internal_failure(e.as_str())),
        Ok(proof) => proof,
    };
    let (compression_time_ms, sub_metrics, wrap_sub_metrics) = match run.wrap {
        None => (0u64, run.sub_metrics, Vec::new()),
        Some(w) => {
            let merged = add_metrics(run.sub_metrics, &w.sub_metrics, plus);
            (w.wrap_time_ms, merged, w.sub_metrics)
        },
    };
    let state = InternalProofState {
        proof: Some(proof),
        layer_idx,
        segment_start,
        segment_end,
        prove_time_ms: run.prove_time_ms,
        compression_time_ms,
        sub_metrics,
        wrap_sub_metrics,
        deferral_merkle_proofs_bytes: None,
        ready_for_evm: false,
        worker_id: 0,
        completed_at_ms: 0,
    };
    let mut results: Vec<ProofResult> = Vec::new();
    results.push(ProofResult::Internal(InternalProof { context, state }));
    ProverResult::Success(results)
}

/// The text reported for a failed internal job.
pub fn internal_failure(e: &str) -> (r: String)
    ensures
        r@ == "Internal prove failed: "@ + e@,
{
    let mut out = "Internal prove failed: ".to_owned();
    out.append(e);
    out
}

/// Whether `plan` is the aggregation that `job` asks for.
pub open spec fn is_internal_plan<P, U>(
    job: InternalProverJob<P, U>,
    plan: InternalPlan<P, U>,
) -> bool {
    &&& plan.context == job.context
    &&& plan.proofs@ == bare_proofs(job.child_proofs@)
    &&& plan.circuit == layer_circuit(job.layer_idx)
    &&& plan.child_vk_kind == layer_child_kind(job.layer_idx)
    &&& plan.wrap == is_wrapped(job)
    &&& plan.user_public_values == last_public_values(job.child_proofs@)
    &&& plan.layer_idx == job.layer_idx
    &&& plan.segment_start == job.segment_start
    &&& plan.segment_end == job.segment_end
}

/// What one run of a circuit came to.
pub struct Aggregation<P> {
    /// The proof, or what went wrong.
    pub proof: Result<P, String>,
    pub time_ms: u64,
    pub sub_metrics: Vec<SpanMetric>,
}

/// Whether `encoded` is what `encode` makes of the last proof of a job, with the user
/// public values of the last child that has any; or the failure to make that proof.
pub open spec fn encodes_proof<
    P,
    U,
    E: FnOnce(ProofWithPublicValue<P, U>) -> Result<ProofBytes, String>,
>(
    job: InternalProverJob<P, U>,
    last: Result<P, String>,
    encode: E,
    encoded: Result<ProofBytes, String>,
) -> bool {
    match last {
        Err(e) => encoded == Err::<ProofBytes, String>(e),
        Ok(last) => call_ensures(
            encode,
            (ProofWithPublicValue {
                proof: last,
                user_public_values: last_public_values(job.child_proofs@),
            },),
            encoded,
        ),
    }
}

/// Whether `run` is what the circuits came to in a job whose aggregation came to
/// `first`. Only the proof of a job that is wrapped goes through the recursive circuit
/// once more, alone and under that circuit's own key.
pub open spec fn follows_aggregation<
    P,
    U,
    A: Fn(InternalCircuit, &Vec<P>, ChildVkKind) -> Aggregation<P>,
    E: FnOnce(ProofWithPublicValue<P, U>) -> Result<ProofBytes, String>,
>(
    job: InternalProverJob<P, U>,
    first: Aggregation<P>,
    aggregate: A,
    encode: E,
    run: InternalRun,
) -> bool {
    &&& run.prove_time_ms == first.time_ms
    &&& run.sub_metrics == first.sub_metrics
    &&& if first.proof is Ok && is_wrapped(job) {
        exists|inner: Vec<P>, second: Aggregation<P>|
            {
                &&& inner@ == seq![first.proof->Ok_0]
                &&& #[trigger] call_ensures(
                    aggregate,
                    (InternalCircuit::Recursive, &inner, ChildVkKind::RecursiveSelf),
                    second,
                )
                &&& run.wrap == Some(
                    WrapTimings {
                        wrap_time_ms: second.time_ms,
                        sub_metrics: second.sub_metrics,
                    },
                )
                &&& encodes_proof(job, second.proof, encode, run.encoded)
            }
    } else {
        run.wrap is None && encodes_proof(job, first.proof, encode, run.encoded)
    }
}

/// Whether `run` is what the circuits came to in a job that passed its checks: its
/// proofs are aggregated, in order, in the circuit and under the key of its layer.
pub open spec fn runs_circuits<
    P,
    U,
    A: Fn(InternalCircuit, &Vec<P>, ChildVkKind) -> Aggregation<P>,
    E: FnOnce(ProofWithPublicValue<P, U>) -> Result<ProofBytes, String>,
>(job: InternalProverJob<P, U>, aggregate: A, encode: E, run: InternalRun) -> bool {
    exists|proofs: Vec<P>, first: Aggregation<P>|
        {
            &&& proofs@ == bare_proofs(job.child_proofs@)
            &&& #[trigger] call_ensures(
                aggregate,
                (layer_circuit(job.layer_idx), &proofs, layer_child_kind(job.layer_idx)),
                first,
            )
            &&& follows_aggregation(job, first, aggregate, encode, run)
        }
}

/// Run an internal job: check it, aggregate its proofs, wrap the final one, encode it
/// and report. `aggregate` runs a circuit on proofs whose key is of the given kind,
/// `encode` gives the last proof its wire form, and `plus` sums two durations.
pub fn prove_internal_with_prover<
    P,
    U,
    A: Fn(InternalCircuit, &Vec<P>, ChildVkKind) -> Aggregation<P>,
    E: FnOnce(ProofWithPublicValue<P, U>) -> Result<ProofBytes, String>,
    F: Fn(u64, u64) -> u64,
>(job: InternalProverJob<P, U>, aggregate: A, encode: E, plus: F) -> (r: ProverResult)
    requires
        !wraps_layer_zero(job),
        forall|circuit: InternalCircuit, proofs: &Vec<P>, kind: ChildVkKind| #[trigger]
            call_requires(aggregate, (circuit, proofs, kind)),
        forall|proof: ProofWithPublicValue<P, U>| #[trigger] call_requires(encode, (proof,)),
        forall|x: u64, y: u64| #[trigger] call_requires(plus, (x, y)),
    ensures
        internal_rejection(
            job.child_proofs@.len() as usize,
            job.segment_start,
            job.segment_end,
        ) matches Some(e) ==> r is Error && r->Error_0@ == "Internal prove failed: "@ + e.text(),
        internal_rejection(job.child_proofs@.len() as usize, job.segment_start, job.segment_end) is None
            ==> exists|run: InternalRun| #[trigger]
            runs_circuits(job, aggregate, encode, run) && reports_internal(
                job.context,
                job.layer_idx,
                job.segment_start,
                job.segment_end,
                run,
                plus,
                r,
            ),
        r is Success && !is_wrapped(job) ==> r->Success_0@[0]->Internal_0.state.compression_time_ms
            == 0 && r->Success_0@[0]->Internal_0.state.wrap_sub_metrics@.len() == 0,
{
    let ghost asked = job;
    let plan = match plan_internal(job) {
        Err(e) => {
            let text = e.message();
            return ProverResult::Error(internal_failure(text.as_str()));
        },
        Ok(plan) => plan,
    };
    let first = aggregate(plan.circuit, &plan.proofs, plan.child_vk_kind);
    let ghost made = first;
    let ghost proofs = plan.proofs;
    assert(call_ensures(
        aggregate,
        (layer_circuit(asked.layer_idx), &proofs, layer_child_kind(asked.layer_idx)),
        made,
    ));
    let user_public_values = plan.user_public_values;
    let (encoded, wrap) = match first.proof {
        Err(e) => (Err(e), None),
        Ok(proof) => {
            if plan.wrap {
                let inner = vec![proof];
                let second = aggregate(
                    InternalCircuit::Recursive,
                    &inner,
                    ChildVkKind::RecursiveSelf,
                );
                let ghost wrapped = second;
                assert(inner@ =~= seq![made.proof->Ok_0]);
                assert(call_ensures(
                    aggregate,
                    (InternalCircuit::Recursive, &inner, ChildVkKind::RecursiveSelf),
                    wrapped,
                ));
                let timings = WrapTimings {
                    wrap_time_ms: second.time_ms,
                    sub_metrics: second.sub_metrics,
                };
                match second.proof {
                    Err(e) => (Err(e), Some(timings)),
                    Ok(proof) => (
                        encode(ProofWithPublicValue { proof, user_public_values }),
                        Some(timings),
                    ),
                }
            } else {
                (encode(ProofWithPublicValue { proof, user_public_values }), None)
            }
        },
    };
    let run = InternalRun {
        encoded,
        prove_time_ms: first.time_ms,
        sub_metrics: first.sub_metrics,
        wrap,
    };
    assert(follows_aggregation(asked, made, aggregate, encode, run));
    assert(runs_circuits(asked, aggregate, encode, run));
    finish_internal(plan.context, plan.layer_idx, plan.segment_start, plan.segment_end, run, plus)
}

/// An aggregation job that is accepted has as many proofs as the circuit takes at
/// most, and a leaf job exactly one for each segment of its range.
pub proof fn accepted_jobs_fit_the_circuits(count: usize, start: usize, end: usize)
    ensures
        leaf_rejection(count, start, end) is None ==> 1 <= count <= 4 && start <= end && count
            == end - start + 1,
        internal_rejection(count, start, end) is None ==> 1 <= count <= 3 && start <= end,
{
}

/// A leaf job is accepted exactly if it has one proof for each segment of its range, both
/// ends of which belong to it, and no more than four.
pub proof fn leaf_jobs_are_accepted(
    count: usize,
    start: usize,
    end: usize,
    r: Result<(), AggregationError>,
)
    requires
        call_ensures(validate_leaf_job, (count, start, end), r),
    ensures
        r is Ok <==> 1 <= count <= 4 && start <= end && count == end - start + 1,
        count == 0 ==> r == Err::<(), AggregationError>(AggregationError::NoAppProofs),
        count > 0 && start > end ==> r == Err::<(), AggregationError>(
            AggregationError::InvalidSegmentRange { start, end },
        ),
        r is Err && count > 0 && start <= end ==> match r->Err_0 {
            AggregationError::ProofCountMismatch { count: c, start: s, end: e, expected } => c
                == count && s == start && e == end && count != end - start + 1 && (end - start
                < usize::MAX ==> expected == end - start + 1),
            AggregationError::TooManyAppProofs { count: c, limit } => c == count && limit == 4
                && count == end - start + 1,
            _ => false,
        },
{
}

/// An internal job is accepted exactly if it has from one to three proofs and its range
/// is one.
pub proof fn internal_jobs_are_accepted(
    count: usize,
    start: usize,
    end: usize,
    r: Result<(), AggregationError>,
)
    requires
        call_ensures(validate_internal_job, (count, start, end), r),
    ensures
        r is Ok <==> 1 <= count <= 3 && start <= end,
        count == 0 ==> r == Err::<(), AggregationError>(AggregationError::NoChildProofs),
        count > 0 && start > end ==> r == Err::<(), AggregationError>(
            AggregationError::InvalidSegmentRange { start, end },
        ),
        count > 3 && start <= end ==> r == Err::<(), AggregationError>(
            AggregationError::TooManyChildProofs { count, limit: 3 },
        ),
{
}

/// The values of the last proof that has any are those of `proofs[k]`, if none after it
/// has any.
proof fn last_values_are_at<P, U>(proofs: Seq<ProofWithPublicValue<P, U>>, k: int)
    requires
        0 <= k < proofs.len(),
        proofs[k].user_public_values is Some,
        forall|i: int| k < i < proofs.len() ==> (#[trigger] proofs[i]).user_public_values is None,
    ensures
        last_public_values(proofs) == proofs[k].user_public_values,
    decreases proofs.len(),
{
    if k < proofs.len() - 1 {
        assert(proofs.last() == proofs[proofs.len() - 1]);
        assert forall|i: int| k < i < proofs.drop_last().len() implies (
        #[trigger] proofs.drop_last()[i]).user_public_values is None by {
            assert(proofs.drop_last()[i] == proofs[i]);
        }
        last_values_are_at(proofs.drop_last(), k);
    }
}

proof fn no_values_without_a_holder<P, U>(proofs: Seq<ProofWithPublicValue<P, U>>)
    requires
        forall|i: int|
            0 <= i < proofs.len() ==> (#[trigger] proofs[i]).user_public_values is None,
    ensures
        last_public_values(proofs) is None,
    decreases proofs.len(),
{
    if proofs.len() > 0 {
        assert(proofs.last() == proofs[proofs.len() - 1]);
        assert forall|i: int| 0 <= i < proofs.drop_last().len() implies (
        #[trigger] proofs.drop_last()[i]).user_public_values is None by {
            assert(proofs.drop_last()[i] == proofs[i]);
        }
        no_values_without_a_holder(proofs.drop_last());
    }
}

/// An internal job takes its user public values from the last child that has any, so from
/// the last child if that one does; it has none exactly if no child has any. The proofs
/// of all children are aggregated, in order, in the circuit of their layer.
pub proof fn internal_plans_follow_the_children<P, U>(
    job: InternalProverJob<P, U>,
    plan: InternalPlan<P, U>,
)
    requires
        call_ensures(
            plan_internal::<P, U>,
            (job,),
            Ok::<InternalPlan<P, U>, AggregationError>(plan),
        ),
    ensures
        forall|k: int|
            0 <= k < job.child_proofs@.len() && (
            #[trigger] job.child_proofs@[k]).user_public_values is Some && (forall|i: int|
                k < i < job.child_proofs@.len() ==> (
                #[trigger] job.child_proofs@[i]).user_public_values is None)
                ==> plan.user_public_values == job.child_proofs@[k].user_public_values,
        plan.user_public_values is None <==> forall|i: int|
            0 <= i < job.child_proofs@.len() ==> (
            #[trigger] job.child_proofs@[i]).user_public_values is None,
        plan.proofs@.len() == job.child_proofs@.len(),
        forall|i: int|
            0 <= i < job.child_proofs@.len() ==> #[trigger] plan.proofs@[i]
                == job.child_proofs@[i].proof,
        job.layer_idx == 0 ==> plan.circuit == InternalCircuit::ForLeaf && plan.child_vk_kind
            == ChildVkKind::Standard,
        job.layer_idx == 1 ==> plan.circuit == InternalCircuit::Recursive && plan.child_vk_kind
            == ChildVkKind::Standard,
        job.layer_idx >= 2 ==> plan.circuit == InternalCircuit::Recursive && plan.child_vk_kind
            == ChildVkKind::RecursiveSelf,
        plan.wrap <==> job.is_final_proof && !job.proof_has_deferral,
        plan.context == job.context,
        plan.layer_idx == job.layer_idx,
        plan.segment_start == job.segment_start,
        plan.segment_end == job.segment_end,
        1 <= job.child_proofs@.len() <= 3,
        job.segment_start <= job.segment_end,
{
    let children = job.child_proofs@;
    assert(children.len() == job.child_proofs.len());
    assert forall|k: int|
        0 <= k < children.len() && (#[trigger] children[k]).user_public_values is Some && (
        forall|i: int|
            k < i < children.len() ==> (
            #[trigger] children[i]).user_public_values is None) implies plan.user_public_values
        == children[k].user_public_values by {
        last_values_are_at(children, k);
    }
    if forall|i: int| 0 <= i < children.len() ==> (
    #[trigger] children[i]).user_public_values is None {
        no_values_without_a_holder(children);
    } else {
        let k = last_holder(children);
        last_values_are_at(children, k);
    }
}

/// The place of the last proof that has values, where one has.
proof fn last_holder<P, U>(proofs: Seq<ProofWithPublicValue<P, U>>) -> (k: int)
    requires
        exists|i: int| 0 <= i < proofs.len() && (#[trigger] proofs[i]).user_public_values is Some,
    ensures
        0 <= k < proofs.len(),
        proofs[k].user_public_values is Some,
        forall|i: int| k < i < proofs.len() ==> (#[trigger] proofs[i]).user_public_values is None,
    decreases proofs.len(),
{
    if proofs.last().user_public_values is Some {
        proofs.len() - 1
    } else {
        let i = choose|i: int|
            0 <= i < proofs.len() && (#[trigger] proofs[i]).user_public_values is Some;
        assert(proofs.drop_last()[i] == proofs[i]);
        let k = last_holder(proofs.drop_last());
        assert forall|i: int| k < i < proofs.len() implies (
        #[trigger] proofs[i]).user_public_values is None by {
            if i < proofs.len() - 1 {
                assert(proofs.drop_last()[i] == proofs[i]);
            }
        }
        k
    }
}

/// A leaf job that has one proof for each segment of its range, and no more than four, is
/// laid out as it came: its proofs in order, under the key of app proofs, with the user
/// public values of its last proof, whatever the others hold.
pub proof fn leaf_plans_follow_the_proofs<P, U>(
    job: LeafProverJob<P, U>,
    r: Result<LeafPlan<P, U>, AggregationError>,
)
    requires
        call_ensures(plan_leaf::<P, U>, (job,), r),
    ensures
        r is Ok <==> 1 <= job.app_proofs@.len() <= 4 && job.segment_start <= job.segment_end
            && job.app_proofs@.len() == job.segment_end - job.segment_start + 1,
        r is Ok ==> {
            let plan = r->Ok_0;
            &&& plan.proofs@.len() == job.app_proofs@.len()
            &&& forall|i: int|
                0 <= i < job.app_proofs@.len() ==> #[trigger] plan.proofs@[i]
                    == job.app_proofs@[i].proof
            &&& plan.child_vk_kind == ChildVkKind::App
            &&& plan.user_public_values == job.app_proofs@[job.app_proofs@.len()
                - 1].user_public_values
            &&& plan.context == job.context
            &&& plan.segment_start == job.segment_start
            &&& plan.segment_end == job.segment_end
        },
{
    assert(job.app_proofs@.len() == job.app_proofs.len());
}

/// A leaf job is reported by one leaf proof of its range, with the bytes and the time that
/// its aggregation gave; where the aggregation failed, by what it failed of.
pub proof fn leaf_outcomes_are_reported(
    context: ProofContext,
    start: usize,
    end: usize,
    run: LeafRun,
    r: ProverResult,
)
    requires
        call_ensures(finish_leaf, (context, start, end, run), r),
    ensures
        run.encoded is Err ==> r is Error && r->Error_0@ == "Leaf prove failed: "@
            + run.encoded->Err_0@,
        run.encoded is Ok ==> {
            &&& r is Success
            &&& r->Success_0@.len() == 1
            &&& r->Success_0@[0] is Leaf
            &&& r->Success_0@[0]->Leaf_0.context == context
            &&& r->Success_0@[0]->Leaf_0.state.proof == Some(run.encoded->Ok_0)
            &&& r->Success_0@[0]->Leaf_0.state.segment_start == start
            &&& r->Success_0@[0]->Leaf_0.state.segment_end == end
            &&& r->Success_0@[0]->Leaf_0.state.prove_time_ms == run.prove_time_ms
            &&& r->Success_0@[0]->Leaf_0.state.sub_metrics == run.sub_metrics
            &&& r->Success_0@[0]->Leaf_0.state.worker_id == 0
            &&& r->Success_0@[0]->Leaf_0.state.completed_at_ms == 0
        },
{
}

/// A leaf job that is accepted has its proofs aggregated, in order and with the values of
/// the last, and reports what that came to; another fails.
pub proof fn leaf_jobs_are_proved<P, U, A: FnOnce(Vec<P>, ChildVkKind, Option<U>) -> LeafRun>(
    job: LeafProverJob<P, U>,
    aggregate: A,
    r: ProverResult,
)
    requires
        call_ensures(prove_leaf_with_prover::<P, U, A>, (job, aggregate), r),
    ensures
        !(1 <= job.app_proofs@.len() <= 4 && job.segment_start <= job.segment_end
            && job.app_proofs@.len() == job.segment_end - job.segment_start + 1) ==> r is Error,
        1 <= job.app_proofs@.len() <= 4 && job.segment_start <= job.segment_end
            && job.app_proofs@.len() == job.segment_end - job.segment_start + 1
            ==> exists|proofs: Vec<P>, run: LeafRun|
            {
                &&& #[trigger] call_ensures(
                    aggregate,
                    (
                        proofs,
                        ChildVkKind::App,
                        job.app_proofs@[job.app_proofs@.len() - 1].user_public_values,
                    ),
                    run,
                )
                &&& proofs@.len() == job.app_proofs@.len()
                &&& forall|i: int|
                    0 <= i < job.app_proofs@.len() ==> #[trigger] proofs@[i]
                        == job.app_proofs@[i].proof
                &&& run.encoded is Err ==> r is Error && r->Error_0@ == "Leaf prove failed: "@
                    + run.encoded->Err_0@
                &&& run.encoded is Ok ==> r is Success && r->Success_0@.len() == 1
                    && r->Success_0@[0] is Leaf && r->Success_0@[0]->Leaf_0.context
                    == job.context && r->Success_0@[0]->Leaf_0.state.proof == Some(
                    run.encoded->Ok_0,
                ) && r->Success_0@[0]->Leaf_0.state.segment_start == job.segment_start
                    && r->Success_0@[0]->Leaf_0.state.segment_end == job.segment_end
                    && r->Success_0@[0]->Leaf_0.state.prove_time_ms == run.prove_time_ms
            },
{
    assert(job.app_proofs@.len() == job.app_proofs.len());
}

/// An internal aggregation is reported by one internal proof of its layer and range, with
/// the bytes and the time that it gave. The time of the wrap is its compression time; the
/// proof is not yet ready for the EVM step.
pub proof fn internal_outcomes_are_reported<F: Fn(u64, u64) -> u64>(
    context: ProofContext,
    layer_idx: usize,
    start: usize,
    end: usize,
    run: InternalRun,
    plus: F,
    r: ProverResult,
)
    requires
        call_ensures(finish_internal::<F>, (context, layer_idx, start, end, run, plus), r),
    ensures
        run.encoded is Err ==> r is Error && r->Error_0@ == "Internal prove failed: "@
            + run.encoded->Err_0@,
        run.encoded is Ok ==> {
            &&& r is Success
            &&& r->Success_0@.len() == 1
            &&& r->Success_0@[0] is Internal
            &&& r->Success_0@[0]->Internal_0.context == context
            &&& r->Success_0@[0]->Internal_0.state.proof == Some(run.encoded->Ok_0)
            &&& r->Success_0@[0]->Internal_0.state.layer_idx == layer_idx
            &&& r->Success_0@[0]->Internal_0.state.segment_start == start
            &&& r->Success_0@[0]->Internal_0.state.segment_end == end
            &&& r->Success_0@[0]->Internal_0.state.prove_time_ms == run.prove_time_ms
            &&& !r->Success_0@[0]->Internal_0.state.ready_for_evm
            &&& r->Success_0@[0]->Internal_0.state.deferral_merkle_proofs_bytes is None
            &&& r->Success_0@[0]->Internal_0.state.worker_id == 0
            &&& r->Success_0@[0]->Internal_0.state.completed_at_ms == 0
        },
        run.encoded is Ok && run.wrap is None ==> {
            &&& r->Success_0@[0]->Internal_0.state.compression_time_ms == 0
            &&& r->Success_0@[0]->Internal_0.state.sub_metrics@ == run.sub_metrics@
            &&& r->Success_0@[0]->Internal_0.state.wrap_sub_metrics@.len() == 0
        },
        run.encoded is Ok && run.wrap is Some ==> {
            &&& r->Success_0@[0]->Internal_0.state.compression_time_ms == (
            run.wrap->0).wrap_time_ms
            &&& r->Success_0@[0]->Internal_0.state.wrap_sub_metrics == (run.wrap->0).sub_metrics
            &&& metrics_added(
                run.sub_metrics@,
                (run.wrap->0).sub_metrics@,
                plus,
                r->Success_0@[0]->Internal_0.state.sub_metrics@,
            )
        },
{
}

/// An internal job that is accepted has the proofs of all its children aggregated, in
/// order, in the circuit and under the key of its layer. A job that is not final, or whose
/// proof has a deferral tail, then has that very proof encoded, with the values of its last
/// child that has any, and reports it without a wrap.
pub proof fn unwrapped_jobs_are_proved<
    P,
    U,
    A: Fn(InternalCircuit, &Vec<P>, ChildVkKind) -> Aggregation<P>,
    E: FnOnce(ProofWithPublicValue<P, U>) -> Result<ProofBytes, String>,
    F: Fn(u64, u64) -> u64,
>(
    job: InternalProverJob<P, U>,
    aggregate: A,
    encode: E,
    plus: F,
    r: ProverResult,
    circuit: InternalCircuit,
    kind: ChildVkKind,
)
    requires
        circuit == (if job.layer_idx == 0 {
            InternalCircuit::ForLeaf
        } else {
            InternalCircuit::Recursive
        }),
        kind == (if job.layer_idx <= 1 {
            ChildVkKind::Standard
        } else {
            ChildVkKind::RecursiveSelf
        }),
        call_ensures(
            prove_internal_with_prover::<P, U, A, E, F>,
            (job, aggregate, encode, plus),
            r,
        ),
        !job.is_final_proof || job.proof_has_deferral,
    ensures
        !(1 <= job.child_proofs@.len() <= 3 && job.segment_start <= job.segment_end)
            ==> r is Error,
        1 <= job.child_proofs@.len() <= 3 && job.segment_start <= job.segment_end
            ==> exists|proofs: Vec<P>, first: Aggregation<P>|
            {
                &&& #[trigger] call_ensures(
                    aggregate,
                    (circuit, &proofs, kind),
                    first,
                )
                &&& proofs@.len() == job.child_proofs@.len()
                &&& forall|i: int|
                    0 <= i < job.child_proofs@.len() ==> #[trigger] proofs@[i]
                        == job.child_proofs@[i].proof
                &&& first.proof is Err ==> r is Error && r->Error_0@
                    == "Internal prove failed: "@ + first.proof->Err_0@
                &&& first.proof is Ok ==> exists|encoded: Result<ProofBytes, String>|
                    {
                        &&& #[trigger] call_ensures(
                            encode,
                            (ProofWithPublicValue {
                                proof: first.proof->Ok_0,
                                user_public_values: last_public_values(job.child_proofs@),
                            },),
                            encoded,
                        )
                        &&& encoded is Err ==> r is Error && r->Error_0@
                            == "Internal prove failed: "@ + encoded->Err_0@
                        &&& encoded is Ok ==> r is Success && r->Success_0@.len() == 1
                            && r->Success_0@[0] is Internal
                            && r->Success_0@[0]->Internal_0.state.proof == Some(encoded->Ok_0)
                            && r->Success_0@[0]->Internal_0.state.prove_time_ms
                            == first.time_ms
                            && r->Success_0@[0]->Internal_0.state.compression_time_ms == 0
                            && r->Success_0@[0]->Internal_0.state.layer_idx == job.layer_idx
                            && r->Success_0@[0]->Internal_0.state.segment_start
                            == job.segment_start
                            && r->Success_0@[0]->Internal_0.state.segment_end
                            == job.segment_end
                    }
            },
{
    assert(job.child_proofs@.len() == job.child_proofs.len());
    if 1 <= job.child_proofs@.len() <= 3 && job.segment_start <= job.segment_end {
        let run = choose|run: InternalRun| #[trigger]
            runs_circuits(job, aggregate, encode, run) && reports_internal(
                job.context,
                job.layer_idx,
                job.segment_start,
                job.segment_end,
                run,
                plus,
                r,
            );
        let (proofs, first) = choose|proofs: Vec<P>, first: Aggregation<P>|
            {
                &&& proofs@ == bare_proofs(job.child_proofs@)
                &&& #[trigger] call_ensures(
                    aggregate,
                    (layer_circuit(job.layer_idx), &proofs, layer_child_kind(job.layer_idx)),
                    first,
                )
                &&& follows_aggregation(job, first, aggregate, encode, run)
            };
        assert(call_ensures(
            aggregate,
            (layer_circuit(job.layer_idx), &proofs, layer_child_kind(job.layer_idx)),
            first,
        ));
        assert(proofs@.len() == job.child_proofs@.len());
        if first.proof is Ok {
            assert(call_ensures(
                encode,
                (ProofWithPublicValue {
                    proof: first.proof->Ok_0,
                    user_public_values: last_public_values(job.child_proofs@),
                },),
                run.encoded,
            ));
        }
    }
}

/// A final job without a deferral tail has its aggregated proof wrapped: that proof alone
/// goes through the recursive circuit under the circuit's own key, and the wrapped proof is
/// what is encoded and reported, with the time of the wrap beside that of the aggregation.
/// The job fails exactly where one of these steps does.
pub proof fn wrapped_jobs_are_proved<
    P,
    U,
    A: Fn(InternalCircuit, &Vec<P>, ChildVkKind) -> Aggregation<P>,
    E: FnOnce(ProofWithPublicValue<P, U>) -> Result<ProofBytes, String>,
    F: Fn(u64, u64) -> u64,
>(
    job: InternalProverJob<P, U>,
    aggregate: A,
    encode: E,
    plus: F,
    r: ProverResult,
    kind: ChildVkKind,
)
    requires
        kind == (if job.layer_idx == 1 {
            ChildVkKind::Standard
        } else {
            ChildVkKind::RecursiveSelf
        }),
        call_ensures(
            prove_internal_with_prover::<P, U, A, E, F>,
            (job, aggregate, encode, plus),
            r,
        ),
        job.is_final_proof,
        !job.proof_has_deferral,
        job.layer_idx > 0,
        1 <= job.child_proofs@.len() <= 3,
        job.segment_start <= job.segment_end,
    ensures
        exists|proofs: Vec<P>, first: Aggregation<P>|
            {
                &&& #[trigger] call_ensures(
                    aggregate,
                    (InternalCircuit::Recursive, &proofs, kind),
                    first,
                )
                &&& proofs@.len() == job.child_proofs@.len()
                &&& forall|i: int|
                    0 <= i < job.child_proofs@.len() ==> #[trigger] proofs@[i]
                        == job.child_proofs@[i].proof
                &&& first.proof is Err ==> r is Error && r->Error_0@
                    == "Internal prove failed: "@ + first.proof->Err_0@
                &&& first.proof is Ok ==> exists|inner: Vec<P>, second: Aggregation<P>|
                    {
                        &&& inner@ == seq![first.proof->Ok_0]
                        &&& #[trigger] call_ensures(
                            aggregate,
                            (InternalCircuit::Recursive, &inner, ChildVkKind::RecursiveSelf),
                            second,
                        )
                        &&& second.proof is Err ==> r is Error && r->Error_0@
                            == "Internal prove failed: "@ + second.proof->Err_0@
                        &&& second.proof is Ok ==> exists|encoded: Result<ProofBytes, String>|
                            {
                                &&& #[trigger] call_ensures(
                                    encode,
                                    (ProofWithPublicValue {
                                        proof: second.proof->Ok_0,
                                        user_public_values: last_public_values(
                                            job.child_proofs@,
                                        ),
                                    },),
                                    encoded,
                                )
                                &&& encoded is Err ==> r is Error && r->Error_0@
                                    == "Internal prove failed: "@ + encoded->Err_0@
                                &&& encoded is Ok ==> r is Success && r->Success_0@.len() == 1
                                    && r->Success_0@[0] is Internal
                                    && r->Success_0@[0]->Internal_0.state.proof == Some(
                                    encoded->Ok_0,
                                ) && r->Success_0@[0]->Internal_0.state.prove_time_ms
                                    == first.time_ms
                                    && r->Success_0@[0]->Internal_0.state.compression_time_ms
                                    == second.time_ms
                            }
                    }
            },
{
    assert(job.child_proofs@.len() == job.child_proofs.len());
    let run = choose|run: InternalRun| #[trigger]
        runs_circuits(job, aggregate, encode, run) && reports_internal(
            job.context,
            job.layer_idx,
            job.segment_start,
            job.segment_end,
            run,
            plus,
            r,
        );
    let (proofs, first) = choose|proofs: Vec<P>, first: Aggregation<P>|
        {
            &&& proofs@ == bare_proofs(job.child_proofs@)
            &&& #[trigger] call_ensures(
                aggregate,
                (layer_circuit(job.layer_idx), &proofs, layer_child_kind(job.layer_idx)),
                first,
            )
            &&& follows_aggregation(job, first, aggregate, encode, run)
        };
    assert(call_ensures(aggregate, (InternalCircuit::Recursive, &proofs, kind), first));
    assert(proofs@.len() == job.child_proofs@.len());
    if first.proof is Ok {
        let (inner, second) = choose|inner: Vec<P>, second: Aggregation<P>|
            {
                &&& inner@ == seq![first.proof->Ok_0]
                &&& #[trigger] call_ensures(
                    aggregate,
                    (InternalCircuit::Recursive, &inner, ChildVkKind::RecursiveSelf),
                    second,
                )
                &&& run.wrap == Some(
                    WrapTimings {
                        wrap_time_ms: second.time_ms,
                        sub_metrics: second.sub_metrics,
                    },
                )
                &&& encodes_proof(job, second.proof, encode, run.encoded)
            };
        assert(call_ensures(
            aggregate,
            (InternalCircuit::Recursive, &inner, ChildVkKind::RecursiveSelf),
            second,
        ));
        if second.proof is Ok {
            assert(call_ensures(
                encode,
                (ProofWithPublicValue {
                    proof: second.proof->Ok_0,
                    user_public_values: last_public_values(job.child_proofs@),
                },),
                run.encoded,
            ));
        }
    }
}

/// A job that asks for a wrap at layer 0 is one that is accepted, final and without a
/// deferral tail; a leaf job cannot be counted where it has proofs and spans every index.
pub proof fn impossible_jobs_are_known<P, U>(
    internal: &InternalProverJob<P, U>,
    misplaced: bool,
    leaf: &LeafProverJob<P, U>,
    uncountable: bool,
)
    requires
        call_ensures(is_misplaced::<P, U>, (internal,), misplaced),
        call_ensures(is_uncountable::<P, U>, (leaf,), uncountable),
    ensures
        misplaced <==> 1 <= internal.child_proofs@.len() <= 3 && internal.segment_start
            <= internal.segment_end && internal.is_final_proof && !internal.proof_has_deferral
            && internal.layer_idx == 0,
        uncountable <==> leaf.app_proofs@.len() > 0 && leaf.segment_start == 0
            && leaf.segment_end == usize::MAX,
{
    assert(internal.child_proofs@.len() == internal.child_proofs.len());
}

/// What is said of a rejected job holds the numbers it was rejected for.
pub proof fn rejections_are_told(e: AggregationError, r: String)
    requires
        call_ensures(AggregationError::message, (e,), r),
    ensures
        e is NoAppProofs ==> r@ == "Cannot aggregate empty app_proofs list"@,
        e is NoChildProofs ==> r@ == "Cannot aggregate empty child_proofs list"@,
        e matches AggregationError::InvalidSegmentRange { start, end } ==> r@
            == "Invalid segment range: start "@ + decimal(start as nat) + " > end "@ + decimal(
            end as nat,
        ),
        e matches AggregationError::ProofCountMismatch { count, start, end, expected } ==> r@
            == "Proof count "@ + decimal(count as nat) + " does not match segment range ["@
            + decimal(start as nat) + ", "@ + decimal(end as nat) + "] (expected "@ + decimal(
            expected as nat,
        ) + ")"@,
        e matches AggregationError::TooManyAppProofs { count, limit } ==> r@
            == "Too many app proofs: "@ + decimal(count as nat)
            + " exceeds MAX_NUM_CHILDREN_LEAF="@ + decimal(limit as nat),
        e matches AggregationError::TooManyChildProofs { count, limit } ==> r@
            == "Too many child proofs: "@ + decimal(count as nat)
            + " exceeds MAX_NUM_CHILDREN_INTERNAL="@ + decimal(limit as nat),
{
}

/// An internal aggregation is laid out exactly if the job has from one to three proofs and
/// its range is one, whatever its proofs hold.
pub proof fn internal_plans_are_made_for_accepted_jobs<P, U>(
    job: InternalProverJob<P, U>,
    r: Result<InternalPlan<P, U>, AggregationError>,
)
    requires
        call_ensures(plan_internal::<P, U>, (job,), r),
    ensures
        r is Ok <==> 1 <= job.child_proofs@.len() <= 3 && job.segment_start <= job.segment_end,
        job.child_proofs@.len() == 0 ==> r->Err_0 is NoChildProofs,
        job.child_proofs@.len() > 0 && job.segment_start > job.segment_end
            ==> r->Err_0 is InvalidSegmentRange,
        job.child_proofs@.len() > 3 && job.segment_start <= job.segment_end
            ==> r->Err_0 is TooManyChildProofs,
{
    assert(job.child_proofs@.len() == job.child_proofs.len());
}

} // verus!
