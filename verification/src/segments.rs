//! Proving of assigned segments: the prover's side of a sharded app job.
//!
//! A loop takes segments as the executor discovers them. For each one it
//! fast-forwards a snapshot to the segment's start, proves the segment, and, for the
//! terminal segment, attaches what the later stages need. [`SegmentRun`] follows one
//! segment through these steps and [`SegmentLoop`] follows the loop; both are told
//! what happened and say what to do.

use vstd::prelude::*;
use vstd::string::*;

use crate::cancellation::{is_cancelled, Cancellations};
use crate::context::ProofContext;
use crate::provers::ProverResult;
use crate::requests::{ProofBytes, SegmentBytes};
use crate::results::{
    AppProof, AppProofState, ExecuteE2Result, ExecuteE2State, ProofResult, SpanMetric,
};
use crate::text::{decimal, push_usize};

verus! {

/// Job for the sharded app prover.
pub struct ShardedAppProverJob {
    pub context: ProofContext,
    pub num_provers: usize,
    pub prover_id: usize,
    pub input_path: String,
    pub segment_memory: Option<usize>,
    /// Number of app prover threads to use concurrently.
    pub max_app_provers: usize,
    /// Whether results are streamed as each segment completes, rather than collected.
    pub streams_results: bool,
    /// Paths of the staged deferral states, one per circuit. None of them selects the
    /// non-deferral path.
    pub deferral_state_paths: Vec<String>,
}

impl ShardedAppProverJob {
    /// Whether this job makes deferred calls.
    pub fn is_deferral_job(&self) -> (r: bool)
        ensures
            r == (self.deferral_state_paths@.len() > 0),
    {
        self.deferral_state_paths.len() > 0
    }
}

/// How many segments the executor of a job with one prover may be ahead of it.
pub const SEGMENT_CHANNEL_CAPACITY: usize = 2;

/// How many results of a streaming job may wait to be sent.
pub const RESULT_CHANNEL_CAPACITY: usize = 4;

/// How the provers of an app job are arranged: it decides how a failure is worded.
#[derive(Debug, Clone, Copy, PartialEq, Eq, Structural)]
pub enum AppJobKind {
    /// One prover, beside the executor.
    Sharded,
    /// A prover beside the executor, and further consumers.
    Parallel,
}

impl AppJobKind {
    /// What the text of a failed job opens with.
    pub open spec fn prefix(self) -> Seq<char> {
        match self {
            AppJobKind::Sharded => "Sharded app prove failed: "@,
            AppJobKind::Parallel => "Parallel app prove failed: "@,
        }
    }

    /// The text of a failed job.
    pub fn failure(self, e: &str) -> (r: String)
        ensures
            r@ == self.prefix() + e@,
    {
        let mut out = match self {
            AppJobKind::Sharded => "Sharded app prove failed: ".to_owned(),
            AppJobKind::Parallel => "Parallel app prove failed: ".to_owned(),
        };
        out.append(e);
        out
    }

    /// What the executor says when nothing takes its segments any more.
    pub fn disconnected(self) -> (r: String)
        ensures
            r@ == match self {
                AppJobKind::Sharded => "Prover disconnected"@,
                AppJobKind::Parallel => "All prover consumers disconnected"@,
            },
    {
        match self {
            AppJobKind::Sharded => "Prover disconnected".to_owned(),
            AppJobKind::Parallel => "All prover consumers disconnected".to_owned(),
        }
    }
}

/// Who runs the loop: it decides how a failure is worded.
#[derive(Debug, Clone, Copy, PartialEq, Eq, Structural)]
pub enum Lane {
    /// The thread that also started the executor.
    Coordinator,
    /// A further consumer of a parallel job.
    Consumer,
}

/// A segment taken from the executor.
#[derive(Debug, Clone, Copy, PartialEq, Eq, Structural)]
pub struct SegmentTask {
    pub segment_idx: usize,
    pub is_final: bool,
    /// Instructions retired before the segment begins.
    pub instret_start: u64,
    /// Instructions retired at the snapshot to start from.
    pub snapshot_instret: u64,
    /// Time the segment sat in the channel, in milliseconds.
    pub queue_wait_ms: u64,
    /// Time of the executor since its previous send, in milliseconds.
    pub metered_time_ms: u64,
}

impl SegmentTask {
    /// Check that the segment starts at or after the snapshot that was taken for it.
    pub fn check(&self) -> (r: Result<(), String>)
        ensures
            self.snapshot_instret <= self.instret_start ==> r is Ok,
            self.snapshot_instret > self.instret_start ==> r is Err && r->Err_0@ == "Segment "@
                + decimal(self.segment_idx as nat) + " starts before its snapshot"@,
    {
        if self.snapshot_instret <= self.instret_start {
            return Ok(());
        }
        let mut out = "Segment ".to_owned();
        push_usize(&mut out, self.segment_idx);
        out.append(" starts before its snapshot");
        Err(out)
    }
}

/// What the STARK prover reported of a segment.
pub struct ProvedSegment {
    /// Whether the prover returned the final memory.
    pub has_final_memory: bool,
    pub stark_prove_time_ms: u64,
    /// Time since the segment was taken, in milliseconds.
    pub prove_time_ms: u64,
    pub sub_metrics: Vec<SpanMetric>,
}

/// The step that a segment waits for.
#[derive(Debug, Clone, Copy, PartialEq, Eq, Structural)]
pub enum SegmentStage {
    FastForward,
    Prove,
    ReadTopTree,
    /// Extract the authentication path of a deferral job.
    ExtractPath,
    /// Build the depth-0 merkle proofs, where the deployment needs them.
    BuildDepth0,
    Encode,
    Failed,
}

/// One segment on its way to an app proof.
pub struct SegmentRun {
    pub task: SegmentTask,
    pub lane: Lane,
    pub is_deferral_job: bool,
    pub stage: SegmentStage,
    pub fastfwd_time_ms: u64,
    pub stark_prove_time_ms: u64,
    pub prove_time_ms: u64,
    pub sub_metrics: Vec<SpanMetric>,
    pub final_merkle_path_bytes: Option<Vec<u8>>,
    pub deferral_merkle_proofs_bytes: Option<Vec<u8>>,
}

/// How a lane words the failure `e` of a step of segment `idx`.
pub open spec fn failure_text(lane: Lane, what: Seq<char>, idx: usize, e: Seq<char>) -> Seq<char> {
    match lane {
        Lane::Coordinator => e,
        Lane::Consumer => what + decimal(idx as nat) + ": "@ + e,
    }
}

fn word_failure(lane: Lane, what: &str, idx: usize, e: String) -> (r: String)
    ensures
        r@ == failure_text(lane, what@, idx, e@),
{
    match lane {
        Lane::Coordinator => e,
        Lane::Consumer => {
            let mut out = what.to_owned();
            push_usize(&mut out, idx);
            out.append(": ");
            out.append(e.as_str());
            out
        },
    }
}

impl SegmentRun {
    /// Merkle data is attached to the terminal segment only, and only of the kind its
    /// job calls for.
    pub open spec fn wf(self) -> bool {
        &&& self.task.snapshot_instret <= self.task.instret_start
        &&& self.stage == SegmentStage::ReadTopTree || self.stage == SegmentStage::ExtractPath
            || self.stage == SegmentStage::BuildDepth0 ==> self.task.is_final
        &&& self.stage == SegmentStage::ExtractPath ==> self.is_deferral_job
        &&& self.stage == SegmentStage::BuildDepth0 ==> !self.is_deferral_job
        &&& self.final_merkle_path_bytes is Some ==> self.stage == SegmentStage::Encode
            && self.task.is_final && self.is_deferral_job
        &&& self.deferral_merkle_proofs_bytes is Some ==> self.stage == SegmentStage::Encode
            && self.task.is_final && !self.is_deferral_job
        &&& self.stage == SegmentStage::Encode && self.task.is_final && self.is_deferral_job
            ==> self.final_merkle_path_bytes is Some
    }

    /// Whether `other` follows the same segment for the same loop.
    pub open spec fn same_segment(self, other: SegmentRun) -> bool {
        &&& self.task == other.task
        &&& self.lane == other.lane
        &&& self.is_deferral_job == other.is_deferral_job
    }

    /// Take up a segment. The first step is the fast-forward.
    pub fn begin(task: SegmentTask, lane: Lane, is_deferral_job: bool) -> (r: Self)
        requires
            task.snapshot_instret <= task.instret_start,
        ensures
            r.wf(),
            r.task == task,
            r.lane == lane,
            r.is_deferral_job == is_deferral_job,
            r.stage == SegmentStage::FastForward,
            r.final_merkle_path_bytes is None,
            r.deferral_merkle_proofs_bytes is None,
    {
        SegmentRun {
            task,
            lane,
            is_deferral_job,
            stage: SegmentStage::FastForward,
            fastfwd_time_ms: 0,
            stark_prove_time_ms: 0,
            prove_time_ms: 0,
            sub_metrics: Vec::new(),
            final_merkle_path_bytes: None,
            deferral_merkle_proofs_bytes: None,
        }
    }

    /// How many instructions lie between the snapshot and the segment's start. With
    /// none of them the snapshot is the start state and nothing runs.
    pub fn instructions_to_skip(&self) -> (r: u64)
        requires
            self.wf(),
        ensures
            r == self.task.instret_start - self.task.snapshot_instret,
    {
        self.task.instret_start - self.task.snapshot_instret
    }

    /// The snapshot stands at the segment's start after `Ok` milliseconds, or the
    /// interpreter failed.
    pub fn fast_forwarded(&mut self, outcome: Result<u64, String>) -> (r: Result<(), String>)
        requires
            old(self).wf(),
            old(self).stage == SegmentStage::FastForward,
        ensures
            final(self).wf(),
            final(self).same_segment(*old(self)),
            outcome matches Ok(ms) ==> r is Ok && *final(self) == (SegmentRun {
                stage: SegmentStage::Prove,
                fastfwd_time_ms: ms,
                ..*old(self)
            }),
            outcome matches Err(e) ==> r is Err && r->Err_0@ == failure_text(
                old(self).lane,
                "Consumer fast-forward failed for segment "@,
                old(self).task.segment_idx,
                e@,
            ) && final(self).stage == SegmentStage::Failed,
    {
        match outcome {
            Ok(ms) => {
                self.fastfwd_time_ms = ms;
                self.stage = SegmentStage::Prove;
                Ok(())
            },
            Err(e) => {
                self.stage = SegmentStage::Failed;
                Err(
                    word_failure(
                        self.lane,
                        "Consumer fast-forward failed for segment ",
                        self.task.segment_idx,
                        e,
                    ),
                )
            },
        }
    }

    /// The segment is proved, or the STARK prover failed. A terminal segment must
    /// have come with its final memory.
    pub fn proved(&mut self, outcome: Result<ProvedSegment, String>) -> (r: Result<(), String>)
        requires
            old(self).wf(),
            old(self).stage == SegmentStage::Prove,
        ensures
            final(self).wf(),
            final(self).same_segment(*old(self)),
            outcome matches Err(e) ==> r is Err && r->Err_0@ == failure_text(
                old(self).lane,
                "Consumer STARK prove failed for segment "@,
                old(self).task.segment_idx,
                e@,
            ) && final(self).stage == SegmentStage::Failed,
            outcome matches Ok(p) ==> if old(self).task.is_final && !p.has_final_memory {
                &&& r is Err
                &&& r->Err_0@ == "Terminal segment "@ + decimal(old(self).task.segment_idx as nat)
                    + " did not return final_memory"@
                &&& final(self).stage == SegmentStage::Failed
            } else {
                &&& r is Ok
                &&& *final(self) == (SegmentRun {
                    stage: if old(self).task.is_final {
                        SegmentStage::ReadTopTree
                    } else {
                        SegmentStage::Encode
                    },
                    stark_prove_time_ms: p.stark_prove_time_ms,
                    prove_time_ms: p.prove_time_ms,
                    sub_metrics: p.sub_metrics,
                    ..*old(self)
                })
            },
    {
        match outcome {
            Err(e) => {
                self.stage = SegmentStage::Failed;
                Err(
                    word_failure(
                        self.lane,
                        "Consumer STARK prove failed for segment ",
                        self.task.segment_idx,
                        e,
                    ),
                )
            },
            Ok(p) => {
                if self.task.is_final && !p.has_final_memory {
                    self.stage = SegmentStage::Failed;
                    let mut out = "Terminal segment ".to_owned();
                    push_usize(&mut out, self.task.segment_idx);
                    out.append(" did not return final_memory");
                    return Err(out);
                }
                self.stage = if self.task.is_final {
                    SegmentStage::ReadTopTree
                } else {
                    SegmentStage::Encode
                };
                self.stark_prove_time_ms = p.stark_prove_time_ms;
                self.prove_time_ms = p.prove_time_ms;
                self.sub_metrics = p.sub_metrics;
                Ok(())
            },
        }
    }

    /// The memory top tree of the terminal segment was looked up.
    pub fn top_tree_read(&mut self, present: bool) -> (r: Result<(), String>)
        requires
            old(self).wf(),
            old(self).stage == SegmentStage::ReadTopTree,
        ensures
            final(self).wf(),
            final(self).same_segment(*old(self)),
            present ==> r is Ok && *final(self) == (SegmentRun {
                stage: if old(self).is_deferral_job {
                    SegmentStage::ExtractPath
                } else {
                    SegmentStage::BuildDepth0
                },
                ..*old(self)
            }),
            !present ==> {
                &&& r is Err
                &&& final(self).stage == SegmentStage::Failed
                &&& r->Err_0@ == match old(self).lane {
                    Lane::Coordinator => "Memory top tree should exist for terminal segment"@,
                    Lane::Consumer => "Memory top tree missing for terminal segment "@ + decimal(
                        old(self).task.segment_idx as nat,
                    ),
                }
            },
    {
        if present {
            self.stage = if self.is_deferral_job {
                SegmentStage::ExtractPath
            } else {
                SegmentStage::BuildDepth0
            };
            return Ok(());
        }
        self.stage = SegmentStage::Failed;
        match self.lane {
            Lane::Coordinator => Err(
                "Memory top tree should exist for terminal segment".to_owned(),
            ),
            Lane::Consumer => {
                let mut out = "Memory top tree missing for terminal segment ".to_owned();
                push_usize(&mut out, self.task.segment_idx);
                Err(out)
            },
        }
    }

    /// The authentication path of a deferral job was extracted.
    pub fn path_extracted(&mut self, outcome: Result<Vec<u8>, String>) -> (r: Result<(), String>)
        requires
            old(self).wf(),
            old(self).stage == SegmentStage::ExtractPath,
        ensures
            final(self).wf(),
            final(self).same_segment(*old(self)),
            outcome matches Ok(bytes) ==> r is Ok && *final(self) == (SegmentRun {
                stage: SegmentStage::Encode,
                final_merkle_path_bytes: Some(bytes),
                ..*old(self)
            }),
            outcome matches Err(e) ==> r is Err && r->Err_0@ == failure_text(
                old(self).lane,
                "Consumer deferral path extraction failed for segment "@,
                old(self).task.segment_idx,
                e@,
            ) && final(self).stage == SegmentStage::Failed,
    {
        match outcome {
            Ok(bytes) => {
                self.final_merkle_path_bytes = Some(bytes);
                self.stage = SegmentStage::Encode;
                Ok(())
            },
            Err(e) => {
                self.stage = SegmentStage::Failed;
                Err(
                    word_failure(
                        self.lane,
                        "Consumer deferral path extraction failed for segment ",
                        self.task.segment_idx,
                        e,
                    ),
                )
            },
        }
    }

    /// The depth-0 merkle proofs were built; there are none outside a deferral
    /// deployment.
    pub fn depth0_built(&mut self, outcome: Result<Option<Vec<u8>>, String>) -> (r: Result<
        (),
        String,
    >)
        requires
            old(self).wf(),
            old(self).stage == SegmentStage::BuildDepth0,
        ensures
            final(self).wf(),
            final(self).same_segment(*old(self)),
            outcome matches Ok(bytes) ==> r is Ok && *final(self) == (SegmentRun {
                stage: SegmentStage::Encode,
                deferral_merkle_proofs_bytes: bytes,
                ..*old(self)
            }),
            outcome matches Err(e) ==> r is Err && r->Err_0@ == failure_text(
                old(self).lane,
                "Consumer depth-0 deferral merkle build failed for segment "@,
                old(self).task.segment_idx,
                e@,
            ) && final(self).stage == SegmentStage::Failed,
    {
        match outcome {
            Ok(bytes) => {
                self.deferral_merkle_proofs_bytes = bytes;
                self.stage = SegmentStage::Encode;
                Ok(())
            },
            Err(e) => {
                self.stage = SegmentStage::Failed;
                Err(
                    word_failure(
                        self.lane,
                        "Consumer depth-0 deferral merkle build failed for segment ",
                        self.task.segment_idx,
                        e,
                    ),
                )
            },
        }
    }

    /// Whether the user public values go with the proof: they are read from the final
    /// memory, so only the terminal segment has them.
    pub fn carries_user_public_values(&self) -> (r: bool)
        ensures
            r == self.task.is_final,
    {
        self.task.is_final
    }

    /// The proof was encoded: this is the app proof of the segment.
    pub fn encoded(self, context: ProofContext, outcome: Result<ProofBytes, String>) -> (r: Result<
        AppProof,
        String,
    >)
        requires
            self.wf(),
            self.stage == SegmentStage::Encode,
        ensures
            outcome matches Err(e) ==> r is Err && r->Err_0@ == failure_text(
                self.lane,
                "Consumer failed to encode proof for segment "@,
                self.task.segment_idx,
                e@,
            ),
            outcome matches Ok(bytes) ==> r is Ok && r->Ok_0 == (AppProof {
                context,
                state: AppProofState {
                    proof: Some(bytes),
                    segment_idx: self.task.segment_idx,
                    prove_time_ms: self.prove_time_ms,
                    fastfwd_time_ms: self.fastfwd_time_ms,
                    stark_prove_time_ms: self.stark_prove_time_ms,
                    queue_wait_ms: self.task.queue_wait_ms,
                    metered_time_ms: self.task.metered_time_ms,
                    sub_metrics: self.sub_metrics,
                    final_merkle_path_bytes: self.final_merkle_path_bytes,
                    deferral_merkle_proofs_bytes: self.deferral_merkle_proofs_bytes,
                    worker_id: 0,
                    completed_at_ms: 0,
                },
            }),
    {
        match outcome {
            Err(e) => Err(
                word_failure(
                    self.lane,
                    "Consumer failed to encode proof for segment ",
                    self.task.segment_idx,
                    e,
                ),
            ),
            Ok(bytes) => {
                let state = AppProofState {
                    proof: Some(bytes),
                    segment_idx: self.task.segment_idx,
                    prove_time_ms: self.prove_time_ms,
                    fastfwd_time_ms: self.fastfwd_time_ms,
                    stark_prove_time_ms: self.stark_prove_time_ms,
                    queue_wait_ms: self.task.queue_wait_ms,
                    metered_time_ms: self.task.metered_time_ms,
                    sub_metrics: self.sub_metrics,
                    final_merkle_path_bytes: self.final_merkle_path_bytes,
                    deferral_merkle_proofs_bytes: self.deferral_merkle_proofs_bytes,
                    worker_id: 0,
                    completed_at_ms: 0,
                };
                Ok(AppProof { context, state })
            },
        }
    }
}

/// Of a segment that is ready to be encoded: one that is not terminal carries no
/// merkle data, and a terminal one carries the authentication path exactly if its
/// job is a deferral job, and never both kinds.
pub proof fn merkle_data_is_terminal_and_exclusive(run: SegmentRun)
    requires
        run.wf(),
        run.stage == SegmentStage::Encode,
    ensures
        !run.task.is_final ==> run.final_merkle_path_bytes is None
            && run.deferral_merkle_proofs_bytes is None,
        run.final_merkle_path_bytes is Some <==> run.task.is_final && run.is_deferral_job,
        run.final_merkle_path_bytes is None || run.deferral_merkle_proofs_bytes is None,
{
}

/// Report the failure of a consumer.
pub fn consumer_failure(error_message: String) -> (r: ProverResult)
    ensures
        r == ProverResult::Error(error_message),
{
    ProverResult::Error(error_message)
}

/// Where a proving loop stands.
pub enum LoopVerdict {
    Running,
    /// A segment failed.
    Failed(String),
    /// A proof could not be encoded: the loop's thread gives up at once, without
    /// waiting for the executor.
    Aborted(String),
    /// The proof was canceled.
    Canceled,
}

/// A loop that proves segments as they come, and either streams or collects the
/// proofs.
pub struct SegmentLoop {
    pub lane: Lane,
    pub streams: bool,
    pub results: Vec<ProofResult>,
    pub verdict: LoopVerdict,
}

/// What becomes of a proof that a loop has made.
pub enum Delivery {
    /// It is to be streamed now.
    Stream(ProofResult),
    /// It was collected.
    Collected,
}

impl SegmentLoop {
    /// A streaming loop collects nothing.
    pub open spec fn wf(self) -> bool {
        self.streams ==> self.results@.len() == 0
    }

    pub fn new(lane: Lane, streams: bool) -> (r: Self)
        ensures
            r.wf(),
            r.lane == lane,
            r.streams == streams,
            r.results@ == Seq::<ProofResult>::empty(),
            r.verdict is Running,
    {
        SegmentLoop { lane, streams, results: Vec::new(), verdict: LoopVerdict::Running }
    }

    /// Another segment came. It is taken up unless its proof has been canceled, in
    /// which case the loop stops here.
    pub fn take_segment(&mut self, cancellations: &Cancellations, proof_uuid: &str) -> (r: bool)
        requires
            old(self).wf(),
            old(self).verdict is Running,
        ensures
            final(self).wf(),
            r == !cancellations@.contains(proof_uuid@),
            r ==> *final(self) == *old(self),
            !r ==> *final(self) == (SegmentLoop { verdict: LoopVerdict::Canceled, ..*old(self) }),
    {
        if is_cancelled(cancellations, proof_uuid) {
            self.verdict = LoopVerdict::Canceled;
            return false;
        }
        true
    }

    /// A step of a segment failed.
    pub fn fail(&mut self, error: String)
        requires
            old(self).wf(),
            old(self).verdict is Running,
        ensures
            final(self).wf(),
            *final(self) == (SegmentLoop { verdict: LoopVerdict::Failed(error), ..*old(self) }),
    {
        self.verdict = LoopVerdict::Failed(error);
    }

    /// The proof of a segment could not be encoded.
    pub fn fail_encoding(&mut self, error: String)
        requires
            old(self).wf(),
            old(self).verdict is Running,
        ensures
            final(self).wf(),
            *final(self) == (SegmentLoop {
                verdict: match old(self).lane {
                    Lane::Coordinator => LoopVerdict::Aborted(error),
                    Lane::Consumer => LoopVerdict::Failed(error),
                },
                ..*old(self)
            }),
    {
        self.verdict = match self.lane {
            Lane::Coordinator => LoopVerdict::Aborted(error),
            Lane::Consumer => LoopVerdict::Failed(error),
        };
    }

    /// A segment is proved: stream the proof, or collect it.
    pub fn deliver(&mut self, proof: AppProof) -> (r: Delivery)
        requires
            old(self).wf(),
            old(self).verdict is Running,
        ensures
            final(self).wf(),
            old(self).streams ==> r == Delivery::Stream(ProofResult::App(proof)) && *final(self)
                == *old(self),
            !old(self).streams ==> r == Delivery::Collected && final(self).results@ == old(self).results@.push(ProofResult::App(proof)) && final(self).lane == old(self).lane
                && final(self).streams == old(self).streams && final(self).verdict is Running,
    {
        if self.streams {
            Delivery::Stream(ProofResult::App(proof))
        } else {
            self.results.push(ProofResult::App(proof));
            Delivery::Collected
        }
    }

    /// The stream took the proof of segment `segment_idx`, or was closed. A consumer
    /// stops at a closed stream; the coordinator goes on.
    pub fn streamed(&mut self, segment_idx: usize, taken: bool)
        requires
            old(self).wf(),
            old(self).verdict is Running,
        ensures
            final(self).wf(),
            taken || old(self).lane == Lane::Coordinator ==> *final(self) == *old(self),
            !taken && old(self).lane == Lane::Consumer ==> {
                &&& final(self).lane == old(self).lane
                &&& final(self).streams == old(self).streams
                &&& final(self).results == old(self).results
                &&& final(self).verdict matches LoopVerdict::Failed(text)
                &&& text@ == "Consumer failed to stream proof for segment "@ + decimal(
                    segment_idx as nat,
                ) + ": result channel closed"@
            },
    {
        if !taken && self.lane == Lane::Consumer {
            let mut out = "Consumer failed to stream proof for segment ".to_owned();
            push_usize(&mut out, segment_idx);
            out.append(": result channel closed");
            self.verdict = LoopVerdict::Failed(out);
        }
    }

    /// The loop of a consumer is over.
    pub fn into_consumer_result(self) -> (r: ProverResult)
        requires
            self.wf(),
        ensures
            r == match self.verdict {
                LoopVerdict::Running => ProverResult::Success(self.results),
                LoopVerdict::Failed(text) => ProverResult::Error(text),
                LoopVerdict::Aborted(text) => ProverResult::Error(text),
                LoopVerdict::Canceled => ProverResult::Canceled,
            },
    {
        match self.verdict {
            LoopVerdict::Running => ProverResult::Success(self.results),
            LoopVerdict::Failed(text) => consumer_failure(text),
            LoopVerdict::Aborted(text) => consumer_failure(text),
            LoopVerdict::Canceled => ProverResult::Canceled,
        }
    }
}

/// How the executor thread ended.
pub enum ExecutorOutcome {
    /// It panicked, with this payload as text.
    Panicked(String),
    Failed(String),
    Finished { execute_time_ms: u64, num_segments: usize },
}

/// The execution result that prover 0 reports.
pub open spec fn execution_result(
    context: ProofContext,
    num_segments: usize,
    segments: Vec<SegmentBytes>,
    execute_time_ms: u64,
) -> ProofResult {
    ProofResult::ExecuteE2(
        ExecuteE2Result {
            context,
            state: ExecuteE2State { num_segments, segments, cost: 0, execute_time_ms },
        },
    )
}

/// The execution result that the executor streams as soon as it has finished, so
/// that the manager learns the number of segments: only prover 0 of a streaming job
/// does. `segments` are the encoded segments.
pub fn executor_report(
    streams: bool,
    prover_id: usize,
    context: ProofContext,
    num_segments: usize,
    segments: Result<Vec<SegmentBytes>, String>,
    execute_time_ms: u64,
) -> (r: Result<Option<ProofResult>, String>)
    ensures
        !(streams && prover_id == 0) ==> r is Ok && r->Ok_0 is None,
        streams && prover_id == 0 ==> match segments {
            Err(e) => r == Err::<Option<ProofResult>, String>(e),
            Ok(s) => r == Ok::<Option<ProofResult>, String>(
                Some(execution_result(context, num_segments, s, execute_time_ms)),
            ),
        },
{
    if !(streams && prover_id == 0) {
        return Ok(None);
    }
    match segments {
        Err(e) => Err(e),
        Ok(segments) => {
            let state = ExecuteE2State { num_segments, segments, cost: 0, execute_time_ms };
            Ok(Some(ProofResult::ExecuteE2(ExecuteE2Result { context, state })))
        },
    }
}

/// What a sharded job comes to: the text of its failure, or its results.
pub open spec fn concludes(
    looped: SegmentLoop,
    executor: ExecutorOutcome,
    prover_id: usize,
    context: ProofContext,
    segments: Result<Vec<SegmentBytes>, String>,
    kind: AppJobKind,
    r: ProverResult,
) -> bool {
    if looped.verdict is Canceled {
        r is Canceled
    } else if looped.verdict is Aborted {
        r is Error && r->Error_0@ == kind.prefix() + looped.verdict->Aborted_0@
    } else if executor is Panicked {
        r is Error && r->Error_0@ == kind.prefix() + ("Executor thread panicked: "@
            + executor->Panicked_0@)
    } else if looped.verdict is Failed {
        r is Error && r->Error_0@ == kind.prefix() + looped.verdict->Failed_0@
    } else if executor is Failed {
        r is Error && r->Error_0@ == kind.prefix() + executor->Failed_0@
    } else if executor->num_segments == 0 {
        r is Error && r->Error_0@ == kind.prefix() + "No segments produced from execution"@
    } else if prover_id != 0 || looped.streams {
        r == ProverResult::Success(looped.results)
    } else {
        match segments {
            Err(e) => r is Error && r->Error_0@ == kind.prefix() + e@,
            Ok(s) => r is Success && r->Success_0@ == seq![
                execution_result(context, executor->num_segments, s, executor->execute_time_ms),
            ] + looped.results@,
        }
    }
}

fn job_error(kind: AppJobKind, e: &str) -> (r: ProverResult)
    ensures
        r is Error,
        r->Error_0@ == kind.prefix() + e@,
{
    ProverResult::Error(kind.failure(e))
}

/// Conclude a sharded job once its loop and its executor are over.
///
/// A failure of the loop outranks one of the executor, whose own failure may only
/// follow from it. In a job that collects, prover 0 puts the execution result in
/// front; in a streaming job the executor has sent it already.
pub fn conclude_sharded(
    looped: SegmentLoop,
    executor: ExecutorOutcome,
    prover_id: usize,
    context: ProofContext,
    segments: Result<Vec<SegmentBytes>, String>,
    kind: AppJobKind,
) -> (r: ProverResult)
    requires
        looped.wf(),
    ensures
        concludes(looped, executor, prover_id, context, segments, kind, r),
{
    let streams = looped.streams;
    let failed = match looped.verdict {
        LoopVerdict::Canceled => return ProverResult::Canceled,
        LoopVerdict::Aborted(e) => return job_error(kind, e.as_str()),
        LoopVerdict::Failed(e) => Some(e),
        LoopVerdict::Running => None,
    };
    let (execute_time_ms, num_segments, executor_error) = match executor {
        ExecutorOutcome::Panicked(e) => {
            let mut text = "Executor thread panicked: ".to_owned();
            text.append(e.as_str());
            return job_error(kind, text.as_str());
        },
        ExecutorOutcome::Failed(e) => (0u64, 0usize, Some(e)),
        ExecutorOutcome::Finished { execute_time_ms, num_segments } => (
            execute_time_ms,
            num_segments,
            None,
        ),
    };
    if let Some(e) = failed {
        return job_error(kind, e.as_str());
    }
    if let Some(e) = executor_error {
        return job_error(kind, e.as_str());
    }
    if num_segments == 0 {
        return job_error(kind, "No segments produced from execution");
    }
    let mut results = looped.results;
    let ghost collected = results@;
    if prover_id == 0 && !streams {
        match segments {
            Err(e) => return job_error(kind, e.as_str()),
            Ok(segments) => {
                let state = ExecuteE2State { num_segments, segments, cost: 0, execute_time_ms };
                let first = ProofResult::ExecuteE2(ExecuteE2Result { context, state });
                let ghost front = first;
                results.insert(0, first);
                assert(results@ =~= seq![front] + collected);
            },
        }
    }
    ProverResult::Success(results)
}

/// A canceled loop reports nothing but the cancellation, a failed one never reports
/// success, and the execution result is reported by prover 0 alone.
pub proof fn only_complete_jobs_succeed(
    looped: SegmentLoop,
    executor: ExecutorOutcome,
    prover_id: usize,
    context: ProofContext,
    segments: Result<Vec<SegmentBytes>, String>,
    kind: AppJobKind,
    r: ProverResult,
)
    requires
        looped.wf(),
        concludes(looped, executor, prover_id, context, segments, kind, r),
    ensures
        r is Canceled <==> looped.verdict is Canceled,
        r is Success ==> looped.verdict is Running && executor is Finished
            && executor->num_segments > 0,
        r is Success && prover_id != 0 ==> r->Success_0@ == looped.results@,
        r is Success && looped.streams ==> r->Success_0@.len() == 0,
{
}

/// How a parallel job is laid out.
#[derive(Debug, Clone, Copy, PartialEq, Eq, Structural)]
pub struct ParallelShape {
    /// How many segments may wait in the channel between executor and provers.
    pub channel_capacity: usize,
    /// How many consumers run besides the coordinator.
    pub consumers: usize,
}

/// Lay out a job over `max_app_provers` threads: the coordinator is one of them, and
/// the channel holds two segments for each.
pub fn parallel_shape(max_app_provers: usize) -> (r: ParallelShape)
    requires
        max_app_provers * 2 <= usize::MAX,
    ensures
        r.channel_capacity == max_app_provers * 2,
        max_app_provers > 0 ==> r.consumers == max_app_provers - 1,
        max_app_provers == 0 ==> r.consumers == 0,
{
    ParallelShape {
        channel_capacity: max_app_provers * 2,
        consumers: max_app_provers.saturating_sub(1),
    }
}

/// A job succeeds exactly if its loop went through, its executor found segments, and, in
/// a job that collects, prover 0 could encode them. What was collected is then reported
/// whole and in order; prover 0 of such a job puts the execution in front of it, and a
/// job that streams has nothing left to report. A canceled job reports the cancellation
/// and no other does; any other job reports a failure.
pub proof fn complete_jobs_succeed(
    looped: SegmentLoop,
    executor: ExecutorOutcome,
    prover_id: usize,
    context: ProofContext,
    segments: Result<Vec<SegmentBytes>, String>,
    kind: AppJobKind,
    r: ProverResult,
)
    requires
        call_ensures(
            conclude_sharded,
            (looped, executor, prover_id, context, segments, kind),
            r,
        ),
    ensures
        r is Success <==> looped.verdict is Running && executor is Finished
            && executor->num_segments > 0 && (prover_id != 0 || looped.streams || segments is Ok),
        r is Canceled <==> looped.verdict is Canceled,
        r is Success && (prover_id != 0 || looped.streams) ==> r->Success_0@ == looped.results@,
        r is Success && prover_id == 0 && !looped.streams ==> {
            &&& r->Success_0@.len() == looped.results@.len() + 1
            &&& r->Success_0@.skip(1) == looped.results@
            &&& r->Success_0@[0] matches ProofResult::ExecuteE2(e)
            &&& e.context == context
            &&& e.state.num_segments == executor->num_segments
            &&& e.state.segments == segments->Ok_0
            &&& e.state.execute_time_ms == executor->execute_time_ms
            &&& e.state.cost == 0
        },
{
    if r is Success && prover_id == 0 && !looped.streams {
        assert(r->Success_0@.skip(1) =~= looped.results@);
    }
}

/// A failed job says what kind it is and then what went wrong: what stopped its loop,
/// rather than what became of the executor afterwards. Only a panic of the executor
/// outranks the failure of a segment.
pub proof fn failed_jobs_say_why(
    looped: SegmentLoop,
    executor: ExecutorOutcome,
    prover_id: usize,
    context: ProofContext,
    segments: Result<Vec<SegmentBytes>, String>,
    kind: AppJobKind,
    r: ProverResult,
)
    requires
        call_ensures(
            conclude_sharded,
            (looped, executor, prover_id, context, segments, kind),
            r,
        ),
    ensures
        ({
            let opening = match kind {
                AppJobKind::Sharded => "Sharded app prove failed: "@,
                AppJobKind::Parallel => "Parallel app prove failed: "@,
            };
            &&& looped.verdict matches LoopVerdict::Aborted(e) ==> r is Error && r->Error_0@
                == opening + e@
            &&& looped.verdict matches LoopVerdict::Failed(e) ==> r is Error && r->Error_0@
                == opening + match executor {
                ExecutorOutcome::Panicked(p) => "Executor thread panicked: "@ + p@,
                _ => e@,
            }
            &&& looped.verdict is Running ==> match executor {
                ExecutorOutcome::Panicked(p) => r is Error && r->Error_0@ == opening + (
                "Executor thread panicked: "@ + p@),
                ExecutorOutcome::Failed(e) => r is Error && r->Error_0@ == opening + e@,
                ExecutorOutcome::Finished { num_segments, .. } => {
                    &&& num_segments == 0 ==> r is Error && r->Error_0@ == opening
                        + "No segments produced from execution"@
                    &&& num_segments > 0 && prover_id == 0 && !looped.streams && segments is Err
                        ==> r is Error && r->Error_0@ == opening + segments->Err_0@
                },
            }
        }),
{
}

/// What the executor streams is the whole execution, from prover 0 of a streaming job
/// alone, and it is the result that such a prover would otherwise put in front of its
/// collected proofs.
pub proof fn the_execution_is_reported_once(
    streams: bool,
    prover_id: usize,
    context: ProofContext,
    num_segments: usize,
    segments: Result<Vec<SegmentBytes>, String>,
    execute_time_ms: u64,
    report: Result<Option<ProofResult>, String>,
    looped: SegmentLoop,
    kind: AppJobKind,
    r: ProverResult,
)
    requires
        looped.streams == streams,
        looped.verdict is Running,
        num_segments > 0,
        call_ensures(
            executor_report,
            (streams, prover_id, context, num_segments, segments, execute_time_ms),
            report,
        ),
        call_ensures(
            conclude_sharded,
            (
                looped,
                ExecutorOutcome::Finished { execute_time_ms, num_segments },
                prover_id,
                context,
                segments,
                kind,
            ),
            r,
        ),
    ensures
        report is Ok && report->Ok_0 is Some <==> streams && prover_id == 0 && segments is Ok,
        report is Err <==> streams && prover_id == 0 && segments is Err,
        report is Err ==> report->Err_0 == segments->Err_0,
        report is Ok && report->Ok_0 is Some ==> {
            &&& report->Ok_0->0 matches ProofResult::ExecuteE2(e)
            &&& e.context == context
            &&& e.state.num_segments == num_segments
            &&& e.state.segments == segments->Ok_0
            &&& e.state.execute_time_ms == execute_time_ms
            &&& e.state.cost == 0
        },
        prover_id == 0 && segments is Ok ==> (report->Ok_0 is Some <==> !(r is Success
            && r->Success_0@.len() == looped.results@.len() + 1)),
{
}

/// A segment that was fast-forwarded is proved next, with the time recorded. A step that
/// failed ends it, and is told as it came by the coordinator, and with the step and the
/// segment in front by a consumer.
pub proof fn fast_forwarded_segments_are_proved(
    run: &mut SegmentRun,
    outcome: Result<u64, String>,
    r: Result<(), String>,
)
    requires
        call_ensures(SegmentRun::fast_forwarded, (run, outcome), r),
    ensures
        r is Ok <==> outcome is Ok,
        r is Ok ==> final(run).stage is Prove && final(run).fastfwd_time_ms == outcome->Ok_0,
        r is Err ==> final(run).stage is Failed,
        r is Err && old(run).lane is Coordinator ==> r->Err_0@ == outcome->Err_0@,
        r is Err && old(run).lane is Consumer ==> r->Err_0@
            == "Consumer fast-forward failed for segment "@ + decimal(
            old(run).task.segment_idx as nat,
        ) + ": "@ + outcome->Err_0@,
        final(run).task == old(run).task,
        final(run).lane == old(run).lane,
        final(run).is_deferral_job == old(run).is_deferral_job,
{
}

/// A segment that was proved is encoded next; the last one first has its top tree read,
/// and must have come with its final memory.
pub proof fn proved_segments_are_encoded(
    run: &mut SegmentRun,
    outcome: Result<ProvedSegment, String>,
    r: Result<(), String>,
)
    requires
        call_ensures(SegmentRun::proved, (run, outcome), r),
    ensures
        r is Ok <==> outcome is Ok && (old(run).task.is_final ==> outcome->Ok_0.has_final_memory),
        r is Ok ==> (final(run).stage is ReadTopTree <==> old(run).task.is_final),
        r is Ok ==> (final(run).stage is Encode <==> !old(run).task.is_final),
        r is Ok ==> {
            &&& final(run).stark_prove_time_ms == outcome->Ok_0.stark_prove_time_ms
            &&& final(run).prove_time_ms == outcome->Ok_0.prove_time_ms
            &&& final(run).sub_metrics == outcome->Ok_0.sub_metrics
            &&& final(run).fastfwd_time_ms == old(run).fastfwd_time_ms
        },
        r is Err ==> final(run).stage is Failed,
        outcome is Err && old(run).lane is Coordinator ==> r->Err_0@ == outcome->Err_0@,
        outcome is Err && old(run).lane is Consumer ==> r->Err_0@
            == "Consumer STARK prove failed for segment "@ + decimal(
            old(run).task.segment_idx as nat,
        ) + ": "@ + outcome->Err_0@,
        outcome is Ok && r is Err ==> r->Err_0@ == "Terminal segment "@ + decimal(
            old(run).task.segment_idx as nat,
        ) + " did not return final_memory"@,
        final(run).task == old(run).task,
        final(run).lane == old(run).lane,
        final(run).is_deferral_job == old(run).is_deferral_job,
{
}

/// The last segment of a deferral job gets the path, that of another job the depth-0
/// proofs where there are any; both are then encoded.
pub proof fn last_segments_get_their_merkle_data(
    read: &mut SegmentRun,
    present: bool,
    read_result: Result<(), String>,
    extracted: &mut SegmentRun,
    path: Result<Vec<u8>, String>,
    path_result: Result<(), String>,
    built: &mut SegmentRun,
    proofs: Result<Option<Vec<u8>>, String>,
    built_result: Result<(), String>,
)
    requires
        call_ensures(SegmentRun::top_tree_read, (read, present), read_result),
        call_ensures(SegmentRun::path_extracted, (extracted, path), path_result),
        call_ensures(SegmentRun::depth0_built, (built, proofs), built_result),
    ensures
        final(read).task == old(read).task && final(read).lane == old(read).lane,
        final(extracted).task == old(extracted).task && final(extracted).lane
            == old(extracted).lane,
        final(built).task == old(built).task && final(built).lane == old(built).lane,
        read_result is Ok <==> present,
        present ==> (final(read).stage is ExtractPath <==> old(read).is_deferral_job),
        present ==> (final(read).stage is BuildDepth0 <==> !old(read).is_deferral_job),
        !present ==> final(read).stage is Failed,
        !present && old(read).lane is Coordinator ==> read_result->Err_0@
            == "Memory top tree should exist for terminal segment"@,
        !present && old(read).lane is Consumer ==> read_result->Err_0@
            == "Memory top tree missing for terminal segment "@ + decimal(
            old(read).task.segment_idx as nat,
        ),
        path_result is Ok <==> path is Ok,
        path is Ok ==> final(extracted).stage is Encode
            && final(extracted).final_merkle_path_bytes == Some(path->Ok_0),
        path is Err ==> final(extracted).stage is Failed,
        path is Err && old(extracted).lane is Coordinator ==> path_result->Err_0@ == path->Err_0@,
        path is Err && old(extracted).lane is Consumer ==> path_result->Err_0@
            == "Consumer deferral path extraction failed for segment "@ + decimal(
            old(extracted).task.segment_idx as nat,
        ) + ": "@ + path->Err_0@,
        built_result is Ok <==> proofs is Ok,
        proofs is Ok ==> final(built).stage is Encode
            && final(built).deferral_merkle_proofs_bytes == proofs->Ok_0,
        proofs is Err ==> final(built).stage is Failed,
        proofs is Err && old(built).lane is Coordinator ==> built_result->Err_0@ == proofs->Err_0@,
        proofs is Err && old(built).lane is Consumer ==> built_result->Err_0@
            == "Consumer depth-0 deferral merkle build failed for segment "@ + decimal(
            old(built).task.segment_idx as nat,
        ) + ": "@ + proofs->Err_0@,
{
}

/// An app proof is the encoded proof of its segment, with the times and the merkle data
/// that were recorded on the way.
pub proof fn app_proofs_hold_what_was_recorded(
    run: SegmentRun,
    context: ProofContext,
    outcome: Result<ProofBytes, String>,
    r: Result<AppProof, String>,
)
    requires
        call_ensures(SegmentRun::encoded, (run, context, outcome), r),
    ensures
        r is Ok <==> outcome is Ok,
        r is Ok ==> {
            &&& r->Ok_0.context == context
            &&& r->Ok_0.state.proof == Some(outcome->Ok_0)
            &&& r->Ok_0.state.segment_idx == run.task.segment_idx
            &&& r->Ok_0.state.prove_time_ms == run.prove_time_ms
            &&& r->Ok_0.state.fastfwd_time_ms == run.fastfwd_time_ms
            &&& r->Ok_0.state.stark_prove_time_ms == run.stark_prove_time_ms
            &&& r->Ok_0.state.queue_wait_ms == run.task.queue_wait_ms
            &&& r->Ok_0.state.metered_time_ms == run.task.metered_time_ms
            &&& r->Ok_0.state.sub_metrics == run.sub_metrics
            &&& r->Ok_0.state.final_merkle_path_bytes == run.final_merkle_path_bytes
            &&& r->Ok_0.state.deferral_merkle_proofs_bytes == run.deferral_merkle_proofs_bytes
        },
        r is Err && run.lane is Coordinator ==> r->Err_0@ == outcome->Err_0@,
        r is Err && run.lane is Consumer ==> r->Err_0@
            == "Consumer failed to encode proof for segment "@ + decimal(
            run.task.segment_idx as nat,
        ) + ": "@ + outcome->Err_0@,
{
}

/// A segment is taken up exactly if its proof is not canceled. A loop that streams hands
/// each proof on; another keeps it behind those before.
pub proof fn loops_keep_or_hand_on(
    taking: &mut SegmentLoop,
    cancellations: &Cancellations,
    proof_uuid: &str,
    taken: bool,
    delivering: &mut SegmentLoop,
    app: AppProof,
    r: Delivery,
)
    requires
        call_ensures(SegmentLoop::take_segment, (taking, cancellations, proof_uuid), taken),
        call_ensures(SegmentLoop::deliver, (delivering, app), r),
    ensures
        taken <==> !cancellations@.contains(proof_uuid@),
        !taken ==> final(taking).verdict is Canceled,
        final(taking).results == old(taking).results,
        old(delivering).streams ==> r is Stream && r->Stream_0 == ProofResult::App(app)
            && final(delivering).results == old(delivering).results,
        !old(delivering).streams ==> r is Collected && final(delivering).results@.len()
            == old(delivering).results@.len() + 1 && final(delivering).results@.last()
            == ProofResult::App(app) && final(delivering).results@.drop_last()
            == old(delivering).results@,
        final(delivering).streams == old(delivering).streams,
        final(delivering).lane == old(delivering).lane,
        old(delivering).verdict is Running ==> final(delivering).verdict is Running,
{
}

/// A closed stream stops a consumer and not the coordinator; a proof that cannot be encoded
/// fails a consumer and makes the coordinator give up.
pub proof fn lanes_fail_in_their_own_way(
    streaming: &mut SegmentLoop,
    segment_idx: usize,
    taken: bool,
    encoding: &mut SegmentLoop,
    error: String,
)
    requires
        call_ensures(SegmentLoop::streamed, (streaming, segment_idx, taken), ()),
        call_ensures(SegmentLoop::fail_encoding, (encoding, error), ()),
        old(streaming).verdict is Running,
    ensures
        final(streaming).verdict is Failed <==> !taken && old(streaming).lane is Consumer,
        taken || old(streaming).lane is Coordinator ==> *final(streaming) == *old(streaming),
        !taken && old(streaming).lane is Consumer ==> final(streaming).verdict->Failed_0@
            == "Consumer failed to stream proof for segment "@ + decimal(segment_idx as nat)
            + ": result channel closed"@,
        final(streaming).results == old(streaming).results,
        final(encoding).results == old(encoding).results,
        old(encoding).lane is Coordinator ==> final(encoding).verdict == LoopVerdict::Aborted(
            error,
        ),
        old(encoding).lane is Consumer ==> final(encoding).verdict == LoopVerdict::Failed(error),
{
}

/// A consumer succeeds exactly if its loop ran to the end, and reports all that it
/// collected; a canceled one reports the cancellation, and a failed one the failure.
pub proof fn consumers_report_their_loop(looped: SegmentLoop, r: ProverResult)
    requires
        call_ensures(SegmentLoop::into_consumer_result, (looped,), r),
    ensures
        r is Success <==> looped.verdict is Running,
        r is Success ==> r->Success_0 == looped.results,
        r is Canceled <==> looped.verdict is Canceled,
        looped.verdict is Failed ==> r->Error_0 == looped.verdict->Failed_0,
        looped.verdict is Aborted ==> r->Error_0 == looped.verdict->Aborted_0,
{
}

/// A job on several provers has one consumer fewer than provers, since the coordinator
/// proves too, and room for two segments for each of them.
pub proof fn the_coordinator_is_one_of_the_provers(max_app_provers: usize, r: ParallelShape)
    requires
        call_ensures(parallel_shape, (max_app_provers,), r),
    ensures
        max_app_provers > 0 ==> r.consumers + 1 == max_app_provers && r.channel_capacity == 2 * (
        r.consumers + 1),
        max_app_provers == 0 ==> r.consumers == 0 && r.channel_capacity == 0,
{
}

/// A segment can be taken up exactly if it does not start before its snapshot; what is
/// skipped then leads from the snapshot to its start, and may be nothing.
pub proof fn segments_start_behind_their_snapshot(
    task: &SegmentTask,
    r: Result<(), String>,
    run: &SegmentRun,
    skipped: u64,
)
    requires
        call_ensures(SegmentTask::check, (task,), r),
        call_ensures(SegmentRun::instructions_to_skip, (run,), skipped),
        run.task == *task,
    ensures
        r is Ok <==> task.snapshot_instret <= task.instret_start,
        r is Err ==> r->Err_0@ == "Segment "@ + decimal(task.segment_idx as nat)
            + " starts before its snapshot"@,
        r is Ok ==> task.snapshot_instret + skipped == task.instret_start,
{
}

/// The text of a failed job opens with its kind and ends with what went wrong.
pub proof fn failures_open_with_the_kind(kind: AppJobKind, e: &str, r: String, gone: String)
    requires
        call_ensures(AppJobKind::failure, (kind, e), r),
        call_ensures(AppJobKind::disconnected, (kind,), gone),
    ensures
        kind is Sharded ==> r@ == "Sharded app prove failed: "@ + e@ && gone@
            == "Prover disconnected"@,
        kind is Parallel ==> r@ == "Parallel app prove failed: "@ + e@ && gone@
            == "All prover consumers disconnected"@,
{
}

/// A loop whose segment failed keeps what it collected and says why it failed.
pub proof fn failed_loops_say_why(looped: &mut SegmentLoop, error: String)
    requires
        call_ensures(SegmentLoop::fail, (looped, error), ()),
    ensures
        final(looped).verdict == LoopVerdict::Failed(error),
        final(looped).results == old(looped).results,
        final(looped).lane == old(looped).lane,
        final(looped).streams == old(looped).streams,
{
}

/// A segment is taken up with nothing recorded of it, at the fast-forward, and a loop with
/// nothing collected.
pub proof fn segments_and_loops_begin_empty(
    task: SegmentTask,
    lane: Lane,
    is_deferral_job: bool,
    run: SegmentRun,
    streams: bool,
    looped: SegmentLoop,
)
    requires
        call_ensures(SegmentRun::begin, (task, lane, is_deferral_job), run),
        call_ensures(SegmentLoop::new, (lane, streams), looped),
    ensures
        run.stage is FastForward,
        run.task == task,
        run.lane == lane,
        run.is_deferral_job == is_deferral_job,
        run.final_merkle_path_bytes is None,
        run.deferral_merkle_proofs_bytes is None,
        looped.verdict is Running,
        looped.results@.len() == 0,
        looped.lane == lane,
        looped.streams == streams,
{
}

} // verus!
