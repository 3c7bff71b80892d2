//! Provers that simulate their work, to run a worker without proving hardware.
//!
//! They check a job less strictly than the real provers do and report a stand-in
//! proof of the right shape.

use vstd::prelude::*;
use vstd::string::*;

use crate::context::ProofContext;
use crate::provers::{
    finish_internal, finish_leaf, internal_failure, leaf_failure, reports_internal, reports_leaf,
    AggregationError, InternalProverJob, InternalRun, LeafProverJob, LeafRun, ProverResult,
    WrapTimings,
};
use crate::requests::{ProofBytes, SegmentBytes};
use crate::results::{
    AppProof, AppProofState, ExecuteE2Result, ExecuteE2State, ProofResult,
};
use crate::segments::{AppJobKind, ShardedAppProverJob};

verus! {

/// The number of segments of a simulated execution.
pub const SIMULATED_SEGMENTS: usize = 16;

/// The cost of a simulated execution.
pub const SIMULATED_COST: u64 = 1000;

/// Why a simulated aggregation is rejected, if it is.
pub open spec fn simulated_rejection(
    count: usize,
    start: usize,
    end: usize,
    empty: AggregationError,
) -> Option<AggregationError> {
    if count == 0 {
        Some(empty)
    } else if start > end {
        Some(AggregationError::InvalidSegmentRange { start, end })
    } else {
        None
    }
}

fn check_simulated(count: usize, start: usize, end: usize, empty: AggregationError) -> (r: Result<
    (),
    AggregationError,
>)
    ensures
        simulated_rejection(count, start, end, empty) is None ==> r is Ok,
        simulated_rejection(count, start, end, empty) matches Some(e) ==> r == Err::<
            (),
            AggregationError,
        >(e),
{
    if count == 0 {
        return Err(empty);
    }
    if start > end {
        return Err(AggregationError::InvalidSegmentRange { start, end });
    }
    Ok(())
}

/// Simulate a leaf job: check it, have `simulate` stand in for the circuit, and report.
pub fn prove_leaf<P, U, S: FnOnce() -> LeafRun>(job: LeafProverJob<P, U>, simulate: S) -> (r:
    ProverResult)
    requires
        call_requires(simulate, ()),
    ensures
        ({
            let rejection = simulated_rejection(
                job.app_proofs@.len() as usize,
                job.segment_start,
                job.segment_end,
                AggregationError::NoAppProofs,
            );
            &&& rejection matches Some(e) ==> r is Error && r->Error_0@ == "Leaf prove failed: "@
                + e.text()
            &&& rejection is None ==> exists|run: LeafRun| #[trigger]
                call_ensures(simulate, (), run) && reports_leaf(
                    job.context,
                    job.segment_start,
                    job.segment_end,
                    run,
                    r,
                )
        }),
{
    match check_simulated(
        job.app_proofs.len(),
        job.segment_start,
        job.segment_end,
        AggregationError::NoAppProofs,
    ) {
        Err(e) => {
            let text = e.message();
            ProverResult::Error(leaf_failure(text.as_str()))
        },
        Ok(()) => {
            let run = simulate();
            let ghost seen = run;
            assert(call_ensures(simulate, (), seen));
            finish_leaf(job.context, job.segment_start, job.segment_end, run)
        },
    }
}

/// Whether `run` is what a simulated internal aggregation came to: `simulated` where
/// the proof is not final; where it is, with the time of `compress` for its wrap.
pub open spec fn simulates_internal<C: FnOnce() -> u64>(
    simulated: LeafRun,
    is_final: bool,
    compress: C,
    run: InternalRun,
) -> bool {
    &&& run.encoded == simulated.encoded
    &&& run.prove_time_ms == simulated.prove_time_ms
    &&& run.sub_metrics == simulated.sub_metrics
    &&& run.wrap is Some <==> is_final
    &&& run.wrap matches Some(w) ==> w.sub_metrics@.len() == 0 && call_ensures(
        compress,
        (),
        w.wrap_time_ms,
    )
}

/// Simulate an internal job. Final proofs take longer: they are compressed. `plus`
/// sums two durations.
pub fn prove_internal<P, U, S: FnOnce() -> LeafRun, C: FnOnce() -> u64, F: Fn(u64, u64) -> u64>(
    job: InternalProverJob<P, U>,
    simulate: S,
    compress: C,
    plus: F,
) -> (r: ProverResult)
    requires
        call_requires(simulate, ()),
        call_requires(compress, ()),
        forall|x: u64, y: u64| #[trigger] call_requires(plus, (x, y)),
    ensures
        ({
            let rejection = simulated_rejection(
                job.child_proofs@.len() as usize,
                job.segment_start,
                job.segment_end,
                AggregationError::NoChildProofs,
            );
            &&& rejection matches Some(e) ==> r is Error && r->Error_0@
                == "Internal prove failed: "@ + e.text()
            &&& rejection is None ==> exists|simulated: LeafRun, run: InternalRun|
                {
                    &&& call_ensures(simulate, (), simulated)
                    &&& #[trigger] simulates_internal(simulated, job.is_final_proof, compress, run)
                    &&& reports_internal(
                        job.context,
                        job.layer_idx,
                        job.segment_start,
                        job.segment_end,
                        run,
                        plus,
                        r,
                    )
                }
        }),
{
    match check_simulated(
        job.child_proofs.len(),
        job.segment_start,
        job.segment_end,
        AggregationError::NoChildProofs,
    ) {
        Err(e) => {
            let text = e.message();
            ProverResult::Error(internal_failure(text.as_str()))
        },
        Ok(()) => {
            let simulated = simulate();
            let ghost seen = simulated;
            let wrap = if job.is_final_proof {
                Some(WrapTimings { wrap_time_ms: compress(), sub_metrics: Vec::new() })
            } else {
                None
            };
            let run = InternalRun {
                encoded: simulated.encoded,
                prove_time_ms: simulated.prove_time_ms,
                sub_metrics: simulated.sub_metrics,
                wrap,
            };
            assert(simulates_internal(seen, job.is_final_proof, compress, run));
            finish_internal(
                job.context,
                job.layer_idx,
                job.segment_start,
                job.segment_end,
                run,
                plus,
            )
        },
    }
}

/// The segments below `limit` that a prover simulates, in order.
pub open spec fn simulated_share(num_provers: usize, prover_id: usize, limit: nat) -> Seq<usize>
    decreases limit,
{
    if limit == 0 {
        Seq::empty()
    } else {
        let before = simulated_share(num_provers, prover_id, (limit - 1) as nat);
        if (limit - 1) % num_provers as int == prover_id {
            before.push((limit - 1) as usize)
        } else {
            before
        }
    }
}

/// Whether `result` is the execution that prover 0 reports: all segments, with the
/// same stand-in for each.
pub open spec fn is_simulated_execution(
    context: ProofContext,
    segment: Seq<u8>,
    execute_time_ms: u64,
    result: ProofResult,
) -> bool {
    &&& result matches ProofResult::ExecuteE2(e)
    &&& e.context.same_as(context)
    &&& e.state.num_segments == SIMULATED_SEGMENTS
    &&& e.state.segments@.len() == SIMULATED_SEGMENTS
    &&& forall|i: int|
        0 <= i < e.state.segments@.len() ==> (#[trigger] e.state.segments@[i])@ == segment
    &&& e.state.cost == SIMULATED_COST
    &&& e.state.execute_time_ms == execute_time_ms
}

/// Whether `result` is the app proof of a segment, as `simulate` gave it.
pub open spec fn is_simulated_proof<S: Fn(usize) -> LeafRun>(
    context: ProofContext,
    simulate: S,
    segment_idx: usize,
    result: ProofResult,
) -> bool {
    &&& result matches ProofResult::App(p)
    &&& p.context.same_as(context)
    &&& p.state.segment_idx == segment_idx
    &&& p.state.fastfwd_time_ms == 0
    &&& p.state.stark_prove_time_ms == p.state.prove_time_ms
    &&& p.state.queue_wait_ms == 0
    &&& p.state.metered_time_ms == 0
    &&& p.state.final_merkle_path_bytes is None
    &&& p.state.deferral_merkle_proofs_bytes is None
    &&& p.state.worker_id == 0
    &&& p.state.completed_at_ms == 0
    &&& p.state.proof matches Some(bytes)
    &&& call_ensures(
        simulate,
        (segment_idx,),
        LeafRun {
            encoded: Ok(bytes),
            prove_time_ms: p.state.prove_time_ms,
            sub_metrics: p.state.sub_metrics,
        },
    )
}

/// What a simulated app job came to.
pub struct SimulatedApp {
    /// The results sent while the job ran, if it streams them.
    pub streamed: Vec<ProofResult>,
    /// What the job reports at its end.
    pub result: ProverResult,
}

/// The results of a job in the order in which they were made: streamed, or collected.
pub open spec fn results_of(app: SimulatedApp) -> Seq<ProofResult> {
    if app.result is Success {
        app.streamed@ + app.result->Success_0@
    } else {
        app.streamed@
    }
}

/// Whether `made` holds the results that a job made up to the first `done` segments of
/// its share: the execution, where prover 0 runs it, and the proof of each of these
/// segments, in order. Each of them was simulated without a failure.
pub open spec fn are_first_results<S: Fn(usize) -> LeafRun>(
    job: ShardedAppProverJob,
    segment: Seq<u8>,
    execute_time_ms: u64,
    simulate: S,
    done: int,
    made: Seq<ProofResult>,
) -> bool {
    let share = simulated_share(job.num_provers, job.prover_id, SIMULATED_SEGMENTS as nat);
    let skip: int = if job.prover_id == 0 {
        1
    } else {
        0
    };
    &&& 0 <= done <= share.len()
    &&& made.len() == skip + done
    &&& job.prover_id == 0 ==> is_simulated_execution(
        job.context,
        segment,
        execute_time_ms,
        made[0],
    )
    &&& forall|i: int|
        0 <= i < done ==> is_simulated_proof(
            job.context,
            simulate,
            #[trigger] share[i],
            made[skip + i],
        )
}

/// Simulate a sharded app job over [`SIMULATED_SEGMENTS`] segments. Prover 0 first
/// reports the execution, of which the manager learns the number of segments; then
/// each prover reports the segments that fall to it, in order. The job fails at the
/// first segment whose simulation does; what was streamed before stays sent.
pub fn prove_sharded_app<S: Fn(usize) -> LeafRun>(
    job: ShardedAppProverJob,
    execute_time_ms: u64,
    segment: Result<SegmentBytes, String>,
    simulate: S,
) -> (r: SimulatedApp)
    requires
        job.num_provers > 0,
        forall|segment_idx: usize| #[trigger] call_requires(simulate, (segment_idx,)),
    ensures
        ({
            let share = simulated_share(
                job.num_provers,
                job.prover_id,
                SIMULATED_SEGMENTS as nat,
            );
            if job.prover_id == 0 && segment is Err {
                &&& r.streamed@.len() == 0
                &&& r.result is Error
                &&& r.result->Error_0@ == "Sharded app prove failed: "@ + segment->Err_0@
            } else {
                &&& r.result is Success || r.result is Error
                &&& !job.streams_results ==> r.streamed@.len() == 0
                &&& job.streams_results && r.result is Success ==> r.result->Success_0@.len() == 0
                &&& r.result is Success ==> are_first_results(
                    job,
                    segment->Ok_0@,
                    execute_time_ms,
                    simulate,
                    share.len() as int,
                    results_of(r),
                )
                &&& r.result is Error ==> exists|j: int, run: LeafRun, made: Seq<ProofResult>|
                    {
                        &&& 0 <= j < share.len()
                        &&& #[trigger] call_ensures(simulate, (share[j],), run)
                        &&& run.encoded is Err
                        &&& r.result->Error_0@ == "Sharded app prove failed: "@
                            + run.encoded->Err_0@
                        &&& #[trigger] are_first_results(
                            job,
                            segment->Ok_0@,
                            execute_time_ms,
                            simulate,
                            j,
                            made,
                        )
                        &&& job.streams_results ==> r.streamed@ == made
                    }
            }
        }),
{
    let ghost n = job.num_provers;
    let ghost id = job.prover_id;
    let mut results: Vec<ProofResult> = Vec::new();
    if job.prover_id == 0 {
        let bytes = match segment {
            Err(e) => {
                return SimulatedApp { streamed: Vec::new(), result: failed(e.as_str()) };
            },
            Ok(bytes) => bytes,
        };
        let mut segments: Vec<SegmentBytes> = Vec::new();
        let mut i: usize = 0;
        while i < SIMULATED_SEGMENTS
            invariant
                i <= SIMULATED_SEGMENTS,
                segments@.len() == i,
                forall|k: int| 0 <= k < i ==> (#[trigger] segments@[k])@ == bytes@,
            decreases SIMULATED_SEGMENTS - i,
        {
            segments.push(bytes.clone());
            i = i + 1;
        }
        let state = ExecuteE2State {
            num_segments: SIMULATED_SEGMENTS,
            segments,
            cost: SIMULATED_COST,
            execute_time_ms,
        };
        let context = job.context.clone();
        results.push(ProofResult::ExecuteE2(ExecuteE2Result { context, state }));
    }
    let ghost skip = results@.len() as int;
    let ghost first = results@;
    let mut idx: usize = 0;
    while idx < SIMULATED_SEGMENTS
        invariant
            idx <= SIMULATED_SEGMENTS,
            n == job.num_provers,
            id == job.prover_id,
            n > 0,
            forall|segment_idx: usize| #[trigger] call_requires(simulate, (segment_idx,)),
            skip == first.len(),
            results@.len() == skip + simulated_share(n, id, idx as nat).len(),
            forall|k: int| 0 <= k < skip ==> #[trigger] results@[k] == first[k],
            forall|j: int|
                0 <= j < simulated_share(n, id, idx as nat).len() ==> is_simulated_proof(
                    job.context,
                    simulate,
                    #[trigger] simulated_share(n, id, idx as nat)[j],
                    results@[skip + j],
                ),
            job.prover_id == 0 ==> segment is Ok && skip == 1 && is_simulated_execution(
                job.context,
                segment->Ok_0@,
                execute_time_ms,
                first[0],
            ),
            job.prover_id != 0 ==> skip == 0,
        decreases SIMULATED_SEGMENTS - idx,
    {
        let ghost before = simulated_share(n, id, idx as nat);
        let ghost made = results@;
        if idx % job.num_provers == job.prover_id {
            let run = simulate(idx);
            let ghost seen = run;
            let proof = match run.encoded {
                Ok(proof) => proof,
                Err(e) => {
                    proof {
                        share_grows(n, id, (idx + 1) as nat, SIMULATED_SEGMENTS as nat);
                        let share = simulated_share(n, id, SIMULATED_SEGMENTS as nat);
                        let mine = simulated_share(n, id, (idx + 1) as nat);
                        assert(mine[before.len() as int] == idx);
                        assert(share[before.len() as int] == idx);
                        assert(call_ensures(simulate, (share[before.len() as int],), seen));
                        assert forall|i: int| 0 <= i < before.len() implies is_simulated_proof(
                            job.context,
                            simulate,
                            #[trigger] share[i],
                            results@[skip + i],
                        ) by {
                            assert(mine[i] == before[i]);
                        }
                        assert(are_first_results(
                            job,
                            segment->Ok_0@,
                            execute_time_ms,
                            simulate,
                            before.len() as int,
                            results@,
                        ));
                    }
                    if job.streams_results {
                        return SimulatedApp { streamed: results, result: failed(e.as_str()) };
                    }
                    return SimulatedApp { streamed: Vec::new(), result: failed(e.as_str()) };
                },
            };
            let state = AppProofState {
                proof: Some(proof),
                segment_idx: idx,
                prove_time_ms: run.prove_time_ms,
                fastfwd_time_ms: 0,
                stark_prove_time_ms: run.prove_time_ms,
                queue_wait_ms: 0,
                metered_time_ms: 0,
                sub_metrics: run.sub_metrics,
                final_merkle_path_bytes: None,
                deferral_merkle_proofs_bytes: None,
                worker_id: 0,
                completed_at_ms: 0,
            };
            let context = job.context.clone();
            results.push(ProofResult::App(AppProof { context, state }));
            assert(is_simulated_proof(job.context, simulate, idx, results@.last()));
        }
        idx = idx + 1;
        proof {
            let now = simulated_share(n, id, idx as nat);
            assert forall|j: int| 0 <= j < now.len() implies is_simulated_proof(
                job.context,
                simulate,
                #[trigger] now[j],
                results@[skip + j],
            ) by {
                if j < before.len() {
                    assert(now[j] == before[j]);
                    assert(results@[skip + j] == made[skip + j]);
                }
            }
        }
    }
    if job.streams_results {
        let r = SimulatedApp { streamed: results, result: ProverResult::Success(Vec::new()) };
        assert(results_of(r) =~= results@);
        r
    } else {
        let r = SimulatedApp { streamed: Vec::new(), result: ProverResult::Success(results) };
        assert(results_of(r) =~= results@);
        r
    }
}

fn failed(e: &str) -> (r: ProverResult)
    ensures
        r is Error,
        r->Error_0@ == "Sharded app prove failed: "@ + e@,
{
    ProverResult::Error(AppJobKind::Sharded.failure(e))
}

/// The share of a prover only grows at its end as more segments are known.
proof fn share_grows(num_provers: usize, prover_id: usize, few: nat, many: nat)
    requires
        few <= many,
    ensures
        simulated_share(num_provers, prover_id, few).len() <= simulated_share(
            num_provers,
            prover_id,
            many,
        ).len(),
        forall|j: int|
            0 <= j < simulated_share(num_provers, prover_id, few).len()
                ==> simulated_share(num_provers, prover_id, many)[j] == #[trigger] simulated_share(
                num_provers,
                prover_id,
                few,
            )[j],
    decreases many - few,
{
    if few < many {
        share_grows(num_provers, prover_id, few, (many - 1) as nat);
    }
}

/// The segments of a prover are those below the limit whose index leaves its number as
/// the remainder, each once and in increasing order.
pub proof fn shares_are_dealt_in_turn(num_provers: usize, prover_id: usize, limit: nat)
    requires
        0 < num_provers,
        limit <= usize::MAX,
    ensures
        forall|i: int|
            0 <= i < simulated_share(num_provers, prover_id, limit).len() ==> (
            #[trigger] simulated_share(num_provers, prover_id, limit)[i]) < limit
                && simulated_share(num_provers, prover_id, limit)[i] % num_provers == prover_id,
        forall|i: int, j: int|
            0 <= i < j < simulated_share(num_provers, prover_id, limit).len() ==> (
            #[trigger] simulated_share(num_provers, prover_id, limit)[i]) < (
            #[trigger] simulated_share(num_provers, prover_id, limit)[j]),
        forall|s: usize|
            s < limit && s % num_provers == prover_id ==> #[trigger] simulated_share(
                num_provers,
                prover_id,
                limit,
            ).contains(s),
    decreases limit,
{
    if limit > 0 {
        shares_are_dealt_in_turn(num_provers, prover_id, (limit - 1) as nat);
        let before = simulated_share(num_provers, prover_id, (limit - 1) as nat);
        let now = simulated_share(num_provers, prover_id, limit);
        assert forall|s: usize| s < limit && s % num_provers == prover_id implies
            #[trigger] now.contains(s) by {
            if s < limit - 1 {
                assert(before.contains(s));
                let i = choose|i: int| 0 <= i < before.len() && before[i] == s;
                assert(now[i] == s);
            } else {
                assert(now[now.len() - 1] == s);
            }
        }
    }
}

/// A simulated leaf job fails exactly where it has no proofs, where its range is none, or
/// where the simulation fails; any number of proofs will do.
pub proof fn simulated_leaves_are_checked<P, U, S: FnOnce() -> LeafRun>(
    job: LeafProverJob<P, U>,
    simulate: S,
    r: ProverResult,
)
    requires
        call_ensures(prove_leaf::<P, U, S>, (job, simulate), r),
    ensures
        job.app_proofs@.len() == 0 || job.segment_start > job.segment_end ==> r is Error,
        job.app_proofs@.len() > 0 && job.segment_start <= job.segment_end
            ==> exists|run: LeafRun|
            {
                &&& #[trigger] call_ensures(simulate, (), run)
                &&& run.encoded is Err ==> r is Error && r->Error_0@ == "Leaf prove failed: "@
                    + run.encoded->Err_0@
                &&& run.encoded is Ok ==> r is Success && r->Success_0@.len() == 1
                    && r->Success_0@[0] is Leaf && r->Success_0@[0]->Leaf_0.context
                    == job.context && r->Success_0@[0]->Leaf_0.state.proof == Some(
                    run.encoded->Ok_0,
                ) && r->Success_0@[0]->Leaf_0.state.segment_start == job.segment_start
                    && r->Success_0@[0]->Leaf_0.state.segment_end == job.segment_end
            },
{
    assert(job.app_proofs@.len() == job.app_proofs.len());
}

/// A simulated internal job fails exactly where it has no proofs, where its range is none,
/// or where the simulation fails. Its compression takes time only if the proof is final.
pub proof fn simulated_internals_are_checked<
    P,
    U,
    S: FnOnce() -> LeafRun,
    C: FnOnce() -> u64,
    F: Fn(u64, u64) -> u64,
>(job: InternalProverJob<P, U>, simulate: S, compress: C, plus: F, r: ProverResult)
    requires
        call_ensures(prove_internal::<P, U, S, C, F>, (job, simulate, compress, plus), r),
    ensures
        job.child_proofs@.len() == 0 || job.segment_start > job.segment_end ==> r is Error,
        job.child_proofs@.len() > 0 && job.segment_start <= job.segment_end
            ==> exists|simulated: LeafRun|
            {
                &&& #[trigger] call_ensures(simulate, (), simulated)
                &&& simulated.encoded is Err ==> r is Error && r->Error_0@
                    == "Internal prove failed: "@ + simulated.encoded->Err_0@
                &&& simulated.encoded is Ok ==> r is Success && r->Success_0@.len() == 1
                    && r->Success_0@[0] is Internal && r->Success_0@[0]->Internal_0.context
                    == job.context && r->Success_0@[0]->Internal_0.state.proof == Some(
                    simulated.encoded->Ok_0,
                ) && r->Success_0@[0]->Internal_0.state.layer_idx == job.layer_idx
                    && r->Success_0@[0]->Internal_0.state.prove_time_ms
                    == simulated.prove_time_ms
            },
        r is Success && !job.is_final_proof
            ==> r->Success_0@[0]->Internal_0.state.compression_time_ms == 0,
        r is Success && job.is_final_proof ==> call_ensures(
            compress,
            (),
            r->Success_0@[0]->Internal_0.state.compression_time_ms,
        ),
{
    assert(job.child_proofs@.len() == job.child_proofs.len());
}

/// A simulated app job that succeeds has proved every one of the sixteen segments that
/// falls to its prover, in order, and nothing else. Prover 0, and no other, reports the
/// execution before them. All of it is streamed, or all of it is in the report.
pub proof fn simulated_shares_are_proved<S: Fn(usize) -> LeafRun>(
    job: ShardedAppProverJob,
    execute_time_ms: u64,
    segment: Result<SegmentBytes, String>,
    simulate: S,
    r: SimulatedApp,
    made: Seq<ProofResult>,
    skip: int,
)
    requires
        call_ensures(prove_sharded_app::<S>, (job, execute_time_ms, segment, simulate), r),
        job.num_provers > 0,
        r.result is Success,
        made == (if job.streams_results {
            r.streamed@
        } else {
            r.result->Success_0@
        }),
        skip == (if job.prover_id == 0 {
            1int
        } else {
            0int
        }),
    ensures
        job.streams_results ==> r.result->Success_0@.len() == 0,
        !job.streams_results ==> r.streamed@.len() == 0,
        job.prover_id == 0 ==> segment is Ok && made.len() > 0 && made[0] is ExecuteE2
            && made[0]->ExecuteE2_0.state.num_segments == 16
            && made[0]->ExecuteE2_0.state.segments@.len() == 16
            && made[0]->ExecuteE2_0.state.cost == 1000
            && made[0]->ExecuteE2_0.state.execute_time_ms == execute_time_ms
            && made[0]->ExecuteE2_0.context.proof_uuid == job.context.proof_uuid,
        job.prover_id == 0 ==> forall|i: int|
            0 <= i < 16 ==> (#[trigger] made[0]->ExecuteE2_0.state.segments@[i])@
                == segment->Ok_0@,
        forall|i: int|
            skip <= i < made.len() ==> {
                &&& (#[trigger] made[i]) is App
                &&& made[i]->App_0.state.segment_idx < 16
                &&& made[i]->App_0.state.segment_idx % job.num_provers == job.prover_id
                &&& made[i]->App_0.context.proof_uuid == job.context.proof_uuid
                &&& made[i]->App_0.state.fastfwd_time_ms == 0
                &&& made[i]->App_0.state.queue_wait_ms == 0
                &&& made[i]->App_0.state.final_merkle_path_bytes is None
                &&& made[i]->App_0.state.deferral_merkle_proofs_bytes is None
                &&& made[i]->App_0.state.metered_time_ms == 0
                &&& made[i]->App_0.state.stark_prove_time_ms
                    == made[i]->App_0.state.prove_time_ms
                &&& made[i]->App_0.state.proof is Some
                &&& exists|run: LeafRun|
                    #[trigger] call_ensures(
                        simulate,
                        (made[i]->App_0.state.segment_idx,),
                        run,
                    ) && run.encoded == Ok::<ProofBytes, String>(made[i]->App_0.state.proof->0)
                        && run.prove_time_ms == made[i]->App_0.state.prove_time_ms
                        && run.sub_metrics == made[i]->App_0.state.sub_metrics
            },
        forall|i: int, j: int|
            skip <= i < j < made.len() ==> (#[trigger] made[i])->App_0.state.segment_idx < (
            #[trigger] made[j])->App_0.state.segment_idx,
        forall|s: usize|
            s < 16 && #[trigger] (s % job.num_provers) == job.prover_id ==> exists|i: int|
                skip <= i < made.len() && (#[trigger] made[i])->App_0.state.segment_idx == s,
{
    let share = simulated_share(job.num_provers, job.prover_id, SIMULATED_SEGMENTS as nat);
    shares_are_dealt_in_turn(job.num_provers, job.prover_id, SIMULATED_SEGMENTS as nat);
    assert(made =~= results_of(r));
    assert(made.len() == skip + share.len());
    assert forall|i: int| skip <= i < made.len() implies is_simulated_proof(
        job.context,
        simulate,
        share[i - skip],
        #[trigger] made[i],
    ) by {
        assert(is_simulated_proof(job.context, simulate, share[i - skip], made[skip + (i - skip)]));
    }
    assert forall|s: usize| s < 16 && #[trigger] (s % job.num_provers) == job.prover_id implies
        exists|i: int|
        skip <= i < made.len() && (#[trigger] made[i])->App_0.state.segment_idx == s by {
        assert(share.contains(s));
        let j = choose|j: int| 0 <= j < share.len() && share[j] == s;
        assert(made[j + skip]->App_0.state.segment_idx == s);
    }
}

} // verus!
