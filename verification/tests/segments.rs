use edge_worker::cancellation::{cancel, Cancellations};
use edge_worker::context::ProofContext;
use edge_worker::program::ProgramRef;
use edge_worker::provers::ProverResult;
use edge_worker::results::{AppProof, ProofResult};
use edge_worker::segments::{
    conclude_sharded, consumer_failure, executor_report, parallel_shape, AppJobKind, Delivery,
    ExecutorOutcome, Lane, ProvedSegment, SegmentLoop, SegmentRun, SegmentStage, SegmentTask,
};

fn context() -> ProofContext {
    ProofContext::new("p".to_string(), ProgramRef::new("prog", 1), Default::default())
}

fn task(idx: usize, is_final: bool) -> SegmentTask {
    SegmentTask {
        segment_idx: idx,
        is_final,
        instret_start: 1000,
        snapshot_instret: 900,
        queue_wait_ms: 3,
        metered_time_ms: 4,
    }
}

fn proved(has_final_memory: bool) -> ProvedSegment {
    ProvedSegment {
        has_final_memory,
        stark_prove_time_ms: 50,
        prove_time_ms: 60,
        sub_metrics: vec![],
    }
}

fn app_proof(idx: usize) -> AppProof {
    let mut run = SegmentRun::begin(task(idx, false), Lane::Coordinator, false);
    run.fast_forwarded(Ok(7)).unwrap();
    run.proved(Ok(proved(false))).unwrap();
    match run.encoded(context(), Ok(vec![idx as u8])) {
        Ok(p) => p,
        Err(e) => panic!("{e}"),
    }
}

#[test]
fn consumer_failure_returns_prover_error() {
    let result = consumer_failure("consumer failed on segment 7".to_string());
    let ProverResult::Error(error) = result else {
        panic!("expected ProverResult::Error");
    };
    assert_eq!(error, "consumer failed on segment 7");
}

#[test]
fn the_last_segment_alone_carries_user_public_values() {
    for has_deferral in [false, true] {
        for is_final in [false, true] {
            let run = SegmentRun::begin(task(3, is_final), Lane::Coordinator, has_deferral);
            assert_eq!(run.carries_user_public_values(), is_final);
        }
    }
}

#[test]
fn app_jobs_word_their_failures() {
    assert_eq!(AppJobKind::Sharded.failure("x"), "Sharded app prove failed: x");
    assert_eq!(AppJobKind::Parallel.failure("x"), "Parallel app prove failed: x");
    assert_eq!(AppJobKind::Sharded.disconnected(), "Prover disconnected");
    assert_eq!(AppJobKind::Parallel.disconnected(), "All prover consumers disconnected");
    let mut late = task(6, false);
    assert_eq!(late.check(), Ok(()));
    late.snapshot_instret = late.instret_start + 1;
    assert_eq!(late.check(), Err("Segment 6 starts before its snapshot".to_string()));
}

#[test]
fn a_plain_segment_carries_no_merkle_data() {
    let p = app_proof(5);
    assert_eq!(p.state.segment_idx, 5);
    assert_eq!(p.state.proof, Some(vec![5]));
    assert_eq!(p.state.fastfwd_time_ms, 7);
    assert_eq!(p.state.stark_prove_time_ms, 50);
    assert_eq!(p.state.prove_time_ms, 60);
    assert_eq!(p.state.queue_wait_ms, 3);
    assert_eq!(p.state.metered_time_ms, 4);
    assert_eq!(p.state.final_merkle_path_bytes, None);
    assert_eq!(p.state.deferral_merkle_proofs_bytes, None);
}

#[test]
fn the_terminal_segment_of_a_deferral_job_carries_the_path() {
    let mut run = SegmentRun::begin(task(9, true), Lane::Consumer, true);
    assert_eq!(run.instructions_to_skip(), 100);
    run.fast_forwarded(Ok(0)).unwrap();
    run.proved(Ok(proved(true))).unwrap();
    assert_eq!(run.stage, SegmentStage::ReadTopTree);
    run.top_tree_read(true).unwrap();
    assert_eq!(run.stage, SegmentStage::ExtractPath);
    run.path_extracted(Ok(vec![1, 2])).unwrap();
    match run.encoded(context(), Ok(vec![])) {
        Ok(p) => {
            assert_eq!(p.state.final_merkle_path_bytes, Some(vec![1, 2]));
            assert_eq!(p.state.deferral_merkle_proofs_bytes, None);
        }
        Err(e) => panic!("{e}"),
    }
}

#[test]
fn other_terminal_segments_carry_depth0_proofs() {
    let mut run = SegmentRun::begin(task(9, true), Lane::Consumer, false);
    run.fast_forwarded(Ok(0)).unwrap();
    run.proved(Ok(proved(true))).unwrap();
    run.top_tree_read(true).unwrap();
    assert_eq!(run.stage, SegmentStage::BuildDepth0);
    run.depth0_built(Ok(Some(vec![4]))).unwrap();
    match run.encoded(context(), Ok(vec![])) {
        Ok(p) => {
            assert_eq!(p.state.final_merkle_path_bytes, None);
            assert_eq!(p.state.deferral_merkle_proofs_bytes, Some(vec![4]));
        }
        Err(e) => panic!("{e}"),
    }
}

#[test]
fn failures_name_the_segment_in_a_consumer() {
    let mut run = SegmentRun::begin(task(3, false), Lane::Consumer, false);
    assert_eq!(
        run.fast_forwarded(Err("x".to_string())),
        Err("Consumer fast-forward failed for segment 3: x".to_string())
    );
    let mut run = SegmentRun::begin(task(3, false), Lane::Coordinator, false);
    assert_eq!(run.fast_forwarded(Err("x".to_string())), Err("x".to_string()));
    assert_eq!(run.stage, SegmentStage::Failed);

    let mut run = SegmentRun::begin(task(3, true), Lane::Consumer, false);
    run.fast_forwarded(Ok(1)).unwrap();
    assert_eq!(
        run.proved(Ok(proved(false))),
        Err("Terminal segment 3 did not return final_memory".to_string())
    );
    let mut run = SegmentRun::begin(task(3, true), Lane::Consumer, false);
    run.fast_forwarded(Ok(1)).unwrap();
    run.proved(Ok(proved(true))).unwrap();
    assert_eq!(
        run.top_tree_read(false),
        Err("Memory top tree missing for terminal segment 3".to_string())
    );
    let mut run = SegmentRun::begin(task(3, false), Lane::Consumer, false);
    run.fast_forwarded(Ok(1)).unwrap();
    assert_eq!(
        run.proved(Err("y".to_string())),
        Err("Consumer STARK prove failed for segment 3: y".to_string())
    );
}

#[test]
fn a_canceled_proof_stops_at_its_next_segment() {
    let mut registry = Cancellations::new();
    let mut looped = SegmentLoop::new(Lane::Coordinator, false);
    assert!(looped.take_segment(&registry, "p"));
    assert!(matches!(looped.deliver(app_proof(0)), Delivery::Collected));
    cancel(&mut registry, "p".to_string());
    assert!(!looped.take_segment(&registry, "p"));
    let done = ExecutorOutcome::Finished { execute_time_ms: 1, num_segments: 2 };
    assert!(matches!(
        conclude_sharded(looped, done, 0, context(), Ok(vec![]), AppJobKind::Sharded),
        ProverResult::Canceled
    ));
}

#[test]
fn prover_zero_reports_the_execution_first() {
    let mut looped = SegmentLoop::new(Lane::Coordinator, false);
    looped.deliver(app_proof(0));
    let done = ExecutorOutcome::Finished { execute_time_ms: 12, num_segments: 2 };
    match conclude_sharded(looped, done, 0, context(), Ok(vec![vec![1]]), AppJobKind::Sharded) {
        ProverResult::Success(results) => {
            assert_eq!(results.len(), 2);
            match &results[0] {
                ProofResult::ExecuteE2(e) => {
                    assert_eq!(e.state.num_segments, 2);
                    assert_eq!(e.state.execute_time_ms, 12);
                    assert_eq!(e.state.segments, vec![vec![1u8]]);
                }
                _ => panic!("expected the execution"),
            }
            assert!(matches!(results[1], ProofResult::App(_)));
        }
        _ => panic!("expected success"),
    }
    let mut looped = SegmentLoop::new(Lane::Coordinator, false);
    looped.deliver(app_proof(1));
    let done = ExecutorOutcome::Finished { execute_time_ms: 12, num_segments: 2 };
    match conclude_sharded(looped, done, 1, context(), Ok(vec![]), AppJobKind::Sharded) {
        ProverResult::Success(results) => assert_eq!(results.len(), 1),
        _ => panic!("expected success"),
    }
}

#[test]
fn failures_fail_the_job() {
    let what = AppJobKind::Parallel;
    let text = |r: ProverResult| match r {
        ProverResult::Error(e) => e,
        _ => panic!("expected an error"),
    };
    let finished = || ExecutorOutcome::Finished { execute_time_ms: 1, num_segments: 3 };
    let running = || SegmentLoop::new(Lane::Coordinator, true);

    let mut failed = running();
    failed.fail("gpu".to_string());
    assert_eq!(
        text(conclude_sharded(failed, finished(), 0, context(), Ok(vec![]), what)),
        "Parallel app prove failed: gpu"
    );
    let panicked = ExecutorOutcome::Panicked("boom".to_string());
    assert_eq!(
        text(conclude_sharded(running(), panicked, 0, context(), Ok(vec![]), what)),
        "Parallel app prove failed: Executor thread panicked: boom"
    );
    let none = ExecutorOutcome::Finished { execute_time_ms: 1, num_segments: 0 };
    assert_eq!(
        text(conclude_sharded(running(), none, 0, context(), Ok(vec![]), what)),
        "Parallel app prove failed: No segments produced from execution"
    );
    let broken = ExecutorOutcome::Failed("exit".to_string());
    assert_eq!(
        text(conclude_sharded(running(), broken, 0, context(), Ok(vec![]), what)),
        "Parallel app prove failed: exit"
    );
}

#[test]
fn a_closed_result_channel_fails_a_consumer() {
    let mut looped = SegmentLoop::new(Lane::Consumer, true);
    match looped.deliver(app_proof(4)) {
        Delivery::Stream(ProofResult::App(p)) => assert_eq!(p.state.segment_idx, 4),
        _ => panic!("a streaming loop streams"),
    }
    looped.streamed(4, false);
    match looped.into_consumer_result() {
        ProverResult::Error(e) => assert_eq!(
            e,
            "Consumer failed to stream proof for segment 4: result channel closed"
        ),
        _ => panic!("expected an error"),
    }
    let mut looped = SegmentLoop::new(Lane::Consumer, false);
    looped.fail_encoding("enc".to_string());
    assert!(matches!(looped.into_consumer_result(), ProverResult::Error(e) if e == "enc"));
}

#[test]
fn streamed_executions_are_reported_by_prover_zero() {
    assert!(matches!(executor_report(false, 0, context(), 3, Ok(vec![]), 1), Ok(None)));
    assert!(matches!(executor_report(true, 2, context(), 3, Ok(vec![]), 1), Ok(None)));
    assert!(matches!(
        executor_report(true, 0, context(), 3, Err("e".to_string()), 1),
        Err(e) if e == "e"
    ));
    match executor_report(true, 0, context(), 3, Ok(vec![vec![2]]), 9) {
        Ok(Some(ProofResult::ExecuteE2(e))) => {
            assert_eq!(e.state.num_segments, 3);
            assert_eq!(e.state.execute_time_ms, 9);
            assert_eq!(e.state.cost, 0);
        }
        _ => panic!("prover 0 reports the execution"),
    }
}

#[test]
fn parallel_jobs_have_one_consumer_less_than_provers() {
    let shape = parallel_shape(4);
    assert_eq!(shape.consumers, 3);
}
