use std::collections::VecDeque;

use edge_worker::snapshots::{
    saves_snapshot_at, seeds_initial_snapshot, terminated, validate_shard, SegmentExecutor,
    ShardError,
};

fn simulate(num_provers: usize, prover_id: usize, total_segments: usize) -> Vec<usize> {
    let mut snapshots: VecDeque<usize> = VecDeque::new();
    if seeds_initial_snapshot(prover_id) {
        snapshots.push_back(0);
    }
    let mut replay_distances = Vec::new();
    for curr_idx in 0..total_segments {
        let is_final = curr_idx == total_segments - 1;
        if curr_idx % num_provers == prover_id {
            let usable_from = if num_provers == 1 && curr_idx == 0 {
                *snapshots.front().expect("seed present for single prover")
            } else {
                snapshots
                    .pop_front()
                    .expect("snapshot missing for assigned segment")
            };
            assert!(
                usable_from <= curr_idx,
                "n={num_provers} p={prover_id}: snapshot for segment {curr_idx} \
                 starts inside segment {usable_from} — past the boundary"
            );
            replay_distances.push(curr_idx - usable_from);
        }
        if is_final {
            break;
        }
        if saves_snapshot_at(curr_idx, num_provers, prover_id) {
            snapshots.push_back(curr_idx + 1);
        }
    }
    replay_distances
}

#[test]
fn snapshot_pops_are_at_most_one_segment_stale() {
    for num_provers in 1..=6 {
        for prover_id in 0..num_provers {
            for total_segments in 1..=24 {
                let distances = simulate(num_provers, prover_id, total_segments);
                for (i, d) in distances.iter().enumerate() {
                    assert!(
                        *d <= 1,
                        "n={num_provers} p={prover_id} total={total_segments}: \
                         assigned segment #{i} replays {d} segments"
                    );
                }
            }
        }
    }
}

#[test]
fn the_executor_follows_the_same_schedule() {
    for num_provers in 1..=6 {
        for prover_id in 0..num_provers {
            for total_segments in 1..=24 {
                let expected = simulate(num_provers, prover_id, total_segments);
                let mut executor =
                    SegmentExecutor::new(num_provers, prover_id, 0usize).unwrap_or_else(|_| {
                        panic!("a valid shard")
                    });
                let mut distances = Vec::new();
                for idx in 0..total_segments {
                    let is_final = idx == total_segments - 1;
                    assert_eq!(executor.index(), idx);
                    if let Some(a) = executor.close_segment(is_final) {
                        assert_eq!(a.segment_idx, idx);
                        assert_eq!(a.is_final, is_final);
                        assert_eq!(a.snapshot.state, a.snapshot.usable_from);
                        distances.push(idx - a.snapshot.usable_from);
                    } else {
                        assert_ne!(idx % num_provers, prover_id);
                    }
                    if is_final {
                        break;
                    }
                    if executor.wants_snapshot() {
                        executor.resume(Some((idx + 1, 100 * (idx as u64 + 1))));
                    } else {
                        executor.resume(None);
                    }
                }
                assert_eq!(distances, expected);
            }
        }
    }
}

#[test]
fn shards_are_validated() {
    assert!(validate_shard(4, 3).is_ok());
    assert!(matches!(validate_shard(0, 0), Err(ShardError::NoProvers)));
    assert!(matches!(
        validate_shard(4, 4),
        Err(ShardError::ProverOutOfRange { prover_id: 4, num_provers: 4 })
    ));
    assert!(SegmentExecutor::new(0, 0, ()).is_err());
}

#[test]
fn guests_must_exit_with_zero() {
    assert_eq!(terminated(None), Ok(false));
    assert_eq!(terminated(Some(0)), Ok(true));
    assert_eq!(terminated(Some(7)), Err("VM exited with non-zero exit code: 7".to_string()));
}
