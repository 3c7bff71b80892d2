//! Segment assignment and the executor's snapshot schedule.
//!
//! The executor keeps a small queue of VM snapshots, so that each assigned segment
//! can be proved from a nearby start state instead of replaying from the first
//! instruction. At the suspend that closes segment `c` it saves a snapshot if
//! segment `c + 2` is its own, and it takes the oldest snapshot when proving its
//! segment `c`. The suspend that closes segment `c` already lies inside segment
//! `c + 1`, so the freshest snapshot that can start segment `c + 2` is that one.

use std::collections::VecDeque;

use vstd::prelude::*;
use vstd::string::*;

use crate::text::{decimal, push_decimal, push_usize};

verus! {

/// Whether this prover seeds the initial snapshot before the executor loop.
///
/// Provers 0 and 1 prove their first segment before any suspend snapshot for it
/// exists. For the others the first save precedes the first use, and a seed would
/// stay in the queue and age every later snapshot by a full round.
pub fn seeds_initial_snapshot(prover_id: usize) -> (r: bool)
    ensures
        r == (prover_id < 2),
{
    prover_id < 2
}

/// Whether segment `idx` belongs to prover `prover_id` of `num_provers`.
pub open spec fn is_assigned(idx: int, num_provers: int, prover_id: int) -> bool {
    idx % num_provers == prover_id
}

/// Whether the suspend closing segment `curr_idx` should save a snapshot.
pub fn saves_snapshot_at(curr_idx: usize, num_provers: usize, prover_id: usize) -> (r: bool)
    requires
        num_provers > 0,
        curr_idx + 2 <= usize::MAX,
    ensures
        num_provers == 1 ==> r,
        num_provers > 1 ==> r == is_assigned(
            curr_idx + 2,
            num_provers as int,
            prover_id as int,
        ),
{
    num_provers == 1 || (curr_idx + 2) % num_provers == prover_id
}

/// A job whose shard does not exist.
#[derive(Debug, Clone, Copy, PartialEq, Eq, Structural)]
pub enum ShardError {
    NoProvers,
    ProverOutOfRange { prover_id: usize, num_provers: usize },
}

impl ShardError {
    /// The text a reader is shown for the error.
    pub open spec fn text(self) -> Seq<char> {
        match self {
            ShardError::NoProvers => "num_provers cannot be 0"@,
            ShardError::ProverOutOfRange { prover_id, num_provers } => "prover_id "@ + decimal(
                prover_id as nat,
            ) + " must be less than num_provers "@ + decimal(num_provers as nat),
        }
    }

    /// The text a reader is shown for the error.
    pub fn message(self) -> (r: String)
        ensures
            r@ == self.text(),
    {
        match self {
            ShardError::NoProvers => "num_provers cannot be 0".to_owned(),
            ShardError::ProverOutOfRange { prover_id, num_provers } => {
                let mut out = "prover_id ".to_owned();
                push_usize(&mut out, prover_id);
                out.append(" must be less than num_provers ");
                push_usize(&mut out, num_provers);
                out
            },
        }
    }
}

/// Check that prover `prover_id` of `num_provers` exists.
pub fn validate_shard(num_provers: usize, prover_id: usize) -> (r: Result<(), ShardError>)
    ensures
        num_provers == 0 ==> r == Err::<(), ShardError>(ShardError::NoProvers),
        num_provers > 0 && prover_id >= num_provers ==> r == Err::<(), ShardError>(
            ShardError::ProverOutOfRange { prover_id, num_provers },
        ),
        prover_id < num_provers ==> r is Ok,
{
    if num_provers == 0 {
        return Err(ShardError::NoProvers);
    }
    if prover_id >= num_provers {
        return Err(ShardError::ProverOutOfRange { prover_id, num_provers });
    }
    Ok(())
}

/// Every segment belongs to exactly one prover.
pub proof fn every_segment_has_one_prover(idx: int, num_provers: int)
    requires
        0 <= idx,
        0 < num_provers,
    ensures
        exists|p: int| 0 <= p < num_provers && is_assigned(idx, num_provers, p),
        forall|p: int, q: int|
            is_assigned(idx, num_provers, p) && is_assigned(idx, num_provers, q) ==> p == q,
{
    assert(0 <= idx % num_provers < num_provers) by (nonlinear_arith)
        requires
            0 < num_provers,
    ;
    assert(is_assigned(idx, num_provers, idx % num_provers));
}

/// Whether the program ended with the segment that was just closed. A guest that
/// exits with another code than 0 fails the execution.
pub fn terminated(exit_code: Option<u32>) -> (r: Result<bool, String>)
    ensures
        match exit_code {
            None => r == Ok::<bool, String>(false),
            Some(code) => if code == 0 {
                r == Ok::<bool, String>(true)
            } else {
                r is Err && r->Err_0@ == "VM exited with non-zero exit code: "@ + decimal(
                    code as nat,
                )
            },
        },
{
    match exit_code {
        None => Ok(false),
        Some(code) => {
            if code == 0 {
                return Ok(true);
            }
            let mut out = "VM exited with non-zero exit code: ".to_owned();
            push_decimal(&mut out, code as u64);
            Err(out)
        },
    }
}

/// VM state at a point during execution.
pub struct Snapshot<S> {
    pub state: S,
    /// Instructions retired at that point.
    pub instret: u64,
    /// The segment inside which the point lies.
    pub usable_from: usize,
}

/// A segment to prove, with the snapshot to start from.
pub struct Assignment<S> {
    pub snapshot: Snapshot<S>,
    pub segment_idx: usize,
    pub is_final: bool,
}

/// Where an executor stands between two segment boundaries.
#[derive(Debug, Clone, Copy, PartialEq, Eq, Structural)]
pub enum Phase {
    /// Running towards the next boundary.
    Running,
    /// At a boundary, with the closed segment handed out if it was its own.
    AtBoundary,
    /// The final segment is closed.
    Finished,
}

/// One prover's walk over the segments of an execution.
pub struct SegmentExecutor<S> {
    num_provers: usize,
    prover_id: usize,
    next_idx: usize,
    phase: Phase,
    snapshots: VecDeque<Snapshot<S>>,
}

/// The segment inside which the snapshot for assigned segment `j` was taken.
pub open spec fn donor_segment(j: int) -> int {
    if j < 2 {
        0
    } else {
        j - 1
    }
}

/// Where the snapshots lie that are kept for the segments from `first` to `last`
/// that belong to the prover.
pub open spec fn kept_for(first: int, last: int, num_provers: int, prover_id: int) -> Seq<int>
    decreases last - first + 1,
{
    if first > last {
        Seq::empty()
    } else if is_assigned(first, num_provers, prover_id) {
        seq![donor_segment(first)] + kept_for(first + 1, last, num_provers, prover_id)
    } else {
        kept_for(first + 1, last, num_provers, prover_id)
    }
}

impl<S> SegmentExecutor<S> {
    pub closed spec fn num_provers(self) -> int {
        self.num_provers as int
    }

    pub closed spec fn prover_id(self) -> int {
        self.prover_id as int
    }

    /// The segment that is closed at the boundary, or at the next one.
    pub closed spec fn next_idx(self) -> int {
        self.next_idx as int
    }

    pub closed spec fn phase(self) -> Phase {
        self.phase
    }

    /// The snapshots kept, oldest first.
    pub closed spec fn kept(self) -> Seq<Snapshot<S>> {
        self.snapshots@
    }

    /// Whether the segment being closed belongs to this prover.
    pub open spec fn owns_segment(self) -> bool {
        is_assigned(self.next_idx(), self.num_provers(), self.prover_id())
    }

    /// Whether the first segment is being closed by a prover that works alone: it
    /// proves the first two segments from the initial snapshot.
    pub open spec fn shares_seed(self) -> bool {
        self.num_provers() == 1 && self.next_idx() == 0
    }

    /// Where the kept snapshots must lie.
    pub open spec fn schedule(self) -> Seq<int> {
        let c = self.next_idx();
        if self.phase() == Phase::Running && !self.shares_seed() {
            kept_for(c, c + 1, self.num_provers(), self.prover_id())
        } else {
            kept_for(c + 1, c + 1, self.num_provers(), self.prover_id())
        }
    }

    pub open spec fn wf(self) -> bool {
        &&& 0 <= self.prover_id() < self.num_provers()
        &&& 0 <= self.next_idx()
        &&& self.phase() != Phase::Finished ==> self.kept().len() == self.schedule().len()
        &&& self.phase() != Phase::Finished ==> forall|i: int|
            0 <= i < self.kept().len() ==> (#[trigger] self.kept()[i]).usable_from
                == self.schedule()[i]
    }

    /// Start prover `prover_id` of `num_provers` on the initial state.
    pub fn new(num_provers: usize, prover_id: usize, initial: S) -> (r: Result<Self, ShardError>)
        ensures
            num_provers == 0 ==> r is Err && r->Err_0 == ShardError::NoProvers,
            num_provers > 0 && prover_id >= num_provers ==> r is Err && r->Err_0
                == (ShardError::ProverOutOfRange { prover_id, num_provers }),
            prover_id < num_provers ==> r is Ok && {
                let e = r->Ok_0;
                &&& e.wf()
                &&& e.num_provers() == num_provers
                &&& e.prover_id() == prover_id
                &&& e.next_idx() == 0
                &&& e.phase() == Phase::Running
                &&& prover_id < 2 ==> e.kept() == seq![
                    Snapshot { state: initial, instret: 0, usable_from: 0 },
                ]
                &&& prover_id >= 2 ==> e.kept() == Seq::<Snapshot<S>>::empty()
            },
    {
        match validate_shard(num_provers, prover_id) {
            Err(e) => return Err(e),
            Ok(()) => {},
        }
        let mut snapshots: VecDeque<Snapshot<S>> = VecDeque::new();
        if seeds_initial_snapshot(prover_id) {
            snapshots.push_back(Snapshot { state: initial, instret: 0, usable_from: 0 });
        }
        let e = SegmentExecutor {
            num_provers,
            prover_id,
            next_idx: 0,
            phase: Phase::Running,
            snapshots,
        };
        proof {
            reveal_with_fuel(kept_for, 3);
            let n = num_provers as int;
            let p = prover_id as int;
            assert(0int % n == 0) by (nonlinear_arith)
                requires
                    n > 0,
            ;
            if n > 1 {
                assert(1int % n == 1) by (nonlinear_arith)
                    requires
                        n > 1,
                ;
            } else {
                assert(1int % n == 0);
            }
            if p < 2 {
                assert(e.kept() =~= seq![Snapshot { state: initial, instret: 0, usable_from: 0 }]);
            } else {
                assert(e.kept() =~= Seq::<Snapshot<S>>::empty());
            }
        }
        Ok(e)
    }

    /// The index of the segment being closed.
    pub fn index(&self) -> (r: usize)
        ensures
            r == self.next_idx(),
    {
        self.next_idx
    }

    /// The next boundary is reached: hand out the segment just closed, if it is this
    /// prover's own.
    ///
    /// A snapshot is always there for it, and lies at most one segment back.
    pub fn close_segment(&mut self, is_final: bool) -> (r: Option<Assignment<S>>) where S: Clone
        requires
            old(self).wf(),
            old(self).phase() == Phase::Running,
        ensures
            final(self).wf(),
            final(self).num_provers() == old(self).num_provers(),
            final(self).prover_id() == old(self).prover_id(),
            final(self).next_idx() == old(self).next_idx(),
            final(self).phase() == (if is_final {
                Phase::Finished
            } else {
                Phase::AtBoundary
            }),
            r is Some <==> old(self).owns_segment(),
            r matches Some(a) ==> {
                &&& a.segment_idx == old(self).next_idx()
                &&& a.is_final == is_final
                &&& a.snapshot.usable_from <= a.segment_idx <= a.snapshot.usable_from + 1
                &&& old(self).kept().len() > 0
                &&& a.snapshot.instret == old(self).kept()[0].instret
                &&& if old(self).shares_seed() {
                    &&& cloned::<S>(old(self).kept()[0].state, a.snapshot.state)
                    &&& final(self).kept() == old(self).kept()
                } else {
                    &&& a.snapshot == old(self).kept()[0]
                    &&& final(self).kept() == old(self).kept().drop_first()
                }
            },
            r is None ==> final(self).kept() == old(self).kept(),
    {
        let ghost n = self.num_provers();
        let ghost p = self.prover_id();
        let ghost c = self.next_idx();
        proof {
            reveal_with_fuel(kept_for, 3);
            if n == 1 {
                assert(c % 1 == 0);
                assert((c + 1) % 1 == 0);
            }
        }
        let idx = self.next_idx;
        let phase = if is_final {
            Phase::Finished
        } else {
            Phase::AtBoundary
        };
        if idx % self.num_provers != self.prover_id {
            self.phase = phase;
            return None;
        }
        assert(self.kept().len() > 0);
        assert(self.kept()[0].usable_from == self.schedule()[0]);
        let snapshot = if self.num_provers == 1 && idx == 0 {
            let front = &self.snapshots[0];
            Snapshot {
                state: front.state.clone(),
                instret: front.instret,
                usable_from: front.usable_from,
            }
        } else {
            match self.snapshots.pop_front() {
                Some(s) => s,
                None => {
                    assert(false);
                    return None;
                },
            }
        };
        self.phase = phase;
        proof {
            if !(n == 1 && c == 0) {
                assert(self.kept() =~= old(self).kept().drop_first());
                assert forall|i: int| 0 <= i < self.kept().len() implies (
                #[trigger] self.kept()[i]).usable_from == kept_for(c + 1, c + 1, n, p)[i] by {
                    assert(self.kept()[i] == old(self).kept()[i + 1]);
                    assert(old(self).schedule()[i + 1] == kept_for(c + 1, c + 1, n, p)[i]);
                }
            }
        }
        Some(Assignment { snapshot, segment_idx: idx, is_final })
    }

    /// Whether a snapshot is to be saved at this boundary.
    pub fn wants_snapshot(&self) -> (r: bool)
        requires
            self.wf(),
            self.next_idx() + 2 <= usize::MAX,
        ensures
            r == is_assigned(self.next_idx() + 2, self.num_provers(), self.prover_id()),
    {
        proof {
            if self.num_provers() == 1 {
                assert((self.next_idx() + 2) % 1 == 0);
            }
        }
        saves_snapshot_at(self.next_idx, self.num_provers, self.prover_id)
    }

    /// Leave the boundary, with the snapshot taken at it if one was wanted.
    pub fn resume(&mut self, boundary: Option<(S, u64)>)
        requires
            old(self).wf(),
            old(self).phase() == Phase::AtBoundary,
            old(self).next_idx() + 2 <= usize::MAX,
            boundary is Some <==> is_assigned(
                old(self).next_idx() + 2,
                old(self).num_provers(),
                old(self).prover_id(),
            ),
        ensures
            final(self).wf(),
            final(self).num_provers() == old(self).num_provers(),
            final(self).prover_id() == old(self).prover_id(),
            final(self).next_idx() == old(self).next_idx() + 1,
            final(self).phase() == Phase::Running,
            boundary is None ==> final(self).kept() == old(self).kept(),
            boundary matches Some(b) ==> final(self).kept() == old(self).kept().push(
                Snapshot {
                    state: b.0,
                    instret: b.1,
                    usable_from: (old(self).next_idx() + 1) as usize,
                },
            ),
    {
        let ghost n = self.num_provers();
        let ghost p = self.prover_id();
        let ghost c = self.next_idx();
        let ghost before = self.kept();
        proof {
            reveal_with_fuel(kept_for, 3);
        }
        self.next_idx = self.next_idx + 1;
        self.phase = Phase::Running;
        if let Some((state, instret)) = boundary {
            self.snapshots.push_back(Snapshot { state, instret, usable_from: self.next_idx });
            assert(self.kept() =~= before.push(
                Snapshot { state, instret, usable_from: (c + 1) as usize },
            ));
        }
        proof {
            assert(kept_for(c + 1, c + 2, n, p) =~= kept_for(c + 1, c + 1, n, p) + kept_for(
                c + 2,
                c + 2,
                n,
                p,
            ));
            assert forall|i: int| 0 <= i < self.kept().len() implies (
            #[trigger] self.kept()[i]).usable_from == self.schedule()[i] by {
                if i < before.len() {
                    assert(self.kept()[i] == before[i]);
                }
            }
        }
    }
}

/// No prover ever keeps more than two snapshots.
pub proof fn at_most_two_snapshots<S>(e: SegmentExecutor<S>)
    requires
        e.wf(),
        e.phase() != Phase::Finished,
    ensures
        e.kept().len() <= 2,
{
    reveal_with_fuel(kept_for, 3);
}

/// A segment is handed out to the prover whose number is the remainder of the
/// segment's index, and to no other.
///
/// It starts from the snapshot that was taken one segment back; the first two
/// segments start from the initial one.
pub proof fn segments_start_one_back<S: Clone>(
    executor: &mut SegmentExecutor<S>,
    is_final: bool,
    r: Option<Assignment<S>>,
    idx: usize,
)
    requires
        call_ensures(SegmentExecutor::<S>::index, (&*old(executor),), idx),
        call_ensures(SegmentExecutor::<S>::close_segment, (executor, is_final), r),
        old(executor).wf(),
        old(executor).phase() == Phase::Running,
    ensures
        r is Some <==> old(executor).next_idx() % old(executor).num_provers()
            == old(executor).prover_id(),
        r is Some ==> {
            &&& r->0.segment_idx == idx
            &&& r->0.segment_idx == old(executor).next_idx()
            &&& r->0.is_final == is_final
            &&& r->0.snapshot.usable_from == (if r->0.segment_idx < 2 {
                0int
            } else {
                r->0.segment_idx - 1
            })
            &&& r->0.snapshot.instret == old(executor).kept()[0].instret
        },
        r is Some && !(old(executor).num_provers() == 1 && old(executor).next_idx() == 0)
            ==> r->0.snapshot == old(executor).kept()[0] && final(executor).kept().len() + 1
            == old(executor).kept().len(),
        final(executor).phase() == (if is_final {
            Phase::Finished
        } else {
            Phase::AtBoundary
        }),
{
    reveal_with_fuel(kept_for, 3);
    if r is Some {
        assert(old(executor).kept()[0].usable_from == old(executor).schedule()[0]);
    }
}

/// A snapshot is saved where the segment after the next belongs to the prover, and
/// it is the last to be used.
pub proof fn snapshots_are_saved_two_ahead<S>(
    executor: &SegmentExecutor<S>,
    wants: bool,
    resumed: &mut SegmentExecutor<S>,
    boundary: Option<(S, u64)>,
)
    requires
        call_ensures(SegmentExecutor::<S>::wants_snapshot, (executor,), wants),
        call_ensures(SegmentExecutor::<S>::resume, (resumed, boundary), ()),
        *executor == *old(resumed),
        executor.wf(),
        executor.next_idx() + 2 <= usize::MAX,
    ensures
        wants <==> (executor.next_idx() + 2) % executor.num_provers() == executor.prover_id(),
        final(resumed).next_idx() == executor.next_idx() + 1,
        boundary is None ==> final(resumed).kept() == executor.kept(),
        boundary is Some ==> {
            &&& final(resumed).kept().len() == executor.kept().len() + 1
            &&& final(resumed).kept().drop_last() == executor.kept()
            &&& final(resumed).kept().last().state == (boundary->0).0
            &&& final(resumed).kept().last().instret == (boundary->0).1
            &&& final(resumed).kept().last().usable_from == executor.next_idx() + 1
        },
{
}

/// A prover that works alone saves a snapshot at every boundary; among several, each
/// boundary is saved by exactly the prover to which the segment after the next
/// belongs.
pub proof fn every_boundary_is_saved_once(
    curr_idx: usize,
    num_provers: usize,
    prover_id: usize,
    r: bool,
)
    requires
        call_ensures(saves_snapshot_at, (curr_idx, num_provers, prover_id), r),
        prover_id < num_provers,
    ensures
        r <==> (curr_idx + 2) % (num_provers as int) == prover_id,
{
    if num_provers == 1 {
        assert((curr_idx + 2) % 1 == 0);
    }
}

/// A shard exists where its number is below the number of provers.
pub proof fn shards_are_numbered_from_zero(
    num_provers: usize,
    prover_id: usize,
    r: Result<(), ShardError>,
)
    requires
        call_ensures(validate_shard, (num_provers, prover_id), r),
    ensures
        r is Ok <==> prover_id < num_provers,
{
}

/// Only an exit with code 0 ends the program well; as long as there is no exit code
/// the program goes on.
pub proof fn only_zero_ends_well(exit_code: Option<u32>, r: Result<bool, String>)
    requires
        call_ensures(terminated, (exit_code,), r),
    ensures
        r is Err <==> exit_code is Some && exit_code->0 != 0,
        r is Ok ==> (r->Ok_0 <==> exit_code is Some),
{
}

/// What is said of a shard that does not exist holds its numbers.
pub proof fn missing_shards_are_told(e: ShardError, r: String)
    requires
        call_ensures(ShardError::message, (e,), r),
    ensures
        e is NoProvers ==> r@ == "num_provers cannot be 0"@,
        e matches ShardError::ProverOutOfRange { prover_id, num_provers } ==> r@ == "prover_id "@
            + decimal(prover_id as nat) + " must be less than num_provers "@ + decimal(
            num_provers as nat,
        ),
{
}

} // verus!
