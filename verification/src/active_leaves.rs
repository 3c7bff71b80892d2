//! The leaf jobs that are running, for the report of a failing one.

use vstd::prelude::*;
use vstd::string::*;

use crate::provers::ProverResult;
use crate::text::{
    decimal, is_before, join, joined, precedes, precedes_is_total, precedes_is_transitive,
    push_usize, same_text, views,
};

verus! {

/// A running leaf job and the worker it runs on.
pub struct ActiveLeafJob {
    pub worker_name: String,
    pub proof_uuid: String,
    pub segment_start: usize,
    pub segment_end: usize,
}

/// What identifies a running leaf job to a reader.
pub struct ActiveLeaf {
    pub worker_name: Seq<char>,
    pub proof_uuid: Seq<char>,
    pub segment_start: usize,
    pub segment_end: usize,
}

impl View for ActiveLeafJob {
    type V = ActiveLeaf;

    open spec fn view(&self) -> ActiveLeaf {
        ActiveLeaf {
            worker_name: self.worker_name@,
            proof_uuid: self.proof_uuid@,
            segment_start: self.segment_start,
            segment_end: self.segment_end,
        }
    }
}

/// The running leaf jobs, at most one per worker, in order of the workers' names.
pub struct ActiveLeafJobs {
    jobs: Vec<ActiveLeafJob>,
}

/// Whether `jobs` are in strict order of the workers' names.
pub open spec fn in_name_order(jobs: Seq<ActiveLeaf>) -> bool {
    forall|i: int, j: int|
        0 <= i < j < jobs.len() ==> precedes(
            (#[trigger] jobs[i]).worker_name,
            (#[trigger] jobs[j]).worker_name,
        )
}

spec fn leaves(jobs: Seq<ActiveLeafJob>) -> Seq<ActiveLeaf> {
    Seq::new(jobs.len(), |i: int| jobs[i]@)
}

impl View for ActiveLeafJobs {
    type V = Seq<ActiveLeaf>;

    closed spec fn view(&self) -> Seq<ActiveLeaf> {
        leaves(self.jobs@)
    }
}

/// A job as a reader is shown it.
pub open spec fn shown_leaf(job: ActiveLeaf) -> Seq<char> {
    job.worker_name + ":"@ + job.proof_uuid + "["@ + decimal(job.segment_start as nat) + "-"@
        + decimal(job.segment_end as nat) + "]"@
}

/// All jobs as a reader is shown them.
pub open spec fn shown_leaves(jobs: Seq<ActiveLeaf>) -> Seq<char> {
    if jobs.len() == 0 {
        "none"@
    } else {
        joined(Seq::new(jobs.len(), |i: int| shown_leaf(jobs[i])), ", "@)
    }
}

impl ActiveLeafJobs {
    pub open spec fn wf(self) -> bool {
        in_name_order(self@)
    }

    pub fn new() -> (r: Self)
        ensures
            r.wf(),
            r@ == Seq::<ActiveLeaf>::empty(),
    {
        let r = ActiveLeafJobs { jobs: Vec::new() };
        assert(r@ =~= Seq::<ActiveLeaf>::empty());
        r
    }

    /// A worker begins a leaf job; any earlier job of that worker is replaced.
    pub fn begin(
        &mut self,
        worker_name: &str,
        proof_uuid: &str,
        segment_start: usize,
        segment_end: usize,
    )
        requires
            old(self).wf(),
        ensures
            final(self).wf(),
            forall|job: ActiveLeaf| #[trigger]
                final(self)@.contains(job) <==> (job == (ActiveLeaf {
                    worker_name: worker_name@,
                    proof_uuid: proof_uuid@,
                    segment_start,
                    segment_end,
                }) || (old(self)@.contains(job) && job.worker_name != worker_name@)),
    {
        let ghost before = self@;
        let n = self.jobs.len();
        let mut i: usize = 0;
        while i < n && is_before(self.jobs[i].worker_name.as_str(), worker_name)
            invariant
                n == self.jobs@.len(),
                before == leaves(self.jobs@),
                *self == *old(self),
                i <= n,
                forall|j: int|
                    0 <= j < i ==> precedes((#[trigger] before[j]).worker_name, worker_name@),
            decreases n - i,
        {
            assert(before[i as int].worker_name == self.jobs@[i as int].worker_name@);
            i = i + 1;
        }
        let job = ActiveLeafJob {
            worker_name: worker_name.to_owned(),
            proof_uuid: proof_uuid.to_owned(),
            segment_start,
            segment_end,
        };
        let ghost added = job@;
        if i < n {
            assert(before[i as int].worker_name == self.jobs@[i as int].worker_name@);
        }
        if i < n && same_text(self.jobs[i].worker_name.as_str(), worker_name) {
            self.jobs.set(i, job);
            let ghost after = before.update(i as int, added);
            assert(self@ =~= after);
            proof {
                assert forall|x: ActiveLeaf| #[trigger] after.contains(x) <==> (x == added || (
                before.contains(x) && x.worker_name != worker_name@)) by {
                    if after.contains(x) {
                        let k = choose|k: int| 0 <= k < after.len() && after[k] == x;
                        if k != i {
                            assert(before[k] == x);
                            precedes_is_total(worker_name@, worker_name@);
                            if k < i {
                                assert(precedes(before[k].worker_name, worker_name@));
                            } else {
                                assert(precedes(before[i as int].worker_name, before[k].worker_name));
                            }
                        }
                    }
                    if x == added {
                        assert(after[i as int] == x);
                    }
                    if before.contains(x) && x.worker_name != worker_name@ {
                        let k = choose|k: int| 0 <= k < before.len() && before[k] == x;
                        assert(k != i);
                        assert(after[k] == x);
                    }
                }
                assert(in_name_order(after)) by {
                    assert forall|a: int, b: int| 0 <= a < b < after.len() implies precedes(
                        (#[trigger] after[a]).worker_name,
                        (#[trigger] after[b]).worker_name,
                    ) by {
                        assert(precedes(before[a].worker_name, before[b].worker_name));
                    }
                }
            }
        } else {
            proof {
                if i < n {
                    precedes_is_total(before[i as int].worker_name, worker_name@);
                }
                assert forall|j: int| i <= j < n implies precedes(
                    worker_name@,
                    (#[trigger] before[j]).worker_name,
                ) by {
                    if j > i {
                        assert(precedes(before[i as int].worker_name, before[j].worker_name));
                        precedes_is_transitive(
                            worker_name@,
                            before[i as int].worker_name,
                            before[j].worker_name,
                        );
                    }
                }
            }
            self.jobs.insert(i, job);
            let ghost after = before.insert(i as int, added);
            assert(self@ =~= after);
            proof {
                precedes_is_total(worker_name@, worker_name@);
                assert forall|k: int| 0 <= k < i implies after[k] == before[k] by {}
                assert forall|k: int| i < k < after.len() implies after[k] == before[k - 1] by {}
                assert forall|x: ActiveLeaf| #[trigger] after.contains(x) <==> (x == added || (
                before.contains(x) && x.worker_name != worker_name@)) by {
                    if after.contains(x) {
                        let k = choose|k: int| 0 <= k < after.len() && after[k] == x;
                        if k < i {
                            assert(before[k] == x);
                        } else if k > i {
                            assert(before[k - 1] == x);
                        }
                    }
                    if x == added {
                        assert(after[i as int] == x);
                    }
                    if before.contains(x) {
                        let k = choose|k: int| 0 <= k < before.len() && before[k] == x;
                        if k < i {
                            assert(after[k] == x);
                        } else {
                            assert(after[k + 1] == x);
                        }
                    }
                }
                assert(in_name_order(after)) by {
                    assert forall|a: int, b: int| 0 <= a < b < after.len() implies precedes(
                        (#[trigger] after[a]).worker_name,
                        (#[trigger] after[b]).worker_name,
                    ) by {
                        if a < i && b < i {
                            assert(precedes(before[a].worker_name, before[b].worker_name));
                        } else if a < i && b > i {
                            assert(precedes(before[a].worker_name, before[b - 1].worker_name));
                        } else if a > i {
                            assert(precedes(before[a - 1].worker_name, before[b - 1].worker_name));
                        } else if a == i {
                            assert(precedes(worker_name@, before[b - 1].worker_name));
                        }
                    }
                }
            }
        }
    }

    /// The job of a worker is over.
    pub fn end(&mut self, worker_name: &str)
        requires
            old(self).wf(),
        ensures
            final(self).wf(),
            forall|job: ActiveLeaf| #[trigger]
                final(self)@.contains(job) <==> (old(self)@.contains(job) && job.worker_name
                    != worker_name@),
    {
        let ghost before = self@;
        let n = self.jobs.len();
        let mut i: usize = 0;
        while i < n && !same_text(self.jobs[i].worker_name.as_str(), worker_name)
            invariant
                n == self.jobs@.len(),
                before == leaves(self.jobs@),
                *self == *old(self),
                i <= n,
                forall|j: int| 0 <= j < i ==> (#[trigger] before[j]).worker_name != worker_name@,
            decreases n - i,
        {
            assert(before[i as int].worker_name == self.jobs@[i as int].worker_name@);
            i = i + 1;
        }
        if i < n {
            assert(before[i as int].worker_name == self.jobs@[i as int].worker_name@);
            let _ = self.jobs.remove(i);
            let ghost after = before.remove(i as int);
            assert(self@ =~= after);
            proof {
                assert forall|k: int| 0 <= k < i implies after[k] == before[k] by {}
                assert forall|k: int| i <= k < after.len() implies after[k] == before[k + 1] by {}
                assert forall|x: ActiveLeaf| #[trigger] after.contains(x) <==> (before.contains(x)
                    && x.worker_name != worker_name@) by {
                    if after.contains(x) {
                        let k = choose|k: int| 0 <= k < after.len() && after[k] == x;
                        if k < i {
                            assert(before[k] == x);
                        } else {
                            assert(before[k + 1] == x);
                            precedes_is_total(worker_name@, worker_name@);
                            assert(precedes(before[i as int].worker_name, before[k + 1].worker_name));
                        }
                    }
                    if before.contains(x) && x.worker_name != worker_name@ {
                        let k = choose|k: int| 0 <= k < before.len() && before[k] == x;
                        if k < i {
                            assert(after[k] == x);
                        } else {
                            assert(after[k - 1] == x);
                        }
                    }
                }
                assert(in_name_order(after)) by {
                    assert forall|a: int, b: int| 0 <= a < b < after.len() implies precedes(
                        (#[trigger] after[a]).worker_name,
                        (#[trigger] after[b]).worker_name,
                    ) by {
                        let a0 = if a < i {
                            a
                        } else {
                            a + 1
                        };
                        let b0 = if b < i {
                            b
                        } else {
                            b + 1
                        };
                        assert(precedes(before[a0].worker_name, before[b0].worker_name));
                    }
                }
            }
        } else {
            proof {
                assert forall|x: ActiveLeaf| #[trigger] before.contains(x) implies x.worker_name
                    != worker_name@ by {
                    let k = choose|k: int| 0 <= k < before.len() && before[k] == x;
                    assert(before[k].worker_name != worker_name@);
                }
            }
        }
    }

    /// The running jobs in one line, or `none`.
    pub fn snapshot_summary(&self) -> (r: String)
        ensures
            r@ == shown_leaves(self@),
    {
        let mut entries: Vec<String> = Vec::new();
        let mut i: usize = 0;
        while i < self.jobs.len()
            invariant
                i <= self.jobs@.len(),
                entries@.len() == i,
                forall|j: int|
                    0 <= j < i ==> (#[trigger] entries@[j])@ == shown_leaf(self.jobs@[j]@),
            decreases self.jobs@.len() - i,
        {
            let job = &self.jobs[i];
            let mut out = job.worker_name.clone();
            out.append(":");
            out.append(job.proof_uuid.as_str());
            out.append("[");
            push_usize(&mut out, job.segment_start);
            out.append("-");
            push_usize(&mut out, job.segment_end);
            out.append("]");
            entries.push(out);
            i = i + 1;
        }
        if entries.len() == 0 {
            return "none".to_owned();
        }
        assert(views(entries@) =~= Seq::new(self@.len(), |i: int| shown_leaf(self@[i])));
        join(&entries, ", ")
    }
}

/// The result of a leaf job, with the running jobs added to the text of a failure.
pub fn with_active_jobs(result: ProverResult, active: &ActiveLeafJobs) -> (r: ProverResult)
    ensures
        result matches ProverResult::Error(e) ==> r is Error && r->Error_0@ == e@
            + " [active_leaf_jobs="@ + shown_leaves(active@) + "]"@,
        !(result is Error) ==> r == result,
{
    match result {
        ProverResult::Error(e) => {
            let mut out = e;
            out.append(" [active_leaf_jobs=");
            let shown = active.snapshot_summary();
            out.append(shown.as_str());
            out.append("]");
            ProverResult::Error(out)
        },
        other => other,
    }
}

/// No worker has two running jobs.
pub proof fn one_job_per_worker(active: ActiveLeafJobs, i: int, j: int)
    requires
        active.wf(),
        0 <= i < j < active@.len(),
    ensures
        active@[i].worker_name != active@[j].worker_name,
{
    precedes_is_total(active@[i].worker_name, active@[i].worker_name);
    assert(precedes(active@[i].worker_name, active@[j].worker_name));
}

/// A worker that begins a job runs that job, and no other one; the jobs of the other
/// workers go on. Once it ends, the worker runs none.
pub proof fn workers_run_what_they_began(
    begun: &mut ActiveLeafJobs,
    worker_name: &str,
    proof_uuid: &str,
    segment_start: usize,
    segment_end: usize,
    ended: &mut ActiveLeafJobs,
    job: ActiveLeaf,
)
    requires
        call_ensures(
            ActiveLeafJobs::begin,
            (begun, worker_name, proof_uuid, segment_start, segment_end),
            (),
        ),
        call_ensures(ActiveLeafJobs::end, (ended, worker_name), ()),
        *final(begun) == *old(ended),
    ensures
        job.worker_name == worker_name@ ==> (final(begun)@.contains(job) <==> job.proof_uuid
            == proof_uuid@ && job.segment_start == segment_start && job.segment_end
            == segment_end),
        job.worker_name != worker_name@ ==> final(begun)@.contains(job) == old(begun)@.contains(
            job,
        ),
        job.worker_name == worker_name@ ==> !final(ended)@.contains(job),
        job.worker_name != worker_name@ ==> final(ended)@.contains(job) == old(begun)@.contains(
            job,
        ),
{
}

/// The jobs are summed up in one line: no job as `none`, one as its worker, its proof and
/// its segments, and one more behind a comma.
pub proof fn summaries_grow_job_by_job(
    before: &ActiveLeafJobs,
    after: &ActiveLeafJobs,
    shown_before: String,
    shown_after: String,
    job: ActiveLeaf,
)
    requires
        call_ensures(ActiveLeafJobs::snapshot_summary, (before,), shown_before),
        call_ensures(ActiveLeafJobs::snapshot_summary, (after,), shown_after),
        after@ == before@.push(job),
    ensures
        before@.len() == 0 ==> shown_before@ == "none"@,
        before@.len() == 0 ==> shown_after@ == job.worker_name + ":"@ + job.proof_uuid + "["@
            + decimal(job.segment_start as nat) + "-"@ + decimal(job.segment_end as nat) + "]"@,
        before@.len() > 0 ==> shown_after@ == shown_before@ + ", "@ + job.worker_name + ":"@
            + job.proof_uuid + "["@ + decimal(job.segment_start as nat) + "-"@ + decimal(
            job.segment_end as nat,
        ) + "]"@,
{
    let few = Seq::new(before@.len(), |i: int| shown_leaf(before@[i]));
    let all = Seq::new(after@.len(), |i: int| shown_leaf(after@[i]));
    assert(all =~= few.push(shown_leaf(job)));
    if before@.len() == 0 {
        assert(all.len() == 1);
        assert(joined(all, ", "@) == all[0]);
    } else {
        crate::text::joining_appends(few, shown_leaf(job), ", "@);
        assert(shown_after@ =~= shown_before@ + ", "@ + job.worker_name + ":"@ + job.proof_uuid
            + "["@ + decimal(job.segment_start as nat) + "-"@ + decimal(job.segment_end as nat)
            + "]"@);
    }
}

/// A failure is told with the running jobs behind it; any other result stays as it is.
pub proof fn failures_name_the_running_jobs(
    result: ProverResult,
    active: &ActiveLeafJobs,
    r: ProverResult,
    shown: String,
)
    requires
        call_ensures(with_active_jobs, (result, active), r),
        call_ensures(ActiveLeafJobs::snapshot_summary, (active,), shown),
    ensures
        result is Error ==> r is Error && r->Error_0@ == result->Error_0@
            + " [active_leaf_jobs="@ + shown@ + "]"@,
        !(result is Error) ==> r == result,
{
}

} // verus!
