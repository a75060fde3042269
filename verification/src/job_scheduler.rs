//! The decisions of a job scheduler that queues up work and hands it to worker threads.
//! The threads and their channels are held by the caller as opaque handles; each round
//! the caller reports what it heard from every worker, and the scheduler says which
//! worker gets which job.

use vstd::prelude::*;

verus! {

/// What a round of polling heard from a worker thread. A worker that reported a failed
/// job is not described here: the scheduler does not handle that case.
#[derive(Copy, Clone, Debug, PartialEq, Eq, Structural)]
pub enum ProcessorPoll {
    /// The worker reported its job completed, and its inbox then ran dry.
    Completed,
    /// The worker's inbox was empty: no job completed since the last round.
    Empty,
    /// The worker's channel is gone; the worker is dropped.
    Disconnected,
}

/// A worker thread and whether it has a job in progress.
pub struct JobProcessor<H> {
    pub handle: H,
    pub job_in_progress: bool,
}

/// The outcome of one scheduling round.
pub struct RoundPlan<J> {
    /// The jobs to send, each with the index of the worker that takes it.
    pub assignments: Vec<(usize, J)>,
    /// Whether every queued job has been handed out and every job has completed: then
    /// processing is over.
    pub stop: bool,
}

/// A job scheduler that queues up work and executes on multiple threads.
pub struct JobScheduler<J, H> {
    job_processors: Vec<JobProcessor<H>>,
    queued_jobs: Vec<J>,
}

/// The workers that stay after polling: those not disconnected, in their order; a worker
/// that reported its job completed is free, the others keep their job.
pub open spec fn survivors<H>(processors: Seq<JobProcessor<H>>, polls: Seq<ProcessorPoll>) -> Seq<
    JobProcessor<H>,
>
    decreases processors.len(),
{
    if processors.len() == 0 {
        Seq::empty()
    } else {
        let rest = survivors(processors.drop_last(), polls.drop_last());
        let p = processors.last();
        if polls.last() == ProcessorPoll::Disconnected {
            rest
        } else {
            rest.push(
                JobProcessor {
                    handle: p.handle,
                    job_in_progress: p.job_in_progress && polls.last() != ProcessorPoll::Completed,
                },
            )
        }
    }
}

/// How many of the first `i` workers are free.
#[verifier::opaque]
pub open spec fn idle_before<H>(workers: Seq<JobProcessor<H>>, i: int) -> int
    decreases i,
{
    if i <= 0 {
        0
    } else {
        idle_before(workers, i - 1) + if workers[i - 1].job_in_progress {
            0int
        } else {
            1int
        }
    }
}

/// Counting free workers grows with the count, by one at each free worker.
proof fn lemma_idle_before_grows<H>(workers: Seq<JobProcessor<H>>, i: int, j: int)
    requires
        0 <= i <= j,
    ensures
        idle_before(workers, i) <= idle_before(workers, j),
        i < j && !workers[i].job_in_progress ==> idle_before(workers, i) < idle_before(workers, j),
        idle_before(workers, j) - idle_before(workers, i) <= j - i,
    decreases j - i,
{
    reveal(idle_before);
    if i < j {
        lemma_idle_before_grows(workers, i, j - 1);
    }
}

/// One more worker adds one to the count of free workers if it is free.
proof fn lemma_idle_before_step<H>(workers: Seq<JobProcessor<H>>, i: int)
    requires
        0 <= i,
    ensures
        idle_before(workers, i + 1) == idle_before(workers, i) + if workers[i].job_in_progress {
            0int
        } else {
            1int
        },
        idle_before(workers, 0) == 0,
{
    reveal(idle_before);
}

/// One scheduling round took `before` to `after` on the given polls, handing out
/// `assignments` and reporting `stop`: the disconnected workers are dropped and the others
/// kept in order, free once they reported their job completed; the free workers, in
/// order and as many as there are queued jobs, each get one job, the most recently queued
/// first; the round stops when nothing was queued and no worker has a job in progress.
pub open spec fn round_result<J, H>(
    before: JobScheduler<J, H>,
    after: JobScheduler<J, H>,
    polls: Seq<ProcessorPoll>,
    assignments: Seq<(usize, J)>,
    stop: bool,
) -> bool {
    let kept = survivors(before.processors(), polls);
    let k = before.queued().len() as int;
    let idle = idle_before(kept, kept.len() as int);
    let a = if idle < k { idle } else { k };
    &&& after.processors().len() == kept.len()
    &&& assignments.len() == a
    &&& after.queued() == before.queued().take(k - a)
    &&& forall|i: int|
        0 <= i < kept.len() ==> (#[trigger] after.processors()[i]).handle == kept[i].handle
            && after.processors()[i].job_in_progress == (kept[i].job_in_progress || idle_before(
            kept,
            i,
        ) < k)
    &&& forall|i: int|
        0 <= i < kept.len() && !(#[trigger] kept[i]).job_in_progress && idle_before(kept, i) < k
            ==> assignments[idle_before(kept, i)] == (i as usize, before.queued()[k - 1
            - idle_before(kept, i)])
    &&& forall|j: int|
        0 <= j < a ==> ((#[trigger] assignments[j]).0 as int) < kept.len()
            && !kept[assignments[j].0 as int].job_in_progress && idle_before(
            kept,
            assignments[j].0 as int,
        ) == j
    &&& stop == (k == 0 && forall|i: int| 0 <= i < kept.len() ==> !(#[trigger] kept[i]).job_in_progress)
}

/// A round loses no job and doubles none: the jobs queued before it are the jobs still
/// queued followed by the jobs handed out, in reverse; each job goes to its own worker,
/// which stays and is marked busy.
pub proof fn lemma_round_loses_no_job<J, H>(
    before: JobScheduler<J, H>,
    after: JobScheduler<J, H>,
    polls: Seq<ProcessorPoll>,
    assignments: Seq<(usize, J)>,
    stop: bool,
)
    requires
        round_result(before, after, polls, assignments, stop),
    ensures
        before.queued() == after.queued() + Seq::new(
            assignments.len(),
            |j: int| assignments[assignments.len() - 1 - j].1,
        ),
        forall|j: int, l: int|
            0 <= j < l < assignments.len() ==> assignments[j].0 != assignments[l].0,
        forall|j: int|
            0 <= j < assignments.len() ==> (assignments[j].0 as int) < after.processors().len()
                && after.processors()[assignments[j].0 as int].job_in_progress,
{
    let kept = survivors(before.processors(), polls);
    let k = before.queued().len() as int;
    let a = assignments.len() as int;
    let handed = Seq::new(assignments.len(), |j: int| assignments[assignments.len() - 1 - j].1);
    assert forall|i: int| 0 <= i < k implies before.queued()[i] == (after.queued() + handed)[i] by {
        if i >= k - a {
            let j = k - 1 - i;
            let w = assignments[j].0 as int;
            assert(!kept[w].job_in_progress && idle_before(kept, w) == j);
            assert(assignments[idle_before(kept, w)] == (w as usize, before.queued()[k - 1
                - idle_before(kept, w)]));
        }
    }
    assert(before.queued() =~= after.queued() + handed);
    assert forall|j: int, l: int| 0 <= j < l < a implies assignments[j].0 != assignments[l].0 by {
        assert(idle_before(kept, assignments[j].0 as int) == j);
        assert(idle_before(kept, assignments[l].0 as int) == l);
    }
    assert forall|j: int| 0 <= j < a implies (assignments[j].0 as int) < after.processors().len()
        && after.processors()[assignments[j].0 as int].job_in_progress by {
        let w = assignments[j].0 as int;
        assert(idle_before(kept, w) == j);
        assert(after.processors()[w].job_in_progress == (kept[w].job_in_progress || idle_before(
            kept,
            w,
        ) < k));
    }
}

/// Processing stops only once nothing is queued and every job handed out has been
/// reported completed.
pub proof fn lemma_stop_means_all_complete<J, H>(
    before: JobScheduler<J, H>,
    after: JobScheduler<J, H>,
    polls: Seq<ProcessorPoll>,
    assignments: Seq<(usize, J)>,
    stop: bool,
)
    requires
        round_result(before, after, polls, assignments, stop),
        stop,
    ensures
        before.queued().len() == 0,
        after.queued().len() == 0,
        assignments.len() == 0,
        forall|i: int|
            0 <= i < after.processors().len() ==> !(#[trigger] after.processors()[i]).job_in_progress,
{
    let kept = survivors(before.processors(), polls);
    assert forall|i: int| 0 <= i < after.processors().len() implies !(
    #[trigger] after.processors()[i]).job_in_progress by {
        assert(!kept[i].job_in_progress);
        lemma_idle_before_grows(kept, 0, i);
        lemma_idle_before_step(kept, 0);
        assert(after.processors()[i].job_in_progress == (kept[i].job_in_progress || idle_before(
            kept,
            i,
        ) < 0));
    }
}

impl<J, H> JobScheduler<J, H> {
    /// The workers, in order.
    pub closed spec fn processors(&self) -> Seq<JobProcessor<H>> {
        self.job_processors@
    }

    /// The queued jobs; the last one is handed out first.
    pub closed spec fn queued(&self) -> Seq<J> {
        self.queued_jobs@
    }

    /// A scheduler over the given worker threads, none busy, with no job queued.
    pub fn new(handles: Vec<H>) -> (scheduler: Self)
        ensures
            scheduler.processors().len() == handles@.len(),
            forall|i: int|
                0 <= i < handles@.len() ==> #[trigger] scheduler.processors()[i].handle
                    == handles@[i] && !scheduler.processors()[i].job_in_progress,
            scheduler.queued() == Seq::<J>::empty(),
    {
        let mut handles = handles;
        let ghost orig = handles@;
        let mut reversed: Vec<JobProcessor<H>> = Vec::new();
        while handles.len() > 0
            invariant
                handles@ == orig.take(handles@.len() as int),
                reversed@.len() + handles@.len() == orig.len(),
                forall|j: int|
                    0 <= j < reversed@.len() ==> (#[trigger] reversed@[j]).handle == orig[orig.len()
                        - 1 - j] && !reversed@[j].job_in_progress,
            decreases handles@.len(),
        {
            let handle = handles.pop().unwrap();
            reversed.push(JobProcessor { handle, job_in_progress: false });
        }
        let mut job_processors: Vec<JobProcessor<H>> = Vec::new();
        while reversed.len() > 0
            invariant
                reversed@.len() + job_processors@.len() == orig.len(),
                forall|j: int|
                    0 <= j < reversed@.len() ==> (#[trigger] reversed@[j]).handle == orig[orig.len()
                        - 1 - j] && !reversed@[j].job_in_progress,
                forall|j: int|
                    0 <= j < job_processors@.len() ==> (#[trigger] job_processors@[j]).handle
                        == orig[j] && !job_processors@[j].job_in_progress,
            decreases reversed@.len(),
        {
            let p = reversed.pop().unwrap();
            job_processors.push(p);
        }
        Self { job_processors, queued_jobs: Vec::new() }
    }

    /// The number of workers.
    pub fn processor_count(&self) -> (n: usize)
        ensures
            n == self.processors().len(),
    {
        self.job_processors.len()
    }

    /// The handle of worker `i`, to send it its job.
    pub fn handle(&self, i: usize) -> (h: &H)
        requires
            i < self.processors().len(),
        ensures
            *h == self.processors()[i as int].handle,
    {
        &self.job_processors[i].handle
    }

    /// Queues a job to execute.
    pub fn queue(&mut self, job: J)
        ensures
            final(self).queued() == old(self).queued().push(job),
            final(self).processors() == old(self).processors(),
    {
        self.queued_jobs.push(job);
    }

    /// Takes the workers out of the scheduler, dropping the queued jobs.
    pub fn into_processors(self) -> (processors: Vec<JobProcessor<H>>)
        ensures
            processors@ == self.processors(),
    {
        self.job_processors
    }

    /// One round of processing: drops the disconnected workers, frees those that reported
    /// their job completed, and hands queued jobs (the most recently queued first) to the
    /// free workers in order, one each. Reports whether nothing is queued and no job is in
    /// progress: then processing is over.
    #[verifier::rlimit(40)]
    pub fn schedule_round(&mut self, polls: &Vec<ProcessorPoll>) -> (plan: RoundPlan<J>)
        requires
            polls@.len() == old(self).processors().len(),
        ensures
            round_result(*old(self), *final(self), polls@, plan.assignments@, plan.stop),
    {
        let ghost old_ps = self.job_processors@;
        let ghost old_q = self.queued_jobs@;
        // Remove disconnected workers; free those whose job completed.
        let mut i: usize = 0;
        let mut j: usize = 0;
        while j < polls.len()
            invariant
                polls@.len() == old_ps.len(),
                j <= polls@.len(),
                self.queued_jobs@ == old_q,
                i == survivors(old_ps.take(j as int), polls@.take(j as int)).len(),
                self.job_processors@.len() == i + (old_ps.len() - j),
                forall|k: int|
                    0 <= k < i ==> #[trigger] self.job_processors@[k] == survivors(
                        old_ps.take(j as int),
                        polls@.take(j as int),
                    )[k],
                forall|k: int|
                    0 <= k < old_ps.len() - j ==> #[trigger] self.job_processors@[i + k] == old_ps[j
                        + k],
            decreases polls@.len() - j,
        {
            proof {
                assert(old_ps.take(j + 1).drop_last() =~= old_ps.take(j as int));
                assert(polls@.take(j + 1).drop_last() =~= polls@.take(j as int));
            }
            let ghost before = self.job_processors@;
            let ghost prev = survivors(old_ps.take(j as int), polls@.take(j as int));
            let ghost next = survivors(old_ps.take(j + 1), polls@.take(j + 1));
            assert(before[i + 0] == old_ps[j + 0]);
            if polls[j] == ProcessorPoll::Disconnected {
                self.job_processors.remove(i);
                assert(next == prev);
                assert forall|k: int| 0 <= k < old_ps.len() - (j + 1) implies #[trigger] self.job_processors@[i + k]
                    == old_ps[(j + 1) + k] by {
                    assert(before[i + (k + 1)] == old_ps[j + (k + 1)]);
                }
            } else {
                assert(i < self.job_processors.len());
                if polls[j] == ProcessorPoll::Completed {
                    self.job_processors[i].job_in_progress = false;
                }
                assert(next == prev.push(self.job_processors@[i as int]));
                assert forall|k: int| 0 <= k < old_ps.len() - (j + 1) implies #[trigger] self.job_processors@[(i + 1) + k]
                    == old_ps[(j + 1) + k] by {
                    assert(before[i + (k + 1)] == old_ps[j + (k + 1)]);
                }
                i = i + 1;
            }
            j = j + 1;
        }
        proof {
            assert(old_ps.take(old_ps.len() as int) =~= old_ps);
            assert(polls@.take(polls@.len() as int) =~= polls@);
        }
        let ghost kept = survivors(old_ps, polls@);
        let ghost k = old_q.len() as int;
        assert(self.job_processors@ =~= kept);
        proof {
            lemma_idle_before_step(kept, 0);
        }
        // Send queued jobs out, one per free worker.
        let mut assignments: Vec<(usize, J)> = Vec::new();
        let mut jobs_in_progress: usize = 0;
        let mut p: usize = 0;
        while p < self.job_processors.len()
            invariant
                self.job_processors@.len() == kept.len(),
                p <= kept.len(),
                k == old_q.len(),
                assignments@.len() == if idle_before(kept, p as int) < k {
                    idle_before(kept, p as int)
                } else {
                    k
                },
                self.queued_jobs@ == old_q.take(k - assignments@.len()),
                jobs_in_progress <= p,
                (jobs_in_progress == 0) == (forall|q: int|
                    0 <= q < p ==> !(#[trigger] self.job_processors@[q]).job_in_progress),
                forall|q: int|
                    0 <= q < kept.len() ==> (#[trigger] self.job_processors@[q]).handle
                        == kept[q].handle,
                forall|q: int|
                    0 <= q < p ==> (#[trigger] self.job_processors@[q]).job_in_progress == (
                    kept[q].job_in_progress || idle_before(kept, q) < k),
                forall|q: int|
                    p <= q < kept.len() ==> #[trigger] self.job_processors@[q] == kept[q],
                forall|q: int|
                    0 <= q < p && !(#[trigger] kept[q]).job_in_progress && idle_before(kept, q) < k
                        ==> assignments@[idle_before(kept, q)] == (q as usize, old_q[k - 1
                        - idle_before(kept, q)]),
                forall|a: int|
                    0 <= a < assignments@.len() ==> ((#[trigger] assignments@[a]).0 as int) < p
                        && !kept[assignments@[a].0 as int].job_in_progress && idle_before(
                        kept,
                        assignments@[a].0 as int,
                    ) == a,
            decreases kept.len() - p,
        {
            proof {
                lemma_idle_before_grows(kept, 0, p as int);
                lemma_idle_before_step(kept, p as int);
            }
            let ghost before_ps = self.job_processors@;
            if self.job_processors[p].job_in_progress == false {
                let ghost n = assignments@.len();
                match self.queued_jobs.pop() {
                    Some(job) => {
                        assert(n < k);
                        assert(n == idle_before(kept, p as int));
                        assert(job == old_q[k - 1 - n]);
                        assert(self.queued_jobs@ =~= old_q.take(k - (n + 1)));
                        self.job_processors[p].job_in_progress = true;
                        jobs_in_progress = jobs_in_progress + 1;
                        let ghost before_a = assignments@;
                        assignments.push((p, job));
                        assert(self.job_processors@[p as int].job_in_progress);
                        assert forall|q: int|
                            0 <= q < p + 1 && !(#[trigger] kept[q]).job_in_progress && idle_before(kept, q) < k
                                implies assignments@[idle_before(kept, q)] == (q as usize, old_q[k - 1
                                - idle_before(kept, q)]) by {
                            if q < p {
                                lemma_idle_before_grows(kept, q, p as int);
                                lemma_idle_before_grows(kept, 0, q);
                                lemma_idle_before_step(kept, 0);
                                assert(assignments@[idle_before(kept, q)] == before_a[idle_before(kept, q)]);
                            }
                        }
                    },
                    None => {
                        assert(n == k);
                        assert(self.job_processors@ == before_ps);
                        assert(!self.job_processors@[p as int].job_in_progress);
                    },
                }
            } else {
                jobs_in_progress = jobs_in_progress + 1;
                assert(self.job_processors@[p as int].job_in_progress);
            }
            p = p + 1;
        }
        // Check if all jobs are processed.
        let stop = self.queued_jobs.is_empty() && jobs_in_progress == 0;
        proof {
            let idle = idle_before(kept, kept.len() as int);
            if k > 0 && assignments@.len() == 0 && kept.len() > 0 {
                // No job could be handed out: every worker is busy.
                assert(idle == 0);
                assert forall|q: int| 0 <= q < kept.len() implies kept[q].job_in_progress by {
                    if !kept[q].job_in_progress {
                        lemma_idle_before_grows(kept, q, kept.len() as int);
                        lemma_idle_before_grows(kept, 0, q);
                    }
                }
                assert(self.job_processors@[0].job_in_progress);
            }
            if assignments@.len() > 0 {
                let w = assignments@[0].0 as int;
                assert(self.job_processors@[w].job_in_progress);
            }
            if k == 0 {
                assert forall|q: int| 0 <= q < kept.len() implies self.job_processors@[q].job_in_progress
                    == kept[q].job_in_progress by {
                    lemma_idle_before_grows(kept, 0, q);
                }
            }
        }
        RoundPlan { assignments, stop }
    }
}

} // verus!
