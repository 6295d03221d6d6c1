//! A scheduler that owns a collection of jobs, polls them for readiness,
//! and runs the ones that are due.

use vstd::prelude::*;

use crate::job::Job;
use crate::time::{advance, now_millis, until, until_millis};

verus! {

/// How a single job changes when a pass of [`Scheduler::run_pending`] runs
/// it: the interval, one-shot flag, label and attached action are kept; the
/// next run is cleared (one-shot) or rescheduled one interval past the new
/// last run (periodic); and the run counter grows by one exactly when an
/// action is attached.
pub open spec fn executed_from(pre: Job, post: Job) -> bool {
    &&& post.interval() == pre.interval()
    &&& post.once() == pre.once()
    &&& post.label() == pre.label()
    &&& post.action() == pre.action()
    &&& pre.once() ==> post.next_run_time() is None
    &&& !pre.once() ==> post.next_run_time() == Some(
        advance(post.last_run_time(), pre.interval()),
    )
    &&& pre.has_func() ==> post.runs() == pre.runs() + 1
    &&& !pre.has_func() ==> post.runs() == pre.runs()
}

/// How a whole job set changes over one pass judged at the instant `t`:
/// every job due at `t` is executed in place, every other job is left
/// untouched.
pub open spec fn run_pass(pre: Seq<Job>, post: Seq<Job>, t: int) -> bool {
    &&& post.len() == pre.len()
    &&& forall|i: int|
        0 <= i < pre.len() && pre[i].is_ready_at(t) ==> executed_from(pre[i], #[trigger] post[i])
    &&& forall|i: int|
        0 <= i < pre.len() && !pre[i].is_ready_at(t) ==> #[trigger] post[i] == pre[i]
}

/// How many jobs of `s` are due at the instant `t`.
pub open spec fn count_ready(s: Seq<Job>, t: int) -> int
    decreases s.len(),
{
    if s.len() == 0 {
        0
    } else {
        count_ready(s.drop_last(), t) + if s.last().is_ready_at(t) {
            1int
        } else {
            0int
        }
    }
}

/// A job scheduler: the exclusive owner of an unordered collection of jobs.
pub struct Scheduler {
    job_queue: Vec<Job>,
}

impl Scheduler {
    /// The jobs the scheduler owns, in insertion order.
    pub closed spec fn jobs(self) -> Seq<Job> {
        self.job_queue@
    }

    /// Whether some owned job is due at the instant `t`.
    pub open spec fn any_ready_at(self, t: int) -> bool {
        exists|i: int| 0 <= i < self.jobs().len() && (#[trigger] self.jobs()[i]).is_ready_at(t)
    }

    /// Whether some owned job has a next run scheduled at all.
    pub open spec fn has_scheduled(self) -> bool {
        exists|i: int|
            0 <= i < self.jobs().len() && (#[trigger] self.jobs()[i]).next_run_time() is Some
    }

    /// `m` is the earliest instant at which any owned job is scheduled.
    pub open spec fn is_earliest_scheduled(self, m: int) -> bool {
        &&& exists|i: int|
            0 <= i < self.jobs().len() && (#[trigger] self.jobs()[i]).next_run_time() == Some(m)
        &&& forall|i: int|
            0 <= i < self.jobs().len() && (#[trigger] self.jobs()[i]).next_run_time() is Some
                ==> m <= self.jobs()[i].next_run_time()->0
    }

    /// Create a scheduler with an empty job set.
    pub fn new() -> (r: Scheduler)
        ensures
            r.jobs().len() == 0,
    {
        Scheduler { job_queue: Vec::new() }
    }

    /// Add a job to the set, taking ownership of it; no deduplication and no
    /// reordering of the jobs already held.
    pub fn add_job(&mut self, job: Job)
        ensures
            final(self).jobs() == old(self).jobs().push(job),
    {
        self.job_queue.push(job);
    }

    /// How many jobs the scheduler owns.
    pub fn job_count(&self) -> (r: usize)
        ensures
            r == self.jobs().len(),
    {
        self.job_queue.len()
    }

    /// Whether any owned job is due at the instant `now`: the deterministic
    /// core of [`Scheduler::pending`].
    pub fn pending_at(&self, now: i64) -> (r: bool)
        ensures
            r == self.any_ready_at(now as int),
    {
        let n = self.job_queue.len();
        let mut i: usize = 0;
        while i < n
            invariant
                n == self.jobs().len(),
                i <= n,
                forall|k: int| 0 <= k < i ==> !(#[trigger] self.jobs()[k]).is_ready_at(now as int),
            decreases n - i,
        {
            if self.job_queue[i].ready_at(now) {
                proof {
                    assert(self.jobs()[i as int].is_ready_at(now as int));
                }
                return true;
            }
            i = i + 1;
        }
        false
    }

    /// Whether any owned job needs to be run, judged against the wall
    /// clock. An empty job set, or one where nothing is scheduled, is never
    /// pending.
    pub fn pending(&self) -> (r: bool)
        ensures
            self.jobs().len() == 0 ==> r == false,
            (forall|i: int|
                0 <= i < self.jobs().len() ==> (#[trigger] self.jobs()[i]).next_run_time() is None)
                ==> r == false,
            exists|t: int|
                i64::MIN <= t <= i64::MAX && r == #[trigger] self.any_ready_at(t),
    {
        let now = now_millis();
        let r = self.pending_at(now);
        proof {
            assert(r == self.any_ready_at(now as int));
        }
        r
    }

    /// The time, in milliseconds, from the instant `now` until the earliest
    /// scheduled run of any owned job (negative when that run is overdue),
    /// or `None` when no job has a run scheduled: the deterministic core of
    /// [`Scheduler::time_to_next`].
    pub fn time_to_next_at(&self, now: i64) -> (r: Option<i64>)
        ensures
            r is Some <==> self.has_scheduled(),
            r is Some ==> exists|m: int|
                #[trigger] self.is_earliest_scheduled(m) && r->0 as int == until(m, now as int),
    {
        let n = self.job_queue.len();
        let mut best: Option<i64> = None;
        let mut i: usize = 0;
        while i < n
            invariant
                n == self.jobs().len(),
                i <= n,
                best is None ==> forall|k: int|
                    0 <= k < i ==> (#[trigger] self.jobs()[k]).next_run_time() is None,
                best is Some ==> exists|k: int|
                    0 <= k < i && (#[trigger] self.jobs()[k]).next_run_time() == Some(
                        best->0 as int,
                    ),
                best is Some ==> forall|k: int|
                    0 <= k < i && (#[trigger] self.jobs()[k]).next_run_time() is Some
                        ==> best->0 as int <= self.jobs()[k].next_run_time()->0,
            decreases n - i,
        {
            match self.job_queue[i].next_run() {
                Some(t) => {
                    match best {
                        Some(b) => {
                            if t < b {
                                best = Some(t);
                            }
                        },
                        None => {
                            best = Some(t);
                        },
                    }
                },
                None => {},
            }
            i = i + 1;
        }
        match best {
            Some(m) => {
                proof {
                    assert(self.is_earliest_scheduled(m as int));
                }
                Some(until_millis(m, now))
            },
            None => None,
        }
    }

    /// The time until the earliest scheduled run of any owned job, judged
    /// against the wall clock, or `None` when no job has a run scheduled.
    pub fn time_to_next(&self) -> (r: Option<i64>)
        ensures
            r is Some <==> self.has_scheduled(),
            r is Some ==> exists|t: int, m: int|
                i64::MIN <= t <= i64::MAX && self.is_earliest_scheduled(m) && r->0 as int
                    == #[trigger] until(m, t),
    {
        let now = now_millis();
        let r = self.time_to_next_at(now);
        r
    }

    /// True while every owned job's run counter has room to grow: the guard
    /// under which [`Scheduler::run_pending`] may be called.
    pub fn run_counts_in_range(&self) -> (r: bool)
        ensures
            r == forall|i: int|
                0 <= i < self.jobs().len() ==> (#[trigger] self.jobs()[i]).runs() < u32::MAX,
    {
        let n = self.job_queue.len();
        let mut i: usize = 0;
        while i < n
            invariant
                n == self.jobs().len(),
                i <= n,
                forall|k: int| 0 <= k < i ==> (#[trigger] self.jobs()[k]).runs() < u32::MAX,
            decreases n - i,
        {
            if self.job_queue[i].times_run() == u32::MAX {
                return false;
            }
            i = i + 1;
        }
        true
    }

    /// Run every job that is due at the instant `now`, in place and in
    /// order, and return how many were due: the deterministic core of
    /// [`Scheduler::run_pending`]. One job's failure to run (no action
    /// attached) does not stop the others.
    pub fn run_pending_at(&mut self, now: i64) -> (r: usize)
        requires
            forall|i: int|
                0 <= i < old(self).jobs().len() ==> (#[trigger] old(self).jobs()[i]).runs()
                    < u32::MAX,
        ensures
            run_pass(old(self).jobs(), final(self).jobs(), now as int),
            r == count_ready(old(self).jobs(), now as int),
    {
        let ghost pre = self.jobs();
        let n = self.job_queue.len();
        let mut count: usize = 0;
        let mut i: usize = 0;
        while i < n
            invariant
                pre == old(self).jobs(),
                forall|k: int| 0 <= k < n ==> (#[trigger] pre[k]).runs() < u32::MAX,
                n == pre.len(),
                self.jobs().len() == pre.len(),
                i <= n,
                count <= i,
                forall|k: int| i <= k < n ==> #[trigger] self.jobs()[k] == pre[k],
                forall|k: int|
                    0 <= k < i && pre[k].is_ready_at(now as int) ==> executed_from(
                        pre[k],
                        #[trigger] self.jobs()[k],
                    ),
                forall|k: int|
                    0 <= k < i && !pre[k].is_ready_at(now as int) ==> #[trigger] self.jobs()[k]
                        == pre[k],
                count == count_ready(pre.take(i as int), now as int),
            decreases n - i,
        {
            if self.job_queue[i].ready_at(now) {
                count = count + 1;
                proof {
                    assert(pre[i as int].runs() < u32::MAX);
                }
                // An execution error is the job's own affair; it does not
                // stop the pass or the count.
                let _ = self.job_queue[i].execute();
            }
            proof {
                assert(pre.take(i + 1 as int).drop_last() =~= pre.take(i as int));
                assert(pre.take(i + 1 as int).last() == pre[i as int]);
            }
            i = i + 1;
        }
        proof {
            assert(pre.take(n as int) =~= pre);
            assert(run_pass(pre, self.jobs(), now as int));
        }
        count
    }

    /// Run every job that is due, judged against the wall clock, and return
    /// how many were due in this pass: one pass of [`Self::run_pending_at`]
    /// at the clock's reading.
    pub fn run_pending(&mut self) -> (r: usize)
        requires
            forall|i: int|
                0 <= i < old(self).jobs().len() ==> (#[trigger] old(self).jobs()[i]).runs()
                    < u32::MAX,
        ensures
            final(self).jobs().len() == old(self).jobs().len(),
            exists|t: int|
                i64::MIN <= t <= i64::MAX && #[trigger] run_pass(
                    old(self).jobs(),
                    final(self).jobs(),
                    t,
                ) && r == count_ready(old(self).jobs(), t),
    {
        let now = now_millis();
        let r = self.run_pending_at(now);
        proof {
            assert(run_pass(old(self).jobs(), self.jobs(), now as int));
        }
        r
    }
}

/// Law: a periodic job that a pass just ran is no longer ready at the
/// instant the pass judged it due, provided its interval is positive and
/// the clock did not move backwards while it ran.
pub proof fn lemma_executed_job_not_ready(pre: Job, post: Job, t: int)
    requires
        executed_from(pre, post),
        !pre.once(),
        0 < pre.interval(),
        t <= post.last_run_time(),
        post.last_run_time() + pre.interval() <= i64::MAX,
    ensures
        !post.is_ready_at(t),
{
}

/// Law: a run counter never decreases: over any pass, every job's count of
/// successful runs stays or grows.
pub proof fn lemma_run_counts_monotone(pre: Seq<Job>, post: Seq<Job>, t: int)
    requires
        run_pass(pre, post, t),
    ensures
        forall|i: int| 0 <= i < pre.len() ==> pre[i].runs() <= (#[trigger] post[i]).runs(),
{
}

/// Law: the earliest scheduled instant of a job set is unique, so the
/// contract of [`Scheduler::time_to_next_at`] pins its result.
pub proof fn lemma_earliest_unique(s: Scheduler, m1: int, m2: int)
    requires
        s.is_earliest_scheduled(m1),
        s.is_earliest_scheduled(m2),
    ensures
        m1 == m2,
{
    let i1 = choose|i: int|
        0 <= i < s.jobs().len() && (#[trigger] s.jobs()[i]).next_run_time() == Some(m1);
    let i2 = choose|i: int|
        0 <= i < s.jobs().len() && (#[trigger] s.jobs()[i]).next_run_time() == Some(m2);
    assert(s.jobs()[i1].next_run_time() is Some);
    assert(s.jobs()[i2].next_run_time() is Some);
}

/// Law: a pass at an instant `t` over a job set holding exactly one job
/// that is due at `t` runs exactly that one job.
pub proof fn lemma_single_ready_pass(pre: Seq<Job>, t: int)
    requires
        pre.len() == 1,
        pre[0].is_ready_at(t),
    ensures
        count_ready(pre, t) == 1,
{
    assert(pre.drop_last() =~= Seq::<Job>::empty());
    assert(count_ready(Seq::<Job>::empty(), t) == 0);
    assert(pre.last() == pre[0]);
}

} // verus!
