//! A task that is to be run at some time in the future, together with the
//! bookkeeping of when it last ran and when it is next due.

use vstd::prelude::*;

use crate::callback::Callback;
use crate::time::{TimeSpan, advance, advance_millis, now_millis, span_millis, span_to_millis};

verus! {

/// A task designed to be run at some point in the future.
///
/// A job is built fluently: [`Job::every`] or [`Job::in_`] fixes the
/// interval, [`Job::and`] accumulates more of it, and [`Job::do_`] (or
/// [`Job::run`]) attaches the action and validates the result. A validated
/// job is then repeatedly polled with [`Job::ready`] and run with
/// [`Job::execute`].
pub struct Job {
    duration: i64,
    last_run: i64,
    next_run: Option<i64>,
    once_off: bool,
    name: Option<String>,
    func: Option<Callback>,
    times_run: u32,
}

impl Job {
    /// The accumulated interval between runs, in milliseconds; zero means
    /// "not yet configured".
    pub closed spec fn interval(self) -> int {
        self.duration as int
    }

    /// The instant the job last ran (or was created), in milliseconds since
    /// the Unix epoch.
    pub closed spec fn last_run_time(self) -> int {
        self.last_run as int
    }

    /// The next scheduled run, if any; `None` means no further execution is
    /// scheduled.
    pub closed spec fn next_run_time(self) -> Option<int> {
        match self.next_run {
            Some(t) => Some(t as int),
            None => None,
        }
    }

    /// Whether the job is one-shot: to be run at most once.
    pub closed spec fn once(self) -> bool {
        self.once_off
    }

    /// The diagnostic label, if one was given.
    pub closed spec fn label(self) -> Option<Seq<char>> {
        match self.name {
            Some(ref s) => Some(s@),
            None => None,
        }
    }

    /// The attached action, if any; opaque but for its identity.
    pub closed spec fn action(self) -> Option<Callback> {
        self.func
    }

    /// Whether an action has been attached.
    pub open spec fn has_func(self) -> bool {
        self.action() is Some
    }

    /// How many times the job has run successfully.
    pub closed spec fn runs(self) -> int {
        self.times_run as int
    }

    /// A job is valid when an interval has been entered and an action has
    /// been attached; only valid jobs come out of [`Job::do_`] and
    /// [`Job::run`].
    pub open spec fn is_valid(self) -> bool {
        self.interval() != 0 && self.has_func()
    }

    /// Whether the job is due at the instant `now`: its next run is
    /// scheduled and that instant has arrived.
    pub open spec fn is_ready_at(self, now: int) -> bool {
        match self.next_run_time() {
            Some(t) => t <= now,
            None => false,
        }
    }

    /// Construct a bare job: no interval, nothing scheduled, no action,
    /// never run, created now.
    pub fn new() -> (r: Job)
        ensures
            r.interval() == 0,
            r.next_run_time() is None,
            !r.once(),
            r.label() is None,
            !r.has_func(),
            r.runs() == 0,
    {
        Job {
            duration: 0,
            last_run: now_millis(),
            next_run: None,
            once_off: false,
            name: None,
            func: None,
            times_run: 0,
        }
    }

    /// Give the job a diagnostic name; pure metadata, no effect on
    /// scheduling.
    pub fn name(self, s: &str) -> (r: Job)
        ensures
            r.label() == Some(s@),
            r.interval() == self.interval(),
            r.last_run_time() == self.last_run_time(),
            r.next_run_time() == self.next_run_time(),
            r.once() == self.once(),
            r.action() == self.action(),
            r.runs() == self.runs(),
    {
        let mut j = self;
        j.name = Some(s.to_owned());
        j
    }

    /// Increase the interval between runs by `n` of `unit` and reschedule
    /// the next run that far past the last one.
    fn increment(&mut self, n: i64, unit: TimeSpan)
        requires
            0 <= n,
            span_millis(n as int, unit) <= i64::MAX,
            old(self).interval() + span_millis(n as int, unit) <= i64::MAX,
        ensures
            final(self).interval() == old(self).interval() + span_millis(n as int, unit),
            final(self).next_run_time() == Some(
                advance(final(self).last_run_time(), final(self).interval()),
            ),
            final(self).last_run_time() == old(self).last_run_time(),
            final(self).once() == old(self).once(),
            final(self).label() == old(self).label(),
            final(self).action() == old(self).action(),
            final(self).runs() == old(self).runs(),
    {
        let add = span_to_millis(n, unit);
        proof {
            crate::time::lemma_span_millis_nonneg(n as int, unit);
        }
        self.duration = self.duration + add;
        self.next_run = Some(advance_millis(self.last_run, self.duration));
    }

    /// Construct a periodic job that runs every `n` of `unit`.
    pub fn every(n: i64, unit: TimeSpan) -> (r: Job)
        requires
            0 <= n,
            span_millis(n as int, unit) <= i64::MAX,
        ensures
            r.interval() == span_millis(n as int, unit),
            r.next_run_time() == Some(advance(r.last_run_time(), r.interval())),
            !r.once(),
            r.label() is None,
            !r.has_func(),
            r.runs() == 0,
    {
        let mut d = Job::new();
        d.increment(n, unit);
        d
    }

    /// Construct a one-shot job that runs once, `n` of `unit` from now.
    pub fn in_(n: i64, unit: TimeSpan) -> (r: Job)
        requires
            0 <= n,
            span_millis(n as int, unit) <= i64::MAX,
        ensures
            r.interval() == span_millis(n as int, unit),
            r.next_run_time() == Some(advance(r.last_run_time(), r.interval())),
            r.once(),
            r.label() is None,
            !r.has_func(),
            r.runs() == 0,
    {
        let mut d = Job::new();
        d.increment(n, unit);
        d.once_off = true;
        d
    }

    /// Accumulate an additional `n` of `unit` onto the interval, so that
    /// mixed-unit intervals compose fluently.
    pub fn and(self, n: i64, unit: TimeSpan) -> (r: Job)
        requires
            0 <= n,
            span_millis(n as int, unit) <= i64::MAX,
            self.interval() + span_millis(n as int, unit) <= i64::MAX,
        ensures
            r.interval() == self.interval() + span_millis(n as int, unit),
            r.next_run_time() == Some(advance(r.last_run_time(), r.interval())),
            r.last_run_time() == self.last_run_time(),
            r.once() == self.once(),
            r.label() == self.label(),
            r.action() == self.action(),
            r.runs() == self.runs(),
    {
        let mut j = self;
        j.increment(n, unit);
        j
    }

    /// Check that the job is ready to be handed to a scheduler: an interval
    /// has been entered and an action attached. On success the job comes
    /// back unchanged; otherwise the error says what is missing.
    pub fn validate(self) -> (r: Result<Job, String>)
        ensures
            self.interval() == 0 ==> r is Err && r->Err_0@ == "No duration entered"@,
            self.interval() != 0 && !self.has_func() ==> r is Err && r->Err_0@
                == "No function supplied"@,
            self.is_valid() ==> r is Ok && r->Ok_0 == self,
    {
        if self.duration == 0 {
            Err("No duration entered".to_owned())
        } else if self.func.is_none() {
            Err("No function supplied".to_owned())
        } else {
            Ok(self)
        }
    }

    /// Attach the action the job is to run, then validate the job. The
    /// result is valid whenever an interval was entered; otherwise the
    /// "no duration entered" error comes back and no job is returned.
    pub fn do_<F: Fn() + Send + Sync + 'static>(self, f: F) -> (r: Result<Job, String>)
        ensures
            self.interval() == 0 ==> r is Err && r->Err_0@ == "No duration entered"@,
            self.interval() != 0 ==> r is Ok && ({
                let j = r->Ok_0;
                &&& j.is_valid()
                &&& j.interval() == self.interval()
                &&& j.last_run_time() == self.last_run_time()
                &&& j.next_run_time() == self.next_run_time()
                &&& j.once() == self.once()
                &&& j.label() == self.label()
                &&& j.runs() == self.runs()
            }),
    {
        let mut j = self;
        j.func = Some(Callback::wrap(f));
        j.validate()
    }

    /// Attach the action the job is to run, then validate the job; a
    /// synonym of [`Job::do_`].
    pub fn run<F: Fn() + Send + Sync + 'static>(self, f: F) -> (r: Result<Job, String>)
        ensures
            self.interval() == 0 ==> r is Err && r->Err_0@ == "No duration entered"@,
            self.interval() != 0 ==> r is Ok && ({
                let j = r->Ok_0;
                &&& j.is_valid()
                &&& j.interval() == self.interval()
                &&& j.last_run_time() == self.last_run_time()
                &&& j.next_run_time() == self.next_run_time()
                &&& j.once() == self.once()
                &&& j.label() == self.label()
                &&& j.runs() == self.runs()
            }),
    {
        self.do_(f)
    }

    /// Whether the job is periodic, as opposed to one-shot.
    pub fn is_periodic(&self) -> (r: bool)
        ensures
            r == !self.once(),
    {
        !self.once_off
    }

    /// Whether the job has been given a diagnostic name.
    pub fn has_label(&self) -> (r: bool)
        ensures
            r == (self.label() is Some),
    {
        self.name.is_some()
    }

    /// Whether an action has been attached to the job.
    pub fn has_callback(&self) -> (r: bool)
        ensures
            r == self.has_func(),
    {
        self.func.is_some()
    }

    /// The number of times the job has been run successfully.
    pub fn times_run(&self) -> (r: u32)
        ensures
            r as int == self.runs(),
    {
        self.times_run
    }

    /// The accumulated interval between runs, in milliseconds.
    pub fn duration_millis(&self) -> (r: i64)
        ensures
            r as int == self.interval(),
    {
        self.duration
    }

    /// The instant the job last ran (or was created), in milliseconds since
    /// the Unix epoch.
    pub fn last_run_millis(&self) -> (r: i64)
        ensures
            r as int == self.last_run_time(),
    {
        self.last_run
    }

    /// The next time this job should be run, in milliseconds since the Unix
    /// epoch, if one is scheduled.
    pub fn next_run(&self) -> (r: Option<i64>)
        ensures
            r is Some <==> self.next_run_time() is Some,
            r is Some ==> r->0 as int == self.next_run_time()->0,
    {
        self.next_run
    }

    /// Overwrite the next scheduled run. Scheduling normally maintains this
    /// field itself; the setter exists so that readiness at a chosen instant
    /// can be arranged deterministically.
    pub fn set_next_run(&mut self, t: Option<i64>)
        ensures
            final(self).next_run_time() == (match t {
                Some(v) => Some(v as int),
                None => None::<int>,
            }),
            final(self).interval() == old(self).interval(),
            final(self).last_run_time() == old(self).last_run_time(),
            final(self).once() == old(self).once(),
            final(self).label() == old(self).label(),
            final(self).action() == old(self).action(),
            final(self).runs() == old(self).runs(),
    {
        self.next_run = t;
    }

    /// Whether the job is due at the instant `now`: the deterministic core
    /// of [`Job::ready`].
    pub fn ready_at(&self, now: i64) -> (r: bool)
        ensures
            r == self.is_ready_at(now as int),
    {
        match self.next_run {
            Some(next) => next <= now,
            None => false,
        }
    }

    /// Whether the job needs to be run, judged against the wall clock. A job
    /// with nothing scheduled is never ready, whatever the clock says.
    pub fn ready(&self) -> (r: bool)
        ensures
            self.next_run_time() is None ==> r == false,
            r ==> self.next_run_time() is Some,
            exists|t: int|
                i64::MIN <= t <= i64::MAX && r == #[trigger] self.is_ready_at(t),
    {
        let now = now_millis();
        let r = self.ready_at(now);
        proof {
            assert(r == self.is_ready_at(now as int));
        }
        r
    }

    /// Run the job once and update its bookkeeping: the last run becomes
    /// now, the next run is cleared (one-shot) or rescheduled one interval
    /// past now (periodic), and the run counter grows by one on success.
    /// The error comes exactly when no action was ever attached.
    pub fn execute(&mut self) -> (r: Result<(), String>)
        requires
            old(self).runs() < u32::MAX,
        ensures
            final(self).interval() == old(self).interval(),
            final(self).once() == old(self).once(),
            final(self).label() == old(self).label(),
            final(self).action() == old(self).action(),
            old(self).once() ==> final(self).next_run_time() is None,
            !old(self).once() ==> final(self).next_run_time() == Some(
                advance(final(self).last_run_time(), old(self).interval()),
            ),
            r is Ok <==> old(self).has_func(),
            r is Ok ==> final(self).runs() == old(self).runs() + 1,
            r is Err ==> final(self).runs() == old(self).runs() && r->Err_0@
                == "No function provided!"@,
    {
        let now = now_millis();
        self.last_run = now;

        if self.once_off {
            self.next_run = None;
        } else {
            self.next_run = Some(advance_millis(now, self.duration));
        }

        match &self.func {
            Some(f) => {
                f.invoke();
                self.times_run = self.times_run + 1;
                Ok(())
            },
            None => Err("No function provided!".to_owned()),
        }
    }
}

/// Law: a job whose interval is the converted span of `n` units, and whose
/// next run is scheduled one interval past its last run — as [`Job::every`],
/// [`Job::in_`] and [`Job::and`] leave it, and [`Job::do_`] keeps it — has
/// its next run exactly `span_millis(n, unit)` past `last_run_time`,
/// whenever that instant is representable.
pub proof fn lemma_next_run_offset(j: Job, n: int, unit: TimeSpan)
    requires
        j.interval() == span_millis(n, unit),
        j.next_run_time() == Some(advance(j.last_run_time(), j.interval())),
        j.last_run_time() + j.interval() <= i64::MAX,
        i64::MIN <= j.last_run_time() + j.interval(),
    ensures
        j.next_run_time()->0 - j.last_run_time() == span_millis(n, unit),
{
}

/// Law: a job with no scheduled next run — as a one-shot job is left after
/// it fires — is never ready again, at any instant whatsoever.
pub proof fn lemma_terminal_never_ready(j: Job)
    requires
        j.next_run_time() is None,
    ensures
        forall|t: int| !j.is_ready_at(t),
{
}

/// Law: readiness is exactly the clock reaching the scheduled instant: a
/// job scheduled for `m` is not ready at any earlier instant and is ready
/// at `m` and every later instant.
pub proof fn lemma_ready_threshold(j: Job, m: int, t: int)
    requires
        j.next_run_time() == Some(m),
    ensures
        j.is_ready_at(t) <==> m <= t,
{
}

} // verus!
