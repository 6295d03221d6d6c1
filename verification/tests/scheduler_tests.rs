use chrono::Local;
use sched::{Job, Scheduler, TimeSpan};
use std::sync::{Arc, Mutex};

#[test]
fn scheduler_constructor() {
    let sched = Scheduler::new();
    assert!(sched.job_count() == 0);
}

#[test]
fn add_job_to_queue() {
    let job = Job::every(5, TimeSpan::Minutes).run(Box::new(|| ())).unwrap();
    let job_2 = Job::every(5, TimeSpan::Minutes).run(Box::new(|| ())).unwrap();
    let mut sched = Scheduler::new();
    assert!(sched.job_count() == 0);

    sched.add_job(job);
    assert_eq!(sched.job_count(), 1);

    // Add a second job
    sched.add_job(job_2);
    assert_eq!(sched.job_count(), 2);
}

#[test]
fn is_empty_queue_pending() {
    let sched = Scheduler::new();
    assert!(sched.job_count() == 0);
    assert!(!sched.pending());
}

#[test]
fn queue_with_pending_task() {
    let job = Job::every(10, TimeSpan::Milliseconds).run(Box::new(|| ())).unwrap();

    // An instant just after the job is due.
    let after_due = job.next_run().unwrap() + 1;
    assert!(job.ready_at(after_due));

    let mut sched = Scheduler::new();
    assert!(sched.job_count() == 0);
    assert!(!sched.pending());

    sched.add_job(job);
    assert!(sched.pending_at(after_due));
}

#[test]
fn execute_jobs() {
    // A shared number handed to the closure, the way a caller would share
    // state with a job.
    let num: Arc<Mutex<u32>> = Arc::new(Mutex::new(0));
    let num_2 = num.clone();

    let mut job = Job::every(10, TimeSpan::Milliseconds)
        .run(Box::new(move || {
            let mut n = num_2.lock().unwrap();
            *n = 42;
        }))
        .unwrap();

    // Make sure the number hasn't been changed
    {
        assert_eq!(0, *num.lock().unwrap());
    }

    // Move the job's due time well into the past, so it is ready.
    job.set_next_run(Some(Local::now().timestamp_millis() - 10_000));
    assert!(job.ready());

    let mut sched = Scheduler::new();
    sched.add_job(job);

    // Run the pending jobs
    let num_run = sched.run_pending();
    assert_eq!(num_run, 1);

    // Make sure the job actually changed our number
    assert_eq!(*num.lock().unwrap(), 42);
}
