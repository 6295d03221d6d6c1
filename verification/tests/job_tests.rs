use chrono::{Duration, Local};
use sched::{Job, TimeSpan};
use std::sync::{Arc, Mutex};

#[test]
fn job_constructor() {
    let got = Job::new();
    assert!(got.duration_millis() == 0);
    assert!(!got.has_label());
    assert!(got.is_periodic());
}

#[test]
fn job_ideal_use() {
    let job = Job::every(5, TimeSpan::Minutes)
        .do_(Box::new(|| println!("Hello World!")))
        .unwrap();
    assert!(job.is_periodic());

    let duration = Duration::minutes(5);
    assert_eq!(job.duration_millis(), duration.num_milliseconds());

    assert!(job.has_callback());
}

#[test]
fn job_check_if_periodic() {
    let job = Job::new();
    assert!(job.is_periodic());

    let once = Job::in_(1, TimeSpan::Second);
    assert!(!once.is_periodic());
}

#[test]
fn job_validate_invalid_job() {
    let job = Job::new();
    let err = match job.validate() {
        Err(e) => e,
        Ok(_) => panic!("expected an error"),
    };
    assert_eq!(err, "No duration entered".to_string());

    let job = Job::every(5, TimeSpan::Minutes);
    let err = match job.validate() {
        Err(e) => e,
        Ok(_) => panic!("expected an error"),
    };
    assert_eq!(err, "No function supplied".to_string());
}

#[test]
fn job_run_the_job() {
    // A shared number handed to the closure, the way a caller would share
    // state with a job.
    let num: Arc<Mutex<u32>> = Arc::new(Mutex::new(0));
    let num_2 = num.clone();

    let mut job = Job::every(5, TimeSpan::Minutes)
        .do_(Box::new(move || {
            let mut n = num_2.lock().unwrap();
            *n = 42;
        }))
        .unwrap();

    assert_eq!(job.times_run(), 0);

    job.execute().unwrap();

    assert_eq!(*num.lock().unwrap(), 42);

    assert_eq!(job.times_run(), 1);
}

#[test]
fn job_increment_with_and() {
    let job = Job::every(5, TimeSpan::Minutes).and(18, TimeSpan::Seconds);
    let duration = Duration::minutes(5) + Duration::seconds(18);
    assert_eq!(job.duration_millis(), duration.num_milliseconds());
}

#[test]
fn job_check_if_ready() {
    let mut job = Job::every(5, TimeSpan::Minutes).and(18, TimeSpan::Seconds);
    assert!(job.is_periodic());
    assert!(job.next_run().unwrap() > Local::now().timestamp_millis());
    assert!(!job.ready());

    // Now move the job's next run time into the "past".
    job.set_next_run(Some(Local::now().timestamp_millis()));
    assert!(job.ready());
}

#[test]
fn job_make_sure_once_off_only_executes_once() {
    let mut job = Job::in_(1, TimeSpan::Second)
        .do_(Box::new(|| {
            let _ = 1 + 1;
        }))
        .unwrap();
    job.execute().unwrap();
    assert!(!job.ready());
}
