//! A small periodic-task scheduler.
//!
//! A [`Job`] pairs a fixed interval (or a one-shot delay) with a callback;
//! a [`Scheduler`] owns a set of jobs, polls them for readiness and runs
//! the ones that are due.

mod callback;
mod job;
mod scheduler;
mod time;

pub use callback::Callback;
pub use job::Job;
pub use job::lemma_next_run_offset;
pub use job::lemma_ready_threshold;
pub use job::lemma_terminal_never_ready;
pub use scheduler::Scheduler;
pub use scheduler::count_ready;
pub use scheduler::executed_from;
pub use scheduler::lemma_earliest_unique;
pub use scheduler::lemma_executed_job_not_ready;
pub use scheduler::lemma_run_counts_monotone;
pub use scheduler::lemma_single_ready_pass;
pub use scheduler::run_pass;
pub use time::TimeSpan;
pub use time::advance;
pub use time::span_millis;
pub use time::unit_millis;
pub use time::until;
