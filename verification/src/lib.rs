//! An in-process cron job scheduler.
//!
//! Callers implement the [`Job`] trait for each unit of recurring work,
//! collect the jobs in a [`Runner`], and start the runner. A background
//! poll loop evaluates every job once per cycle, in registration order: a
//! job runs when its next scheduled fire time is imminent, and a
//! [`Tracker`] keeps a job from overlapping itself unless it explicitly
//! allows parallel runs.
//!
//! The scheduler's decisions live here, with contracts: the tracker's
//! membership semantics, the runner's lifecycle state machine, the
//! readiness rule of [`readiness`], and the per-cycle eligibility rule of
//! [`eligible`]. The asynchronous plumbing around them — spawning the
//! loop, sleeping between cycles, awaiting handlers, cancelling the loop's
//! task on stop — awaits, which verified code does not, so it stays with
//! the embedding application: `run` hands the job list out for the
//! embedder's loop to drive, and `stop` reports whether that loop must now
//! be signalled and cancelled.

mod job;
mod runner;
mod schedule;
mod tracker;

pub use job::eligible;
pub use job::eligible_spec;
pub use job::finish_job;
pub use job::fire_imminent;
pub use job::fire_is_imminent;
pub use job::lemma_blocked_until_unmarked;
pub use job::lemma_overlap_blocked;
pub use job::lemma_parallel_runs_never_blocked;
pub use job::lemma_slots_independent;
pub use job::readiness;
pub use job::ready_spec;
pub use job::schedule_expr;
pub use job::Job;
pub use job::READY_WINDOW_MS;
pub use runner::Runner;
pub use runner::RunnerModel;
pub use runner::lemma_add_after_start_is_noop;
pub use runner::lemma_adds_are_counted;
pub use runner::lemma_start_without_jobs_is_noop;
pub use runner::lemma_started_runner_has_no_jobs;
pub use runner::lemma_stop_twice_is_stop_once;
pub use runner::POLL_INTERVAL_MS;
pub use schedule::expression_accepted;
pub use schedule::INSTANT_LIMIT_MS;
pub use schedule::next_fire_after;
pub use schedule::now_ms;
pub use schedule::CronSchedule;
pub use schedule::ScheduleParseError;
pub use tracker::Tracker;
