use async_job::CronSchedule;
use async_job::Job;
use async_job::Runner;

struct SomeJob;

impl Job for SomeJob {
    fn schedule(&self) -> Option<CronSchedule> {
        Some(CronSchedule::parse("0 * * * * *").unwrap())
    }
}

struct AnotherJob;

impl Job for AnotherJob {
    fn schedule(&self) -> Option<CronSchedule> {
        Some(CronSchedule::parse("0 * * * * *").unwrap())
    }
}

struct ScheduleLessJob;

impl Job for ScheduleLessJob {
    fn schedule(&self) -> Option<CronSchedule> {
        None
    }
}

#[test]
fn test_adding_jobs_to_runner() {
    let runner: Runner<Box<dyn Job>> = Runner::new()
        .add(Box::new(SomeJob) as Box<dyn Job>)
        .add(Box::new(AnotherJob) as Box<dyn Job>);

    assert_eq!(runner.jobs_to_run(), 2);
}

#[test]
fn test_jobs_are_empty_after_runner_starts() {
    let runner: Runner<Box<dyn Job>> = Runner::new()
        .add(Box::new(SomeJob) as Box<dyn Job>)
        .add(Box::new(AnotherJob) as Box<dyn Job>);

    let (runner, handed) = runner.run();

    assert_eq!(runner.jobs_to_run(), 0);
    assert!(runner.is_running());
    assert_eq!(handed.map(|jobs| jobs.len()), Some(2));
}

#[test]
fn test_stopping_the_runner() {
    let runner: Runner<Box<dyn Job>> = Runner::new()
        .add(Box::new(SomeJob) as Box<dyn Job>)
        .add(Box::new(AnotherJob) as Box<dyn Job>);

    let (mut runner, _handed) = runner.run();

    assert!(runner.stop());
    assert!(!runner.is_running());
}

#[test]
fn run_with_no_jobs_is_a_noop() {
    let runner: Runner<Box<dyn Job>> = Runner::new();

    let (runner, handed) = runner.run();

    assert!(!runner.is_running());
    assert_eq!(runner.jobs_to_run(), 0);
    assert!(handed.is_none());
}

#[test]
fn add_after_run_changes_nothing() {
    let runner: Runner<Box<dyn Job>> = Runner::new().add(Box::new(SomeJob) as Box<dyn Job>);
    let (runner, _handed) = runner.run();

    let runner = runner.add(Box::new(AnotherJob) as Box<dyn Job>);

    assert_eq!(runner.jobs_to_run(), 0);
    assert!(runner.is_running());
}

#[test]
fn stop_twice_is_a_noop_the_second_time() {
    let runner: Runner<Box<dyn Job>> = Runner::new().add(Box::new(SomeJob) as Box<dyn Job>);
    let (mut runner, _handed) = runner.run();

    assert!(runner.stop());
    assert!(!runner.stop());
    assert!(!runner.is_running());
}

#[test]
fn stop_while_not_running_is_a_noop() {
    let mut runner: Runner<Box<dyn Job>> = Runner::new();
    assert!(!runner.stop());
    assert!(!runner.is_running());
}

#[test]
fn fresh_runner_is_idle() {
    let runner: Runner<Box<dyn Job>> = Runner::default();
    assert_eq!(runner.jobs_to_run(), 0);
    assert!(!runner.is_running());
    assert!(!runner.is_working());
}

#[test]
fn job_defaults_are_active_and_serial() {
    let job = SomeJob;
    assert!(job.is_active());
    assert!(!job.allow_parallel_runs());
}

#[test]
fn job_without_schedule_is_never_due() {
    let job = ScheduleLessJob;
    assert!(!job.should_run());
}

#[test]
fn job_now_reads_the_clock() {
    let job = SomeJob;
    // Milliseconds since the Unix epoch: positive on any current clock.
    assert!(job.now() > 0);
}
