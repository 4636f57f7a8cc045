use core::sync::atomic::AtomicBool;
use core::sync::atomic::Ordering;
use std::sync::Arc;
use vstd::prelude::*;

verus! {

/// How long the background loop sleeps between two passes over the job
/// list, in milliseconds. Matched to [`crate::READY_WINDOW_MS`] so that a
/// fire time landing between two polls is still caught by the next one.
pub const POLL_INTERVAL_MS: u64 = 100;

/// The runner's observable state: the pending job list and whether the
/// background loop has been started.
#[verifier::ext_equal]
pub struct RunnerModel<J> {
    pub jobs: Seq<J>,
    pub running: bool,
}

impl<J> RunnerModel<J> {
    /// State after `add`: a job is appended while the runner is unstarted
    /// and ignored once it is running.
    pub open spec fn added(self, job: J) -> Self {
        if self.running {
            self
        } else {
            RunnerModel { jobs: self.jobs.push(job), ..self }
        }
    }

    /// State after `run`: unchanged when no job is pending, otherwise
    /// running with the whole job list handed over to the loop.
    pub open spec fn started(self) -> Self {
        if self.jobs.len() == 0 {
            self
        } else {
            RunnerModel { jobs: Seq::empty(), running: true }
        }
    }

    /// State after `stop`: no longer running; the job list is untouched.
    pub open spec fn stopped(self) -> Self {
        RunnerModel { running: false, ..self }
    }

    /// State after a sequence of `add` calls, in order.
    pub open spec fn added_all(self, jobs: Seq<J>) -> Self
        decreases jobs.len(),
    {
        if jobs.len() == 0 {
            self
        } else {
            self.added(jobs[0]).added_all(jobs.drop_first())
        }
    }
}

/// Owns the job list before start; after start it keeps only control state.
///
/// `run` does not itself spawn the background loop — spawning, sleeping and
/// awaiting handlers are asynchronous and belong to the embedding
/// application. Instead it hands the job list out, and the embedder drives
/// the poll loop over it (see the crate documentation), sharing the
/// `working` flag so that [`Runner::is_working`] reflects whether some
/// handler is executing at the moment.
pub struct Runner<J> {
    /// The jobs added so far; emptied when the runner starts.
    pub jobs: Vec<J>,
    /// Whether the background loop has been started and not yet stopped.
    pub running: bool,
    /// Shared flag, true while at least one job handler is executing. The
    /// poll loop writes it; anyone may read it. It is advisory status: no
    /// ordering is guaranteed beyond atomicity.
    pub working: Arc<AtomicBool>,
}

impl<J> View for Runner<J> {
    type V = RunnerModel<J>;

    open spec fn view(&self) -> RunnerModel<J> {
        RunnerModel { jobs: self.jobs@, running: self.running }
    }
}

impl<J> Runner<J> {
    /// A new runner: no jobs, not running, nothing working.
    pub fn new() -> (r: Self)
        ensures
            r@ == (RunnerModel::<J> { jobs: Seq::empty(), running: false }),
    {
        let r = Runner { jobs: Vec::new(), running: false, working: Arc::new(AtomicBool::new(false)) };
        proof {
            assert(r@ =~= RunnerModel::<J> { jobs: Seq::empty(), running: false });
        }
        r
    }

    /// Append a job to the pending list. Does nothing once the runner is
    /// running: the loop owns the job list by then.
    pub fn add(self, job: J) -> (r: Self)
        ensures
            r@ == self@.added(job),
    {
        let mut this = self;
        if !this.running {
            this.jobs.push(job);
        }
        proof {
            assert(this@ =~= self@.added(job));
        }
        this
    }

    /// How many jobs wait to be handed to the loop; 0 once the runner has
    /// started.
    pub fn jobs_to_run(&self) -> (n: usize)
        ensures
            n == self@.jobs.len(),
    {
        self.jobs.len()
    }

    /// Start the runner. With no pending job this is a no-op and the second
    /// component is `None`. Otherwise the runner transitions to running with
    /// an empty job list and a freshly cleared `working` flag, and the
    /// second component carries the whole job list, in insertion order, for
    /// the embedding application to drive the poll loop over.
    pub fn run(self) -> (r: (Self, Option<Vec<J>>))
        ensures
            r.0@ == self@.started(),
            self@.jobs.len() == 0 ==> r.1 is None,
            self@.jobs.len() > 0 ==> (r.1 matches Some(handed) && handed@ == self@.jobs),
    {
        if self.jobs.is_empty() {
            (self, None)
        } else {
            let runner = Runner {
                jobs: Vec::new(),
                running: true,
                working: Arc::new(AtomicBool::new(false)),
            };
            proof {
                assert(runner@ =~= self@.started());
            }
            (runner, Some(self.jobs))
        }
    }

    /// Stop the runner; a runner that is not running is left as it is.
    /// Returns whether it had been running, in which case the embedding
    /// application must also signal and cancel the loop task it spawned.
    pub fn stop(&mut self) -> (was_running: bool)
        ensures
            final(self)@ == old(self)@.stopped(),
            was_running == old(self)@.running,
    {
        let was_running = self.running;
        self.running = false;
        proof {
            assert(self@ =~= old(self)@.stopped());
        }
        was_running
    }

    /// Whether the background loop has been started and not yet stopped.
    pub fn is_running(&self) -> (r: bool)
        ensures
            r == self@.running,
    {
        self.running
    }

    /// Whether some job handler is executing right now. The flag is written
    /// by the poll loop concurrently, so nothing can be promised of the
    /// value read.
    pub fn is_working(&self) -> bool {
        self.working.load(Ordering::Relaxed)
    }
}

impl<J> Default for Runner<J> {
    /// Same as [`Runner::new`].
    fn default() -> (r: Self)
        ensures
            r@ == (RunnerModel::<J> { jobs: Seq::empty(), running: false }),
    {
        Runner::new()
    }
}

/// Law: the pending count tallies the `add` calls — after any sequence of
/// adds to an unstarted runner, `jobs_to_run` has grown by exactly their
/// number, and the runner is still unstarted.
pub proof fn lemma_adds_are_counted<J>(m: RunnerModel<J>, jobs: Seq<J>)
    requires
        !m.running,
    ensures
        m.added_all(jobs).jobs.len() == m.jobs.len() + jobs.len(),
        !m.added_all(jobs).running,
    decreases jobs.len(),
{
    if jobs.len() > 0 {
        lemma_adds_are_counted(m.added(jobs[0]), jobs.drop_first());
    }
}

/// Law: once a runner with pending jobs starts, no pending job remains
/// observable on it.
pub proof fn lemma_started_runner_has_no_jobs<J>(m: RunnerModel<J>)
    requires
        m.jobs.len() > 0,
    ensures
        m.started().jobs.len() == 0,
        m.started().running,
{
}

/// Law: starting an unstarted runner with an empty job list changes
/// nothing: it stays unstarted and still reports that it is not running.
pub proof fn lemma_start_without_jobs_is_noop<J>(m: RunnerModel<J>)
    requires
        m.jobs.len() == 0,
        !m.running,
    ensures
        m.started() == m,
        !m.started().running,
{
}

/// Law: `add` after the runner has started never changes the observable job
/// list.
pub proof fn lemma_add_after_start_is_noop<J>(m: RunnerModel<J>, job: J)
    requires
        m.running,
    ensures
        m.added(job) == m,
{
}

/// Law: stopping twice is the same as stopping once; the second `stop` is a
/// no-op.
pub proof fn lemma_stop_twice_is_stop_once<J>(m: RunnerModel<J>)
    ensures
        m.stopped().stopped() == m.stopped(),
{
}

} // verus!
