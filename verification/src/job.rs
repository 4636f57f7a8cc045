use crate::schedule::next_fire_after;
use crate::schedule::now_ms;
use crate::schedule::CronSchedule;
use crate::schedule::INSTANT_LIMIT_MS;
use crate::tracker::Tracker;
use vstd::prelude::*;

verus! {

/// How close, in milliseconds, a job's next fire time must be for the job
/// to count as due. Matched to [`crate::POLL_INTERVAL_MS`] so that a fire
/// time landing between two polls is caught by the next poll before it
/// passes.
pub const READY_WINDOW_MS: i64 = 100;

/// Whether a fire time is imminent: within the ready window of the instant
/// `now` (or already past).
pub open spec fn fire_imminent(next: Option<int>, now: int) -> bool {
    next matches Some(t) && t - now <= READY_WINDOW_MS
}

/// The readiness rule: a job is due when it is active, has a schedule, and
/// the schedule's next fire time after `now` is imminent.
pub open spec fn ready_spec(active: bool, expr: Option<Seq<char>>, now: int) -> bool {
    &&& active
    &&& expr matches Some(e)
    &&& fire_imminent(next_fire_after(e, now), now)
}

/// The expression a job's schedule was parsed from, if the job has one.
pub open spec fn schedule_expr(schedule: Option<&CronSchedule>) -> Option<Seq<char>> {
    match schedule {
        Some(s) => Some(s@),
        None => None,
    }
}

/// Whether `fire_ms` lies within the ready window of `now`: the comparison
/// behind the readiness rule, exact for every pair of instants.
pub fn fire_is_imminent(fire_ms: i64, now: i64) -> (r: bool)
    ensures
        r == (fire_ms - now <= READY_WINDOW_MS),
{
    (fire_ms as i128) - (now as i128) <= READY_WINDOW_MS as i128
}

/// The readiness algorithm: due exactly when active, scheduled, and the
/// next fire time after `now` is within the ready window — false for an
/// inactive or scheduleless job and for a fire time farther away. Admitted
/// for every instant except the last second of chrono's calendar, which
/// [`crate::INSTANT_LIMIT_MS`] fences off.
pub fn readiness(active: bool, schedule: Option<&CronSchedule>, now: i64) -> (r: bool)
    requires
        now < INSTANT_LIMIT_MS,
    ensures
        r == ready_spec(active, schedule_expr(schedule), now as int),
{
    if !active {
        return false;
    }
    match schedule {
        Some(s) => match s.next_fire(now) {
            Some(t) => fire_is_imminent(t, now),
            None => false,
        },
        None => false,
    }
}

/// A recurring unit of work, implemented by the embedding application.
///
/// The runner consults these operations every poll cycle. The job's
/// asynchronous handler body stays with the embedder: handlers await, which
/// the verified library does not, so the poll loop that invokes them is the
/// embedder's (see the crate documentation).
pub trait Job: Send + Sync {
    /// Gate: an inactive job never runs. Jobs are active by default.
    fn is_active(&self) -> bool {
        true
    }

    /// Whether the job may run in parallel with itself. By default it may
    /// not: while one invocation's handler has not returned, the job is not
    /// started again.
    fn allow_parallel_runs(&self) -> bool {
        false
    }

    /// The job's recurrence rule; a job without one never fires.
    fn schedule(&self) -> Option<CronSchedule>;

    /// Whether the job is due right now: the readiness rule of
    /// [`readiness`], applied at the present instant. A forward-looking
    /// check — it holds slightly before the nominal tick, within
    /// [`READY_WINDOW_MS`]. A clock reading at the very edge of chrono's
    /// calendar counts as not due.
    fn should_run(&self) -> bool {
        let now = now_ms();
        if now >= INSTANT_LIMIT_MS {
            return false;
        }
        let schedule = self.schedule();
        readiness(self.is_active(), schedule.as_ref(), now)
    }

    /// The current time in milliseconds since the Unix epoch, for handlers
    /// that wish to report when they ran.
    fn now(&self) -> i64 {
        now_ms()
    }
}

/// Whether a due job may actually start this cycle: it must allow parallel
/// runs or not be marked running already.
pub open spec fn eligible_spec(due: bool, allow_parallel: bool, marked: Set<usize>, id: usize) -> bool {
    due && (allow_parallel || !marked.contains(id))
}

/// The per-cycle eligibility decision of the poll loop, for the job in slot
/// `id`: exactly [`eligible_spec`] over the tracker's marked slots.
pub fn eligible(due: bool, allow_parallel: bool, tracker: &Tracker, id: &usize) -> (r: bool)
    ensures
        r == eligible_spec(due, allow_parallel, tracker@, *id),
{
    due && (allow_parallel || !tracker.running(id))
}

/// After a handler returns, unmark its slot and report the value the shared
/// working flag must take: true exactly while some slot is still marked
/// running.
pub fn finish_job(tracker: &mut Tracker, id: &usize) -> (still_working: bool)
    ensures
        final(tracker)@ == old(tracker)@.remove(*id),
        final(tracker)@.finite(),
        still_working == (final(tracker)@.len() != 0),
{
    tracker.stop(id) != 0
}

/// Law: a job that does not allow parallel runs is never eligible while its
/// slot is still marked running — the loop cannot re-enter it.
pub proof fn lemma_overlap_blocked(due: bool, marked: Set<usize>, id: usize)
    requires
        marked.contains(id),
    ensures
        !eligible_spec(due, false, marked, id),
{
}

/// Law: a job that allows parallel runs is eligible whenever it is due,
/// marked running or not.
pub proof fn lemma_parallel_runs_never_blocked(marked: Set<usize>, id: usize)
    ensures
        eligible_spec(true, true, marked, id),
{
}

/// Law: a marked slot that does not allow parallel runs stays ineligible
/// through any other slot's marking and unmarking — only unmarking the slot
/// itself can make it eligible again. This is the cycle-by-cycle shape of
/// the no-overlap guarantee: the loop marks a slot before awaiting its
/// handler and unmarks it after, so between the two every eligibility check
/// of that slot says no, whatever the loop does to other slots meanwhile.
pub proof fn lemma_blocked_until_unmarked(due: bool, marked: Set<usize>, id: usize, other: usize)
    requires
        marked.contains(id),
        other != id,
    ensures
        !eligible_spec(due, false, marked, id),
        !eligible_spec(due, false, marked.insert(other), id),
        !eligible_spec(due, false, marked.remove(other), id),
{
}

/// Law: slots are tracked independently — marking or unmarking one slot
/// never changes whether another slot is marked.
pub proof fn lemma_slots_independent(marked: Set<usize>, id: usize, other: usize)
    requires
        id != other,
    ensures
        marked.insert(id).contains(other) == marked.contains(other),
        marked.remove(id).contains(other) == marked.contains(other),
{
}

} // verus!
