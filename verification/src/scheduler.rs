//! The bookkeeping of the background jobs, one for each patch.
//!
//! A job is bound to a slot, the place that will receive its mesh. The
//! control loop polls every pending job once a tick and tells the scheduler
//! what it found. A job that is reported ready is filled and counted, once;
//! one that is reported failed is given up and never counted; a job that has
//! been settled either way takes no further notice of what is reported.

use vstd::prelude::*;
use crate::resource::LoadingProgress;
use crate::tiling::PatchSpec;

verus! {

/// Where a job stands.
#[derive(Clone, Copy, Debug, PartialEq, Eq, Structural)]
pub enum JobStatus {
    /// Dispatched, result not yet taken.
    Pending,
    /// The result was taken and the slot holds its mesh.
    Filled,
    /// The job could not produce a mesh; the slot stays empty.
    Failed,
}

/// What a non-blocking poll of a job found.
#[derive(Clone, Copy, Debug, PartialEq, Eq, Structural)]
pub enum PollOutcome {
    /// The computation is still running, or the job was not polled.
    NotReady,
    /// The computation has finished with a mesh.
    Ready,
    /// The computation has finished without one.
    Failed,
}

/// A job: the patch to generate and where the job stands.
#[derive(Clone, Copy, Debug)]
struct Job {
    spec: PatchSpec,
    status: JobStatus,
}

/// The status of a job after a poll found `outcome`: only a pending job
/// changes.
pub open spec fn step(status: JobStatus, outcome: PollOutcome) -> JobStatus {
    if status == JobStatus::Pending && outcome == PollOutcome::Ready {
        JobStatus::Filled
    } else if status == JobStatus::Pending && outcome == PollOutcome::Failed {
        JobStatus::Failed
    } else {
        status
    }
}

/// Whether a poll that found `outcome` fills the job's slot.
pub open spec fn completes(status: JobStatus, outcome: PollOutcome) -> bool {
    status == JobStatus::Pending && outcome == PollOutcome::Ready
}

/// The outcome reported for slot `i`; a slot with no report was not polled.
pub open spec fn outcome_at(outcomes: Seq<PollOutcome>, i: int) -> PollOutcome {
    if 0 <= i < outcomes.len() {
        outcomes[i]
    } else {
        PollOutcome::NotReady
    }
}

/// All jobs after one tick of polling.
pub open spec fn poll_all(jobs: Seq<JobStatus>, outcomes: Seq<PollOutcome>) -> Seq<JobStatus> {
    Seq::new(jobs.len(), |i: int| step(jobs[i], outcome_at(outcomes, i)))
}

/// The slots below `n` that one tick of polling fills, in rising order.
pub open spec fn completed_slots(
    jobs: Seq<JobStatus>,
    outcomes: Seq<PollOutcome>,
    n: int,
) -> Seq<usize>
    decreases n,
{
    if n <= 0 {
        Seq::empty()
    } else if completes(jobs[n - 1], outcome_at(outcomes, n - 1)) {
        completed_slots(jobs, outcomes, n - 1).push((n - 1) as usize)
    } else {
        completed_slots(jobs, outcomes, n - 1)
    }
}

/// Number of jobs below `n` with the given status.
pub open spec fn count_status(jobs: Seq<JobStatus>, status: JobStatus, n: int) -> int
    decreases n,
{
    if n <= 0 {
        0
    } else {
        count_status(jobs, status, n - 1) + if jobs[n - 1] == status {
            1int
        } else {
            0int
        }
    }
}

/// All jobs after the first `n` of the given ticks.
pub open spec fn run(
    jobs: Seq<JobStatus>,
    ticks: Seq<Seq<PollOutcome>>,
    n: int,
) -> Seq<JobStatus>
    decreases n,
{
    if n <= 0 {
        jobs
    } else {
        poll_all(run(jobs, ticks, n - 1), ticks[n - 1])
    }
}

/// Number of slots filled during the first `n` of the given ticks.
pub open spec fn completions_in_run(
    jobs: Seq<JobStatus>,
    ticks: Seq<Seq<PollOutcome>>,
    n: int,
) -> int
    decreases n,
{
    if n <= 0 {
        0
    } else {
        let before = run(jobs, ticks, n - 1);
        completions_in_run(jobs, ticks, n - 1) + completed_slots(
            before,
            ticks[n - 1],
            before.len() as int,
        ).len()
    }
}

/// Whether one of the first `n` ticks reports the job of `slot` ready.
pub open spec fn reported_ready(ticks: Seq<Seq<PollOutcome>>, n: int, slot: int) -> bool {
    exists|t: int| 0 <= t < n && #[trigger] outcome_at(ticks[t], slot) == PollOutcome::Ready
}

/// Whether one of the first `n` ticks reports the job of `slot` failed.
pub open spec fn reported_failed(ticks: Seq<Seq<PollOutcome>>, n: int, slot: int) -> bool {
    exists|t: int| 0 <= t < n && #[trigger] outcome_at(ticks[t], slot) == PollOutcome::Failed
}

/// The jobs of one loading run, slot by slot.
#[derive(Debug)]
pub struct Scheduler {
    jobs: Vec<Job>,
}

impl Scheduler {
    /// Where each job stands, by slot.
    pub closed spec fn statuses(&self) -> Seq<JobStatus> {
        Seq::new(self.jobs@.len(), |i: int| self.jobs@[i].status)
    }

    /// The patch of each job, by slot.
    pub closed spec fn specs(&self) -> Seq<PatchSpec> {
        Seq::new(self.jobs@.len(), |i: int| self.jobs@[i].spec)
    }

    /// Every slot has a patch and a status.
    pub proof fn lemma_one_job_per_slot(&self)
        ensures
            self.statuses().len() == self.specs().len(),
    {
    }

    /// Dispatches one job for each patch: slot `i` is bound to `specs[i]`,
    /// and every job is pending.
    pub fn dispatch_all(specs: &Vec<PatchSpec>) -> (scheduler: Scheduler)
        ensures
            scheduler.specs() == specs@,
            scheduler.statuses() == Seq::new(specs@.len(), |i: int| JobStatus::Pending),
    {
        let mut jobs: Vec<Job> = Vec::new();
        let mut i: usize = 0;
        while i < specs.len()
            invariant
                i <= specs@.len(),
                jobs@.len() == i,
                forall|k: int|
                    0 <= k < i ==> #[trigger] jobs@[k] == (Job {
                        spec: specs@[k],
                        status: JobStatus::Pending,
                    }),
            decreases specs@.len() - i,
        {
            jobs.push(Job { spec: specs[i], status: JobStatus::Pending });
            i = i + 1;
        }
        let scheduler = Scheduler { jobs };
        assert(scheduler.specs() =~= specs@);
        assert(scheduler.statuses() =~= Seq::new(specs@.len(), |i: int| JobStatus::Pending));
        scheduler
    }

    /// Number of slots.
    pub fn len(&self) -> (n: usize)
        ensures
            n == self.statuses().len(),
            n == self.specs().len(),
    {
        self.jobs.len()
    }

    /// Where the job of a slot stands.
    pub fn status(&self, slot: usize) -> (status: JobStatus)
        requires
            slot < self.statuses().len(),
        ensures
            status == self.statuses()[slot as int],
    {
        self.jobs[slot].status
    }

    /// The patch that the job of a slot generates.
    pub fn spec(&self, slot: usize) -> (spec: PatchSpec)
        requires
            slot < self.specs().len(),
        ensures
            spec == self.specs()[slot as int],
    {
        self.jobs[slot].spec
    }

    /// Number of jobs with the given status.
    pub fn count(&self, status: JobStatus) -> (n: usize)
        ensures
            n == count_status(self.statuses(), status, self.statuses().len() as int),
    {
        let mut n: usize = 0;
        let mut i: usize = 0;
        while i < self.jobs.len()
            invariant
                i <= self.jobs@.len(),
                n <= i,
                n == count_status(self.statuses(), status, i as int),
            decreases self.jobs@.len() - i,
        {
            if self.jobs[i].status == status {
                n = n + 1;
            }
            i = i + 1;
        }
        n
    }

    /// The slots whose jobs are still to be polled, in rising order.
    pub fn pending(&self) -> (slots: Vec<usize>)
        ensures
            slots@.len() == count_status(
                self.statuses(),
                JobStatus::Pending,
                self.statuses().len() as int,
            ),
            forall|k: int|
                0 <= k < slots@.len() ==> (#[trigger] slots@[k]) < self.statuses().len()
                    && self.statuses()[slots@[k] as int] == JobStatus::Pending,
            forall|j: int, k: int| 0 <= j < k < slots@.len() ==> slots@[j] < slots@[k],
            forall|i: int|
                0 <= i < self.statuses().len() && self.statuses()[i] == JobStatus::Pending
                    ==> slots@.contains(i as usize),
    {
        let mut slots: Vec<usize> = Vec::new();
        let mut i: usize = 0;
        while i < self.jobs.len()
            invariant
                i <= self.jobs@.len(),
                slots@.len() == count_status(self.statuses(), JobStatus::Pending, i as int),
                forall|k: int|
                    0 <= k < slots@.len() ==> (#[trigger] slots@[k]) < i
                        && self.statuses()[slots@[k] as int] == JobStatus::Pending,
                forall|j: int, k: int| 0 <= j < k < slots@.len() ==> slots@[j] < slots@[k],
                forall|s: int|
                    0 <= s < i && self.statuses()[s] == JobStatus::Pending ==> slots@.contains(
                        s as usize,
                    ),
            decreases self.jobs@.len() - i,
        {
            if self.jobs[i].status == JobStatus::Pending {
                let ghost before = slots@;
                slots.push(i);
                proof {
                    assert(slots@[before.len() as int] == i);
                    assert forall|s: int|
                        0 <= s < i + 1 && self.statuses()[s]
                            == JobStatus::Pending implies slots@.contains(s as usize) by {
                        if s < i {
                            let k = choose|k: int| 0 <= k < before.len() && before[k] == s as usize;
                            assert(slots@[k] == s as usize);
                        }
                    }
                }
            }
            i = i + 1;
        }
        slots
    }

    /// Whether no job is left to poll.
    pub fn is_quiescent(&self) -> (r: bool)
        ensures
            r == (count_status(
                self.statuses(),
                JobStatus::Pending,
                self.statuses().len() as int,
            ) == 0),
    {
        self.count(JobStatus::Pending) == 0
    }

    /// Takes notice of what a poll of one job found. A pending job that is
    /// ready is filled and the mesh counter goes up by one; the result says
    /// whether that happened, that is, whether the caller must now put the
    /// job's mesh into its slot. A pending job that failed is given up. On a
    /// job that is settled already the call changes nothing.
    pub fn poll_job(
        &mut self,
        slot: usize,
        outcome: PollOutcome,
        progress: &mut LoadingProgress,
    ) -> (applied: bool)
        requires
            slot < old(self).statuses().len(),
            old(progress).mesh < usize::MAX,
        ensures
            final(self).specs() == old(self).specs(),
            final(self).statuses() == old(self).statuses().update(
                slot as int,
                step(old(self).statuses()[slot as int], outcome),
            ),
            applied == completes(old(self).statuses()[slot as int], outcome),
            final(progress).mesh == old(progress).mesh + if applied {
                1int
            } else {
                0int
            },
            final(progress).texture == old(progress).texture,
    {
        let job = self.jobs[slot];
        let mut applied = false;
        match job.status {
            JobStatus::Pending => match outcome {
                PollOutcome::Ready => {
                    self.jobs.set(slot, Job { spec: job.spec, status: JobStatus::Filled });
                    progress.mesh = progress.mesh + 1;
                    applied = true;
                },
                PollOutcome::Failed => {
                    self.jobs.set(slot, Job { spec: job.spec, status: JobStatus::Failed });
                },
                PollOutcome::NotReady => {},
            },
            _ => {},
        }
        assert(self.specs() =~= old(self).specs());
        assert(self.statuses() =~= old(self).statuses().update(
            slot as int,
            step(old(self).statuses()[slot as int], outcome),
        ));
        applied
    }

    /// One tick of polling: takes notice of what the polls of all jobs
    /// found, `outcomes[i]` for slot `i`, and returns the slots that the
    /// caller must now fill, in rising order. The mesh counter goes up by
    /// their number.
    pub fn poll_once(
        &mut self,
        outcomes: &Vec<PollOutcome>,
        progress: &mut LoadingProgress,
    ) -> (applied: Vec<usize>)
        requires
            old(progress).mesh + old(self).statuses().len() <= usize::MAX,
        ensures
            final(self).specs() == old(self).specs(),
            final(self).statuses() == poll_all(old(self).statuses(), outcomes@),
            applied@ == completed_slots(
                old(self).statuses(),
                outcomes@,
                old(self).statuses().len() as int,
            ),
            final(progress).mesh == old(progress).mesh + applied@.len(),
            final(progress).texture == old(progress).texture,
    {
        let ghost before = self.statuses();
        let mut applied: Vec<usize> = Vec::new();
        let n = self.jobs.len();
        let mut i: usize = 0;
        while i < n
            invariant
                n == before.len(),
                i <= n,
                self.specs() == old(self).specs(),
                self.statuses().len() == n,
                forall|k: int|
                    0 <= k < i ==> #[trigger] self.statuses()[k] == step(
                        before[k],
                        outcome_at(outcomes@, k),
                    ),
                forall|k: int| i <= k < n ==> #[trigger] self.statuses()[k] == before[k],
                applied@ == completed_slots(before, outcomes@, i as int),
                applied@.len() <= i,
                progress.mesh == old(progress).mesh + applied@.len(),
                progress.texture == old(progress).texture,
                old(progress).mesh + n <= usize::MAX,
            decreases n - i,
        {
            let outcome = if i < outcomes.len() {
                outcomes[i]
            } else {
                PollOutcome::NotReady
            };
            if self.poll_job(i, outcome, progress) {
                applied.push(i);
            }
            i = i + 1;
        }
        assert(self.statuses() =~= poll_all(before, outcomes@));
        applied
    }
}

/// A settled job takes no notice of a poll: whatever is reported of a job
/// that is filled or failed, the job stays as it is and nothing is counted.
pub proof fn lemma_settled_job_ignores_polls(status: JobStatus, outcome: PollOutcome)
    requires
        status != JobStatus::Pending,
    ensures
        step(status, outcome) == status,
        !completes(status, outcome),
{
}

/// Polling is idempotent: a second tick that finds what the first one found
/// changes no job and fills no slot.
pub proof fn lemma_poll_is_idempotent(jobs: Seq<JobStatus>, outcomes: Seq<PollOutcome>)
    ensures
        poll_all(poll_all(jobs, outcomes), outcomes) == poll_all(jobs, outcomes),
        completed_slots(poll_all(jobs, outcomes), outcomes, jobs.len() as int) == Seq::<
            usize,
        >::empty(),
{
    let once = poll_all(jobs, outcomes);
    assert(poll_all(once, outcomes) =~= once);
    lemma_nothing_completes(once, outcomes, jobs.len() as int);
}

/// Where no job below `n` is both pending and reported ready, a tick fills
/// no slot below `n`.
proof fn lemma_nothing_completes(jobs: Seq<JobStatus>, outcomes: Seq<PollOutcome>, n: int)
    requires
        0 <= n <= jobs.len(),
        forall|i: int| 0 <= i < n ==> !completes(#[trigger] jobs[i], outcome_at(outcomes, i)),
    ensures
        completed_slots(jobs, outcomes, n) == Seq::<usize>::empty(),
    decreases n,
{
    if n > 0 {
        lemma_nothing_completes(jobs, outcomes, n - 1);
    }
}

/// One tick fills exactly as many slots as it reports: among the jobs below
/// `n`, the number of filled ones grows by the number of completed slots,
/// the number of pending ones shrinks by the jobs that were settled, and
/// no job is lost.
pub proof fn lemma_tick_accounts(jobs: Seq<JobStatus>, outcomes: Seq<PollOutcome>, n: int)
    requires
        0 <= n <= jobs.len(),
    ensures
        completed_slots(jobs, outcomes, n).len() <= n,
        count_status(poll_all(jobs, outcomes), JobStatus::Filled, n) == count_status(
            jobs,
            JobStatus::Filled,
            n,
        ) + completed_slots(jobs, outcomes, n).len(),
        count_status(poll_all(jobs, outcomes), JobStatus::Pending, n) <= count_status(
            jobs,
            JobStatus::Pending,
            n,
        ),
        count_status(jobs, JobStatus::Pending, n) + count_status(jobs, JobStatus::Filled, n)
            + count_status(jobs, JobStatus::Failed, n) == n,
    decreases n,
{
    if n > 0 {
        lemma_tick_accounts(jobs, outcomes, n - 1);
    }
}

/// Over any run of ticks the mesh counter stays true: the number of filled
/// jobs is the number there was at the start plus the slots filled during
/// the run. No job is counted twice, and a failed job is never counted.
pub proof fn lemma_run_accounts(jobs: Seq<JobStatus>, ticks: Seq<Seq<PollOutcome>>, n: int)
    requires
        0 <= n,
    ensures
        run(jobs, ticks, n).len() == jobs.len(),
        count_status(run(jobs, ticks, n), JobStatus::Filled, jobs.len() as int) == count_status(
            jobs,
            JobStatus::Filled,
            jobs.len() as int,
        ) + completions_in_run(jobs, ticks, n),
    decreases n,
{
    if n > 0 {
        lemma_run_accounts(jobs, ticks, n - 1);
        lemma_tick_accounts(run(jobs, ticks, n - 1), ticks[n - 1], jobs.len() as int);
    }
}

/// What a run makes of one job that starts pending and is never reported
/// failed: it is filled as soon as a tick reports it ready.
proof fn lemma_run_of_one_job(
    jobs: Seq<JobStatus>,
    ticks: Seq<Seq<PollOutcome>>,
    n: int,
    slot: int,
)
    requires
        0 <= n,
        0 <= slot < jobs.len(),
        jobs[slot] == JobStatus::Pending,
        !reported_failed(ticks, n, slot),
    ensures
        run(jobs, ticks, n).len() == jobs.len(),
        run(jobs, ticks, n)[slot] == JobStatus::Filled <==> reported_ready(ticks, n, slot),
        run(jobs, ticks, n)[slot] != JobStatus::Failed,
    decreases n,
{
    if n > 0 {
        assert(!reported_failed(ticks, n - 1, slot)) by {
            if reported_failed(ticks, n - 1, slot) {
                let t = choose|t: int|
                    0 <= t < n - 1 && #[trigger] outcome_at(ticks[t], slot)
                        == PollOutcome::Failed;
                assert(0 <= t < n && outcome_at(ticks[t], slot) == PollOutcome::Failed);
            }
        }
        lemma_run_of_one_job(jobs, ticks, n - 1, slot);
        let before = run(jobs, ticks, n - 1);
        let found = outcome_at(ticks[n - 1], slot);
        assert(run(jobs, ticks, n)[slot] == step(before[slot], found));
        assert(found != PollOutcome::Failed);
        if reported_ready(ticks, n - 1, slot) {
            let t = choose|t: int|
                0 <= t < n - 1 && #[trigger] outcome_at(ticks[t], slot) == PollOutcome::Ready;
            assert(0 <= t < n && outcome_at(ticks[t], slot) == PollOutcome::Ready);
        }
        if reported_ready(ticks, n, slot) && !reported_ready(ticks, n - 1, slot) {
            let t = choose|t: int|
                0 <= t < n && #[trigger] outcome_at(ticks[t], slot) == PollOutcome::Ready;
            assert(t == n - 1);
        }
    }
}

/// Among jobs that are all in one status, that status counts them all and
/// any other status counts none.
proof fn lemma_count_of_uniform(jobs: Seq<JobStatus>, status: JobStatus, other: JobStatus, n: int)
    requires
        0 <= n <= jobs.len(),
        forall|i: int| 0 <= i < n ==> #[trigger] jobs[i] == status,
        other != status,
    ensures
        count_status(jobs, status, n) == n,
        count_status(jobs, other, n) == 0,
    decreases n,
{
    if n > 0 {
        lemma_count_of_uniform(jobs, status, other, n - 1);
    }
}

/// Every job completes, in whatever order the computations finish: if all
/// jobs start pending, none is ever reported failed, and each is reported
/// ready in at least one of the first `n` ticks, then after those ticks
/// every slot is filled, no job is pending, and the slots filled during the
/// run number exactly the jobs.
pub proof fn lemma_all_jobs_complete(jobs: Seq<JobStatus>, ticks: Seq<Seq<PollOutcome>>, n: int)
    requires
        0 <= n,
        forall|i: int| 0 <= i < jobs.len() ==> #[trigger] jobs[i] == JobStatus::Pending,
        forall|i: int| 0 <= i < jobs.len() ==> !#[trigger] reported_failed(ticks, n, i),
        forall|i: int| 0 <= i < jobs.len() ==> #[trigger] reported_ready(ticks, n, i),
    ensures
        run(jobs, ticks, n) == Seq::new(jobs.len(), |i: int| JobStatus::Filled),
        count_status(run(jobs, ticks, n), JobStatus::Pending, jobs.len() as int) == 0,
        completions_in_run(jobs, ticks, n) == jobs.len(),
{
    let end = run(jobs, ticks, n);
    let len = jobs.len() as int;
    lemma_run_accounts(jobs, ticks, n);
    assert forall|i: int| 0 <= i < len implies #[trigger] end[i] == JobStatus::Filled by {
        assert(reported_ready(ticks, n, i));
        assert(!reported_failed(ticks, n, i));
        lemma_run_of_one_job(jobs, ticks, n, i);
    }
    assert(end =~= Seq::new(jobs.len(), |i: int| JobStatus::Filled));
    lemma_count_of_uniform(end, JobStatus::Filled, JobStatus::Pending, len);
    lemma_count_of_uniform(jobs, JobStatus::Pending, JobStatus::Filled, len);
}

} // verus!
