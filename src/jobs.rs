use vstd::prelude::*;

verus! {

/// The number of attempts after which a job is given up.
pub const MAX_ATTEMPTS: u32 = 10;

/// The longest wait between two attempts, in seconds.
pub const MAX_BACKOFF: u64 = 3600;

#[derive(PartialEq, Eq, Structural, Clone, Copy, Debug)]
pub enum JobState {
    Pending,
    Running,
    Failed,
}

/// The scheduling record of a durable job.
#[derive(PartialEq, Eq, Structural, Clone, Copy, Debug)]
pub struct Schedule {
    pub state: JobState,
    pub attempts: u32,
    /// Seconds since the epoch before which the job is not run.
    pub next_run: u64,
}

/// How an attempt at a job ended.
#[derive(PartialEq, Eq, Structural, Clone, Copy, Debug)]
pub enum Outcome {
    Done,
    /// The remote end answered with this HTTP status.
    Status(u16),
    /// No connection could be made, or it timed out.
    ConnectError,
}

/// What the queue does with the job after an attempt.
#[derive(PartialEq, Eq, Structural, Clone, Copy, Debug)]
pub enum Step {
    /// The work is done: the row is deleted.
    Remove,
    /// The row is kept with this schedule.
    Keep(Schedule),
}

pub open spec fn retryable_status(s: u16) -> bool {
    s == 408 || s == 429 || (500 <= s && s <= 599)
}

/// `min(60 s * 2^attempts, 1 h)`.
pub open spec fn backoff(attempts: nat) -> nat
    decreases attempts,
{
    if attempts == 0 {
        60
    } else {
        let b = 2 * backoff((attempts - 1) as nat);
        if b > MAX_BACKOFF { MAX_BACKOFF as nat } else { b }
    }
}

/// The wait after a failure: the backoff shifted by up to a tenth either way,
/// the shift taken from `draw`.
pub open spec fn jittered(base: nat, draw: u64) -> nat {
    (base - base / 10 + (draw as nat) % (2 * (base / 10) + 1)) as nat
}

/// A job may be picked by a worker at time `now`.
pub open spec fn runnable(s: Schedule, now: u64) -> bool {
    s.state == JobState::Pending && s.next_run <= now
}

/// The attempt did the work: no error, or a 2xx answer.
pub open spec fn outcome_succeeded(o: Outcome) -> bool {
    match o {
        Outcome::Done => true,
        Outcome::Status(s) => 200 <= s && s <= 299,
        Outcome::ConnectError => false,
    }
}

pub open spec fn outcome_retryable(o: Outcome) -> bool {
    match o {
        Outcome::Done => false,
        Outcome::Status(s) => retryable_status(s),
        Outcome::ConnectError => true,
    }
}

/// HTTP statuses after which a delivery is tried again: 408, 429 and 5xx.
pub fn is_retryable(status: u16) -> (r: bool)
    ensures
        r == retryable_status(status),
{
    status == 408 || status == 429 || (500 <= status && status <= 599)
}

pub proof fn lemma_backoff_bounds(a: nat)
    ensures
        60 <= backoff(a) <= MAX_BACKOFF,
    decreases a,
{
    if a > 0 {
        lemma_backoff_bounds((a - 1) as nat);
    }
}

/// The backoff after `attempts` failed attempts, in seconds.
pub fn backoff_secs(attempts: u32) -> (r: u64)
    ensures
        r == backoff(attempts as nat),
        60 <= r <= MAX_BACKOFF,
{
    let mut b: u64 = 60;
    let mut i: u32 = 0;
    while i < attempts
        invariant
            i <= attempts,
            b == backoff(i as nat),
            60 <= b <= MAX_BACKOFF,
        decreases attempts - i,
    {
        b = if 2 * b > MAX_BACKOFF { MAX_BACKOFF } else { 2 * b };
        i = i + 1;
    }
    b
}

/// What the queue does with `job` after one attempt.
pub open spec fn attempt_result(job: Schedule, outcome: Outcome, now: u64, draw: u64) -> Step {
    if outcome_succeeded(outcome) {
        Step::Remove
    } else if !outcome_retryable(outcome) || job.attempts + 1 >= MAX_ATTEMPTS {
        Step::Keep(Schedule { state: JobState::Failed, attempts: (job.attempts + 1) as u32, next_run: job.next_run })
    } else {
        Step::Keep(
            Schedule {
                state: JobState::Pending,
                attempts: (job.attempts + 1) as u32,
                next_run: (now + jittered(backoff(job.attempts as nat), draw)) as u64,
            },
        )
    }
}

/// The job after a series of worker visits, each an outcome, a time and a
/// jitter draw: a visit runs the job only if it is due then. `None` once the
/// row is deleted.
pub open spec fn run(job: Schedule, visits: Seq<(Outcome, u64, u64)>) -> Option<Schedule>
    decreases visits.len(),
{
    if visits.len() == 0 {
        Some(job)
    } else {
        match run(job, visits.drop_last()) {
            None => None,
            Some(s) => {
                let v = visits.last();
                if runnable(s, v.1) {
                    match attempt_result(s, v.0, v.1, v.2) {
                        Step::Remove => None,
                        Step::Keep(t) => Some(t),
                    }
                } else {
                    Some(s)
                }
            },
        }
    }
}

/// A job within the limit: a job that is not failed has attempts left.
pub open spec fn within_limit(s: Schedule) -> bool {
    s.attempts <= MAX_ATTEMPTS && (s.state != JobState::Failed ==> s.attempts < MAX_ATTEMPTS)
}

/// Over any series of visits, a job never exceeds the attempt limit, reaching
/// it leaves the job failed, and once failed it stays as it is: it becomes
/// failed exactly once and is never run again.
pub proof fn lemma_run_within_limit(job: Schedule, visits: Seq<(Outcome, u64, u64)>, k: int)
    requires
        within_limit(job),
        0 <= k <= visits.len(),
    ensures
        run(job, visits) matches Some(s) ==> within_limit(s) && (s.attempts == MAX_ATTEMPTS ==> s.state
            == JobState::Failed),
        run(job, visits.take(k)) matches Some(f) ==> (f.state == JobState::Failed ==> run(job, visits) == Some(f)),
    decreases visits.len(),
{
    if visits.len() > 0 {
        let prev = visits.drop_last();
        if k == visits.len() {
            assert(visits.take(k) =~= visits);
            lemma_run_within_limit(job, prev, 0);
        } else {
            assert(visits.take(k) =~= prev.take(k));
            lemma_run_within_limit(job, prev, k);
        }
    } else {
        assert(visits.take(k) =~= visits);
    }
}

/// The schedule of a job after one attempt that ended with `outcome` at time
/// `now`; `draw` is a random number that sets the jitter.
pub fn after_attempt(job: Schedule, outcome: Outcome, now: u64, draw: u64) -> (r: Step)
    requires
        job.attempts < MAX_ATTEMPTS,
        now <= u64::MAX - 2 * MAX_BACKOFF,
    ensures
        r == attempt_result(job, outcome, now, draw),
        r matches Step::Keep(s) ==> s.attempts <= MAX_ATTEMPTS,
        r matches Step::Keep(s) ==> (s.attempts == MAX_ATTEMPTS ==> s.state == JobState::Failed),
        outcome_succeeded(outcome) ==> r == Step::Remove,
        !outcome_succeeded(outcome) && !outcome_retryable(outcome) ==> r == Step::Keep(
            Schedule { state: JobState::Failed, attempts: (job.attempts + 1) as u32, next_run: job.next_run },
        ),
        outcome_retryable(outcome) && job.attempts + 1 == MAX_ATTEMPTS ==> r == Step::Keep(
            Schedule { state: JobState::Failed, attempts: MAX_ATTEMPTS, next_run: job.next_run },
        ),
        outcome_retryable(outcome) && job.attempts + 1 < MAX_ATTEMPTS ==> r == Step::Keep(
            Schedule {
                state: JobState::Pending,
                attempts: (job.attempts + 1) as u32,
                next_run: (now + jittered(backoff(job.attempts as nat), draw)) as u64,
            },
        ),
{
    let retry = match outcome {
        Outcome::Done => {
            return Step::Remove;
        },
        Outcome::Status(s) => {
            if 200 <= s && s <= 299 {
                return Step::Remove;
            }
            is_retryable(s)
        },
        Outcome::ConnectError => true,
    };
    let attempts = job.attempts + 1;
    if !retry || attempts == MAX_ATTEMPTS {
        return Step::Keep(Schedule { state: JobState::Failed, attempts, next_run: job.next_run });
    }
    let base = backoff_secs(job.attempts);
    let tenth = base / 10;
    let wait = base - tenth + draw % (2 * tenth + 1);
    Step::Keep(Schedule { state: JobState::Pending, attempts, next_run: now + wait })
}

/// A failed job is never picked again, so it reaches the failed state once.
pub proof fn lemma_failed_is_final(s: Schedule, now: u64)
    requires
        s.state == JobState::Failed,
    ensures
        !runnable(s, now),
{
}

/// A first attempt that fails with a retryable outcome leaves the job pending
/// with one attempt, due again between 54 s and 66 s later.
pub proof fn lemma_first_retry(job: Schedule, outcome: Outcome, now: u64, draw: u64)
    requires
        job.attempts == 0,
        outcome_retryable(outcome),
        now <= u64::MAX - 2 * MAX_BACKOFF,
    ensures
        attempt_result(job, outcome, now, draw) matches Step::Keep(s) && s.state == JobState::Pending
            && s.attempts == 1 && now + 54 <= s.next_run <= now + 66,
{
    assert(backoff(0) == 60);
    assert((draw as nat) % 13 <= 12);
}

/// The job after one attempt per entry of `tries` (each a time and a jitter
/// draw), every one ending with `outcome`, as long as the row is kept.
pub open spec fn after_tries(job: Schedule, outcome: Outcome, tries: Seq<(u64, u64)>) -> Schedule
    decreases tries.len(),
{
    if tries.len() == 0 {
        job
    } else {
        let prev = after_tries(job, outcome, tries.drop_last());
        match attempt_result(prev, outcome, tries.last().0, tries.last().1) {
            Step::Keep(s) => s,
            Step::Remove => prev,
        }
    }
}

/// A fresh job whose every attempt fails retryably is pending after each of
/// its first nine attempts, and failed with ten attempts after the tenth.
pub proof fn lemma_tenth_failure(job: Schedule, outcome: Outcome, tries: Seq<(u64, u64)>)
    requires
        job.attempts == 0,
        job.state == JobState::Pending,
        outcome_retryable(outcome),
        tries.len() <= MAX_ATTEMPTS,
    ensures
        after_tries(job, outcome, tries).attempts == tries.len(),
        tries.len() < MAX_ATTEMPTS ==> after_tries(job, outcome, tries).state == JobState::Pending,
        tries.len() == MAX_ATTEMPTS ==> after_tries(job, outcome, tries).state == JobState::Failed,
    decreases tries.len(),
{
    if tries.len() > 0 {
        lemma_tenth_failure(job, outcome, tries.drop_last());
    }
}

/// A retried job waits at least 60 s and at most 1 h plus a tenth.
pub proof fn lemma_retry_wait(attempts: u32, now: u64, draw: u64)
    ensures
        60 - 6 <= jittered(backoff(attempts as nat), draw) <= MAX_BACKOFF + MAX_BACKOFF / 10,
{
    lemma_backoff_bounds(attempts as nat);
    let b = backoff(attempts as nat);
    assert((draw as nat) % (2 * (b / 10) + 1) <= 2 * (b / 10));
}

/// How long a worker may hold a running job before it is taken back, in seconds.
pub const LEASE: u64 = 600;

/// The job a worker takes next: among the pending jobs due at `now`, the one
/// with the earliest `next_run`, the first of them in the queue on a tie.
pub fn pick_next(jobs: &Vec<Schedule>, now: u64) -> (r: Option<usize>)
    ensures
        r is None <==> forall|i: int| 0 <= i < jobs@.len() ==> !runnable(#[trigger] jobs@[i], now),
        r matches Some(k) ==> k < jobs@.len() && runnable(jobs@[k as int], now),
        r matches Some(k) ==> forall|i: int|
            0 <= i < jobs@.len() && runnable(#[trigger] jobs@[i], now) ==> jobs@[k as int].next_run <= jobs@[i].next_run,
        r matches Some(k) ==> forall|i: int|
            0 <= i < k && runnable(#[trigger] jobs@[i], now) ==> jobs@[k as int].next_run < jobs@[i].next_run,
{
    let mut best: Option<usize> = None;
    let mut i: usize = 0;
    while i < jobs.len()
        invariant
            i <= jobs@.len(),
            best is None ==> forall|j: int| 0 <= j < i ==> !runnable(#[trigger] jobs@[j], now),
            best matches Some(k) ==> k < i && runnable(jobs@[k as int], now),
            best matches Some(k) ==> forall|j: int|
                0 <= j < i && runnable(#[trigger] jobs@[j], now) ==> jobs@[k as int].next_run <= jobs@[j].next_run,
            best matches Some(k) ==> forall|j: int|
                0 <= j < k && runnable(#[trigger] jobs@[j], now) ==> jobs@[k as int].next_run < jobs@[j].next_run,
        decreases jobs.len() - i,
    {
        let j = &jobs[i];
        if j.state == JobState::Pending && j.next_run <= now {
            match best {
                None => {
                    best = Some(i);
                },
                Some(k) => {
                    if j.next_run < jobs[k].next_run {
                        best = Some(i);
                    }
                },
            }
        }
        i = i + 1;
    }
    best
}

/// The sweeper's rule: a running job whose lease, taken at `leased_at`, is
/// older than [`LEASE`] goes back to pending; any other job is left alone.
pub fn reclaim(job: Schedule, leased_at: u64, now: u64) -> (r: Schedule)
    ensures
        job.state == JobState::Running && now >= leased_at + LEASE ==> r == (Schedule {
            state: JobState::Pending,
            attempts: job.attempts,
            next_run: job.next_run,
        }),
        !(job.state == JobState::Running && now >= leased_at + LEASE) ==> r == job,
{
    if job.state == JobState::Running && now >= leased_at && now - leased_at >= LEASE {
        Schedule { state: JobState::Pending, attempts: job.attempts, next_run: job.next_run }
    } else {
        job
    }
}

} // verus!
