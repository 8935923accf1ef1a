//! The sleep schedule of the job polling loop: one poll interval while the
//! server has no job, doubling (up to 64 poll intervals) while polls fail.

use vstd::prelude::*;

verus! {

/// `base` doubled `k` times.
pub open spec fn doubled(base: nat, k: nat) -> nat
    decreases k,
{
    if k == 0 {
        base
    } else {
        2 * doubled(base, (k - 1) as nat)
    }
}

/// How many times the error sleep can double: the cap is 64 = 2^6 poll
/// intervals.
pub open spec fn max_doublings() -> nat {
    6
}

/// The outcome of one poll of the job endpoint.
#[derive(Debug, Clone, Copy, PartialEq, Eq)]
pub enum PollOutcome {
    /// A job was handed out.
    Job,
    /// The server has no job.
    NoJob,
    /// The poll failed.
    Failed,
}

/// What the loop does after a poll.
#[derive(Debug, Clone, Copy, PartialEq, Eq)]
pub enum PollAction {
    /// Process the job that came back, then poll again at once.
    ProcessJob,
    /// Sleep for the given number of seconds, then poll again.
    Sleep(u64),
}

/// The abstract state of the schedule.
pub struct BackoffView {
    pub poll_interval_secs: nat,
    pub error_sleep_secs: nat,
}

impl BackoffView {
    /// The longest sleep: 64 poll intervals.
    pub open spec fn max_sleep_secs(self) -> nat {
        64 * self.poll_interval_secs
    }

    /// The error sleep is the poll interval doubled at most six times.
    pub open spec fn reachable(self) -> bool {
        let p = self.poll_interval_secs;
        let e = self.error_sleep_secs;
        e == p || e == 2 * p || e == 4 * p || e == 8 * p || e == 16 * p || e == 32 * p || e == 64
            * p
    }
}

/// One step of the schedule: the state after a poll outcome, and the action.
pub open spec fn backoff_step(v: BackoffView, outcome: PollOutcome) -> (BackoffView, PollAction) {
    match outcome {
        PollOutcome::Job => (v, PollAction::ProcessJob),
        PollOutcome::NoJob => (
            BackoffView { error_sleep_secs: v.poll_interval_secs, ..v },
            PollAction::Sleep(v.poll_interval_secs as u64),
        ),
        PollOutcome::Failed => {
            let next = if v.error_sleep_secs < v.max_sleep_secs() {
                2 * v.error_sleep_secs
            } else {
                v.max_sleep_secs()
            };
            (BackoffView { error_sleep_secs: next, ..v }, PollAction::Sleep(next as u64))
        },
    }
}

/// The schedule of the polling loop.
pub struct PollBackoff {
    poll_interval_secs: u64,
    error_sleep_secs: u64,
}

proof fn lemma_doubled_facts(base: nat, k: nat)
    requires
        k <= max_doublings(),
    ensures
        doubled(base, 0) == base,
        base <= doubled(base, k),
        doubled(base, k) <= doubled(base, max_doublings()),
        doubled(base, max_doublings()) == 64 * base,
        k < max_doublings() ==> 2 * doubled(base, k) <= doubled(base, max_doublings()),
        base > 0 && k < max_doublings() ==> doubled(base, k) < doubled(base, max_doublings()),
{
    reveal_with_fuel(doubled, 7);
}

impl View for PollBackoff {
    type V = BackoffView;

    closed spec fn view(&self) -> BackoffView {
        BackoffView {
            poll_interval_secs: self.poll_interval_secs as nat,
            error_sleep_secs: self.error_sleep_secs as nat,
        }
    }
}

impl PollBackoff {
    #[verifier::type_invariant]
    closed spec fn well_formed(self) -> bool {
        &&& 64 * self.poll_interval_secs <= u64::MAX
        &&& (BackoffView {
            poll_interval_secs: self.poll_interval_secs as nat,
            error_sleep_secs: self.error_sleep_secs as nat,
        }).reachable()
    }

    /// A fresh schedule: the error sleep starts at one poll interval.  The
    /// longest sleep, 64 poll intervals, must fit in a `u64`.
    pub fn new(poll_interval_secs: u64) -> (res: Self)
        requires
            64 * poll_interval_secs <= u64::MAX,
        ensures
            res@.poll_interval_secs == poll_interval_secs,
            res@.error_sleep_secs == poll_interval_secs,
    {
        PollBackoff { poll_interval_secs, error_sleep_secs: poll_interval_secs }
    }

    /// The poll interval, in seconds.
    pub fn poll_interval_secs(&self) -> (res: u64)
        ensures
            res == self@.poll_interval_secs,
    {
        self.poll_interval_secs
    }

    /// The current error sleep, in seconds.
    pub fn error_sleep_secs(&self) -> (res: u64)
        ensures
            res == self@.error_sleep_secs,
    {
        self.error_sleep_secs
    }

    /// The longest sleep, 64 poll intervals, in seconds.
    pub fn max_sleep_secs(&self) -> (res: u64)
        ensures
            res == self@.max_sleep_secs(),
    {
        proof {
            use_type_invariant(self);
        }
        64 * self.poll_interval_secs
    }

    /// Takes a poll outcome and says what to do: process a job; after no job,
    /// sleep one poll interval and forget earlier failures; after a failure,
    /// double the error sleep while it is below the cap, else hold it at the
    /// cap, and sleep that long.
    pub fn step(&mut self, outcome: PollOutcome) -> (action: PollAction)
        ensures
            (final(self)@, action) == backoff_step(old(self)@, outcome),
            final(self)@.reachable(),
            final(self)@.poll_interval_secs == old(self)@.poll_interval_secs,
            action matches PollAction::Sleep(secs) ==> old(self)@.poll_interval_secs <= secs
                <= old(self)@.max_sleep_secs(),
    {
        proof {
            use_type_invariant(&*self);
        }
        let max = 64 * self.poll_interval_secs;
        match outcome {
            PollOutcome::Job => PollAction::ProcessJob,
            PollOutcome::NoJob => {
                self.error_sleep_secs = self.poll_interval_secs;
                PollAction::Sleep(self.poll_interval_secs)
            },
            PollOutcome::Failed => {
                if self.error_sleep_secs < max {
                    self.error_sleep_secs = 2 * self.error_sleep_secs;
                } else {
                    self.error_sleep_secs = max;
                }
                PollAction::Sleep(self.error_sleep_secs)
            },
        }
    }
}

/// The state after `n` failed polls in a row.
pub open spec fn after_failures(v: BackoffView, n: nat) -> BackoffView
    decreases n,
{
    if n == 0 {
        v
    } else {
        backoff_step(after_failures(v, (n - 1) as nat), PollOutcome::Failed).0
    }
}

/// At most six doublings: `n`, or six where `n` is larger.
pub open spec fn capped_doublings(n: nat) -> nat {
    if n < max_doublings() {
        n
    } else {
        max_doublings()
    }
}

/// One more failure moves the error sleep from `n` capped doublings of the
/// poll interval to `n + 1` capped doublings.
proof fn lemma_failure_step(w: BackoffView, n: nat)
    requires
        w.error_sleep_secs == doubled(w.poll_interval_secs, capped_doublings(n)),
    ensures
        backoff_step(w, PollOutcome::Failed).0.poll_interval_secs == w.poll_interval_secs,
        backoff_step(w, PollOutcome::Failed).0.error_sleep_secs == doubled(
            w.poll_interval_secs,
            capped_doublings(n + 1),
        ),
{
    let p = w.poll_interval_secs;
    lemma_doubled_facts(p, max_doublings());
    lemma_doubled_facts(p, capped_doublings(n));
    if n < max_doublings() {
        reveal_with_fuel(doubled, 2);
        if p == 0 {
            lemma_doubled_zero(n + 1);
        }
    }
}

/// Starting from a rested schedule (error sleep equal to the poll interval,
/// as at start and after a poll that found no job), the sleep after `n`
/// failed polls in a row is the poll interval doubled `n` times, capped at 64
/// poll intervals; the poll interval itself never changes.
pub proof fn lemma_failures_double_until_cap(v: BackoffView, n: nat)
    requires
        v.error_sleep_secs == v.poll_interval_secs,
    ensures
        after_failures(v, n).poll_interval_secs == v.poll_interval_secs,
        after_failures(v, n).error_sleep_secs == doubled(v.poll_interval_secs, capped_doublings(n)),
    decreases n,
{
    lemma_doubled_facts(v.poll_interval_secs, 0);
    if n > 0 {
        lemma_failures_double_until_cap(v, (n - 1) as nat);
        lemma_failure_step(after_failures(v, (n - 1) as nat), (n - 1) as nat);
    }
}

proof fn lemma_doubled_zero(k: nat)
    ensures
        doubled(0, k) == 0,
    decreases k,
{
    if k > 0 {
        lemma_doubled_zero((k - 1) as nat);
    }
}

/// However many polls failed before, a poll that finds no job brings the
/// sleep back to one poll interval, and the next failure sleeps twice that
/// (or the cap, if smaller).
pub proof fn lemma_no_job_resets(v: BackoffView, failures: nat)
    ensures
        backoff_step(after_failures(v, failures), PollOutcome::NoJob).1 == PollAction::Sleep(
            v.poll_interval_secs as u64,
        ),
        backoff_step(after_failures(v, failures), PollOutcome::NoJob).0.error_sleep_secs
            == v.poll_interval_secs,
    decreases failures,
{
    if failures > 0 {
        lemma_no_job_resets(v, (failures - 1) as nat);
    }
}

/// The state after a history of poll outcomes, oldest first.
pub open spec fn run_polls(v: BackoffView, outcomes: Seq<PollOutcome>) -> BackoffView
    decreases outcomes.len(),
{
    if outcomes.len() == 0 {
        v
    } else {
        backoff_step(run_polls(v, outcomes.drop_last()), outcomes.last()).0
    }
}

/// How many polls failed since the last poll that found no job (or since
/// the start); polls that found a job are not counted and do not reset.
pub open spec fn failures_since_rest(outcomes: Seq<PollOutcome>) -> nat
    decreases outcomes.len(),
{
    if outcomes.len() == 0 {
        0
    } else {
        match outcomes.last() {
            PollOutcome::Failed => failures_since_rest(outcomes.drop_last()) + 1,
            PollOutcome::NoJob => 0,
            PollOutcome::Job => failures_since_rest(outcomes.drop_last()),
        }
    }
}

/// Over any history of polls from a rested schedule: the poll interval `p`
/// never changes; the error sleep is `min(p * 2^k, 64 * p)`, with `k` the
/// failures since the last poll that found no job (found jobs in between
/// neither sleep nor reset `k`); and the last poll's action is to process
/// the job it found, to sleep `p` after no job, or to sleep that error sleep
/// after a failure.
pub proof fn lemma_poll_history(v: BackoffView, outcomes: Seq<PollOutcome>)
    requires
        v.error_sleep_secs == v.poll_interval_secs,
    ensures
        run_polls(v, outcomes).poll_interval_secs == v.poll_interval_secs,
        run_polls(v, outcomes).error_sleep_secs == doubled(
            v.poll_interval_secs,
            capped_doublings(failures_since_rest(outcomes)),
        ),
        outcomes.len() > 0 ==> backoff_step(run_polls(v, outcomes.drop_last()), outcomes.last()).1
            == match outcomes.last() {
            PollOutcome::Job => PollAction::ProcessJob,
            PollOutcome::NoJob => PollAction::Sleep(v.poll_interval_secs as u64),
            PollOutcome::Failed => PollAction::Sleep(
                doubled(
                    v.poll_interval_secs,
                    capped_doublings(failures_since_rest(outcomes)),
                ) as u64,
            ),
        },
    decreases outcomes.len(),
{
    lemma_doubled_facts(v.poll_interval_secs, 0);
    if outcomes.len() > 0 {
        let earlier = outcomes.drop_last();
        lemma_poll_history(v, earlier);
        if outcomes.last() is Failed {
            lemma_failure_step(run_polls(v, earlier), failures_since_rest(earlier));
        }
    }
}

/// The polling loop never stops: whatever a poll brings, the schedule says
/// to process a job or to sleep and poll again, keeps its poll interval and
/// stays reachable; after a poll that found no job it sleeps exactly one
/// poll interval.
pub proof fn lemma_poll_loop_continues(v: BackoffView, outcome: PollOutcome)
    requires
        v.reachable(),
    ensures
        backoff_step(v, outcome).1 is ProcessJob || backoff_step(v, outcome).1 is Sleep,
        backoff_step(v, outcome).1 is ProcessJob <==> outcome is Job,
        outcome is NoJob ==> backoff_step(v, outcome).1 == PollAction::Sleep(
            v.poll_interval_secs as u64,
        ),
        backoff_step(v, outcome).0.poll_interval_secs == v.poll_interval_secs,
        backoff_step(v, outcome).0.reachable(),
{
}

} // verus!
