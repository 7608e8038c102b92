//! The per-job loop as a state machine, and the scheduler that owns one
//! loop per job.
//!
//! A runner alternates between awaiting its next tick and running its work
//! function. The surrounding executor performs what the runner asks for
//! (wait, then invoke) and reports back whether the work succeeded; a failure
//! is recorded and the runner goes back to awaiting the next tick.
use vstd::prelude::*;
use crate::clock::{
    CronExpression, EARLIEST_INSTANT_MILLIS, LATEST_INSTANT_MILLIS, is_soonest_fire,
    never_fires_after,
};

verus! {

/// How long a runner waits before retrying when its expression yields no
/// next instant.
pub const FALLBACK_WAIT_MILLIS: u64 = 60000;

#[derive(Debug, Clone, Copy, PartialEq, Eq)]
pub enum Phase {
    AwaitingNextTick,
    Running,
}

/// What the executor is asked to do next.
#[derive(Debug, Clone, Copy, PartialEq, Eq)]
pub enum Action {
    /// No next instant was found: wait this long, then ask again.
    Retry { wait_millis: u64 },
    /// Wait this long, then invoke the work function once and report.
    Fire { wait_millis: u64 },
}

/// The abstract state of a runner.
pub struct RunnerState {
    pub running: bool,
    pub ticks: nat,
    pub invocations: nat,
    pub failures: nat,
}

pub open spec fn fresh_state() -> RunnerState {
    RunnerState { running: false, ticks: 0, invocations: 0, failures: 0 }
}

/// Every computed tick has led to exactly one invocation, but for the one
/// that is running now.
pub open spec fn state_wf(v: RunnerState) -> bool {
    &&& v.ticks == v.invocations + (if v.running { 1nat } else { 0nat })
    &&& v.failures <= v.invocations
}

/// The state after the next instant has been computed.
pub open spec fn after_schedule(v: RunnerState, next: Option<int>) -> RunnerState {
    match next {
        None => v,
        Some(_) => RunnerState { running: true, ticks: v.ticks + 1, ..v },
    }
}

/// The state after the work function has reported.
pub open spec fn after_report(v: RunnerState, succeeded: bool) -> RunnerState {
    RunnerState {
        running: false,
        invocations: v.invocations + 1,
        failures: if succeeded { v.failures } else { v.failures + 1 },
        ..v
    }
}

/// One pass of the loop: compute the next instant and, when there is one,
/// run the work function with the given outcome.
pub open spec fn cycle(v: RunnerState, next: Option<int>, succeeded: bool) -> RunnerState {
    match next {
        None => v,
        Some(_) => after_report(after_schedule(v, next), succeeded),
    }
}

/// The state after a run of passes, the work failing on every one.
pub open spec fn failing_cycles(v: RunnerState, nexts: Seq<Option<int>>) -> RunnerState
    decreases nexts.len(),
{
    if nexts.len() == 0 {
        v
    } else {
        cycle(failing_cycles(v, nexts.drop_last()), nexts.last(), false)
    }
}

/// Number of passes in which a next instant was found.
pub open spec fn computed_ticks(nexts: Seq<Option<int>>) -> nat
    decreases nexts.len(),
{
    if nexts.len() == 0 {
        0
    } else {
        computed_ticks(nexts.drop_last()) + if nexts.last() is Some { 1nat } else { 0nat }
    }
}

pub open spec fn instant_of(next: Option<i64>) -> Option<int> {
    match next {
        None => None,
        Some(t) => Some(t as int),
    }
}

/// Time to wait from `now` until `next`, never negative.
pub open spec fn wait_until(now: int, next: int) -> int {
    if next <= now { 0 } else { next - now }
}

/// The loop of one job.
#[derive(Debug, Clone, Copy)]
pub struct JobRunner {
    phase: Phase,
    ticks: u64,
    invocations: u64,
    failures: u64,
}

impl View for JobRunner {
    type V = RunnerState;

    closed spec fn view(&self) -> RunnerState {
        RunnerState {
            running: self.phase == Phase::Running,
            ticks: self.ticks as nat,
            invocations: self.invocations as nat,
            failures: self.failures as nat,
        }
    }
}

/// Milliseconds from `now_millis` until `next_millis`, floored at zero.
pub fn wait_millis(now_millis: i64, next_millis: i64) -> (r: u64)
    ensures
        r == wait_until(now_millis as int, next_millis as int),
{
    if next_millis <= now_millis {
        0
    } else {
        (next_millis as i128 - now_millis as i128) as u64
    }
}

impl JobRunner {
    pub closed spec fn wf(&self) -> bool {
        &&& state_wf(self@)
        &&& self.ticks == self.invocations + (if self.phase == Phase::Running { 1u64 } else { 0u64 })
    }

    pub fn new() -> (r: JobRunner)
        ensures
            r.wf(),
            r@ == fresh_state(),
    {
        JobRunner { phase: Phase::AwaitingNextTick, ticks: 0, invocations: 0, failures: 0 }
    }

    pub fn phase(&self) -> (r: Phase)
        ensures
            r == Phase::Running <==> self@.running,
    {
        self.phase
    }

    /// Ticks computed so far.
    pub fn ticks(&self) -> (r: u64)
        ensures
            r == self@.ticks,
    {
        self.ticks
    }

    /// Times the work function has been invoked and has reported.
    pub fn invocations(&self) -> (r: u64)
        ensures
            r == self@.invocations,
    {
        self.invocations
    }

    /// Times the work function has reported a failure.
    pub fn failures(&self) -> (r: u64)
        ensures
            r == self@.failures,
    {
        self.failures
    }

    /// Takes the next instant computed at `now_millis`. With none, the runner
    /// stays where it is and asks for the fallback wait; otherwise it counts a
    /// tick, enters `Running` and asks to wait until that instant.
    pub fn schedule(&mut self, now_millis: i64, next: Option<i64>) -> (r: Action)
        requires
            old(self).wf(),
            !old(self)@.running,
            old(self)@.ticks < u64::MAX,
        ensures
            final(self).wf(),
            final(self)@ == after_schedule(old(self)@, instant_of(next)),
            next is None ==> r == (Action::Retry { wait_millis: FALLBACK_WAIT_MILLIS }),
            next matches Some(t) ==> r == (Action::Fire {
                wait_millis: wait_until(now_millis as int, t as int) as u64,
            }),
    {
        match next {
            None => Action::Retry { wait_millis: FALLBACK_WAIT_MILLIS },
            Some(t) => {
                self.phase = Phase::Running;
                self.ticks = self.ticks + 1;
                Action::Fire { wait_millis: wait_millis(now_millis, t) }
            },
        }
    }

    /// Records the outcome of the invocation; the runner goes back to
    /// awaiting its next tick whatever the outcome.
    pub fn report(&mut self, succeeded: bool)
        requires
            old(self).wf(),
            old(self)@.running,
        ensures
            final(self).wf(),
            final(self)@ == after_report(old(self)@, succeeded),
    {
        self.phase = Phase::AwaitingNextTick;
        self.invocations = self.invocations + 1;
        if !succeeded {
            self.failures = self.failures + 1;
        }
    }
}

/// A runner whose work always fails never leaves its loop, and invokes the
/// work exactly once for each tick it computed: after any run of passes it
/// awaits its next tick, with as many invocations (and failures) as ticks.
pub proof fn failing_runner_invokes_once_per_tick(nexts: Seq<Option<int>>)
    ensures
        !failing_cycles(fresh_state(), nexts).running,
        failing_cycles(fresh_state(), nexts).ticks == computed_ticks(nexts),
        failing_cycles(fresh_state(), nexts).invocations == computed_ticks(nexts),
        failing_cycles(fresh_state(), nexts).failures == computed_ticks(nexts),
    decreases nexts.len(),
{
    if nexts.len() > 0 {
        failing_runner_invokes_once_per_tick(nexts.drop_last());
    }
}

/// One job: a name for the log, and when it fires.
#[derive(Debug)]
pub struct JobSpec {
    pub name: String,
    pub expression: CronExpression,
}

/// The states of all runners after one pass of runner `job`; the others
/// stay as they are.
pub open spec fn cycle_one(
    states: Seq<RunnerState>,
    job: int,
    next: Option<int>,
    succeeded: bool,
) -> Seq<RunnerState> {
    states.update(job, cycle(states[job], next, succeeded))
}

/// Owns a fixed set of jobs and one runner for each.
#[derive(Debug)]
pub struct Scheduler {
    jobs: Vec<JobSpec>,
    runners: Vec<JobRunner>,
}

impl View for Scheduler {
    type V = Seq<RunnerState>;

    closed spec fn view(&self) -> Seq<RunnerState> {
        self.runners@.map_values(|r: JobRunner| r@)
    }
}

impl Scheduler {
    pub closed spec fn wf(&self) -> bool {
        &&& self.runners@.len() == self.jobs@.len()
        &&& forall|i: int| 0 <= i < self.runners@.len() ==> (#[trigger] self.runners@[i]).wf()
    }

    /// Number of jobs, fixed at construction.
    pub closed spec fn job_count(&self) -> nat {
        self.jobs@.len()
    }

    /// Name of job `i`.
    pub closed spec fn job_name(&self, i: int) -> Seq<char> {
        self.jobs@[i].name@
    }

    /// Source text of the expression of job `i`.
    pub closed spec fn job_expression(&self, i: int) -> Seq<char> {
        self.jobs@[i].expression@
    }

    /// Starts one fresh runner for each job, in the order given.
    pub fn new(jobs: Vec<JobSpec>) -> (r: Scheduler)
        ensures
            r.wf(),
            r.job_count() == jobs@.len(),
            r@.len() == jobs@.len(),
            forall|i: int| 0 <= i < jobs@.len() ==> #[trigger] r@[i] == fresh_state(),
            forall|i: int| 0 <= i < jobs@.len() ==> #[trigger] r.job_name(i) == jobs@[i].name@,
            forall|i: int|
                0 <= i < jobs@.len() ==> #[trigger] r.job_expression(i) == jobs@[i].expression@,
    {
        let mut runners: Vec<JobRunner> = Vec::new();
        let mut i: usize = 0;
        while i < jobs.len()
            invariant
                i <= jobs@.len(),
                runners@.len() == i,
                forall|k: int| 0 <= k < i ==> (#[trigger] runners@[k]).wf() && runners@[k]@
                    == fresh_state(),
            decreases jobs@.len() - i,
        {
            runners.push(JobRunner::new());
            i = i + 1;
        }
        Scheduler { jobs, runners }
    }

    pub fn len(&self) -> (r: usize)
        requires
            self.wf(),
        ensures
            r == self.job_count(),
            r == self@.len(),
    {
        self.jobs.len()
    }

    /// Name of job `job`, for the log.
    pub fn name(&self, job: usize) -> (r: &str)
        requires
            job < self.job_count(),
        ensures
            r@ == self.job_name(job as int),
    {
        self.jobs[job].name.as_str()
    }

    /// The runner of job `job`.
    pub fn runner(&self, job: usize) -> (r: JobRunner)
        requires
            self.wf(),
            job < self.job_count(),
        ensures
            r.wf(),
            r@ == self@[job as int],
    {
        self.runners[job]
    }

    /// Hands runner `job` the next instant computed at `now_millis`; the
    /// other runners are untouched.
    pub fn schedule_job(&mut self, job: usize, now_millis: i64, next: Option<i64>) -> (r: Action)
        requires
            old(self).wf(),
            job < old(self).job_count(),
            !old(self)@[job as int].running,
            old(self)@[job as int].ticks < u64::MAX,
        ensures
            final(self).wf(),
            final(self).job_count() == old(self).job_count(),
            final(self)@ == old(self)@.update(
                job as int,
                after_schedule(old(self)@[job as int], instant_of(next)),
            ),
            next is None ==> r == (Action::Retry { wait_millis: FALLBACK_WAIT_MILLIS }),
            next matches Some(t) ==> r == (Action::Fire {
                wait_millis: wait_until(now_millis as int, t as int) as u64,
            }),
    {
        let mut runner = self.runners[job];
        let r = runner.schedule(now_millis, next);
        self.runners.set(job, runner);
        assert(self@ =~= old(self)@.update(
            job as int,
            after_schedule(old(self)@[job as int], instant_of(next)),
        ));
        r
    }

    /// Computes, at `now_millis`, the next instant of job `job` from its
    /// expression and hands it to its runner. An instant found is the
    /// soonest at which the expression fires after `now_millis`; none is
    /// found only when it fires at no later whole second in range.
    pub fn plan_job(&mut self, job: usize, now_millis: i64) -> (r: Action)
        requires
            old(self).wf(),
            job < old(self).job_count(),
            !old(self)@[job as int].running,
            old(self)@[job as int].ticks < u64::MAX,
            EARLIEST_INSTANT_MILLIS <= now_millis <= LATEST_INSTANT_MILLIS,
        ensures
            final(self).wf(),
            final(self).job_count() == old(self).job_count(),
            exists|next: Option<i64>|
                {
                    &&& (next matches Some(t) ==> is_soonest_fire(
                        old(self).job_expression(job as int),
                        now_millis as int,
                        t as int,
                    ))
                    &&& (next is None ==> never_fires_after(
                        old(self).job_expression(job as int),
                        now_millis as int,
                    ))
                    &&& final(self)@ == old(self)@.update(
                        job as int,
                        after_schedule(old(self)@[job as int], instant_of(next)),
                    )
                    &&& (next is None ==> r == (Action::Retry {
                        wait_millis: FALLBACK_WAIT_MILLIS,
                    }))
                    &&& (next matches Some(t) ==> r == (Action::Fire {
                        wait_millis: wait_until(now_millis as int, t as int) as u64,
                    }))
                },
    {
        let next = self.jobs[job].expression.next_after(now_millis);
        self.schedule_job(job, now_millis, next)
    }

    /// Records the outcome of job `job`'s invocation; the other runners are
    /// untouched.
    pub fn report_job(&mut self, job: usize, succeeded: bool)
        requires
            old(self).wf(),
            job < old(self).job_count(),
            old(self)@[job as int].running,
        ensures
            final(self).wf(),
            final(self).job_count() == old(self).job_count(),
            final(self)@ == old(self)@.update(
                job as int,
                after_report(old(self)@[job as int], succeeded),
            ),
    {
        let mut runner = self.runners[job];
        runner.report(succeeded);
        self.runners.set(job, runner);
        assert(self@ =~= old(self)@.update(job as int, after_report(old(self)@[job as int], succeeded)));
    }
}

/// Runners are isolated: a pass of one runner, failing or not, leaves every
/// other runner's state (its ticks, invocations and failures) as it was.
pub proof fn passes_leave_other_runners_alone(
    states: Seq<RunnerState>,
    job: int,
    other: int,
    next: Option<int>,
    succeeded: bool,
)
    requires
        0 <= job < states.len(),
        0 <= other < states.len(),
        other != job,
    ensures
        cycle_one(states, job, next, succeeded)[other] == states[other],
{
}

} // verus!
