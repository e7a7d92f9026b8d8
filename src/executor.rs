//! The execution context's rules: how many worker threads it runs, and the
//! bookkeeping of spawned tasks that decides when a drain is complete.
use vstd::prelude::*;

use crate::error::Fatal;

verus! {

/// The largest worker pool that the runtime's thread pool accepts.
pub const MAX_WORKER_THREADS: usize = 32768;

/// Relies on num_cpus::get: the number of logical CPUs available to this
/// process, which its documentation promises is at least one.
#[verifier::external_body]
fn available_cpus() -> (r: usize)
    ensures
        r >= 1,
{
    num_cpus::get()
}

/// The thread count used when the caller names none: one worker per
/// available logical CPU.
pub fn default_thread_count() -> (r: usize)
    ensures
        r >= 1,
{
    available_cpus()
}

/// How the worker pool is to be built.
#[derive(Clone, Copy, Debug, PartialEq, Eq, Structural)]
pub struct PoolPlan {
    /// The exact number of worker threads.
    pub threads: usize,
}

impl PoolPlan {
    pub open spec fn wf(self) -> bool {
        1 <= self.threads <= MAX_WORKER_THREADS
    }

    /// A plan for exactly `threads` workers; a count that the thread pool
    /// cannot run (none, or more than it supports) is fatal.
    pub fn new(threads: usize) -> (r: Result<PoolPlan, Fatal>)
        ensures
            (1 <= threads <= MAX_WORKER_THREADS) <==> r is Ok,
            r matches Ok(p) ==> p.threads == threads && p.wf(),
            r matches Err(e) ==> e == Fatal::ThreadCountOutOfRange,
    {
        if threads == 0 || threads > MAX_WORKER_THREADS {
            Err(Fatal::ThreadCountOutOfRange)
        } else {
            Ok(PoolPlan { threads })
        }
    }

    /// A plan for one worker per available logical CPU.
    pub fn with_default_threads() -> (r: Result<PoolPlan, Fatal>)
        ensures
            r matches Ok(p) ==> p.wf(),
            r matches Err(e) ==> e == Fatal::ThreadCountOutOfRange,
    {
        PoolPlan::new(default_thread_count())
    }

    /// The prefix of the workers' thread names.
    pub fn name_prefix(&self) -> (r: &'static str)
        ensures
            r@ == "gotham-worker-"@,
    {
        "gotham-worker-"
    }
}

/// What became of a submission to the execution context.
#[derive(Clone, Copy, Debug, PartialEq, Eq, Structural)]
pub enum Submission {
    /// The task was counted in and may run.
    Accepted,
    /// The context no longer takes top-level work: it is draining.
    Draining,
    /// The task counter is full.
    Saturated,
}

/// The count of tasks handed to the execution context and of those that
/// ended, and whether the context still takes new top-level work.
///
/// A drain first closes the context to top-level submissions; it is complete
/// once every task that was counted in has ended. Tasks that are running may
/// still spawn further tasks while the context drains.
#[derive(Clone, Copy, Debug, PartialEq, Eq, Structural)]
pub struct TaskLedger {
    pub open: bool,
    pub submitted: u64,
    pub finished: u64,
}

impl TaskLedger {
    pub open spec fn wf(self) -> bool {
        self.finished <= self.submitted
    }

    /// The number of tasks that were counted in and have not ended.
    pub open spec fn in_flight(self) -> int {
        self.submitted - self.finished
    }

    pub open spec fn drained(self) -> bool {
        !self.open && self.finished == self.submitted
    }

    /// A ledger for a fresh context: open, with no task.
    pub fn new() -> (r: TaskLedger)
        ensures
            r.wf(),
            r.open,
            r.submitted == 0,
            r.finished == 0,
    {
        TaskLedger { open: true, submitted: 0, finished: 0 }
    }

    /// Counts in a top-level task, unless the context is draining or the
    /// counter is full.
    pub fn submit(&mut self) -> (r: Submission)
        requires
            old(self).wf(),
        ensures
            final(self).wf(),
            final(self).open == old(self).open,
            final(self).finished == old(self).finished,
            !old(self).open ==> r == Submission::Draining,
            old(self).open && old(self).submitted == u64::MAX ==> r == Submission::Saturated,
            old(self).open && old(self).submitted < u64::MAX ==> r == Submission::Accepted,
            r == Submission::Accepted ==> final(self).submitted == old(self).submitted + 1,
            r != Submission::Accepted ==> final(self).submitted == old(self).submitted,
    {
        if !self.open {
            Submission::Draining
        } else if self.submitted == u64::MAX {
            Submission::Saturated
        } else {
            self.submitted = self.submitted + 1;
            Submission::Accepted
        }
    }

    /// Counts in a task spawned by a task that is still running; this is
    /// taken while the context drains too.
    pub fn submit_nested(&mut self) -> (r: Submission)
        requires
            old(self).wf(),
            old(self).in_flight() > 0,
        ensures
            final(self).wf(),
            final(self).open == old(self).open,
            final(self).finished == old(self).finished,
            old(self).submitted == u64::MAX <==> r == Submission::Saturated,
            old(self).submitted < u64::MAX <==> r == Submission::Accepted,
            r == Submission::Accepted ==> final(self).submitted == old(self).submitted + 1,
            r != Submission::Accepted ==> final(self).submitted == old(self).submitted,
    {
        if self.submitted == u64::MAX {
            Submission::Saturated
        } else {
            self.submitted = self.submitted + 1;
            Submission::Accepted
        }
    }

    /// Records that one counted task ended, whether it succeeded or failed.
    pub fn finish(&mut self)
        requires
            old(self).wf(),
            old(self).in_flight() > 0,
        ensures
            final(self).wf(),
            final(self).open == old(self).open,
            final(self).submitted == old(self).submitted,
            final(self).finished == old(self).finished + 1,
    {
        self.finished = self.finished + 1;
    }

    /// Stops the intake of top-level work: the first phase of a drain.
    pub fn close(&mut self)
        requires
            old(self).wf(),
        ensures
            final(self).wf(),
            !final(self).open,
            final(self).submitted == old(self).submitted,
            final(self).finished == old(self).finished,
    {
        self.open = false;
    }

    /// The number of tasks that were counted in and have not ended.
    pub fn tasks_in_flight(&self) -> (r: u64)
        requires
            self.wf(),
        ensures
            r == self.in_flight(),
    {
        self.submitted - self.finished
    }

    /// Whether a drain is complete: intake is closed and every counted task
    /// has ended.
    pub fn is_drained(&self) -> (r: bool)
        ensures
            r == self.drained(),
    {
        !self.open && self.finished == self.submitted
    }
}

/// A drain waits for every task: once intake is closed and `k` of the tasks
/// in flight have been recorded as ended, the ledger reads drained exactly
/// when `k` is all of them, and then no counted task is left unfinished.
pub proof fn lemma_drain_waits_for_every_task(l: TaskLedger, k: u64)
    requires
        l.wf(),
        !l.open,
        k <= l.in_flight(),
    ensures
        ({
            let m = TaskLedger { finished: (l.finished + k) as u64, ..l };
            &&& m.wf()
            &&& m.drained() <==> k == l.in_flight()
            &&& m.drained() ==> m.finished == m.submitted
        }),
{
}

} // verus!
