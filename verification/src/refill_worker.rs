use vstd::prelude::*;

verus! {

/// How a background worker's wait ended.
#[derive(Clone, Copy, Debug, PartialEq, Eq, Structural)]
pub enum WaitOutcome {
    /// The limiter is being torn down.
    Shutdown,
    /// The wait ran its full length.
    Elapsed,
}

/// What a background worker does next.
#[derive(Clone, Copy, Debug, PartialEq, Eq, Structural)]
pub enum WorkerStep {
    /// Leave the loop without touching the counter.
    Exit,
    /// Reset the counter to the quota and wait again.
    Refill,
}

/// What follows a wait: exactly one of exit and refill, never both.
pub open spec fn step_after(outcome: WaitOutcome) -> WorkerStep {
    match outcome {
        WaitOutcome::Shutdown => WorkerStep::Exit,
        WaitOutcome::Elapsed => WorkerStep::Refill,
    }
}

/// The `n`-th deadline of a schedule that starts at `start` and refills
/// every `window` nanoseconds, as far as 64 bits reach.
pub open spec fn deadline(start: int, window: int, n: nat) -> int {
    let exact = start + n * window;
    if exact > u64::MAX {
        u64::MAX as int
    } else {
        exact
    }
}

/// How long a worker that looks at the clock at `now` waits for `deadline`.
pub open spec fn wait_until(deadline: int, now: int) -> int {
    if deadline > now {
        deadline - now
    } else {
        0
    }
}

/// The refill schedule of a background worker: deadlines are laid out from
/// the starting instant by adding the window, so that a late wake-up does
/// not push the later ones back.
#[derive(Clone, Copy, Debug)]
pub struct RefillSchedule {
    window_in_nanos: u64,
    next_deadline_in_nanos: u64,
}

impl RefillSchedule {
    /// The window between two refills.
    pub closed spec fn window(&self) -> int {
        self.window_in_nanos as int
    }

    /// The deadline the worker last waited for, or the start.
    pub closed spec fn reached(&self) -> int {
        self.next_deadline_in_nanos as int
    }

    /// A schedule whose first deadline is one window after `start_in_nanos`.
    pub fn new(start_in_nanos: u64, window_in_nanos: u64) -> (schedule: Self)
        ensures
            schedule.window() == window_in_nanos,
            schedule.reached() == start_in_nanos,
    {
        RefillSchedule { window_in_nanos, next_deadline_in_nanos: start_in_nanos }
    }

    /// Moves to the next deadline and tells how many nanoseconds a worker
    /// that reads `now_in_nanos` on the clock has to wait for it.
    pub fn next_wait(&mut self, now_in_nanos: u64) -> (wait: u64)
        ensures
            final(self).window() == old(self).window(),
            final(self).reached() == deadline(old(self).reached(), old(self).window(), 1),
            wait == wait_until(final(self).reached(), now_in_nanos as int),
    {
        assert(1 * self.window_in_nanos == self.window_in_nanos) by (nonlinear_arith);
        self.next_deadline_in_nanos = self.next_deadline_in_nanos.saturating_add(
            self.window_in_nanos,
        );
        self.next_deadline_in_nanos.saturating_sub(now_in_nanos)
    }
}

/// Decides what the worker does after a wait.
pub fn after_wait(outcome: WaitOutcome) -> (step: WorkerStep)
    ensures
        step == step_after(outcome),
{
    match outcome {
        WaitOutcome::Shutdown => WorkerStep::Exit,
        WaitOutcome::Elapsed => WorkerStep::Refill,
    }
}

/// Deadlines do not drift: stepping from the `n`-th deadline gives the next
/// one of the same schedule, whatever the clock read in between.
pub proof fn lemma_deadlines_do_not_drift(start: int, window: int, n: nat)
    requires
        0 <= start <= u64::MAX,
        0 <= window,
    ensures
        deadline(deadline(start, window, n), window, 1) == deadline(start, window, n + 1),
{
    assert((n + 1) * window == n * window + window) by (nonlinear_arith);
    assert(1 * window == window) by (nonlinear_arith);
    assert(n * window >= 0) by (nonlinear_arith)
        requires
            window >= 0,
    ;
}

} // verus!
