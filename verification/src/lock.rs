//! The run lock: a single boolean enforcing single-flight job execution.
//!
//! The host application keeps one [`JobState`] behind a mutual-exclusion
//! primitive; all acquire/release decisions are made here. At most one run
//! may be in flight: a request arriving while the flag is set is rejected,
//! never queued, and every completion path clears the flag.

use vstd::prelude::*;

verus! {

/// The shared "a job is running" flag, exclusively owned by the orchestrator
/// and accessed only under mutual exclusion (provided by the host).
pub struct JobState {
    /// Whether a job is currently running.
    pub running: bool,
}

/// The lock state left behind by a `try_acquire` call: held, whether the
/// call acquired it or found it already held.
pub open spec fn acquire_next(running: bool) -> bool {
    true
}

/// Whether a `try_acquire` call on a lock in state `running` succeeds.
pub open spec fn acquire_accepts(running: bool) -> bool {
    !running
}

impl JobState {
    /// A fresh state with no job running.
    pub fn new() -> (s: JobState)
        ensures
            !s.running,
    {
        JobState { running: false }
    }

    /// Returns false immediately if a job is already running (no blocking,
    /// no queueing); otherwise marks a job as running and returns true.
    pub fn try_acquire(&mut self) -> (acquired: bool)
        ensures
            acquired == acquire_accepts(old(self).running),
            final(self).running == acquire_next(old(self).running),
    {
        if self.running {
            false
        } else {
            self.running = true;
            true
        }
    }

    /// Unconditionally clears the running flag. Called exactly once per
    /// successful acquire, on every exit path of a run.
    pub fn release(&mut self)
        ensures
            !final(self).running,
    {
        self.running = false;
    }

    /// Whether a job is currently running.
    pub fn is_running(&self) -> (b: bool)
        ensures
            b == self.running,
    {
        self.running
    }
}

} // verus!
