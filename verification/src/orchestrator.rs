//! The job orchestrator: the decision logic of one run.
//!
//! A run proceeds as: acquire the run lock, build the argument vector, spawn
//! the worker, stream its output concurrently with waiting for its exit,
//! release the lock, report the outcome. The host application performs the
//! outside work (spawn, wait, event delivery); each decision between those
//! steps is a method here, so that every path — acceptance, rejection, spawn
//! failure, worker failure, wait failure, success — is pinned by a contract.

use vstd::prelude::*;

use crate::args::{arg_tokens, build_args, RunRequest};
use crate::lock::JobState;
use crate::outcome::{
    already_running_message, resolve_outcome, wait_completion, JobOutcome, JobOutcomeView,
    WaitResult,
};

verus! {

/// How a run request was answered: accepted with the argument vector to
/// spawn the worker with, or rejected with an error message and no spawn.
pub enum StartOutcomeView {
    Accepted { args: Seq<Seq<char>> },
    Rejected { error: Seq<char> },
}

/// The mathematical value of a `start_job` result.
pub open spec fn start_result_view(r: Result<Vec<String>, String>) -> StartOutcomeView {
    match r {
        Ok(v) => StartOutcomeView::Accepted { args: v@.map_values(|t: String| t@) },
        Err(m) => StartOutcomeView::Rejected { error: m@ },
    }
}

/// The transition a run request makes on the run lock: the new lock state
/// and the answer given to the caller.
pub open spec fn start_step(running: bool, req: RunRequest) -> (bool, StartOutcomeView) {
    if running {
        (true, StartOutcomeView::Rejected { error: already_running_message() })
    } else {
        (true, StartOutcomeView::Accepted { args: arg_tokens(req) })
    }
}

/// The transition a spawn failure makes: the lock is released and the
/// error message is passed through to the caller.
pub open spec fn spawn_failed_step(running: bool, error: Seq<char>) -> (bool, Seq<char>) {
    (false, error)
}

/// The transition the wait result makes: the lock is released
/// unconditionally and the wait result resolves to the run's outcome.
pub open spec fn wait_step(running: bool, w: WaitResult) -> (bool, JobOutcomeView) {
    (false, wait_completion(w))
}

impl JobState {
    /// Answers an incoming run request: rejects it if a job is already
    /// running, otherwise acquires the lock and returns the argument vector
    /// to spawn the worker with.
    pub fn start_job(&mut self, req: &RunRequest) -> (r: Result<Vec<String>, String>)
        ensures
            final(self).running == start_step(old(self).running, *req).0,
            start_result_view(r) == start_step(old(self).running, *req).1,
    {
        if !self.try_acquire() {
            Err(String::from_str("A job is already running"))
        } else {
            Ok(build_args(req))
        }
    }

    /// Handles a spawn failure: releases the lock and returns the error to
    /// report, before the process layer is ever waited on.
    pub fn on_spawn_failed(&mut self, error: String) -> (r: String)
        ensures
            final(self).running == spawn_failed_step(old(self).running, error@).0,
            r@ == spawn_failed_step(old(self).running, error@).1,
    {
        self.release();
        error
    }

    /// Handles the wait result: releases the lock unconditionally, then
    /// resolves the worker's exit into the run's outcome.
    pub fn on_wait_result(&mut self, w: WaitResult) -> (r: JobOutcome)
        ensures
            final(self).running == wait_step(old(self).running, w).0,
            r@ == wait_step(old(self).running, w).1,
    {
        self.release();
        resolve_outcome(w)
    }
}

/// A run request issued while the run lock is held — in particular any
/// second request issued after one was accepted and before its run
/// completed — is rejected with the already-running error and yields no
/// argument vector, so it causes zero subprocess spawns.
pub proof fn lemma_second_request_rejected(running: bool, first: RunRequest, second: RunRequest)
    ensures
        start_step(running, first).0,
        start_step(start_step(running, first).0, second).1 == (StartOutcomeView::Rejected {
            error: already_running_message(),
        }),
{
}

/// For any run that completes — by spawn failure, or by the wait returning
/// any result (success, worker failure or wait failure) — the run lock is
/// false immediately after the orchestrator's handling of it.
pub proof fn lemma_lock_released_on_completion(running: bool, error: Seq<char>, w: WaitResult)
    ensures
        !spawn_failed_step(running, error).0,
        !wait_step(running, w).0,
{
}

} // verus!
