//! Reconciling the worker's exit into a single outcome.
//!
//! The process supervisor's wait is reduced to a [`WaitResult`]: either the
//! worker exited with a status code, or the wait itself failed at the OS
//! level. A wait failure is treated the same as a worker failure, with a
//! generic reason. The outcome of a run is a [`JobOutcome`]: success carries
//! the completion marker line to emit, failure carries the rendered reason.

use vstd::prelude::*;

use crate::decimal::{dec_str, u32_to_decimal};

verus! {

/// What the process supervisor observed of the worker's termination.
#[derive(Clone, Copy, PartialEq, Eq, Structural)]
pub enum WaitResult {
    /// The worker exited with this status code.
    Exited(u32),
    /// The wait itself failed (handle already reaped, OS-level error).
    WaitFailed,
}

/// The terminal outcome of one run, produced exactly once.
pub enum JobOutcome {
    /// The worker exited with status 0; `marker` is the completion marker
    /// line to emit after all content lines.
    Success { marker: String },
    /// The worker failed; `error` is the human-readable reason returned to
    /// the caller.
    Failure { error: String },
}

/// The mathematical value of a [`JobOutcome`].
pub enum JobOutcomeView {
    Success { marker: Seq<char> },
    Failure { error: Seq<char> },
}

impl View for JobOutcome {
    type V = JobOutcomeView;

    open spec fn view(&self) -> JobOutcomeView {
        match self {
            JobOutcome::Success { marker } => JobOutcomeView::Success { marker: marker@ },
            JobOutcome::Failure { error } => JobOutcomeView::Failure { error: error@ },
        }
    }
}

/// The error returned to a caller whose request arrives while a job runs.
pub open spec fn already_running_message() -> Seq<char> {
    "A job is already running"@
}

/// The synthetic marker line emitted after a successful run, distinguishable
/// from worker-emitted lines only by its position after them.
pub open spec fn completion_marker() -> Seq<char> {
    "Job completed"@
}

/// The failure reason for a worker that exited with nonzero status `n`.
pub open spec fn worker_failure_message(n: nat) -> Seq<char> {
    "CreatorPack exited with status "@ + dec_str(n)
}

/// The generic failure reason when the wait itself failed.
pub open spec fn wait_error_message() -> Seq<char> {
    "failed to observe the worker's exit"@
}

/// The outcome that a given wait result resolves to.
pub open spec fn wait_completion(w: WaitResult) -> JobOutcomeView {
    match w {
        WaitResult::Exited(n) => if n == 0 {
            JobOutcomeView::Success { marker: completion_marker() }
        } else {
            JobOutcomeView::Failure { error: worker_failure_message(n as nat) }
        },
        WaitResult::WaitFailed => JobOutcomeView::Failure { error: wait_error_message() },
    }
}

/// A completion marker is produced exactly for exit status 0: no failure
/// path yields one, and it is always the marker line itself. A nonzero exit
/// status resolves to an error whose message ends with the decimal rendering
/// of that status; a wait failure resolves to the generic wait error.
pub proof fn lemma_outcome_of_exit(w: WaitResult)
    ensures
        wait_completion(w) is Success <==> w == WaitResult::Exited(0),
        wait_completion(w) matches JobOutcomeView::Success { marker } ==> marker
            == completion_marker(),
        w matches WaitResult::Exited(n) ==> (n != 0 ==> wait_completion(w) == (
        JobOutcomeView::Failure { error: worker_failure_message(n as nat) })),
        w matches WaitResult::Exited(n) ==> (n != 0 ==> worker_failure_message(
            n as nat,
        ).subrange(
            worker_failure_message(n as nat).len() - dec_str(n as nat).len(),
            worker_failure_message(n as nat).len() as int,
        ) == dec_str(n as nat)),
        w == WaitResult::WaitFailed ==> wait_completion(w) == (JobOutcomeView::Failure {
            error: wait_error_message(),
        }),
{
    match w {
        WaitResult::Exited(n) => {
            if n != 0 {
                let prefix = "CreatorPack exited with status "@;
                let digits = dec_str(n as nat);
                assert((prefix + digits).subrange(
                    prefix.len() as int,
                    (prefix + digits).len() as int,
                ) =~= digits);
            }
        },
        WaitResult::WaitFailed => {},
    }
}

/// Renders the failure reason for nonzero exit status `n`.
pub fn render_worker_failure(n: u32) -> (s: String)
    ensures
        s@ == worker_failure_message(n as nat),
{
    let mut s = String::from_str("CreatorPack exited with status ");
    let digits = u32_to_decimal(n);
    s.append(digits.as_str());
    s
}

/// Resolves a wait result into the run's outcome.
pub fn resolve_outcome(w: WaitResult) -> (r: JobOutcome)
    ensures
        r@ == wait_completion(w),
{
    match w {
        WaitResult::Exited(0) => JobOutcome::Success { marker: String::from_str("Job completed") },
        WaitResult::Exited(n) => JobOutcome::Failure { error: render_worker_failure(n) },
        WaitResult::WaitFailed => JobOutcome::Failure {
            error: String::from_str("failed to observe the worker's exit"),
        },
    }
}

} // verus!
