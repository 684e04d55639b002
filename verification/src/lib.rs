//! A job-execution supervisor for a desktop shell that drives an external
//! command-line media-processing worker.
//!
//! The crate contains the decision logic of the shell: building the worker's
//! argument vector from a run request, enforcing single-flight execution
//! through a run lock, splitting the worker's output stream into lines, and
//! reconciling the worker's exit status into a single outcome. Process
//! spawning, waiting and event delivery are left to the host application,
//! which drives these components.

pub mod args;
pub mod decimal;
pub mod lock;
pub mod orchestrator;
pub mod outcome;
pub mod stream;

use vstd::prelude::*;

verus! {

} // verus!
