use creatorpack_shell::args::RunRequest;
use creatorpack_shell::lock::JobState;
use creatorpack_shell::outcome::{JobOutcome, WaitResult};

fn request() -> RunRequest {
    RunRequest {
        file: "a.mp4".to_string(),
        template: "t1".to_string(),
        minutes: 5,
        smart: true,
        highlights: false,
        brand: None,
    }
}

#[test]
fn try_acquire_then_release() {
    let mut state = JobState::new();
    assert!(!state.is_running());
    assert!(state.try_acquire());
    assert!(state.is_running());
    assert!(!state.try_acquire());
    state.release();
    assert!(!state.is_running());
    assert!(state.try_acquire());
}

#[test]
fn second_request_rejected_while_running() {
    let mut state = JobState::new();
    let first = state.start_job(&request());
    assert!(first.is_ok());
    let second = state.start_job(&request());
    assert_eq!(second.unwrap_err(), "A job is already running".to_string());
    assert!(state.is_running());
}

#[test]
fn accepted_request_yields_spawn_args() {
    let mut state = JobState::new();
    let args = state.start_job(&request()).unwrap();
    assert_eq!(args[0], "run".to_string());
    assert_eq!(args.len(), 8);
    assert!(state.is_running());
}

#[test]
fn lock_released_after_success() {
    let mut state = JobState::new();
    state.start_job(&request()).unwrap();
    let outcome = state.on_wait_result(WaitResult::Exited(0));
    assert!(!state.is_running());
    assert!(matches!(outcome, JobOutcome::Success { .. }));
}

#[test]
fn lock_released_after_worker_failure() {
    let mut state = JobState::new();
    state.start_job(&request()).unwrap();
    let outcome = state.on_wait_result(WaitResult::Exited(2));
    assert!(!state.is_running());
    assert!(matches!(outcome, JobOutcome::Failure { .. }));
}

#[test]
fn lock_released_after_wait_error() {
    let mut state = JobState::new();
    state.start_job(&request()).unwrap();
    let outcome = state.on_wait_result(WaitResult::WaitFailed);
    assert!(!state.is_running());
    match outcome {
        JobOutcome::Failure { error } => {
            assert_eq!(error, "failed to observe the worker's exit".to_string());
        }
        JobOutcome::Success { .. } => panic!("a wait error must not resolve to success"),
    }
}

#[test]
fn lock_released_after_spawn_failure() {
    let mut state = JobState::new();
    state.start_job(&request()).unwrap();
    let reported = state.on_spawn_failed("No such file or directory".to_string());
    assert_eq!(reported, "No such file or directory".to_string());
    assert!(!state.is_running());
}

#[test]
fn run_can_restart_after_completion() {
    let mut state = JobState::new();
    state.start_job(&request()).unwrap();
    state.on_wait_result(WaitResult::Exited(1));
    let again = state.start_job(&request());
    assert!(again.is_ok());
}

#[test]
fn completion_marker_on_success() {
    let mut state = JobState::new();
    state.start_job(&request()).unwrap();
    match state.on_wait_result(WaitResult::Exited(0)) {
        JobOutcome::Success { marker } => assert_eq!(marker, "Job completed".to_string()),
        JobOutcome::Failure { .. } => panic!("exit status 0 must resolve to success"),
    }
}

#[test]
fn failure_message_includes_status() {
    let mut state = JobState::new();
    state.start_job(&request()).unwrap();
    match state.on_wait_result(WaitResult::Exited(3)) {
        JobOutcome::Failure { error } => {
            assert_eq!(error, "CreatorPack exited with status 3".to_string());
            assert!(error.contains("3"));
        }
        JobOutcome::Success { .. } => panic!("a nonzero exit must resolve to failure"),
    }
}

#[test]
fn failure_message_includes_large_status() {
    let mut state = JobState::new();
    state.start_job(&request()).unwrap();
    match state.on_wait_result(WaitResult::Exited(139)) {
        JobOutcome::Failure { error } => {
            assert_eq!(error, "CreatorPack exited with status 139".to_string());
        }
        JobOutcome::Success { .. } => panic!("a nonzero exit must resolve to failure"),
    }
}
