//! The verdict model: what a single run of a program produced, why a run
//! could not be judged, and the externally visible result of one test.

use vstd::prelude::*;

verus! {

/// Best-effort resource usage of one run. Time is wall-clock
/// milliseconds; memory is `None` when the run was not measured
/// (unsandboxed runs never measure memory).
#[derive(Debug, Clone, PartialEq, Eq)]
pub struct ExecutionResult {
    pub time_millis: u64,
    pub memory_kilobytes: Option<i64>,
}

/// Why a program's run could not be judged as simply pass/fail.
#[derive(Debug, Clone, PartialEq, Eq)]
pub enum ExecutionError {
    RuntimeError(String),
    TimedOut,
    InvalidOutput,
    MemoryLimitExceeded,
    Sio2jailError(String),
    IncorrectCheckerFormat(String),
}

/// The externally visible verdict for one test case.
#[derive(Debug, Clone, PartialEq, Eq)]
pub enum TestResult {
    Correct { test_name: String },
    Incorrect { test_name: String, error: String },
    ProgramError { test_name: String, error: ExecutionError },
    CheckerError { test_name: String, error: ExecutionError },
    NoOutputFile { test_name: String },
}

/// How waiting on a child process ended, as the spawning side observed
/// it: the wait timed out, the process died of a signal (with the
/// platform's description of the termination), or it exited with a code.
#[derive(Debug, Clone, PartialEq, Eq)]
pub enum WaitEvent {
    TimedOut,
    Signaled { signal: i32, description: String },
    Exited { code: i32 },
}

/// What the worker must do after a run was classified: suspend forever
/// (the harness is being torn down by an interrupt and no verdict may be
/// surfaced), or report the run's resource usage and outcome.
#[derive(Debug, PartialEq, Eq)]
pub enum RunOutcome {
    Suspend,
    Done { result: ExecutionResult, outcome: Result<(), ExecutionError> },
}

} // verus!
