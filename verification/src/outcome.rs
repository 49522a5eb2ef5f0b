//! How a finished process ended.

use vstd::prelude::*;

verus! {

/// What the operating system reports about a process that has ended.
///
/// `code` is the exit code, where the process exited by itself; `signal` is
/// the number of the signal that ended it, where one did.
#[derive(Clone, Copy, Debug, PartialEq, Eq, Structural)]
pub struct ExitReport {
    pub success: bool,
    pub code: Option<i32>,
    pub signal: Option<i32>,
}

/// The termination of a process: a clean success, an exit code, a signal, or
/// none of these.
#[derive(Clone, Copy, Debug, PartialEq, Eq, Structural)]
pub enum RunResult {
    Success,
    ExitCode(i32),
    Signal(i32),
    Unknown,
}

/// The termination that an exit report stands for: success first, then the
/// exit code, then the signal.
pub open spec fn run_result_of(report: ExitReport) -> RunResult {
    if report.success {
        RunResult::Success
    } else if let Some(code) = report.code {
        RunResult::ExitCode(code)
    } else if let Some(sig) = report.signal {
        RunResult::Signal(sig)
    } else {
        RunResult::Unknown
    }
}

/// The shell-style status number of a termination.
pub open spec fn code_of(result: RunResult) -> i32 {
    match result {
        RunResult::Success => 0i32,
        RunResult::ExitCode(code) => code,
        RunResult::Signal(sig) => sig | 0x80i32,
        RunResult::Unknown => 255i32,
    }
}

impl RunResult {
    /// Derives the termination from what the operating system reported.
    pub fn from_report(report: ExitReport) -> (result: RunResult)
        ensures
            result == run_result_of(report),
    {
        if report.success {
            RunResult::Success
        } else if let Some(code) = report.code {
            RunResult::ExitCode(code)
        } else if let Some(sig) = report.signal {
            RunResult::Signal(sig)
        } else {
            RunResult::Unknown
        }
    }

    /// Whether the process ended cleanly.
    pub fn is_success(&self) -> (ok: bool)
        ensures
            ok == (*self == RunResult::Success),
    {
        match self {
            RunResult::Success => true,
            _ => false,
        }
    }

    /// The status number a shell would show for this termination.
    pub fn as_code(&self) -> (code: i32)
        ensures
            code == code_of(*self),
    {
        match self {
            RunResult::Success => 0,
            RunResult::ExitCode(code) => *code,
            RunResult::Signal(sig) => *sig | 0x80,
            RunResult::Unknown => 255,
        }
    }
}

} // verus!
