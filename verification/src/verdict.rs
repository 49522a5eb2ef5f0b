//! Judging one execution of a program against a test case: the verdict, the
//! time it took, and whether it was slow.

use vstd::prelude::*;
use crate::outcome::RunResult;

verus! {

/// A span of wall-clock time: whole seconds and the nanoseconds beyond them.
#[derive(Clone, Copy, Debug, PartialEq, Eq, Structural)]
pub struct Elapsed {
    pub secs: u64,
    pub nanos: u32,
}

impl Elapsed {
    /// A span is well formed when its nanoseconds stay below one second.
    pub open spec fn wf(self) -> bool {
        self.nanos < 1_000_000_000
    }

    /// The whole milliseconds of the span.
    pub open spec fn millis(self) -> int {
        self.secs * 1000 + self.nanos / 1_000_000
    }

    /// Whether the nanoseconds stay below one second.
    pub fn is_valid(&self) -> (ok: bool)
        ensures
            ok == self.wf(),
    {
        self.nanos < 1_000_000_000
    }

    /// Whether the span has reached a limit given in milliseconds.
    pub fn reached(&self, limit_ms: u64) -> (hit: bool)
        ensures
            hit == (self.millis() >= limit_ms),
    {
        let whole: u128 = self.secs as u128 * 1000;
        let part: u128 = (self.nanos / 1_000_000) as u128;
        whole + part >= limit_ms as u128
    }
}

/// The verdict on one execution.
#[derive(Clone, Copy, Debug, PartialEq, Eq, Structural)]
pub enum TestStatus {
    /// The program ended cleanly and printed exactly the expected bytes.
    Pass,
    /// The program ended cleanly and printed something else.
    Wrong,
    /// The program did not end cleanly.
    Crash(RunResult),
    /// The program was still running at the hard deadline and was killed.
    Timeout,
}

/// How the race between the program's output and the hard deadline ended.
#[derive(Clone, Copy, Debug, PartialEq, Eq, Structural)]
pub enum RunOutcome {
    /// The hard deadline came first.
    TimedOut,
    /// The program closed its output in time and ended as given.
    Finished(RunResult),
}

/// The verdict that belongs to an outcome and the two byte strings.
///
/// A timeout is a timeout whatever was printed. A program that did not end
/// cleanly has crashed whatever it printed. Otherwise the output must equal
/// the expected bytes exactly: no trimming, no leniency on line ends.
pub open spec fn status_of(outcome: RunOutcome, actual: Seq<u8>, expected: Seq<u8>) -> TestStatus {
    match outcome {
        RunOutcome::TimedOut => TestStatus::Timeout,
        RunOutcome::Finished(result) => if result != RunResult::Success {
            TestStatus::Crash(result)
        } else if actual == expected {
            TestStatus::Pass
        } else {
            TestStatus::Wrong
        },
    }
}

/// Whether two byte strings are equal, byte for byte.
pub fn same_bytes(a: &[u8], b: &[u8]) -> (same: bool)
    ensures
        same == (a@ == b@),
{
    if a.len() != b.len() {
        return false;
    }
    let mut i: usize = 0;
    while i < a.len()
        invariant
            a.len() == b.len(),
            i <= a.len(),
            a@.take(i as int) == b@.take(i as int),
        decreases a.len() - i,
    {
        if a[i] != b[i] {
            assert(a@[i as int] != b@[i as int]);
            return false;
        }
        i = i + 1;
        assert(a@.take(i as int) =~= a@.take(i - 1).push(a@[i - 1]));
        assert(b@.take(i as int) =~= b@.take(i - 1).push(b@[i - 1]));
    }
    assert(a@ =~= a@.take(i as int));
    assert(b@ =~= b@.take(i as int));
    true
}

/// Classifies an execution from how it ended and what it printed.
pub fn classify(outcome: RunOutcome, actual: &[u8], expected: &[u8]) -> (status: TestStatus)
    ensures
        status == status_of(outcome, actual@, expected@),
{
    match outcome {
        RunOutcome::TimedOut => TestStatus::Timeout,
        RunOutcome::Finished(result) => {
            if !result.is_success() {
                TestStatus::Crash(result)
            } else if same_bytes(actual, expected) {
                TestStatus::Pass
            } else {
                TestStatus::Wrong
            }
        },
    }
}

/// What one execution of a test case produced.
#[derive(Clone, Debug)]
pub struct TestResult {
    /// The verdict.
    pub status: TestStatus,
    /// The wall-clock time from the start to the moment at which the exit
    /// status was obtained, or the program was killed.
    pub time: Elapsed,
    /// Whether the soft timeout was reached.
    pub timeout: bool,
    /// What the program wrote to its error stream.
    pub stderr: Vec<u8>,
}

/// A test result as a plain value.
pub struct TestResultView {
    pub status: TestStatus,
    pub time: Elapsed,
    pub timeout: bool,
    pub stderr: Seq<u8>,
}

impl View for TestResult {
    type V = TestResultView;

    open spec fn view(&self) -> TestResultView {
        TestResultView {
            status: self.status,
            time: self.time,
            timeout: self.timeout,
            stderr: self.stderr@,
        }
    }
}

impl TestResult {
    /// A result counts as passed when the verdict is `Pass` and the run was
    /// not slow.
    pub fn passed(&self) -> (ok: bool)
        ensures
            ok == (self.status == TestStatus::Pass && !self.timeout),
    {
        match self.status {
            TestStatus::Pass => !self.timeout,
            _ => false,
        }
    }
}

} // verus!
