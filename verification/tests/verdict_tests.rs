use coman::outcome::{ExitReport, RunResult};
use coman::verdict::{classify, same_bytes, Elapsed, RunOutcome, TestResult, TestStatus};

#[test]
fn equal_output_passes() {
    let status = classify(RunOutcome::Finished(RunResult::Success), b"3\n", b"3\n");
    assert_eq!(status, TestStatus::Pass);
}

#[test]
fn extra_newline_is_wrong() {
    let status = classify(RunOutcome::Finished(RunResult::Success), b"3\n\n", b"3\n");
    assert_eq!(status, TestStatus::Wrong);
}

#[test]
fn missing_newline_is_wrong() {
    let status = classify(RunOutcome::Finished(RunResult::Success), b"3", b"3\n");
    assert_eq!(status, TestStatus::Wrong);
}

#[test]
fn exit_code_one_is_a_crash() {
    let status = classify(RunOutcome::Finished(RunResult::ExitCode(1)), b"", b"3\n");
    assert_eq!(status, TestStatus::Crash(RunResult::ExitCode(1)));
}

#[test]
fn crash_even_with_right_output() {
    let status = classify(RunOutcome::Finished(RunResult::Signal(11)), b"3\n", b"3\n");
    assert_eq!(status, TestStatus::Crash(RunResult::Signal(11)));
}

#[test]
fn timeout_whatever_was_printed() {
    assert_eq!(classify(RunOutcome::TimedOut, b"3\n", b"3\n"), TestStatus::Timeout);
    assert_eq!(classify(RunOutcome::TimedOut, b"", b"3\n"), TestStatus::Timeout);
}

#[test]
fn empty_output_matches_empty_expectation() {
    let status = classify(RunOutcome::Finished(RunResult::Success), b"", b"");
    assert_eq!(status, TestStatus::Pass);
}

#[test]
fn bytes_are_compared_one_by_one() {
    assert!(same_bytes(b"abc", b"abc"));
    assert!(!same_bytes(b"abc", b"abd"));
    assert!(!same_bytes(b"abc", b"ab"));
    assert!(!same_bytes(b"", b"a"));
    assert!(same_bytes(b"", b""));
    assert!(!same_bytes(&[0xff, 0x00], &[0xff, 0x01]));
}

#[test]
fn elapsed_reaches_limit_in_milliseconds() {
    let time = Elapsed { secs: 1, nanos: 800_000_000 };
    assert!(time.reached(1500));
    assert!(time.reached(1800));
    assert!(!time.reached(1801));
    assert!(!time.reached(5000));
}

#[test]
fn elapsed_ignores_fractions_of_a_millisecond() {
    let time = Elapsed { secs: 0, nanos: 1_999_999 };
    assert!(time.reached(1));
    assert!(!time.reached(2));
}

#[test]
fn elapsed_does_not_overflow() {
    let time = Elapsed { secs: u64::MAX, nanos: 999_999_999 };
    assert!(time.reached(u64::MAX));
    assert!(time.reached(0));
}

#[test]
fn elapsed_validity() {
    assert!(Elapsed { secs: 0, nanos: 999_999_999 }.is_valid());
    assert!(!Elapsed { secs: 0, nanos: 1_000_000_000 }.is_valid());
}

#[test]
fn passed_needs_pass_and_speed() {
    let fast = TestResult {
        status: TestStatus::Pass,
        time: Elapsed { secs: 0, nanos: 5 },
        timeout: false,
        stderr: vec![],
    };
    assert!(fast.passed());
    let slow = TestResult { timeout: true, ..fast.clone() };
    assert!(!slow.passed());
    let wrong = TestResult { status: TestStatus::Wrong, ..fast.clone() };
    assert!(!wrong.passed());
    let crash = TestResult { status: TestStatus::Crash(RunResult::Unknown), ..fast.clone() };
    assert!(!crash.passed());
    let timeout = TestResult { status: TestStatus::Timeout, timeout: true, ..fast };
    assert!(!timeout.passed());
}

#[test]
fn run_result_from_report() {
    let clean = ExitReport { success: true, code: Some(0), signal: None };
    assert_eq!(RunResult::from_report(clean), RunResult::Success);
    let code = ExitReport { success: false, code: Some(3), signal: None };
    assert_eq!(RunResult::from_report(code), RunResult::ExitCode(3));
    let signal = ExitReport { success: false, code: None, signal: Some(9) };
    assert_eq!(RunResult::from_report(signal), RunResult::Signal(9));
    let nothing = ExitReport { success: false, code: None, signal: None };
    assert_eq!(RunResult::from_report(nothing), RunResult::Unknown);
    let both = ExitReport { success: false, code: Some(2), signal: Some(9) };
    assert_eq!(RunResult::from_report(both), RunResult::ExitCode(2));
}

#[test]
fn run_result_codes() {
    assert_eq!(RunResult::Success.as_code(), 0);
    assert_eq!(RunResult::ExitCode(42).as_code(), 42);
    assert_eq!(RunResult::Signal(9).as_code(), 137);
    assert_eq!(RunResult::Signal(11).as_code(), 139);
    assert_eq!(RunResult::Unknown.as_code(), 255);
}

#[test]
fn only_success_is_success() {
    assert!(RunResult::Success.is_success());
    assert!(!RunResult::ExitCode(0).is_success());
    assert!(!RunResult::Signal(1).is_success());
    assert!(!RunResult::Unknown.is_success());
}
