use coman::args::Subcommand;
use coman::order::sort_cases;
use coman::outcome::RunResult;
use coman::repo::ProgramError;
use coman::session::{
    advance, conclude, exit_code, plan, suite_passed, test_queue, Ending, Progress, Step,
};
use coman::verdict::{Elapsed, TestResult, TestStatus};

fn words(list: &[&str]) -> Vec<String> {
    list.iter().map(|s| s.to_string()).collect()
}

fn result(status: TestStatus, timeout: bool) -> TestResult {
    TestResult { status, time: Elapsed { secs: 0, nanos: 1 }, timeout, stderr: vec![] }
}

#[test]
fn init_is_one_step() {
    let steps = plan(&Subcommand::Init);
    assert_eq!(steps.len(), 1);
    assert!(matches!(steps[0], Step::Init));
}

#[test]
fn build_of_the_latest_program() {
    let steps = plan(&Subcommand::Build { programs: vec![], debug: true, output: None });
    assert_eq!(steps.len(), 3);
    assert!(matches!(steps[0], Step::Load));
    assert!(matches!(&steps[1], Step::Resolve { program: None }));
    assert!(matches!(&steps[2], Step::Build { debug: true, output: None }));
}

#[test]
fn build_of_named_programs() {
    let steps = plan(&Subcommand::Build {
        programs: words(&["a.cpp", "b.cpp"]),
        debug: false,
        output: Some("out".to_string()),
    });
    assert_eq!(steps.len(), 5);
    assert!(matches!(steps[0], Step::Load));
    match &steps[1] {
        Step::Resolve { program } => assert_eq!(program.as_deref(), Some("a.cpp")),
        other => panic!("unexpected step {:?}", other),
    }
    match &steps[2] {
        Step::Build { debug, output } => {
            assert!(!debug);
            assert_eq!(output.as_deref(), Some("out"));
        }
        other => panic!("unexpected step {:?}", other),
    }
    match &steps[3] {
        Step::Resolve { program } => assert_eq!(program.as_deref(), Some("b.cpp")),
        other => panic!("unexpected step {:?}", other),
    }
    assert!(matches!(&steps[4], Step::Build { debug: false, .. }));
}

#[test]
fn run_builds_the_release_first() {
    let steps = plan(&Subcommand::Run { program: Some("a.cpp".to_string()), args: words(&["1"]) });
    assert_eq!(steps.len(), 4);
    assert!(matches!(steps[0], Step::Load));
    assert!(matches!(&steps[1], Step::Resolve { program: Some(_) }));
    assert!(matches!(&steps[2], Step::Build { debug: false, output: None }));
    match &steps[3] {
        Step::Run { args } => assert_eq!(args, &words(&["1"])),
        other => panic!("unexpected step {:?}", other),
    }
}

#[test]
fn test_builds_the_release_first() {
    let steps = plan(&Subcommand::Test { program: None, tests: words(&["2", "1"]) });
    assert_eq!(steps.len(), 4);
    assert!(matches!(&steps[1], Step::Resolve { program: None }));
    assert!(matches!(&steps[2], Step::Build { debug: false, output: None }));
    match &steps[3] {
        Step::Test { cases } => assert_eq!(cases, &words(&["2", "1"])),
        other => panic!("unexpected step {:?}", other),
    }
}

#[test]
fn debug_builds_the_debug_variant_first() {
    let steps = plan(&Subcommand::Debug { program: None });
    assert_eq!(steps.len(), 4);
    assert!(matches!(&steps[2], Step::Build { debug: true, output: None }));
    assert!(matches!(steps[3], Step::Debug));
}

#[test]
fn clean_and_cmake() {
    let all = plan(&Subcommand::Clean { program: Some("a.cpp".to_string()), all: true });
    assert_eq!(all.len(), 2);
    assert!(matches!(all[1], Step::CleanAll));
    let one = plan(&Subcommand::Clean { program: Some("a.cpp".to_string()), all: false });
    assert_eq!(one.len(), 3);
    assert!(matches!(&one[1], Step::Resolve { program: Some(_) }));
    assert!(matches!(one[2], Step::Clean));
    let cmake = plan(&Subcommand::CMake);
    assert_eq!(cmake.len(), 2);
    assert!(matches!(cmake[0], Step::Load));
    assert!(matches!(cmake[1], Step::CMake));
}

#[test]
fn given_cases_are_run_as_given() {
    let queue = test_queue(words(&["10", "2", "10"]), words(&["1", "2"])).unwrap();
    assert_eq!(queue, words(&["10", "2", "10"]));
    let queue = test_queue(words(&["x"]), vec![]).unwrap();
    assert_eq!(queue, words(&["x"]));
}

#[test]
fn found_cases_are_run_in_alphanumeric_order() {
    let queue = test_queue(vec![], words(&["10", "2", "1", "b1", "a10", "a9"])).unwrap();
    assert_eq!(queue, words(&["1", "2", "10", "a9", "a10", "b1"]));
}

#[test]
fn no_case_at_all_is_an_error() {
    assert_eq!(test_queue(vec![], vec![]).unwrap_err(), ProgramError::NoTestCases);
}

#[test]
fn alphanumeric_order_of_names() {
    assert_eq!(
        sort_cases(words(&["shot-2", "shot-1", "shot-11"])),
        words(&["shot-1", "shot-2", "shot-11"])
    );
    assert_eq!(sort_cases(words(&["b", "a", "b", "a"])), words(&["a", "a", "b", "b"]));
    assert_eq!(sort_cases(words(&["01", "1", "001"])), words(&["1", "01", "001"]));
    assert!(sort_cases(vec![]).is_empty());
    assert_eq!(sort_cases(words(&["only"])), words(&["only"]));
    assert_eq!(
        sort_cases(words(&["case100", "case20", "case3", "case"])),
        words(&["case", "case3", "case20", "case100"])
    );
}

#[test]
fn suite_passes_only_if_every_case_does() {
    assert!(suite_passed(&vec![]));
    assert!(suite_passed(&vec![result(TestStatus::Pass, false), result(TestStatus::Pass, false)]));
    assert!(!suite_passed(&vec![result(TestStatus::Pass, false), result(TestStatus::Wrong, false)]));
    assert!(!suite_passed(&vec![result(TestStatus::Pass, true)]));
    assert!(!suite_passed(&vec![
        result(TestStatus::Crash(RunResult::ExitCode(1)), false),
        result(TestStatus::Pass, false),
    ]));
    assert!(!suite_passed(&vec![result(TestStatus::Timeout, true)]));
}

#[test]
fn exit_codes() {
    assert_eq!(exit_code(Ending::Success), 0);
    assert_eq!(exit_code(Ending::Failure), 1);
    assert_eq!(exit_code(Ending::Error), 2);
    assert_eq!(exit_code(Ending::Usage), 3);
    assert_eq!(conclude(true), Ending::Success);
    assert_eq!(conclude(false), Ending::Failure);
}

#[test]
fn a_failed_step_ends_the_invocation_as_an_error() {
    assert_eq!(advance(4, 0, false, true), Progress::End(Ending::Error));
    assert_eq!(advance(4, 2, false, true), Progress::End(Ending::Error));
    assert_eq!(advance(4, 3, false, false), Progress::End(Ending::Error));
    assert_eq!(advance(1, 0, false, true), Progress::End(Ending::Error));
}

#[test]
fn steps_are_taken_until_the_last_has_worked() {
    assert_eq!(advance(4, 0, true, true), Progress::Continue);
    assert_eq!(advance(4, 2, true, true), Progress::Continue);
    assert_eq!(advance(4, 2, true, false), Progress::Continue);
    assert_eq!(advance(4, 3, true, true), Progress::End(Ending::Success));
    assert_eq!(advance(4, 3, true, false), Progress::End(Ending::Failure));
    assert_eq!(advance(1, 0, true, true), Progress::End(Ending::Success));
    assert_eq!(advance(usize::MAX, usize::MAX - 1, true, true), Progress::End(Ending::Success));
}

#[test]
fn found_cases_without_a_case_twice_are_run_once_each() {
    let queue = test_queue(vec![], words(&["b", "a", "c"])).unwrap();
    assert_eq!(queue, words(&["a", "b", "c"]));
}
