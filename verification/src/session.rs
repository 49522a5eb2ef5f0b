//! One invocation from the command line: the steps that a subcommand asks
//! for, which test cases are run and in which order, and how the invocation
//! ends.

use vstd::prelude::*;
use vstd::string::*;
use crate::args::{text_of, Subcommand, SubcommandView};
use crate::config::copy_strings;
use crate::order::{order_is_total, ordered, sort_cases};
use crate::repo::ProgramError;
use crate::text::texts;
use crate::verdict::TestResult;

verus! {

/// One step of an invocation. A step that fails ends the invocation.
#[derive(Debug)]
pub enum Step {
    /// Make the skeleton of a repository where the caller stands.
    Init,
    /// Find the root of the repository and read its settings.
    Load,
    /// Settle on a program: the named one, or the one modified last.
    Resolve { program: Option<String> },
    /// Build the program at hand where it is stale, and copy the artifact
    /// to `output` where one is given.
    Build { debug: bool, output: Option<String> },
    /// Run the program at hand with the given arguments.
    Run { args: Vec<String> },
    /// Test the program at hand on the given cases, or on all where none is
    /// given.
    Test { cases: Vec<String> },
    /// Run the program at hand in its debugger.
    Debug,
    /// Delete all build artifacts.
    CleanAll,
    /// Delete the build artifacts of the program at hand.
    Clean,
    /// Write the project file for CMake.
    CMake,
}

/// A step as a plain value.
pub enum StepView {
    Init,
    Load,
    Resolve { program: Option<Seq<char>> },
    Build { debug: bool, output: Option<Seq<char>> },
    Run { args: Seq<Seq<char>> },
    Test { cases: Seq<Seq<char>> },
    Debug,
    CleanAll,
    Clean,
    CMake,
}

impl View for Step {
    type V = StepView;

    open spec fn view(&self) -> StepView {
        match *self {
            Step::Init => StepView::Init,
            Step::Load => StepView::Load,
            Step::Resolve { program } => StepView::Resolve { program: text_of(program) },
            Step::Build { debug, output } => StepView::Build { debug, output: text_of(output) },
            Step::Run { args } => StepView::Run { args: texts(args@) },
            Step::Test { cases } => StepView::Test { cases: texts(cases@) },
            Step::Debug => StepView::Debug,
            Step::CleanAll => StepView::CleanAll,
            Step::Clean => StepView::Clean,
            Step::CMake => StepView::CMake,
        }
    }
}

/// The views of a list of steps.
pub open spec fn step_views(steps: Seq<Step>) -> Seq<StepView> {
    Seq::new(steps.len(), |i: int| steps[i]@)
}

/// The steps that build each of the named programs in turn; the program
/// modified last where none is named.
pub open spec fn build_steps(programs: Seq<Seq<char>>, debug: bool, output: Option<Seq<char>>) -> Seq<
    StepView,
> {
    if programs.len() == 0 {
        seq![StepView::Resolve { program: None }, StepView::Build { debug, output }]
    } else {
        Seq::new(
            2 * programs.len(),
            |i: int|
                if i % 2 == 0 {
                    StepView::Resolve { program: Some(programs[i / 2]) }
                } else {
                    StepView::Build { debug, output }
                },
        )
    }
}

/// The steps of a subcommand. All but `init` begin by loading the
/// repository. A program is built before it is run, tested or debugged: in
/// the release variant to be run or tested, in the debug variant to be
/// debugged.
pub open spec fn steps_of(subcommand: SubcommandView) -> Seq<StepView> {
    match subcommand {
        SubcommandView::Init => seq![StepView::Init],
        SubcommandView::Build { programs, debug, output } => seq![StepView::Load] + build_steps(
            programs,
            debug,
            output,
        ),
        SubcommandView::Run { program, args } => seq![
            StepView::Load,
            StepView::Resolve { program },
            StepView::Build { debug: false, output: None },
            StepView::Run { args },
        ],
        SubcommandView::Test { program, tests } => seq![
            StepView::Load,
            StepView::Resolve { program },
            StepView::Build { debug: false, output: None },
            StepView::Test { cases: tests },
        ],
        SubcommandView::Debug { program } => seq![
            StepView::Load,
            StepView::Resolve { program },
            StepView::Build { debug: true, output: None },
            StepView::Debug,
        ],
        SubcommandView::Clean { program, all } => if all {
            seq![StepView::Load, StepView::CleanAll]
        } else {
            seq![StepView::Load, StepView::Resolve { program }, StepView::Clean]
        },
        SubcommandView::CMake => seq![StepView::Load, StepView::CMake],
    }
}

fn copy_word(word: &Option<String>) -> (copy: Option<String>)
    ensures
        text_of(copy) == text_of(*word),
{
    match word {
        Some(w) => Some(w.clone()),
        None => None,
    }
}

/// The steps of a subcommand, in the order in which they are taken.
pub fn plan(subcommand: &Subcommand) -> (steps: Vec<Step>)
    ensures
        step_views(steps@) == steps_of(subcommand@),
{
    let mut steps: Vec<Step> = Vec::new();
    match subcommand {
        Subcommand::Init => {
            steps.push(Step::Init);
        },
        Subcommand::Build { programs, debug, output } => {
            steps.push(Step::Load);
            if programs.len() == 0 {
                steps.push(Step::Resolve { program: None });
                steps.push(Step::Build { debug: *debug, output: copy_word(output) });
            } else {
                let ghost wanted = build_steps(texts(programs@), *debug, text_of(*output));
                let mut i: usize = 0;
                while i < programs.len()
                    invariant
                        i <= programs@.len(),
                        programs@.len() > 0,
                        wanted == build_steps(texts(programs@), *debug, text_of(*output)),
                        steps@.len() == 1 + 2 * i,
                        steps@[0]@ == StepView::Load,
                        forall|k: int| 0 <= k < 2 * i ==> (#[trigger] steps@[1 + k])@ == wanted[k],
                    decreases programs@.len() - i,
                {
                    steps.push(Step::Resolve { program: Some(programs[i].clone()) });
                    steps.push(Step::Build { debug: *debug, output: copy_word(output) });
                    i = i + 1;
                }
                assert forall|j: int| 0 <= j < steps@.len() implies step_views(steps@)[j]
                    == steps_of(subcommand@)[j] by {
                    if j > 0 {
                        assert(steps@[1 + (j - 1)]@ == wanted[j - 1]);
                    }
                }
            }
            assert(step_views(steps@) =~= steps_of(subcommand@));
        },
        Subcommand::Run { program, args } => {
            steps.push(Step::Load);
            steps.push(Step::Resolve { program: copy_word(program) });
            steps.push(Step::Build { debug: false, output: None });
            steps.push(Step::Run { args: copy_strings(args) });
        },
        Subcommand::Test { program, tests } => {
            steps.push(Step::Load);
            steps.push(Step::Resolve { program: copy_word(program) });
            steps.push(Step::Build { debug: false, output: None });
            steps.push(Step::Test { cases: copy_strings(tests) });
        },
        Subcommand::Debug { program } => {
            steps.push(Step::Load);
            steps.push(Step::Resolve { program: copy_word(program) });
            steps.push(Step::Build { debug: true, output: None });
            steps.push(Step::Debug);
        },
        Subcommand::Clean { program, all } => {
            steps.push(Step::Load);
            if *all {
                steps.push(Step::CleanAll);
            } else {
                steps.push(Step::Resolve { program: copy_word(program) });
                steps.push(Step::Clean);
            }
        },
        Subcommand::CMake => {
            steps.push(Step::Load);
            steps.push(Step::CMake);
        },
    }
    assert(step_views(steps@) =~= steps_of(subcommand@));
    steps
}

/// The cases that a test step runs, in order: the given ones as they were
/// given, or else all the cases that were found, in alphanumeric order. A
/// program without any case cannot be tested on all of them.
///
/// Where the found cases are taken, the result holds just them, each as
/// often as it was found, so that no case is run twice where none was found
/// twice; it is ordered wherever the comparison orders all texts.
pub fn test_queue(given: Vec<String>, found: Vec<String>) -> (queue: Result<
    Vec<String>,
    ProgramError,
>)
    ensures
        given@.len() > 0 ==> queue == Ok::<Vec<String>, ProgramError>(given),
        given@.len() == 0 && found@.len() == 0 ==> queue == Err::<Vec<String>, ProgramError>(
            ProgramError::NoTestCases,
        ),
        given@.len() == 0 && found@.len() > 0 ==> (queue matches Ok(list) && texts(
            list@,
        ).to_multiset() == texts(found@).to_multiset() && (texts(found@).no_duplicates()
            ==> texts(list@).no_duplicates()) && (order_is_total() ==> ordered(texts(list@)))),
{
    if given.len() > 0 {
        Ok(given)
    } else if found.len() == 0 {
        Err(ProgramError::NoTestCases)
    } else {
        Ok(sort_cases(found))
    }
}

/// Whether the first `upto` results have all passed and none was slow.
pub open spec fn all_passed(results: Seq<TestResult>, upto: int) -> bool {
    forall|i: int|
        0 <= i < upto && i < results.len() ==> (#[trigger] results[i]).status
            == crate::verdict::TestStatus::Pass && !results[i].timeout
}

/// Whether a test step has passed: every case has, and none was slow.
pub fn suite_passed(results: &Vec<TestResult>) -> (ok: bool)
    ensures
        ok == all_passed(results@, results@.len() as int),
{
    let mut i: usize = 0;
    while i < results.len()
        invariant
            i <= results@.len(),
            all_passed(results@, i as int),
        decreases results@.len() - i,
    {
        if !results[i].passed() {
            return false;
        }
        i = i + 1;
    }
    true
}

/// How an invocation ended.
#[derive(Clone, Copy, Debug, PartialEq, Eq, Structural)]
pub enum Ending {
    /// All went well.
    Success,
    /// The program that was run did not end cleanly, or a test did not
    /// pass.
    Failure,
    /// A step failed.
    Error,
    /// The command line was not understood.
    Usage,
}

/// The exit code of an ending.
pub open spec fn exit_code_of(ending: Ending) -> i32 {
    match ending {
        Ending::Success => 0i32,
        Ending::Failure => 1i32,
        Ending::Error => 2i32,
        Ending::Usage => 3i32,
    }
}

/// The exit code with which the invocation leaves.
pub fn exit_code(ending: Ending) -> (code: i32)
    ensures
        code == exit_code_of(ending),
{
    match ending {
        Ending::Success => 0,
        Ending::Failure => 1,
        Ending::Error => 2,
        Ending::Usage => 3,
    }
}

/// What follows a step: the next step, or the end of the invocation.
#[derive(Clone, Copy, Debug, PartialEq, Eq, Structural)]
pub enum Progress {
    /// The next step is taken.
    Continue,
    /// The invocation ends, and no further step is taken.
    End(Ending),
}

/// What follows the step behind `done` steps of `count`. A step that failed
/// ends the invocation as an error, whatever steps are left. After a step
/// that worked the next one is taken; after the last one the invocation
/// ends, as a success where `passed` holds and as a failure where not.
pub open spec fn progress_of(count: nat, done: nat, worked: bool, passed: bool) -> Progress {
    if !worked {
        Progress::End(Ending::Error)
    } else if done + 1 < count {
        Progress::Continue
    } else {
        Progress::End(
            if passed {
                Ending::Success
            } else {
                Ending::Failure
            },
        )
    }
}

/// Says what follows a step that was taken behind `done` steps of `count`:
/// `worked` says whether the step could be taken to its end, `passed`
/// whether every program that was run so far ended cleanly and every test
/// passed.
pub fn advance(count: usize, done: usize, worked: bool, passed: bool) -> (next: Progress)
    requires
        done < count,
    ensures
        next == progress_of(count as nat, done as nat, worked, passed),
{
    if !worked {
        Progress::End(Ending::Error)
    } else if done + 1 < count {
        Progress::Continue
    } else {
        Progress::End(conclude(passed))
    }
}

/// The ending of an invocation whose steps were all taken: `passed` says
/// whether the program that was run ended cleanly, or all tests passed.
pub fn conclude(passed: bool) -> (ending: Ending)
    ensures
        ending == if passed {
            Ending::Success
        } else {
            Ending::Failure
        },
{
    if passed {
        Ending::Success
    } else {
        Ending::Failure
    }
}

} // verus!
