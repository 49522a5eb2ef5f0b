//! The timeout supervisor: one execution of a program under a soft and a hard
//! timeout, from the start of the process to the test result.
//!
//! The caller owns the process and the two workers that feed its input and
//! collect its output. It reports what happens as events; the supervisor
//! answers each event with the next thing to do. The only wait that is
//! bounded by a timeout is the wait for the collected output. The exit status
//! is asked for only after the output has arrived, and at once then; the time
//! of the execution is taken with it, before the expected output is read. A
//! program that is killed at the deadline is waited for until it is gone; the
//! time of such an execution is taken at the kill.

use vstd::prelude::*;
use crate::outcome::{run_result_of, ExitReport, RunResult};
use crate::verdict::{classify, status_of, Elapsed, RunOutcome, TestResult, TestResultView, TestStatus};

verus! {

/// The two timeouts of an execution, in milliseconds, and what is done with
/// the program's error stream.
#[derive(Clone, Copy, Debug, PartialEq, Eq, Structural)]
pub struct Limits {
    /// Past this, an execution is flagged as slow.
    pub soft_timeout: u64,
    /// Past this, the program is killed.
    pub hard_timeout: u64,
    /// Whether the error stream is captured; it is discarded otherwise.
    pub capture_stderr: bool,
}

/// How the work of a feeder or collector ended.
#[derive(Clone, Copy, Debug, PartialEq, Eq, Structural)]
pub enum IoEnd {
    /// All bytes were moved.
    Completed,
    /// The other side had closed the pipe before all bytes were written.
    BrokenPipe,
    /// Any other failure.
    Failed,
}

/// A failure of the harness itself. It is no verdict on the program.
#[derive(Clone, Copy, Debug, PartialEq, Eq, Structural)]
pub enum ExecutionError {
    /// The program could not be started.
    Spawn,
    /// The expected output could not be read.
    ReadExpected,
    /// The exit status could not be obtained.
    Wait,
    /// The program could not be killed.
    Kill,
    /// The worker that feeds the input failed.
    Feeder,
    /// The worker that collects the output failed.
    Collector,
    /// The error stream could not be captured.
    Stderr,
    /// An event was reported that cannot follow the action last asked for.
    OutOfOrder,
}

/// Whether the feeder's work counts as done. A pipe that the program closed
/// early is no failure: a program may stop reading whenever it likes.
pub open spec fn feeder_done(end: IoEnd) -> bool {
    end != IoEnd::Failed
}

/// Whether the collector's work counts as done.
pub open spec fn collector_done(end: IoEnd) -> bool {
    end == IoEnd::Completed
}

/// Whether the feeder's work counts as done.
pub fn feeder_succeeded(end: IoEnd) -> (ok: bool)
    ensures
        ok == feeder_done(end),
        end == IoEnd::BrokenPipe ==> ok,
{
    match end {
        IoEnd::Failed => false,
        _ => true,
    }
}

/// Whether the collector's work counts as done.
pub fn collector_succeeded(end: IoEnd) -> (ok: bool)
    ensures
        ok == collector_done(end),
{
    match end {
        IoEnd::Completed => true,
        _ => false,
    }
}

/// Where an execution stands.
#[derive(Clone, Debug)]
pub enum Stage {
    /// The program was asked to start; its output races the hard deadline.
    Racing,
    /// The output arrived in time; the exit status is being obtained.
    Reaping { actual: Vec<u8> },
    /// The program has ended as given, after the given time; the expected
    /// output is being read.
    Fetching { actual: Vec<u8>, result: RunResult, time: Elapsed },
    /// The deadline came first; the program is being killed.
    Killing,
    /// The program was killed after the given time; it is being waited for.
    Confirming { time: Elapsed },
    /// The verdict is known; the workers are being joined.
    Joining { status: TestStatus, time: Elapsed },
    /// The result was handed out.
    Done,
}

/// A stage as a plain value.
pub enum StageView {
    Racing,
    Reaping { actual: Seq<u8> },
    Fetching { actual: Seq<u8>, result: RunResult, time: Elapsed },
    Killing,
    Confirming { time: Elapsed },
    Joining { status: TestStatus, time: Elapsed },
    Done,
}

impl View for Stage {
    type V = StageView;

    open spec fn view(&self) -> StageView {
        match *self {
            Stage::Racing => StageView::Racing,
            Stage::Reaping { actual } => StageView::Reaping { actual: actual@ },
            Stage::Fetching { actual, result, time } => StageView::Fetching {
                actual: actual@,
                result,
                time,
            },
            Stage::Killing => StageView::Killing,
            Stage::Confirming { time } => StageView::Confirming { time },
            Stage::Joining { status, time } => StageView::Joining { status, time },
            Stage::Done => StageView::Done,
        }
    }
}

/// What the caller observed.
#[derive(Clone, Debug)]
pub enum Event {
    /// The program could not be started.
    SpawnFailed,
    /// The collector delivered the program's whole output before the hard
    /// deadline.
    Output { bytes: Vec<u8> },
    /// The hard deadline passed without output.
    Deadline,
    /// The program was waited for, and its exit status was obtained or could
    /// not be; `time` is the time from the start to this moment.
    Exited { report: Option<ExitReport>, time: Elapsed },
    /// The expected output was read, or could not be.
    Expected { bytes: Option<Vec<u8>> },
    /// The program was killed, or could not be; `time` is the time from the
    /// start to this moment.
    Killed { ok: bool, time: Elapsed },
    /// Both workers have ended; `stderr` is what was captured of the error
    /// stream, where that was asked for and worked.
    Joined { feeder: IoEnd, collector: IoEnd, stderr: Option<Vec<u8>> },
}

/// An event as a plain value.
pub enum EventView {
    SpawnFailed,
    Output { bytes: Seq<u8> },
    Deadline,
    Expected { bytes: Option<Seq<u8>> },
    Exited { report: Option<ExitReport>, time: Elapsed },
    Killed { ok: bool, time: Elapsed },
    Joined { feeder: IoEnd, collector: IoEnd, stderr: Option<Seq<u8>> },
}

/// The bytes of an optional buffer.
pub open spec fn bytes_of(buffer: Option<Vec<u8>>) -> Option<Seq<u8>> {
    match buffer {
        Some(b) => Some(b@),
        None => None,
    }
}

impl View for Event {
    type V = EventView;

    open spec fn view(&self) -> EventView {
        match *self {
            Event::SpawnFailed => EventView::SpawnFailed,
            Event::Output { bytes } => EventView::Output { bytes: bytes@ },
            Event::Deadline => EventView::Deadline,
            Event::Expected { bytes } => EventView::Expected { bytes: bytes_of(bytes) },
            Event::Exited { report, time } => EventView::Exited { report, time },
            Event::Killed { ok, time } => EventView::Killed { ok, time },
            Event::Joined { feeder, collector, stderr } => EventView::Joined {
                feeder,
                collector,
                stderr: bytes_of(stderr),
            },
        }
    }
}

/// What the caller is to do next.
#[derive(Debug)]
pub enum Action {
    /// Note the time, start the program with its input and output piped,
    /// start the feeder and the collector, and wait for the collected output
    /// for at most `hard_timeout` milliseconds. Report `Output`, `Deadline`
    /// or `SpawnFailed`.
    Launch { hard_timeout: u64, capture_stderr: bool },
    /// Wait for the program to end, note the time, and report `Exited`.
    Reap,
    /// Read the expected output and report `Expected`.
    FetchExpected,
    /// Kill the program, note the time, and report `Killed`.
    Kill,
    /// Wait for the workers to end and report `Joined`.
    Join,
    /// The execution is over, with this result.
    Finish(Result<TestResult, ExecutionError>),
}

/// An action as a plain value.
pub enum ActionView {
    Launch { hard_timeout: u64, capture_stderr: bool },
    FetchExpected,
    Reap,
    Kill,
    Join,
    Finish(Result<TestResultView, ExecutionError>),
}

impl View for Action {
    type V = ActionView;

    open spec fn view(&self) -> ActionView {
        match *self {
            Action::Launch { hard_timeout, capture_stderr } => ActionView::Launch {
                hard_timeout,
                capture_stderr,
            },
            Action::FetchExpected => ActionView::FetchExpected,
            Action::Reap => ActionView::Reap,
            Action::Kill => ActionView::Kill,
            Action::Join => ActionView::Join,
            Action::Finish(Ok(result)) => ActionView::Finish(Ok(result@)),
            Action::Finish(Err(e)) => ActionView::Finish(Err(e)),
        }
    }
}

/// The result once the workers have ended: the first failure among feeder,
/// collector and error stream, or else the verdict with its time and the
/// slow flag. A discarded error stream counts as empty.
pub open spec fn concluded(
    limits: Limits,
    status: TestStatus,
    time: Elapsed,
    feeder: IoEnd,
    collector: IoEnd,
    stderr: Option<Seq<u8>>,
) -> Result<TestResultView, ExecutionError> {
    if !feeder_done(feeder) {
        Err(ExecutionError::Feeder)
    } else if !collector_done(collector) {
        Err(ExecutionError::Collector)
    } else if !limits.capture_stderr {
        Ok(
            TestResultView {
                status,
                time,
                timeout: time.millis() >= limits.soft_timeout,
                stderr: Seq::empty(),
            },
        )
    } else {
        match stderr {
            None => Err(ExecutionError::Stderr),
            Some(bytes) => Ok(
                TestResultView {
                    status,
                    time,
                    timeout: time.millis() >= limits.soft_timeout,
                    stderr: bytes,
                },
            ),
        }
    }
}

/// The stage that follows a stage and an event, and the action asked for.
///
/// Output that arrives in time is followed by the wait for the exit status,
/// then by the reading of the expected output, then by the verdict. A
/// deadline that passes first is followed by the kill, then by the wait for
/// the killed program, and the verdict is `Timeout`. The workers are joined
/// last. An event that cannot follow the action asked for ends the
/// execution.
pub open spec fn react(limits: Limits, stage: StageView, event: EventView) -> (StageView, ActionView) {
    match (stage, event) {
        (StageView::Racing, EventView::SpawnFailed) => (
            StageView::Done,
            ActionView::Finish(Err(ExecutionError::Spawn)),
        ),
        (StageView::Racing, EventView::Output { bytes }) => (
            StageView::Reaping { actual: bytes },
            ActionView::Reap,
        ),
        (StageView::Racing, EventView::Deadline) => (StageView::Killing, ActionView::Kill),
        (StageView::Reaping { actual }, EventView::Exited { report: Some(report), time }) => (
            StageView::Fetching { actual, result: run_result_of(report), time },
            ActionView::FetchExpected,
        ),
        (StageView::Reaping { .. }, EventView::Exited { report: None, .. }) => (
            StageView::Done,
            ActionView::Finish(Err(ExecutionError::Wait)),
        ),
        (
            StageView::Fetching { actual, result, time },
            EventView::Expected { bytes: Some(expected) },
        ) => (
            StageView::Joining {
                status: status_of(RunOutcome::Finished(result), actual, expected),
                time,
            },
            ActionView::Join,
        ),
        (StageView::Fetching { .. }, EventView::Expected { bytes: None }) => (
            StageView::Done,
            ActionView::Finish(Err(ExecutionError::ReadExpected)),
        ),
        (StageView::Killing, EventView::Killed { ok: true, time }) => (
            StageView::Confirming { time },
            ActionView::Reap,
        ),
        (StageView::Killing, EventView::Killed { ok: false, .. }) => (
            StageView::Done,
            ActionView::Finish(Err(ExecutionError::Kill)),
        ),
        (StageView::Confirming { time }, EventView::Exited { report: Some(_), .. }) => (
            StageView::Joining { status: TestStatus::Timeout, time },
            ActionView::Join,
        ),
        (StageView::Confirming { .. }, EventView::Exited { report: None, .. }) => (
            StageView::Done,
            ActionView::Finish(Err(ExecutionError::Wait)),
        ),
        (StageView::Joining { status, time }, EventView::Joined { feeder, collector, stderr }) => (
            StageView::Done,
            ActionView::Finish(concluded(limits, status, time, feeder, collector, stderr)),
        ),
        _ => (StageView::Done, ActionView::Finish(Err(ExecutionError::OutOfOrder))),
    }
}

/// Decides the result once the workers have ended.
pub fn conclude(
    limits: Limits,
    status: TestStatus,
    time: Elapsed,
    feeder: IoEnd,
    collector: IoEnd,
    stderr: Option<Vec<u8>>,
) -> (result: Result<TestResult, ExecutionError>)
    ensures
        match result {
            Ok(r) => concluded(limits, status, time, feeder, collector, bytes_of(stderr)) == Ok::<
                TestResultView,
                ExecutionError,
            >(r@),
            Err(e) => concluded(limits, status, time, feeder, collector, bytes_of(stderr)) == Err::<
                TestResultView,
                ExecutionError,
            >(e),
        },
{
    if !feeder_succeeded(feeder) {
        return Err(ExecutionError::Feeder);
    }
    if !collector_succeeded(collector) {
        return Err(ExecutionError::Collector);
    }
    let timeout = time.reached(limits.soft_timeout);
    if !limits.capture_stderr {
        return Ok(TestResult { status, time, timeout, stderr: Vec::new() });
    }
    match stderr {
        None => Err(ExecutionError::Stderr),
        Some(bytes) => Ok(TestResult { status, time, timeout, stderr: bytes }),
    }
}

/// The supervisor of one execution.
#[derive(Clone, Debug)]
pub struct Supervisor {
    limits: Limits,
    stage: Stage,
}

/// A supervisor as a plain value.
pub struct SupervisorView {
    pub limits: Limits,
    pub stage: StageView,
}

impl View for Supervisor {
    type V = SupervisorView;

    closed spec fn view(&self) -> SupervisorView {
        SupervisorView { limits: self.limits, stage: self.stage@ }
    }
}

impl Supervisor {
    /// Begins an execution: the supervisor is racing, and the first action
    /// is to launch the program.
    pub fn new(limits: Limits) -> (start: (Supervisor, Action))
        ensures
            start.0@ == (SupervisorView { limits, stage: StageView::Racing }),
            start.1@ == (ActionView::Launch {
                hard_timeout: limits.hard_timeout,
                capture_stderr: limits.capture_stderr,
            }),
    {
        (
            Supervisor { limits, stage: Stage::Racing },
            Action::Launch {
                hard_timeout: limits.hard_timeout,
                capture_stderr: limits.capture_stderr,
            },
        )
    }

    /// The limits this execution runs under.
    pub fn limits(&self) -> (limits: Limits)
        ensures
            limits == self@.limits,
    {
        self.limits
    }

    /// Whether the execution is over.
    pub fn is_done(&self) -> (done: bool)
        ensures
            done == (self@.stage == StageView::Done),
    {
        match self.stage {
            Stage::Done => true,
            _ => false,
        }
    }

    /// Takes an event and says what to do next.
    pub fn step(&mut self, event: Event) -> (action: Action)
        ensures
            final(self)@.limits == old(self)@.limits,
            final(self)@.stage == react(old(self)@.limits, old(self)@.stage, event@).0,
            action@ == react(old(self)@.limits, old(self)@.stage, event@).1,
    {
        let mut stage = Stage::Done;
        std::mem::swap(&mut self.stage, &mut stage);
        match (stage, event) {
            (Stage::Racing, Event::SpawnFailed) => Action::Finish(Err(ExecutionError::Spawn)),
            (Stage::Racing, Event::Output { bytes }) => {
                self.stage = Stage::Reaping { actual: bytes };
                Action::Reap
            },
            (Stage::Racing, Event::Deadline) => {
                self.stage = Stage::Killing;
                Action::Kill
            },
            (Stage::Reaping { actual }, Event::Exited { report: Some(report), time }) => {
                let result = RunResult::from_report(report);
                self.stage = Stage::Fetching { actual, result, time };
                Action::FetchExpected
            },
            (Stage::Reaping { .. }, Event::Exited { report: None, .. }) => Action::Finish(
                Err(ExecutionError::Wait),
            ),
            (Stage::Fetching { actual, result, time }, Event::Expected { bytes: Some(expected) }) => {
                let outcome = RunOutcome::Finished(result);
                let status = classify(outcome, actual.as_slice(), expected.as_slice());
                self.stage = Stage::Joining { status, time };
                Action::Join
            },
            (Stage::Fetching { .. }, Event::Expected { bytes: None }) => Action::Finish(
                Err(ExecutionError::ReadExpected),
            ),
            (Stage::Killing, Event::Killed { ok: true, time }) => {
                self.stage = Stage::Confirming { time };
                Action::Reap
            },
            (Stage::Killing, Event::Killed { ok: false, .. }) => Action::Finish(
                Err(ExecutionError::Kill),
            ),
            (Stage::Confirming { time }, Event::Exited { report: Some(_), .. }) => {
                self.stage = Stage::Joining { status: TestStatus::Timeout, time };
                Action::Join
            },
            (Stage::Confirming { .. }, Event::Exited { report: None, .. }) => Action::Finish(
                Err(ExecutionError::Wait),
            ),
            (Stage::Joining { status, time }, Event::Joined { feeder, collector, stderr }) => {
                Action::Finish(conclude(self.limits, status, time, feeder, collector, stderr))
            },
            _ => Action::Finish(Err(ExecutionError::OutOfOrder)),
        }
    }
}

/// Which side won the race between the program's output and the hard
/// deadline.
#[derive(Clone, Debug)]
pub enum Race {
    /// The collector delivered the program's whole output in time.
    Output(Vec<u8>),
    /// The hard deadline passed first.
    Deadline,
}

/// A race as a plain value.
pub enum RaceView {
    Output(Seq<u8>),
    Deadline,
}

impl View for Race {
    type V = RaceView;

    open spec fn view(&self) -> RaceView {
        match *self {
            Race::Output(bytes) => RaceView::Output(bytes@),
            Race::Deadline => RaceView::Deadline,
        }
    }
}

/// Everything that was observed of one execution whose program did start.
///
/// `expected` is looked at only where the output won the race, `killed`
/// only where the deadline did.
#[derive(Clone, Debug)]
pub struct Observation {
    /// How the race ended.
    pub race: Race,
    /// The time from the start to the moment at which the exit status was
    /// obtained, where the output won the race, or at which the program was
    /// killed, where the deadline did.
    pub time: Elapsed,
    /// The expected output; `None` where it could not be read.
    pub expected: Option<Vec<u8>>,
    /// The exit report of the program, which is waited for in both cases;
    /// `None` where the exit status could not be obtained.
    pub exit: Option<ExitReport>,
    /// Whether killing the program worked.
    pub killed: bool,
    /// How the feeder ended.
    pub feeder: IoEnd,
    /// How the collector ended.
    pub collector: IoEnd,
    /// The captured error stream; `None` where capturing failed.
    pub stderr: Option<Vec<u8>>,
}

/// An observation as a plain value.
pub struct ObservationView {
    pub race: RaceView,
    pub time: Elapsed,
    pub expected: Option<Seq<u8>>,
    pub exit: Option<ExitReport>,
    pub killed: bool,
    pub feeder: IoEnd,
    pub collector: IoEnd,
    pub stderr: Option<Seq<u8>>,
}

impl View for Observation {
    type V = ObservationView;

    open spec fn view(&self) -> ObservationView {
        ObservationView {
            race: self.race@,
            time: self.time,
            expected: bytes_of(self.expected),
            exit: self.exit,
            killed: self.killed,
            feeder: self.feeder,
            collector: self.collector,
            stderr: bytes_of(self.stderr),
        }
    }
}

/// The result of an execution, given all that was observed of it.
///
/// Where the output won the race, the exit status is obtained, then the
/// expected output read, and the verdict follows from both. Where the
/// deadline won, the program is killed and waited for, and the verdict is
/// `Timeout`; nothing is compared. In both cases the workers are joined last.
pub open spec fn judged(limits: Limits, seen: ObservationView) -> Result<
    TestResultView,
    ExecutionError,
> {
    match seen.race {
        RaceView::Output(actual) => match seen.exit {
            None => Err(ExecutionError::Wait),
            Some(report) => match seen.expected {
                None => Err(ExecutionError::ReadExpected),
                Some(expected) => concluded(
                    limits,
                    status_of(RunOutcome::Finished(run_result_of(report)), actual, expected),
                    seen.time,
                    seen.feeder,
                    seen.collector,
                    seen.stderr,
                ),
            },
        },
        RaceView::Deadline => if !seen.killed {
            Err(ExecutionError::Kill)
        } else if seen.exit is None {
            Err(ExecutionError::Wait)
        } else {
            concluded(
                limits,
                TestStatus::Timeout,
                seen.time,
                seen.feeder,
                seen.collector,
                seen.stderr,
            )
        },
    }
}

/// Judges one execution from all that was observed of it.
pub fn test(limits: Limits, seen: Observation) -> (result: Result<TestResult, ExecutionError>)
    ensures
        match result {
            Ok(r) => judged(limits, seen@) == Ok::<TestResultView, ExecutionError>(r@),
            Err(e) => judged(limits, seen@) == Err::<TestResultView, ExecutionError>(e),
        },
{
    let Observation { race, time, expected, exit, killed, feeder, collector, stderr } = seen;
    match race {
        Race::Output(actual) => {
            let report = match exit {
                None => {
                    return Err(ExecutionError::Wait);
                },
                Some(report) => report,
            };
            let expected = match expected {
                None => {
                    return Err(ExecutionError::ReadExpected);
                },
                Some(bytes) => bytes,
            };
            let outcome = RunOutcome::Finished(RunResult::from_report(report));
            let status = classify(outcome, actual.as_slice(), expected.as_slice());
            conclude(limits, status, time, feeder, collector, stderr)
        },
        Race::Deadline => {
            if !killed {
                return Err(ExecutionError::Kill);
            }
            if exit.is_none() {
                return Err(ExecutionError::Wait);
            }
            conclude(limits, TestStatus::Timeout, time, feeder, collector, stderr)
        },
    }
}

/// The event with which an observation answers an action.
pub open spec fn answer(seen: ObservationView, action: ActionView) -> EventView {
    match action {
        ActionView::Launch { .. } => match seen.race {
            RaceView::Output(bytes) => EventView::Output { bytes },
            RaceView::Deadline => EventView::Deadline,
        },
        ActionView::FetchExpected => EventView::Expected { bytes: seen.expected },
        ActionView::Reap => EventView::Exited { report: seen.exit, time: seen.time },
        ActionView::Kill => EventView::Killed { ok: seen.killed, time: seen.time },
        ActionView::Join => EventView::Joined {
            feeder: seen.feeder,
            collector: seen.collector,
            stderr: seen.stderr,
        },
        ActionView::Finish(_) => EventView::SpawnFailed,
    }
}

/// The last action of a supervisor that is answered from an observation for
/// at most `rounds` rounds.
pub open spec fn driven(
    limits: Limits,
    stage: StageView,
    action: ActionView,
    seen: ObservationView,
    rounds: nat,
) -> ActionView
    decreases rounds,
{
    if rounds == 0 || action is Finish {
        action
    } else {
        let next = react(limits, stage, answer(seen, action));
        driven(limits, next.0, next.1, seen, (rounds - 1) as nat)
    }
}

/// A supervisor that is answered from an observation finishes within four
/// rounds, and with the result that `test` gives for that observation.
pub proof fn lemma_supervisor_agrees_with_test(limits: Limits, seen: ObservationView)
    ensures
        driven(
            limits,
            StageView::Racing,
            ActionView::Launch {
                hard_timeout: limits.hard_timeout,
                capture_stderr: limits.capture_stderr,
            },
            seen,
            4,
        ) == ActionView::Finish(judged(limits, seen)),
{
    reveal_with_fuel(driven, 5);
}

/// Whether the workers of an execution ended so that a result can be given:
/// the feeder wrote everything or met a closed pipe, the collector read
/// everything, and the error stream was captured where that was asked for.
pub open spec fn workers_ended_well(limits: Limits, seen: ObservationView) -> bool {
    feeder_done(seen.feeder) && collector_done(seen.collector) && (limits.capture_stderr
        ==> seen.stderr is Some)
}

/// An execution whose output equals the expected bytes, and whose program
/// ended cleanly before the hard deadline, passes: it has a result wherever
/// the workers ended well, and the verdict is `Pass`.
pub proof fn lemma_equal_output_passes(
    limits: Limits,
    seen: ObservationView,
    bytes: Seq<u8>,
    report: ExitReport,
)
    requires
        seen.race == RaceView::Output(bytes),
        seen.expected == Some(bytes),
        seen.exit == Some(report),
        report.success,
    ensures
        judged(limits, seen) is Ok <==> workers_ended_well(limits, seen),
        judged(limits, seen) matches Ok(r) ==> r.status == TestStatus::Pass,
        status_of(RunOutcome::Finished(RunResult::Success), bytes, bytes) == TestStatus::Pass,
{
}

/// An execution whose program ended before the hard deadline, but not
/// cleanly, is a crash, whatever it printed: it has a result wherever the
/// workers ended well, and the verdict is `Crash`.
pub proof fn lemma_unclean_exit_crashes(
    limits: Limits,
    seen: ObservationView,
    actual: Seq<u8>,
    expected: Seq<u8>,
    report: ExitReport,
)
    requires
        seen.race == RaceView::Output(actual),
        seen.expected == Some(expected),
        seen.exit == Some(report),
        !report.success,
    ensures
        judged(limits, seen) is Ok <==> workers_ended_well(limits, seen),
        judged(limits, seen) matches Ok(r) ==> r.status == TestStatus::Crash(run_result_of(report)),
        status_of(RunOutcome::Finished(run_result_of(report)), actual, expected)
            == TestStatus::Crash(run_result_of(report)),
{
}

/// Where the hard deadline wins the race, the supervisor asks for the kill
/// and then for the wait that shows the program to be gone. A result comes
/// only after both have worked: its verdict is `Timeout`. Neither the
/// expected output nor what the exit status says enters it.
pub proof fn lemma_deadline_kills(limits: Limits, seen: ObservationView, other: ObservationView)
    requires
        seen.race == RaceView::Deadline,
        other == (ObservationView { expected: other.expected, exit: other.exit, ..seen }),
        other.exit is Some == seen.exit is Some,
    ensures
        react(limits, StageView::Racing, EventView::Deadline).1 == ActionView::Kill,
        react(limits, StageView::Killing, EventView::Killed { ok: true, time: seen.time }).1
            == ActionView::Reap,
        judged(limits, seen) is Ok <==> seen.killed && seen.exit is Some && workers_ended_well(
            limits,
            seen,
        ),
        judged(limits, seen) matches Ok(r) ==> r.status == TestStatus::Timeout,
        judged(limits, other) == judged(limits, seen),
{
}

/// Of the executions in which the hard deadline has won the race whenever
/// the measured time has reached the hard timeout: one whose time has
/// reached the hard timeout ends as `Timeout`, with the program killed and
/// gone, and is flagged as slow where the soft timeout is no longer than the
/// hard one.
pub proof fn lemma_hard_timeout_reached(limits: Limits, seen: ObservationView)
    requires
        seen.time.millis() >= limits.hard_timeout ==> seen.race == RaceView::Deadline,
    ensures
        seen.time.millis() >= limits.hard_timeout ==> (judged(limits, seen) matches Ok(r) ==> {
            &&& r.status == TestStatus::Timeout
            &&& seen.killed
            &&& seen.exit is Some
            &&& limits.soft_timeout <= limits.hard_timeout ==> r.timeout
        }),
{
}

/// The slow flag of a result says whether the measured time has reached the
/// soft timeout, whatever the verdict is.
pub proof fn lemma_slow_flag(limits: Limits, seen: ObservationView)
    ensures
        judged(limits, seen) matches Ok(r) ==> {
            &&& r.timeout == (seen.time.millis() >= limits.soft_timeout)
            &&& r.time == seen.time
        },
{
}

/// A pipe that the program closed before the feeder had written everything
/// changes nothing: the result is that of a feeder that wrote everything.
pub proof fn lemma_broken_pipe_tolerated(limits: Limits, seen: ObservationView)
    requires
        seen.feeder == IoEnd::BrokenPipe,
    ensures
        judged(limits, seen) == judged(
            limits,
            ObservationView { feeder: IoEnd::Completed, ..seen },
        ),
        judged(limits, seen) != Err::<TestResultView, ExecutionError>(ExecutionError::Feeder),
{
}

} // verus!
