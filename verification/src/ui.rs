//! What the user is told: the line that announces a test case, the line
//! that reports its result, and the lines shown of what a program wrote to
//! its error stream. Nothing here prints; the texts are handed to the
//! caller.

use vstd::prelude::*;
use vstd::string::*;
use crate::outcome::RunResult;
use crate::render::{decimal, signed_decimal, to_decimal, to_signed_decimal, to_zero_filled, zero_filled};
use crate::text::glue;
use crate::verdict::{Elapsed, TestResult, TestStatus};

verus! {

/// How a termination is named.
pub open spec fn run_result_text(result: RunResult) -> Seq<char> {
    match result {
        RunResult::Success => "success"@,
        RunResult::ExitCode(code) => "exit code "@ + signed_decimal(code as int),
        RunResult::Signal(sig) => if sig == 6 {
            "signal ABRT (Aborted)"@
        } else if sig == 8 {
            "signal FPE (Floating point exception)"@
        } else if sig == 9 {
            "signal KILL (Killed)"@
        } else if sig == 11 {
            "signal SEGV (Segmentation fault)"@
        } else {
            "signal "@ + signed_decimal(sig as int)
        },
        RunResult::Unknown => "unknown exit status"@,
    }
}

/// Names a termination. The four signals that a contest program is most
/// often ended by are named in words.
pub fn describe(result: RunResult) -> (text: String)
    ensures
        text@ == run_result_text(result),
{
    match result {
        RunResult::Success => String::from_str("success"),
        RunResult::ExitCode(code) => glue("exit code ", to_signed_decimal(code).as_str()),
        RunResult::Signal(sig) => {
            if sig == 6 {
                String::from_str("signal ABRT (Aborted)")
            } else if sig == 8 {
                String::from_str("signal FPE (Floating point exception)")
            } else if sig == 9 {
                String::from_str("signal KILL (Killed)")
            } else if sig == 11 {
                String::from_str("signal SEGV (Segmentation fault)")
            } else {
                glue("signal ", to_signed_decimal(sig).as_str())
            }
        },
        RunResult::Unknown => String::from_str("unknown exit status"),
    }
}

/// The line that tells of a termination that was not clean.
pub open spec fn run_result_line(result: RunResult) -> Option<Seq<char>> {
    if result == RunResult::Success {
        None
    } else {
        Some("--- process completed with "@ + run_result_text(result) + " ---"@)
    }
}

/// The line that tells of a termination, where it was not clean; a clean
/// one is passed over in silence.
pub fn print_run_result(result: RunResult) -> (line: Option<String>)
    ensures
        match line {
            Some(l) => run_result_line(result) == Some(l@),
            None => run_result_line(result) is None,
        },
{
    if result.is_success() {
        None
    } else {
        let mut line = glue("--- process completed with ", describe(result).as_str());
        line.append(" ---");
        Some(line)
    }
}

/// The text that announces a test case: the word `TEST` in bold, set to the
/// right in eight columns, then the case and a colon.
pub open spec fn test_case_text(case: Seq<char>) -> Seq<char> {
    "\x1b[1m    TEST\x1b[m "@ + case + ": "@
}

/// The text that announces a test case, before its result is known.
pub fn print_test_case(case: &str) -> (text: String)
    ensures
        text@ == test_case_text(case@),
{
    let mut text = glue("\x1b[1m    TEST\x1b[m ", case);
    text.append(": ");
    text
}

/// The whole milliseconds of a span beyond its whole seconds.
pub open spec fn subsec_millis(time: Elapsed) -> nat {
    (time.nanos / 1_000_000) as nat
}

/// The whole microseconds of a span beyond its whole milliseconds.
pub open spec fn subsec_micros(time: Elapsed) -> nat {
    ((time.nanos / 1000) % 1000) as nat
}

/// A span of time as it is shown, with about three digits: whole seconds
/// from a hundred seconds on, tenths from ten seconds on, hundredths from
/// one second on, and milliseconds in the same way below that.
pub open spec fn time_text(time: Elapsed) -> Seq<char> {
    let seconds = time.secs as nat;
    let millis = subsec_millis(time);
    let micros = subsec_micros(time);
    if seconds >= 100 {
        decimal(seconds) + " s"@
    } else if seconds >= 10 {
        decimal(seconds) + "."@ + decimal(millis / 100) + " s"@
    } else if seconds >= 1 {
        decimal(seconds) + "."@ + zero_filled(decimal(millis / 10), 2) + " s"@
    } else if millis >= 100 {
        decimal(millis) + " ms"@
    } else if millis >= 10 {
        decimal(millis) + "."@ + decimal(micros / 100) + " ms"@
    } else if millis >= 1 {
        decimal(millis) + "."@ + zero_filled(decimal(micros / 10), 2) + " ms"@
    } else {
        "0."@ + zero_filled(decimal(micros), 3) + " ms"@
    }
}

fn with_fraction(whole: u64, fraction: String, unit: &str) -> (text: String)
    ensures
        text@ == decimal(whole as nat) + "."@ + fraction@ + unit@,
{
    let mut text = to_decimal(whole);
    text.append(".");
    text.append(fraction.as_str());
    text.append(unit);
    text
}

/// Shows a span of time.
pub fn format_time(time: Elapsed) -> (text: String)
    ensures
        text@ == time_text(time),
{
    let seconds: u64 = time.secs;
    let millis: u64 = (time.nanos / 1_000_000) as u64;
    let micros: u64 = ((time.nanos / 1000) % 1000) as u64;
    if seconds >= 100 {
        let mut text = to_decimal(seconds);
        text.append(" s");
        text
    } else if seconds >= 10 {
        with_fraction(seconds, to_decimal(millis / 100), " s")
    } else if seconds >= 1 {
        with_fraction(seconds, to_zero_filled(millis / 10, 2), " s")
    } else if millis >= 100 {
        let mut text = to_decimal(millis);
        text.append(" ms");
        text
    } else if millis >= 10 {
        with_fraction(millis, to_decimal(micros / 100), " ms")
    } else if millis >= 1 {
        with_fraction(millis, to_zero_filled(micros / 10, 2), " ms")
    } else {
        let mut text = String::from_str("0.");
        text.append(to_zero_filled(micros, 3).as_str());
        text.append(" ms");
        text
    }
}

/// The word for a verdict, in its colour.
pub open spec fn status_text(status: TestStatus) -> Seq<char> {
    match status {
        TestStatus::Pass => "\x1b[1;32mpass\x1b[m"@,
        TestStatus::Wrong => "\x1b[1;31mwrong\x1b[m"@,
        TestStatus::Crash(_) => "\x1b[1;31mcrash\x1b[m"@,
        TestStatus::Timeout => "\x1b[1;33mtimeout\x1b[m"@,
    }
}

/// The mark of a run that was slow though it was not killed.
pub open spec fn slow_text(status: TestStatus, slow: bool) -> Seq<char> {
    if slow && status != TestStatus::Timeout {
        "-\x1b[1;33mtimeout\x1b[m"@
    } else {
        Seq::empty()
    }
}

/// The line that reports a result: the verdict, the mark of a slow run, and
/// the time.
pub open spec fn result_line(status: TestStatus, slow: bool, time: Elapsed) -> Seq<char> {
    status_text(status) + slow_text(status, slow) + " "@ + time_text(time)
}

/// The line that reports the result of a test case.
pub fn format_result(status: TestStatus, slow: bool, time: Elapsed) -> (line: String)
    ensures
        line@ == result_line(status, slow, time),
{
    let mut line = match status {
        TestStatus::Pass => String::from_str("\x1b[1;32mpass\x1b[m"),
        TestStatus::Wrong => String::from_str("\x1b[1;31mwrong\x1b[m"),
        TestStatus::Crash(_) => String::from_str("\x1b[1;31mcrash\x1b[m"),
        TestStatus::Timeout => String::from_str("\x1b[1;33mtimeout\x1b[m"),
    };
    let timed_out = match status {
        TestStatus::Timeout => true,
        _ => false,
    };
    if slow && !timed_out {
        line.append("-\x1b[1;33mtimeout\x1b[m");
    } else {
        assert(line@ + Seq::<char>::empty() =~= line@);
    }
    line.append(" ");
    line.append(format_time(time).as_str());
    line
}

/// Where the line ends that begins at `i`: at the next line feed, or at the
/// end of the bytes.
pub open spec fn line_end(bytes: Seq<u8>, i: int) -> int
    decreases bytes.len() - i,
{
    if i < 0 || i >= bytes.len() || bytes[i] == 10u8 {
        i
    } else {
        line_end(bytes, i + 1)
    }
}

/// A line ends at or behind its beginning, and inside the bytes or at their
/// end.
pub proof fn lemma_line_end_bounds(bytes: Seq<u8>, i: int)
    requires
        0 <= i <= bytes.len(),
    ensures
        i <= line_end(bytes, i) <= bytes.len(),
    decreases bytes.len() - i,
{
    if i < bytes.len() && bytes[i] != 10u8 {
        lemma_line_end_bounds(bytes, i + 1);
    }
}

/// The line between `from` and `to`, without the carriage return that
/// stands before its line feed, where there is one of each.
pub open spec fn line_between(bytes: Seq<u8>, from: int, to: int) -> Seq<u8> {
    if to < bytes.len() && from < to && bytes[to - 1] == 13u8 {
        bytes.subrange(from, to - 1)
    } else {
        bytes.subrange(from, to)
    }
}

/// The lines of the bytes from position `i` on. A line ends with a line
/// feed, or with the bytes; the last line feed begins no further line.
pub open spec fn lines_from(bytes: Seq<u8>, i: int) -> Seq<Seq<u8>>
    decreases bytes.len() + 1 - i,
{
    if i < 0 || i >= bytes.len() {
        Seq::empty()
    } else {
        proof {
            lemma_line_end_bounds(bytes, i);
        }
        seq![line_between(bytes, i, line_end(bytes, i))] + lines_from(
            bytes,
            line_end(bytes, i) + 1,
        )
    }
}

/// The lines of the bytes.
pub open spec fn lines_of(bytes: Seq<u8>) -> Seq<Seq<u8>> {
    lines_from(bytes, 0)
}

/// The contents of a list of byte strings.
pub open spec fn contents(list: Seq<Vec<u8>>) -> Seq<Seq<u8>> {
    Seq::new(list.len(), |i: int| list[i]@)
}

/// Splits bytes into lines.
pub fn split_lines(data: &[u8]) -> (lines: Vec<Vec<u8>>)
    ensures
        contents(lines@) == lines_of(data@),
{
    let n = data.len();
    let mut lines: Vec<Vec<u8>> = Vec::new();
    let mut i: usize = 0;
    assert(contents(lines@) =~= Seq::<Seq<u8>>::empty());
    while i < n
        invariant_except_break
            contents(lines@) + lines_from(data@, i as int) == lines_of(data@),
        invariant
            n == data@.len(),
            i <= n,
        ensures
            contents(lines@) + lines_from(data@, n as int) == lines_of(data@),
        decreases n - i,
    {
        let start = i;
        while i < n && data[i] != 10u8
            invariant
                n == data@.len(),
                start <= i <= n,
                line_end(data@, i as int) == line_end(data@, start as int),
            decreases n - i,
        {
            i = i + 1;
        }
        assert(line_end(data@, start as int) == i);
        let stop: usize = if i < n && start < i && data[i - 1] == 13u8 {
            i - 1
        } else {
            i
        };
        let mut line: Vec<u8> = Vec::new();
        let mut k: usize = start;
        while k < stop
            invariant
                start <= k <= stop <= n,
                n == data@.len(),
                line@ == data@.subrange(start as int, k as int),
            decreases stop - k,
        {
            line.push(data[k]);
            k = k + 1;
            assert(line@ =~= data@.subrange(start as int, k as int));
        }
        proof {
            assert(line@ == line_between(data@, start as int, i as int));
            let before = contents(lines@);
            let after = contents(lines@.push(line));
            assert(after =~= before + seq![line@]);
            assert(after + lines_from(data@, i + 1) =~= before + lines_from(data@, start as int));
        }
        lines.push(line);
        if i == n {
            assert(lines_from(data@, n + 1) =~= lines_from(data@, n as int));
            break;
        }
        i = i + 1;
    }
    assert(lines_from(data@, n as int) =~= Seq::<Seq<u8>>::empty());
    assert(contents(lines@) + Seq::<Seq<u8>>::empty() =~= contents(lines@));
    lines
}

/// What is shown of a text of many lines: the lines that are shown, and the
/// number of those that are not.
#[derive(Debug)]
pub struct Excerpt {
    pub header: String,
    pub shown: Vec<Vec<u8>>,
    pub hidden: usize,
}

/// An excerpt as a plain value.
pub struct ExcerptView {
    pub header: Seq<char>,
    pub shown: Seq<Seq<u8>>,
    pub hidden: nat,
}

impl View for Excerpt {
    type V = ExcerptView;

    open spec fn view(&self) -> ExcerptView {
        ExcerptView {
            header: self.header@,
            shown: contents(self.shown@),
            hidden: self.hidden as nat,
        }
    }
}

/// What is shown of some bytes in at most `limit` lines on the screen: all
/// their lines where these are no more than `limit`, else all but one of
/// `limit` lines, the last line of the screen being kept to say how many
/// are left out. Nothing is shown of bytes without a line.
pub open spec fn excerpt_of(header: Seq<char>, bytes: Seq<u8>, limit: nat) -> Option<ExcerptView>
    recommends
        limit >= 1,
{
    let lines = lines_of(bytes);
    if lines.len() == 0 {
        None
    } else if lines.len() <= limit {
        Some(ExcerptView { header: "--- "@ + header + " ---"@, shown: lines, hidden: 0 })
    } else {
        Some(
            ExcerptView {
                header: "--- "@ + header + " ---"@,
                shown: lines.take(limit - 1),
                hidden: (lines.len() - (limit - 1)) as nat,
            },
        )
    }
}

/// Chooses what to show of some bytes in at most `limit` lines.
pub fn print_n_lines(header: &str, data: &[u8], limit: usize) -> (excerpt: Option<Excerpt>)
    requires
        limit >= 1,
    ensures
        match excerpt {
            Some(e) => excerpt_of(header@, data@, limit as nat) == Some(e@),
            None => excerpt_of(header@, data@, limit as nat) is None,
        },
{
    let mut lines = split_lines(data);
    let total = lines.len();
    if total == 0 {
        return None;
    }
    let mut title = glue("--- ", header);
    title.append(" ---");
    if total <= limit {
        Some(Excerpt { header: title, shown: lines, hidden: 0 })
    } else {
        let ghost all = contents(lines@);
        lines.truncate(limit - 1);
        assert(contents(lines@) =~= all.take(limit - 1));
        Some(Excerpt { header: title, shown: lines, hidden: total - (limit - 1) })
    }
}

/// All that is told of the result of a test case.
#[derive(Debug)]
pub struct Report {
    /// The line with verdict and time.
    pub line: String,
    /// What is shown of the error stream.
    pub stderr: Option<Excerpt>,
    /// The line that tells how a crashed program ended.
    pub crash: Option<String>,
}

/// A report as a plain value.
pub struct ReportView {
    pub line: Seq<char>,
    pub stderr: Option<ExcerptView>,
    pub crash: Option<Seq<char>>,
}

impl View for Report {
    type V = ReportView;

    open spec fn view(&self) -> ReportView {
        ReportView {
            line: self.line@,
            stderr: match self.stderr {
                Some(e) => Some(e@),
                None => None,
            },
            crash: match self.crash {
                Some(c) => Some(c@),
                None => None,
            },
        }
    }
}

/// The report on a result. The error stream is shown, in at most twelve
/// lines, unless the test has passed in time; how the program ended is told
/// where it has crashed.
pub open spec fn report_of(
    status: TestStatus,
    slow: bool,
    time: Elapsed,
    stderr: Seq<u8>,
) -> ReportView {
    ReportView {
        line: result_line(status, slow, time),
        stderr: if status == TestStatus::Pass && !slow {
            None
        } else {
            excerpt_of("captured stderr"@, stderr, 12)
        },
        crash: match status {
            TestStatus::Crash(result) => run_result_line(result),
            _ => None,
        },
    }
}

/// Puts together what is told of the result of a test case.
pub fn print_test_result(result: &TestResult) -> (report: Report)
    ensures
        report@ == report_of(result.status, result.timeout, result.time, result.stderr@),
{
    let line = format_result(result.status, result.timeout, result.time);
    let stderr = if result.passed() {
        None
    } else {
        print_n_lines("captured stderr", result.stderr.as_slice(), 12)
    };
    let crash = match result.status {
        TestStatus::Crash(run_result) => print_run_result(run_result),
        _ => None,
    };
    Report { line, stderr, crash }
}

} // verus!
