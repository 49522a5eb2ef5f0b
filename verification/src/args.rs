//! The command line: which subcommand is asked for, with which options and
//! which further arguments.
//!
//! The words of the command line are told apart by the `getargs` crate: what
//! is an option, what is the value of an option, what is a plain argument.
//! This module says what the crate answers for which words, as far as its
//! callers rely on it, and decides what the options and arguments mean.

use vstd::prelude::*;
use vstd::string::*;
use crate::text::{same_text, texts};

verus! {

/// A scanner over the words of a command line. It holds a
/// `getargs::Options` over the words as string slices.
#[verifier::external_body]
pub struct Scanner<'a> {
    options: getargs::Options<&'a str, std::vec::IntoIter<&'a str>>,
}

/// The words that the scanner has not used yet, in order.
pub uninterp spec fn upcoming(scanner: Scanner) -> Seq<Seq<char>>;

/// Whether the scanner has just handed out an option: only then may the
/// value of an option be asked for, and only otherwise a plain argument.
pub uninterp spec fn pending(scanner: Scanner) -> bool;

/// Whether the option handed out last stood before a `=` in its word; false
/// where no option was handed out last.
pub uninterp spec fn valued(scanner: Scanner) -> bool;

/// What is left of the word that the option handed out last came from: the
/// value behind the `=`, or the rest of a cluster of short options. It is
/// empty where the word is used up, and where no option was handed out
/// last.
pub uninterp spec fn attached(scanner: Scanner) -> Seq<char>;

/// What a scanner holds, as plain values.
pub struct ScanView {
    /// The words not used yet.
    pub words: Seq<Seq<char>>,
    /// Whether an option was handed out last.
    pub pending: bool,
    /// Whether that option stood before a `=`.
    pub valued: bool,
    /// What is left of the word of that option.
    pub attached: Seq<char>,
}

/// What a scanner holds.
pub open spec fn scan_view(scanner: Scanner) -> ScanView {
    ScanView {
        words: upcoming(scanner),
        pending: pending(scanner),
        valued: valued(scanner),
        attached: attached(scanner),
    }
}

/// A scanner between two words, with these words left.
pub open spec fn ready(words: Seq<Seq<char>>) -> ScanView {
    ScanView { words, pending: false, valued: false, attached: Seq::empty() }
}

/// A scanner that has just handed out an option.
pub open spec fn opened(words: Seq<Seq<char>>, valued: bool, attached: Seq<char>) -> ScanView {
    ScanView { words, pending: true, valued, attached }
}

/// An option: short as in `-d`, or long as in `--debug`; both without the
/// dashes.
#[derive(Clone, Debug)]
pub enum Opt {
    Short(char),
    Long(String),
}

/// An option as a plain value.
pub enum OptView {
    Short(char),
    Long(Seq<char>),
}

impl View for Opt {
    type V = OptView;

    open spec fn view(&self) -> OptView {
        match *self {
            Opt::Short(c) => OptView::Short(c),
            Opt::Long(name) => OptView::Long(name@),
        }
    }
}

/// What a scanner answers when it is asked for an option.
pub enum Answer {
    /// The next option.
    Option(OptView),
    /// No option comes next.
    NoOption,
    /// The option before came with a value that was not taken.
    Refused,
}

/// Where the first `=` of a text stands; the length of the text where it
/// has none.
pub open spec fn first_equals(text: Seq<char>) -> int
    decreases text.len(),
{
    if text.len() == 0 || text[0] == '=' {
        0
    } else {
        1 + first_equals(text.skip(1))
    }
}

/// What a scanner answers when it is asked for an option, and what it holds
/// then.
///
/// In a cluster of short options the next character is the next option. A
/// value behind `=` that was not taken is refused. Between two words the
/// next word decides: `--` ends the options and is dropped; two dashes and
/// more are a long option, whose name ends at the first `=`; one dash and
/// more is a short option, or a cluster of them; any other word is no
/// option and stays.
pub open spec fn after_opt(scan: ScanView) -> (Answer, ScanView) {
    if scan.pending && scan.valued {
        (Answer::Refused, ready(scan.words))
    } else if scan.pending && scan.attached.len() > 0 {
        (
            Answer::Option(OptView::Short(scan.attached[0])),
            opened(scan.words, false, scan.attached.skip(1)),
        )
    } else if scan.words.len() == 0 {
        (Answer::NoOption, ready(scan.words))
    } else {
        let word = scan.words[0];
        let rest = scan.words.skip(1);
        if word.len() < 2 || word[0] != '-' {
            (Answer::NoOption, ready(scan.words))
        } else if word[1] != '-' {
            (Answer::Option(OptView::Short(word[1])), opened(rest, false, word.skip(2)))
        } else if word.len() == 2 {
            (Answer::NoOption, ready(rest))
        } else {
            let body = word.skip(2);
            let cut = first_equals(body);
            if cut < body.len() {
                (
                    Answer::Option(OptView::Long(body.take(cut))),
                    opened(rest, true, body.skip(cut + 1)),
                )
            } else {
                (Answer::Option(OptView::Long(body)), opened(rest, false, Seq::empty()))
            }
        }
    }
}

/// The value of the option that a scanner handed out last, if there is
/// one, and what the scanner holds then: what is left of the word of the
/// option, or else the next word.
pub open spec fn after_value(scan: ScanView) -> (Option<Seq<char>>, ScanView) {
    if scan.valued || scan.attached.len() > 0 {
        (Some(scan.attached), ready(scan.words))
    } else if scan.words.len() > 0 {
        (Some(scan.words[0]), ready(scan.words.skip(1)))
    } else {
        (None, ready(scan.words))
    }
}

/// The next word as a plain argument, if one is left, and what the scanner
/// holds then.
pub open spec fn after_positional(scan: ScanView) -> (Option<Seq<char>>, ScanView) {
    if scan.words.len() > 0 {
        (Some(scan.words[0]), ready(scan.words.skip(1)))
    } else {
        (None, ready(scan.words))
    }
}

/// Makes a scanner over the words of a command line, by
/// `getargs::Options::new`. A new scanner holds all the words and has
/// handed out no option.
#[verifier::external_body]
fn scan<'a>(words: &'a Vec<String>) -> (scanner: Scanner<'a>)
    ensures
        upcoming(scanner) == texts(words@),
        !pending(scanner),
        !valued(scanner),
        attached(scanner).len() == 0,
{
    let list: Vec<&'a str> = words.iter().map(String::as_str).collect();
    Scanner { options: getargs::Options::new(list.into_iter()) }
}

/// Calls `getargs::Options::next_opt`: the next option, `None` where the
/// next word is no option or no word is left, or the message of the error
/// where the option before was given a value that nobody asked for. What
/// comes back for which words, and what the scanner holds then, is what
/// `after_opt` says.
#[verifier::external_body]
fn next_opt<'a>(scanner: &mut Scanner<'a>) -> (opt: Result<Option<Opt>, String>)
    ensures
        match opt {
            Ok(Some(o)) => after_opt(scan_view(*old(scanner))).0 == Answer::Option(o@),
            Ok(None) => after_opt(scan_view(*old(scanner))).0 == Answer::NoOption,
            Err(_) => after_opt(scan_view(*old(scanner))).0 == Answer::Refused,
        },
        scan_view(*final(scanner)) == after_opt(scan_view(*old(scanner))).1,
{
    match scanner.options.next_opt() {
        Ok(Some(getargs::Opt::Short(c))) => Ok(Some(Opt::Short(c))),
        Ok(Some(getargs::Opt::Long(name))) => Ok(Some(Opt::Long(name.to_string()))),
        Ok(None) => Ok(None),
        Err(e) => Err(e.to_string()),
    }
}

/// Calls `getargs::Options::value`: the value of the option that was handed
/// out last, or the message of the error where there is none. It may be
/// called only where an option was handed out last. What comes back, and
/// what the scanner holds then, is what `after_value` says.
#[verifier::external_body]
fn value<'a>(scanner: &mut Scanner<'a>) -> (text: Result<String, String>)
    requires
        pending(*old(scanner)),
    ensures
        match text {
            Ok(t) => after_value(scan_view(*old(scanner))).0 == Some(t@),
            Err(_) => after_value(scan_view(*old(scanner))).0 is None,
        },
        scan_view(*final(scanner)) == after_value(scan_view(*old(scanner))).1,
{
    match scanner.options.value() {
        Ok(text) => Ok(text.to_string()),
        Err(e) => Err(e.to_string()),
    }
}

/// Calls `getargs::Options::next_positional`: the next word as a plain
/// argument, if one is left. It may not be called where an option was
/// handed out last.
#[verifier::external_body]
fn next_positional<'a>(scanner: &mut Scanner<'a>) -> (word: Option<String>)
    requires
        !pending(*old(scanner)),
    ensures
        text_of(word) == after_positional(scan_view(*old(scanner))).0,
        scan_view(*final(scanner)) == after_positional(scan_view(*old(scanner))).1,
{
    match scanner.options.next_positional() {
        Some(word) => Some(word.to_string()),
        None => None,
    }
}

/// Collects `getargs::Options::positionals`: all the words that are left,
/// as plain arguments. It may not be called where an option was handed out
/// last, and leaves no word.
#[verifier::external_body]
fn positionals<'a>(scanner: &mut Scanner<'a>) -> (rest: Vec<String>)
    requires
        !pending(*old(scanner)),
    ensures
        texts(rest@) == upcoming(*old(scanner)),
        scan_view(*final(scanner)) == ready(Seq::empty()),
{
    scanner.options.positionals().map(str::to_string).collect()
}

/// Why a command line was not understood, or was answered at once.
#[derive(Clone, Debug)]
pub enum UsageError {
    /// Help was asked for.
    Help,
    /// The version was asked for.
    Version,
    /// The words could not be told apart; the message says why.
    Getargs(String),
    /// An option that is not known here.
    UnknownOpt(Opt),
    /// A subcommand that is not known.
    UnknownSubcommand(String),
}

/// A usage error as a plain value.
pub enum UsageErrorView {
    Help,
    Version,
    Getargs(Seq<char>),
    UnknownOpt(OptView),
    UnknownSubcommand(Seq<char>),
}

impl View for UsageError {
    type V = UsageErrorView;

    open spec fn view(&self) -> UsageErrorView {
        match *self {
            UsageError::Help => UsageErrorView::Help,
            UsageError::Version => UsageErrorView::Version,
            UsageError::Getargs(message) => UsageErrorView::Getargs(message@),
            UsageError::UnknownOpt(opt) => UsageErrorView::UnknownOpt(opt@),
            UsageError::UnknownSubcommand(name) => UsageErrorView::UnknownSubcommand(name@),
        }
    }
}

/// What was asked for.
#[derive(Clone, Debug)]
pub struct Arguments {
    pub subcommand: Subcommand,
}

/// A subcommand with all that belongs to it.
#[derive(Clone, Debug, PartialEq, Eq)]
pub enum Subcommand {
    /// Make a new repository.
    Init,
    /// Build the named programs, or the most recent one where none is
    /// named; `output` is where the artifact is to be copied.
    Build { programs: Vec<String>, debug: bool, output: Option<String> },
    /// Run a program with further arguments.
    Run { program: Option<String>, args: Vec<String> },
    /// Test a program on the named cases, or on all where none is named.
    Test { program: Option<String>, tests: Vec<String> },
    /// Run a program in a debugger.
    Debug { program: Option<String> },
    /// Delete the artifacts of a program, or of all.
    Clean { program: Option<String>, all: bool },
    /// Write a project file for CMake.
    CMake,
}

/// A subcommand as a plain value.
pub enum SubcommandView {
    Init,
    Build { programs: Seq<Seq<char>>, debug: bool, output: Option<Seq<char>> },
    Run { program: Option<Seq<char>>, args: Seq<Seq<char>> },
    Test { program: Option<Seq<char>>, tests: Seq<Seq<char>> },
    Debug { program: Option<Seq<char>> },
    Clean { program: Option<Seq<char>>, all: bool },
    CMake,
}

/// The text of an optional string.
pub open spec fn text_of(word: Option<String>) -> Option<Seq<char>> {
    match word {
        Some(w) => Some(w@),
        None => None,
    }
}

impl View for Subcommand {
    type V = SubcommandView;

    open spec fn view(&self) -> SubcommandView {
        match *self {
            Subcommand::Init => SubcommandView::Init,
            Subcommand::Build { programs, debug, output } => SubcommandView::Build {
                programs: texts(programs@),
                debug,
                output: text_of(output),
            },
            Subcommand::Run { program, args } => SubcommandView::Run {
                program: text_of(program),
                args: texts(args@),
            },
            Subcommand::Test { program, tests } => SubcommandView::Test {
                program: text_of(program),
                tests: texts(tests@),
            },
            Subcommand::Debug { program } => SubcommandView::Debug { program: text_of(program) },
            Subcommand::Clean { program, all } => SubcommandView::Clean {
                program: text_of(program),
                all,
            },
            Subcommand::CMake => SubcommandView::CMake,
        }
    }
}

/// The subcommands by name.
#[derive(Clone, Copy, Debug, PartialEq, Eq, Structural)]
pub enum Command {
    Init,
    Build,
    Clean,
    Debug,
    Run,
    Test,
    CMake,
}

/// The subcommand that a word names. Five of them have a short name too.
pub open spec fn command_named(word: Seq<char>) -> Option<Command> {
    if word == "init"@ {
        Some(Command::Init)
    } else if word == "build"@ || word == "b"@ {
        Some(Command::Build)
    } else if word == "clean"@ || word == "c"@ {
        Some(Command::Clean)
    } else if word == "debug"@ || word == "d"@ {
        Some(Command::Debug)
    } else if word == "run"@ || word == "r"@ {
        Some(Command::Run)
    } else if word == "test"@ || word == "t"@ {
        Some(Command::Test)
    } else if word == "cmake"@ {
        Some(Command::CMake)
    } else {
        None
    }
}

/// The subcommand that a word names.
pub fn command_of(word: &str) -> (command: Option<Command>)
    ensures
        command == command_named(word@),
{
    if same_text(word, "init") {
        Some(Command::Init)
    } else if same_text(word, "build") || same_text(word, "b") {
        Some(Command::Build)
    } else if same_text(word, "clean") || same_text(word, "c") {
        Some(Command::Clean)
    } else if same_text(word, "debug") || same_text(word, "d") {
        Some(Command::Debug)
    } else if same_text(word, "run") || same_text(word, "r") {
        Some(Command::Run)
    } else if same_text(word, "test") || same_text(word, "t") {
        Some(Command::Test)
    } else if same_text(word, "cmake") {
        Some(Command::CMake)
    } else {
        None
    }
}

/// Whether an option is the given short one or the given long one.
pub open spec fn is_option(opt: OptView, short: char, long: Seq<char>) -> bool {
    match opt {
        OptView::Short(c) => c == short,
        OptView::Long(name) => name == long,
    }
}

/// Whether an option is the given long one.
pub open spec fn is_long_option(opt: OptView, long: Seq<char>) -> bool {
    match opt {
        OptView::Short(_) => false,
        OptView::Long(name) => name == long,
    }
}

fn matches_option(opt: &Opt, short: char, long: &str) -> (yes: bool)
    ensures
        yes == is_option(opt@, short, long@),
{
    match opt {
        Opt::Short(c) => *c == short,
        Opt::Long(name) => same_text(name.as_str(), long),
    }
}

fn matches_long_option(opt: &Opt, long: &str) -> (yes: bool)
    ensures
        yes == is_long_option(opt@, long@),
{
    match opt {
        Opt::Short(_) => false,
        Opt::Long(name) => same_text(name.as_str(), long),
    }
}

/// What an option before the subcommand leads to: `-h` and `--help` ask for
/// help, `--version` for the version, and no other option is known there.
pub open spec fn global_answer(opt: OptView) -> UsageErrorView {
    if is_option(opt, 'h', "help"@) {
        UsageErrorView::Help
    } else if is_long_option(opt, "version"@) {
        UsageErrorView::Version
    } else {
        UsageErrorView::UnknownOpt(opt)
    }
}

/// Answers an option that stands before the subcommand.
pub fn global_option(opt: Opt) -> (answer: UsageError)
    ensures
        answer@ == global_answer(opt@),
{
    if matches_option(&opt, 'h', "help") {
        UsageError::Help
    } else if matches_long_option(&opt, "version") {
        UsageError::Version
    } else {
        UsageError::UnknownOpt(opt)
    }
}

/// An option of `build`.
#[derive(Clone, Copy, Debug, PartialEq, Eq, Structural)]
pub enum BuildOption {
    /// `-d`, `--debug`: build the debug variant.
    Debug,
    /// `-o`, `--output`: copy the artifact to the path that follows.
    Output,
}

/// The option of `build` that an option is, if it is one.
pub open spec fn build_option_named(opt: OptView) -> Option<BuildOption> {
    if is_option(opt, 'd', "debug"@) {
        Some(BuildOption::Debug)
    } else if is_option(opt, 'o', "output"@) {
        Some(BuildOption::Output)
    } else {
        None
    }
}

/// The option of `build` that an option is, if it is one.
pub fn build_option(opt: &Opt) -> (known: Option<BuildOption>)
    ensures
        known == build_option_named(opt@),
{
    if matches_option(opt, 'd', "debug") {
        Some(BuildOption::Debug)
    } else if matches_option(opt, 'o', "output") {
        Some(BuildOption::Output)
    } else {
        None
    }
}

/// Whether an option is the one option of `clean`: `--all`.
pub fn clean_option(opt: &Opt) -> (known: bool)
    ensures
        known == is_long_option(opt@, "all"@),
{
    matches_long_option(opt, "all")
}

/// What reading a command line comes to: a subcommand, a usage error, or,
/// as `Err(None)`, a refusal of the scanner, whose message is the
/// scanner's own.
pub type Reading = Result<SubcommandView, Option<UsageErrorView>>;

/// Whether what was read is what reading comes to.
pub open spec fn agrees(parsed: Result<Subcommand, UsageError>, reading: Reading) -> bool {
    match reading {
        Ok(subcommand) => parsed matches Ok(p) && p@ == subcommand,
        Err(Some(error)) => parsed matches Err(e) && e@ == error,
        Err(None) => parsed matches Err(UsageError::Getargs(_)),
    }
}

/// What follows `build`, read from a scanner: options as long as there are
/// any, then the programs. `-d` and `--debug` ask for the debug variant;
/// `-o` and `--output` take a value, of which the last one counts; any
/// other option is unknown.
pub open spec fn read_build(scan: ScanView, debug: bool, output: Option<Seq<char>>) -> Reading
    decreases scan.words.len(), scan.attached.len(),
{
    let (answer, next) = after_opt(scan);
    match answer {
        Answer::Refused => Err(None),
        Answer::NoOption => Ok(SubcommandView::Build { programs: next.words, debug, output }),
        Answer::Option(opt) => match build_option_named(opt) {
            Some(BuildOption::Debug) => read_build(next, true, output),
            Some(BuildOption::Output) => {
                let (value, then) = after_value(next);
                match value {
                    Some(path) => read_build(then, debug, Some(path)),
                    None => Err(None),
                }
            },
            None => Err(Some(UsageErrorView::UnknownOpt(opt))),
        },
    }
}

/// What follows `clean`, read from a scanner: options as long as there are
/// any, then the program. `--all` is the one option that is known.
pub open spec fn read_clean(scan: ScanView, all: bool) -> Reading
    decreases scan.words.len(), scan.attached.len(),
{
    let (answer, next) = after_opt(scan);
    match answer {
        Answer::Refused => Err(None),
        Answer::NoOption => Ok(
            SubcommandView::Clean { program: after_positional(next).0, all },
        ),
        Answer::Option(opt) => if is_long_option(opt, "all"@) {
            read_clean(next, true)
        } else {
            Err(Some(UsageErrorView::UnknownOpt(opt)))
        },
    }
}

/// What follows the name of a subcommand, read from a scanner. Only
/// `build` and `clean` take options; `run` and `test` take the next word as
/// the program and all further words as they are.
pub open spec fn read_command(command: Command, scan: ScanView) -> Reading {
    match command {
        Command::Init => Ok(SubcommandView::Init),
        Command::Build => read_build(scan, false, None),
        Command::Clean => read_clean(scan, false),
        Command::Debug => Ok(SubcommandView::Debug { program: after_positional(scan).0 }),
        Command::Run => Ok(
            SubcommandView::Run {
                program: after_positional(scan).0,
                args: after_positional(scan).1.words,
            },
        ),
        Command::Test => Ok(
            SubcommandView::Test {
                program: after_positional(scan).0,
                tests: after_positional(scan).1.words,
            },
        ),
        Command::CMake => Ok(SubcommandView::CMake),
    }
}

/// What a command line comes to. An option before the subcommand is
/// answered at once; the first plain argument names the subcommand, and
/// `run` is meant where there is none; what follows is read as the
/// subcommand asks.
pub open spec fn read_words(words: Seq<Seq<char>>) -> Reading {
    let (answer, next) = after_opt(ready(words));
    match answer {
        Answer::Refused => Err(None),
        Answer::Option(opt) => Err(Some(global_answer(opt))),
        Answer::NoOption => {
            let (name, then) = after_positional(next);
            match name {
                Some(word) => match command_named(word) {
                    Some(command) => read_command(command, then),
                    None => Err(Some(UsageErrorView::UnknownSubcommand(word))),
                },
                None => read_command(Command::Run, then),
            }
        },
    }
}

/// Reads what follows `build`: its options, then the programs.
fn parse_build_args<'a>(scanner: &mut Scanner<'a>) -> (parsed: Result<Subcommand, UsageError>)
    ensures
        agrees(parsed, read_build(scan_view(*old(scanner)), false, None)),
{
    let mut debug = false;
    let mut output: Option<String> = None;
    let ghost start = scan_view(*scanner);
    loop
        invariant_except_break
            read_build(scan_view(*scanner), debug, text_of(output)) == read_build(
                start,
                false,
                None,
            ),
        invariant
            start == scan_view(*old(scanner)),
        ensures
            !pending(*scanner),
            read_build(start, false, None) == Ok::<SubcommandView, Option<UsageErrorView>>(
                SubcommandView::Build {
                    programs: upcoming(*scanner),
                    debug,
                    output: text_of(output),
                },
            ),
        decreases upcoming(*scanner).len(), attached(*scanner).len(),
    {
        let opt = match next_opt(scanner) {
            Err(message) => {
                return Err(UsageError::Getargs(message));
            },
            Ok(None) => {
                break;
            },
            Ok(Some(opt)) => opt,
        };
        match build_option(&opt) {
            Some(BuildOption::Debug) => {
                debug = true;
            },
            Some(BuildOption::Output) => match value(scanner) {
                Ok(path) => {
                    output = Some(path);
                },
                Err(message) => {
                    return Err(UsageError::Getargs(message));
                },
            },
            None => {
                return Err(UsageError::UnknownOpt(opt));
            },
        }
    }
    Ok(Subcommand::Build { programs: positionals(scanner), debug, output })
}

/// Reads what follows `clean`: its options, then the program.
fn parse_clean_args<'a>(scanner: &mut Scanner<'a>) -> (parsed: Result<Subcommand, UsageError>)
    ensures
        agrees(parsed, read_clean(scan_view(*old(scanner)), false)),
{
    let mut all = false;
    let ghost start = scan_view(*scanner);
    loop
        invariant_except_break
            read_clean(scan_view(*scanner), all) == read_clean(start, false),
        invariant
            start == scan_view(*old(scanner)),
        ensures
            !pending(*scanner),
            read_clean(start, false) == Ok::<SubcommandView, Option<UsageErrorView>>(
                SubcommandView::Clean { program: after_positional(scan_view(*scanner)).0, all },
            ),
        decreases upcoming(*scanner).len(), attached(*scanner).len(),
    {
        let opt = match next_opt(scanner) {
            Err(message) => {
                return Err(UsageError::Getargs(message));
            },
            Ok(None) => {
                break;
            },
            Ok(Some(opt)) => opt,
        };
        if clean_option(&opt) {
            all = true;
        } else {
            return Err(UsageError::UnknownOpt(opt));
        }
    }
    let program = next_positional(scanner);
    Ok(Subcommand::Clean { program, all })
}

/// Reads what follows `debug`: the program.
fn parse_debug_args<'a>(scanner: &mut Scanner<'a>) -> (parsed: Subcommand)
    requires
        !pending(*old(scanner)),
    ensures
        parsed@ == (SubcommandView::Debug {
            program: after_positional(scan_view(*old(scanner))).0,
        }),
{
    Subcommand::Debug { program: next_positional(scanner) }
}

/// Reads what follows `run`: the program, then its arguments. No word is
/// taken as an option here.
fn parse_run_args<'a>(scanner: &mut Scanner<'a>) -> (parsed: Subcommand)
    requires
        !pending(*old(scanner)),
    ensures
        parsed@ == (SubcommandView::Run {
            program: after_positional(scan_view(*old(scanner))).0,
            args: after_positional(scan_view(*old(scanner))).1.words,
        }),
{
    let program = next_positional(scanner);
    let args = positionals(scanner);
    Subcommand::Run { program, args }
}

/// Reads what follows `test`: the program, then the cases. No word is taken
/// as an option here.
fn parse_test_args<'a>(scanner: &mut Scanner<'a>) -> (parsed: Subcommand)
    requires
        !pending(*old(scanner)),
    ensures
        parsed@ == (SubcommandView::Test {
            program: after_positional(scan_view(*old(scanner))).0,
            tests: after_positional(scan_view(*old(scanner))).1.words,
        }),
{
    let program = next_positional(scanner);
    let tests = positionals(scanner);
    Subcommand::Test { program, tests }
}

/// Reads what follows the name of a subcommand.
fn parse_command<'a>(command: Command, scanner: &mut Scanner<'a>) -> (parsed: Result<
    Subcommand,
    UsageError,
>)
    requires
        !pending(*old(scanner)),
    ensures
        agrees(parsed, read_command(command, scan_view(*old(scanner)))),
{
    match command {
        Command::Init => Ok(Subcommand::Init),
        Command::Build => parse_build_args(scanner),
        Command::Clean => parse_clean_args(scanner),
        Command::Debug => Ok(parse_debug_args(scanner)),
        Command::Run => Ok(parse_run_args(scanner)),
        Command::Test => Ok(parse_test_args(scanner)),
        Command::CMake => Ok(Subcommand::CMake),
    }
}

/// Reads a command line, without the name of the program itself.
///
/// An option before the subcommand is answered at once: by `Help`, by
/// `Version`, or as unknown. The first plain argument names the subcommand,
/// and `run` is meant where there is none. What follows is read as the
/// subcommand asks. Where the scanner refuses the words, the error holds
/// the scanner's message.
pub fn parse_args(words: &Vec<String>) -> (parsed: Result<Arguments, UsageError>)
    ensures
        match read_words(texts(words@)) {
            Ok(subcommand) => parsed matches Ok(a) && a.subcommand@ == subcommand,
            Err(Some(error)) => parsed matches Err(e) && e@ == error,
            Err(None) => parsed matches Err(UsageError::Getargs(_)),
        },
{
    let mut scanner = scan(words);
    match next_opt(&mut scanner) {
        Err(message) => {
            return Err(UsageError::Getargs(message));
        },
        Ok(Some(opt)) => {
            return Err(global_option(opt));
        },
        Ok(None) => {},
    }
    let command = match next_positional(&mut scanner) {
        Some(name) => match command_of(name.as_str()) {
            Some(command) => command,
            None => {
                return Err(UsageError::UnknownSubcommand(name));
            },
        },
        None => Command::Run,
    };
    match parse_command(command, &mut scanner) {
        Ok(subcommand) => Ok(Arguments { subcommand }),
        Err(e) => Err(e),
    }
}

} // verus!
