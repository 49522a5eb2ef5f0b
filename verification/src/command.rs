//! Command lines: how the templates of a language become the commands that
//! run or debug a program.

use vstd::prelude::*;
use vstd::string::*;

use crate::repo::{Program, ProgramView};
use crate::text::{same_text, texts};

verus! {

/// A command: the program to start and its arguments.
#[derive(Debug)]
pub struct CommandLine {
    pub program: String,
    pub args: Vec<String>,
}

/// A command line as a plain value.
pub struct CommandLineView {
    pub program: Seq<char>,
    pub args: Seq<Seq<char>>,
}

impl View for CommandLine {
    type V = CommandLineView;

    open spec fn view(&self) -> CommandLineView {
        CommandLineView { program: self.program@, args: texts(self.args@) }
    }
}

/// The path of the artifact of the given variant.
pub open spec fn artifact_of(program: ProgramView, debug: bool) -> Seq<char> {
    if debug {
        program.build_debug
    } else {
        program.build_release
    }
}

/// What stands for a token of a template: the source file for `{source}`,
/// the artifact for `{build}`, the root of the repository for `{root}`, and
/// the token itself for any other.
pub open spec fn filled(program: ProgramView, token: Seq<char>, debug: bool) -> Seq<char> {
    if token == "{source}"@ {
        program.src
    } else if token == "{build}"@ {
        artifact_of(program, debug)
    } else if token == "{root}"@ {
        program.repo.root
    } else {
        token
    }
}

/// The command that a template stands for. The first token names the program
/// to start and is taken as it is; every later token is filled in.
pub open spec fn command_of(program: ProgramView, template: Seq<Seq<char>>, debug: bool) -> CommandLineView
    recommends
        template.len() > 0,
{
    CommandLineView {
        program: template[0],
        args: Seq::new(
            (template.len() - 1) as nat,
            |i: int| filled(program, template[i + 1], debug),
        ),
    }
}

/// The command that runs a program: the run template of its language where
/// that is not empty, else the release artifact itself.
pub open spec fn run_command_of(program: ProgramView) -> CommandLineView {
    let languages = program.repo.config.languages;
    if languages.contains_key(program.extension) && languages[program.extension].run.len() > 0 {
        command_of(program, languages[program.extension].run, false)
    } else {
        CommandLineView { program: program.build_release, args: Seq::empty() }
    }
}

/// The command that debugs a program: the debug template of its language,
/// filled in for the debug artifact; none where that template is empty or
/// the language is not known.
pub open spec fn debug_command_of(program: ProgramView) -> Option<CommandLineView> {
    let languages = program.repo.config.languages;
    if languages.contains_key(program.extension) && languages[program.extension].debug.len() > 0 {
        Some(command_of(program, languages[program.extension].debug, true))
    } else {
        None
    }
}

/// No debugger is configured for the extension of the program's source.
#[derive(Debug)]
pub struct NoDebugger {
    pub extension: String,
}

/// Fills in one token of a template.
pub fn fill(program: &Program, token: &str, debug: bool) -> (text: String)
    ensures
        text@ == filled(program@, token@, debug),
{
    if same_text(token, "{source}") {
        String::from_str(program.source_path())
    } else if same_text(token, "{build}") {
        String::from_str(program.build_path(debug))
    } else if same_text(token, "{root}") {
        String::from_str(program.repository().root())
    } else {
        String::from_str(token)
    }
}

/// Turns a template into a command. The template must name a program.
pub fn eval_command_template(program: &Program, template: &Vec<String>, debug: bool) -> (command:
    CommandLine)
    requires
        template@.len() > 0,
    ensures
        command@ == command_of(program@, texts(template@), debug),
{
    let mut args: Vec<String> = Vec::new();
    let mut i: usize = 1;
    while i < template.len()
        invariant
            1 <= i <= template@.len(),
            args@.len() == i - 1,
            forall|k: int|
                0 <= k < i - 1 ==> (#[trigger] args@[k])@ == filled(
                    program@,
                    template@[k + 1]@,
                    debug,
                ),
        decreases template@.len() - i,
    {
        args.push(fill(program, template[i].as_str(), debug));
        i = i + 1;
    }
    let command = CommandLine { program: template[0].clone(), args };
    assert(command@.args =~= command_of(program@, texts(template@), debug).args);
    command
}

/// The command that runs the program. The program is taken to be built.
pub fn get_run_command(program: &Program) -> (command: CommandLine)
    ensures
        command@ == run_command_of(program@),
{
    match program.language() {
        Some(language) => {
            if language.run.len() > 0 {
                return eval_command_template(program, &language.run, false);
            }
        },
        None => {},
    }
    let command = CommandLine {
        program: String::from_str(program.build_path(false)),
        args: Vec::new(),
    };
    assert(command@.args =~= Seq::empty());
    command
}

/// What becomes of one of the three standard streams of a started program.
#[derive(Clone, Copy, Debug, PartialEq, Eq, Structural)]
pub enum Stream {
    /// The stream of the caller is handed on.
    Inherit,
    /// The stream is a pipe, whose other end the caller holds.
    Pipe,
    /// The stream is thrown away.
    Discard,
}

/// How a program is to be started: the command and its three streams.
#[derive(Debug)]
pub struct Launch {
    pub command: CommandLine,
    pub stdin: Stream,
    pub stdout: Stream,
    pub stderr: Stream,
}

/// A launch as a plain value.
pub struct LaunchView {
    pub command: CommandLineView,
    pub stdin: Stream,
    pub stdout: Stream,
    pub stderr: Stream,
}

impl View for Launch {
    type V = LaunchView;

    open spec fn view(&self) -> LaunchView {
        LaunchView {
            command: self.command@,
            stdin: self.stdin,
            stdout: self.stdout,
            stderr: self.stderr,
        }
    }
}

/// The run command of a program with further arguments behind its own.
pub open spec fn run_command_with(program: ProgramView, args: Seq<Seq<char>>) -> CommandLineView {
    CommandLineView {
        program: run_command_of(program).program,
        args: run_command_of(program).args + args,
    }
}

/// The run command of the program with further arguments behind its own.
pub fn run_command_with_args(program: &Program, args: &Vec<String>) -> (command: CommandLine)
    ensures
        command@ == run_command_with(program@, texts(args@)),
{
    let mut command = get_run_command(program);
    let ghost base = command@;
    let mut i: usize = 0;
    while i < args.len()
        invariant
            i <= args@.len(),
            command@.program == base.program,
            command@.args == base.args + texts(args@).take(i as int),
        decreases args@.len() - i,
    {
        let ghost before = command@.args;
        command.args.push(args[i].clone());
        i = i + 1;
        assert(command@.args =~= before.push(args@[i - 1]@));
        assert(texts(args@).take(i as int) =~= texts(args@).take(i - 1).push(args@[i - 1]@));
        assert(command@.args =~= base.args + texts(args@).take(i as int));
    }
    assert(texts(args@).take(i as int) =~= texts(args@));
    command
}

/// How the program is run for its user: with the given arguments behind
/// those of its run command, and on the caller's own three streams. The
/// caller starts it, waits, and hands the exit report to
/// `RunResult::from_report`.
pub fn run(program: &Program, args: &Vec<String>) -> (launch: Launch)
    ensures
        launch@ == (LaunchView {
            command: run_command_with(program@, texts(args@)),
            stdin: Stream::Inherit,
            stdout: Stream::Inherit,
            stderr: Stream::Inherit,
        }),
{
    Launch {
        command: run_command_with_args(program, args),
        stdin: Stream::Inherit,
        stdout: Stream::Inherit,
        stderr: Stream::Inherit,
    }
}

/// How the program is started for a test: with the arguments of the test
/// case behind those of its run command, its input and output piped, and its
/// error stream piped where it is to be captured and thrown away where not.
pub fn start_process(program: &Program, args: &Vec<String>, capture_stderr: bool) -> (launch:
    Launch)
    ensures
        launch@ == (LaunchView {
            command: run_command_with(program@, texts(args@)),
            stdin: Stream::Pipe,
            stdout: Stream::Pipe,
            stderr: if capture_stderr {
                Stream::Pipe
            } else {
                Stream::Discard
            },
        }),
{
    Launch {
        command: run_command_with_args(program, args),
        stdin: Stream::Pipe,
        stdout: Stream::Pipe,
        stderr: if capture_stderr {
            Stream::Pipe
        } else {
            Stream::Discard
        },
    }
}

/// The command that runs the program in the debugger of its language. The
/// program is taken to be built in the debug variant.
pub fn get_debug_command(program: &Program) -> (command: Result<CommandLine, NoDebugger>)
    ensures
        match command {
            Ok(c) => debug_command_of(program@) == Some(c@),
            Err(e) => debug_command_of(program@) is None && e.extension@ == program@.extension,
        },
{
    match program.language() {
        Some(language) => {
            if language.debug.len() > 0 {
                return Ok(eval_command_template(program, &language.debug, true));
            }
        },
        None => {},
    }
    Err(NoDebugger { extension: String::from_str(program.source_extension()) })
}

/// How the program is debugged: by the debug command of its language, on
/// the caller's own three streams. The caller starts it, waits, and hands
/// the exit report to `RunResult::from_report`.
pub fn debug(program: &Program) -> (launch: Result<Launch, NoDebugger>)
    ensures
        match launch {
            Ok(l) => debug_command_of(program@) == Some(l@.command) && l@.stdin
                == Stream::Inherit && l@.stdout == Stream::Inherit && l@.stderr
                == Stream::Inherit,
            Err(e) => debug_command_of(program@) is None && e.extension@ == program@.extension,
        },
{
    match get_debug_command(program) {
        Ok(command) => Ok(
            Launch {
                command,
                stdin: Stream::Inherit,
                stdout: Stream::Inherit,
                stderr: Stream::Inherit,
            },
        ),
        Err(e) => Err(e),
    }
}

} // verus!
