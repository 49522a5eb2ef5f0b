//! Building a program: whether its artifact is stale, and what has to be
//! done to renew it.

use vstd::prelude::*;
use vstd::string::*;
use crate::command::{artifact_of, command_of, eval_command_template, CommandLine, CommandLineView};
use crate::config::LanguageView;
use crate::path::{parent, parent_of};
use crate::repo::{Program, ProgramView};
use crate::stamp::Stamp;

verus! {

/// The three files whose modification times decide whether a build is due.
#[derive(Debug)]
pub struct Watched {
    pub artifact: String,
    pub source: String,
    pub config: String,
}

/// The files that decide whether the artifact of the given variant is stale:
/// the artifact itself, the source, and the configuration file of the
/// repository.
pub fn watched(program: &Program, debug: bool) -> (files: Watched)
    ensures
        files.artifact@ == artifact_of(program@, debug),
        files.source@ == program@.src,
        files.config@ == program@.repo.config_path,
{
    Watched {
        artifact: String::from_str(program.build_path(debug)),
        source: String::from_str(program.source_path()),
        config: String::from_str(program.repository().config_path()),
    }
}

/// The modification times of the three watched files; `None` where a file
/// does not exist or its time cannot be read.
#[derive(Clone, Copy, Debug, PartialEq, Eq, Structural)]
pub struct Stamps {
    pub artifact: Option<Stamp>,
    pub source: Option<Stamp>,
    pub config: Option<Stamp>,
}

/// Whether an artifact is stale with respect to one file: it is older than
/// the file, or one of the two times is not known.
pub open spec fn stale(artifact: Option<Stamp>, file: Option<Stamp>) -> bool {
    match (artifact, file) {
        (Some(a), Some(f)) => a.precedes(f),
        _ => true,
    }
}

/// Whether a build is due: the artifact is stale with respect to the source
/// or to the configuration file.
pub open spec fn dirty(stamps: Stamps) -> bool {
    stale(stamps.artifact, stamps.source) || stale(stamps.artifact, stamps.config)
}

fn is_stale(artifact: Option<Stamp>, file: Option<Stamp>) -> (answer: bool)
    ensures
        answer == stale(artifact, file),
{
    match (artifact, file) {
        (Some(a), Some(f)) => a.before(&f),
        _ => true,
    }
}

/// Whether a build is due.
pub fn is_dirty(stamps: Stamps) -> (answer: bool)
    ensures
        answer == dirty(stamps),
{
    is_stale(stamps.artifact, stamps.source) || is_stale(stamps.artifact, stamps.config)
}

/// What renews an artifact.
#[derive(Debug)]
pub enum BuildStep {
    /// The source is the artifact: copy it there as it is.
    Copy { from: String, to: String },
    /// Run the compiler and wait for it.
    Invoke { command: CommandLine },
}

/// A build step as a plain value.
pub enum BuildStepView {
    Copy { from: Seq<char>, to: Seq<char> },
    Invoke { command: CommandLineView },
}

impl View for BuildStep {
    type V = BuildStepView;

    open spec fn view(&self) -> BuildStepView {
        match *self {
            BuildStep::Copy { from, to } => BuildStepView::Copy { from: from@, to: to@ },
            BuildStep::Invoke { command } => BuildStepView::Invoke { command: command@ },
        }
    }
}

/// What has to be done to renew an artifact: make sure that its directory
/// exists, where it has one, then take the step.
#[derive(Debug)]
pub struct Recipe {
    pub directory: Option<String>,
    pub step: BuildStep,
}

/// A recipe as a plain value.
pub struct RecipeView {
    pub directory: Option<Seq<char>>,
    pub step: BuildStepView,
}

impl View for Recipe {
    type V = RecipeView;

    open spec fn view(&self) -> RecipeView {
        RecipeView {
            directory: match self.directory {
                Some(d) => Some(d@),
                None => None,
            },
            step: self.step@,
        }
    }
}

/// Why a build failed.
#[derive(Debug)]
pub enum BuildError {
    /// No language is configured for the extension of the source.
    UnknownExtension { extension: String },
    /// The directory of the artifact could not be made.
    CreateDirectory { directory: String },
    /// The source could not be copied to the artifact.
    CopyFailed { from: String, to: String },
    /// The compiler could not be started.
    SpawnFailed { command: CommandLine },
    /// The compiler did not end cleanly.
    CompilerFailed { command: CommandLine },
}

/// A build error as a plain value.
pub enum BuildErrorView {
    UnknownExtension { extension: Seq<char> },
    CreateDirectory { directory: Seq<char> },
    CopyFailed { from: Seq<char>, to: Seq<char> },
    SpawnFailed { command: CommandLineView },
    CompilerFailed { command: CommandLineView },
}

impl View for BuildError {
    type V = BuildErrorView;

    open spec fn view(&self) -> BuildErrorView {
        match *self {
            BuildError::UnknownExtension { extension } => BuildErrorView::UnknownExtension {
                extension: extension@,
            },
            BuildError::CreateDirectory { directory } => BuildErrorView::CreateDirectory {
                directory: directory@,
            },
            BuildError::CopyFailed { from, to } => BuildErrorView::CopyFailed {
                from: from@,
                to: to@,
            },
            BuildError::SpawnFailed { command } => BuildErrorView::SpawnFailed {
                command: command@,
            },
            BuildError::CompilerFailed { command } => BuildErrorView::CompilerFailed {
                command: command@,
            },
        }
    }
}

/// The compile template that is in force: the debug template for a debug
/// build where it is not empty, else the release template.
pub open spec fn template_of(language: LanguageView, debug: bool) -> Seq<Seq<char>> {
    if debug && language.compile_debug.len() > 0 {
        language.compile_debug
    } else {
        language.compile
    }
}

/// The step that renews the artifact of a program in the given language: a
/// copy of the source where the template in force is empty, else the
/// compiler that the template names.
pub open spec fn step_of(program: ProgramView, language: LanguageView, debug: bool) -> BuildStepView {
    let template = template_of(language, debug);
    if template.len() == 0 {
        BuildStepView::Copy { from: program.src, to: artifact_of(program, debug) }
    } else {
        BuildStepView::Invoke { command: command_of(program, template, debug) }
    }
}

/// What renews the artifact of a program, or why nothing can.
pub open spec fn recipe_of(program: ProgramView, debug: bool) -> Result<RecipeView, BuildErrorView> {
    let languages = program.repo.config.languages;
    if languages.contains_key(program.extension) {
        Ok(
            RecipeView {
                directory: parent_of(artifact_of(program, debug)),
                step: step_of(program, languages[program.extension], debug),
            },
        )
    } else {
        Err(BuildErrorView::UnknownExtension { extension: program.extension })
    }
}

/// What has to be done to build the program anew.
pub fn recompile(program: &Program, debug: bool) -> (recipe: Result<Recipe, BuildError>)
    ensures
        match recipe {
            Ok(r) => recipe_of(program@, debug) == Ok::<RecipeView, BuildErrorView>(r@),
            Err(e) => recipe_of(program@, debug) == Err::<RecipeView, BuildErrorView>(e@),
        },
{
    let language = match program.language() {
        Some(language) => language,
        None => {
            return Err(
                BuildError::UnknownExtension {
                    extension: String::from_str(program.source_extension()),
                },
            );
        },
    };
    let template = if debug && language.compile_debug.len() > 0 {
        &language.compile_debug
    } else {
        &language.compile
    };
    let directory = parent(program.build_path(debug));
    let step = if template.len() == 0 {
        BuildStep::Copy {
            from: String::from_str(program.source_path()),
            to: String::from_str(program.build_path(debug)),
        }
    } else {
        BuildStep::Invoke { command: eval_command_template(program, template, debug) }
    };
    Ok(Recipe { directory, step })
}

/// What a build has to do: nothing where the artifact is fresh, else the
/// recipe that renews it.
pub open spec fn plan_of(program: ProgramView, debug: bool, stamps: Stamps) -> Result<
    Option<RecipeView>,
    BuildErrorView,
> {
    if !dirty(stamps) {
        Ok(None)
    } else {
        match recipe_of(program, debug) {
            Ok(recipe) => Ok(Some(recipe)),
            Err(e) => Err(e),
        }
    }
}

/// Decides what a build has to do, given the modification times of the
/// watched files: nothing where the artifact is fresh, else the recipe that
/// renews it.
pub fn compile(program: &Program, debug: bool, stamps: Stamps) -> (plan: Result<
    Option<Recipe>,
    BuildError,
>)
    ensures
        match plan {
            Ok(Some(r)) => plan_of(program@, debug, stamps) == Ok::<
                Option<RecipeView>,
                BuildErrorView,
            >(Some(r@)),
            Ok(None) => plan_of(program@, debug, stamps) == Ok::<
                Option<RecipeView>,
                BuildErrorView,
            >(None),
            Err(e) => plan_of(program@, debug, stamps) == Err::<
                Option<RecipeView>,
                BuildErrorView,
            >(e@),
        },
{
    if is_dirty(stamps) {
        match recompile(program, debug) {
            Ok(recipe) => Ok(Some(recipe)),
            Err(e) => Err(e),
        }
    } else {
        Ok(None)
    }
}

/// How carrying out a recipe went.
#[derive(Clone, Copy, Debug, PartialEq, Eq, Structural)]
pub enum Carried {
    /// The directory of the artifact could not be made.
    NoDirectory,
    /// The step could not be begun: the copy failed, or the compiler did not
    /// start.
    NotDone,
    /// The step was taken; for a compiler, `clean` says whether it ended
    /// cleanly.
    Done { clean: bool },
}

/// The result of a build whose recipe was carried out.
pub open spec fn built(recipe: RecipeView, carried: Carried) -> Result<(), BuildErrorView> {
    match carried {
        Carried::NoDirectory => Err(
            BuildErrorView::CreateDirectory {
                directory: match recipe.directory {
                    Some(d) => d,
                    None => Seq::empty(),
                },
            },
        ),
        Carried::NotDone => match recipe.step {
            BuildStepView::Copy { from, to } => Err(BuildErrorView::CopyFailed { from, to }),
            BuildStepView::Invoke { command } => Err(BuildErrorView::SpawnFailed { command }),
        },
        Carried::Done { clean } => match recipe.step {
            BuildStepView::Copy { .. } => Ok(()),
            BuildStepView::Invoke { command } => if clean {
                Ok(())
            } else {
                Err(BuildErrorView::CompilerFailed { command })
            },
        },
    }
}

/// Says how a build ended whose recipe was carried out. A compiler that did
/// not end cleanly fails the build, and the error names its command.
pub fn finish_build(recipe: Recipe, carried: Carried) -> (result: Result<(), BuildError>)
    ensures
        match result {
            Ok(()) => built(recipe@, carried) == Ok::<(), BuildErrorView>(()),
            Err(e) => built(recipe@, carried) == Err::<(), BuildErrorView>(e@),
        },
{
    let Recipe { directory, step } = recipe;
    match carried {
        Carried::NoDirectory => Err(
            BuildError::CreateDirectory {
                directory: match directory {
                    Some(d) => d,
                    None => String::new(),
                },
            },
        ),
        Carried::NotDone => match step {
            BuildStep::Copy { from, to } => Err(BuildError::CopyFailed { from, to }),
            BuildStep::Invoke { command } => Err(BuildError::SpawnFailed { command }),
        },
        Carried::Done { clean } => match step {
            BuildStep::Copy { .. } => Ok(()),
            BuildStep::Invoke { command } => if clean {
                Ok(())
            } else {
                Err(BuildError::CompilerFailed { command })
            },
        },
    }
}

/// The number of times that a plan runs the compiler.
pub open spec fn compiler_runs(plan: Result<Option<RecipeView>, BuildErrorView>) -> nat {
    match plan {
        Ok(Some(recipe)) => match recipe.step {
            BuildStepView::Invoke { .. } => 1,
            BuildStepView::Copy { .. } => 0,
        },
        _ => 0,
    }
}

/// Two builds in a row run the compiler at most once, where source and
/// configuration file are readable and unchanged between them and the second
/// build finds an artifact that is no older than either, as a build that
/// worked leaves it: the second build has nothing to do.
pub proof fn lemma_build_twice(program: ProgramView, debug: bool, first: Stamps, second: Stamps)
    requires
        first.source is Some,
        first.config is Some,
        second.source == first.source,
        second.config == first.config,
        second.artifact is Some,
        !second.artifact->0.precedes(second.source->0),
        !second.artifact->0.precedes(second.config->0),
    ensures
        plan_of(program, debug, second) == Ok::<Option<RecipeView>, BuildErrorView>(None),
        compiler_runs(plan_of(program, debug, first)) + compiler_runs(
            plan_of(program, debug, second),
        ) <= 1,
{
}

} // verus!
