//! The files of a repository as a whole: where its root lies, what a new
//! repository is made of, what is deleted to clean it, and where a built
//! artifact is copied.

use vstd::prelude::*;
use vstd::string::*;
use crate::command::artifact_of;
use crate::fixture::Probe;
use crate::path::{parent, parent_of};
use crate::repo::{Program, ProgramView, Repository};

verus! {

/// A directory on the way from where the caller stands up to the root of
/// the file system, and whether it holds a configuration file.
#[derive(Clone, Debug)]
pub struct Ancestor {
    pub path: String,
    pub has_config: bool,
}

/// No directory on the way up holds a configuration file.
#[derive(Clone, Copy, Debug, PartialEq, Eq, Structural)]
pub struct NoRoot;

/// Whether one of the first `upto` directories holds a configuration file.
pub open spec fn any_config(ancestors: Seq<Ancestor>, upto: int) -> bool {
    exists|i: int| 0 <= i < upto && i < ancestors.len() && (#[trigger] ancestors[i]).has_config
}

/// The root of the repository: the first directory on the way up that holds
/// a configuration file. The directories are given from where the caller
/// stands upwards.
pub fn find_root_dir(ancestors: &Vec<Ancestor>) -> (root: Result<String, NoRoot>)
    ensures
        match root {
            Ok(path) => exists|i: int|
                0 <= i < ancestors@.len() && (#[trigger] ancestors@[i]).has_config && path@
                    == ancestors@[i].path@ && !any_config(ancestors@, i),
            Err(_) => !any_config(ancestors@, ancestors@.len() as int),
        },
{
    let mut i: usize = 0;
    while i < ancestors.len()
        invariant
            i <= ancestors@.len(),
            !any_config(ancestors@, i as int),
        decreases ancestors@.len() - i,
    {
        if ancestors[i].has_config {
            return Ok(ancestors[i].path.clone());
        }
        i = i + 1;
    }
    Err(NoRoot)
}

/// What a new repository asks for besides its two directories.
#[derive(Clone, Copy, Debug, PartialEq, Eq, Structural)]
pub struct InitPlan {
    /// Whether the configuration file is written. One that exists is kept.
    pub write_config: bool,
}

/// The name of the configuration file of a repository.
pub fn config_file_name() -> (name: &'static str)
    ensures
        name@ == "Coman.toml"@,
{
    "Coman.toml"
}

/// The directories that a new repository begins with.
pub fn init_directories() -> (dirs: Vec<String>)
    ensures
        dirs@.len() == 2,
        dirs@[0]@ == "src"@,
        dirs@[1]@ == "test"@,
{
    let mut dirs: Vec<String> = Vec::new();
    dirs.push(String::from_str("src"));
    dirs.push(String::from_str("test"));
    dirs
}

/// What making a repository where the caller stands asks for, given what
/// looking at the configuration file gave: the file is written only where
/// it is known to be missing. A look that failed for another reason writes
/// nothing and stops nothing: the directories are made all the same.
pub fn init(config: Probe) -> (plan: InitPlan)
    ensures
        plan.write_config == (config == Probe::Missing),
{
    match config {
        Probe::Missing => InitPlan { write_config: true },
        _ => InitPlan { write_config: false },
    }
}

/// How deleting a file or a directory went.
#[derive(Clone, Copy, Debug, PartialEq, Eq, Structural)]
pub enum Deleted {
    /// It is gone.
    Done,
    /// There was nothing to delete.
    Missing,
    /// It could not be deleted.
    Failed,
}

/// Whether a deletion leaves things clean: what was not there is clean too.
pub open spec fn is_clean(outcome: Deleted) -> bool {
    outcome != Deleted::Failed
}

/// The directory that is deleted to clean a repository of all artifacts.
pub fn clean_all(repo: &Repository) -> (directory: String)
    ensures
        directory@ == repo@.build,
{
    String::from_str(repo.build_path())
}

/// Whether cleaning a repository of all artifacts worked.
pub fn cleaned_all(outcome: Deleted) -> (ok: bool)
    ensures
        ok == is_clean(outcome),
{
    match outcome {
        Deleted::Failed => false,
        _ => true,
    }
}

/// The two artifacts of a program, in the order in which they are deleted:
/// the debug artifact, then the release artifact.
#[derive(Debug)]
pub struct Artifacts {
    pub debug: String,
    pub release: String,
}

/// The artifacts that are deleted to clean a program.
pub fn clean(program: &Program) -> (files: Artifacts)
    ensures
        files.debug@ == program@.build_debug,
        files.release@ == program@.build_release,
{
    Artifacts {
        debug: String::from_str(program.build_debug_path()),
        release: String::from_str(program.build_release_path()),
    }
}

/// Which of the two artifacts could not be deleted.
#[derive(Clone, Copy, Debug, PartialEq, Eq, Structural)]
pub enum CleanError {
    Debug,
    Release,
}

/// How cleaning a program ended: the debug artifact is deleted first, and
/// the release artifact only where that worked.
pub open spec fn cleaned_as(debug: Deleted, release: Deleted) -> Result<(), CleanError> {
    if !is_clean(debug) {
        Err(CleanError::Debug)
    } else if !is_clean(release) {
        Err(CleanError::Release)
    } else {
        Ok(())
    }
}

/// Says how cleaning a program ended.
pub fn cleaned(debug: Deleted, release: Deleted) -> (result: Result<(), CleanError>)
    ensures
        result == cleaned_as(debug, release),
{
    match debug {
        Deleted::Failed => Err(CleanError::Debug),
        _ => match release {
            Deleted::Failed => Err(CleanError::Release),
            _ => Ok(()),
        },
    }
}

/// A copy of a built artifact to a place of the user's choice. The
/// directory of that place is made first.
#[derive(Debug)]
pub struct Export {
    pub from: String,
    pub to: String,
    pub directory: String,
}

/// An export as a plain value.
pub struct ExportView {
    pub from: Seq<char>,
    pub to: Seq<char>,
    pub directory: Seq<char>,
}

impl View for Export {
    type V = ExportView;

    open spec fn view(&self) -> ExportView {
        ExportView { from: self.from@, to: self.to@, directory: self.directory@ }
    }
}

/// The copy that brings the artifact of the given variant to `output`; none
/// where `output` has no directory above it.
pub open spec fn export_of(program: ProgramView, debug: bool, output: Seq<char>) -> Option<
    ExportView,
> {
    match parent_of(output) {
        Some(directory) => Some(
            ExportView { from: artifact_of(program, debug), to: output, directory },
        ),
        None => None,
    }
}

/// The copy that brings a built artifact to `output`.
pub fn export(program: &Program, debug: bool, output: &str) -> (copy: Option<Export>)
    ensures
        match copy {
            Some(e) => export_of(program@, debug, output@) == Some(e@),
            None => export_of(program@, debug, output@) is None,
        },
{
    match parent(output) {
        Some(directory) => Some(
            Export {
                from: String::from_str(program.build_path(debug)),
                to: String::from_str(output),
                directory,
            },
        ),
        None => None,
    }
}

} // verus!
