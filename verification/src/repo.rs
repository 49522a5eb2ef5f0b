//! A repository of solutions and the programs in it: where the sources, the
//! test cases and the build artifacts of each program lie.

use vstd::prelude::*;
use vstd::string::*;
use crate::config::{default_config, Config, ConfigView, Language};
use crate::stamp::{epoch, Stamp};
use crate::path::{
    byte_len, drop_extension, extension, extension_of, join, joined, relative_to, strip_prefix,
    without_extension,
};

verus! {

/// A path with all the extensions of its last component taken off, one at a
/// time. Taking one off makes a path shorter; the definition stops where it
/// would not.
pub open spec fn bare(path: Seq<char>) -> Seq<char>
    decreases byte_len(path),
{
    if extension_of(path) is Some && byte_len(without_extension(path)) < byte_len(path) {
        bare(without_extension(path))
    } else {
        path
    }
}

/// Takes all the extensions off the last component of a path: what is left
/// has none.
pub fn strip_extensions(path: String) -> (stripped: String)
    ensures
        stripped@ == bare(path@),
        extension_of(stripped@) is None,
{
    let mut current = path;
    loop
        invariant
            bare(current@) == bare(path@),
        ensures
            current@ == bare(path@),
            extension_of(current@) is None,
        decreases byte_len(current@),
    {
        if extension(current.as_str()).is_none() {
            break;
        }
        current = drop_extension(current.as_str());
    }
    current
}

/// A repository as a plain value.
pub struct RepositoryView {
    pub config: ConfigView,
    pub config_path: Seq<char>,
    pub root: Seq<char>,
    pub src: Seq<char>,
    pub test: Seq<char>,
    pub build: Seq<char>,
    pub build_release: Seq<char>,
    pub build_debug: Seq<char>,
}

/// The repository that lies at `root` and has the given settings.
pub open spec fn repository_at(root: Seq<char>, config: ConfigView) -> RepositoryView {
    RepositoryView {
        config,
        config_path: joined(root, "Coman.toml"@),
        root,
        src: joined(root, config.src_dir),
        test: joined(root, config.test_dir),
        build: joined(root, config.build_dir),
        build_release: joined(joined(root, config.build_dir), "release"@),
        build_debug: joined(joined(root, config.build_dir), "debug"@),
    }
}

/// A repository of solutions. It does not change once made.
#[derive(Debug)]
pub struct Repository {
    config: Config,
    config_path: String,
    root: String,
    src: String,
    test: String,
    build: String,
    build_release: String,
    build_debug: String,
}

impl View for Repository {
    type V = RepositoryView;

    closed spec fn view(&self) -> RepositoryView {
        RepositoryView {
            config: self.config@,
            config_path: self.config_path@,
            root: self.root@,
            src: self.src@,
            test: self.test@,
            build: self.build@,
            build_release: self.build_release@,
            build_debug: self.build_debug@,
        }
    }
}

impl Clone for Repository {
    /// A copy that holds the same settings and the same paths.
    fn clone(&self) -> (copy: Repository)
        ensures
            copy@ == self@,
    {
        Repository {
            config: self.config.clone(),
            config_path: self.config_path.clone(),
            root: self.root.clone(),
            src: self.src.clone(),
            test: self.test.clone(),
            build: self.build.clone(),
            build_release: self.build_release.clone(),
            build_debug: self.build_debug.clone(),
        }
    }
}

/// What reading the configuration file of a repository gave.
#[derive(Debug)]
pub enum ConfigFile {
    /// There is no such file.
    Missing,
    /// The file could not be read.
    Unreadable,
    /// The file does not hold settings.
    Malformed,
    /// The settings that the file holds.
    Parsed(Config),
}

/// Why the settings of a repository could not be had.
#[derive(Clone, Copy, Debug, PartialEq, Eq, Structural)]
pub enum ReadError {
    /// The configuration file could not be read.
    Read,
    /// The configuration file does not hold settings.
    Parse,
}

/// What the file system said of a path that was asked for as a program.
#[derive(Clone, Debug)]
pub enum PathProbe {
    /// Nothing lies there.
    Missing,
    /// The path could not be resolved, for another reason.
    Unresolved,
    /// The path resolves to the absolute path `path`, which is a regular
    /// file or is not.
    Resolved { path: String, is_file: bool },
}

/// Why a path names no program.
#[derive(Clone, Copy, Debug, PartialEq, Eq, Structural)]
pub enum ProgramError {
    /// Nothing lies at the path.
    NotFound,
    /// The path could not be resolved.
    Unresolved,
    /// The path is no regular file.
    NotAFile,
    /// The file lies outside the source directory.
    OutsideRepository,
    /// The source directory holds no solution.
    NoSolutions,
    /// The program has no test case.
    NoTestCases,
}

/// A program as a plain value.
pub struct ProgramView {
    pub repo: RepositoryView,
    pub path: Seq<char>,
    pub extension: Seq<char>,
    pub src: Seq<char>,
    pub test: Seq<char>,
    pub build_release: Seq<char>,
    pub build_debug: Seq<char>,
}

/// The extension of a source file; empty where it has none.
pub open spec fn extension_or_empty(path: Seq<char>) -> Seq<char> {
    match extension_of(path) {
        Some(ext) => ext,
        None => Seq::empty(),
    }
}

/// The program of a repository whose source lies at `path` below the source
/// directory. Its test cases lie below the test directory, at the same path
/// without extensions; its artifacts lie below the two build directories, at
/// the same path.
pub open spec fn program_at(repo: RepositoryView, path: Seq<char>) -> ProgramView {
    ProgramView {
        repo,
        path,
        extension: extension_or_empty(path),
        src: joined(repo.src, path),
        test: bare(joined(repo.test, path)),
        build_release: joined(repo.build_release, path),
        build_debug: joined(repo.build_debug, path),
    }
}

/// The program that a probe of the file system names, or why it names none.
pub open spec fn program_of(repo: RepositoryView, probe: PathProbe) -> Result<
    ProgramView,
    ProgramError,
> {
    match probe {
        PathProbe::Missing => Err(ProgramError::NotFound),
        PathProbe::Unresolved => Err(ProgramError::Unresolved),
        PathProbe::Resolved { path, is_file } => if !is_file {
            Err(ProgramError::NotAFile)
        } else {
            match relative_to(path@, repo.src) {
                None => Err(ProgramError::OutsideRepository),
                Some(rest) => Ok(program_at(repo, rest)),
            }
        },
    }
}

/// An entry that walking the source directory gave: its path, whether it is
/// a regular file, and when it was modified, where that is known.
#[derive(Clone, Debug)]
pub struct Walked {
    pub path: String,
    pub is_file: bool,
    pub modified: Option<Stamp>,
}

/// Whether a walked entry is a solution with a known modification time: a
/// regular file whose extension names a language of the repository.
pub open spec fn candidate(repo: RepositoryView, entry: Walked) -> bool {
    &&& entry.is_file
    &&& entry.modified is Some
    &&& extension_of(entry.path@) matches Some(ext) && repo.config.languages.contains_key(ext)
}

/// The modification time of the chosen entry, or the Unix epoch where none
/// is chosen.
pub open spec fn latest(walked: Seq<Walked>, choice: Option<int>) -> Stamp {
    match choice {
        Some(i) => walked[i].modified->0,
        None => epoch(),
    }
}

/// The index of the solution that was modified last among the first `upto`
/// entries. A solution is chosen where it was modified after the one chosen
/// before it, and the first one where it was modified after the Unix epoch.
pub open spec fn recent_upto(repo: RepositoryView, walked: Seq<Walked>, upto: int) -> Option<int>
    decreases upto,
{
    if upto <= 0 {
        None
    } else {
        let before = recent_upto(repo, walked, upto - 1);
        if candidate(repo, walked[upto - 1]) && latest(walked, before).precedes(
            walked[upto - 1].modified->0,
        ) {
            Some(upto - 1)
        } else {
            before
        }
    }
}

/// Whether entry `i` is the solution that was modified last among the first
/// `upto` entries: it is a solution that was modified after the Unix epoch,
/// no solution among them was modified later, and none before it as late.
pub open spec fn most_recent(repo: RepositoryView, walked: Seq<Walked>, upto: int, i: int) -> bool {
    &&& 0 <= i < upto
    &&& candidate(repo, walked[i])
    &&& epoch().precedes(walked[i].modified->0)
    &&& forall|k: int|
        0 <= k < upto && candidate(repo, #[trigger] walked[k]) ==> !walked[i].modified->0.precedes(
            walked[k].modified->0,
        )
    &&& forall|k: int|
        0 <= k < i && candidate(repo, #[trigger] walked[k]) ==> walked[k].modified->0.precedes(
            walked[i].modified->0,
        )
}

/// Whether no solution among the first `upto` entries was modified after the
/// Unix epoch.
pub open spec fn none_recent(repo: RepositoryView, walked: Seq<Walked>, upto: int) -> bool {
    forall|k: int|
        0 <= k < upto && candidate(repo, #[trigger] walked[k]) ==> !epoch().precedes(
            walked[k].modified->0,
        )
}

/// What `recent_upto` chooses is the solution that was modified last among
/// the first `upto` entries. Where it chooses nothing, no solution among
/// them was modified after the Unix epoch.
pub proof fn lemma_recent_is_latest(repo: RepositoryView, walked: Seq<Walked>, upto: int)
    requires
        0 <= upto <= walked.len(),
    ensures
        match recent_upto(repo, walked, upto) {
            Some(i) => most_recent(repo, walked, upto, i),
            None => none_recent(repo, walked, upto),
        },
    decreases upto,
{
    if upto > 0 {
        lemma_recent_is_latest(repo, walked, upto - 1);
    }
}

impl Repository {
    /// The repository at `root` with the given settings.
    pub fn new(root: String, config: Config) -> (repo: Repository)
        ensures
            repo@ == repository_at(root@, config@),
    {
        let config_path = join(root.as_str(), "Coman.toml");
        let src = join(root.as_str(), config.src_dir.as_str());
        let test = join(root.as_str(), config.test_dir.as_str());
        let build = join(root.as_str(), config.build_dir.as_str());
        let build_release = join(build.as_str(), "release");
        let build_debug = join(build.as_str(), "debug");
        Repository { config, config_path, root, src, test, build, build_release, build_debug }
    }

    /// The repository at `root`, from what reading its configuration file
    /// gave. A repository without that file has the default settings.
    pub fn read(root: String, file: ConfigFile) -> (repo: Result<Repository, ReadError>)
        ensures
            match repo {
                Ok(r) => match file {
                    ConfigFile::Missing => r@ == repository_at(root@, default_config()),
                    ConfigFile::Parsed(config) => r@ == repository_at(root@, config@),
                    _ => false,
                },
                Err(e) => match file {
                    ConfigFile::Unreadable => e == ReadError::Read,
                    ConfigFile::Malformed => e == ReadError::Parse,
                    _ => false,
                },
            },
    {
        match file {
            ConfigFile::Missing => Ok(Repository::new(root, Config::default())),
            ConfigFile::Parsed(config) => Ok(Repository::new(root, config)),
            ConfigFile::Unreadable => Err(ReadError::Read),
            ConfigFile::Malformed => Err(ReadError::Parse),
        }
    }

    /// The settings.
    pub fn config(&self) -> (config: &Config)
        ensures
            config@ == self@.config,
    {
        &self.config
    }

    /// The path of the configuration file.
    pub fn config_path(&self) -> (path: &str)
        ensures
            path@ == self@.config_path,
    {
        self.config_path.as_str()
    }

    /// The root directory.
    pub fn root(&self) -> (path: &str)
        ensures
            path@ == self@.root,
    {
        self.root.as_str()
    }

    /// The directory of the sources.
    pub fn source_path(&self) -> (path: &str)
        ensures
            path@ == self@.src,
    {
        self.src.as_str()
    }

    /// The directory of the test cases.
    pub fn test_path(&self) -> (path: &str)
        ensures
            path@ == self@.test,
    {
        self.test.as_str()
    }

    /// The directory of the build artifacts.
    pub fn build_path(&self) -> (path: &str)
        ensures
            path@ == self@.build,
    {
        self.build.as_str()
    }

    /// The directory of the release artifacts.
    pub fn build_release_path(&self) -> (path: &str)
        ensures
            path@ == self@.build_release,
    {
        self.build_release.as_str()
    }

    /// The directory of the debug artifacts.
    pub fn build_debug_path(&self) -> (path: &str)
        ensures
            path@ == self@.build_debug,
    {
        self.build_debug.as_str()
    }

    /// The program whose source lies at `path` below the source directory.
    /// The directory of its test cases has no extension.
    pub fn program(&self, path: String) -> (program: Program<'_>)
        ensures
            program@ == program_at(self@, path@),
            extension_of(program@.test) is None,
    {
        let ext = match extension(path.as_str()) {
            Some(ext) => ext,
            None => String::new(),
        };
        let src = join(self.src.as_str(), path.as_str());
        let test = strip_extensions(join(self.test.as_str(), path.as_str()));
        let build_release = join(self.build_release.as_str(), path.as_str());
        let build_debug = join(self.build_debug.as_str(), path.as_str());
        Program { repo: self, path, extension: ext, src, test, build_release, build_debug }
    }

    /// Whether a walked entry is a solution with a known modification time.
    fn is_candidate(&self, entry: &Walked) -> (yes: bool)
        ensures
            yes == candidate(self@, *entry),
    {
        if !entry.is_file || entry.modified.is_none() {
            return false;
        }
        match extension(entry.path.as_str()) {
            Some(ext) => self.config.languages.contains_key(ext.as_str()),
            None => false,
        }
    }

    /// The path of the solution that was modified last, among the entries
    /// that walking the source directory gave; of several that were
    /// modified last, the first. There is none where no solution was
    /// modified after the Unix epoch.
    pub fn find_recent_program(&self, walked: &Vec<Walked>) -> (found: Result<String, ProgramError>)
        ensures
            match found {
                Ok(path) => recent_upto(self@, walked@, walked@.len() as int) matches Some(i)
                    && path@ == walked@[i].path@ && most_recent(
                    self@,
                    walked@,
                    walked@.len() as int,
                    i,
                ),
                Err(e) => recent_upto(self@, walked@, walked@.len() as int) is None && e
                    == ProgramError::NoSolutions && none_recent(
                    self@,
                    walked@,
                    walked@.len() as int,
                ),
            },
    {
        proof {
            lemma_recent_is_latest(self@, walked@, walked@.len() as int);
        }
        let mut best: Option<usize> = None;
        let mut best_time = Stamp::unix_epoch();
        let mut i: usize = 0;
        while i < walked.len()
            invariant
                i <= walked@.len(),
                best_time == latest(walked@, recent_upto(self@, walked@, i as int)),
                match best {
                    Some(b) => b < i && recent_upto(self@, walked@, i as int) == Some(b as int),
                    None => recent_upto(self@, walked@, i as int) is None,
                },
            decreases walked@.len() - i,
        {
            if self.is_candidate(&walked[i]) {
                let modified = walked[i].modified.unwrap();
                if best_time.before(&modified) {
                    best_time = modified;
                    best = Some(i);
                }
            }
            i = i + 1;
        }
        match best {
            Some(b) => Ok(walked[b].path.clone()),
            None => Err(ProgramError::NoSolutions),
        }
    }

    /// The program that a probe of the file system names. The path must
    /// resolve to a regular file below the source directory.
    pub fn get_program(&self, probe: PathProbe) -> (found: Result<Program<'_>, ProgramError>)
        ensures
            match found {
                Ok(program) => program_of(self@, probe) == Ok::<ProgramView, ProgramError>(
                    program@,
                ) && extension_of(program@.test) is None,
                Err(e) => program_of(self@, probe) == Err::<ProgramView, ProgramError>(e),
            },
    {
        match probe {
            PathProbe::Missing => Err(ProgramError::NotFound),
            PathProbe::Unresolved => Err(ProgramError::Unresolved),
            PathProbe::Resolved { path, is_file } => {
                if !is_file {
                    return Err(ProgramError::NotAFile);
                }
                match strip_prefix(path.as_str(), self.src.as_str()) {
                    None => Err(ProgramError::OutsideRepository),
                    Some(rest) => Ok(self.program(rest)),
                }
            },
        }
    }
}

/// A program in a repository. It does not change once made.
#[derive(Debug)]
pub struct Program<'a> {
    repo: &'a Repository,
    path: String,
    extension: String,
    src: String,
    test: String,
    build_release: String,
    build_debug: String,
}

impl<'a> View for Program<'a> {
    type V = ProgramView;

    closed spec fn view(&self) -> ProgramView {
        ProgramView {
            repo: self.repo@,
            path: self.path@,
            extension: self.extension@,
            src: self.src@,
            test: self.test@,
            build_release: self.build_release@,
            build_debug: self.build_debug@,
        }
    }
}

impl<'a> Program<'a> {
    /// The repository that holds the program.
    pub fn repository(&self) -> (repo: &Repository)
        ensures
            repo@ == self@.repo,
    {
        self.repo
    }

    /// The name of the program: the path of its source below the source
    /// directory.
    pub fn name(&self) -> (name: &str)
        ensures
            name@ == self@.path,
    {
        self.path.as_str()
    }

    /// The path of the source file.
    pub fn source_path(&self) -> (path: &str)
        ensures
            path@ == self@.src,
    {
        self.src.as_str()
    }

    /// The extension of the source file; empty where it has none.
    pub fn source_extension(&self) -> (ext: &str)
        ensures
            ext@ == self@.extension,
    {
        self.extension.as_str()
    }

    /// The directory of the program's test cases.
    pub fn test_path(&self) -> (path: &str)
        ensures
            path@ == self@.test,
    {
        self.test.as_str()
    }

    /// The path of the release artifact.
    pub fn build_release_path(&self) -> (path: &str)
        ensures
            path@ == self@.build_release,
    {
        self.build_release.as_str()
    }

    /// The path of the debug artifact.
    pub fn build_debug_path(&self) -> (path: &str)
        ensures
            path@ == self@.build_debug,
    {
        self.build_debug.as_str()
    }

    /// The path of the artifact of the given variant.
    pub fn build_path(&self, debug: bool) -> (path: &str)
        ensures
            path@ == if debug {
                self@.build_debug
            } else {
                self@.build_release
            },
    {
        if debug {
            self.build_debug_path()
        } else {
            self.build_release_path()
        }
    }

    /// The language the program is written in, where the settings know the
    /// extension of its source.
    pub fn language(&self) -> (language: Option<&Language>)
        ensures
            match language {
                Some(l) => self@.repo.config.languages.contains_key(self@.extension)
                    && self@.repo.config.languages[self@.extension] == l@,
                None => !self@.repo.config.languages.contains_key(self@.extension),
            },
    {
        self.repo.config().languages.get(self.source_extension())
    }
}

} // verus!
