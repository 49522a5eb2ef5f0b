use coman::config::{Config, Language, Languages};
use coman::repo::{
    strip_extensions, ConfigFile, PathProbe, ProgramError, ReadError, Repository, Walked,
};
use coman::stamp::Stamp;

fn cpp() -> Language {
    Language {
        compile: vec!["g++".to_string(), "{source}".to_string(), "-o".to_string(), "{build}".to_string()],
        compile_debug: vec![],
        run: vec![],
        debug: vec!["gdb".to_string(), "{build}".to_string()],
    }
}

fn python() -> Language {
    Language {
        compile: vec![],
        compile_debug: vec![],
        run: vec!["python3".to_string(), "{build}".to_string()],
        debug: vec![],
    }
}

fn config() -> Config {
    let mut config = Config::default();
    config.languages.insert("cpp".to_string(), cpp());
    config.languages.insert("py".to_string(), python());
    config
}

fn found(path: &str) -> PathProbe {
    PathProbe::Resolved { path: path.to_string(), is_file: true }
}

#[test]
fn default_config_values() {
    let config = Config::default();
    assert_eq!(config.src_dir, "src");
    assert_eq!(config.test_dir, "test");
    assert_eq!(config.build_dir, "build");
    assert_eq!(config.soft_timeout, 2000);
    assert_eq!(config.hard_timeout, 5000);
    assert!(!config.buffering);
    assert_eq!(config.languages.len(), 0);
}

#[test]
fn default_language_is_empty() {
    let language = Language::default();
    assert!(language.compile.is_empty());
    assert!(language.compile_debug.is_empty());
    assert!(language.run.is_empty());
    assert!(language.debug.is_empty());
}

#[test]
fn languages_behave_as_a_map() {
    let mut table = Languages::new();
    assert_eq!(table.len(), 0);
    assert!(!table.contains_key("cpp"));
    assert!(table.get("cpp").is_none());
    assert!(table.insert("cpp".to_string(), cpp()).is_none());
    assert!(table.insert("py".to_string(), python()).is_none());
    assert_eq!(table.len(), 2);
    assert!(table.contains_key("cpp"));
    assert!(table.contains_key("py"));
    assert!(!table.contains_key("c"));
    assert_eq!(table.get("py").unwrap().run, vec!["python3".to_string(), "{build}".to_string()]);
    let previous = table.insert("cpp".to_string(), python()).unwrap();
    assert_eq!(previous.compile[0], "g++");
    assert_eq!(table.len(), 2);
    assert!(table.get("cpp").unwrap().compile.is_empty());
}

#[test]
fn languages_clone_keeps_entries() {
    let config = config();
    let copy = config.clone();
    assert_eq!(copy.languages.len(), 2);
    assert_eq!(copy.languages.get("cpp").unwrap().compile, cpp().compile);
    assert_eq!(copy.src_dir, "src");
    assert_eq!(copy.hard_timeout, 5000);
}

#[test]
fn repository_paths() {
    let repo = Repository::new("/repo".to_string(), Config::default());
    assert_eq!(repo.root(), "/repo");
    assert_eq!(repo.config_path(), "/repo/Coman.toml");
    assert_eq!(repo.source_path(), "/repo/src");
    assert_eq!(repo.test_path(), "/repo/test");
    assert_eq!(repo.build_path(), "/repo/build");
    assert_eq!(repo.build_release_path(), "/repo/build/release");
    assert_eq!(repo.build_debug_path(), "/repo/build/debug");
    assert_eq!(repo.config().soft_timeout, 2000);
}

#[test]
fn repository_with_own_directories() {
    let mut config = Config::default();
    config.src_dir = "solutions".to_string();
    config.test_dir = "cases/all".to_string();
    config.build_dir = "/tmp/out".to_string();
    let repo = Repository::new("/repo".to_string(), config);
    assert_eq!(repo.source_path(), "/repo/solutions");
    assert_eq!(repo.test_path(), "/repo/cases/all");
    assert_eq!(repo.build_path(), "/tmp/out");
    assert_eq!(repo.build_debug_path(), "/tmp/out/debug");
}

#[test]
fn repository_read_falls_back_to_defaults() {
    let repo = Repository::read("/repo".to_string(), ConfigFile::Missing).unwrap();
    assert_eq!(repo.source_path(), "/repo/src");
    assert_eq!(repo.config().hard_timeout, 5000);
    let mut config = Config::default();
    config.hard_timeout = 9000;
    let repo = Repository::read("/repo".to_string(), ConfigFile::Parsed(config)).unwrap();
    assert_eq!(repo.config().hard_timeout, 9000);
    assert_eq!(
        Repository::read("/repo".to_string(), ConfigFile::Unreadable).unwrap_err(),
        ReadError::Read
    );
    assert_eq!(
        Repository::read("/repo".to_string(), ConfigFile::Malformed).unwrap_err(),
        ReadError::Parse
    );
}

#[test]
fn program_paths() {
    let repo = Repository::new("/repo".to_string(), config());
    let program = repo.get_program(found("/repo/src/abc/a.cpp")).unwrap();
    assert_eq!(program.name(), "abc/a.cpp");
    assert_eq!(program.source_path(), "/repo/src/abc/a.cpp");
    assert_eq!(program.source_extension(), "cpp");
    assert_eq!(program.test_path(), "/repo/test/abc/a");
    assert_eq!(program.build_release_path(), "/repo/build/release/abc/a.cpp");
    assert_eq!(program.build_debug_path(), "/repo/build/debug/abc/a.cpp");
    assert_eq!(program.build_path(false), "/repo/build/release/abc/a.cpp");
    assert_eq!(program.build_path(true), "/repo/build/debug/abc/a.cpp");
    assert_eq!(program.repository().root(), "/repo");
    assert_eq!(program.language().unwrap().compile[0], "g++");
}

#[test]
fn program_without_extension_or_language() {
    let repo = Repository::new("/repo".to_string(), config());
    let plain = repo.get_program(found("/repo/src/Makefile")).unwrap();
    assert_eq!(plain.source_extension(), "");
    assert!(plain.language().is_none());
    assert_eq!(plain.test_path(), "/repo/test/Makefile");
    let rust = repo.get_program(found("/repo/src/a.rs")).unwrap();
    assert_eq!(rust.source_extension(), "rs");
    assert!(rust.language().is_none());
}

#[test]
fn test_directory_drops_all_extensions() {
    let repo = Repository::new("/repo".to_string(), config());
    let program = repo.get_program(found("/repo/src/a.tar.gz")).unwrap();
    assert_eq!(program.source_extension(), "gz");
    assert_eq!(program.test_path(), "/repo/test/a");
    assert_eq!(strip_extensions("x/y.z/a.b.c".to_string()), "x/y.z/a");
    assert_eq!(strip_extensions("plain".to_string()), "plain");
    assert_eq!(strip_extensions(".hidden".to_string()), ".hidden");
    assert_eq!(strip_extensions("".to_string()), "");
}

#[test]
fn program_errors() {
    let repo = Repository::new("/repo".to_string(), config());
    assert_eq!(repo.get_program(PathProbe::Missing).unwrap_err(), ProgramError::NotFound);
    assert_eq!(repo.get_program(PathProbe::Unresolved).unwrap_err(), ProgramError::Unresolved);
    let directory = PathProbe::Resolved { path: "/repo/src/abc".to_string(), is_file: false };
    assert_eq!(repo.get_program(directory).unwrap_err(), ProgramError::NotAFile);
    assert_eq!(
        repo.get_program(found("/elsewhere/a.cpp")).unwrap_err(),
        ProgramError::OutsideRepository
    );
    assert_eq!(
        repo.get_program(found("/repo/test/a.cpp")).unwrap_err(),
        ProgramError::OutsideRepository
    );
    let outside_dir = PathProbe::Resolved { path: "/elsewhere".to_string(), is_file: false };
    assert_eq!(repo.get_program(outside_dir).unwrap_err(), ProgramError::NotAFile);
}

#[test]
fn program_by_relative_path() {
    let repo = Repository::new("/repo".to_string(), config());
    let program = repo.program("b.py".to_string());
    assert_eq!(program.name(), "b.py");
    assert_eq!(program.source_path(), "/repo/src/b.py");
    assert_eq!(program.language().unwrap().run[0], "python3");
}

fn walked(path: &str, is_file: bool, modified: Option<i64>) -> Walked {
    Walked {
        path: path.to_string(),
        is_file,
        modified: modified.map(|secs| Stamp { secs, nanos: 0 }),
    }
}

#[test]
fn most_recent_solution_is_found() {
    let repo = Repository::new("/repo".to_string(), config());
    let entries = vec![
        walked("/repo/src", false, Some(900)),
        walked("/repo/src/a.cpp", true, Some(100)),
        walked("/repo/src/notes.txt", true, Some(999)),
        walked("/repo/src/b.py", true, Some(300)),
        walked("/repo/src/c.cpp", true, Some(200)),
        walked("/repo/src/d.cpp", true, None),
    ];
    assert_eq!(repo.find_recent_program(&entries).unwrap(), "/repo/src/b.py");
}

#[test]
fn first_of_equally_recent_solutions_wins() {
    let repo = Repository::new("/repo".to_string(), config());
    let entries = vec![
        walked("/repo/src/a.cpp", true, Some(300)),
        walked("/repo/src/b.cpp", true, Some(300)),
    ];
    assert_eq!(repo.find_recent_program(&entries).unwrap(), "/repo/src/a.cpp");
}

#[test]
fn nanoseconds_break_ties() {
    let repo = Repository::new("/repo".to_string(), config());
    let entries = vec![
        Walked { path: "a.cpp".to_string(), is_file: true, modified: Some(Stamp { secs: 5, nanos: 1 }) },
        Walked { path: "b.cpp".to_string(), is_file: true, modified: Some(Stamp { secs: 5, nanos: 2 }) },
    ];
    assert_eq!(repo.find_recent_program(&entries).unwrap(), "b.cpp");
}

#[test]
fn no_solution_is_an_error() {
    let repo = Repository::new("/repo".to_string(), config());
    assert_eq!(repo.find_recent_program(&vec![]).unwrap_err(), ProgramError::NoSolutions);
    let entries = vec![
        walked("/repo/src/notes.txt", true, Some(5)),
        walked("/repo/src/a.cpp", false, Some(5)),
        walked("/repo/src/b.cpp", true, None),
    ];
    assert_eq!(repo.find_recent_program(&entries).unwrap_err(), ProgramError::NoSolutions);
}

#[test]
fn solutions_from_the_epoch_or_before_are_passed_over() {
    let repo = Repository::new("/repo".to_string(), config());
    let entries = vec![walked("a.cpp", true, Some(0)), walked("b.cpp", true, Some(-5))];
    assert_eq!(repo.find_recent_program(&entries).unwrap_err(), ProgramError::NoSolutions);
}

#[test]
fn stamps_are_ordered() {
    let early = Stamp { secs: 1, nanos: 999_999_999 };
    let late = Stamp { secs: 2, nanos: 0 };
    assert!(early.before(&late));
    assert!(!late.before(&early));
    assert!(!early.before(&early));
    assert!(Stamp { secs: -1, nanos: 5 }.before(&Stamp::unix_epoch()));
    assert_eq!(Stamp::unix_epoch(), Stamp { secs: 0, nanos: 0 });
}

#[test]
fn stripped_paths_have_no_extension_left() {
    let samples = [
        "a.", "a..", "...", "..", ".", "a.b/", "x.tar.gz/", "dir.d/file", "dir.d/file.x.y",
        ".a.b", "a/..", "a/.b.c.d", "gr\u{fc}n.\u{e4}.\u{df}", "a.b.c.d.e.f.g", "/", "",
        "a. b.c", "a.=", "/repo/test/abc.d/a.cpp",
    ];
    for sample in samples {
        let stripped = strip_extensions(sample.to_string());
        assert!(std::path::Path::new(&stripped).extension().is_none());
        assert!(sample.starts_with(&stripped));
    }
    assert_eq!(strip_extensions("a..".to_string()), "a");
    assert_eq!(strip_extensions("x.tar.gz/".to_string()), "x");
    assert_eq!(strip_extensions("dir.d/file.x.y".to_string()), "dir.d/file");
    assert_eq!(strip_extensions("a/.b.c.d".to_string()), "a/.b");
}
