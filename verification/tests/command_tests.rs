use coman::builder::{
    compile, finish_build, is_dirty, recompile, watched, BuildError, BuildStep, Carried, Stamps,
};
use coman::command::{
    debug, eval_command_template, fill, get_debug_command, get_run_command, run, start_process,
    Stream,
};
use coman::config::{Config, Language};
use coman::repo::{PathProbe, Repository};
use coman::stamp::Stamp;

fn words(list: &[&str]) -> Vec<String> {
    list.iter().map(|s| s.to_string()).collect()
}

fn repository() -> Repository {
    let mut config = Config::default();
    config.languages.insert(
        "cpp".to_string(),
        Language {
            compile: words(&["g++", "-O2", "{source}", "-o", "{build}"]),
            compile_debug: words(&["g++", "-g", "{source}", "-o", "{build}", "-I{root}"]),
            run: vec![],
            debug: words(&["gdb", "{build}"]),
        },
    );
    config.languages.insert(
        "py".to_string(),
        Language {
            compile: vec![],
            compile_debug: vec![],
            run: words(&["python3", "{build}", "{root}", "{source}", "{other}"]),
            debug: vec![],
        },
    );
    config.languages.insert(
        "c".to_string(),
        Language {
            compile: words(&["cc", "{source}"]),
            compile_debug: vec![],
            run: vec![],
            debug: vec![],
        },
    );
    Repository::new("/repo".to_string(), config)
}

fn at(path: &str) -> PathProbe {
    PathProbe::Resolved { path: path.to_string(), is_file: true }
}

fn stamp(secs: i64) -> Option<Stamp> {
    Some(Stamp { secs, nanos: 0 })
}

#[test]
fn tokens_are_filled_in() {
    let repo = repository();
    let program = repo.get_program(at("/repo/src/a.cpp")).unwrap();
    assert_eq!(fill(&program, "{source}", false), "/repo/src/a.cpp");
    assert_eq!(fill(&program, "{build}", false), "/repo/build/release/a.cpp");
    assert_eq!(fill(&program, "{build}", true), "/repo/build/debug/a.cpp");
    assert_eq!(fill(&program, "{root}", true), "/repo");
    assert_eq!(fill(&program, "-O2", false), "-O2");
    assert_eq!(fill(&program, "{Source}", false), "{Source}");
    assert_eq!(fill(&program, "-I{root}", false), "-I{root}");
    assert_eq!(fill(&program, "", false), "");
}

#[test]
fn template_becomes_command() {
    let repo = repository();
    let program = repo.get_program(at("/repo/src/a.cpp")).unwrap();
    let template = words(&["{build}", "{source}", "x", "{build}", "{root}"]);
    let command = eval_command_template(&program, &template, true);
    assert_eq!(command.program, "{build}");
    assert_eq!(
        command.args,
        words(&["/repo/src/a.cpp", "x", "/repo/build/debug/a.cpp", "/repo"])
    );
    let alone = eval_command_template(&program, &words(&["true"]), false);
    assert_eq!(alone.program, "true");
    assert!(alone.args.is_empty());
}

#[test]
fn run_command_is_the_artifact_by_default() {
    let repo = repository();
    let program = repo.get_program(at("/repo/src/a.cpp")).unwrap();
    let command = get_run_command(&program);
    assert_eq!(command.program, "/repo/build/release/a.cpp");
    assert!(command.args.is_empty());
    let unknown = repo.get_program(at("/repo/src/a.rs")).unwrap();
    assert_eq!(get_run_command(&unknown).program, "/repo/build/release/a.rs");
}

#[test]
fn run_command_from_template() {
    let repo = repository();
    let program = repo.get_program(at("/repo/src/s.py")).unwrap();
    let command = get_run_command(&program);
    assert_eq!(command.program, "python3");
    assert_eq!(
        command.args,
        words(&["/repo/build/release/s.py", "/repo", "/repo/src/s.py", "{other}"])
    );
}

#[test]
fn run_appends_arguments_and_inherits_streams() {
    let repo = repository();
    let program = repo.get_program(at("/repo/src/s.py")).unwrap();
    let launch = run(&program, &words(&["-x", "1"]));
    assert_eq!(launch.command.program, "python3");
    assert_eq!(launch.command.args.len(), 6);
    assert_eq!(launch.command.args[4], "-x");
    assert_eq!(launch.command.args[5], "1");
    assert_eq!(launch.stdin, Stream::Inherit);
    assert_eq!(launch.stdout, Stream::Inherit);
    assert_eq!(launch.stderr, Stream::Inherit);
}

#[test]
fn test_process_is_piped() {
    let repo = repository();
    let program = repo.get_program(at("/repo/src/a.cpp")).unwrap();
    let captured = start_process(&program, &words(&["7"]), true);
    assert_eq!(captured.command.program, "/repo/build/release/a.cpp");
    assert_eq!(captured.command.args, words(&["7"]));
    assert_eq!(captured.stdin, Stream::Pipe);
    assert_eq!(captured.stdout, Stream::Pipe);
    assert_eq!(captured.stderr, Stream::Pipe);
    let discarded = start_process(&program, &vec![], false);
    assert_eq!(discarded.stderr, Stream::Discard);
    assert!(discarded.command.args.is_empty());
}

#[test]
fn debug_command_uses_the_debug_artifact() {
    let repo = repository();
    let program = repo.get_program(at("/repo/src/a.cpp")).unwrap();
    let command = get_debug_command(&program).unwrap();
    assert_eq!(command.program, "gdb");
    assert_eq!(command.args, words(&["/repo/build/debug/a.cpp"]));
    let launch = debug(&program).unwrap();
    assert_eq!(launch.command.program, "gdb");
    assert_eq!(launch.stdin, Stream::Inherit);
    assert_eq!(launch.stdout, Stream::Inherit);
    assert_eq!(launch.stderr, Stream::Inherit);
}

#[test]
fn no_debugger_names_the_extension() {
    let repo = repository();
    let script = repo.get_program(at("/repo/src/s.py")).unwrap();
    assert_eq!(get_debug_command(&script).unwrap_err().extension, "py");
    assert_eq!(debug(&script).unwrap_err().extension, "py");
    let unknown = repo.get_program(at("/repo/src/a.rs")).unwrap();
    assert_eq!(get_debug_command(&unknown).unwrap_err().extension, "rs");
}

#[test]
fn dirty_when_anything_is_newer_or_unknown() {
    let fresh = Stamps { artifact: stamp(10), source: stamp(10), config: stamp(9) };
    assert!(!is_dirty(fresh));
    assert!(is_dirty(Stamps { source: stamp(11), ..fresh }));
    assert!(is_dirty(Stamps { config: stamp(11), ..fresh }));
    assert!(is_dirty(Stamps { artifact: None, ..fresh }));
    assert!(is_dirty(Stamps { source: None, ..fresh }));
    assert!(is_dirty(Stamps { config: None, ..fresh }));
    let nanos = Stamps {
        artifact: Some(Stamp { secs: 10, nanos: 1 }),
        source: Some(Stamp { secs: 10, nanos: 2 }),
        config: stamp(1),
    };
    assert!(is_dirty(nanos));
}

#[test]
fn watched_files() {
    let repo = repository();
    let program = repo.get_program(at("/repo/src/a.cpp")).unwrap();
    let release = watched(&program, false);
    assert_eq!(release.artifact, "/repo/build/release/a.cpp");
    assert_eq!(release.source, "/repo/src/a.cpp");
    assert_eq!(release.config, "/repo/Coman.toml");
    assert_eq!(watched(&program, true).artifact, "/repo/build/debug/a.cpp");
}

#[test]
fn recompile_invokes_the_compiler() {
    let repo = repository();
    let program = repo.get_program(at("/repo/src/dir/a.cpp")).unwrap();
    let recipe = recompile(&program, false).unwrap();
    assert_eq!(recipe.directory.unwrap(), "/repo/build/release/dir");
    match recipe.step {
        BuildStep::Invoke { command } => {
            assert_eq!(command.program, "g++");
            assert_eq!(
                command.args,
                words(&["-O2", "/repo/src/dir/a.cpp", "-o", "/repo/build/release/dir/a.cpp"])
            );
        }
        other => panic!("unexpected step {:?}", other),
    }
}

#[test]
fn recompile_prefers_the_debug_template_for_debug_builds() {
    let repo = repository();
    let program = repo.get_program(at("/repo/src/a.cpp")).unwrap();
    match recompile(&program, true).unwrap().step {
        BuildStep::Invoke { command } => {
            assert_eq!(
                command.args,
                words(&["-g", "/repo/src/a.cpp", "-o", "/repo/build/debug/a.cpp", "-I{root}"])
            );
        }
        other => panic!("unexpected step {:?}", other),
    }
    let c = repo.get_program(at("/repo/src/a.c")).unwrap();
    match recompile(&c, true).unwrap().step {
        BuildStep::Invoke { command } => {
            assert_eq!(command.program, "cc");
            assert_eq!(command.args, words(&["/repo/src/a.c"]));
        }
        other => panic!("unexpected step {:?}", other),
    }
}

#[test]
fn recompile_copies_where_there_is_no_compiler() {
    let repo = repository();
    let program = repo.get_program(at("/repo/src/s.py")).unwrap();
    let recipe = recompile(&program, true).unwrap();
    assert_eq!(recipe.directory.unwrap(), "/repo/build/debug");
    match recipe.step {
        BuildStep::Copy { from, to } => {
            assert_eq!(from, "/repo/src/s.py");
            assert_eq!(to, "/repo/build/debug/s.py");
        }
        other => panic!("unexpected step {:?}", other),
    }
}

#[test]
fn recompile_refuses_unknown_extensions() {
    let repo = repository();
    let program = repo.get_program(at("/repo/src/a.rs")).unwrap();
    match recompile(&program, false).unwrap_err() {
        BuildError::UnknownExtension { extension } => assert_eq!(extension, "rs"),
        other => panic!("unexpected error {:?}", other),
    }
}

#[test]
fn compile_skips_fresh_artifacts() {
    let repo = repository();
    let program = repo.get_program(at("/repo/src/a.cpp")).unwrap();
    let fresh = Stamps { artifact: stamp(10), source: stamp(10), config: stamp(9) };
    assert!(compile(&program, false, fresh).unwrap().is_none());
    let stale = Stamps { artifact: stamp(8), ..fresh };
    assert!(compile(&program, false, stale).unwrap().is_some());
    let unknown = repo.get_program(at("/repo/src/a.rs")).unwrap();
    assert!(compile(&unknown, false, fresh).unwrap().is_none());
    assert!(matches!(
        compile(&unknown, false, stale).unwrap_err(),
        BuildError::UnknownExtension { .. }
    ));
}

#[test]
fn building_twice_compiles_once() {
    let repo = repository();
    let program = repo.get_program(at("/repo/src/a.cpp")).unwrap();
    let first = Stamps { artifact: None, source: stamp(10), config: stamp(9) };
    let plan = compile(&program, false, first).unwrap();
    assert!(matches!(plan.unwrap().step, BuildStep::Invoke { .. }));
    let second = Stamps { artifact: stamp(12), ..first };
    assert!(compile(&program, false, second).unwrap().is_none());
}

#[test]
fn build_results() {
    let repo = repository();
    let program = repo.get_program(at("/repo/src/a.cpp")).unwrap();
    assert!(finish_build(recompile(&program, false).unwrap(), Carried::Done { clean: true }).is_ok());
    match finish_build(recompile(&program, false).unwrap(), Carried::Done { clean: false })
        .unwrap_err()
    {
        BuildError::CompilerFailed { command } => assert_eq!(command.program, "g++"),
        other => panic!("unexpected error {:?}", other),
    }
    match finish_build(recompile(&program, false).unwrap(), Carried::NotDone).unwrap_err() {
        BuildError::SpawnFailed { command } => assert_eq!(command.program, "g++"),
        other => panic!("unexpected error {:?}", other),
    }
    match finish_build(recompile(&program, false).unwrap(), Carried::NoDirectory).unwrap_err() {
        BuildError::CreateDirectory { directory } => assert_eq!(directory, "/repo/build/release"),
        other => panic!("unexpected error {:?}", other),
    }
    let script = repo.get_program(at("/repo/src/s.py")).unwrap();
    assert!(finish_build(recompile(&script, false).unwrap(), Carried::Done { clean: false }).is_ok());
    match finish_build(recompile(&script, false).unwrap(), Carried::NotDone).unwrap_err() {
        BuildError::CopyFailed { from, to } => {
            assert_eq!(from, "/repo/src/s.py");
            assert_eq!(to, "/repo/build/release/s.py");
        }
        other => panic!("unexpected error {:?}", other),
    }
}
