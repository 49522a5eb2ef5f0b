use coman::config::Config;
use coman::fixture::{
    case_id, decode, fixture_paths, get_test_cases, load_test_data_for_case,
    open_optional_test_file, open_test_file, open_test_files_for_case, ArgsFile, Encoding,
    FixtureError, Listed, Listing, Part, Probe, Probes,
};
use coman::repo::{PathProbe, Repository};
use std::io::Read;

fn repository(buffering: bool) -> Repository {
    let mut config = Config::default();
    config.buffering = buffering;
    Repository::new("/repo".to_string(), config)
}

fn at(path: &str) -> PathProbe {
    PathProbe::Resolved { path: path.to_string(), is_file: true }
}

fn name(text: &str) -> Listed {
    Listed::Name(text.to_string())
}

const BOTH_MISSING: Probes = Probes { compressed: Probe::Missing, plain: Probe::Missing };
const PLAIN: Probes = Probes { compressed: Probe::Missing, plain: Probe::Found };
const COMPRESSED: Probes = Probes { compressed: Probe::Found, plain: Probe::Missing };

#[test]
fn case_names_from_file_names() {
    assert_eq!(case_id("1.in").unwrap(), "1");
    assert_eq!(case_id("big.in.xz").unwrap(), "big");
    assert_eq!(case_id("a.b.in").unwrap(), "a.b");
    assert_eq!(case_id(".in").unwrap(), "");
    assert_eq!(case_id(".in.xz").unwrap(), "");
    assert_eq!(case_id("gr\u{fc}n.in").unwrap(), "gr\u{fc}n");
    assert!(case_id("1.out").is_none());
    assert!(case_id("1.in.gz").is_none());
    assert!(case_id("1.IN").is_none());
    assert!(case_id("in").is_none());
    assert!(case_id("1.args").is_none());
    assert!(case_id("").is_none());
    assert!(case_id("1.out.xz").is_none());
}

#[test]
fn cases_of_a_listing() {
    let listing = Listing::Entries(vec![
        name("2.in"),
        name("2.out"),
        name("10.in.xz"),
        Listed::Unnamed,
        name("10.out.xz"),
        name("1.in"),
        name("1.in.xz"),
        name("notes.txt"),
    ]);
    let cases = get_test_cases(&listing).unwrap();
    assert_eq!(cases, vec!["2", "10", "1"]);
}

#[test]
fn a_case_with_both_forms_of_its_input_is_one_case() {
    let listing =
        Listing::Entries(vec![name("a.in"), name("a.in.xz"), name("a.out"), name("b.in")]);
    assert_eq!(get_test_cases(&listing).unwrap(), vec!["a", "b"]);
    let listing =
        Listing::Entries(vec![name("b.in.xz"), name("a.in.xz"), name("b.in"), name("a.in")]);
    assert_eq!(get_test_cases(&listing).unwrap(), vec!["b", "a"]);
    let listing = Listing::Entries(vec![name("x.in"), name("x.in"), name("x.in.xz")]);
    assert_eq!(get_test_cases(&listing).unwrap(), vec!["x"]);
}

#[test]
fn missing_directory_has_no_cases() {
    assert!(get_test_cases(&Listing::Missing).unwrap().is_empty());
    assert!(get_test_cases(&Listing::Entries(vec![])).unwrap().is_empty());
}

#[test]
fn failed_listing_is_an_error() {
    assert_eq!(get_test_cases(&Listing::Failed).unwrap_err(), FixtureError::ReadDirectory);
    let listing = Listing::Entries(vec![name("1.in"), Listed::Failed, name("2.in")]);
    assert_eq!(get_test_cases(&listing).unwrap_err(), FixtureError::ReadDirectory);
}

#[test]
fn part_extensions() {
    assert_eq!(Part::Args.extension(), "args");
    assert_eq!(Part::Input.extension(), "in");
    assert_eq!(Part::Expected.extension(), "out");
}

#[test]
fn paths_of_a_part() {
    let repo = repository(false);
    let program = repo.get_program(at("/repo/src/abc/a.cpp")).unwrap();
    let input = fixture_paths(&program, "1", Part::Input);
    assert_eq!(input.compressed, "/repo/test/abc/a/1.in.xz");
    assert_eq!(input.plain, "/repo/test/abc/a/1.in");
    let expected = fixture_paths(&program, "big", Part::Expected);
    assert_eq!(expected.compressed, "/repo/test/abc/a/big.out.xz");
    assert_eq!(expected.plain, "/repo/test/abc/a/big.out");
    let args = fixture_paths(&program, "x.y", Part::Args);
    assert_eq!(args.compressed, "/repo/test/abc/a/x.y.args.xz");
    assert_eq!(args.plain, "/repo/test/abc/a/x.y.args");
}

#[test]
fn compressed_file_is_preferred() {
    let repo = repository(false);
    let program = repo.get_program(at("/repo/src/a.cpp")).unwrap();
    let both = open_optional_test_file(&program, "1", Part::Input, Probe::Found, Probe::Found)
        .unwrap()
        .unwrap();
    assert_eq!(both.path, "/repo/test/a/1.in.xz");
    assert_eq!(both.encoding, Encoding::Xz);
    assert!(!both.buffered);
    let ignored = open_optional_test_file(&program, "1", Part::Input, Probe::Found, Probe::Failed)
        .unwrap()
        .unwrap();
    assert_eq!(ignored.encoding, Encoding::Xz);
    let plain = open_optional_test_file(&program, "1", Part::Input, Probe::Missing, Probe::Found)
        .unwrap()
        .unwrap();
    assert_eq!(plain.path, "/repo/test/a/1.in");
    assert_eq!(plain.encoding, Encoding::Plain);
}

#[test]
fn buffering_follows_the_settings() {
    let repo = repository(true);
    let program = repo.get_program(at("/repo/src/a.cpp")).unwrap();
    let file = open_test_file(&program, "1", Part::Expected, Probe::Missing, Probe::Found).unwrap();
    assert!(file.buffered);
    assert_eq!(file.path, "/repo/test/a/1.out");
}

#[test]
fn absent_and_unreadable_files() {
    let repo = repository(false);
    let program = repo.get_program(at("/repo/src/a.cpp")).unwrap();
    assert!(
        open_optional_test_file(&program, "1", Part::Args, Probe::Missing, Probe::Missing)
            .unwrap()
            .is_none()
    );
    assert_eq!(
        open_optional_test_file(&program, "1", Part::Args, Probe::Failed, Probe::Found)
            .unwrap_err(),
        FixtureError::Unreadable(Part::Args)
    );
    assert_eq!(
        open_optional_test_file(&program, "1", Part::Input, Probe::Missing, Probe::Failed)
            .unwrap_err(),
        FixtureError::Unreadable(Part::Input)
    );
    assert_eq!(
        open_test_file(&program, "1", Part::Input, Probe::Missing, Probe::Missing).unwrap_err(),
        FixtureError::Missing(Part::Input)
    );
    assert_eq!(
        open_test_file(&program, "1", Part::Expected, Probe::Failed, Probe::Missing).unwrap_err(),
        FixtureError::Unreadable(Part::Expected)
    );
}

#[test]
fn input_is_looked_for_before_expected_output() {
    let repo = repository(false);
    let program = repo.get_program(at("/repo/src/a.cpp")).unwrap();
    let (input, expected) = open_test_files_for_case(&program, "7", PLAIN, COMPRESSED).unwrap();
    assert_eq!(input.path, "/repo/test/a/7.in");
    assert_eq!(expected.path, "/repo/test/a/7.out.xz");
    assert_eq!(expected.encoding, Encoding::Xz);
    assert_eq!(
        open_test_files_for_case(&program, "7", BOTH_MISSING, BOTH_MISSING).unwrap_err(),
        FixtureError::Missing(Part::Input)
    );
    assert_eq!(
        open_test_files_for_case(&program, "7", PLAIN, BOTH_MISSING).unwrap_err(),
        FixtureError::Missing(Part::Expected)
    );
}

#[test]
fn arguments_are_split_at_white_space() {
    let repo = repository(false);
    let program = repo.get_program(at("/repo/src/a.cpp")).unwrap();
    let text = ArgsFile::Text("  --fast\t-n 3\n\nlast\u{a0}one\r\n".to_string());
    let data = load_test_data_for_case(&program, "1", &text, PLAIN, PLAIN).unwrap();
    assert_eq!(data.args, vec!["--fast", "-n", "3", "last", "one"]);
    assert_eq!(data.in_file.path, "/repo/test/a/1.in");
    assert_eq!(data.out_file.path, "/repo/test/a/1.out");
}

#[test]
fn no_arguments_without_a_file_or_words() {
    let repo = repository(false);
    let program = repo.get_program(at("/repo/src/a.cpp")).unwrap();
    let absent = load_test_data_for_case(&program, "1", &ArgsFile::Absent, PLAIN, PLAIN).unwrap();
    assert!(absent.args.is_empty());
    let blank = ArgsFile::Text(" \n\t ".to_string());
    assert!(load_test_data_for_case(&program, "1", &blank, PLAIN, PLAIN).unwrap().args.is_empty());
    let empty = ArgsFile::Text(String::new());
    assert!(load_test_data_for_case(&program, "1", &empty, PLAIN, PLAIN).unwrap().args.is_empty());
}

#[test]
fn arguments_are_settled_first() {
    let repo = repository(false);
    let program = repo.get_program(at("/repo/src/a.cpp")).unwrap();
    assert_eq!(
        load_test_data_for_case(&program, "1", &ArgsFile::Unreadable, BOTH_MISSING, PLAIN)
            .unwrap_err(),
        FixtureError::Unreadable(Part::Args)
    );
    assert_eq!(
        load_test_data_for_case(&program, "1", &ArgsFile::Absent, BOTH_MISSING, PLAIN)
            .unwrap_err(),
        FixtureError::Missing(Part::Input)
    );
    assert_eq!(
        load_test_data_for_case(&program, "1", &ArgsFile::Absent, PLAIN, BOTH_MISSING)
            .unwrap_err(),
        FixtureError::Missing(Part::Expected)
    );
}

#[test]
fn plain_bytes_are_taken_as_they_are() {
    let bytes = vec![0u8, 255, 10, 13];
    assert_eq!(decode(Part::Input, Encoding::Plain, bytes.clone()).unwrap(), bytes);
    assert!(decode(Part::Input, Encoding::Plain, vec![]).unwrap().is_empty());
}

#[test]
fn compressed_bytes_are_decompressed() {
    let content = b"3\n1 2\n".to_vec();
    let mut compressed = Vec::new();
    xz2::read::XzEncoder::new(&content[..], 6).read_to_end(&mut compressed).unwrap();
    assert_ne!(compressed, content);
    assert_eq!(decode(Part::Input, Encoding::Xz, compressed).unwrap(), content);
}

#[test]
fn corrupt_compressed_bytes_are_refused() {
    assert_eq!(
        decode(Part::Expected, Encoding::Xz, b"this is no xz stream".to_vec()).unwrap_err(),
        FixtureError::Corrupt(Part::Expected)
    );
    let content = vec![7u8; 1000];
    let mut compressed = Vec::new();
    xz2::read::XzEncoder::new(&content[..], 6).read_to_end(&mut compressed).unwrap();
    compressed.truncate(compressed.len() / 2);
    assert_eq!(
        decode(Part::Input, Encoding::Xz, compressed).unwrap_err(),
        FixtureError::Corrupt(Part::Input)
    );
}
