//! The files of a test case: how the cases of a program are found in its
//! test directory, which file holds each part of a case, and how the bytes
//! of a file become the bytes of the part.
//!
//! For a case `X` the input lies in `X.in` or `X.in.xz`, the expected output
//! in `X.out` or `X.out.xz`, and further arguments for the program in
//! `X.args` or `X.args.xz`. Where both forms of a file exist, the compressed
//! one is taken.

use vstd::prelude::*;
use vstd::string::*;
use crate::path::{drop_extension, join, joined, without_extension};
use crate::repo::{Program, ProgramView};
use crate::text::{cut_end, ends_with, glue, has_suffix, same_text, split_words, texts, words};

verus! {

/// The bytes that an xz stream holds, as `xz2::read::XzDecoder` reads them
/// to the end; `None` where reading fails.
pub uninterp spec fn xz_decoded(raw: Seq<u8>) -> Option<Seq<u8>>;

/// Reads an `xz2::read::XzDecoder` over the given bytes to its end. The
/// result is a function of the bytes alone; nothing more is claimed of it.
#[verifier::external_body]
pub(crate) fn xz_decode(raw: &[u8]) -> (plain: Option<Vec<u8>>)
    ensures
        match plain {
            Some(bytes) => xz_decoded(raw@) == Some(bytes@),
            None => xz_decoded(raw@) is None,
        },
{
    let mut plain = Vec::new();
    match std::io::Read::read_to_end(&mut xz2::read::XzDecoder::new(raw), &mut plain) {
        Ok(_) => Some(plain),
        Err(_) => None,
    }
}

/// One part of a test case.
#[derive(Clone, Copy, Debug, PartialEq, Eq, Structural)]
pub enum Part {
    /// Further arguments for the program.
    Args,
    /// What the program reads.
    Input,
    /// What the program is to print.
    Expected,
}

/// The extension of the file that holds a part.
pub open spec fn extension_of_part(part: Part) -> Seq<char> {
    match part {
        Part::Args => "args"@,
        Part::Input => "in"@,
        Part::Expected => "out"@,
    }
}

impl Part {
    /// The extension of the file that holds the part.
    pub fn extension(self) -> (ext: &'static str)
        ensures
            ext@ == extension_of_part(self),
    {
        match self {
            Part::Args => "args",
            Part::Input => "in",
            Part::Expected => "out",
        }
    }
}

/// What is wrong with the files of a test case.
#[derive(Clone, Copy, Debug, PartialEq, Eq, Structural)]
pub enum FixtureError {
    /// The test directory could not be listed.
    ReadDirectory,
    /// The file of a part exists but could not be opened or read.
    Unreadable(Part),
    /// A part that every case must have has no file.
    Missing(Part),
    /// The file of a part is compressed and could not be decompressed.
    Corrupt(Part),
}

/// An entry of a directory.
#[derive(Clone, Debug)]
pub enum Listed {
    /// An entry with this file name.
    Name(String),
    /// An entry whose file name is no text.
    Unnamed,
    /// An entry that could not be read.
    Failed,
}

/// What listing the test directory gave.
#[derive(Clone, Debug)]
pub enum Listing {
    /// There is no such directory.
    Missing,
    /// The directory could not be listed.
    Failed,
    /// The entries of the directory, in the order in which they came.
    Entries(Vec<Listed>),
}

/// The case that a file name announces: the name without `.in`, or without
/// `.in.xz`. Other names announce none.
pub open spec fn case_of(name: Seq<char>) -> Option<Seq<char>> {
    if has_suffix(name, ".in"@) {
        Some(name.take(name.len() - 3))
    } else if has_suffix(name, ".in.xz"@) {
        Some(name.take(name.len() - 6))
    } else {
        None
    }
}

/// Whether an entry announces a case: it is the input file of the case, in
/// one of its two forms.
pub open spec fn announces(entry: Listed, case: Seq<char>) -> bool {
    entry matches Listed::Name(name) && case_of(name@) == Some(case)
}

/// Whether one of the first `upto` entries announces a case.
pub open spec fn announced(entries: Seq<Listed>, upto: int, case: Seq<char>) -> bool {
    exists|i: int| 0 <= i < upto && i < entries.len() && announces(#[trigger] entries[i], case)
}

/// The cases that the first `upto` entries announce: each case once, in the
/// order in which the cases are first announced. A case with both forms of
/// its input file is one case.
pub open spec fn cases_upto(entries: Seq<Listed>, upto: int) -> Seq<Seq<char>>
    decreases upto,
{
    if upto <= 0 {
        Seq::empty()
    } else {
        let before = cases_upto(entries, upto - 1);
        match entries[upto - 1] {
            Listed::Name(name) => match case_of(name@) {
                Some(case) => if before.contains(case) {
                    before
                } else {
                    before.push(case)
                },
                None => before,
            },
            _ => before,
        }
    }
}

/// Whether a case is announced before any announcement of another: some
/// entry announces the first, and no entry up to that one the second.
pub open spec fn announced_first(entries: Seq<Listed>, first: Seq<char>, second: Seq<char>) -> bool {
    exists|i: int|
        0 <= i < entries.len() && announces(#[trigger] entries[i], first) && !announced(
            entries,
            i + 1,
            second,
        )
}

/// Whether a list holds cases in the order of their first announcement:
/// each case is announced before any announcement of a case behind it.
pub open spec fn in_order_of_announcement(entries: Seq<Listed>, list: Seq<Seq<char>>) -> bool {
    forall|j: int, k: int|
        0 <= j < k < list.len() ==> #[trigger] announced_first(entries, list[j], list[k])
}

/// The cases of the first `upto` entries are a set in a fixed order: no case
/// occurs twice, a case occurs just where one of these entries announces it,
/// and the cases stand in the order of their first announcement.
pub proof fn lemma_cases_are_a_set(entries: Seq<Listed>, upto: int)
    requires
        0 <= upto <= entries.len(),
    ensures
        cases_upto(entries, upto).no_duplicates(),
        forall|case: Seq<char>| #[trigger]
            cases_upto(entries, upto).contains(case) <==> announced(entries, upto, case),
        in_order_of_announcement(entries, cases_upto(entries, upto)),
    decreases upto,
{
    if upto > 0 {
        lemma_cases_are_a_set(entries, upto - 1);
        let before = cases_upto(entries, upto - 1);
        let list = cases_upto(entries, upto);
        let entry = entries[upto - 1];
        assert forall|case: Seq<char>| #[trigger] list.contains(case) <==> announced(
            entries,
            upto,
            case,
        ) by {
            if list.contains(case) {
                let at = choose|at: int| 0 <= at < list.len() && list[at] == case;
                if at < before.len() {
                    assert(before[at] == case);
                    assert(before.contains(case));
                    let i = choose|i: int|
                        0 <= i < upto - 1 && i < entries.len() && announces(
                            #[trigger] entries[i],
                            case,
                        );
                    assert(announces(entries[i], case));
                } else {
                    assert(announces(entries[upto - 1], case));
                }
            }
            if announced(entries, upto, case) {
                let i = choose|i: int|
                    0 <= i < upto && i < entries.len() && announces(#[trigger] entries[i], case);
                if i < upto - 1 {
                    assert(announced(entries, upto - 1, case));
                    assert(before.contains(case));
                }
                if before.contains(case) {
                    let at = choose|at: int| 0 <= at < before.len() && before[at] == case;
                    assert(list[at] == case);
                } else {
                    assert(list == before.push(case));
                    assert(list[before.len() as int] == case);
                }
            }
        }
        assert forall|j: int, k: int| 0 <= j < k < list.len() implies #[trigger] announced_first(
            entries,
            list[j],
            list[k],
        ) by {
            if k < before.len() {
                assert(list[j] == before[j] && list[k] == before[k]);
                assert(announced_first(entries, before[j], before[k]));
            } else {
                assert(list[j] == before[j]);
                assert(before.contains(list[j]));
                let i = choose|i: int|
                    0 <= i < upto - 1 && i < entries.len() && announces(
                        #[trigger] entries[i],
                        list[j],
                    );
                assert(!before.contains(list[k]));
                assert(!announced(entries, upto - 1, list[k]));
                assert(!announced(entries, i + 1, list[k])) by {
                    if announced(entries, i + 1, list[k]) {
                        let m = choose|m: int|
                            0 <= m < i + 1 && m < entries.len() && announces(
                                #[trigger] entries[m],
                                list[k],
                            );
                        assert(announces(entries[m], list[k]));
                    }
                }
            }
        }
    }
}

/// Whether one of the first `upto` entries could not be read.
pub open spec fn any_failed(entries: Seq<Listed>, upto: int) -> bool {
    exists|i: int| 0 <= i < upto && i < entries.len() && #[trigger] entries[i] is Failed
}

/// The cases of a listing, each once, in the order of their first
/// announcement. A directory that does not exist holds no case; a listing
/// that failed, as a whole or at one entry, gives none.
pub open spec fn cases_of(listing: Listing) -> Result<Seq<Seq<char>>, FixtureError> {
    match listing {
        Listing::Missing => Ok(Seq::empty()),
        Listing::Failed => Err(FixtureError::ReadDirectory),
        Listing::Entries(entries) => if any_failed(entries@, entries@.len() as int) {
            Err(FixtureError::ReadDirectory)
        } else {
            Ok(cases_upto(entries@, entries@.len() as int))
        },
    }
}

/// The entries of a listing; none where the directory was missing or could
/// not be listed.
pub open spec fn entries_of(listing: Listing) -> Seq<Listed> {
    match listing {
        Listing::Entries(entries) => entries@,
        _ => Seq::empty(),
    }
}

/// The case that a file name announces, if it announces one.
pub fn case_id(name: &str) -> (case: Option<String>)
    ensures
        match case {
            Some(c) => case_of(name@) == Some(c@),
            None => case_of(name@) is None,
        },
{
    proof {
        reveal_strlit(".in");
        reveal_strlit(".in.xz");
    }
    if ends_with(name, ".in") {
        Some(cut_end(name, 3))
    } else if ends_with(name, ".in.xz") {
        Some(cut_end(name, 6))
    } else {
        None
    }
}

/// Whether a list of names holds a name.
fn holds(list: &Vec<String>, name: &str) -> (yes: bool)
    ensures
        yes == texts(list@).contains(name@),
{
    let mut i: usize = 0;
    while i < list.len()
        invariant
            i <= list@.len(),
            forall|k: int| 0 <= k < i ==> texts(list@)[k] != name@,
        decreases list@.len() - i,
    {
        if same_text(list[i].as_str(), name) {
            assert(texts(list@)[i as int] == name@);
            return true;
        }
        i = i + 1;
    }
    false
}

/// The cases of a program, from the listing of its test directory: a set of
/// case ids, in the order in which the listing first announces them.
///
/// No case occurs twice, also where both forms of its input file exist; a
/// case occurs just where an entry of the listing announces it.
pub fn get_test_cases(listing: &Listing) -> (cases: Result<Vec<String>, FixtureError>)
    ensures
        match cases {
            Ok(list) => cases_of(*listing) == Ok::<Seq<Seq<char>>, FixtureError>(texts(list@)),
            Err(e) => cases_of(*listing) == Err::<Seq<Seq<char>>, FixtureError>(e),
        },
        cases matches Ok(list) ==> {
            &&& texts(list@).no_duplicates()
            &&& forall|case: Seq<char>| #[trigger]
                texts(list@).contains(case) <==> announced(
                    entries_of(*listing),
                    entries_of(*listing).len() as int,
                    case,
                )
            &&& in_order_of_announcement(entries_of(*listing), texts(list@))
        },
{
    match listing {
        Listing::Missing => {
            let list: Vec<String> = Vec::new();
            assert(texts(list@) =~= Seq::<Seq<char>>::empty());
            Ok(list)
        },
        Listing::Failed => Err(FixtureError::ReadDirectory),
        Listing::Entries(entries) => {
            let mut list: Vec<String> = Vec::new();
            let mut i: usize = 0;
            assert(texts(list@) =~= cases_upto(entries@, 0));
            while i < entries.len()
                invariant
                    *listing == Listing::Entries(*entries),
                    i <= entries@.len(),
                    !any_failed(entries@, i as int),
                    texts(list@) == cases_upto(entries@, i as int),
                decreases entries@.len() - i,
            {
                let ghost before = texts(list@);
                match &entries[i] {
                    Listed::Failed => {
                        assert(entries@[i as int] is Failed);
                        return Err(FixtureError::ReadDirectory);
                    },
                    Listed::Unnamed => {},
                    Listed::Name(name) => {
                        match case_id(name.as_str()) {
                            Some(case) => {
                                if !holds(&list, case.as_str()) {
                                    list.push(case);
                                    assert(texts(list@) =~= before.push(case@));
                                }
                            },
                            None => {},
                        }
                    },
                }
                i = i + 1;
                assert(texts(list@) =~= cases_upto(entries@, i as int));
            }
            proof {
                lemma_cases_are_a_set(entries@, entries@.len() as int);
            }
            Ok(list)
        },
    }
}

/// The two files that may hold a part of a case.
#[derive(Debug)]
pub struct FixturePaths {
    /// The compressed form, which is looked for first.
    pub compressed: String,
    /// The plain form.
    pub plain: String,
}

/// The path of the compressed form of a part of a case.
pub open spec fn compressed_path_of(program: ProgramView, case: Seq<char>, part: Part) -> Seq<char> {
    joined(program.test, case + "."@ + extension_of_part(part) + ".xz"@)
}

/// The path of the plain form of a part of a case: that of the compressed
/// form without its last extension.
pub open spec fn plain_path_of(program: ProgramView, case: Seq<char>, part: Part) -> Seq<char> {
    without_extension(compressed_path_of(program, case, part))
}

/// The two files that may hold a part of a case of a program.
pub fn fixture_paths(program: &Program, case: &str, part: Part) -> (paths: FixturePaths)
    ensures
        paths.compressed@ == compressed_path_of(program@, case@, part),
        paths.plain@ == plain_path_of(program@, case@, part),
{
    let mut name = glue(case, ".");
    name.append(part.extension());
    name.append(".xz");
    let compressed = join(program.test_path(), name.as_str());
    let plain = drop_extension(compressed.as_str());
    FixturePaths { compressed, plain }
}

/// What trying to open a file gave.
#[derive(Clone, Copy, Debug, PartialEq, Eq, Structural)]
pub enum Probe {
    /// The file is there.
    Found,
    /// There is no such file.
    Missing,
    /// The file could not be opened, for another reason.
    Failed,
}

/// How the bytes of a file stand for the bytes of a part.
#[derive(Clone, Copy, Debug, PartialEq, Eq, Structural)]
pub enum Encoding {
    /// The file is an xz stream.
    Xz,
    /// The file holds the bytes themselves.
    Plain,
}

/// The file that holds a part: where it lies, how it is encoded, and whether
/// it is to be read whole before the program starts.
#[derive(Debug)]
pub struct Fixture {
    pub path: String,
    pub encoding: Encoding,
    pub buffered: bool,
}

/// A fixture as a plain value.
pub struct FixtureView {
    pub path: Seq<char>,
    pub encoding: Encoding,
    pub buffered: bool,
}

impl View for Fixture {
    type V = FixtureView;

    open spec fn view(&self) -> FixtureView {
        FixtureView { path: self.path@, encoding: self.encoding, buffered: self.buffered }
    }
}

/// The file that holds a part of a case, given what trying to open its two
/// forms gave. The compressed form is tried first; the plain form counts
/// only where the compressed one is missing. A part of which neither form
/// exists has no file.
pub open spec fn located(
    program: ProgramView,
    case: Seq<char>,
    part: Part,
    compressed: Probe,
    plain: Probe,
) -> Result<Option<FixtureView>, FixtureError> {
    match compressed {
        Probe::Found => Ok(
            Some(
                FixtureView {
                    path: compressed_path_of(program, case, part),
                    encoding: Encoding::Xz,
                    buffered: program.repo.config.buffering,
                },
            ),
        ),
        Probe::Failed => Err(FixtureError::Unreadable(part)),
        Probe::Missing => match plain {
            Probe::Found => Ok(
                Some(
                    FixtureView {
                        path: plain_path_of(program, case, part),
                        encoding: Encoding::Plain,
                        buffered: program.repo.config.buffering,
                    },
                ),
            ),
            Probe::Failed => Err(FixtureError::Unreadable(part)),
            Probe::Missing => Ok(None),
        },
    }
}

/// The file that holds a part that every case must have.
pub open spec fn located_surely(
    program: ProgramView,
    case: Seq<char>,
    part: Part,
    compressed: Probe,
    plain: Probe,
) -> Result<FixtureView, FixtureError> {
    match located(program, case, part, compressed, plain) {
        Ok(Some(fixture)) => Ok(fixture),
        Ok(None) => Err(FixtureError::Missing(part)),
        Err(e) => Err(e),
    }
}

/// Finds the file that holds a part of a case, where there is one.
pub fn open_optional_test_file(
    program: &Program,
    case: &str,
    part: Part,
    compressed: Probe,
    plain: Probe,
) -> (found: Result<Option<Fixture>, FixtureError>)
    ensures
        match found {
            Ok(Some(f)) => located(program@, case@, part, compressed, plain) == Ok::<
                Option<FixtureView>,
                FixtureError,
            >(Some(f@)),
            Ok(None) => located(program@, case@, part, compressed, plain) == Ok::<
                Option<FixtureView>,
                FixtureError,
            >(None),
            Err(e) => located(program@, case@, part, compressed, plain) == Err::<
                Option<FixtureView>,
                FixtureError,
            >(e),
        },
{
    let buffered = program.repository().config().buffering;
    match compressed {
        Probe::Found => {
            let paths = fixture_paths(program, case, part);
            Ok(Some(Fixture { path: paths.compressed, encoding: Encoding::Xz, buffered }))
        },
        Probe::Failed => Err(FixtureError::Unreadable(part)),
        Probe::Missing => match plain {
            Probe::Found => {
                let paths = fixture_paths(program, case, part);
                Ok(Some(Fixture { path: paths.plain, encoding: Encoding::Plain, buffered }))
            },
            Probe::Failed => Err(FixtureError::Unreadable(part)),
            Probe::Missing => Ok(None),
        },
    }
}

/// Finds the file that holds a part that every case must have.
pub fn open_test_file(
    program: &Program,
    case: &str,
    part: Part,
    compressed: Probe,
    plain: Probe,
) -> (found: Result<Fixture, FixtureError>)
    ensures
        match found {
            Ok(f) => located_surely(program@, case@, part, compressed, plain) == Ok::<
                FixtureView,
                FixtureError,
            >(f@),
            Err(e) => located_surely(program@, case@, part, compressed, plain) == Err::<
                FixtureView,
                FixtureError,
            >(e),
        },
{
    match open_optional_test_file(program, case, part, compressed, plain) {
        Ok(Some(fixture)) => Ok(fixture),
        Ok(None) => Err(FixtureError::Missing(part)),
        Err(e) => Err(e),
    }
}

/// What trying to open the two forms of a file gave.
#[derive(Clone, Copy, Debug, PartialEq, Eq, Structural)]
pub struct Probes {
    pub compressed: Probe,
    pub plain: Probe,
}

/// The files of the input and of the expected output of a case; the input
/// is looked for first.
pub open spec fn located_pair(
    program: ProgramView,
    case: Seq<char>,
    input: Probes,
    expected: Probes,
) -> Result<(FixtureView, FixtureView), FixtureError> {
    match located_surely(program, case, Part::Input, input.compressed, input.plain) {
        Err(e) => Err(e),
        Ok(in_file) => match located_surely(
            program,
            case,
            Part::Expected,
            expected.compressed,
            expected.plain,
        ) {
            Err(e) => Err(e),
            Ok(out_file) => Ok((in_file, out_file)),
        },
    }
}

/// Finds the files of the input and of the expected output of a case.
pub fn open_test_files_for_case(
    program: &Program,
    case: &str,
    input: Probes,
    expected: Probes,
) -> (found: Result<(Fixture, Fixture), FixtureError>)
    ensures
        match found {
            Ok(pair) => located_pair(program@, case@, input, expected) == Ok::<
                (FixtureView, FixtureView),
                FixtureError,
            >((pair.0@, pair.1@)),
            Err(e) => located_pair(program@, case@, input, expected) == Err::<
                (FixtureView, FixtureView),
                FixtureError,
            >(e),
        },
{
    let in_file = match open_test_file(program, case, Part::Input, input.compressed, input.plain) {
        Ok(f) => f,
        Err(e) => {
            return Err(e);
        },
    };
    let out_file = match open_test_file(
        program,
        case,
        Part::Expected,
        expected.compressed,
        expected.plain,
    ) {
        Ok(f) => f,
        Err(e) => {
            return Err(e);
        },
    };
    Ok((in_file, out_file))
}

/// What became of the file with the further arguments of a case.
#[derive(Clone, Debug)]
pub enum ArgsFile {
    /// The case has no such file.
    Absent,
    /// The file exists, but its text could not be had.
    Unreadable,
    /// The text of the file.
    Text(String),
}

/// All that is needed to run a case: the further arguments for the program
/// and the files of input and expected output.
#[derive(Debug)]
pub struct TestData {
    pub args: Vec<String>,
    pub in_file: Fixture,
    pub out_file: Fixture,
}

/// Test data as a plain value.
pub struct TestDataView {
    pub args: Seq<Seq<char>>,
    pub in_file: FixtureView,
    pub out_file: FixtureView,
}

impl View for TestData {
    type V = TestDataView;

    open spec fn view(&self) -> TestDataView {
        TestDataView { args: texts(self.args@), in_file: self.in_file@, out_file: self.out_file@ }
    }
}

/// The data of a case. The further arguments are the words of the arguments
/// file, and none where there is no such file; that file is settled before
/// input and expected output are looked for.
pub open spec fn data_of(
    program: ProgramView,
    case: Seq<char>,
    args: ArgsFile,
    input: Probes,
    expected: Probes,
) -> Result<TestDataView, FixtureError> {
    match args {
        ArgsFile::Unreadable => Err(FixtureError::Unreadable(Part::Args)),
        _ => match located_pair(program, case, input, expected) {
            Err(e) => Err(e),
            Ok(pair) => Ok(
                TestDataView {
                    args: match args {
                        ArgsFile::Text(text) => words(text@),
                        _ => Seq::empty(),
                    },
                    in_file: pair.0,
                    out_file: pair.1,
                },
            ),
        },
    }
}

/// Gathers the data of a case.
pub fn load_test_data_for_case(
    program: &Program,
    case: &str,
    args: &ArgsFile,
    input: Probes,
    expected: Probes,
) -> (data: Result<TestData, FixtureError>)
    ensures
        match data {
            Ok(d) => data_of(program@, case@, *args, input, expected) == Ok::<
                TestDataView,
                FixtureError,
            >(d@),
            Err(e) => data_of(program@, case@, *args, input, expected) == Err::<
                TestDataView,
                FixtureError,
            >(e),
        },
{
    let list = match args {
        ArgsFile::Unreadable => {
            return Err(FixtureError::Unreadable(Part::Args));
        },
        ArgsFile::Absent => {
            let list: Vec<String> = Vec::new();
            assert(texts(list@) =~= Seq::<Seq<char>>::empty());
            list
        },
        ArgsFile::Text(text) => split_words(text.as_str()),
    };
    match open_test_files_for_case(program, case, input, expected) {
        Err(e) => Err(e),
        Ok(pair) => Ok(TestData { args: list, in_file: pair.0, out_file: pair.1 }),
    }
}

/// The bytes of a part, given the bytes of its file.
pub open spec fn content_of(encoding: Encoding, raw: Seq<u8>) -> Option<Seq<u8>> {
    match encoding {
        Encoding::Plain => Some(raw),
        Encoding::Xz => xz_decoded(raw),
    }
}

/// Turns the bytes of a file into the bytes of the part it holds: a plain
/// file holds them as they are, a compressed file is decompressed.
pub fn decode(fixture_part: Part, encoding: Encoding, raw: Vec<u8>) -> (content: Result<
    Vec<u8>,
    FixtureError,
>)
    ensures
        match content {
            Ok(bytes) => content_of(encoding, raw@) == Some(bytes@),
            Err(e) => content_of(encoding, raw@) is None && e == FixtureError::Corrupt(
                fixture_part,
            ),
        },
{
    match encoding {
        Encoding::Plain => Ok(raw),
        Encoding::Xz => match xz_decode(raw.as_slice()) {
            Some(bytes) => Ok(bytes),
            None => Err(FixtureError::Corrupt(fixture_part)),
        },
    }
}

} // verus!
