//! The project file for CMake: one target for each C or C++ source of the
//! repository.

use vstd::prelude::*;
use vstd::string::*;
use crate::path::{extension, extension_of, file_name, file_name_of, relative_to, strip_prefix};
use crate::repo::{Repository, RepositoryView, Walked};
use crate::text::{glue, same_text, texts, to_chars};

verus! {

/// A text between double quotes, with what needs it escaped, as the `Debug`
/// form of a string gives it.
pub uninterp spec fn quoted(text: Seq<char>) -> Seq<char>;

/// Formats a string with `{:?}`. The result is a function of the text
/// alone; nothing more is claimed of it.
#[verifier::external_body]
pub(crate) fn quote(text: &str) -> (result: String)
    ensures
        result@ == quoted(text@),
{
    format!("{:?}", text)
}

/// A text with a dot for every slash.
pub open spec fn dotted(text: Seq<char>) -> Seq<char> {
    Seq::new(
        text.len(),
        |i: int|
            if text[i] == '/' {
                '.'
            } else {
                text[i]
            },
    )
}

/// Puts a dot for every slash of a text.
pub fn dots_for_slashes(text: &str) -> (result: String)
    ensures
        result@ == dotted(text@),
{
    let chars = to_chars(text);
    let mut result = String::new();
    let mut i: usize = 0;
    assert(result@ =~= dotted(text@).take(0));
    while i < chars.len()
        invariant
            chars@ == text@,
            i <= chars@.len(),
            result@ == dotted(text@).take(i as int),
        decreases chars@.len() - i,
    {
        let ghost before = result@;
        if chars[i] == '/' {
            result.append(".");
            proof {
                reveal_strlit(".");
                assert("."@ =~= seq!['.']);
            }
        } else {
            let piece = text.substring_char(i, i + 1);
            assert(piece@ =~= seq![text@[i as int]]);
            result.append(piece);
        }
        assert(result@ =~= before.push(dotted(text@)[i as int]));
        i = i + 1;
        assert(dotted(text@).take(i as int) =~= dotted(text@).take(i - 1).push(
            dotted(text@)[i - 1],
        ));
    }
    assert(dotted(text@).take(i as int) =~= dotted(text@));
    result
}

/// The three lines that every project file begins with.
pub open spec fn head_of(project: Seq<char>) -> Seq<Seq<char>> {
    seq![
        "cmake_minimum_required(VERSION 3.9)"@,
        "project("@ + quoted(project) + ")"@,
        "set(CMAKE_CXX_STANDARD 11)"@,
    ]
}

/// The two lines of a target: the executable with its source, and the
/// language it is linked as.
pub open spec fn target_lines(name: Seq<char>, source: Seq<char>, language: Seq<char>) -> Seq<
    Seq<char>,
> {
    seq![
        "add_executable("@ + quoted(dotted(name)) + " "@ + quoted(source) + ")"@,
        "set_target_properties("@ + quoted(dotted(name)) + " PROPERTIES LINKER_LANGUAGE "@
            + language + ")"@,
    ]
}

/// The language that a source with this extension is linked as.
pub open spec fn linker_language(ext: Seq<char>) -> Option<Seq<char>> {
    if ext == "cpp"@ {
        Some("CXX"@)
    } else if ext == "c"@ {
        Some("C"@)
    } else {
        None
    }
}

/// The lines of a walked entry: those of a target where it is a regular
/// file below the source directory whose extension is `cpp` or `c`, and
/// none where not. The target is named by the path below the source
/// directory, its source by the path below the root.
pub open spec fn entry_lines(repo: RepositoryView, entry: Walked) -> Seq<Seq<char>> {
    if !entry.is_file {
        Seq::empty()
    } else {
        match (
            relative_to(entry.path@, repo.src),
            relative_to(entry.path@, repo.root),
            extension_of(entry.path@),
        ) {
            (Some(name), Some(source), Some(ext)) => match linker_language(ext) {
                Some(language) => target_lines(name, source, language),
                None => Seq::empty(),
            },
            _ => Seq::empty(),
        }
    }
}

/// The lines of the first `upto` walked entries.
pub open spec fn body_upto(repo: RepositoryView, walked: Seq<Walked>, upto: int) -> Seq<Seq<char>>
    decreases upto,
{
    if upto <= 0 {
        Seq::empty()
    } else {
        body_upto(repo, walked, upto - 1) + entry_lines(repo, walked[upto - 1])
    }
}

/// The lines of the project file of a repository; none where the root of
/// the repository has no name to call the project by.
pub open spec fn cmake_of(repo: RepositoryView, walked: Seq<Walked>) -> Option<Seq<Seq<char>>> {
    match file_name_of(repo.root) {
        Some(project) => Some(head_of(project) + body_upto(repo, walked, walked.len() as int)),
        None => None,
    }
}

fn language_of(ext: &str) -> (language: Option<&'static str>)
    ensures
        match language {
            Some(l) => linker_language(ext@) == Some(l@),
            None => linker_language(ext@) is None,
        },
{
    if same_text(ext, "cpp") {
        Some("CXX")
    } else if same_text(ext, "c") {
        Some("C")
    } else {
        None
    }
}

fn target(name: &str, source: &str, language: &str) -> (lines: Vec<String>)
    ensures
        texts(lines@) == target_lines(name@, source@, language@),
{
    let target_name = quote(dots_for_slashes(name).as_str());
    let mut first = glue("add_executable(", target_name.as_str());
    first.append(" ");
    first.append(quote(source).as_str());
    first.append(")");
    let mut second = glue("set_target_properties(", target_name.as_str());
    second.append(" PROPERTIES LINKER_LANGUAGE ");
    second.append(language);
    second.append(")");
    let mut lines: Vec<String> = Vec::new();
    lines.push(first);
    lines.push(second);
    assert(texts(lines@) =~= target_lines(name@, source@, language@));
    lines
}

fn lines_of_entry(repo: &Repository, entry: &Walked) -> (lines: Vec<String>)
    ensures
        texts(lines@) == entry_lines(repo@, *entry),
{
    let none: Vec<String> = Vec::new();
    assert(texts(none@) =~= Seq::<Seq<char>>::empty());
    if !entry.is_file {
        return none;
    }
    let name = match strip_prefix(entry.path.as_str(), repo.source_path()) {
        Some(name) => name,
        None => {
            return none;
        },
    };
    let source = match strip_prefix(entry.path.as_str(), repo.root()) {
        Some(source) => source,
        None => {
            return none;
        },
    };
    let ext = match extension(entry.path.as_str()) {
        Some(ext) => ext,
        None => {
            return none;
        },
    };
    match language_of(ext.as_str()) {
        Some(language) => target(name.as_str(), source.as_str(), language),
        None => none,
    }
}

/// The lines of the project file of a repository, from the entries that
/// walking its source directory gave; `None` where the root of the
/// repository has no name.
pub fn write_cmake_to(repo: &Repository, walked: &Vec<Walked>) -> (lines: Option<Vec<String>>)
    ensures
        match lines {
            Some(l) => cmake_of(repo@, walked@) == Some(texts(l@)),
            None => cmake_of(repo@, walked@) is None,
        },
{
    let project = match file_name(repo.root()) {
        Some(project) => project,
        None => {
            return None;
        },
    };
    let mut lines: Vec<String> = Vec::new();
    lines.push(String::from_str("cmake_minimum_required(VERSION 3.9)"));
    let mut second = glue("project(", quote(project.as_str()).as_str());
    second.append(")");
    lines.push(second);
    lines.push(String::from_str("set(CMAKE_CXX_STANDARD 11)"));
    assert(texts(lines@) =~= head_of(project@) + body_upto(repo@, walked@, 0));
    let mut i: usize = 0;
    while i < walked.len()
        invariant
            i <= walked@.len(),
            texts(lines@) == head_of(project@) + body_upto(repo@, walked@, i as int),
        decreases walked@.len() - i,
    {
        let more = lines_of_entry(repo, &walked[i]);
        let ghost before = texts(lines@);
        let mut k: usize = 0;
        while k < more.len()
            invariant
                k <= more@.len(),
                texts(lines@) == before + texts(more@).take(k as int),
            decreases more@.len() - k,
        {
            let ghost so_far = texts(lines@);
            lines.push(more[k].clone());
            assert(texts(lines@) =~= so_far.push(more@[k as int]@));
            k = k + 1;
            assert(texts(more@).take(k as int) =~= texts(more@).take(k - 1).push(more@[k - 1]@));
        }
        assert(texts(more@).take(k as int) =~= texts(more@));
        i = i + 1;
        assert(texts(lines@) =~= head_of(project@) + body_upto(repo@, walked@, i as int));
    }
    Some(lines)
}

/// Where the project file of a repository lies.
pub fn write_cmake(repo: &Repository) -> (path: String)
    ensures
        path@ == crate::path::joined(repo@.root, "CMakeLists.txt"@),
{
    crate::path::join(repo.root(), "CMakeLists.txt")
}

} // verus!
