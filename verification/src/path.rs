//! File-system paths as text. The operations are those of the standard
//! library's `Path`; this module only gives them contracts.
//!
//! No function here touches the file system.

use vstd::prelude::*;

verus! {

/// The length of a text in bytes.
pub open spec fn byte_len(text: Seq<char>) -> nat {
    vstd::utf8::encode_utf8(text).len()
}

/// The text of `base` joined with `part`, as `Path::join` gives it.
pub uninterp spec fn joined(base: Seq<char>, part: Seq<char>) -> Seq<char>;

/// The text of `path` relative to `base`, as `Path::strip_prefix` gives it;
/// `None` where `base` is no prefix of `path`.
pub uninterp spec fn relative_to(path: Seq<char>, base: Seq<char>) -> Option<Seq<char>>;

/// The extension of `path`, as `Path::extension` gives it.
pub uninterp spec fn extension_of(path: Seq<char>) -> Option<Seq<char>>;

/// The text of `path` with its extension taken off, as `Path::with_extension`
/// gives it for an empty extension.
pub uninterp spec fn without_extension(path: Seq<char>) -> Seq<char>;

/// The text of the parent of `path`, as `Path::parent` gives it.
pub uninterp spec fn parent_of(path: Seq<char>) -> Option<Seq<char>>;

/// The final component of `path`, as `Path::file_name` gives it.
pub uninterp spec fn file_name_of(path: Seq<char>) -> Option<Seq<char>>;

/// Calls `std::path::Path::join`. The result is a function of the two texts
/// alone; nothing more is claimed of it.
#[verifier::external_body]
pub(crate) fn join(base: &str, part: &str) -> (path: String)
    ensures
        path@ == joined(base@, part@),
{
    std::path::Path::new(base).join(part).to_string_lossy().into_owned()
}

/// Calls `std::path::Path::strip_prefix`. The result is a function of the
/// two texts alone; nothing more is claimed of it.
#[verifier::external_body]
pub(crate) fn strip_prefix(path: &str, base: &str) -> (rest: Option<String>)
    ensures
        match rest {
            Some(r) => relative_to(path@, base@) == Some(r@),
            None => relative_to(path@, base@) is None,
        },
{
    match std::path::Path::new(path).strip_prefix(base) {
        Ok(rest) => Some(rest.to_string_lossy().into_owned()),
        Err(_) => None,
    }
}

/// Calls `std::path::Path::extension`. The result is a function of the text
/// alone; nothing more is claimed of it.
#[verifier::external_body]
pub(crate) fn extension(path: &str) -> (ext: Option<String>)
    ensures
        match ext {
            Some(e) => extension_of(path@) == Some(e@),
            None => extension_of(path@) is None,
        },
{
    match std::path::Path::new(path).extension() {
        Some(ext) => Some(ext.to_string_lossy().into_owned()),
        None => None,
    }
}

/// Calls `std::path::Path::with_extension` with an empty extension. The
/// result is a function of the text alone. Where the path has an extension,
/// the extension and the dot before it are taken off, so the result is
/// shorter than the path.
#[verifier::external_body]
pub(crate) fn drop_extension(path: &str) -> (shorter: String)
    ensures
        shorter@ == without_extension(path@),
        extension_of(path@) is Some ==> byte_len(shorter@) < byte_len(path@),
{
    std::path::Path::new(path).with_extension("").to_string_lossy().into_owned()
}

/// Calls `std::path::Path::parent`. The result is a function of the text
/// alone; nothing more is claimed of it.
#[verifier::external_body]
pub(crate) fn parent(path: &str) -> (dir: Option<String>)
    ensures
        match dir {
            Some(d) => parent_of(path@) == Some(d@),
            None => parent_of(path@) is None,
        },
{
    match std::path::Path::new(path).parent() {
        Some(dir) => Some(dir.to_string_lossy().into_owned()),
        None => None,
    }
}

/// Calls `std::path::Path::file_name`. The result is a function of the text
/// alone; nothing more is claimed of it.
#[verifier::external_body]
pub(crate) fn file_name(path: &str) -> (name: Option<String>)
    ensures
        match name {
            Some(n) => file_name_of(path@) == Some(n@),
            None => file_name_of(path@) is None,
        },
{
    match std::path::Path::new(path).file_name() {
        Some(name) => Some(name.to_string_lossy().into_owned()),
        None => None,
    }
}

} // verus!
