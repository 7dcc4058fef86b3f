//! File paths as text. The rules by which paths combine are the standard
//! library's for the platform the library is built for; they are taken from
//! it, not restated.

use vstd::prelude::*;

verus! {

/// The path that `std::path::Path::join` gives for `base` and `name`.
pub uninterp spec fn joined_path(base: Seq<char>, name: Seq<char>) -> Seq<char>;

/// The path that `std::path::PathBuf::set_extension` leaves behind when
/// `path` is given the extension `extension`.
pub uninterp spec fn path_with_extension(path: Seq<char>, extension: Seq<char>) -> Seq<char>;

/// The path that `std::path::PathBuf::push` leaves behind when an empty
/// component is pushed onto `path`: the same place, named as a directory.
pub uninterp spec fn directory_path(path: Seq<char>) -> Seq<char>;

/// Whether `text` is free of path separators.
pub open spec fn has_no_separator(text: Seq<char>) -> bool {
    forall|i: int| 0 <= i < text.len() ==> #[trigger] text[i] != '/' && text[i] != '\\'
}

/// Calls `std::path::Path::join`. Trusted: the result is the standard
/// library's join of the two paths, a function of the two texts alone.
#[verifier::external_body]
pub(crate) fn join_path(base: &str, name: &str) -> (joined: String)
    ensures
        joined@ == joined_path(base@, name@),
{
    std::path::Path::new(base).join(name).to_string_lossy().into_owned()
}

/// Calls `std::path::PathBuf::set_extension`. Trusted: the result is the
/// path as the standard library leaves it, a function of the two texts
/// alone. The standard library panics on an extension that holds a path
/// separator, so none may be passed.
#[verifier::external_body]
pub(crate) fn set_path_extension(path: &str, extension: &str) -> (changed: String)
    requires
        has_no_separator(extension@),
    ensures
        changed@ == path_with_extension(path@, extension@),
{
    let mut buffer = std::path::PathBuf::from(path);
    buffer.set_extension(extension);
    buffer.to_string_lossy().into_owned()
}

/// Calls `std::path::PathBuf::push` with an empty component. Trusted: the
/// result is the path as the standard library leaves it, a function of the
/// text alone.
#[verifier::external_body]
pub(crate) fn as_directory_path(path: &str) -> (directory: String)
    ensures
        directory@ == directory_path(path@),
{
    let mut buffer = std::path::PathBuf::from(path);
    buffer.push("");
    buffer.to_string_lossy().into_owned()
}

} // verus!
