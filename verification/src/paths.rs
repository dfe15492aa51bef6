//! File system paths.
//!
//! A path is a value of the platform the crate is compiled for: it need not be
//! text, and what counts as a separator or a root is the platform's business.
//! The commands therefore carry paths unopened and ask `std::path` about them.
use std::path::PathBuf;
use vstd::prelude::*;

verus! {

/// `std::path::PathBuf`, opaque: only the functions below look inside.
#[verifier::external_type_specification]
#[verifier::external_body]
pub struct ExPathBuf(PathBuf);

/// The path that a text denotes: what `PathBuf::from` makes of it.
pub uninterp spec fn path_from_text(text: Seq<char>) -> PathBuf;

/// How a path reads when it is shown to a user: what `Path::display` writes.
pub uninterp spec fn path_display(path: PathBuf) -> Seq<char>;

/// Whether a path is absolute: what `Path::is_absolute` answers.
pub uninterp spec fn path_is_absolute(path: PathBuf) -> bool;

/// What follows `base` in `path`, where `path` starts with `base`: what
/// `Path::strip_prefix` returns.
pub uninterp spec fn path_below(path: PathBuf, base: PathBuf) -> Option<PathBuf>;

/// The last component of a path as text, where it has one and it is Unicode: what
/// `Path::file_name` returns, read by `to_str`.
pub uninterp spec fn path_file_name(path: PathBuf) -> Option<Seq<char>>;

/// `PathBuf::clone`: the copy is the same path.
pub assume_specification[ <PathBuf as Clone>::clone ](path: &PathBuf) -> (copy: PathBuf)
    ensures
        copy == *path,
;

/// `PathBuf::from` on text. The result depends on the text alone.
#[verifier::external_body]
pub(crate) fn from_text(text: &str) -> (path: PathBuf)
    ensures
        path == path_from_text(text@),
{
    PathBuf::from(text)
}

/// `Path::display`, written out as text. What it shows for bytes that are no
/// Unicode is left to `std`.
#[verifier::external_body]
pub(crate) fn display(path: &PathBuf) -> (text: String)
    ensures
        text@ == path_display(*path),
{
    path.display().to_string()
}

/// `Path::is_absolute`. The answer depends on the path alone.
#[verifier::external_body]
pub(crate) fn is_absolute(path: &PathBuf) -> (answer: bool)
    ensures
        answer == path_is_absolute(*path),
{
    path.is_absolute()
}

/// `Path::strip_prefix`: `None` stands for its error, which says only that `path`
/// does not start with `base`.
#[verifier::external_body]
pub(crate) fn below(path: &PathBuf, base: &PathBuf) -> (rest: Option<PathBuf>)
    ensures
        rest == path_below(*path, *base),
{
    match path.strip_prefix(base) {
        Ok(rest) => Some(rest.to_path_buf()),
        Err(_) => None,
    }
}

/// `Path::file_name`, handed out as text. `None` where the path has no file name
/// (it ends in `..` or is a root) or the file name is no Unicode.
#[verifier::external_body]
pub(crate) fn file_name(path: &PathBuf) -> (name: Option<String>)
    ensures
        name is Some <==> path_file_name(*path) is Some,
        name matches Some(text) ==> path_file_name(*path) == Some(text@),
{
    path.file_name().and_then(|name| name.to_str()).map(|name| name.to_string())
}

/// The name a worktree directory goes by: its file name, or `otherwise` where the
/// path has none that is text.
pub open spec fn directory_name(path: PathBuf, otherwise: Seq<char>) -> Seq<char> {
    match path_file_name(path) {
        Some(name) => name,
        None => otherwise,
    }
}

/// The file name of `path`, or `otherwise` where it has none that is text.
pub(crate) fn directory_name_or(path: &PathBuf, otherwise: &String) -> (name: String)
    ensures
        name@ == directory_name(*path, otherwise@),
        path_file_name(*path) matches Some(file_name) ==> name@ == file_name,
        path_file_name(*path) is None ==> name@ == otherwise@,
{
    match file_name(path) {
        Some(name) => name,
        None => otherwise.clone(),
    }
}

} // verus!
