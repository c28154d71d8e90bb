//! The contracts that the library takes on trust for functions of the
//! standard library: nothing here is proved, and everything that is proved
//! elsewhere rests on it.

use vstd::prelude::*;
use std::path::{Path, PathBuf};

verus! {

/// `String::push` appends the one character to the end of the string.
pub assume_specification[ String::push ](s: &mut String, c: char)
    ensures
        final(s)@ == old(s)@.push(c),
;

/// `std::path::Path`: a path of the platform, borrowed. Nothing is known of
/// what it holds but through the names below.
#[verifier::external_type_specification]
#[verifier::external_body]
pub struct ExPath(Path);

/// `std::path::PathBuf`: a path of the platform, owned.
#[verifier::external_type_specification]
#[verifier::external_body]
pub struct ExPathBuf(PathBuf);

/// What `Path::to_str` returns for `path`: its text, where the path is
/// valid Unicode, and nothing where it is not.
pub uninterp spec fn path_text(path: &Path) -> Option<Seq<char>>;

/// What `Path::to_string_lossy` returns for `path`.
pub uninterp spec fn path_lossy_text(path: &Path) -> Seq<char>;

/// What `PathBuf::as_path` returns for `path`: the same path, borrowed.
pub uninterp spec fn borrowed_path(path: &PathBuf) -> &Path;

/// `PathBuf::as_path` depends on its argument alone.
#[verifier::when_used_as_spec(borrowed_path)]
pub assume_specification[ PathBuf::as_path ](path: &PathBuf) -> (r: &Path)
    ensures
        r == borrowed_path(path),
;

/// `PathBuf::from` makes of a string the path with that text: `to_str`
/// gives the text back.
#[verifier::external_body]
pub(crate) fn path_buf_of(text: String) -> (path: PathBuf)
    ensures
        path_text(path.as_path()) == Some(text@),
{
    PathBuf::from(text)
}

/// `Path::to_str`, with the text in a string of its own.
#[verifier::external_body]
pub(crate) fn path_str(path: &Path) -> (r: Option<String>)
    ensures
        match r {
            Some(text) => path_text(path) == Some(text@),
            None => path_text(path) is None,
        },
{
    path.to_str().map(|text| text.to_string())
}

/// `Path::to_string_lossy`, with the text in a string of its own.
#[verifier::external_body]
pub(crate) fn path_lossy(path: &Path) -> (r: String)
    ensures
        r@ == path_lossy_text(path),
{
    path.to_string_lossy().to_string()
}

/// What `Path::file_name` returns for `path`, as text: the final component
/// of the path, where the platform's path syntax finds one. It is a
/// function of the path and not of its text: one text is not the same path
/// on Windows and on a POSIX system.
pub uninterp spec fn path_file_name(path: &Path) -> Option<Seq<char>>;

/// What `Path::parent` returns for `path`, as text: the path without its
/// final component, where the platform's path syntax finds one. Like
/// `path_file_name` it is a function of the path and not of its text.
pub uninterp spec fn path_parent(path: &Path) -> Option<Seq<char>>;

/// The text of an optional string.
pub open spec fn option_text(s: Option<String>) -> Option<Seq<char>> {
    match s {
        Some(text) => Some(text@),
        None => None,
    }
}

/// The index of the last dot in `name`, or -1 where it holds none.
pub open spec fn last_dot(name: Seq<char>) -> int
    decreases name.len(),
{
    if name.len() == 0 {
        -1
    } else if name.last() == '.' {
        name.len() - 1
    } else {
        last_dot(name.drop_last())
    }
}

/// The stem of the file name `name`: what stands before its last dot, and
/// the whole name where it holds no dot or only the one that it begins with.
pub open spec fn stem_of(name: Seq<char>) -> Seq<char> {
    if last_dot(name) <= 0 {
        name
    } else {
        name.take(last_dot(name))
    }
}

/// The extension of the file name `name`: what stands behind its last dot,
/// and nothing where it holds no dot or only the one that it begins with.
pub open spec fn extension_of(name: Seq<char>) -> Option<Seq<char>> {
    if last_dot(name) <= 0 {
        None
    } else {
        Some(name.skip(last_dot(name) + 1))
    }
}

/// `Path::file_name`, with the name in a string of its own.
#[verifier::external_body]
pub(crate) fn file_name_of(path: &Path) -> (r: Option<String>)
    requires
        path_text(path) is Some,
    ensures
        option_text(r) == path_file_name(path),
{
    path.file_name().map(|name| name.to_string_lossy().to_string())
}

/// `Path::file_stem`, with the stem in a string of its own. The standard
/// library documents it as the stem of what `Path::file_name` returns.
#[verifier::external_body]
pub(crate) fn file_stem_of(path: &Path) -> (r: Option<String>)
    requires
        path_text(path) is Some,
    ensures
        option_text(r) == match path_file_name(path) {
            Some(name) => Some(stem_of(name)),
            None => None,
        },
{
    path.file_stem().map(|stem| stem.to_string_lossy().to_string())
}

/// `Path::extension`, with the extension in a string of its own. The
/// standard library documents it as the extension of what `Path::file_name`
/// returns.
#[verifier::external_body]
pub(crate) fn extension_of_path(path: &Path) -> (r: Option<String>)
    requires
        path_text(path) is Some,
    ensures
        option_text(r) == match path_file_name(path) {
            Some(name) => extension_of(name),
            None => None,
        },
{
    path.extension().map(|extension| extension.to_string_lossy().to_string())
}

/// `Path::parent`, with the parent in a string of its own.
#[verifier::external_body]
pub(crate) fn parent_of(path: &Path) -> (r: Option<String>)
    requires
        path_text(path) is Some,
    ensures
        option_text(r) == path_parent(path),
{
    path.parent().map(|parent| parent.to_string_lossy().to_string())
}

/// What `==` returns for two paths: whether they are made of the same
/// components.
pub uninterp spec fn same_path(a: &Path, b: &Path) -> bool;

/// `==` on two paths. Paths with one and the same text are equal.
#[verifier::external_body]
pub(crate) fn paths_equal(a: &Path, b: &Path) -> (r: bool)
    ensures
        r == same_path(a, b),
        path_text(a) is Some && path_text(a) == path_text(b) ==> r,
{
    a == b
}

} // verus!
