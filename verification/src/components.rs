//! The parts of a path: final component, stem, extension and parent. What
//! the parts of a path are is for the platform to say, so each operation
//! consults the standard library on the native form of the path and then
//! decides, in a function of its own, what to make of the answer.

use vstd::prelude::*;
use vstd::string::StringExecFns;
use std::path::{Path, PathBuf};
use crate::canonical::{canonical_form, is_well_formed};
use crate::error::{text_result_view, Error, ErrorView};
use crate::native::{native_form, HostEnv};
use crate::path::{path_result_view, CrossPathBuf};
use crate::text::{chars_of, drop_trailing, ends_with, lemma_drop_trailing, push_range};
use crate::trusted::{
    extension_of, extension_of_path, file_name_of, file_stem_of, option_text, parent_of,
    path_buf_of, path_file_name, path_parent, path_text, stem_of,
};

verus! {

/// The final component or the stem of the path `text`, given what the
/// platform found: the part itself, or the error that there is none.
pub open spec fn name_outcome(text: Seq<char>, found: Option<Seq<char>>) -> Result<
    Seq<char>,
    ErrorView,
> {
    match found {
        Some(name) => Ok(name),
        None => Err(ErrorView::NoFileName(text)),
    }
}

/// The extension of the path `text`, given the final component and the
/// extension that the platform found: an error only where there is no
/// final component, and the empty text where that has no extension.
pub open spec fn extension_outcome(
    text: Seq<char>,
    file_name: Option<Seq<char>>,
    extension: Option<Seq<char>>,
) -> Result<Seq<char>, ErrorView> {
    match (file_name, extension) {
        (None, _) => Err(ErrorView::NoFileName(text)),
        (Some(_), Some(found)) => Ok(found),
        (Some(_), None) => Ok(Seq::<char>::empty()),
    }
}

/// The extension of the path `text`, given the final component that the
/// platform found.
pub open spec fn found_extension(text: Seq<char>, file_name: Option<Seq<char>>) -> Result<
    Seq<char>,
    ErrorView,
> {
    extension_outcome(
        text,
        file_name,
        match file_name {
            Some(name) => extension_of(name),
            None => None,
        },
    )
}

/// The parent of the path `text`, given what the platform found: the
/// canonical form of the parent's text, or the error that there is none.
pub open spec fn parent_outcome(text: Seq<char>, found: Option<Seq<char>>) -> Result<
    Seq<char>,
    ErrorView,
> {
    match found {
        Some(parent) => canonical_form(parent),
        None => Err(ErrorView::NoParent(text)),
    }
}

/// `s` without the copies of `suffix` that it ends with. An empty suffix
/// takes nothing away.
pub open spec fn strip_suffix_all(s: Seq<char>, suffix: Seq<char>) -> Seq<char>
    decreases s.len(),
{
    if suffix.len() > 0 && ends_with(s, suffix) {
        strip_suffix_all(s.take(s.len() - suffix.len()), suffix)
    } else {
        s
    }
}

/// `text` without the extension `old_extension` and the dots before it.
pub open spec fn without_extension(text: Seq<char>, old_extension: Seq<char>) -> Seq<char> {
    drop_trailing(strip_suffix_all(text, old_extension), |c: char| c == '.')
}

/// `text` with `extension` in place of `old_extension`: behind a dot, or,
/// where `extension` is empty, with nothing in its place.
pub open spec fn with_extension(
    text: Seq<char>,
    old_extension: Seq<char>,
    extension: Seq<char>,
) -> Seq<char> {
    if extension.len() == 0 {
        without_extension(text, old_extension)
    } else {
        without_extension(text, old_extension) + seq!['.'] + extension
    }
}

/// Whether `v[..end]` ends with `suffix`.
fn ends_with_at(v: &Vec<char>, end: usize, suffix: &Vec<char>) -> (r: bool)
    requires
        end <= v.len(),
    ensures
        r == ends_with(v@.take(end as int), suffix@),
{
    if suffix.len() > end {
        return false;
    }
    let start = end - suffix.len();
    let ghost head = v@.take(end as int);
    let mut i: usize = 0;
    while i < suffix.len()
        invariant
            i <= suffix.len() <= end <= v.len(),
            start == end - suffix.len(),
            head == v@.take(end as int),
            forall|k: int| 0 <= k < i ==> v@[start + k] == suffix@[k],
        decreases suffix.len() - i,
    {
        if v[start + i] != suffix[i] {
            return false;
        }
        i = i + 1;
    }
    assert(head.skip(head.len() - suffix@.len()) =~= suffix@);
    true
}

/// The length of `v` without the copies of `suffix` that it ends with and
/// without the dots before them.
fn extension_start(v: &Vec<char>, suffix: &Vec<char>) -> (end: usize)
    ensures
        end <= v.len(),
        v@.take(end as int) == without_extension(v@, suffix@),
{
    let mut end: usize = v.len();
    assert(v@.take(end as int) == v@);
    if suffix.len() > 0 {
        while ends_with_at(v, end, suffix)
            invariant
                end <= v.len(),
                suffix.len() > 0,
                strip_suffix_all(v@, suffix@) == strip_suffix_all(v@.take(end as int), suffix@),
            decreases end,
        {
            assert(v@.take(end as int).take(end - suffix.len()) == v@.take(end - suffix.len()));
            end = end - suffix.len();
        }
    }
    let stem_end = end;
    while end > 0 && v[end - 1] == '.'
        invariant
            end <= stem_end <= v.len(),
            forall|k: int| end <= k < stem_end ==> #[trigger] v@[k] == '.',
        decreases end,
    {
        end = end - 1;
    }
    proof {
        lemma_drop_trailing(v@.take(stem_end as int), |c: char| c == '.', end as int);
    }
    end
}

impl CrossPathBuf {
    /// What `file_name` and `file_stem` return when the platform has found
    /// `found` as that part of this path.
    pub fn name_or_error(&self, found: Option<String>) -> (r: Result<String, Error>)
        ensures
            text_result_view(r) == name_outcome(self@, option_text(found)),
    {
        match found {
            Some(name) => Ok(name),
            None => Err(Error::NoFileName(self.to_string())),
        }
    }

    /// What `extension` returns when the platform has found `file_name` as
    /// the final component of this path and `extension` as its extension.
    pub fn extension_or_empty(&self, file_name: Option<String>, extension: Option<String>) -> (r:
        Result<String, Error>)
        ensures
            text_result_view(r) == extension_outcome(
                self@,
                option_text(file_name),
                option_text(extension),
            ),
    {
        match file_name {
            None => Err(Error::NoFileName(self.to_string())),
            Some(_) => match extension {
                Some(found) => Ok(found),
                None => Ok(String::new()),
            },
        }
    }

    /// What `parent` returns when the platform has found `found` as the
    /// parent of this path.
    pub fn parent_or_error(&self, found: Option<String>) -> (r: Result<CrossPathBuf, Error>)
        ensures
            path_result_view(r) == parent_outcome(self@, option_text(found)),
            r matches Ok(p) ==> is_well_formed(p@),
    {
        match found {
            Some(parent) => CrossPathBuf::new(parent.as_str()),
            None => Err(Error::NoParent(self.to_string())),
        }
    }

    /// This path with `extension` in place of `old_extension`, validated
    /// anew.
    pub fn with_extension_replaced(&self, old_extension: &str, extension: &str) -> (r: Result<
        CrossPathBuf,
        Error,
    >)
        ensures
            path_result_view(r) == canonical_form(
                with_extension(self@, old_extension@, extension@),
            ),
            r matches Ok(p) ==> is_well_formed(p@),
    {
        let v = chars_of(self.as_str());
        let old = chars_of(old_extension);
        let end = extension_start(&v, &old);
        let mut text = String::new();
        push_range(&mut text, &v, 0, end);
        if !extension.is_empty() {
            text.push('.');
            text.append(extension);
            assert(without_extension(v@, old@).push('.') == without_extension(v@, old@)
                + seq!['.']);
        }
        CrossPathBuf::new(text.as_str())
    }

    /// The final component of this path: what the platform finds as such
    /// in the native form of the path, or `NoFileName`.
    pub fn file_name(&self, env: &HostEnv) -> (r: Result<String, Error>)
        ensures
            exists|native: &Path|
                #[trigger] path_text(native) == Some(native_form(self@, *env))
                    && text_result_view(r) == name_outcome(self@, path_file_name(native)),
    {
        let native = self.to_path_buf_current_os(env);
        self.name_or_error(file_name_of(native.as_path()))
    }

    /// The final component of this path without its extension, or
    /// `NoFileName` where the path has no final component.
    pub fn file_stem(&self, env: &HostEnv) -> (r: Result<String, Error>)
        ensures
            exists|native: &Path|
                #[trigger] path_text(native) == Some(native_form(self@, *env))
                    && text_result_view(r) == name_outcome(
                    self@,
                    match path_file_name(native) {
                        Some(name) => Some(stem_of(name)),
                        None => None,
                    },
                ),
    {
        let native = self.to_path_buf_current_os(env);
        self.name_or_error(file_stem_of(native.as_path()))
    }

    /// The extension of this path, without the dot, and the empty string
    /// where the final component has none. It fails only where the path has
    /// no final component, with `NoFileName`.
    pub fn extension(&self, env: &HostEnv) -> (r: Result<String, Error>)
        ensures
            exists|native: &Path|
                #[trigger] path_text(native) == Some(native_form(self@, *env))
                    && text_result_view(r) == found_extension(self@, path_file_name(native)),
    {
        let native = self.to_path_buf_current_os(env);
        let file_name = file_name_of(native.as_path());
        let extension = extension_of_path(native.as_path());
        self.extension_or_empty(file_name, extension)
    }

    /// This path without its final component: what the platform finds as
    /// the parent in the native form of the path, validated anew, or
    /// `NoParent`.
    pub fn parent(&self, env: &HostEnv) -> (r: Result<CrossPathBuf, Error>)
        ensures
            exists|native: &Path|
                #[trigger] path_text(native) == Some(native_form(self@, *env))
                    && path_result_view(r) == parent_outcome(self@, path_parent(native)),
            r matches Ok(p) ==> is_well_formed(p@),
    {
        let native = self.to_path_buf_current_os(env);
        self.parent_or_error(parent_of(native.as_path()))
    }

    /// The directory that this path lies in, as a path of the platform
    /// that `env` describes: what the platform finds as the parent in the
    /// native form of the path, or `NoParent`. It is the directory that has
    /// to be there before a file can be written at this path.
    pub fn native_parent(&self, env: &HostEnv) -> (r: Result<PathBuf, Error>)
        ensures
            exists|native: &Path|
                #[trigger] path_text(native) == Some(native_form(self@, *env)) && match r {
                    Ok(parent) => path_parent(native) is Some && path_text(parent.as_path())
                        == path_parent(native),
                    Err(e) => path_parent(native) is None && e@ == ErrorView::NoParent(self@),
                },
    {
        let native = self.to_path_buf_current_os(env);
        match parent_of(native.as_path()) {
            Some(parent) => Ok(path_buf_of(parent)),
            None => Err(Error::NoParent(self.to_string())),
        }
    }

    /// This path with `extension` in place of the extension that it has,
    /// validated anew. Where it has no final component it fails with
    /// `NoFileName`.
    pub fn replace_extension(&self, env: &HostEnv, extension: &str) -> (r: Result<
        CrossPathBuf,
        Error,
    >)
        ensures
            exists|native: &Path|
                #[trigger] path_text(native) == Some(native_form(self@, *env))
                    && path_result_view(r) == match found_extension(
                    self@,
                    path_file_name(native),
                ) {
                    Ok(old_extension) => canonical_form(
                        with_extension(self@, old_extension, extension@),
                    ),
                    Err(e) => Err(e),
                },
            r matches Ok(p) ==> is_well_formed(p@),
    {
        let native = self.to_path_buf_current_os(env);
        let file_name = file_name_of(native.as_path());
        let found = extension_of_path(native.as_path());
        match self.extension_or_empty(file_name, found) {
            Ok(old_extension) => self.with_extension_replaced(old_extension.as_str(), extension),
            Err(e) => Err(e),
        }
    }
}

} // verus!
