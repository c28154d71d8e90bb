//! The path type, its validating constructor and the operations that make
//! one path from another.

use vstd::prelude::*;
use vstd::string::StringExecFns;
use crate::canonical::{
    canonical_form, contains_char, contains_control, contains_double_slash, contains_forbidden,
    contains_reserved_component, is_well_formed, lemma_canonical_is_well_formed, trimmed_bounds,
    with_drive_rewritten, with_slashes,
};
use crate::chars::is_slash;
use crate::error::{Error, ErrorView};
use crate::text::{
    chars_of, lemma_drop_trailing, lemma_skip_leading, push_range, string_of,
    strip_leading_slashes, strip_trailing_slashes,
};

verus! {

/// A path in the neutral form: one text, the same on every platform, with
/// slashes for separators. It is turned into a path of the platform only
/// when the file system is reached.
#[derive(Debug, PartialEq)]
pub struct CrossPathBuf {
    cross_path: String,
}

impl View for CrossPathBuf {
    type V = Seq<char>;

    closed spec fn view(&self) -> Seq<char> {
        self.cross_path@
    }
}

impl Clone for CrossPathBuf {
    fn clone(&self) -> (r: Self)
        ensures
            r@ == self@,
    {
        proof {
            use_type_invariant(self);
        }
        CrossPathBuf { cross_path: self.cross_path.clone() }
    }
}

/// The result of an operation that yields a path, as a mathematical value.
pub open spec fn path_result_view(r: Result<CrossPathBuf, Error>) -> Result<
    Seq<char>,
    ErrorView,
> {
    match r {
        Ok(p) => Ok(p@),
        Err(e) => Err(e@),
    }
}

/// `addition` appended to `base` as a relative path: one slash between the
/// two, whatever slashes `base` ends with and `addition` begins with.
pub open spec fn joined(base: Seq<char>, addition: Seq<char>) -> Seq<char> {
    strip_trailing_slashes(base) + seq!['/'] + strip_leading_slashes(addition)
}

/// The index in `v` of the first character that is no slash.
fn leading_slashes(v: &Vec<char>) -> (n: usize)
    ensures
        n <= v.len(),
        v@.skip(n as int) == strip_leading_slashes(v@),
        n == v.len() || v@[n as int] != '/',
{
    let mut n: usize = 0;
    while n < v.len() && v[n] == '/'
        invariant
            n <= v.len(),
            forall|k: int| 0 <= k < n ==> is_slash(#[trigger] v@[k]),
        decreases v.len() - n,
    {
        n = n + 1;
    }
    proof {
        lemma_skip_leading(v@, |c: char| is_slash(c), n as int);
    }
    n
}

/// The index in `v` behind the last character that is no slash.
fn before_trailing_slashes(v: &Vec<char>) -> (n: usize)
    ensures
        n <= v.len(),
        v@.take(n as int) == strip_trailing_slashes(v@),
        n == 0 || v@[n - 1] != '/',
{
    let mut n: usize = v.len();
    while n > 0 && v[n - 1] == '/'
        invariant
            n <= v.len(),
            forall|k: int| n <= k < v.len() ==> is_slash(#[trigger] v@[k]),
        decreases n,
    {
        n = n - 1;
    }
    proof {
        lemma_drop_trailing(v@, |c: char| is_slash(c), n as int);
    }
    n
}

impl CrossPathBuf {
    #[verifier::type_invariant]
    spec fn well_formed(&self) -> bool {
        is_well_formed(self.cross_path@)
    }

    /// The path that `str_path` stands for, or the rule that it breaks.
    pub fn new(str_path: &str) -> (r: Result<CrossPathBuf, Error>)
        ensures
            path_result_view(r) == canonical_form(str_path@),
            r matches Ok(p) ==> is_well_formed(p@),
    {
        let raw = chars_of(str_path);
        if contains_forbidden(&raw) {
            return Err(Error::InvalidCharacter(String::from_str(str_path)));
        }
        if contains_control(&raw) {
            return Err(Error::ForbiddenAscii(String::from_str(str_path)));
        }
        let (from, to) = trimmed_bounds(&raw);
        let raw_ends_badly = raw.len() > 0 && (raw[raw.len() - 1] == ' ' || raw[raw.len() - 1]
            == '.');
        let trimmed_ends_badly = to > from && (raw[to - 1] == ' ' || raw[to - 1] == '.');
        if raw_ends_badly || trimmed_ends_badly {
            return Err(Error::MustNotEndWith(String::from_str(str_path)));
        }
        let text = with_slashes(&raw, from, to);
        if contains_reserved_component(&text) {
            return Err(Error::ReservedWords(String::from_str(str_path)));
        }
        let rewritten = with_drive_rewritten(text);
        if contains_char(&rewritten, ':') {
            return Err(Error::InvalidCharacter(string_of(&rewritten)));
        }
        if contains_double_slash(&rewritten) {
            return Err(Error::InvalidCharacter(string_of(&rewritten)));
        }
        proof {
            lemma_canonical_is_well_formed(str_path@);
        }
        Ok(CrossPathBuf { cross_path: string_of(&rewritten) })
    }

    /// The text of the path, as it is shown and stored.
    pub fn as_str(&self) -> (r: &str)
        ensures
            r@ == self@,
            is_well_formed(r@),
    {
        proof {
            use_type_invariant(self);
        }
        self.cross_path.as_str()
    }

    /// The text of the path in a string of its own.
    pub fn to_string(&self) -> (r: String)
        ensures
            r@ == self@,
    {
        self.cross_path.clone()
    }

    /// `str_path` appended to this path. The second path never takes the
    /// place of the first, as it would in `std`, however it begins.
    pub fn join_relative(&self, str_path: &str) -> (r: Result<CrossPathBuf, Error>)
        ensures
            path_result_view(r) == match canonical_form(str_path@) {
                Ok(addition) => Ok(joined(self@, addition)),
                Err(e) => Err(e),
            },
            r matches Ok(p) ==> is_well_formed(p@),
    {
        let second = match CrossPathBuf::new(str_path) {
            Ok(p) => p,
            Err(e) => {
                return Err(e);
            },
        };
        let base = chars_of(self.cross_path.as_str());
        let addition = chars_of(second.cross_path.as_str());
        let end = before_trailing_slashes(&base);
        let start = leading_slashes(&addition);
        let mut cross_path = String::new();
        push_range(&mut cross_path, &base, 0, end);
        cross_path.push('/');
        push_range(&mut cross_path, &addition, start, addition.len());
        proof {
            use_type_invariant(self);
            use_type_invariant(&second);
            let head = base@.take(end as int);
            assert(head.push('/') == head + seq!['/']);
        }
        Ok(CrossPathBuf { cross_path })
    }

    /// This path without its leading slashes.
    pub fn trim_start_slash(&self) -> (r: Result<CrossPathBuf, Error>)
        ensures
            r matches Ok(p) && p@ == strip_leading_slashes(self@),
            r matches Ok(p) ==> is_well_formed(p@),
    {
        let v = chars_of(self.cross_path.as_str());
        let start = leading_slashes(&v);
        let mut cross_path = String::new();
        push_range(&mut cross_path, &v, start, v.len());
        proof {
            use_type_invariant(self);
        }
        Ok(CrossPathBuf { cross_path })
    }

    /// This path without its trailing slashes.
    pub fn trim_end_slash(&self) -> (r: Result<CrossPathBuf, Error>)
        ensures
            r matches Ok(p) && p@ == strip_trailing_slashes(self@),
            r matches Ok(p) ==> is_well_formed(p@),
    {
        let v = chars_of(self.cross_path.as_str());
        let end = before_trailing_slashes(&v);
        let mut cross_path = String::new();
        push_range(&mut cross_path, &v, 0, end);
        proof {
            use_type_invariant(self);
        }
        Ok(CrossPathBuf { cross_path })
    }

    /// This path with exactly one leading slash.
    pub fn add_start_slash(&self) -> (r: Result<CrossPathBuf, Error>)
        ensures
            r matches Ok(p) && p@ == seq!['/'] + strip_leading_slashes(self@),
            r matches Ok(p) ==> is_well_formed(p@),
    {
        let v = chars_of(self.cross_path.as_str());
        let start = leading_slashes(&v);
        let mut cross_path = String::new();
        cross_path.push('/');
        push_range(&mut cross_path, &v, start, v.len());
        proof {
            use_type_invariant(self);
        }
        Ok(CrossPathBuf { cross_path })
    }

    /// This path with exactly one trailing slash.
    pub fn add_end_slash(&self) -> (r: Result<CrossPathBuf, Error>)
        ensures
            r matches Ok(p) && p@ == strip_trailing_slashes(self@) + seq!['/'],
            r matches Ok(p) ==> is_well_formed(p@),
    {
        let v = chars_of(self.cross_path.as_str());
        let end = before_trailing_slashes(&v);
        let mut cross_path = String::new();
        push_range(&mut cross_path, &v, 0, end);
        cross_path.push('/');
        proof {
            use_type_invariant(self);
        }
        Ok(CrossPathBuf { cross_path })
    }
}

} // verus!
