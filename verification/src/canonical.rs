//! The rules that turn raw text into the canonical form of a path, or
//! refuse it.

use vstd::prelude::*;
use crate::chars::{
    ascii_letter, ascii_lower, control_char, forbidden_char, is_ascii_letter, is_control_char,
    is_forbidden_char, is_whitespace_char, to_ascii_lower, whitespace_char,
};
use crate::error::ErrorView;
use crate::text::{
    has_double_slash, lemma_drop_trailing, lemma_drop_trailing_result, lemma_skip_leading,
    lemma_skip_leading_result, skip_leading, trim_whitespace,
};

verus! {

/// Some character of `s` is one of `< > " | ? *`.
pub open spec fn has_forbidden_char(s: Seq<char>) -> bool {
    exists|i: int| 0 <= i < s.len() && is_forbidden_char(#[trigger] s[i])
}

/// Some character of `s` is NUL, an ASCII control character or DEL.
pub open spec fn has_control_char(s: Seq<char>) -> bool {
    exists|i: int| 0 <= i < s.len() && is_control_char(#[trigger] s[i])
}

/// The last character of `s` is a space or a dot.
pub open spec fn ends_with_space_or_dot(s: Seq<char>) -> bool {
    s.len() > 0 && (s.last() == ' ' || s.last() == '.')
}

/// A slash for a backslash; any other character is unchanged.
pub open spec fn slash_for_backslash(c: char) -> char {
    if c == '\\' {
        '/'
    } else {
        c
    }
}

/// `s` with a slash in place of each backslash.
pub open spec fn replace_backslashes(s: Seq<char>) -> Seq<char> {
    s.map_values(|c: char| slash_for_backslash(c))
}

/// The raw text without the white space around it and with slashes only:
/// the text that the component rules look at.
pub open spec fn normalized(raw: Seq<char>) -> Seq<char> {
    replace_backslashes(trim_whitespace(raw))
}

/// `s` with each ASCII letter in lower case.
pub open spec fn lower_text(s: Seq<char>) -> Seq<char> {
    s.map_values(|c: char| ascii_lower(c))
}

/// `name` is, whatever the case of its letters, one of the device names
/// `con`, `prn`, `aux`, `nul`, `com1` to `com9`, `lpt1` to `lpt9`, or one of
/// the traversal components `.` and `..`.
pub open spec fn is_reserved_name(name: Seq<char>) -> bool {
    let n = lower_text(name);
    ||| n =~= seq!['.']
    ||| n =~= seq!['.', '.']
    ||| n =~= seq!['c', 'o', 'n']
    ||| n =~= seq!['p', 'r', 'n']
    ||| n =~= seq!['a', 'u', 'x']
    ||| n =~= seq!['n', 'u', 'l']
    ||| (n.len() == 4 && n.take(3) =~= seq!['c', 'o', 'm'] && '1' <= n[3] && n[3] <= '9')
    ||| (n.len() == 4 && n.take(3) =~= seq!['l', 'p', 't'] && '1' <= n[3] && n[3] <= '9')
}

/// `s[start..end]` is one component of `s`: it holds no slash and reaches
/// on both sides to a slash or to the end of the text.
pub open spec fn is_component(s: Seq<char>, start: int, end: int) -> bool {
    &&& 0 <= start <= end <= s.len()
    &&& start == 0 || s[start - 1] == '/'
    &&& end == s.len() || s[end] == '/'
    &&& forall|k: int| start <= k < end ==> #[trigger] s[k] != '/'
}

/// Some component of `s` is a reserved name.
pub open spec fn has_reserved_component(s: Seq<char>) -> bool {
    exists|start: int, end: int| #[trigger]
        is_component(s, start, end) && is_reserved_name(s.subrange(start, end))
}

/// `s` begins with a drive letter and a colon.
pub open spec fn has_drive_prefix(s: Seq<char>) -> bool {
    s.len() >= 2 && is_ascii_letter(s[0]) && s[1] == ':'
}

/// The directory under which the drives stand in the neutral form.
pub open spec fn mount_prefix() -> Seq<char> {
    seq!['/', 'm', 'n', 't', '/']
}

/// `s` with a leading drive prefix `X:` rewritten to `/mnt/x`.
pub open spec fn rewrite_drive_prefix(s: Seq<char>) -> Seq<char> {
    if has_drive_prefix(s) {
        mount_prefix().push(ascii_lower(s[0])) + s.skip(2)
    } else {
        s
    }
}

/// The canonical form of `raw`, or the reason for which it has none. The
/// rules apply in this order, and the first one that is broken decides:
/// no forbidden character and no control character in the raw text; neither
/// the raw text nor what is left of it without the surrounding white space
/// ends with a space or a dot; no component of the normalized text is a
/// reserved name; after the drive prefix is rewritten, no colon and no
/// double slash is left.
///
/// The components are looked at before the drive prefix is rewritten. So a
/// device name before a colon, as in `CON:\x`, is refused for the colon,
/// and `c:on` passes as the drive `c` with `on` behind it.
pub open spec fn canonical_form(raw: Seq<char>) -> Result<Seq<char>, ErrorView> {
    let text = normalized(raw);
    let rewritten = rewrite_drive_prefix(text);
    if has_forbidden_char(raw) {
        Err(ErrorView::InvalidCharacter(raw))
    } else if has_control_char(raw) {
        Err(ErrorView::ForbiddenAscii(raw))
    } else if ends_with_space_or_dot(raw) || ends_with_space_or_dot(trim_whitespace(raw)) {
        Err(ErrorView::MustNotEndWith(raw))
    } else if has_reserved_component(text) {
        Err(ErrorView::ReservedWords(raw))
    } else if rewritten.contains(':') {
        Err(ErrorView::InvalidCharacter(rewritten))
    } else if has_double_slash(rewritten) {
        Err(ErrorView::InvalidCharacter(rewritten))
    } else {
        Ok(rewritten)
    }
}

/// What the text of every path holds to, however the path was made:
/// slashes are the only separators and never stand doubled, and there is no
/// forbidden character, no control character and no colon. A canonical
/// form holds to more, but a trailing dot or a reserved name can come to
/// light when slashes are trimmed or a drive prefix is rewritten, so this
/// much is promised of every path and no more.
pub open spec fn is_well_formed(s: Seq<char>) -> bool {
    &&& !s.contains('\\')
    &&& !s.contains(':')
    &&& !has_double_slash(s)
    &&& !has_forbidden_char(s)
    &&& !has_control_char(s)
}

pub fn contains_forbidden(v: &Vec<char>) -> (r: bool)
    ensures
        r == has_forbidden_char(v@),
{
    let mut i: usize = 0;
    while i < v.len()
        invariant
            i <= v.len(),
            forall|k: int| 0 <= k < i ==> !is_forbidden_char(#[trigger] v@[k]),
        decreases v.len() - i,
    {
        if forbidden_char(v[i]) {
            return true;
        }
        i = i + 1;
    }
    false
}

pub fn contains_control(v: &Vec<char>) -> (r: bool)
    ensures
        r == has_control_char(v@),
{
    let mut i: usize = 0;
    while i < v.len()
        invariant
            i <= v.len(),
            forall|k: int| 0 <= k < i ==> !is_control_char(#[trigger] v@[k]),
        decreases v.len() - i,
    {
        if control_char(v[i]) {
            return true;
        }
        i = i + 1;
    }
    false
}

pub fn contains_char(v: &Vec<char>, needle: char) -> (r: bool)
    ensures
        r == v@.contains(needle),
{
    let mut i: usize = 0;
    while i < v.len()
        invariant
            i <= v.len(),
            forall|k: int| 0 <= k < i ==> v@[k] != needle,
        decreases v.len() - i,
    {
        if v[i] == needle {
            return true;
        }
        i = i + 1;
    }
    false
}

pub fn contains_double_slash(v: &Vec<char>) -> (r: bool)
    ensures
        r == has_double_slash(v@),
{
    let mut i: usize = 1;
    while i < v.len()
        invariant
            1 <= i,
            forall|k: int| 0 <= k && k + 1 < i ==> !(#[trigger] v@[k] == '/' && v@[k + 1] == '/'),
        decreases v.len() - i,
    {
        if v[i - 1] == '/' && v[i] == '/' {
            return true;
        }
        i = i + 1;
    }
    false
}

/// The bounds of `v` without the white space around it.
pub fn trimmed_bounds(v: &Vec<char>) -> (r: (usize, usize))
    ensures
        r.0 <= r.1 <= v.len(),
        v@.subrange(r.0 as int, r.1 as int) == trim_whitespace(v@),
{
    let mut from: usize = 0;
    while from < v.len() && whitespace_char(v[from])
        invariant
            from <= v.len(),
            forall|k: int| 0 <= k < from ==> is_whitespace_char(#[trigger] v@[k]),
        decreases v.len() - from,
    {
        from = from + 1;
    }
    let mut to: usize = v.len();
    while to > from && whitespace_char(v[to - 1])
        invariant
            from <= to <= v.len(),
            forall|k: int| to <= k < v.len() ==> is_whitespace_char(#[trigger] v@[k]),
        decreases to,
    {
        to = to - 1;
    }
    proof {
        let ws = |c: char| is_whitespace_char(c);
        lemma_skip_leading(v@, ws, from as int);
        lemma_drop_trailing(v@.skip(from as int), ws, to - from);
    }
    (from, to)
}

/// The characters `v[from..to]` with a slash in place of each backslash.
pub fn with_slashes(v: &Vec<char>, from: usize, to: usize) -> (r: Vec<char>)
    requires
        from <= to <= v.len(),
    ensures
        r@ == replace_backslashes(v@.subrange(from as int, to as int)),
{
    let mut r: Vec<char> = Vec::new();
    let mut i: usize = from;
    while i < to
        invariant
            from <= i <= to <= v.len(),
            r@ == replace_backslashes(v@.subrange(from as int, i as int)),
        decreases to - i,
    {
        let c = v[i];
        if c == '\\' {
            r.push('/');
        } else {
            r.push(c);
        }
        i = i + 1;
    }
    r
}

/// Whether `v[start..end]` is a reserved name.
pub fn reserved_name(v: &Vec<char>, start: usize, end: usize) -> (r: bool)
    requires
        start <= end <= v.len(),
    ensures
        r == is_reserved_name(v@.subrange(start as int, end as int)),
{
    let ghost name = v@.subrange(start as int, end as int);
    let ghost n = lower_text(name);
    let len = end - start;
    if len == 1 {
        assert(n[0] == ascii_lower(name[0]));
        v[start] == '.'
    } else if len == 2 {
        v[start] == '.' && v[start + 1] == '.'
    } else if len == 3 {
        let a = to_ascii_lower(v[start]);
        let b = to_ascii_lower(v[start + 1]);
        let c = to_ascii_lower(v[start + 2]);
        (a == 'c' && b == 'o' && c == 'n') || (a == 'p' && b == 'r' && c == 'n') || (a == 'a'
            && b == 'u' && c == 'x') || (a == 'n' && b == 'u' && c == 'l')
    } else if len == 4 {
        let a = to_ascii_lower(v[start]);
        let b = to_ascii_lower(v[start + 1]);
        let c = to_ascii_lower(v[start + 2]);
        let d = v[start + 3];
        ((a == 'c' && b == 'o' && c == 'm') || (a == 'l' && b == 'p' && c == 't')) && '1' <= d
            && d <= '9'
    } else {
        false
    }
}

/// Whether some component of `v` is a reserved name.
pub fn contains_reserved_component(v: &Vec<char>) -> (r: bool)
    ensures
        r == has_reserved_component(v@),
{
    let mut start: usize = 0;
    let mut i: usize = 0;
    while i < v.len()
        invariant
            start <= i <= v.len(),
            start == 0 || v@[start - 1] == '/',
            forall|k: int| start <= k < i ==> #[trigger] v@[k] != '/',
            forall|a: int, b: int| #[trigger]
                is_component(v@, a, b) && b < start ==> !is_reserved_name(v@.subrange(a, b)),
        decreases v.len() - i,
    {
        if v[i] == '/' {
            if reserved_name(v, start, i) {
                assert(is_component(v@, start as int, i as int));
                return true;
            }
            start = i + 1;
        }
        i = i + 1;
    }
    if reserved_name(v, start, i) {
        assert(is_component(v@, start as int, i as int));
        return true;
    }
    false
}

/// `v` with a leading drive prefix `X:` rewritten to `/mnt/x`.
pub fn with_drive_rewritten(v: Vec<char>) -> (r: Vec<char>)
    ensures
        r@ == rewrite_drive_prefix(v@),
{
    if v.len() >= 2 && ascii_letter(v[0]) && v[1] == ':' {
        let mut r: Vec<char> = Vec::new();
        r.push('/');
        r.push('m');
        r.push('n');
        r.push('t');
        r.push('/');
        r.push(to_ascii_lower(v[0]));
        let mut i: usize = 2;
        while i < v.len()
            invariant
                2 <= i <= v.len(),
                r@ == mount_prefix().push(ascii_lower(v@[0])) + v@.subrange(2, i as int),
            decreases v.len() - i,
        {
            r.push(v[i]);
            i = i + 1;
        }
        r
    } else {
        v
    }
}

/// Every canonical form is well formed.
pub proof fn lemma_canonical_is_well_formed(raw: Seq<char>)
    ensures
        canonical_form(raw) matches Ok(text) ==> is_well_formed(text),
{
    let ws = |c: char| is_whitespace_char(c);
    lemma_skip_leading_result(raw, ws);
    lemma_drop_trailing_result(skip_leading(raw, ws), ws);
}

} // verus!
