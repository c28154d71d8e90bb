//! Text as a sequence of characters: the model that every rule of the
//! library is stated over, and the conversions between `str`, `String` and
//! `Vec<char>`.

use vstd::prelude::*;
use crate::chars::{is_slash, is_whitespace_char};

verus! {

/// `s` without its longest prefix of characters that satisfy `p`.
pub open spec fn skip_leading(s: Seq<char>, p: spec_fn(char) -> bool) -> Seq<char>
    decreases s.len(),
{
    if s.len() > 0 && p(s[0]) {
        skip_leading(s.skip(1), p)
    } else {
        s
    }
}

/// `s` without its longest suffix of characters that satisfy `p`.
pub open spec fn drop_trailing(s: Seq<char>, p: spec_fn(char) -> bool) -> Seq<char>
    decreases s.len(),
{
    if s.len() > 0 && p(s.last()) {
        drop_trailing(s.drop_last(), p)
    } else {
        s
    }
}

/// `s` without its leading slashes.
pub open spec fn strip_leading_slashes(s: Seq<char>) -> Seq<char> {
    skip_leading(s, |c: char| is_slash(c))
}

/// `s` without its trailing slashes.
pub open spec fn strip_trailing_slashes(s: Seq<char>) -> Seq<char> {
    drop_trailing(s, |c: char| is_slash(c))
}

/// `s` without leading and trailing white space.
pub open spec fn trim_whitespace(s: Seq<char>) -> Seq<char> {
    drop_trailing(skip_leading(s, |c: char| is_whitespace_char(c)), |c: char| is_whitespace_char(c))
}

/// `s` begins with `prefix`.
pub open spec fn starts_with(s: Seq<char>, prefix: Seq<char>) -> bool {
    prefix.len() <= s.len() && s.take(prefix.len() as int) == prefix
}

/// `s` ends with `suffix`.
pub open spec fn ends_with(s: Seq<char>, suffix: Seq<char>) -> bool {
    suffix.len() <= s.len() && s.skip(s.len() - suffix.len()) == suffix
}

/// Two slashes stand side by side somewhere in `s`.
pub open spec fn has_double_slash(s: Seq<char>) -> bool {
    exists|i: int| 0 <= i && i + 1 < s.len() && #[trigger] s[i] == '/' && s[i + 1] == '/'
}

/// The prefix that `skip_leading` removes is the run of `n` characters that
/// satisfy `p` and is followed by one that does not.
pub proof fn lemma_skip_leading(s: Seq<char>, p: spec_fn(char) -> bool, n: int)
    requires
        0 <= n <= s.len(),
        forall|k: int| 0 <= k < n ==> p(#[trigger] s[k]),
        n == s.len() || !p(s[n]),
    ensures
        skip_leading(s, p) == s.skip(n),
    decreases n,
{
    if n > 0 {
        lemma_skip_leading(s.skip(1), p, n - 1);
    }
}

/// The suffix that `drop_trailing` removes is the run of characters from
/// `n` on that satisfy `p` and is preceded by one that does not.
pub proof fn lemma_drop_trailing(s: Seq<char>, p: spec_fn(char) -> bool, n: int)
    requires
        0 <= n <= s.len(),
        forall|k: int| n <= k < s.len() ==> p(#[trigger] s[k]),
        n == 0 || !p(s[n - 1]),
    ensures
        drop_trailing(s, p) == s.take(n),
    decreases s.len() - n,
{
    if n < s.len() {
        lemma_drop_trailing(s.drop_last(), p, n);
    }
}

/// What `skip_leading` returns is a suffix of its argument that does not
/// begin with a character satisfying `p`.
pub proof fn lemma_skip_leading_result(s: Seq<char>, p: spec_fn(char) -> bool)
    ensures
        skip_leading(s, p).len() <= s.len(),
        skip_leading(s, p) == s.skip(s.len() - skip_leading(s, p).len()),
        skip_leading(s, p).len() == 0 || !p(skip_leading(s, p)[0]),
        forall|k: int| 0 <= k < s.len() - skip_leading(s, p).len() ==> p(#[trigger] s[k]),
    decreases s.len(),
{
    if s.len() > 0 && p(s[0]) {
        let rest = s.skip(1);
        lemma_skip_leading_result(rest, p);
        let r = skip_leading(rest, p);
        assert forall|k: int| 0 <= k < s.len() - r.len() implies p(#[trigger] s[k]) by {
            if k > 0 {
                assert(rest[k - 1] == s[k]);
            }
        }
    }
}

/// What `drop_trailing` returns is a prefix of its argument that does not
/// end with a character satisfying `p`.
pub proof fn lemma_drop_trailing_result(s: Seq<char>, p: spec_fn(char) -> bool)
    ensures
        drop_trailing(s, p).len() <= s.len(),
        drop_trailing(s, p) == s.take(drop_trailing(s, p).len() as int),
        drop_trailing(s, p).len() == 0 || !p(drop_trailing(s, p).last()),
        forall|k: int| drop_trailing(s, p).len() <= k < s.len() ==> p(#[trigger] s[k]),
    decreases s.len(),
{
    if s.len() > 0 && p(s.last()) {
        let front = s.drop_last();
        lemma_drop_trailing_result(front, p);
        let r = drop_trailing(front, p);
        assert forall|k: int| r.len() <= k < s.len() implies p(#[trigger] s[k]) by {
            if k < s.len() - 1 {
                assert(front[k] == s[k]);
            }
        }
    }
}

/// The characters of a string slice, one vector element each.
pub fn chars_of(s: &str) -> (v: Vec<char>)
    ensures
        v@ == s@,
{
    let mut v: Vec<char> = Vec::new();
    for c in it: s.chars()
        invariant
            it.seq() == s@,
            v@ == s@.take(it.index()),
    {
        v.push(c);
    }
    v
}

/// Appends the characters `v[from..to]` to `out`.
pub fn push_range(out: &mut String, v: &Vec<char>, from: usize, to: usize)
    requires
        from <= to <= v.len(),
    ensures
        final(out)@ == old(out)@ + v@.subrange(from as int, to as int),
{
    let mut i: usize = from;
    while i < to
        invariant
            from <= i <= to <= v.len(),
            out@ == old(out)@ + v@.subrange(from as int, i as int),
        decreases to - i,
    {
        out.push(v[i]);
        i = i + 1;
    }
}

/// The string that holds the characters `v[from..to]`.
pub fn string_of_range(v: &Vec<char>, from: usize, to: usize) -> (s: String)
    requires
        from <= to <= v.len(),
    ensures
        s@ == v@.subrange(from as int, to as int),
{
    let mut s = String::new();
    push_range(&mut s, v, from, to);
    s
}

/// The string that holds the characters of `v`.
pub fn string_of(v: &Vec<char>) -> (s: String)
    ensures
        s@ == v@,
{
    string_of_range(v, 0, v.len())
}

} // verus!
