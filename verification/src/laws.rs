//! What holds of the library as a whole: laws that relate several of
//! its operations, each stated over the same models as the contracts of
//! the operations and proved once, for every input.

use vstd::prelude::*;
use crate::canonical::{
    canonical_form, ends_with_space_or_dot, has_control_char, has_drive_prefix,
    has_forbidden_char, has_reserved_component, is_component, is_reserved_name, is_well_formed,
    lemma_canonical_is_well_formed, mount_prefix, normalized, replace_backslashes,
    slash_for_backslash,
};
use crate::chars::{ascii_lower, is_control_char, is_forbidden_char, is_slash, is_whitespace_char};
use crate::error::ErrorView;
use crate::native::{posix_form, temp_prefix, windows_form};
use crate::path::joined;
use crate::shorten::shortened;
use crate::trusted::{extension_of, last_dot, stem_of};
use crate::text::{
    drop_trailing, lemma_drop_trailing, lemma_drop_trailing_result, lemma_skip_leading,
    lemma_skip_leading_result, skip_leading, starts_with, strip_leading_slashes,
    strip_trailing_slashes, trim_whitespace,
};

verus! {

/// Whatever backslashes a raw text holds, its canonical form holds none.
pub proof fn lemma_canonical_has_no_backslash(raw: Seq<char>)
    ensures
        canonical_form(raw) matches Ok(text) ==> !text.contains('\\'),
{
    lemma_canonical_is_well_formed(raw);
}

/// The trimmed form of a text is a stretch of the text that neither begins
/// nor ends with white space.
pub proof fn lemma_trim_whitespace_result(s: Seq<char>)
    ensures
        trim_whitespace(s).len() == 0 || (!is_whitespace_char(trim_whitespace(s)[0])
            && !is_whitespace_char(trim_whitespace(s).last())),
        exists|from: int|
            0 <= from && from + trim_whitespace(s).len() <= s.len() && trim_whitespace(s)
                == #[trigger] s.subrange(from, from + trim_whitespace(s).len()),
{
    let ws = |c: char| is_whitespace_char(c);
    let inner = skip_leading(s, ws);
    let t = trim_whitespace(s);
    lemma_skip_leading_result(s, ws);
    lemma_drop_trailing_result(inner, ws);
    let from = s.len() - inner.len();
    assert(t == s.subrange(from, from + t.len()));
}

/// To trim the white space a second time changes nothing.
pub proof fn lemma_trim_whitespace_idempotent(s: Seq<char>)
    ensures
        trim_whitespace(trim_whitespace(s)) == trim_whitespace(s),
{
    lemma_trim_whitespace_result(s);
}

/// A raw text that begins with a drive prefix `X:` has, where it has a
/// canonical form at all, one that begins with `/mnt/x`, the letter in
/// lower case, and continues as the text did behind the prefix. On Windows
/// that form is rendered with the drive prefix again: `x:` and the same
/// continuation.
pub proof fn lemma_drive_prefix_round_trip(
    raw: Seq<char>,
    home: Option<Seq<char>>,
    temp: Seq<char>,
)
    requires
        has_drive_prefix(raw),
    ensures
        has_drive_prefix(normalized(raw)),
        canonical_form(raw) matches Ok(text) ==> {
            let rest = normalized(raw).skip(2);
            let letter = ascii_lower(raw[0]);
            &&& text == mount_prefix().push(letter) + rest
            &&& starts_with(text, mount_prefix().push(letter))
            &&& windows_form(text, home, temp) == seq![letter, ':'] + rest
        },
{
    lemma_drop_trailing_result(raw, |c: char| is_whitespace_char(c));
    if let Ok(canonical) = canonical_form(raw) {
        assert(canonical.take(6) == mount_prefix().push(ascii_lower(raw[0])));
        assert(canonical.take(5) == mount_prefix());
    }
}

/// What holds of every canonical form, fresh from validation: it is well
/// formed, it neither begins nor ends with white space, and it does not
/// end with a space or a dot. It holds a reserved name only where the
/// rewritten drive prefix has made one: `c:on` becomes `/mnt/con`.
pub proof fn lemma_canonical_form_invariants(raw: Seq<char>)
    ensures
        canonical_form(raw) matches Ok(text) ==> {
            &&& is_well_formed(text)
            &&& trim_whitespace(text) == text
            &&& !ends_with_space_or_dot(text)
            &&& has_reserved_component(text) ==> has_drive_prefix(normalized(raw))
        },
{
    lemma_canonical_is_well_formed(raw);
    lemma_trim_whitespace_result(raw);
}

/// A text is canonical when it is its own canonical form.
pub open spec fn is_canonical(text: Seq<char>) -> bool {
    canonical_form(text) == Ok::<Seq<char>, ErrorView>(text)
}

/// The canonical texts are exactly those that hold to every rule: well
/// formed, no white space around them, no space or dot at the end, no
/// reserved name among the components.
pub proof fn lemma_canonical_texts(text: Seq<char>)
    ensures
        is_canonical(text) <==> {
            &&& is_well_formed(text)
            &&& trim_whitespace(text) == text
            &&& !ends_with_space_or_dot(text)
            &&& !has_reserved_component(text)
        },
{
    lemma_canonical_form_invariants(text);
    if is_well_formed(text) && trim_whitespace(text) == text {
        assert(replace_backslashes(text) =~= text) by {
            assert forall|i: int| 0 <= i < text.len() implies slash_for_backslash(
                #[trigger] text[i],
            ) == text[i] by {
                assert(text.contains(text[i]));
            }
        }
    }
}

/// The canonical form of a canonical form is that form itself. The one
/// exception is a form in which the rewritten drive prefix has made a
/// reserved name of a component: it is left out.
pub proof fn lemma_canonical_form_idempotent(raw: Seq<char>)
    requires
        canonical_form(raw) matches Ok(text) ==> !has_reserved_component(text),
    ensures
        canonical_form(raw) matches Ok(text) ==> canonical_form(text) == Ok::<
            Seq<char>,
            ErrorView,
        >(text),
{
    if let Ok(canonical) = canonical_form(raw) {
        lemma_canonical_form_invariants(raw);
        lemma_canonical_texts(canonical);
    }
}

/// To strip the leading slashes a second time changes nothing.
pub proof fn lemma_strip_leading_slashes_idempotent(s: Seq<char>)
    ensures
        strip_leading_slashes(strip_leading_slashes(s)) == strip_leading_slashes(s),
{
    lemma_skip_leading_result(s, |c: char| is_slash(c));
}

/// To strip the trailing slashes a second time changes nothing.
pub proof fn lemma_strip_trailing_slashes_idempotent(s: Seq<char>)
    ensures
        strip_trailing_slashes(strip_trailing_slashes(s)) == strip_trailing_slashes(s),
{
    lemma_drop_trailing_result(s, |c: char| is_slash(c));
}

/// A leading slash that is added to a text without one is all that
/// stripping the leading slashes takes away again.
pub proof fn lemma_add_then_strip_leading_slash(s: Seq<char>)
    requires
        s.len() == 0 || s[0] != '/',
    ensures
        strip_leading_slashes(seq!['/'] + strip_leading_slashes(s)) == s,
{
    lemma_skip_leading(seq!['/'] + s, |c: char| is_slash(c), 1);
}

/// A trailing slash that is added to a text without one is all that
/// stripping the trailing slashes takes away again.
pub proof fn lemma_add_then_strip_trailing_slash(s: Seq<char>)
    requires
        s.len() == 0 || s.last() != '/',
    ensures
        strip_trailing_slashes(strip_trailing_slashes(s) + seq!['/']) == s,
{
    lemma_drop_trailing(s + seq!['/'], |c: char| is_slash(c), s.len() as int);
}

/// A joined path begins with the first path, whatever the second one looks
/// like: the second is appended behind one slash and never takes the place
/// of the first.
pub proof fn lemma_join_keeps_base(base: Seq<char>, addition: Seq<char>)
    ensures
        starts_with(joined(base, addition), strip_trailing_slashes(base) + seq!['/']),
        joined(base, addition).len() == strip_trailing_slashes(base).len() + 1
            + strip_leading_slashes(addition).len(),
{
    let head = strip_trailing_slashes(base) + seq!['/'];
    let whole = joined(base, addition);
    assert(whole.take(head.len() as int) == head);
}

/// A text that begins with none of `~`, `/mnt/` and `/tmp` is its own
/// native form, on Windows and on POSIX systems alike.
pub proof fn lemma_plain_text_is_native(text: Seq<char>, home: Option<Seq<char>>, temp: Seq<char>)
    requires
        text.len() == 0 || text[0] != '~',
        !starts_with(text, mount_prefix()),
        !starts_with(text, temp_prefix()),
    ensures
        windows_form(text, home, temp) == text,
        posix_form(text, home, temp) == text,
{
}

/// Where a file name holds a dot, the last one stands at the index that
/// `last_dot` gives, and no dot stands behind it.
pub proof fn lemma_last_dot(name: Seq<char>)
    ensures
        -1 <= last_dot(name) < name.len(),
        last_dot(name) >= 0 ==> name[last_dot(name)] == '.',
        forall|k: int| last_dot(name) < k < name.len() ==> #[trigger] name[k] != '.',
    decreases name.len(),
{
    if name.len() > 0 && name.last() != '.' {
        let front = name.drop_last();
        lemma_last_dot(front);
        assert forall|k: int| last_dot(name) < k < name.len() implies #[trigger] name[k]
            != '.' by {
            if k < front.len() {
                assert(front[k] == name[k]);
            }
        }
    }
}

/// A file name with an extension is its stem, a dot and the extension, and
/// the extension holds no dot. A file name without one is its own stem.
pub proof fn lemma_stem_dot_extension(name: Seq<char>)
    ensures
        match extension_of(name) {
            Some(extension) => name == stem_of(name) + seq!['.'] + extension
                && !extension.contains('.'),
            None => name == stem_of(name),
        },
{
    lemma_last_dot(name);
}

/// What is shown of a text never has more than `max_char` characters.
pub proof fn lemma_shortened_fits(text: Seq<char>, max_char: int)
    requires
        0 <= max_char,
    ensures
        shortened(text, max_char) matches Ok(shown) ==> shown.len() <= max_char,
{
}

/// `a` and `b` are the same text but for the case of their ASCII letters.
pub open spec fn same_but_case(a: Seq<char>, b: Seq<char>) -> bool {
    &&& a.len() == b.len()
    &&& forall|i: int| 0 <= i < a.len() ==> ascii_lower(#[trigger] a[i]) == ascii_lower(b[i])
}

/// Whether a text holds a reserved component does not depend on the case
/// of its letters.
pub proof fn lemma_reserved_component_ignores_case(a: Seq<char>, b: Seq<char>)
    requires
        same_but_case(a, b),
    ensures
        has_reserved_component(a) == has_reserved_component(b),
{
    lemma_reserved_component_carries_over(a, b);
    lemma_reserved_component_carries_over(b, a);
}

/// A reserved component of one text is a reserved component of any text
/// that differs from it in case alone.
proof fn lemma_reserved_component_carries_over(a: Seq<char>, b: Seq<char>)
    requires
        same_but_case(a, b),
    ensures
        has_reserved_component(a) ==> has_reserved_component(b),
{
    if has_reserved_component(a) {
        let (start, end) = choose|start: int, end: int| #[trigger]
            is_component(a, start, end) && is_reserved_name(a.subrange(start, end));
        assert(is_component(b, start, end)) by {
            assert forall|k: int| start <= k < end implies #[trigger] b[k] != '/' by {
                assert(a[k] != '/');
            }
            if start > 0 {
                assert(a[start - 1] == '/');
            }
            if end < a.len() {
                assert(a[end] == '/');
            }
        }
    }
}

/// The white space around two texts that differ in case alone is the
/// same, and what it surrounds differs in case alone.
proof fn lemma_trim_ignores_case(a: Seq<char>, b: Seq<char>)
    requires
        same_but_case(a, b),
    ensures
        same_but_case(trim_whitespace(a), trim_whitespace(b)),
{
    let ws = |c: char| is_whitespace_char(c);
    lemma_skip_leading_result(a, ws);
    let inner_a = skip_leading(a, ws);
    let from = a.len() - inner_a.len();
    assert forall|k: int| 0 <= k < from implies ws(#[trigger] b[k]) by {
        assert(ws(a[k]));
    }
    lemma_skip_leading(b, ws, from);
    let inner_b = skip_leading(b, ws);
    lemma_drop_trailing_result(inner_a, ws);
    let t_a = drop_trailing(inner_a, ws);
    let to = t_a.len() as int;
    assert forall|k: int| to <= k < inner_b.len() implies ws(#[trigger] inner_b[k]) by {
        assert(ws(inner_a[k]));
    }
    lemma_drop_trailing(inner_b, ws, to);
}

/// The rejection of reserved names does not depend on the case of the
/// letters: of two raw texts that differ in case alone, either both are
/// refused for a reserved name or neither is.
pub proof fn lemma_reserved_rejection_ignores_case(a: Seq<char>, b: Seq<char>)
    requires
        same_but_case(a, b),
    ensures
        canonical_form(a) == Err::<Seq<char>, ErrorView>(ErrorView::ReservedWords(a))
            <==> canonical_form(b) == Err::<Seq<char>, ErrorView>(ErrorView::ReservedWords(b)),
{
    assert(has_forbidden_char(a) == has_forbidden_char(b)) by {
        if has_forbidden_char(a) {
            let i = choose|i: int| 0 <= i < a.len() && is_forbidden_char(#[trigger] a[i]);
            assert(is_forbidden_char(b[i]));
        }
        if has_forbidden_char(b) {
            let i = choose|i: int| 0 <= i < b.len() && is_forbidden_char(#[trigger] b[i]);
            assert(is_forbidden_char(a[i]));
        }
    }
    assert(has_control_char(a) == has_control_char(b)) by {
        if has_control_char(a) {
            let i = choose|i: int| 0 <= i < a.len() && is_control_char(#[trigger] a[i]);
            assert(is_control_char(b[i]));
        }
        if has_control_char(b) {
            let i = choose|i: int| 0 <= i < b.len() && is_control_char(#[trigger] b[i]);
            assert(is_control_char(a[i]));
        }
    }
    lemma_trim_ignores_case(a, b);
    lemma_reserved_component_ignores_case(normalized(a), normalized(b));
}

} // verus!
