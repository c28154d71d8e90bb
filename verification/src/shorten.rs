//! A path cut down for display, so that a long one does not wrap a line.

use vstd::prelude::*;
use crate::error::{text_result_view, Error, ErrorView};
use crate::path::CrossPathBuf;
use crate::text::{chars_of, push_range};

verus! {

/// The three dots that stand for what was cut out.
pub open spec fn ellipsis() -> Seq<char> {
    seq!['.', '.', '.']
}

/// The number of characters kept on each side of the dots when a text is
/// cut down to `max_char` characters.
pub open spec fn kept_on_each_side(max_char: int) -> int {
    max_char / 2 - 2
}

/// `text` as it is shown where at most `max_char` characters fit: the text
/// itself where it is short enough, and else its first and its last
/// characters with three dots between them. Where `max_char` leaves no room
/// on the sides, a longer text cannot be shown.
pub open spec fn shortened(text: Seq<char>, max_char: int) -> Result<Seq<char>, ErrorView> {
    let half = kept_on_each_side(max_char);
    if text.len() <= max_char {
        Ok(text)
    } else if half < 0 {
        Err(ErrorView::CharIndicesNthError(text))
    } else {
        Ok(text.take(half) + ellipsis() + text.skip(text.len() - half))
    }
}

impl CrossPathBuf {
    /// The text of this path in at most `max_char` characters. Characters
    /// are counted, not bytes, so none is ever split.
    pub fn short_string(&self, max_char: u16) -> (r: Result<String, Error>)
        ensures
            text_result_view(r) == shortened(self@, max_char as int),
    {
        let v = chars_of(self.as_str());
        if v.len() <= max_char as usize {
            return Ok(self.to_string());
        }
        if max_char / 2 < 2 {
            return Err(Error::CharIndicesNthError(self.to_string()));
        }
        let half: usize = (max_char / 2 - 2) as usize;
        let mut out = String::new();
        push_range(&mut out, &v, 0, half);
        out.push('.');
        out.push('.');
        out.push('.');
        push_range(&mut out, &v, v.len() - half, v.len());
        proof {
            let head = v@.take(half as int);
            assert((Seq::<char>::empty() + head).push('.').push('.').push('.') == head
                + ellipsis());
        }
        Ok(out)
    }
}

} // verus!
