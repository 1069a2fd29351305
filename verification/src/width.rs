//! Display widths of characters and strings on a terminal, as the
//! `unicode-width` crate computes them.
use vstd::prelude::*;

use unicode_width::{UnicodeWidthChar, UnicodeWidthStr};

verus! {

/// What `UnicodeWidthChar::width` returns for a character.
pub uninterp spec fn char_width_spec(c: char) -> Option<usize>;

/// What `UnicodeWidthStr::width` returns for a string with these characters.
pub uninterp spec fn str_width_spec(s: Seq<char>) -> usize;

/// A printable ASCII character (space to tilde).
pub open spec fn is_printable_ascii(c: char) -> bool {
    '\u{20}' <= c && c < '\u{7F}'
}

/// A control character as the crate counts them: below U+0020, or from
/// U+007F up to U+00A0.
pub open spec fn is_width_control(c: char) -> bool {
    c < '\u{20}' || ('\u{7F}' <= c && c < '\u{A0}')
}

/// Calls `UnicodeWidthChar::width`. The crate returns `None` exactly for
/// control characters (below U+0020 and U+007F..U+009F), 1 for printable
/// ASCII, and otherwise a width of at most 3 read from its Unicode tables;
/// which width a given character gets from the tables is not stated.
#[verifier::external_body]
pub(crate) fn char_width(c: char) -> (r: Option<usize>)
    ensures
        r == char_width_spec(c),
        r is None <==> is_width_control(c),
        is_printable_ascii(c) ==> r == Some(1usize),
        r matches Some(w) ==> w <= 3,
{
    UnicodeWidthChar::width(c)
}

/// Calls `UnicodeWidthStr::width`. The result is named `str_width_spec`
/// of the characters; a string of printable ASCII characters is as wide
/// as it is long. The crate's rules for other characters (East Asian
/// widths, emoji sequences, `\r\n`) are not stated.
#[verifier::external_body]
pub(crate) fn str_width(s: &str) -> (r: usize)
    ensures
        r == str_width_spec(s@),
        (forall|i: int| 0 <= i < s@.len() ==> is_printable_ascii(#[trigger] s@[i])) ==> r
            == s@.len(),
{
    UnicodeWidthStr::width(s)
}

} // verus!
