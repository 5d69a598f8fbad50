//! Display width of text in terminal columns, as the `unicode-width` crate
//! computes it.

use unicode_width::{UnicodeWidthChar, UnicodeWidthStr};
use vstd::prelude::*;

verus! {

/// The display width of a string, as `UnicodeWidthStr::width` computes it.
pub uninterp spec fn str_width(s: Seq<char>) -> usize;

/// The display width of a character, as `UnicodeWidthChar::width` computes it
/// (`None` for control characters).
pub uninterp spec fn char_width(c: char) -> Option<usize>;

/// Every character is printable ASCII (from the space to `~`).
pub open spec fn printable_ascii(s: Seq<char>) -> bool {
    forall|i: int| 0 <= i < s.len() ==> '\u{20}' <= #[trigger] s[i] && s[i] <= '\u{7E}'
}

/// Trusted: calls `UnicodeWidthStr::width`; the result is named `str_width`,
/// a function of the characters alone. The crate's source
/// (`lookup::str_width` and `width_in_generic`) gives every character up to
/// U+00A0 one column, except a carriage return before a line feed, and
/// nothing else to a string of printable ASCII: such a string is as wide as
/// it is long.
#[verifier::external_body]
pub(crate) fn text_width(s: &str) -> (r: usize)
    ensures
        r == str_width(s@),
        printable_ascii(s@) ==> r == s@.len(),
{
    s.width()
}

/// Trusted: calls `UnicodeWidthChar::width`; the result is named `char_width`.
/// The crate's source (`lookup::single_char_width`) shows that printable ASCII
/// characters are one column wide, that the C0 and C1 control characters have
/// no width, and that every width comes from a `u8`.
#[verifier::external_body]
pub(crate) fn display_width(c: char) -> (r: Option<usize>)
    ensures
        r == char_width(c),
        ('\u{20}' <= c && c < '\u{7F}') ==> r == Some(1usize),
        (c < '\u{20}' || ('\u{7F}' <= c && c < '\u{A0}')) ==> r is None,
        r matches Some(w) ==> w <= 255,
{
    UnicodeWidthChar::width(c)
}

/// The columns a character takes when rendered: its width, or none.
pub open spec fn columns(c: char) -> nat {
    match char_width(c) {
        Some(w) => w as nat,
        None => 0,
    }
}

} // verus!
