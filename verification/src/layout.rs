//! Fitting text into a given number of terminal columns.

use vstd::prelude::*;
use crate::text::{chars_of, push_char, push_repeat, push_str, push_two_digits, repeat, two_digits};
use crate::width::{char_width, columns, display_width, str_width};
use crate::width_cache::WidthCache;

verus! {

/// Walk the characters from index `i` with `w` columns used, keeping
/// characters while they fit in `max` columns; gives the number of
/// characters kept and the columns they use.
pub open spec fn fit_from(cs: Seq<char>, max: nat, i: nat, w: nat) -> (nat, nat)
    decreases cs.len() - i,
{
    if i >= cs.len() {
        (i, w)
    } else if w + columns(cs[i as int]) > max {
        (i, w)
    } else {
        fit_from(cs, max, i + 1, w + columns(cs[i as int]))
    }
}

/// The characters that fit in `max` columns, padded with spaces to `max` columns.
pub open spec fn truncated(cs: Seq<char>, max: nat) -> Seq<char> {
    let (n, w) = fit_from(cs, max, 0, 0);
    cs.take(n as int) + repeat(' ', (max - w) as nat)
}

proof fn lemma_fit_bounded(cs: Seq<char>, max: nat, i: nat, w: nat)
    requires
        w <= max,
        i <= cs.len(),
    ensures
        fit_from(cs, max, i, w).1 <= max,
        i <= fit_from(cs, max, i, w).0 <= cs.len(),
    decreases cs.len() - i,
{
    if i < cs.len() && w + columns(cs[i as int]) <= max {
        lemma_fit_bounded(cs, max, i + 1, w + columns(cs[i as int]));
    }
}

/// Keep the characters of `s` that fit in `max_width` columns and pad with
/// spaces up to `max_width` columns.
pub fn truncate_by_width(s: &str, max_width: usize) -> (r: String)
    ensures
        r@ == truncated(s@, max_width as nat),
{
    let cs = chars_of(s);
    let mut result = String::new();
    let mut current_width: usize = 0;
    let mut i: usize = 0;
    proof {
        lemma_fit_bounded(cs@, max_width as nat, 0, 0);
    }
    while i < cs.len()
        invariant
            i <= cs@.len(),
            cs@ == s@,
            current_width <= max_width,
            fit_from(cs@, max_width as nat, 0, 0) == fit_from(
                cs@,
                max_width as nat,
                i as nat,
                current_width as nat,
            ),
            result@ == cs@.take(i as int),
        ensures
            i >= cs@.len() || current_width + columns(cs@[i as int]) > max_width,
        decreases cs@.len() - i,
    {
        let cw = match display_width(cs[i]) {
            Some(w) => w,
            None => 0,
        };
        assert(cw == columns(cs@[i as int]));
        if cw > max_width - current_width {
            break;
        }
        push_char(&mut result, cs[i]);
        current_width = current_width + cw;
        i = i + 1;
        assert(result@ == cs@.take(i as int));
    }
    assert(fit_from(cs@, max_width as nat, i as nat, current_width as nat) == (
    i as nat, current_width as nat));
    push_repeat(&mut result, ' ', max_width - current_width);
    result
}

/// What `truncate_by_width_cached` gives: short strings and strings not known
/// to fit are truncated; a cached string known to fit is padded as it is.
pub open spec fn truncated_with_cache(s: Seq<char>, bytes: nat, cached: bool, max: nat) -> Seq<
    char,
> {
    if bytes < 10 {
        truncated(s, max)
    } else if cached && str_width(s) <= max {
        s + repeat(' ', (max - str_width(s)) as nat)
    } else {
        truncated(s, max)
    }
}

/// Like `truncate_by_width`, but a string of ten bytes or more whose width is
/// cached and fits is only padded, without walking its characters.
pub fn truncate_by_width_cached(cache: &mut WidthCache, s: &str, max_width: usize) -> (r: String)
    ensures
        r@ == truncated_with_cache(s@, s.len() as nat, old(cache).has(s@), max_width as nat),
        *final(cache) == *old(cache),
{
    if s.len() < 10 {
        return truncate_by_width(s, max_width);
    }
    match cache.peek_width(s) {
        Some(cached_width) => {
            if cached_width <= max_width {
                let mut result = s.to_owned();
                push_repeat(&mut result, ' ', max_width - cached_width);
                return result;
            }
        },
        None => {},
    }
    truncate_by_width(s, max_width)
}

/// What `left_align_cached` gives.
pub open spec fn left_aligned_with_cache(s: Seq<char>, bytes: nat, width: nat) -> Seq<char> {
    if str_width(s) >= width {
        truncated_with_cache(s, bytes, true, width)
    } else {
        s + repeat(' ', (width - str_width(s)) as nat)
    }
}

/// Pad `s` with spaces to `width` columns, or truncate it when it is as wide
/// or wider; the width is looked up in (and added to) the cache.
pub fn left_align_cached(cache: &mut WidthCache, s: &str, width: usize) -> (r: String)
    requires
        old(cache).hit_count() < u64::MAX,
        old(cache).miss_count() < u64::MAX,
    ensures
        r@ == left_aligned_with_cache(s@, s.len() as nat, width as nat),
        final(cache).has(s@),
        final(cache).hit_count() + final(cache).miss_count() == old(cache).hit_count()
            + old(cache).miss_count() + 1,
{
    let display_width = cache.get_width(s);
    if display_width >= width {
        return truncate_by_width_cached(cache, s, width);
    }
    let mut result = s.to_owned();
    push_repeat(&mut result, ' ', width - display_width);
    result
}

/// The columns of the characters of `cs` from index `i` on.
pub open spec fn columns_from(cs: Seq<char>, i: nat) -> nat
    decreases cs.len() - i,
{
    if i >= cs.len() {
        0
    } else {
        columns(cs[i as int]) + columns_from(cs, i + 1)
    }
}

proof fn lemma_fit_whole(cs: Seq<char>, max: nat, i: nat, w: nat)
    requires
        i <= cs.len(),
        w + columns_from(cs, i) <= max,
    ensures
        fit_from(cs, max, i, w) == (cs.len(), w + columns_from(cs, i)),
    decreases cs.len() - i,
{
    if i < cs.len() {
        lemma_fit_whole(cs, max, i + 1, w + columns(cs[i as int]));
    }
}

/// When a string's width is the sum of its characters' widths, the cached
/// truncation gives what the plain one gives, whether or not the string is
/// cached: a string that fits is only padded either way.
pub proof fn lemma_cached_truncation_agrees(s: Seq<char>, bytes: nat, cached: bool, max: nat)
    requires
        str_width(s) == columns_from(s, 0),
    ensures
        truncated_with_cache(s, bytes, cached, max) == truncated(s, max),
{
    if str_width(s) <= max {
        lemma_fit_whole(s, max, 0, 0);
        assert(s.take(s.len() as int) == s);
    }
}

/// What `left_align` gives.
pub open spec fn left_aligned(s: Seq<char>, width: nat) -> Seq<char> {
    if str_width(s) >= width {
        truncated(s, width)
    } else {
        s + repeat(' ', (width - str_width(s)) as nat)
    }
}

/// When a string's width is the sum of its characters' widths, aligning
/// through the cache gives what plain aligning gives.
pub proof fn lemma_cached_alignment_agrees(s: Seq<char>, bytes: nat, width: nat)
    requires
        str_width(s) == columns_from(s, 0),
    ensures
        left_aligned_with_cache(s, bytes, width) == left_aligned(s, width),
{
    lemma_cached_truncation_agrees(s, bytes, true, width);
}

proof fn lemma_columns_shift(a: Seq<char>, b: Seq<char>, j: nat)
    requires
        j <= b.len(),
    ensures
        columns_from(a + b, (a.len() + j) as nat) == columns_from(b, j),
    decreases b.len() - j,
{
    if j < b.len() {
        assert((a + b)[(a.len() + j) as int] == b[j as int]);
        lemma_columns_shift(a, b, j + 1);
    }
}

proof fn lemma_columns_concat(a: Seq<char>, b: Seq<char>, i: nat)
    requires
        i <= a.len(),
    ensures
        columns_from(a + b, i) == columns_from(a, i) + columns_from(b, 0),
    decreases a.len() - i,
{
    if i < a.len() {
        assert((a + b)[i as int] == a[i as int]);
        lemma_columns_concat(a, b, i + 1);
    } else {
        lemma_columns_shift(a, b, 0);
    }
}

proof fn lemma_columns_spaces(n: nat, i: nat)
    requires
        i <= n,
        char_width(' ') == Some(1usize),
    ensures
        columns_from(repeat(' ', n), i) == n - i,
    decreases n - i,
{
    if i < n {
        lemma_columns_spaces(n, i + 1);
    }
}

proof fn lemma_fit_columns(cs: Seq<char>, max: nat, i: nat, w: nat)
    requires
        w <= max,
        i <= cs.len(),
    ensures
        columns_from(cs.take(fit_from(cs, max, i, w).0 as int), i) + w == fit_from(cs, max, i, w).1,
    decreases cs.len() - i,
{
    lemma_fit_bounded(cs, max, i, w);
    let (n, fw) = fit_from(cs, max, i, w);
    if i < cs.len() && w + columns(cs[i as int]) <= max {
        lemma_fit_columns(cs, max, i + 1, w + columns(cs[i as int]));
        lemma_fit_bounded(cs, max, i + 1, w + columns(cs[i as int]));
        assert(cs.take(n as int)[i as int] == cs[i as int]);
    }
}

/// When a string's width is the sum of its characters' widths and a space
/// is one column wide, aligned text (cached or not) takes exactly `width`
/// columns.
pub proof fn lemma_aligned_width(s: Seq<char>, bytes: nat, width: nat)
    requires
        str_width(s) == columns_from(s, 0),
        char_width(' ') == Some(1usize),
    ensures
        columns_from(left_aligned(s, width), 0) == width,
        columns_from(left_aligned_with_cache(s, bytes, width), 0) == width,
{
    lemma_cached_alignment_agrees(s, bytes, width);
    if str_width(s) >= width {
        lemma_fit_bounded(s, width, 0, 0);
        let (n, w) = fit_from(s, width, 0, 0);
        lemma_fit_columns(s, width, 0, 0);
        lemma_columns_concat(s.take(n as int), repeat(' ', (width - w) as nat), 0);
        lemma_columns_spaces((width - w) as nat, 0);
    } else {
        lemma_columns_concat(s, repeat(' ', (width - str_width(s)) as nat), 0);
        lemma_columns_spaces((width - str_width(s)) as nat, 0);
    }
}

/// Pad `s` with spaces to `width` columns, or truncate it when it is as wide or wider.
pub fn left_align(s: &str, width: usize) -> (r: String)
    ensures
        r@ == left_aligned(s@, width as nat),
{
    let display_width = crate::width::text_width(s);
    if display_width >= width {
        return truncate_by_width(s, width);
    }
    let mut result = s.to_owned();
    push_repeat(&mut result, ' ', width - display_width);
    result
}

/// "MM:SS" with minutes and seconds padded to two digits.
pub open spec fn duration_text(secs: nat) -> Seq<char> {
    two_digits(secs / 60) + seq![':'] + two_digits(secs % 60)
}

/// Format a duration given in seconds as "MM:SS".
pub fn format_duration(secs: u64) -> (r: String)
    ensures
        r@ == duration_text(secs as nat),
{
    let mut s = String::new();
    push_two_digits(&mut s, secs / 60);
    push_char(&mut s, ':');
    push_two_digits(&mut s, secs % 60);
    s
}

/// Walk the characters from index `i` with `w` columns used, keeping
/// characters while they and an ellipsis fit in `max` columns.
pub open spec fn ellipsis_fit(cs: Seq<char>, max: nat, i: nat, w: nat) -> nat
    decreases cs.len() - i,
{
    if i >= cs.len() {
        i
    } else if w + columns(cs[i as int]) + 3 > max {
        i
    } else {
        ellipsis_fit(cs, max, i + 1, w + columns(cs[i as int]))
    }
}

/// A string cut to fit `max` columns with "..." at the end, or unchanged when it fits.
pub open spec fn ellipsized(cs: Seq<char>, max: nat) -> Seq<char> {
    if str_width(cs) <= max {
        cs
    } else {
        let n = ellipsis_fit(cs, max, 0, 0);
        if n < cs.len() {
            cs.take(n as int) + seq!['.', '.', '.']
        } else {
            cs
        }
    }
}

/// Cut a line that is wider than `max_width` columns, ending it with "...".
pub fn ellipsize(s: &str, max_width: usize) -> (r: String)
    ensures
        r@ == ellipsized(s@, max_width as nat),
{
    if crate::width::text_width(s) <= max_width {
        return s.to_owned();
    }
    let cs = chars_of(s);
    let mut result = String::new();
    let mut current: u128 = 0;
    let mut i: usize = 0;
    while i < cs.len()
        invariant
            i <= cs@.len(),
            cs@ == s@,
            current <= i * 255,
            str_width(s@) > max_width,
            ellipsis_fit(cs@, max_width as nat, 0, 0) == ellipsis_fit(
                cs@,
                max_width as nat,
                i as nat,
                current as nat,
            ),
            result@ == cs@.take(i as int),
        decreases cs@.len() - i,
    {
        let cw = match display_width(cs[i]) {
            Some(w) => w,
            None => 0,
        };
        assert(cw == columns(cs@[i as int]));
        if current + (cw as u128) + 3 > max_width as u128 {
            push_char(&mut result, '.');
            push_char(&mut result, '.');
            push_char(&mut result, '.');
            assert(result@ == cs@.take(i as int) + seq!['.', '.', '.']);
            return result;
        }
        push_char(&mut result, cs[i]);
        current = current + cw as u128;
        i = i + 1;
        assert(result@ == cs@.take(i as int));
    }
    assert(cs@.take(cs@.len() as int) == cs@);
    result
}

/// A rectangle of terminal cells.
#[derive(Debug, Clone, Copy, PartialEq, Eq, Structural)]
pub struct Rect {
    pub x: u16,
    pub y: u16,
    pub width: u16,
    pub height: u16,
}

/// Place a rectangle of the image's size in the middle of the available area.
pub fn center_image(image_dimensions: Rect, available_area: Rect) -> (r: Rect)
    requires
        image_dimensions.width <= available_area.width,
        image_dimensions.height <= available_area.height,
        available_area.x + (available_area.width - image_dimensions.width) / 2 <= u16::MAX,
        available_area.y + (available_area.height - image_dimensions.height) / 2 <= u16::MAX,
    ensures
        r.x == available_area.x + (available_area.width - image_dimensions.width) / 2,
        r.y == available_area.y + (available_area.height - image_dimensions.height) / 2,
        r.width == image_dimensions.width,
        r.height == image_dimensions.height,
{
    Rect {
        x: available_area.x + (available_area.width - image_dimensions.width) / 2,
        y: available_area.y + (available_area.height - image_dimensions.height) / 2,
        width: image_dimensions.width,
        height: image_dimensions.height,
    }
}

} // verus!
