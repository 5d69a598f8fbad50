//! Character-level scanning: white space, trimming, splitting and decimal numbers.

use vstd::prelude::*;
use crate::text::chars_of;

verus! {

/// The characters with the Unicode `White_Space` property, which
/// `char::is_whitespace` and `str::trim` recognise.
pub open spec fn is_space(c: char) -> bool {
    ('\u{9}' <= c && c <= '\u{d}') || c == ' ' || c == '\u{85}' || c == '\u{a0}' || c
        == '\u{1680}' || ('\u{2000}' <= c && c <= '\u{200a}') || c == '\u{2028}' || c == '\u{2029}'
        || c == '\u{202f}' || c == '\u{205f}' || c == '\u{3000}'
}

/// Tells whether a character is white space.
pub fn space_char(c: char) -> (r: bool)
    ensures
        r == is_space(c),
{
    ('\u{9}' <= c && c <= '\u{d}') || c == ' ' || c == '\u{85}' || c == '\u{a0}' || c
        == '\u{1680}' || ('\u{2000}' <= c && c <= '\u{200a}') || c == '\u{2028}' || c == '\u{2029}'
        || c == '\u{202f}' || c == '\u{205f}' || c == '\u{3000}'
}

/// The sequence without its leading characters that satisfy `p`.
pub open spec fn trim_start_by(s: Seq<char>, p: spec_fn(char) -> bool) -> Seq<char>
    decreases s.len(),
{
    if s.len() > 0 && p(s[0]) {
        trim_start_by(s.drop_first(), p)
    } else {
        s
    }
}

/// The sequence without its trailing characters that satisfy `p`.
pub open spec fn trim_end_by(s: Seq<char>, p: spec_fn(char) -> bool) -> Seq<char>
    decreases s.len(),
{
    if s.len() > 0 && p(s.last()) {
        trim_end_by(s.drop_last(), p)
    } else {
        s
    }
}

/// The sequence without leading and trailing white space, as `str::trim` gives it.
pub open spec fn trim(s: Seq<char>) -> Seq<char> {
    trim_end_by(trim_start_by(s, |c: char| is_space(c)), |c: char| is_space(c))
}

/// The index of the first character from which no leading character satisfies `p`.
proof fn lemma_trim_start_skip(s: Seq<char>, p: spec_fn(char) -> bool, i: int)
    requires
        0 <= i <= s.len(),
        forall|j: int| 0 <= j < i ==> p(#[trigger] s[j]),
    ensures
        trim_start_by(s, p) == trim_start_by(s.skip(i), p),
    decreases i,
{
    if i > 0 {
        assert(s.skip(1) == s.drop_first());
        lemma_trim_start_skip(s.drop_first(), p, i - 1);
        assert(s.drop_first().skip(i - 1) == s.skip(i));
    } else {
        assert(s.skip(0) == s);
    }
}

proof fn lemma_trim_end_take(s: Seq<char>, p: spec_fn(char) -> bool, k: int)
    requires
        0 <= k <= s.len(),
        forall|j: int| k <= j < s.len() ==> p(#[trigger] s[j]),
    ensures
        trim_end_by(s, p) == trim_end_by(s.take(k), p),
    decreases s.len() - k,
{
    if k < s.len() {
        assert(s.drop_last().take(k) == s.take(k));
        lemma_trim_end_take(s.drop_last(), p, k);
    } else {
        assert(s.take(k) == s);
    }
}

/// The characters from index `lo` up to, not including, `hi`.
pub fn slice_chars(cs: &Vec<char>, lo: usize, hi: usize) -> (r: Vec<char>)
    requires
        lo <= hi <= cs@.len(),
    ensures
        r@ == cs@.subrange(lo as int, hi as int),
{
    let mut r: Vec<char> = Vec::new();
    let mut i: usize = lo;
    while i < hi
        invariant
            lo <= i <= hi,
            hi <= cs@.len(),
            r@ == cs@.subrange(lo as int, i as int),
        decreases hi - i,
    {
        r.push(cs[i]);
        i = i + 1;
        assert(r@ == cs@.subrange(lo as int, i as int));
    }
    r
}

/// The characters without leading and trailing white space.
pub fn trim_chars(cs: &Vec<char>) -> (r: Vec<char>)
    ensures
        r@ == trim(cs@),
{
    let ghost sp = |c: char| is_space(c);
    let mut lo: usize = 0;
    while lo < cs.len() && space_char(cs[lo])
        invariant
            lo <= cs@.len(),
            forall|j: int| 0 <= j < lo ==> is_space(#[trigger] cs@[j]),
        decreases cs@.len() - lo,
    {
        lo = lo + 1;
    }
    proof {
        lemma_trim_start_skip(cs@, sp, lo as int);
    }
    let ghost t = cs@.skip(lo as int);
    assert(lo == cs@.len() || !sp(t[0]));
    assert(trim_start_by(t, sp) == t);
    let mut hi: usize = cs.len();
    while hi > lo && space_char(cs[hi - 1])
        invariant
            lo <= hi <= cs@.len(),
            forall|j: int| hi <= j < cs@.len() ==> is_space(#[trigger] cs@[j]),
        decreases hi - lo,
    {
        hi = hi - 1;
    }
    proof {
        lemma_trim_end_take(t, sp, hi - lo);
        assert(t.take(hi - lo) == cs@.subrange(lo as int, hi as int));
        let u = t.take(hi - lo);
        assert(u.len() == 0 || !sp(u.last()));
    }
    slice_chars(cs, lo, hi)
}

/// The characters without trailing white space, as `str::trim_end` gives them.
pub fn trim_end_chars(cs: &Vec<char>) -> (r: Vec<char>)
    ensures
        r@ == trim_end_by(cs@, |c: char| is_space(c)),
{
    let ghost sp = |c: char| is_space(c);
    let mut hi: usize = cs.len();
    while hi > 0 && space_char(cs[hi - 1])
        invariant
            hi <= cs@.len(),
            forall|j: int| hi <= j < cs@.len() ==> is_space(#[trigger] cs@[j]),
        decreases hi,
    {
        hi = hi - 1;
    }
    proof {
        lemma_trim_end_take(cs@, sp, hi as int);
        let u = cs@.take(hi as int);
        assert(u.len() == 0 || !sp(u.last()));
        assert(cs@.subrange(0, hi as int) == u);
    }
    slice_chars(cs, 0, hi)
}

/// The pieces of a sequence between the characters of `seps`, as
/// `str::split` gives them (an empty piece where two separators meet).
pub open spec fn split_by(s: Seq<char>, seps: Seq<char>) -> Seq<Seq<char>>
    decreases s.len(),
{
    if s.len() == 0 {
        seq![Seq::empty()]
    } else {
        let rest = split_by(s.drop_last(), seps);
        if seps.contains(s.last()) {
            rest.push(Seq::empty())
        } else {
            rest.update(rest.len() - 1, rest.last().push(s.last()))
        }
    }
}

proof fn lemma_split_nonempty(s: Seq<char>, seps: Seq<char>)
    ensures
        split_by(s, seps).len() >= 1,
    decreases s.len(),
{
    if s.len() > 0 {
        lemma_split_nonempty(s.drop_last(), seps);
    }
}

/// A sequence without separators is a single piece.
pub(crate) proof fn lemma_split_plain(s: Seq<char>, seps: Seq<char>)
    requires
        forall|i: int| 0 <= i < s.len() ==> !seps.contains(#[trigger] s[i]),
    ensures
        split_by(s, seps) == seq![s],
    decreases s.len(),
{
    if s.len() > 0 {
        let d = s.drop_last();
        assert forall|i: int| 0 <= i < d.len() implies !seps.contains(#[trigger] d[i]) by {
            assert(d[i] == s[i]);
        }
        lemma_split_plain(d, seps);
        assert(!seps.contains(s[s.len() - 1]));
        assert(d.push(s.last()) =~= s);
        assert(seq![d].update(0, d.push(s.last())) =~= seq![s]);
    } else {
        assert(s =~= Seq::<char>::empty());
    }
}

/// Splitting at a separator splits the two sides apart.
pub(crate) proof fn lemma_split_append(a: Seq<char>, c: char, b: Seq<char>, seps: Seq<char>)
    requires
        seps.contains(c),
    ensures
        split_by(a.push(c) + b, seps) == split_by(a, seps) + split_by(b, seps),
    decreases b.len(),
{
    let s = a.push(c) + b;
    if b.len() == 0 {
        assert(s =~= a.push(c));
        assert(s.drop_last() =~= a);
        assert(split_by(a, seps) + seq![Seq::<char>::empty()] =~= split_by(a, seps).push(
            Seq::empty(),
        ));
    } else {
        let bd = b.drop_last();
        lemma_split_append(a, c, bd, seps);
        assert(s.drop_last() =~= a.push(c) + bd);
        assert(s.last() == b.last());
        lemma_split_nonempty(bd, seps);
        let x = split_by(a, seps);
        let y = split_by(bd, seps);
        if seps.contains(b.last()) {
            assert((x + y).push(Seq::empty()) =~= x + y.push(Seq::empty()));
        } else {
            let yl = y.update(y.len() - 1, y.last().push(b.last()));
            assert((x + y).update((x + y).len() - 1, (x + y).last().push(b.last())) =~= x + yl);
        }
    }
}

/// A sequence that is one white-space character and then text that neither
/// begins nor ends with white space trims to that text.
pub(crate) proof fn lemma_trim_plain(s: Seq<char>, v: Seq<char>)
    requires
        s.len() > 0,
        is_space(s[0]),
        s.drop_first() == v,
        v.len() > 0,
        !is_space(v[0]),
        !is_space(v.last()),
    ensures
        trim(s) == v,
{
    let p = |c: char| is_space(c);
    assert(trim_start_by(v, p) == v);
    assert(trim_start_by(s, p) == v);
    assert(trim_end_by(v, p) == v);
}

/// A decimal digit.
pub open spec fn is_digit(c: char) -> bool {
    '0' <= c && c <= '9'
}

/// Every character is a decimal digit.
pub open spec fn all_digits(s: Seq<char>) -> bool {
    forall|i: int| 0 <= i < s.len() ==> is_digit(#[trigger] s[i])
}

/// The value of a string of decimal digits.
pub open spec fn digits_value(s: Seq<char>) -> nat
    decreases s.len(),
{
    if s.len() == 0 {
        0
    } else {
        digits_value(s.drop_last()) * 10 + ((s.last() as int - '0' as int) as nat)
    }
}

/// The number a string holds as `str::parse::<u32>` reads it: an optional
/// `+` and at least one decimal digit, with a value that fits in a `u32`.
pub open spec fn parse_u32(s: Seq<char>) -> Option<u32> {
    let body = if s.len() > 0 && s[0] == '+' {
        s.drop_first()
    } else {
        s
    };
    if body.len() == 0 {
        None
    } else if !all_digits(body) {
        None
    } else if digits_value(body) > u32::MAX {
        None
    } else {
        Some(digits_value(body) as u32)
    }
}

proof fn lemma_digits_value_monotonic(s: Seq<char>, k: int)
    requires
        0 <= k <= s.len(),
        forall|i: int| 0 <= i < s.len() ==> is_digit(#[trigger] s[i]),
    ensures
        digits_value(s.take(k)) <= digits_value(s),
    decreases s.len() - k,
{
    if k < s.len() {
        assert(s.drop_last().take(k) == s.take(k));
        lemma_digits_value_monotonic(s.drop_last(), k);
    } else {
        assert(s.take(k) == s);
    }
}

/// Reads a number the way `str::parse::<u32>` does.
pub fn parse_u32_chars(s: &Vec<char>) -> (r: Option<u32>)
    ensures
        r == parse_u32(s@),
{
    let mut start: usize = 0;
    if s.len() > 0 && s[0] == '+' {
        start = 1;
    }
    let ghost body = if s@.len() > 0 && s@[0] == '+' {
        s@.drop_first()
    } else {
        s@
    };
    assert(body == s@.skip(start as int));
    if start >= s.len() {
        return None;
    }
    let mut value: u64 = 0;
    let mut i: usize = start;
    while i < s.len()
        invariant
            start <= i <= s@.len(),
            body == s@.skip(start as int),
            body == (if s@.len() > 0 && s@[0] == '+' {
                s@.drop_first()
            } else {
                s@
            }),
            body.len() > 0,
            forall|j: int| start <= j < i ==> is_digit(#[trigger] s@[j]),
            value == digits_value(body.take(i - start)),
            value <= u32::MAX,
        decreases s@.len() - i,
    {
        let c = s[i];
        if !('0' <= c && c <= '9') {
            assert(body[i - start] == s@[i as int]);
            assert(!is_digit(body[i - start]));
            return None;
        }
        let d = (c as u32 - '0' as u32) as u64;
        assert(body.take(i - start + 1).drop_last() == body.take(i - start));
        assert(body.take(i - start + 1).last() == c);
        let next = value * 10 + d;
        if next > 4294967295u64 {
            proof {
                assert(next == digits_value(body.take(i - start + 1)));
                if all_digits(body) {
                    lemma_digits_value_monotonic(body, i - start + 1);
                }
            }
            return None;
        }
        value = next;
        i = i + 1;
    }
    assert(body.take(i - start) == body);
    Some(value as u32)
}

/// Reads a number the way `str::parse::<u32>` does.
pub fn parse_u32_str(s: &str) -> (r: Option<u32>)
    ensures
        r == parse_u32(s@),
{
    let cs = chars_of(s);
    parse_u32_chars(&cs)
}

/// The pattern occurs in `h` at index `i`.
pub open spec fn occurs_at(h: Seq<char>, p: Seq<char>, i: int) -> bool {
    0 <= i && i + p.len() <= h.len() && h.subrange(i, i + p.len()) == p
}

/// The first index from `i` on at which the pattern occurs, as `str::find`
/// gives it (counted in characters).
pub open spec fn find_from(h: Seq<char>, p: Seq<char>, i: int) -> Option<int>
    decreases h.len() + 1 - i,
{
    if i < 0 || i + p.len() > h.len() {
        None
    } else if occurs_at(h, p, i) {
        Some(i)
    } else {
        find_from(h, p, i + 1)
    }
}

/// A position found by `find_from` is an occurrence at or after the start.
pub(crate) proof fn lemma_find_from_found(h: Seq<char>, p: Seq<char>, i: int)
    requires
        0 <= i,
    ensures
        find_from(h, p, i) matches Some(k) ==> i <= k && occurs_at(h, p, k),
    decreases h.len() + 1 - i,
{
    if i + p.len() <= h.len() && !occurs_at(h, p, i) {
        lemma_find_from_found(h, p, i + 1);
    }
}

fn occurs_at_exec(h: &Vec<char>, p: &Vec<char>, i: usize) -> (r: bool)
    requires
        i + p@.len() <= h@.len(),
    ensures
        r == occurs_at(h@, p@, i as int),
{
    let mut k: usize = 0;
    while k < p.len()
        invariant
            k <= p@.len(),
            i + p@.len() <= h.len(),
            forall|j: int| 0 <= j < k ==> h@[i + j] == p@[j],
        decreases p@.len() - k,
    {
        if h[i + k] != p[k] {
            assert(h@.subrange(i as int, i + p@.len())[k as int] != p@[k as int]);
            return false;
        }
        k = k + 1;
    }
    assert(h@.subrange(i as int, i + p@.len()) =~= p@);
    true
}

/// The first index at which the pattern occurs.
pub fn find_chars(h: &Vec<char>, p: &Vec<char>) -> (r: Option<usize>)
    ensures
        match r {
            Some(k) => find_from(h@, p@, 0) == Some(k as int),
            None => find_from(h@, p@, 0) is None,
        },
{
    if p.len() > h.len() {
        return None;
    }
    if p.len() == 0 {
        assert(h@.subrange(0, 0) =~= p@);
        assert(occurs_at(h@, p@, 0));
        return Some(0);
    }
    let last = h.len() - p.len();
    let mut i: usize = 0;
    while i <= last
        invariant
            last + p@.len() == h.len(),
            p@.len() >= 1,
            i <= last + 1,
            find_from(h@, p@, 0) == find_from(h@, p@, i as int),
        decreases last + 1 - i,
    {
        if occurs_at_exec(h, p, i) {
            return Some(i);
        }
        i = i + 1;
    }
    None
}

/// The lines of a text as `str::lines` gives them: split at `\n`, with a
/// `\r` before the `\n` removed, and no final empty line.
pub open spec fn lines(s: Seq<char>) -> Seq<Seq<char>> {
    let ps = split_by(s, seq!['\n']);
    let ended = Seq::new(
        (ps.len() - 1) as nat,
        |i: int|
            if ps[i].len() > 0 && ps[i].last() == '\r' {
                ps[i].drop_last()
            } else {
                ps[i]
            },
    );
    if ps.last().len() == 0 {
        ended
    } else {
        ended.push(ps.last())
    }
}

fn is_one_of(c: char, seps: &Vec<char>) -> (r: bool)
    ensures
        r == seps@.contains(c),
{
    let mut i: usize = 0;
    while i < seps.len()
        invariant
            i <= seps@.len(),
            forall|j: int| 0 <= j < i ==> seps@[j] != c,
        decreases seps@.len() - i,
    {
        if seps[i] == c {
            return true;
        }
        i = i + 1;
    }
    false
}

/// The views of a list of character vectors.
pub open spec fn char_views(v: Seq<Vec<char>>) -> Seq<Seq<char>> {
    v.map_values(|x: Vec<char>| x@)
}

/// The pieces of a character sequence between separators.
pub fn split_chars(cs: &Vec<char>, seps: &Vec<char>) -> (r: Vec<Vec<char>>)
    ensures
        char_views(r@) == split_by(cs@, seps@),
        r@.len() >= 1,
{
    let mut r: Vec<Vec<char>> = Vec::new();
    let mut cur: Vec<char> = Vec::new();
    let mut i: usize = 0;
    assert(cs@.take(0) == Seq::<char>::empty());
    assert(char_views(r@).push(cur@) =~= split_by(cs@.take(0), seps@));
    while i < cs.len()
        invariant
            i <= cs@.len(),
            char_views(r@).push(cur@) == split_by(cs@.take(i as int), seps@),
        decreases cs@.len() - i,
    {
        let c = cs[i];
        let ghost before = char_views(r@).push(cur@);
        let ghost t = cs@.take(i + 1);
        assert(t.drop_last() == cs@.take(i as int));
        assert(t.last() == c);
        if is_one_of(c, seps) {
            let mut done: Vec<char> = Vec::new();
            std::mem::swap(&mut done, &mut cur);
            r.push(done);
            assert(char_views(r@).push(cur@) =~= before.push(Seq::empty()));
        } else {
            cur.push(c);
            assert(char_views(r@).push(cur@) =~= before.update(
                before.len() - 1,
                before.last().push(c),
            ));
        }
        i = i + 1;
    }
    assert(cs@.take(cs@.len() as int) == cs@);
    let ghost views_before = char_views(r@);
    r.push(cur);
    assert(char_views(r@) =~= views_before.push(cur@));
    r
}

/// The lines of a text, as `str::lines` gives them.
pub fn lines_of(cs: &Vec<char>) -> (r: Vec<Vec<char>>)
    ensures
        char_views(r@) == lines(cs@),
{
    let mut seps: Vec<char> = Vec::new();
    seps.push('\n');
    assert(seps@ == seq!['\n']);
    let ps = split_chars(cs, &seps);
    let ghost pv = char_views(ps@);
    let n = ps.len();
    let mut r: Vec<Vec<char>> = Vec::new();
    let mut i: usize = 0;
    while i + 1 < n
        invariant
            n == ps@.len(),
            n >= 1,
            i + 1 <= n,
            pv == char_views(ps@),
            char_views(r@) == Seq::new(
                i as nat,
                |k: int|
                    if pv[k].len() > 0 && pv[k].last() == '\r' {
                        pv[k].drop_last()
                    } else {
                        pv[k]
                    },
            ),
        decreases n - i,
    {
        let piece = &ps[i];
        assert(piece@ == pv[i as int]);
        let ghost before = char_views(r@);
        if piece.len() > 0 && piece[piece.len() - 1] == '\r' {
            let cut = slice_chars(piece, 0, piece.len() - 1);
            assert(cut@ == pv[i as int].drop_last());
            r.push(cut);
            assert(char_views(r@) =~= before.push(pv[i as int].drop_last()));
        } else {
            let whole = slice_chars(piece, 0, piece.len());
            assert(whole@ == pv[i as int]);
            r.push(whole);
            assert(char_views(r@) =~= before.push(pv[i as int]));
        }
        i = i + 1;
        assert(char_views(r@) =~= Seq::new(
            i as nat,
            |k: int|
                if pv[k].len() > 0 && pv[k].last() == '\r' {
                    pv[k].drop_last()
                } else {
                    pv[k]
                },
        ));
    }
    let last = &ps[n - 1];
    if last.len() > 0 {
        let ghost before = char_views(r@);
        let whole = slice_chars(last, 0, last.len());
        assert(whole@ == pv.last());
        r.push(whole);
        assert(char_views(r@) =~= before.push(pv.last()));
    }
    r
}

/// The sequence without its leading copies of `ch`, as `str::trim_start_matches` gives it.
pub open spec fn trim_start_char(s: Seq<char>, ch: char) -> Seq<char>
    decreases s.len(),
{
    if s.len() > 0 && s[0] == ch {
        trim_start_char(s.drop_first(), ch)
    } else {
        s
    }
}

/// The sequence without its trailing copies of `ch`, as `str::trim_end_matches` gives it.
pub open spec fn trim_end_char(s: Seq<char>, ch: char) -> Seq<char>
    decreases s.len(),
{
    if s.len() > 0 && s.last() == ch {
        trim_end_char(s.drop_last(), ch)
    } else {
        s
    }
}

proof fn lemma_trim_start_char_skip(s: Seq<char>, ch: char, i: int)
    requires
        0 <= i <= s.len(),
        forall|j: int| 0 <= j < i ==> #[trigger] s[j] == ch,
    ensures
        trim_start_char(s, ch) == trim_start_char(s.skip(i), ch),
    decreases i,
{
    if i > 0 {
        lemma_trim_start_char_skip(s.drop_first(), ch, i - 1);
        assert(s.drop_first().skip(i - 1) == s.skip(i));
    } else {
        assert(s.skip(0) == s);
    }
}

proof fn lemma_trim_end_char_take(s: Seq<char>, ch: char, k: int)
    requires
        0 <= k <= s.len(),
        forall|j: int| k <= j < s.len() ==> #[trigger] s[j] == ch,
    ensures
        trim_end_char(s, ch) == trim_end_char(s.take(k), ch),
    decreases s.len() - k,
{
    if k < s.len() {
        assert(s.drop_last().take(k) == s.take(k));
        lemma_trim_end_char_take(s.drop_last(), ch, k);
    } else {
        assert(s.take(k) == s);
    }
}

/// The characters without their leading copies of `ch`.
pub fn trim_start_matching(cs: &Vec<char>, ch: char) -> (r: Vec<char>)
    ensures
        r@ == trim_start_char(cs@, ch),
{
    let mut lo: usize = 0;
    while lo < cs.len() && cs[lo] == ch
        invariant
            lo <= cs@.len(),
            forall|j: int| 0 <= j < lo ==> #[trigger] cs@[j] == ch,
        decreases cs@.len() - lo,
    {
        lo = lo + 1;
    }
    proof {
        lemma_trim_start_char_skip(cs@, ch, lo as int);
        assert(cs@.skip(lo as int) == cs@.subrange(lo as int, cs@.len() as int));
    }
    slice_chars(cs, lo, cs.len())
}

/// The characters without their trailing copies of `ch`.
pub fn trim_end_matching(cs: &Vec<char>, ch: char) -> (r: Vec<char>)
    ensures
        r@ == trim_end_char(cs@, ch),
{
    let mut hi: usize = cs.len();
    while hi > 0 && cs[hi - 1] == ch
        invariant
            hi <= cs@.len(),
            forall|j: int| hi <= j < cs@.len() ==> #[trigger] cs@[j] == ch,
        decreases hi,
    {
        hi = hi - 1;
    }
    proof {
        lemma_trim_end_char_take(cs@, ch, hi as int);
        assert(cs@.take(hi as int) == cs@.subrange(0, hi as int));
    }
    slice_chars(cs, 0, hi)
}

/// The finished words and the word in progress after reading `s`.
pub open spec fn word_state(s: Seq<char>) -> (Seq<Seq<char>>, Seq<char>)
    decreases s.len(),
{
    if s.len() == 0 {
        (Seq::empty(), Seq::empty())
    } else {
        let (done, cur) = word_state(s.drop_last());
        if is_space(s.last()) {
            if cur.len() > 0 {
                (done.push(cur), Seq::empty())
            } else {
                (done, Seq::empty())
            }
        } else {
            (done, cur.push(s.last()))
        }
    }
}

/// The maximal runs of characters that are not white space, as
/// `str::split_whitespace` gives them.
pub open spec fn words(s: Seq<char>) -> Seq<Seq<char>> {
    let (done, cur) = word_state(s);
    if cur.len() > 0 {
        done.push(cur)
    } else {
        done
    }
}

/// The words of a character sequence.
pub fn words_of(cs: &Vec<char>) -> (r: Vec<Vec<char>>)
    ensures
        char_views(r@) == words(cs@),
{
    let mut done: Vec<Vec<char>> = Vec::new();
    let mut cur: Vec<char> = Vec::new();
    let mut i: usize = 0;
    assert(cs@.take(0) == Seq::<char>::empty());
    while i < cs.len()
        invariant
            i <= cs@.len(),
            (char_views(done@), cur@) == word_state(cs@.take(i as int)),
        decreases cs@.len() - i,
    {
        let c = cs[i];
        let ghost t = cs@.take(i + 1);
        assert(t.drop_last() == cs@.take(i as int));
        assert(t.last() == c);
        let ghost before = char_views(done@);
        if space_char(c) {
            if cur.len() > 0 {
                let mut finished: Vec<char> = Vec::new();
                std::mem::swap(&mut finished, &mut cur);
                done.push(finished);
                assert(char_views(done@) =~= before.push(finished@));
            }
        } else {
            cur.push(c);
        }
        i = i + 1;
    }
    assert(cs@.take(cs@.len() as int) == cs@);
    if cur.len() > 0 {
        let ghost before = char_views(done@);
        done.push(cur);
        assert(char_views(done@) =~= before.push(cur@));
    }
    done
}

} // verus!
